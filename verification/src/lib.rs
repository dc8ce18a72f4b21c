//! A fallible growth primitive for a growable contiguous buffer.
//!
//! Code that parses untrusted input must be able to request buffer sizes
//! derived from attacker-controlled fields without risking an uncatchable
//! abort on out-of-memory. Every growth operation here returns a
//! recoverable error instead: arithmetic that would overflow the
//! address-width integer is rejected before any allocation is attempted,
//! and a denied allocation leaves the buffer exactly as it was.

mod buffer;
mod error;
mod storage;

pub use buffer::checked_product;
pub use buffer::next_push_capacity;
pub use buffer::FallibleVec;
pub use buffer::GrowableBuffer;
pub use error::AllocationError;
pub use storage::SimAllocator;
pub use storage::Slot;
