use vstd::prelude::*;

verus! {

/// Why a growth operation failed.
///
/// Both variants are ordinary recoverable results: no growth path panics
/// or aborts, whatever size the caller asks for. The caller decides how to
/// react, typically by rejecting the input whose fields produced the
/// request.
#[derive(Clone, Copy, Debug, PartialEq, Eq, Structural)]
pub enum AllocationError {
    /// The requested capacity, doubled or converted to a byte count,
    /// exceeds the address-width unsigned integer.
    CapacityOverflow,
    /// The allocator had no memory for a well-formed request.
    AllocationFailure,
}

} // verus!
