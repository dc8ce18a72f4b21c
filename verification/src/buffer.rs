use vstd::prelude::*;

use crate::error::AllocationError;
use crate::storage::zero_fill;
use crate::storage::SimAllocator;
use crate::storage::Slot;

verus! {

/// The number of bytes that back a block of `cap` elements.
pub open spec fn byte_size<T>(cap: nat) -> nat {
    cap * vstd::layout::size_of::<T>()
}

/// Whether a block of `cap` elements can be described to an allocator at
/// all: the element count and its byte size must both fit the
/// address-width unsigned integer.
pub open spec fn byte_count_representable<T>(cap: nat) -> bool {
    cap <= usize::MAX && byte_size::<T>(cap) <= usize::MAX
}

/// The capacity an append targets when the buffer is full: a first block
/// of four elements, then geometric doubling.
pub open spec fn push_target(cap: nat) -> nat {
    if cap == 0 {
        4
    } else {
        2 * cap
    }
}

/// Whether a request to grow a block to `cap` elements is granted: the
/// capacity must be representable in bytes and the allocator must have
/// memory.
pub open spec fn growth_succeeds<T>(cap: nat, alloc_failing: bool) -> bool {
    byte_count_representable::<T>(cap) && !alloc_failing
}

/// Whether `r` reports the failure `e`.
pub open spec fn failed_with(r: Result<(), AllocationError>, e: AllocationError) -> bool {
    r == Err::<(), AllocationError>(e)
}

/// Overflow-checked product of two counts: their product, or `None`
/// exactly when the mathematical product exceeds the address-width
/// unsigned integer.
pub fn checked_product(a: usize, b: usize) -> (r: Option<usize>)
    ensures
        r == (if a * b > usize::MAX {
            None::<usize>
        } else {
            Some((a * b) as usize)
        }),
{
    a.checked_mul(b)
}

/// The growth policy for an append into a full buffer: the next capacity,
/// or `None` exactly when the doubling would exceed the address-width
/// unsigned integer.
pub fn next_push_capacity(capacity: usize) -> (r: Option<usize>)
    ensures
        r == (if push_target(capacity as nat) <= usize::MAX {
            Some(push_target(capacity as nat) as usize)
        } else {
            None::<usize>
        }),
{
    if capacity == 0 {
        Some(4)
    } else {
        capacity.checked_mul(2)
    }
}

/// Fallible growth operations over a growable buffer.
///
/// Every operation either succeeds, or reports a recoverable
/// [`AllocationError`] and leaves the buffer exactly as it was: growth
/// never panics and never aborts, whatever size an untrusted caller asks
/// for.
pub trait FallibleVec<T>: Sized {
    /// The buffer's structural invariant.
    spec fn inv(&self) -> bool;

    /// The number of initialized elements.
    spec fn spec_len(&self) -> nat;

    /// The number of elements the current block can hold without growing.
    spec fn spec_cap(&self) -> nat;

    /// The initialized elements, in order.
    spec fn elems(&self) -> Seq<T>;

    /// Whether the slot at index `i` is reserved memory known to read as
    /// all-zero bytes.
    spec fn slot_zeroed(&self, i: int) -> bool;

    /// Whether the buffer's allocator denies every request.
    spec fn alloc_failing(&self) -> bool;

    /// Append `value` to the end of the buffer, growing the block first
    /// when it is full. Succeeds exactly when a slot is free or the grown
    /// block can be had; on failure the buffer is left exactly as it was.
    fn try_push(&mut self, value: T) -> (r: Result<(), AllocationError>)
        requires
            old(self).inv(),
        ensures
            final(self).inv(),
            final(self).alloc_failing() == old(self).alloc_failing(),
            r is Ok <==> old(self).spec_len() < old(self).spec_cap() || growth_succeeds::<T>(
                push_target(old(self).spec_cap()),
                old(self).alloc_failing(),
            ),
            r is Ok ==> {
                &&& final(self).spec_len() == old(self).spec_len() + 1
                &&& final(self).elems() == old(self).elems().push(value)
                &&& final(self).spec_len() <= final(self).spec_cap()
                &&& final(self).spec_cap() >= 1
                &&& final(self).spec_cap() == (if old(self).spec_len() < old(self).spec_cap() {
                    old(self).spec_cap()
                } else {
                    push_target(old(self).spec_cap())
                })
            },
            (r is Ok && old(self).spec_len() == old(self).spec_cap()) ==> final(self).spec_cap()
                > old(self).spec_cap() && final(self).spec_cap() >= (if old(self).spec_cap() == 0 {
                4
            } else {
                2 * old(self).spec_cap()
            }),
            forall|i: int|
                old(self).spec_len() < i < final(self).spec_cap() ==> #[trigger] final(self).slot_zeroed(i) == old(self).slot_zeroed(i),
            r is Err ==> *final(self) == *old(self),
            failed_with(r, AllocationError::CapacityOverflow) <==> old(self).spec_len() == old(self).spec_cap() && !byte_count_representable::<T>(push_target(old(self).spec_cap())),
            failed_with(r, AllocationError::AllocationFailure) <==> old(self).spec_len() == old(self).spec_cap() && byte_count_representable::<T>(push_target(old(self).spec_cap()))
                && old(self).alloc_failing(),
    ;

    /// Grow the buffer's capacity by `additional` elements, zero-filling
    /// the memory outside the initialized range when `zeroed` is set.
    /// Asking for nothing is a no-op that makes no allocation request;
    /// otherwise the request succeeds exactly when the target capacity is
    /// representable in bytes and the allocator has memory. On failure the
    /// buffer is left exactly as it was.
    fn try_reserve(&mut self, additional: usize, zeroed: bool) -> (r: Result<
        (),
        AllocationError,
    >)
        requires
            old(self).inv(),
        ensures
            final(self).inv(),
            final(self).spec_len() == old(self).spec_len(),
            final(self).elems() == old(self).elems(),
            final(self).alloc_failing() == old(self).alloc_failing(),
            r is Ok <==> additional == 0 || growth_succeeds::<T>(
                (old(self).spec_cap() + additional) as nat,
                old(self).alloc_failing(),
            ),
            additional == 0 ==> r is Ok && *final(self) == *old(self),
            r is Ok ==> final(self).spec_cap() == old(self).spec_cap() + additional,
            (r is Ok && zeroed && additional > 0) ==> forall|i: int|
                old(self).spec_len() <= i < final(self).spec_cap() ==> #[trigger] final(self).slot_zeroed(i),
            (r is Ok && !zeroed) ==> (forall|i: int|
                old(self).spec_len() <= i < old(self).spec_cap() ==> #[trigger] final(self).slot_zeroed(i) == old(self).slot_zeroed(i)) && (forall|i: int|
                old(self).spec_cap() <= i < final(self).spec_cap() ==> !(#[trigger] final(self).slot_zeroed(i))),
            r is Err ==> *final(self) == *old(self),
            failed_with(r, AllocationError::CapacityOverflow) <==> additional > 0
                && !byte_count_representable::<T>((old(self).spec_cap() + additional) as nat),
            failed_with(r, AllocationError::AllocationFailure) <==> additional > 0
                && byte_count_representable::<T>((old(self).spec_cap() + additional) as nat) && old(self).alloc_failing(),
    ;
}

/// A growable contiguous buffer whose every growth path is fallible.
///
/// The backing block is a sequence of [`Slot`]s: its length is the
/// buffer's capacity, the first `len` slots hold the initialized elements,
/// and the rest are reserved memory, `Zeroed` where it is known to read as
/// zero bytes and `Vacant` where its contents are unspecified. The block
/// is owned by exactly one buffer: a successful reallocation replaces
/// which block the buffer owns, and the displaced block is consumed by the
/// reallocation itself, never released twice.
pub struct GrowableBuffer<T> {
    slots: Vec<Slot<T>>,
    len: usize,
    alloc: SimAllocator,
}

impl<T> GrowableBuffer<T> {
    /// An empty buffer: no block, no elements, an allocator that grants
    /// every request.
    pub fn new() -> (r: GrowableBuffer<T>)
        ensures
            r.inv(),
            r.spec_len() == 0,
            r.spec_cap() == 0,
            r.elems() == Seq::<T>::empty(),
            !r.alloc_failing(),
    {
        let r = GrowableBuffer { slots: Vec::new(), len: 0, alloc: SimAllocator::new() };
        proof {
            assert(r.elems() =~= Seq::<T>::empty());
        }
        r
    }

    /// An empty buffer that draws its memory from `alloc`.
    pub fn with_allocator(alloc: SimAllocator) -> (r: GrowableBuffer<T>)
        ensures
            r.inv(),
            r.spec_len() == 0,
            r.spec_cap() == 0,
            r.elems() == Seq::<T>::empty(),
            r.alloc_failing() == alloc.is_failing(),
    {
        let r = GrowableBuffer { slots: Vec::new(), len: 0, alloc };
        proof {
            assert(r.elems() =~= Seq::<T>::empty());
        }
        r
    }

    /// Replace the buffer's allocator. The block and the elements are
    /// untouched.
    pub fn set_allocator(&mut self, alloc: SimAllocator)
        ensures
            final(self).inv() == old(self).inv(),
            final(self).spec_len() == old(self).spec_len(),
            final(self).spec_cap() == old(self).spec_cap(),
            final(self).elems() == old(self).elems(),
            forall|i: int| #[trigger]
                final(self).slot_zeroed(i) == old(self).slot_zeroed(i),
            final(self).alloc_failing() == alloc.is_failing(),
    {
        self.alloc = alloc;
        proof {
            assert(self.elems() =~= old(self).elems());
        }
    }

    /// The number of initialized elements.
    pub fn len(&self) -> (r: usize)
        ensures
            r as nat == self.spec_len(),
    {
        self.len
    }

    /// The number of elements the current block can hold without growing.
    pub fn capacity(&self) -> (r: usize)
        ensures
            r as nat == self.spec_cap(),
    {
        self.slots.len()
    }

    /// The element at index `i`.
    pub fn get(&self, i: usize) -> (r: &T)
        requires
            self.inv(),
            i < self.spec_len(),
        ensures
            *r == self.elems()[i as int],
    {
        match &self.slots[i] {
            Slot::Occupied(v) => v,
            _ => vstd::pervasive::unreached(),
        }
    }

    /// Whether the slot at index `i` is reserved memory known to read as
    /// all-zero bytes.
    pub fn slot_is_zeroed(&self, i: usize) -> (r: bool)
        ensures
            r == self.slot_zeroed(i as int),
    {
        if i < self.slots.len() {
            match &self.slots[i] {
                Slot::Zeroed => true,
                _ => false,
            }
        } else {
            false
        }
    }
}

impl<T> FallibleVec<T> for GrowableBuffer<T> {
    closed spec fn inv(&self) -> bool {
        &&& self.len <= self.slots@.len()
        &&& forall|i: int| 0 <= i < self.len ==> self.slots@[i] is Occupied
        &&& forall|i: int| self.len <= i < self.slots@.len() ==> !(self.slots@[i] is Occupied)
        &&& byte_size::<T>(self.slots@.len()) <= usize::MAX
    }

    closed spec fn spec_len(&self) -> nat {
        self.len as nat
    }

    closed spec fn spec_cap(&self) -> nat {
        self.slots@.len()
    }

    closed spec fn elems(&self) -> Seq<T> {
        Seq::new(self.len as nat, |i: int| self.slots@[i].value())
    }

    closed spec fn slot_zeroed(&self, i: int) -> bool {
        0 <= i < self.slots@.len() && self.slots@[i] is Zeroed
    }

    closed spec fn alloc_failing(&self) -> bool {
        self.alloc.is_failing()
    }

    fn try_push(&mut self, value: T) -> (r: Result<(), AllocationError>) {
        if self.len == self.slots.len() {
            let target = match next_push_capacity(self.slots.len()) {
                Some(t) => t,
                None => {
                    return Err(AllocationError::CapacityOverflow);
                },
            };
            match try_extend(self, target, false) {
                Ok(()) => {},
                Err(e) => {
                    return Err(e);
                },
            }
        }
        let idx = self.len;
        let ghost mid: GrowableBuffer<T> = *self;
        self.slots[idx] = Slot::Occupied(value);
        self.len = idx + 1;
        proof {
            assert(self.elems() =~= old(self).elems().push(value));
            assert forall|i: int|
                old(self).spec_len() < i < self.spec_cap() implies #[trigger] self.slot_zeroed(i)
                == old(self).slot_zeroed(i) by {
                assert(mid.slot_zeroed(i) == old(self).slot_zeroed(i));
            }
        }
        Ok(())
    }

    fn try_reserve(&mut self, additional: usize, zeroed: bool) -> (r: Result<
        (),
        AllocationError,
    >) {
        let new_cap = match self.slots.len().checked_add(additional) {
            Some(c) => c,
            None => {
                return Err(AllocationError::CapacityOverflow);
            },
        };
        try_extend(self, new_cap, zeroed)
    }
}

/// Grow `buf`'s block so that it can hold `new_cap` elements.
///
/// A target the current block already covers is a no-op: no allocation
/// request is made. Otherwise the target's byte size is overflow-checked,
/// a fresh block is requested when no block exists yet and growth of the
/// existing block otherwise, the grown block is zero-filled outside the
/// initialized range when `zeroed` is set, and the buffer is rebound to
/// the new block with its length unchanged; the displaced block was
/// consumed by the growth and is never released independently. On any
/// failure the buffer is left exactly as it was.
fn try_extend<T>(buf: &mut GrowableBuffer<T>, new_cap: usize, zeroed: bool) -> (r: Result<
    (),
    AllocationError,
>)
    requires
        old(buf).inv(),
    ensures
        final(buf).inv(),
        final(buf).spec_len() == old(buf).spec_len(),
        final(buf).elems() == old(buf).elems(),
        final(buf).alloc_failing() == old(buf).alloc_failing(),
        r is Ok <==> new_cap <= old(buf).spec_cap() || growth_succeeds::<T>(
            new_cap as nat,
            old(buf).alloc_failing(),
        ),
        new_cap <= old(buf).spec_cap() ==> r is Ok && *final(buf) == *old(buf),
        r is Ok ==> final(buf).spec_cap() == (if new_cap <= old(buf).spec_cap() {
            old(buf).spec_cap()
        } else {
            new_cap as nat
        }),
        (r is Ok && zeroed && new_cap > old(buf).spec_cap()) ==> forall|i: int|
            old(buf).spec_len() <= i < new_cap ==> #[trigger] final(buf).slot_zeroed(i),
        (r is Ok && !zeroed && new_cap > old(buf).spec_cap()) ==> (forall|i: int|
            old(buf).spec_len() <= i < old(buf).spec_cap() ==> #[trigger] final(buf).slot_zeroed(i)
                == old(buf).slot_zeroed(i)) && (forall|i: int|
            old(buf).spec_cap() <= i < new_cap ==> !(#[trigger] final(buf).slot_zeroed(i))),
        r is Err ==> *final(buf) == *old(buf),
        failed_with(r, AllocationError::CapacityOverflow) <==> new_cap > old(buf).spec_cap()
            && !byte_count_representable::<T>(new_cap as nat),
        failed_with(r, AllocationError::AllocationFailure) <==> new_cap > old(buf).spec_cap()
            && byte_count_representable::<T>(new_cap as nat) && old(buf).alloc_failing(),
{
    let old_cap = buf.slots.len();
    if new_cap <= old_cap {
        return Ok(());
    }
    let elem_size: usize = core::mem::size_of::<T>();
    if checked_product(new_cap, elem_size).is_none() {
        return Err(AllocationError::CapacityOverflow);
    }
    if old_cap == 0 {
        match buf.alloc.allocate::<T>(new_cap) {
            Some(mut block) => {
                if zeroed {
                    zero_fill(&mut block);
                }
                buf.slots = block;
                proof {
                    assert(buf.elems() =~= old(buf).elems());
                }
                Ok(())
            },
            None => Err(AllocationError::AllocationFailure),
        }
    } else {
        let mut block: Vec<Slot<T>> = Vec::new();
        core::mem::swap(&mut block, &mut buf.slots);
        match buf.alloc.grow(block, new_cap) {
            Ok(mut grown) => {
                if zeroed {
                    zero_fill(&mut grown);
                }
                buf.slots = grown;
                proof {
                    assert(buf.elems() =~= old(buf).elems());
                }
                Ok(())
            },
            Err(given_back) => {
                buf.slots = given_back;
                Err(AllocationError::AllocationFailure)
            },
        }
    }
}

} // verus!
