use vstd::prelude::*;

verus! {

/// One element slot of a buffer's backing block.
///
/// A slot models the initialization state of the memory that backs one
/// element: `Occupied` holds a live element, `Zeroed` is reserved memory
/// known to read as all-zero bytes, and `Vacant` is reserved memory whose
/// contents are unspecified.
pub enum Slot<T> {
    Vacant,
    Zeroed,
    Occupied(T),
}

impl<T> Slot<T> {
    /// The element held by an `Occupied` slot.
    pub open spec fn value(self) -> T
        recommends
            self is Occupied,
    {
        self->0
    }

    /// Whether this slot holds a live element.
    pub fn is_occupied(&self) -> (r: bool)
        ensures
            r == (*self is Occupied),
    {
        match self {
            Slot::Occupied(_) => true,
            _ => false,
        }
    }
}

/// A deterministic allocation backend for backing blocks.
///
/// The raw primitive obtains memory from the process allocator, which may
/// refuse any request. This model makes the refusal observable and
/// deterministic: while the allocator is failing, every request for a
/// fresh or grown block is denied, exactly as an exhausted process
/// allocator would deny it, and the requester must cope without panicking.
pub struct SimAllocator {
    failing: bool,
}

impl SimAllocator {
    /// Whether every allocation request is currently denied.
    pub closed spec fn is_failing(self) -> bool {
        self.failing
    }

    /// An allocator that satisfies every request.
    pub fn new() -> (r: SimAllocator)
        ensures
            !r.is_failing(),
    {
        SimAllocator { failing: false }
    }

    /// An allocator that denies every request, as an exhausted process
    /// allocator would.
    pub fn exhausted() -> (r: SimAllocator)
        ensures
            r.is_failing(),
    {
        SimAllocator { failing: true }
    }

    /// Switch whether requests are denied.
    pub fn set_failing(&mut self, failing: bool)
        ensures
            final(self).is_failing() == failing,
    {
        self.failing = failing;
    }

    /// Request a fresh block able to hold `cap` elements, or `None` when
    /// the allocator has no memory. Fresh memory has unspecified contents,
    /// so every slot of the new block is `Vacant`.
    pub fn allocate<T>(&self, cap: usize) -> (r: Option<Vec<Slot<T>>>)
        ensures
            r is Some <==> !self.is_failing(),
            r matches Some(block) ==> {
                &&& block@.len() == cap
                &&& forall|i: int| 0 <= i < cap ==> block@[i] is Vacant
            },
    {
        if self.failing {
            return None;
        }
        let mut block: Vec<Slot<T>> = Vec::new();
        while block.len() < cap
            invariant
                block@.len() <= cap,
                forall|i: int| 0 <= i < block@.len() ==> block@[i] is Vacant,
            decreases cap - block@.len(),
        {
            block.push(Slot::Vacant);
        }
        Some(block)
    }

    /// Grow `block` so that it holds `new_cap` elements, preserving its
    /// contents. On success the old block is consumed by the grown one and
    /// must not be released independently; on failure it is handed back
    /// untouched. The added memory has unspecified contents, so the new
    /// slots are `Vacant`.
    pub fn grow<T>(&self, block: Vec<Slot<T>>, new_cap: usize) -> (r: Result<
        Vec<Slot<T>>,
        Vec<Slot<T>>,
    >)
        requires
            block@.len() <= new_cap,
        ensures
            r is Ok <==> !self.is_failing(),
            r matches Ok(grown) ==> {
                &&& grown@.len() == new_cap
                &&& forall|i: int| 0 <= i < block@.len() ==> grown@[i] == block@[i]
                &&& forall|i: int| block@.len() <= i < new_cap ==> grown@[i] is Vacant
            },
            r matches Err(given_back) ==> given_back == block,
    {
        if self.failing {
            return Err(block);
        }
        let ghost orig: Seq<Slot<T>> = block@;
        let mut grown = block;
        while grown.len() < new_cap
            invariant
                orig.len() <= grown@.len() <= new_cap,
                forall|i: int| 0 <= i < orig.len() ==> grown@[i] == orig[i],
                forall|i: int| orig.len() <= i < grown@.len() ==> grown@[i] is Vacant,
            decreases new_cap - grown@.len(),
        {
            grown.push(Slot::Vacant);
        }
        Ok(grown)
    }
}

/// Zero the unspecified memory of `block`: every slot that does not hold a
/// live element becomes `Zeroed`. The raw primitive zeroes the whole block,
/// the bytes of live elements included; a checked buffer cannot fabricate
/// elements out of zero bytes, so this model confines the zeroing to the
/// slots outside the occupied range, the only part of the block whose
/// contents a caller may read before writing. Live elements keep their
/// values.
pub fn zero_fill<T>(block: &mut Vec<Slot<T>>)
    ensures
        final(block)@.len() == old(block)@.len(),
        forall|i: int|
            0 <= i < old(block)@.len() ==> final(block)@[i] == (if old(block)@[i] is Occupied {
                old(block)@[i]
            } else {
                Slot::<T>::Zeroed
            }),
{
    let ghost orig: Seq<Slot<T>> = block@;
    let n = block.len();
    let mut i: usize = 0;
    while i < n
        invariant
            n == orig.len(),
            i <= n,
            block@.len() == orig.len(),
            forall|j: int|
                0 <= j < i ==> block@[j] == (if orig[j] is Occupied {
                    orig[j]
                } else {
                    Slot::<T>::Zeroed
                }),
            forall|j: int| i <= j < orig.len() ==> block@[j] == orig[j],
        decreases n - i,
    {
        let occupied = block[i].is_occupied();
        if !occupied {
            block[i] = Slot::Zeroed;
        }
        i = i + 1;
    }
}

} // verus!
