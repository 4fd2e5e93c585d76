//! Transfer buffers: a descriptor that owns a block of elements handed
//! across the boundary, with its length and allocated capacity.
use vstd::prelude::*;

verus! {

/// Relies on `Vec::capacity`: the number of slots the vector can hold
/// without reallocating, which is never below its length.
#[verifier::external_body]
fn vec_capacity<T>(v: &Vec<T>) -> (r: usize)
    ensures
        r >= v@.len(),
{
    v.capacity()
}

/// An owning descriptor of a contiguous block: its elements, the number of
/// valid elements, and the number of slots that were allocated for it.
///
/// A descriptor is built once from an owned vector (`from`) and consumed
/// once back into one (`into`); it is neither `Clone` nor `Copy`, so it
/// cannot be released twice.
#[derive(Debug)]
pub struct CVec<T> {
    pub(crate) data: Vec<T>,
    pub(crate) len: usize,
    pub(crate) capacity: usize,
}

impl<T> View for CVec<T> {
    type V = Seq<T>;

    open(crate) spec fn view(&self) -> Seq<T> {
        self.data@
    }
}

impl<T> CVec<T> {
    /// The length never exceeds the capacity and counts the held elements.
    pub open(crate) spec fn wf(&self) -> bool {
        &&& self.len == self.data@.len()
        &&& self.len <= self.capacity
    }

    pub open(crate) spec fn spec_len(&self) -> nat {
        self.len as nat
    }

    pub open(crate) spec fn spec_capacity(&self) -> nat {
        self.capacity as nat
    }

    /// The canonical empty descriptor: no elements and no allocated slot.
    pub open(crate) spec fn is_canonical_empty(&self) -> bool {
        &&& self.len == 0
        &&& self.capacity == 0
        &&& self.data@.len() == 0
    }

    /// The canonical empty descriptor, which owns no allocation.
    pub fn empty() -> (r: CVec<T>)
        ensures
            r.wf(),
            r.is_canonical_empty(),
            r@ == Seq::<T>::empty(),
    {
        CVec { data: Vec::new(), len: 0, capacity: 0 }
    }

    /// Takes ownership of `v`, recording its length and allocated capacity.
    pub fn from(v: Vec<T>) -> (r: CVec<T>)
        ensures
            r.wf(),
            r@ == v@,
            r.spec_len() == v@.len(),
    {
        let len = v.len();
        let capacity = vec_capacity(&v);
        CVec { data: v, len, capacity }
    }

    /// Gives the owned block back as a vector with the same elements.
    pub fn into(self) -> (r: Vec<T>)
        requires
            self.wf(),
        ensures
            r@ == self@,
            r@.len() == self.spec_len(),
    {
        self.data
    }

    /// Number of valid elements.
    pub fn len(&self) -> (r: usize)
        ensures
            r == self.spec_len(),
    {
        self.len
    }

    /// Number of allocated slots.
    pub fn capacity(&self) -> (r: usize)
        ensures
            r == self.spec_capacity(),
    {
        self.capacity
    }
}

/// Handing a vector over with `from` and taking it back with `into` gives
/// back the same elements, as many as there were.
pub proof fn lemma_round_trip<T>(v: Seq<T>, d: CVec<T>, back: Seq<T>)
    requires
        d.wf(),
        d@ == v,
        d.spec_len() == v.len(),
        back == d@,
    ensures
        back == v,
        back.len() == d.spec_len(),
{
}

} // verus!
