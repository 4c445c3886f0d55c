//! Moving a value to the heap.
use vstd::prelude::*;

verus! {

impl<T: 'static> Boxed for T {

}

/// Any owned value can be boxed.
pub trait Boxed: Sized + 'static {
    /// Moves `self` into a box that is its only owner.
    fn boxed(self) -> (boxed: Box<Self>)
        ensures
            *boxed == self,
    {
        Box::new(self)
    }
}

} // verus!
