use vstd::prelude::*;

verus! {

/// The error returned when there isn't enough space to add another item.
///
/// It carries the item that could not be inserted, so that nothing is lost.
#[derive(Debug, Copy, Clone, PartialEq, Eq, Hash)]
pub struct CapacityError<T>(pub T);

impl<T> CapacityError<T> {
    /// A description of the error for people to read.
    pub fn to_string(&self) -> (r: String)
        ensures
            r@ == "Insufficient capacity"@,
    {
        "Insufficient capacity".to_owned()
    }
}

} // verus!
