//! A vector whose capacity `N` is fixed at compile time.
//!
//! Every operation is specified over the container's view, the sequence of
//! its live items, and the container never holds more than `N` of them.
//! Operations that would need more room either fail and hand the item back,
//! or, where they cannot fail, demand the room in their precondition.
mod array_vec;
mod capacity_error;
mod drain;
pub mod laws;

pub use array_vec::ArrayVec;
pub use capacity_error::CapacityError;
pub use drain::Drain;
