use vstd::prelude::*;

verus! {

/// What one poll of a computation unit gave.
#[derive(Debug, PartialEq, Eq)]
pub enum Outcome<T, E> {
    /// The unit has no result yet; it will be polled again.
    NotReady,
    /// The unit finished with a value.
    Ready(T),
    /// The unit finished with an error.
    Errored(E),
}

} // verus!
