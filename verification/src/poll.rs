use vstd::prelude::*;

verus! {

/// What one poll gives: the operation is over, or it has to be polled again.
pub enum Poll<T> {
    Ready(T),
    Pending,
}

} // verus!
