//! One accept stream over two independently bound listeners.
use vstd::prelude::*;

verus! {

/// What polling one listener gave.
pub enum Readiness<T> {
    Ready(T),
    Pending,
}

/// What to do after polling the first listener.
pub enum DualStep<T> {
    /// Hand this connection (or end of stream, or error) on, and leave the
    /// second listener unpolled, so nothing it holds is taken and lost.
    Yield(T),
    /// The first listener has nothing ready: poll the second; if it has
    /// nothing either, yield to the scheduler.
    PollSecond,
}

/// Decides, from the first listener's poll, whether the second is polled.
/// A ready value is handed on as it is: never dropped, never duplicated.
pub fn after_first_poll<T>(first: Readiness<T>) -> (r: DualStep<T>)
    ensures
        match first {
            Readiness::Ready(v) => r == DualStep::Yield(v),
            Readiness::Pending => r is PollSecond,
        },
{
    match first {
        Readiness::Ready(v) => DualStep::Yield(v),
        Readiness::Pending => DualStep::PollSecond,
    }
}

} // verus!
