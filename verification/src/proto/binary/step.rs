//! What a decision over a run of response frames asks for next.

use vstd::prelude::*;

verus! {

/// The outcome of handing one frame to the collector of an operation whose
/// response is more than one frame.
#[derive(Debug)]
pub enum Step<S, T> {
    /// The operation is not over: read the next frame and hand it to the
    /// collector inside.
    More(S),
    /// The operation is over, with this result. No further frame belongs
    /// to it.
    Done(T),
}

} // verus!
