use vstd::prelude::*;

verus! {

/// Error taxonomy of the evaluation engine.
#[derive(Clone, Copy, Debug, PartialEq, Eq, Structural)]
pub enum Error {
    /// An operation was attempted on a poisoned evaluator.  Never
    /// communicates; recoverable only through an explicit reset.
    StateError,
    /// An interactive sub-protocol (authentication, batched zero-check,
    /// multiplication finalize) failed: a transport fault, or evidence that
    /// the peer violated the soundness conditions of the proof.
    ProtocolError,
    /// A byte buffer could not be decoded into a field element because its
    /// significant length exceeds the field's canonical representation.
    EncodingError,
}

} // verus!
