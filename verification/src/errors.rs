//! Error taxonomy of the relay engine.

use vstd::prelude::*;

verus! {

/// What went wrong while relaying.
///
/// Errors are local to one invocation: the next finalized header re-derives
/// the same pending work, so none of these aborts the owning task.
#[derive(Debug, Clone, Copy, PartialEq, Eq, Structural)]
pub enum Error {
    /// A storage proof could not be produced or checked.
    Proof,
    /// RPC or connection failure; the watcher reconnects.
    Transport,
    /// A queried record or proof is absent; retried on the next header.
    NotFound,
    /// The destination chain rejected a submitted transaction.
    SubmissionRejected,
    /// A record or event payload was malformed and was skipped.
    Decode,
}

} // verus!
