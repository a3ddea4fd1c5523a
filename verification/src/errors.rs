//! The closed error taxonomy surfaced by every operation: one constructor per
//! failure kind, each carrying only the context a caller needs to log or
//! retry, and never the secret key.
use vstd::prelude::*;

verus! {

/// Every failure a verifier operation can surface.
///
/// - `InvalidKey`: the secret key could not be parsed; fatal, not retryable.
/// - `FailedRequest(path, base_url)`: transport-level failure; retryable.
/// - `FailedLock` and the four locator-carrying variants: the coordinator
///   rejected the operation with a non-success status; the locator carried is
///   always the original, un-canonicalized one the caller passed.
/// - `FailedLockResponseDecode`: the lock succeeded over HTTP but its body did
///   not match the expected schema; distinct from `FailedLock`.
#[derive(Clone, Debug, PartialEq, Eq)]
pub enum VerifierError {
    InvalidKey,
    FailedRequest(String, String),
    FailedLock,
    FailedVerification(String),
    FailedChallengeDownload(String),
    FailedResponseDownload(String),
    FailedChallengeUpload(String),
    FailedLockResponseDecode,
}

} // verus!
