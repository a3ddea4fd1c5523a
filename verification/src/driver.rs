//! The chunk lifecycle driver: one ceremony iteration as a pure state
//! machine.
//!
//! The driver never performs an operation itself. Each step consumes the
//! outcome of the previous action and returns the next state together with
//! the next action for the caller to perform: lock, download both files,
//! hand them to the external verification routine, upload the next
//! challenge, confirm the contribution. Any operation error is terminal for
//! the iteration, and a rejected verification fails the iteration without an
//! upload; retrying belongs to whatever invokes the driver repeatedly.
use vstd::prelude::*;

use crate::errors::VerifierError;
use crate::lock_response::LockResponse;

verus! {

/// Why an iteration ended in `Failed`: an operation surfaced an error, or
/// the external verification routine rejected the downloaded files.
#[derive(Debug, PartialEq, Eq)]
pub enum FailureReason {
    Operation(VerifierError),
    RejectedByVerification,
}

/// The driver's position inside one ceremony iteration.
#[derive(Debug, PartialEq, Eq)]
pub enum DriverState {
    Idle,
    Locking,
    Downloading { lock: LockResponse },
    Verifying { lock: LockResponse },
    Uploading { lock: LockResponse },
    Confirming { lock: LockResponse },
    Failed { reason: FailureReason },
}

/// What the caller reports back to the driver: the start signal or the
/// outcome of the action the driver last requested.
#[derive(Debug, PartialEq, Eq)]
pub enum DriverEvent {
    Start,
    Locked(Result<LockResponse, VerifierError>),
    Downloaded(Result<Vec<u8>, VerifierError>, Result<Vec<u8>, VerifierError>),
    Verified { passed: bool, next_challenge: Vec<u8> },
    Uploaded(Result<String, VerifierError>),
    Confirmed(Result<String, VerifierError>),
}

/// What the driver asks the caller to do next. `Stop` ends the iteration:
/// in `Idle` the chunk cycle is complete, in `Failed` it is abandoned.
#[derive(Debug, PartialEq, Eq)]
pub enum DriverAction {
    LockChunk,
    DownloadFiles { challenge_locator: String, response_locator: String },
    VerifyFiles { challenge: Vec<u8>, response: Vec<u8> },
    UploadNextChallenge { next_challenge_locator: String, contents: Vec<u8> },
    ConfirmContribution { verified_locator: String },
    Stop,
}

/// Whether an event is the one the driver's current state waits for.
pub open spec fn event_fits(state: DriverState, event: DriverEvent) -> bool {
    match state {
        DriverState::Idle => event is Start,
        DriverState::Locking => event is Locked,
        DriverState::Downloading { .. } => event is Downloaded,
        DriverState::Verifying { .. } => event is Verified,
        DriverState::Uploading { .. } => event is Uploaded,
        DriverState::Confirming { .. } => event is Confirmed,
        DriverState::Failed { .. } => false,
    }
}

/// Tests, at run time, whether an event is the one the driver's current
/// state waits for: the condition `step` requires.
pub fn event_fits_check(state: &DriverState, event: &DriverEvent) -> (r: bool)
    ensures
        r == event_fits(*state, *event),
{
    match state {
        DriverState::Idle => matches!(event, DriverEvent::Start),
        DriverState::Locking => matches!(event, DriverEvent::Locked(_)),
        DriverState::Downloading { .. } => matches!(event, DriverEvent::Downloaded(_, _)),
        DriverState::Verifying { .. } => matches!(event, DriverEvent::Verified { .. }),
        DriverState::Uploading { .. } => matches!(event, DriverEvent::Uploaded(_)),
        DriverState::Confirming { .. } => matches!(event, DriverEvent::Confirmed(_)),
        DriverState::Failed { .. } => false,
    }
}

/// The transition relation of one ceremony iteration.
pub open spec fn spec_step(state: DriverState, event: DriverEvent) -> (DriverState, DriverAction) {
    match (state, event) {
        (DriverState::Idle, DriverEvent::Start) => (DriverState::Locking, DriverAction::LockChunk),
        (DriverState::Locking, DriverEvent::Locked(outcome)) => match outcome {
            Ok(lock) => (
                DriverState::Downloading { lock },
                DriverAction::DownloadFiles {
                    challenge_locator: lock.challenge_locator,
                    response_locator: lock.response_locator,
                },
            ),
            Err(e) => (
                DriverState::Failed { reason: FailureReason::Operation(e) },
                DriverAction::Stop,
            ),
        },
        (DriverState::Downloading { lock }, DriverEvent::Downloaded(challenge, response)) => match (
        challenge, response) {
            (Ok(c), Ok(rs)) => (
                DriverState::Verifying { lock },
                DriverAction::VerifyFiles { challenge: c, response: rs },
            ),
            (Err(e), _) => (
                DriverState::Failed { reason: FailureReason::Operation(e) },
                DriverAction::Stop,
            ),
            (_, Err(e)) => (
                DriverState::Failed { reason: FailureReason::Operation(e) },
                DriverAction::Stop,
            ),
        },
        (DriverState::Verifying { lock }, DriverEvent::Verified { passed, next_challenge }) => if passed {
            (
                DriverState::Uploading { lock },
                DriverAction::UploadNextChallenge {
                    next_challenge_locator: lock.next_challenge_locator,
                    contents: next_challenge,
                },
            )
        } else {
            (
                DriverState::Failed { reason: FailureReason::RejectedByVerification },
                DriverAction::Stop,
            )
        },
        (DriverState::Uploading { lock }, DriverEvent::Uploaded(outcome)) => match outcome {
            Ok(_) => (
                DriverState::Confirming { lock },
                DriverAction::ConfirmContribution {
                    verified_locator: lock.next_challenge_locator,
                },
            ),
            Err(e) => (
                DriverState::Failed { reason: FailureReason::Operation(e) },
                DriverAction::Stop,
            ),
        },
        (DriverState::Confirming { lock: _ }, DriverEvent::Confirmed(outcome)) => match outcome {
            Ok(_) => (DriverState::Idle, DriverAction::Stop),
            Err(e) => (
                DriverState::Failed { reason: FailureReason::Operation(e) },
                DriverAction::Stop,
            ),
        },
        _ => (state, DriverAction::Stop),
    }
}

/// Performs one driver transition: consumes the current state and the event
/// it waits for, and returns the next state and the next action.
pub fn step(state: DriverState, event: DriverEvent) -> (r: (DriverState, DriverAction))
    requires
        event_fits(state, event),
    ensures
        r == spec_step(state, event),
{
    match (state, event) {
        (DriverState::Idle, DriverEvent::Start) => (DriverState::Locking, DriverAction::LockChunk),
        (DriverState::Locking, DriverEvent::Locked(outcome)) => match outcome {
            Ok(lock) => {
                let challenge_locator = lock.challenge_locator.clone();
                let response_locator = lock.response_locator.clone();
                (
                    DriverState::Downloading { lock },
                    DriverAction::DownloadFiles { challenge_locator, response_locator },
                )
            },
            Err(e) => (
                DriverState::Failed { reason: FailureReason::Operation(e) },
                DriverAction::Stop,
            ),
        },
        (DriverState::Downloading { lock }, DriverEvent::Downloaded(challenge, response)) => match (
        challenge, response) {
            (Ok(c), Ok(rs)) => (
                DriverState::Verifying { lock },
                DriverAction::VerifyFiles { challenge: c, response: rs },
            ),
            (Err(e), _) => (
                DriverState::Failed { reason: FailureReason::Operation(e) },
                DriverAction::Stop,
            ),
            (_, Err(e)) => (
                DriverState::Failed { reason: FailureReason::Operation(e) },
                DriverAction::Stop,
            ),
        },
        (DriverState::Verifying { lock }, DriverEvent::Verified { passed, next_challenge }) => if passed {
            let next_challenge_locator = lock.next_challenge_locator.clone();
            (
                DriverState::Uploading { lock },
                DriverAction::UploadNextChallenge {
                    next_challenge_locator,
                    contents: next_challenge,
                },
            )
        } else {
            (
                DriverState::Failed { reason: FailureReason::RejectedByVerification },
                DriverAction::Stop,
            )
        },
        (DriverState::Uploading { lock }, DriverEvent::Uploaded(outcome)) => match outcome {
            Ok(_) => {
                let verified_locator = lock.next_challenge_locator.clone();
                (
                    DriverState::Confirming { lock },
                    DriverAction::ConfirmContribution { verified_locator },
                )
            },
            Err(e) => (
                DriverState::Failed { reason: FailureReason::Operation(e) },
                DriverAction::Stop,
            ),
        },
        (DriverState::Confirming { lock: _ }, DriverEvent::Confirmed(outcome)) => match outcome {
            Ok(_) => (DriverState::Idle, DriverAction::Stop),
            Err(e) => (
                DriverState::Failed { reason: FailureReason::Operation(e) },
                DriverAction::Stop,
            ),
        },
        (s, _) => (s, DriverAction::Stop),
    }
}

/// After a successful lock, the driver moves to downloading and asks for
/// both files, under exactly the two locators the lock response carried,
/// unmodified.
pub proof fn lemma_locked_starts_downloads(lock: LockResponse)
    ensures
        spec_step(DriverState::Locking, DriverEvent::Locked(Ok(lock))) == (
            DriverState::Downloading { lock },
            DriverAction::DownloadFiles {
                challenge_locator: lock.challenge_locator,
                response_locator: lock.response_locator,
            },
        ),
{
}

/// A rejected external verification is terminal: the driver moves to
/// `Failed` and asks for nothing more — in particular, no upload.
pub proof fn lemma_rejected_verification_halts(lock: LockResponse, next_challenge: Vec<u8>)
    ensures
        spec_step(
            DriverState::Verifying { lock },
            DriverEvent::Verified { passed: false, next_challenge },
        ) == (
            DriverState::Failed { reason: FailureReason::RejectedByVerification },
            DriverAction::Stop,
        ),
{
}

} // verus!
