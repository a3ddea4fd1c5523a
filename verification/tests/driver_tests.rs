use phase1_verifier::driver::{step, DriverAction, DriverEvent, DriverState, FailureReason};
use phase1_verifier::{LockResponse, Verifier, VerifierError};

fn sample_lock() -> LockResponse {
    LockResponse {
        chunk_id: String::from("3"),
        challenge_locator: String::from("./chunks/3/challenge"),
        response_locator: String::from("./chunks/3/response"),
        next_challenge_locator: String::from("./chunks/3/next_challenge"),
    }
}

#[test]
fn full_cycle_reaches_idle() {
    let (state, action) = step(DriverState::Idle, DriverEvent::Start);
    assert_eq!(state, DriverState::Locking);
    assert_eq!(action, DriverAction::LockChunk);

    let (state, action) = step(state, DriverEvent::Locked(Ok(sample_lock())));
    assert_eq!(state, DriverState::Downloading { lock: sample_lock() });
    assert_eq!(
        action,
        DriverAction::DownloadFiles {
            challenge_locator: String::from("./chunks/3/challenge"),
            response_locator: String::from("./chunks/3/response"),
        }
    );

    let (state, action) =
        step(state, DriverEvent::Downloaded(Ok(vec![1, 2]), Ok(vec![3, 4])));
    assert_eq!(state, DriverState::Verifying { lock: sample_lock() });
    assert_eq!(
        action,
        DriverAction::VerifyFiles { challenge: vec![1, 2], response: vec![3, 4] }
    );

    let (state, action) =
        step(state, DriverEvent::Verified { passed: true, next_challenge: vec![9] });
    assert_eq!(state, DriverState::Uploading { lock: sample_lock() });
    assert_eq!(
        action,
        DriverAction::UploadNextChallenge {
            next_challenge_locator: String::from("./chunks/3/next_challenge"),
            contents: vec![9],
        }
    );

    let (state, action) = step(state, DriverEvent::Uploaded(Ok(String::from("ok"))));
    assert_eq!(state, DriverState::Confirming { lock: sample_lock() });
    assert_eq!(
        action,
        DriverAction::ConfirmContribution {
            verified_locator: String::from("./chunks/3/next_challenge"),
        }
    );

    let (state, action) = step(state, DriverEvent::Confirmed(Ok(String::from("ok"))));
    assert_eq!(state, DriverState::Idle);
    assert_eq!(action, DriverAction::Stop);
}

#[test]
fn driver_download_paths_strip_marker_but_errors_keep_it() {
    // The locators handed out by the driver keep their `./` prefix ...
    let (state, action) = step(DriverState::Locking, DriverEvent::Locked(Ok(sample_lock())));
    let (challenge_locator, response_locator) = match action {
        DriverAction::DownloadFiles { challenge_locator, response_locator } => {
            (challenge_locator, response_locator)
        },
        other => panic!("expected downloads, got {:?}", other),
    };
    assert_eq!(state, DriverState::Downloading { lock: sample_lock() });
    // ... the sent and signed paths strip it ...
    let v = Verifier::new(
        String::from("test-view-key"),
        String::from("http://localhost:8000"),
    );
    let plan = v.download_challenge_file_plan(&challenge_locator);
    assert_eq!(plan.path, "/coordinator/locator/chunks/3/challenge");
    assert_eq!(plan.signing_path, "/api/coordinator/locator/chunks/3/challenge");
    let plan = v.download_response_file_plan(&response_locator);
    assert_eq!(plan.path, "/coordinator/locator/chunks/3/response");
    assert_eq!(plan.signing_path, "/api/coordinator/locator/chunks/3/response");
    // ... and any error report carries the original locator, prefix included.
    let r = v.download_challenge_file(
        &challenge_locator,
        phase1_verifier::client::HttpOutcome::Response { status: 404, body: Vec::new() },
    );
    assert_eq!(
        r,
        Err(VerifierError::FailedChallengeDownload(String::from("./chunks/3/challenge")))
    );
}

#[test]
fn lock_failure_stops_iteration() {
    let (state, action) =
        step(DriverState::Locking, DriverEvent::Locked(Err(VerifierError::FailedLock)));
    assert_eq!(
        state,
        DriverState::Failed { reason: FailureReason::Operation(VerifierError::FailedLock) }
    );
    assert_eq!(action, DriverAction::Stop);
}

#[test]
fn download_failure_stops_iteration() {
    let err = VerifierError::FailedChallengeDownload(String::from("./chunks/3/challenge"));
    let (state, action) = step(
        DriverState::Downloading { lock: sample_lock() },
        DriverEvent::Downloaded(Err(err.clone()), Ok(vec![])),
    );
    assert_eq!(state, DriverState::Failed { reason: FailureReason::Operation(err) });
    assert_eq!(action, DriverAction::Stop);

    let err = VerifierError::FailedResponseDownload(String::from("./chunks/3/response"));
    let (state, action) = step(
        DriverState::Downloading { lock: sample_lock() },
        DriverEvent::Downloaded(Ok(vec![]), Err(err.clone())),
    );
    assert_eq!(state, DriverState::Failed { reason: FailureReason::Operation(err) });
    assert_eq!(action, DriverAction::Stop);
}

#[test]
fn rejected_verification_stops_without_upload() {
    let (state, action) = step(
        DriverState::Verifying { lock: sample_lock() },
        DriverEvent::Verified { passed: false, next_challenge: vec![9] },
    );
    assert_eq!(state, DriverState::Failed { reason: FailureReason::RejectedByVerification });
    assert_eq!(action, DriverAction::Stop);
}

#[test]
fn upload_failure_stops_iteration() {
    let err = VerifierError::FailedChallengeUpload(String::from("./chunks/3/next_challenge"));
    let (state, action) = step(
        DriverState::Uploading { lock: sample_lock() },
        DriverEvent::Uploaded(Err(err.clone())),
    );
    assert_eq!(state, DriverState::Failed { reason: FailureReason::Operation(err) });
    assert_eq!(action, DriverAction::Stop);
}

#[test]
fn confirm_failure_stops_iteration() {
    let err = VerifierError::FailedVerification(String::from("./chunks/3/next_challenge"));
    let (state, action) = step(
        DriverState::Confirming { lock: sample_lock() },
        DriverEvent::Confirmed(Err(err.clone())),
    );
    assert_eq!(state, DriverState::Failed { reason: FailureReason::Operation(err) });
    assert_eq!(action, DriverAction::Stop);
}

#[test]
fn transport_failure_stops_iteration_at_lock() {
    let v = Verifier::new(String::from("test-view-key"), String::from("http://localhost:8000"));
    let lock_result = v.lock_chunk(phase1_verifier::client::TextOutcome::TransportFailure);
    let (state, action) = step(DriverState::Locking, DriverEvent::Locked(lock_result));
    assert_eq!(
        state,
        DriverState::Failed {
            reason: FailureReason::Operation(VerifierError::FailedRequest(
                String::from("/coordinator/verifier/lock"),
                String::from("http://localhost:8000"),
            ))
        }
    );
    assert_eq!(action, DriverAction::Stop);
}
