use phase1_verifier::client::{HttpOutcome, TextOutcome};
use phase1_verifier::{LockResponse, Verifier, VerifierError};

fn make_verifier() -> Verifier {
    Verifier::new(
        String::from("test-view-key"),
        String::from("http://localhost:8000"),
    )
}

fn sample() -> LockResponse {
    LockResponse {
        chunk_id: String::from("3"),
        challenge_locator: String::from("./chunks/3/challenge"),
        response_locator: String::from("./chunks/3/response"),
        next_challenge_locator: String::from("./chunks/3/next_challenge"),
    }
}

#[test]
fn lock_transport_failure_is_failed_request() {
    let v = make_verifier();
    let r = v.lock_chunk(TextOutcome::TransportFailure);
    assert_eq!(
        r,
        Err(VerifierError::FailedRequest(
            String::from("/coordinator/verifier/lock"),
            String::from("http://localhost:8000"),
        ))
    );
}

#[test]
fn verify_transport_failure_is_failed_request() {
    let v = make_verifier();
    let r = v.verify_contribution("./chunks/3/next_challenge", TextOutcome::TransportFailure);
    assert_eq!(
        r,
        Err(VerifierError::FailedRequest(
            String::from("/coordinator/verify/./chunks/3/next_challenge"),
            String::from("http://localhost:8000"),
        ))
    );
}

#[test]
fn challenge_download_transport_failure_is_failed_request() {
    let v = make_verifier();
    let r = v.download_challenge_file("./chunks/3/challenge", HttpOutcome::TransportFailure);
    assert_eq!(
        r,
        Err(VerifierError::FailedRequest(
            String::from("/coordinator/locator/./chunks/3/challenge"),
            String::from("http://localhost:8000"),
        ))
    );
}

#[test]
fn response_download_transport_failure_is_failed_request() {
    let v = make_verifier();
    let r = v.download_response_file("./chunks/3/response", HttpOutcome::TransportFailure);
    assert_eq!(
        r,
        Err(VerifierError::FailedRequest(
            String::from("/coordinator/locator/./chunks/3/response"),
            String::from("http://localhost:8000"),
        ))
    );
}

#[test]
fn upload_transport_failure_is_failed_request() {
    let v = make_verifier();
    let r = v.upload_next_challenge_locator_file(
        "./chunks/3/next_challenge",
        TextOutcome::TransportFailure,
    );
    assert_eq!(
        r,
        Err(VerifierError::FailedRequest(
            String::from("/coordinator/verification/./chunks/3/next_challenge"),
            String::from("http://localhost:8000"),
        ))
    );
}

#[test]
fn lock_http_error_is_failed_lock() {
    let v = make_verifier();
    for status in [400u16, 403, 404, 500, 503] {
        let r = v.lock_chunk(TextOutcome::Response { status, body: sample().encode() });
        assert_eq!(r, Err(VerifierError::FailedLock));
    }
}

#[test]
fn lock_success_decodes_round_trip() {
    let v = make_verifier();
    let original = sample();
    let r = v.lock_chunk(TextOutcome::Response { status: 200, body: original.encode() });
    assert_eq!(r, Ok(original));
}

#[test]
fn lock_success_with_bad_body_is_decode_error() {
    let v = make_verifier();
    for body in ["", "{}", "{\"chunk_id\":3}", "{\"chunk_id\":\"3\"}"] {
        let r = v.lock_chunk(TextOutcome::Response { status: 200, body: String::from(body) });
        assert_eq!(r, Err(VerifierError::FailedLockResponseDecode));
    }
}

#[test]
fn challenge_download_http_error_keeps_raw_locator() {
    let v = make_verifier();
    for status in [400u16, 404, 500] {
        let r = v.download_challenge_file(
            "./chunks/3/challenge",
            HttpOutcome::Response { status, body: vec![1, 2, 3] },
        );
        assert_eq!(
            r,
            Err(VerifierError::FailedChallengeDownload(String::from("./chunks/3/challenge")))
        );
    }
}

#[test]
fn response_download_http_error_keeps_raw_locator() {
    let v = make_verifier();
    let r = v.download_response_file(
        "./chunks/3/response",
        HttpOutcome::Response { status: 500, body: Vec::new() },
    );
    assert_eq!(
        r,
        Err(VerifierError::FailedResponseDownload(String::from("./chunks/3/response")))
    );
}

#[test]
fn download_success_returns_body() {
    let v = make_verifier();
    let r = v.download_challenge_file(
        "chunks/3/challenge",
        HttpOutcome::Response { status: 200, body: vec![7, 8, 9] },
    );
    assert_eq!(r, Ok(vec![7, 8, 9]));
}

#[test]
fn verify_contribution_success_returns_acknowledgement() {
    let v = make_verifier();
    let r = v.verify_contribution(
        "chunks/3/next_challenge",
        TextOutcome::Response { status: 200, body: String::from("{ \"status\": \"ok\" }") },
    );
    assert_eq!(r, Ok(String::from("{ \"status\": \"ok\" }")));
}

#[test]
fn verify_contribution_http_error_keeps_raw_locator() {
    let v = make_verifier();
    let r = v.verify_contribution(
        "./chunks/3/next_challenge",
        TextOutcome::Response { status: 422, body: String::new() },
    );
    assert_eq!(
        r,
        Err(VerifierError::FailedVerification(String::from("./chunks/3/next_challenge")))
    );
}

#[test]
fn upload_http_error_keeps_raw_locator() {
    let v = make_verifier();
    let r = v.upload_next_challenge_locator_file(
        "./chunks/3/next_challenge",
        TextOutcome::Response { status: 503, body: String::new() },
    );
    assert_eq!(
        r,
        Err(VerifierError::FailedChallengeUpload(String::from("./chunks/3/next_challenge")))
    );
}

#[test]
fn lock_plan_paths() {
    let v = make_verifier();
    let plan = v.lock_chunk_plan();
    assert_eq!(plan.method, "post");
    assert_eq!(plan.path, "/coordinator/verifier/lock");
    assert_eq!(plan.signing_path, "/api/coordinator/verifier/lock");
    assert!(plan.body.is_none());
}

#[test]
fn download_plans_strip_marker_in_sent_and_signed_path() {
    let v = make_verifier();
    let plan = v.download_challenge_file_plan("./chunks/3/challenge");
    assert_eq!(plan.method, "get");
    assert_eq!(plan.path, "/coordinator/locator/chunks/3/challenge");
    assert_eq!(plan.signing_path, "/api/coordinator/locator/chunks/3/challenge");
    let plan = v.download_response_file_plan("./chunks/3/response");
    assert_eq!(plan.path, "/coordinator/locator/chunks/3/response");
    assert_eq!(plan.signing_path, "/api/coordinator/locator/chunks/3/response");
}

#[test]
fn verify_plan_strips_marker() {
    let v = make_verifier();
    let plan = v.verify_contribution_plan("./chunks/3/next_challenge");
    assert_eq!(plan.method, "post");
    assert_eq!(plan.path, "/coordinator/verify/chunks/3/next_challenge");
    assert_eq!(plan.signing_path, "/api/coordinator/verify/chunks/3/next_challenge");
}

#[test]
fn upload_plan_carries_body_and_strips_marker() {
    let v = make_verifier();
    let plan = v.upload_next_challenge_locator_file_plan(
        "./chunks/3/next_challenge",
        vec![42, 43],
    );
    assert_eq!(plan.method, "post");
    assert_eq!(plan.path, "/coordinator/verification/chunks/3/next_challenge");
    assert_eq!(plan.signing_path, "/api/coordinator/verification/chunks/3/next_challenge");
    assert_eq!(plan.body, Some(vec![42, 43]));
}

#[test]
fn signing_message_binds_method_and_path() {
    let v = make_verifier();
    let plan = v.lock_chunk_plan();
    assert_eq!(plan.signing_message(), "post /api/coordinator/verifier/lock");
    let again = v.lock_chunk_plan();
    assert_eq!(plan.signing_message(), again.signing_message());
    let other = v.download_challenge_file_plan("chunks/3/challenge");
    assert_ne!(plan.signing_message(), other.signing_message());
}

#[test]
fn into_signed_attaches_authorization() {
    let v = make_verifier();
    let plan = v.lock_chunk_plan();
    let signed = plan.into_signed(Some(String::from("aleo-signature"))).expect("signed");
    assert_eq!(signed.method, "post");
    assert_eq!(signed.path, "/coordinator/verifier/lock");
    assert_eq!(signed.signing_path, "/api/coordinator/verifier/lock");
    assert_eq!(signed.authorization, "aleo-signature");
    assert!(signed.body.is_none());
}

#[test]
fn into_signed_without_signature_is_invalid_key() {
    let v = make_verifier();
    let plan = v.lock_chunk_plan();
    match plan.into_signed(None) {
        Err(e) => assert_eq!(e, VerifierError::InvalidKey),
        Ok(_) => panic!("a missing signature must be InvalidKey"),
    }
}
