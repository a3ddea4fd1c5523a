use phase1_verifier::signer::{authorization_from_signature, build_auth_message, build_signing_path};
use phase1_verifier::VerifierError;

#[test]
fn signing_path_prepends_api_namespace() {
    assert_eq!(build_signing_path("/coordinator/verifier/lock"), "/api/coordinator/verifier/lock");
    assert_eq!(build_signing_path(""), "/api");
}

#[test]
fn auth_message_is_deterministic() {
    let a = build_auth_message("post", "/api/coordinator/verifier/lock");
    let b = build_auth_message("post", "/api/coordinator/verifier/lock");
    assert_eq!(a, b);
    assert_eq!(a, "post /api/coordinator/verifier/lock");
}

#[test]
fn auth_message_differs_across_methods_and_paths() {
    let base = build_auth_message("post", "/api/coordinator/verifier/lock");
    assert_ne!(base, build_auth_message("get", "/api/coordinator/verifier/lock"));
    assert_ne!(base, build_auth_message("post", "/api/coordinator/locator/chunks/3/challenge"));
}

#[test]
fn missing_signature_is_invalid_key() {
    assert_eq!(
        authorization_from_signature(None),
        Err(VerifierError::InvalidKey)
    );
    assert_eq!(
        authorization_from_signature(Some(String::from("sig"))),
        Ok(String::from("sig"))
    );
}
