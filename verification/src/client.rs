//! The coordinator client: the five ceremony operations, each split into a
//! pure request-building half and a pure response-classification half.
//!
//! Building a request computes the canonical sent path, the `/api` signing
//! path and the body; the transport (outside this library) signs the plan's
//! message, sends the request, and hands the raw outcome back to the
//! operation's classifier, which returns the typed payload or the typed
//! error. The locator embedded in any error is the original, un-canonicalized
//! one.
use vstd::prelude::*;

use crate::errors::VerifierError;
use crate::locator::canon;
use crate::locator::canonicalize_locator;
use crate::lock_response::LockResponse;
use crate::lock_response::spec_parse_lock;
use crate::signer::api_signing_path;
use crate::signer::authorization_from_signature;
use crate::signer::auth_message;
use crate::signer::build_auth_message;
use crate::signer::build_signing_path;

verus! {

/// The HTTP success range, `200` through `299`.
pub open spec fn is_success_status(status: u16) -> bool {
    200 <= status < 300
}

/// The raw outcome of one HTTP exchange whose payload is bytes: either the
/// transport failed outright, or the coordinator answered with a status and a
/// body.
pub enum HttpOutcome {
    TransportFailure,
    Response { status: u16, body: Vec<u8> },
}

/// The raw outcome of one HTTP exchange whose payload is text.
pub enum TextOutcome {
    TransportFailure,
    Response { status: u16, body: String },
}

/// The fixed path of the lock operation.
pub open spec fn lock_path() -> Seq<char> {
    "/coordinator/verifier/lock"@
}

/// The sent path of the verify-contribution operation: its locator is
/// canonicalized before it is embedded.
pub open spec fn verify_path(locator: Seq<char>) -> Seq<char> {
    "/coordinator/verify/"@ + canon(locator)
}

/// The sent path of both download operations.
pub open spec fn locator_path(locator: Seq<char>) -> Seq<char> {
    "/coordinator/locator/"@ + canon(locator)
}

/// The sent path of the upload operation.
pub open spec fn verification_path(locator: Seq<char>) -> Seq<char> {
    "/coordinator/verification/"@ + canon(locator)
}

/// The verify-contribution path template with the caller's raw locator, as
/// reported in transport errors.
pub open spec fn raw_verify_path(locator: Seq<char>) -> Seq<char> {
    "/coordinator/verify/"@ + locator
}

/// The download path template with the caller's raw locator.
pub open spec fn raw_locator_path(locator: Seq<char>) -> Seq<char> {
    "/coordinator/locator/"@ + locator
}

/// The upload path template with the caller's raw locator.
pub open spec fn raw_verification_path(locator: Seq<char>) -> Seq<char> {
    "/coordinator/verification/"@ + locator
}

/// Everything a request needs before it is signed and sent: the method, the
/// canonical path to send (appended to the base URL), the `/api` signing
/// path, and the optional octet-stream body.
pub struct RequestPlan {
    pub method: String,
    pub path: String,
    pub signing_path: String,
    pub body: Option<Vec<u8>>,
}

/// A request plan together with the `Authorization` header value derived
/// from the secret key for exactly this plan's method and signing path.
pub struct SignedRequest {
    pub method: String,
    pub path: String,
    pub signing_path: String,
    pub authorization: String,
    pub body: Option<Vec<u8>>,
}

impl RequestPlan {
    /// The message the request signature must be computed over: the plan's
    /// method bound to its signing path.
    pub fn signing_message(&self) -> (r: String)
        ensures
            r@ == auth_message(self.method@, self.signing_path@),
    {
        build_auth_message(self.method.as_str(), self.signing_path.as_str())
    }

    /// Attaches the outcome of the external signing primitive: the
    /// authorization header on success, `InvalidKey` when the secret key
    /// could not be parsed.
    pub fn into_signed(self, signature: Option<String>) -> (r: Result<SignedRequest, VerifierError>)
        ensures
            signature matches Some(s) ==> (r matches Ok(q) && q.method == self.method && q.path
                == self.path && q.signing_path == self.signing_path && q.authorization == s
                && q.body == self.body),
            signature is None ==> (r matches Err(e) && e is InvalidKey),
    {
        match authorization_from_signature(signature) {
            Ok(authorization) => Ok(
                SignedRequest {
                    method: self.method,
                    path: self.path,
                    signing_path: self.signing_path,
                    authorization,
                    body: self.body,
                },
            ),
            Err(e) => Err(e),
        }
    }
}

/// One ceremony participant's client state: the stored secret key and the
/// coordinator's base URL.
pub struct Verifier {
    pub view_key: String,
    pub coordinator_api_url: String,
}

impl Verifier {
    pub fn new(view_key: String, coordinator_api_url: String) -> (r: Verifier)
        ensures
            r.view_key == view_key,
            r.coordinator_api_url == coordinator_api_url,
    {
        Verifier { view_key, coordinator_api_url }
    }

    /// The request that attempts to acquire the lock on a chunk.
    pub fn lock_chunk_plan(&self) -> (r: RequestPlan)
        ensures
            r.method@ == "post"@,
            r.path@ == lock_path(),
            r.signing_path@ == api_signing_path(lock_path()),
            r.body is None,
    {
        let path = String::from_str("/coordinator/verifier/lock");
        let signing_path = build_signing_path(path.as_str());
        RequestPlan { method: String::from_str("post"), path, signing_path, body: None }
    }

    /// The request that runs verification of an uploaded contribution at
    /// `verified_locator`.
    pub fn verify_contribution_plan(&self, verified_locator: &str) -> (r: RequestPlan)
        ensures
            r.method@ == "post"@,
            r.path@ == verify_path(verified_locator@),
            r.signing_path@ == api_signing_path(verify_path(verified_locator@)),
            r.body is None,
    {
        let c = canonicalize_locator(verified_locator);
        let mut path = String::from_str("/coordinator/verify/");
        path.append(c.as_str());
        let signing_path = build_signing_path(path.as_str());
        RequestPlan { method: String::from_str("post"), path, signing_path, body: None }
    }

    /// The request that downloads the challenge file at `challenge_locator`.
    pub fn download_challenge_file_plan(&self, challenge_locator: &str) -> (r: RequestPlan)
        ensures
            r.method@ == "get"@,
            r.path@ == locator_path(challenge_locator@),
            r.signing_path@ == api_signing_path(locator_path(challenge_locator@)),
            r.body is None,
    {
        let c = canonicalize_locator(challenge_locator);
        let mut path = String::from_str("/coordinator/locator/");
        path.append(c.as_str());
        let signing_path = build_signing_path(path.as_str());
        RequestPlan { method: String::from_str("get"), path, signing_path, body: None }
    }

    /// The request that downloads the response file at `response_locator`.
    pub fn download_response_file_plan(&self, response_locator: &str) -> (r: RequestPlan)
        ensures
            r.method@ == "get"@,
            r.path@ == locator_path(response_locator@),
            r.signing_path@ == api_signing_path(locator_path(response_locator@)),
            r.body is None,
    {
        let c = canonicalize_locator(response_locator);
        let mut path = String::from_str("/coordinator/locator/");
        path.append(c.as_str());
        let signing_path = build_signing_path(path.as_str());
        RequestPlan { method: String::from_str("get"), path, signing_path, body: None }
    }

    /// The request that uploads the next challenge file to
    /// `next_challenge_locator`.
    pub fn upload_next_challenge_locator_file_plan(
        &self,
        next_challenge_locator: &str,
        next_challenge_file_bytes: Vec<u8>,
    ) -> (r: RequestPlan)
        ensures
            r.method@ == "post"@,
            r.path@ == verification_path(next_challenge_locator@),
            r.signing_path@ == api_signing_path(verification_path(next_challenge_locator@)),
            r.body matches Some(b) && b == next_challenge_file_bytes,
    {
        let c = canonicalize_locator(next_challenge_locator);
        let mut path = String::from_str("/coordinator/verification/");
        path.append(c.as_str());
        let signing_path = build_signing_path(path.as_str());
        RequestPlan {
            method: String::from_str("post"),
            path,
            signing_path,
            body: Some(next_challenge_file_bytes),
        }
    }

    /// Classifies the outcome of the lock request: a transport failure is a
    /// `FailedRequest` carrying the lock path and base URL; a non-success
    /// status is `FailedLock`; a success body decodes strictly, and a body
    /// that is not a canonical lock response is a decode error distinct from
    /// `FailedLock`.
    pub fn lock_chunk(&self, outcome: TextOutcome) -> (r: Result<LockResponse, VerifierError>)
        ensures
            outcome is TransportFailure ==> (r matches Err(e) && e matches
                VerifierError::FailedRequest(p, u) && p@ == lock_path() && u@
                == self.coordinator_api_url@),
            outcome matches TextOutcome::Response { status, body } ==> {
                &&& !is_success_status(status) ==> (r matches Err(e)
                    && e is FailedLock)
                &&& is_success_status(status) ==> match spec_parse_lock(body@) {
                    Some(m) => r matches Ok(lr) && lr@ == m,
                    None => r matches Err(e) && e is FailedLockResponseDecode,
                }
            },
    {
        match outcome {
            TextOutcome::TransportFailure => Err(
                VerifierError::FailedRequest(
                    String::from_str("/coordinator/verifier/lock"),
                    self.coordinator_api_url.clone(),
                ),
            ),
            TextOutcome::Response { status, body } => {
                if !(200 <= status && status < 300) {
                    return Err(VerifierError::FailedLock);
                }
                match LockResponse::decode(body.as_str()) {
                    Some(lr) => Ok(lr),
                    None => Err(VerifierError::FailedLockResponseDecode),
                }
            },
        }
    }

    /// Classifies the outcome of the verify-contribution request: the raw
    /// acknowledgement text on success, `FailedVerification` with the
    /// original locator on a non-success status.
    pub fn verify_contribution(&self, verified_locator: &str, outcome: TextOutcome) -> (r: Result<
        String,
        VerifierError,
    >)
        ensures
            outcome is TransportFailure ==> (r matches Err(e) && e matches
                VerifierError::FailedRequest(p, u) && p@ == raw_verify_path(verified_locator@)
                && u@ == self.coordinator_api_url@),
            outcome matches TextOutcome::Response { status, body } ==> {
                &&& is_success_status(status) ==> (r matches Ok(t) && t@ == body@)
                &&& !is_success_status(status) ==> (r matches Err(e) && e matches
                    VerifierError::FailedVerification(l) && l@ == verified_locator@)
            },
    {
        match outcome {
            TextOutcome::TransportFailure => {
                let mut p = String::from_str("/coordinator/verify/");
                p.append(verified_locator);
                Err(VerifierError::FailedRequest(p, self.coordinator_api_url.clone()))
            },
            TextOutcome::Response { status, body } => {
                if 200 <= status && status < 300 {
                    Ok(body)
                } else {
                    Err(VerifierError::FailedVerification(String::from_str(verified_locator)))
                }
            },
        }
    }

    /// Classifies the outcome of the challenge download: the file buffer on
    /// success, `FailedChallengeDownload` with the original locator on a
    /// non-success status.
    pub fn download_challenge_file(&self, challenge_locator: &str, outcome: HttpOutcome) -> (r:
        Result<Vec<u8>, VerifierError>)
        ensures
            outcome is TransportFailure ==> (r matches Err(e) && e matches
                VerifierError::FailedRequest(p, u) && p@ == raw_locator_path(challenge_locator@)
                && u@ == self.coordinator_api_url@),
            outcome matches HttpOutcome::Response { status, body } ==> {
                &&& is_success_status(status) ==> (r matches Ok(b) && b@ == body@)
                &&& !is_success_status(status) ==> (r matches Err(e) && e matches
                    VerifierError::FailedChallengeDownload(l) && l@ == challenge_locator@)
            },
    {
        match outcome {
            HttpOutcome::TransportFailure => {
                let mut p = String::from_str("/coordinator/locator/");
                p.append(challenge_locator);
                Err(VerifierError::FailedRequest(p, self.coordinator_api_url.clone()))
            },
            HttpOutcome::Response { status, body } => {
                if 200 <= status && status < 300 {
                    Ok(body)
                } else {
                    Err(
                        VerifierError::FailedChallengeDownload(
                            String::from_str(challenge_locator),
                        ),
                    )
                }
            },
        }
    }

    /// Classifies the outcome of the response download: the file buffer on
    /// success, `FailedResponseDownload` with the original locator on a
    /// non-success status.
    pub fn download_response_file(&self, response_locator: &str, outcome: HttpOutcome) -> (r:
        Result<Vec<u8>, VerifierError>)
        ensures
            outcome is TransportFailure ==> (r matches Err(e) && e matches
                VerifierError::FailedRequest(p, u) && p@ == raw_locator_path(response_locator@)
                && u@ == self.coordinator_api_url@),
            outcome matches HttpOutcome::Response { status, body } ==> {
                &&& is_success_status(status) ==> (r matches Ok(b) && b@ == body@)
                &&& !is_success_status(status) ==> (r matches Err(e) && e matches
                    VerifierError::FailedResponseDownload(l) && l@ == response_locator@)
            },
    {
        match outcome {
            HttpOutcome::TransportFailure => {
                let mut p = String::from_str("/coordinator/locator/");
                p.append(response_locator);
                Err(VerifierError::FailedRequest(p, self.coordinator_api_url.clone()))
            },
            HttpOutcome::Response { status, body } => {
                if 200 <= status && status < 300 {
                    Ok(body)
                } else {
                    Err(VerifierError::FailedResponseDownload(String::from_str(response_locator)))
                }
            },
        }
    }

    /// Classifies the outcome of the upload: the raw acknowledgement text on
    /// success, `FailedChallengeUpload` with the original locator on a
    /// non-success status.
    pub fn upload_next_challenge_locator_file(
        &self,
        next_challenge_locator: &str,
        outcome: TextOutcome,
    ) -> (r: Result<String, VerifierError>)
        ensures
            outcome is TransportFailure ==> (r matches Err(e) && e matches
                VerifierError::FailedRequest(p, u) && p@ == raw_verification_path(
                next_challenge_locator@,
            ) && u@ == self.coordinator_api_url@),
            outcome matches TextOutcome::Response { status, body } ==> {
                &&& is_success_status(status) ==> (r matches Ok(t) && t@ == body@)
                &&& !is_success_status(status) ==> (r matches Err(e) && e matches
                    VerifierError::FailedChallengeUpload(l) && l@ == next_challenge_locator@)
            },
    {
        match outcome {
            TextOutcome::TransportFailure => {
                let mut p = String::from_str("/coordinator/verification/");
                p.append(next_challenge_locator);
                Err(VerifierError::FailedRequest(p, self.coordinator_api_url.clone()))
            },
            TextOutcome::Response { status, body } => {
                if 200 <= status && status < 300 {
                    Ok(body)
                } else {
                    Err(
                        VerifierError::FailedChallengeUpload(
                            String::from_str(next_challenge_locator),
                        ),
                    )
                }
            },
        }
    }
}

} // verus!
