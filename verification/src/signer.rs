//! Construction of the material every request is signed over: the `/api`
//! signing path and the message binding the HTTP method to that path.
//!
//! The cryptographic primitive that turns this message into a signature is an
//! external collaborator (the ceremony's account toolkit); the caller hands
//! its outcome back, and [`authorization_from_signature`] maps a failure to
//! parse the secret key into `VerifierError::InvalidKey`.
use vstd::prelude::*;

use crate::errors::VerifierError;

verus! {

/// The message a request signature is computed over: the method, one space,
/// then the canonical signing path.
pub open spec fn auth_message(method: Seq<char>, path: Seq<char>) -> Seq<char> {
    method + seq![' '] + path
}

/// The signing path: the fixed `/api` namespace segment, then the sent path.
pub open spec fn api_signing_path(path: Seq<char>) -> Seq<char> {
    seq!['/', 'a', 'p', 'i'] + path
}

/// True when a method token contains no space, so it cannot bleed into the
/// path part of an authentication message.
pub open spec fn method_token(method: Seq<char>) -> bool {
    forall|i: int| 0 <= i < method.len() ==> method[i] != ' '
}

/// An authentication message binds its method and path: two pairs that yield
/// the same message are the same pair. Replaying a signature against another
/// method or path therefore changes the signed message.
pub proof fn lemma_auth_message_binds_method_and_path(
    m1: Seq<char>,
    p1: Seq<char>,
    m2: Seq<char>,
    p2: Seq<char>,
)
    requires
        method_token(m1),
        method_token(m2),
        auth_message(m1, p1) == auth_message(m2, p2),
    ensures
        m1 == m2,
        p1 == p2,
{
    let s = auth_message(m1, p1);
    assert(s.len() == m1.len() + 1 + p1.len());
    assert(s.len() == m2.len() + 1 + p2.len());
    assert(s[m1.len() as int] == ' ');
    assert(s[m2.len() as int] == ' ');
    if m1.len() < m2.len() {
        assert(s[m1.len() as int] == m2[m1.len() as int]);
        assert(false);
    }
    if m2.len() < m1.len() {
        assert(s[m2.len() as int] == m1[m2.len() as int]);
        assert(false);
    }
    assert forall|i: int| 0 <= i < m1.len() implies m1[i] == m2[i] by {
        assert(s[i] == m1[i]);
        assert(s[i] == m2[i]);
    }
    assert(m1 =~= m2);
    assert forall|i: int| 0 <= i < p1.len() implies p1[i] == p2[i] by {
        assert(s[m1.len() + 1 + i] == p1[i]);
        assert(s[m2.len() + 1 + i] == p2[i]);
    }
    assert(p1 =~= p2);
}

/// Builds the signing path `/api{path}` for an already-canonicalized path.
pub fn build_signing_path(path: &str) -> (r: String)
    ensures
        r@ == api_signing_path(path@),
{
    proof {
        reveal_strlit("/api");
        assert("/api"@ =~= seq!['/', 'a', 'p', 'i']);
    }
    let mut out = String::from_str("/api");
    out.append(path);
    out
}

/// Builds the message to sign: `{method} {signing_path}`.
pub fn build_auth_message(method: &str, signing_path: &str) -> (r: String)
    ensures
        r@ == auth_message(method@, signing_path@),
{
    proof {
        reveal_strlit(" ");
        assert(" "@ =~= seq![' ']);
    }
    let mut out = String::from_str(method);
    out.append(" ");
    out.append(signing_path);
    out
}

/// Turns the outcome of the external signing primitive into either the
/// `Authorization` header value or `InvalidKey`: the primitive returns no
/// signature exactly when the secret key could not be parsed.
pub fn authorization_from_signature(signature: Option<String>) -> (r: Result<
    String,
    VerifierError,
>)
    ensures
        signature matches Some(s) ==> r == Ok::<String, VerifierError>(s),
        signature is None ==> (r matches Err(e) && e is InvalidKey),
{
    match signature {
        Some(s) => Ok(s),
        None => Err(VerifierError::InvalidKey),
    }
}

} // verus!
