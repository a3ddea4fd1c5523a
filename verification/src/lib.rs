//! Client-side protocol logic for a ceremony verifier: request signing over
//! canonical paths, deterministic classification of coordinator responses,
//! and the per-chunk lock/download/verify/upload lifecycle.
pub mod client;
pub mod driver;
pub mod errors;
pub mod locator;
pub mod lock_response;
pub mod signer;

pub use client::Verifier;
pub use errors::VerifierError;
pub use locator::canonicalize_locator;
pub use lock_response::LockResponse;
