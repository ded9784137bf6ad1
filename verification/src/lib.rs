//! Verified core of a bearer-credential authentication service.
//!
//! A request presents an `Authorization` header. The library parses the
//! header, verifies the signed, time-bounded token it carries, classifies
//! the attempt into exactly one [`outcome::Outcome`], and maps that outcome
//! (together with the result of a user lookup performed by the caller) to a
//! response body and transport status code.
//!
//! Everything that computes is verified; the one cryptographic primitive
//! (HMAC-SHA-256) is called through a trusted wrapper in [`crypto`].

pub mod base64url;
pub mod claims;
pub mod crypto;
pub mod laws;
pub mod outcome;
pub mod response;
pub mod verify;
