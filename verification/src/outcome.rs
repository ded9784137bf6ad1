//! The five-way classification of an authentication attempt.

use vstd::prelude::*;

verus! {

/// Classification of one authentication attempt. Exactly one variant is
/// active per request; every caller must handle all five.
#[derive(Clone, Debug, PartialEq, Eq)]
pub enum Outcome {
    /// Header present but not shaped like a bearer credential.
    BadFormat,
    /// No `Authorization` header at all.
    MissingHeader,
    /// Header parseable, but the token's structure, encoding, signature or
    /// claims could not be verified.
    Unverifiable,
    /// Signature valid, but the token's expiry is not in the future.
    ExpiredToken,
    /// Signature and expiry valid; carries the subject identifier from the
    /// token's claims, as a byte string.
    Authenticated(Vec<u8>),
}

/// Mathematical model of an [`Outcome`]: the subject identifier is a byte
/// sequence instead of a `Vec`.
pub enum Verdict {
    BadFormat,
    MissingHeader,
    Unverifiable,
    ExpiredToken,
    Authenticated(Seq<u8>),
}

impl View for Outcome {
    type V = Verdict;

    open spec fn view(&self) -> Verdict {
        match self {
            Outcome::BadFormat => Verdict::BadFormat,
            Outcome::MissingHeader => Verdict::MissingHeader,
            Outcome::Unverifiable => Verdict::Unverifiable,
            Outcome::ExpiredToken => Verdict::ExpiredToken,
            Outcome::Authenticated(uid) => Verdict::Authenticated(uid@),
        }
    }
}

} // verus!
