//! Guarantees the library states of whole requests. Each law is proved
//! from the same specifications the executable functions are verified
//! against: [`crate::verify::request_verdict`] for classification and
//! [`crate::response::verdict_response`] for the mapping table.

use vstd::prelude::*;

use crate::base64url::b64_decode;
use crate::base64url::b64_valid;
use crate::crypto::hmac_sha256;
use crate::outcome::Verdict;
use crate::response::error_body;
use crate::response::user_body;
use crate::response::verdict_response;
use crate::response::ApiResponse;
use crate::response::ErrorCode;
use crate::response::LookupResult;
use crate::response::UserRecord;
use crate::verify::credential_of;
use crate::verify::dot_positions;
use crate::verify::has_three_parts;
use crate::verify::header_shape_ok;
use crate::verify::request_verdict;
use crate::verify::token_claims;

verus! {

/// The response to a whole request, at the specification level: classify
/// the header under the key and the time, then apply the mapping table.
pub open spec fn spec_response(
    h: Option<Seq<u8>>,
    key: Seq<u8>,
    now: u64,
    lookup: Option<LookupResult>,
) -> (ApiResponse, u16) {
    verdict_response(request_verdict(h, key, now), lookup)
}

/// An absent header is answered 401 with code `NOT_AUTHENTICATED`,
/// whatever the key and the time.
pub proof fn lemma_missing_header(key: Seq<u8>, now: u64)
    ensures
        spec_response(None::<Seq<u8>>, key, now, None::<LookupResult>) == (
            error_body(ErrorCode::NotAuthenticated),
            401u16,
        ),
{
}

/// A header that does not match the scheme-plus-credential shape is
/// answered 400 with code `BAD_HEADER`, whatever it holds otherwise.
pub proof fn lemma_bad_format(h: Seq<u8>, key: Seq<u8>, now: u64)
    requires
        !header_shape_ok(h),
    ensures
        spec_response(Some(h), key, now, None::<LookupResult>) == (
            error_body(ErrorCode::BadHeader),
            400u16,
        ),
{
}

/// The credential splits into three decodable segments, but its signature
/// segment is not the tag of its signing input under `key`.
pub open spec fn badly_signed(cred: Seq<u8>, key: Seq<u8>) -> bool {
    &&& has_three_parts(cred)
    &&& ({
        let (i, j) = dot_positions(cred);
        &&& b64_valid(cred.subrange(0, i))
        &&& b64_valid(cred.subrange(i + 1, j))
        &&& b64_valid(cred.subrange(j + 1, cred.len() as int))
        &&& b64_decode(cred.subrange(j + 1, cred.len() as int)) != hmac_sha256(
            key,
            cred.subrange(0, j),
        )
    })
}

/// A structurally valid but badly signed credential is answered 401 with
/// code `BAD_TOKEN`.
pub proof fn lemma_bad_signature(h: Seq<u8>, key: Seq<u8>, now: u64)
    requires
        header_shape_ok(h),
        badly_signed(credential_of(h), key),
    ensures
        spec_response(Some(h), key, now, None::<LookupResult>) == (
            error_body(ErrorCode::BadToken),
            401u16,
        ),
{
}

/// A validly signed credential whose expiry is not strictly in the future
/// is answered 401 with code `BAD_TOKEN`.
pub proof fn lemma_expired(h: Seq<u8>, key: Seq<u8>, now: u64, uid: Seq<u8>, exp: u64)
    requires
        header_shape_ok(h),
        token_claims(credential_of(h), key) == Some((uid, exp)),
        exp <= now,
    ensures
        spec_response(Some(h), key, now, None::<LookupResult>) == (
            ApiResponse::ApiError {
                message: "The JWT has already expired",
                error_code: ErrorCode::BadToken,
            },
            401u16,
        ),
{
}

/// A validly signed, unexpired credential whose subject has a stored
/// record is answered 200 with exactly the record's fields.
pub proof fn lemma_found(
    h: Seq<u8>,
    key: Seq<u8>,
    now: u64,
    uid: Seq<u8>,
    exp: u64,
    rec: UserRecord,
)
    requires
        header_shape_ok(h),
        token_claims(credential_of(h), key) == Some((uid, exp)),
        exp > now,
    ensures
        spec_response(Some(h), key, now, Some(LookupResult::Found(rec))) == (
            user_body(rec),
            200u16,
        ),
{
}

/// A validly signed, unexpired credential whose subject has no stored
/// record is answered 404 with code `USER_NOT_FOUND`.
pub proof fn lemma_not_found(h: Seq<u8>, key: Seq<u8>, now: u64, uid: Seq<u8>, exp: u64)
    requires
        header_shape_ok(h),
        token_claims(credential_of(h), key) == Some((uid, exp)),
        exp > now,
    ensures
        spec_response(Some(h), key, now, Some(LookupResult::NotFound)) == (
            error_body(ErrorCode::UserNotFound),
            404u16,
        ),
{
}

/// When the lookup fails for a valid credential, the answer is 500 with
/// code `INTERNAL_SERVER_ERROR` and the fixed generic message: a failed
/// lookup carries no detail into the response — [`LookupResult::Failed`]
/// holds none, and the body equals a constant independent of the request.
pub proof fn lemma_lookup_failure(h: Seq<u8>, key: Seq<u8>, now: u64, uid: Seq<u8>, exp: u64)
    requires
        header_shape_ok(h),
        token_claims(credential_of(h), key) == Some((uid, exp)),
        exp > now,
    ensures
        spec_response(Some(h), key, now, Some(LookupResult::Failed)) == (
            error_body(ErrorCode::InternalServerError),
            500u16,
        ),
{
}

/// An expired verdict is only ever reached past a valid signature: a
/// caller without a validly signed token cannot learn whether a token is
/// expired, because the signature is checked first.
pub proof fn lemma_expired_implies_valid_signature(h: Seq<u8>, key: Seq<u8>, now: u64)
    requires
        request_verdict(Some(h), key, now) is ExpiredToken,
    ensures
        header_shape_ok(h),
        token_claims(credential_of(h), key) is Some,
{
}

/// An authenticated verdict carries exactly the subject identifier of the
/// verified claims, and only when the expiry is strictly in the future:
/// no claim is trusted before verification succeeds.
pub proof fn lemma_authenticated_implies_verified(h: Seq<u8>, key: Seq<u8>, now: u64, uid: Seq<u8>)
    requires
        request_verdict(Some(h), key, now) == Verdict::Authenticated(uid),
    ensures
        header_shape_ok(h),
        token_claims(credential_of(h), key) matches Some((u, exp)) && u == uid && exp > now,
{
}

/// Repeating a request with the same still-valid credential and the same
/// lookup answer yields the same body and status: the verdict depends on
/// the time only through the expiry comparison, which both times pass.
pub proof fn lemma_idempotent_while_valid(
    h: Seq<u8>,
    key: Seq<u8>,
    now1: u64,
    now2: u64,
    uid: Seq<u8>,
    exp: u64,
    lookup: Option<LookupResult>,
)
    requires
        header_shape_ok(h),
        token_claims(credential_of(h), key) == Some((uid, exp)),
        now1 < exp,
        now2 < exp,
    ensures
        spec_response(Some(h), key, now1, lookup) == spec_response(Some(h), key, now2, lookup),
{
}

} // verus!
