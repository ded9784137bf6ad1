//! From the raw `Authorization` header to an [`Outcome`]: header parsing,
//! structural decoding, signature check, claims decoding, expiry check.
//!
//! The signature is checked before the expiry, so a caller without a
//! validly signed token cannot distinguish an expired token from a forged
//! one.

use vstd::prelude::*;

use crate::base64url::b64_decode;
use crate::base64url::b64_decode_bytes;
use crate::base64url::b64_valid;
use crate::claims::claims_of;
use crate::claims::parse_claims;
use crate::crypto::bytes_eq_ct;
use crate::crypto::compute_hmac_sha256;
use crate::crypto::hmac_sha256;
use crate::outcome::Outcome;
use crate::outcome::Verdict;

verus! {

/// The scheme prefix a header must carry: `Bearer` and one space,
/// case-sensitive.
pub open spec fn bearer_prefix() -> Seq<u8> {
    seq![0x42u8, 0x65u8, 0x61u8, 0x72u8, 0x65u8, 0x72u8, 0x20u8]
}

/// A present header is well shaped when the scheme prefix opens it and a
/// non-empty credential follows.
pub open spec fn header_shape_ok(h: Seq<u8>) -> bool {
    h.len() > 7 && h.subrange(0, 7) == bearer_prefix()
}

/// The credential carried by a well-shaped header.
pub open spec fn credential_of(h: Seq<u8>) -> Seq<u8> {
    h.subrange(7, h.len() as int)
}

/// `i` and `j` are dot positions, and the only ones, so the credential has
/// exactly three segments.
pub open spec fn is_three_part(s: Seq<u8>, i: int, j: int) -> bool {
    &&& 0 <= i < j < s.len()
    &&& s[i] == 0x2e
    &&& s[j] == 0x2e
    &&& forall|k: int| 0 <= k < s.len() && k != i && k != j ==> s[k] != 0x2e
}

/// The credential consists of exactly three dot-separated segments.
pub open spec fn has_three_parts(s: Seq<u8>) -> bool {
    exists|i: int, j: int| is_three_part(s, i, j)
}

/// The positions of the two dots of a three-part credential.
pub open spec fn dot_positions(s: Seq<u8>) -> (int, int) {
    choose|i: int, j: int| is_three_part(s, i, j)
}

/// A credential has at most one pair of dot positions.
pub proof fn lemma_three_part_unique(s: Seq<u8>, i: int, j: int, i2: int, j2: int)
    requires
        is_three_part(s, i, j),
        is_three_part(s, i2, j2),
    ensures
        i == i2,
        j == j2,
{
    assert(i2 == i || i2 == j);
    assert(j2 == i || j2 == j);
}

/// The subject identifier and expiry of a credential whose structure,
/// encoding, signature and claims all check out under `key`; `None`
/// otherwise. The signature is the HMAC-SHA-256 tag of everything before
/// the second dot.
pub open spec fn token_claims(cred: Seq<u8>, key: Seq<u8>) -> Option<(Seq<u8>, u64)> {
    if !has_three_parts(cred) {
        None
    } else {
        let (i, j) = dot_positions(cred);
        let seg_header = cred.subrange(0, i);
        let seg_claims = cred.subrange(i + 1, j);
        let seg_sig = cred.subrange(j + 1, cred.len() as int);
        if b64_valid(seg_header) && b64_valid(seg_claims) && b64_valid(seg_sig) {
            if b64_decode(seg_sig) == hmac_sha256(key, cred.subrange(0, j)) {
                claims_of(b64_decode(seg_claims))
            } else {
                None
            }
        } else {
            None
        }
    }
}

/// The verdict on a credential: its claims decide between authenticated
/// and expired; anything else is unverifiable. The expiry must be strictly
/// in the future.
pub open spec fn token_verdict(cred: Seq<u8>, key: Seq<u8>, now: u64) -> Verdict {
    match token_claims(cred, key) {
        None => Verdict::Unverifiable,
        Some((uid, exp)) => if exp > now {
            Verdict::Authenticated(uid)
        } else {
            Verdict::ExpiredToken
        },
    }
}

/// The verdict on a whole request: absent header, bad shape, or the
/// credential's own verdict.
pub open spec fn request_verdict(h: Option<Seq<u8>>, key: Seq<u8>, now: u64) -> Verdict {
    match h {
        None => Verdict::MissingHeader,
        Some(hs) => {
            if !header_shape_ok(hs) {
                Verdict::BadFormat
            } else {
                token_verdict(credential_of(hs), key, now)
            }
        },
    }
}

/// View of the optional raw header.
pub open spec fn header_view(h: Option<&[u8]>) -> Option<Seq<u8>> {
    match h {
        Some(s) => Some(s@),
        None => None,
    }
}

/// Verify one credential under `key` at time `now` (absolute seconds).
pub fn verify_token(cred: &[u8], key: &[u8], now: u64) -> (r: Outcome)
    ensures
        r@ == token_verdict(cred@, key@, now),
{
    let n = cred.len();
    let mut d1: usize = 0;
    let mut d2: usize = 0;
    let mut count: usize = 0;
    let mut k: usize = 0;
    while k < n
        invariant
            k <= n,
            n == cred@.len(),
            count <= 2,
            count == 0 ==> forall|x: int| 0 <= x < k ==> cred@[x] != 0x2e,
            count == 1 ==> d1 < k && cred@[d1 as int] == 0x2e && forall|x: int|
                0 <= x < k && x != d1 ==> cred@[x] != 0x2e,
            count == 2 ==> d1 < d2 < k && cred@[d1 as int] == 0x2e && cred@[d2 as int] == 0x2e
                && forall|x: int| 0 <= x < k && x != d1 && x != d2 ==> cred@[x] != 0x2e,
        decreases n - k,
    {
        if cred[k] == 0x2e {
            if count == 0 {
                d1 = k;
                count = 1;
            } else if count == 1 {
                d2 = k;
                count = 2;
            } else {
                proof {
                    assert(!has_three_parts(cred@)) by {
                        if has_three_parts(cred@) {
                            let (i, j) = choose|i: int, j: int| is_three_part(cred@, i, j);
                            assert(is_three_part(cred@, i, j));
                            assert(d1 == i || d1 == j);
                            assert(d2 == i || d2 == j);
                            assert(k == i || k == j);
                            assert(false);
                        }
                    }
                }
                return Outcome::Unverifiable;
            }
        }
        k = k + 1;
    }
    if count != 2 {
        proof {
            assert(!has_three_parts(cred@)) by {
                if has_three_parts(cred@) {
                    let (i, j) = choose|i: int, j: int| is_three_part(cred@, i, j);
                    assert(is_three_part(cred@, i, j));
                    assert(cred@[i] == 0x2e && cred@[j] == 0x2e);
                    if count == 1 {
                        assert(i == d1 && j == d1);
                    }
                    assert(false);
                }
            }
        }
        return Outcome::Unverifiable;
    }
    proof {
        assert(is_three_part(cred@, d1 as int, d2 as int));
        assert(has_three_parts(cred@));
        let (ci, cj) = dot_positions(cred@);
        assert(is_three_part(cred@, ci, cj));
        lemma_three_part_unique(cred@, ci, cj, d1 as int, d2 as int);
    }
    let seg_header = vstd::slice::slice_subrange(cred, 0, d1);
    let seg_claims = vstd::slice::slice_subrange(cred, d1 + 1, d2);
    let seg_sig = vstd::slice::slice_subrange(cred, d2 + 1, n);
    let signing_input = vstd::slice::slice_subrange(cred, 0, d2);
    if b64_decode_bytes(seg_header).is_none() {
        return Outcome::Unverifiable;
    }
    let claims_bytes = match b64_decode_bytes(seg_claims) {
        Some(v) => v,
        None => {
            return Outcome::Unverifiable;
        },
    };
    let sig_bytes = match b64_decode_bytes(seg_sig) {
        Some(v) => v,
        None => {
            return Outcome::Unverifiable;
        },
    };
    let mac = compute_hmac_sha256(key, signing_input);
    if !bytes_eq_ct(sig_bytes.as_slice(), mac.as_slice()) {
        return Outcome::Unverifiable;
    }
    let parsed = match parse_claims(claims_bytes.as_slice()) {
        Some(c) => c,
        None => {
            return Outcome::Unverifiable;
        },
    };
    if parsed.exp > now {
        Outcome::Authenticated(parsed.uid)
    } else {
        Outcome::ExpiredToken
    }
}

/// Parse and verify the optional `Authorization` header under `key` at
/// time `now`, classifying the attempt into exactly one [`Outcome`].
pub fn verify_header(header: Option<&[u8]>, key: &[u8], now: u64) -> (r: Outcome)
    ensures
        r@ == request_verdict(header_view(header), key@, now),
{
    let h = match header {
        None => {
            return Outcome::MissingHeader;
        },
        Some(h) => h,
    };
    if h.len() < 8 {
        return Outcome::BadFormat;
    }
    if !(h[0] == 0x42 && h[1] == 0x65 && h[2] == 0x61 && h[3] == 0x72 && h[4] == 0x65 && h[5]
        == 0x72 && h[6] == 0x20) {
        proof {
            assert(h@.subrange(0, 7) != bearer_prefix()) by {
                if h@.subrange(0, 7) == bearer_prefix() {
                    assert(h@.subrange(0, 7)[0] == h@[0]);
                    assert(h@.subrange(0, 7)[1] == h@[1]);
                    assert(h@.subrange(0, 7)[2] == h@[2]);
                    assert(h@.subrange(0, 7)[3] == h@[3]);
                    assert(h@.subrange(0, 7)[4] == h@[4]);
                    assert(h@.subrange(0, 7)[5] == h@[5]);
                    assert(h@.subrange(0, 7)[6] == h@[6]);
                    assert(false);
                }
            }
        }
        return Outcome::BadFormat;
    }
    proof {
        assert(h@.subrange(0, 7) =~= bearer_prefix());
    }
    let cred = vstd::slice::slice_subrange(h, 7, h.len());
    verify_token(cred, key, now)
}

} // verus!
