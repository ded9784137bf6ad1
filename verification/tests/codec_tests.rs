//! Unit tests of the base64url decoder and the claims parser.

use bearer_auth::base64url::b64_decode_bytes;
use bearer_auth::claims::parse_claims;
use bearer_auth::claims::Claims;

#[test]
fn b64_decodes_full_chunks() {
    assert_eq!(b64_decode_bytes(b"TWFu"), Some(b"Man".to_vec()));
    assert_eq!(b64_decode_bytes(b"TWFuTWFu"), Some(b"ManMan".to_vec()));
}

#[test]
fn b64_decodes_short_tails() {
    assert_eq!(b64_decode_bytes(b"TWE"), Some(b"Ma".to_vec()));
    assert_eq!(b64_decode_bytes(b"TQ"), Some(b"M".to_vec()));
    assert_eq!(b64_decode_bytes(b""), Some(Vec::new()));
}

#[test]
fn b64_uses_url_safe_alphabet() {
    // 0xfb 0xef -> 64-bit groups 111110 111110 1111xx: '-' and '_' appear.
    assert_eq!(b64_decode_bytes(b"--8"), Some(vec![0xfb, 0xef]));
    assert_eq!(b64_decode_bytes(b"__8"), Some(vec![0xff, 0xff]));
    assert_eq!(b64_decode_bytes(b"+w"), None);
    assert_eq!(b64_decode_bytes(b"/w"), None);
}

#[test]
fn b64_rejects_bad_lengths_and_bytes() {
    assert_eq!(b64_decode_bytes(b"A"), None);
    assert_eq!(b64_decode_bytes(b"AAAAB"), None);
    assert_eq!(b64_decode_bytes(b"TW=u"), None);
    assert_eq!(b64_decode_bytes(b"TW%u"), None);
    assert_eq!(b64_decode_bytes(b"TW\nu"), None);
}

#[test]
fn claims_parse_exact_values() {
    let c = parse_claims(b"{\"uid\":\"u1\",\"exp\":123}").unwrap();
    assert_eq!(
        c,
        Claims { uid: b"u1".to_vec(), exp: 123 }
    );
}

#[test]
fn claims_accept_any_member_order_and_extras() {
    let c = parse_claims(b"{\"exp\":9,\"who\":\"x\",\"uid\":\"a\"}").unwrap();
    assert_eq!(c.uid, b"a".to_vec());
    assert_eq!(c.exp, 9);
}

#[test]
fn claims_first_occurrence_decides() {
    let c = parse_claims(b"{\"uid\":\"a\",\"uid\":\"b\",\"exp\":1,\"exp\":2}").unwrap();
    assert_eq!(c.uid, b"a".to_vec());
    assert_eq!(c.exp, 1);
}

#[test]
fn claims_reject_missing_or_mistyped_members() {
    assert_eq!(parse_claims(b"{}"), None);
    assert_eq!(parse_claims(b"{\"uid\":\"u1\"}"), None);
    assert_eq!(parse_claims(b"{\"exp\":123}"), None);
    assert_eq!(parse_claims(b"{\"uid\":7,\"exp\":123}"), None);
    assert_eq!(parse_claims(b"{\"uid\":\"u1\",\"exp\":\"123\"}"), None);
}

#[test]
fn claims_reject_malformed_objects() {
    assert_eq!(parse_claims(b""), None);
    assert_eq!(parse_claims(b"{"), None);
    assert_eq!(parse_claims(b"[\"uid\"]"), None);
    assert_eq!(parse_claims(b"{\"uid\":\"u1\",\"exp\":123} "), None);
    assert_eq!(parse_claims(b"{\"uid\": \"u1\",\"exp\":123}"), None);
    assert_eq!(parse_claims(b"{\"uid\":\"u1\",\"exp\":123,}"), None);
    assert_eq!(parse_claims(b"{\"uid\":\"u\\n1\",\"exp\":123}"), None);
    assert_eq!(parse_claims(b"{\"uid\":\"u1\",\"exp\":12a3}"), None);
}

#[test]
fn claims_expiry_bounds() {
    let c = parse_claims(b"{\"uid\":\"u\",\"exp\":18446744073709551615}").unwrap();
    assert_eq!(c.exp, u64::MAX);
    assert_eq!(parse_claims(b"{\"uid\":\"u\",\"exp\":18446744073709551616}"), None);
    assert_eq!(parse_claims(b"{\"uid\":\"u\",\"exp\":99999999999999999999999}"), None);
}
