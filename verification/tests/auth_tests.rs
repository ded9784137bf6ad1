//! End-to-end tests of the verification pipeline and the response
//! mapping, with tokens built and signed by the real outside crates.

use bearer_auth::outcome::Outcome;
use bearer_auth::response::map_outcome;
use bearer_auth::response::ApiResponse;
use bearer_auth::response::ErrorCode;
use bearer_auth::response::LookupResult;
use bearer_auth::response::UserRecord;
use bearer_auth::verify::verify_header;
use hmac::Mac;

const NOW: u64 = 1_700_000_000;
const KEY: &[u8] = b"test-signing-key";

fn b64url_encode(data: &[u8]) -> Vec<u8> {
    let alpha: &[u8] = b"ABCDEFGHIJKLMNOPQRSTUVWXYZabcdefghijklmnopqrstuvwxyz0123456789-_";
    let mut out: Vec<u8> = Vec::new();
    for chunk in data.chunks(3) {
        let b0 = chunk[0] as u32;
        let b1 = if chunk.len() > 1 { chunk[1] as u32 } else { 0 };
        let b2 = if chunk.len() > 2 { chunk[2] as u32 } else { 0 };
        let n = (b0 << 16) | (b1 << 8) | b2;
        out.push(alpha[(n >> 18) as usize & 63]);
        out.push(alpha[(n >> 12) as usize & 63]);
        if chunk.len() > 1 {
            out.push(alpha[(n >> 6) as usize & 63]);
        }
        if chunk.len() > 2 {
            out.push(alpha[n as usize & 63]);
        }
    }
    out
}

fn hmac_tag(key: &[u8], msg: &[u8]) -> Vec<u8> {
    let mut mac = <hmac::Hmac<sha2::Sha256>>::new_from_slice(key).unwrap();
    mac.update(msg);
    mac.finalize().into_bytes().to_vec()
}

/// A signed token over the given claims text, in the conventional
/// three-segment form.
fn make_token(key: &[u8], claims_json: &str) -> Vec<u8> {
    let mut tok = b64url_encode(b"{\"alg\":\"HS256\",\"typ\":\"JWT\"}");
    tok.push(b'.');
    tok.extend_from_slice(&b64url_encode(claims_json.as_bytes()));
    let tag = hmac_tag(key, &tok);
    tok.push(b'.');
    tok.extend_from_slice(&b64url_encode(&tag));
    tok
}

fn bearer(tok: &[u8]) -> Vec<u8> {
    let mut h = b"Bearer ".to_vec();
    h.extend_from_slice(tok);
    h
}

fn record_u1() -> UserRecord {
    UserRecord {
        uid: b"u1".to_vec(),
        email: "u1@example.com".to_string(),
        created_at: 1_600_000_000,
        updated_at: 1_650_000_000,
        last_login: Some(1_690_000_000),
        active: true,
        metadata: Some("plan=free".to_string()),
        email_verified: false,
    }
}

fn error_code_of(resp: &ApiResponse) -> ErrorCode {
    match resp {
        ApiResponse::ApiError { error_code, .. } => *error_code,
        _ => panic!("expected an error body"),
    }
}

#[test]
fn missing_header_is_not_authenticated() {
    let outcome = verify_header(None, KEY, NOW);
    assert_eq!(outcome, Outcome::MissingHeader);
    let (body, status) = map_outcome(outcome, None);
    assert_eq!(status, 401);
    assert_eq!(error_code_of(&body).as_str(), "NOT_AUTHENTICATED");
}

#[test]
fn misshapen_headers_are_bad_header() {
    let cases: Vec<&[u8]> = vec![
        b"Token abc",
        b"Bearer",
        b"Bearer ",
        b"bearer abc.def.ghi",
        b"BEARER abc.def.ghi",
        b"",
        b"Bearer\tabc",
    ];
    for h in cases {
        let outcome = verify_header(Some(h), KEY, NOW);
        assert_eq!(outcome, Outcome::BadFormat, "header {:?}", h);
        let (body, status) = map_outcome(outcome, None);
        assert_eq!(status, 400);
        assert_eq!(error_code_of(&body).as_str(), "BAD_HEADER");
    }
}

#[test]
fn structurally_broken_credentials_are_unverifiable() {
    let cases: Vec<&[u8]> = vec![
        b"Bearer abc",
        b"Bearer abc.def",
        b"Bearer a.b.c.d",
        b"Bearer ...",
        b"Bearer a%b.cd.ef",
        b"Bearer abcde.fg.hi",
    ];
    for h in cases {
        let outcome = verify_header(Some(h), KEY, NOW);
        assert_eq!(outcome, Outcome::Unverifiable, "header {:?}", h);
        let (body, status) = map_outcome(outcome, None);
        assert_eq!(status, 401);
        assert_eq!(error_code_of(&body).as_str(), "BAD_TOKEN");
    }
}

#[test]
fn tampered_signature_is_unverifiable() {
    let claims = format!("{{\"uid\":\"u1\",\"exp\":{}}}", NOW + 3600);
    let mut tok = make_token(KEY, &claims);
    let sig_start = tok.iter().rposition(|&b| b == b'.').unwrap() + 1;
    tok[sig_start] = if tok[sig_start] == b'A' { b'B' } else { b'A' };
    let outcome = verify_header(Some(&bearer(&tok)), KEY, NOW);
    assert_eq!(outcome, Outcome::Unverifiable);
}

#[test]
fn wrong_key_is_unverifiable() {
    let claims = format!("{{\"uid\":\"u1\",\"exp\":{}}}", NOW + 3600);
    let tok = make_token(b"another-key", &claims);
    let outcome = verify_header(Some(&bearer(&tok)), KEY, NOW);
    assert_eq!(outcome, Outcome::Unverifiable);
    let (body, status) = map_outcome(outcome, None);
    assert_eq!(status, 401);
    assert_eq!(error_code_of(&body).as_str(), "BAD_TOKEN");
}

#[test]
fn expired_token_is_bad_token() {
    let claims = format!("{{\"uid\":\"u1\",\"exp\":{}}}", NOW - 10);
    let tok = make_token(KEY, &claims);
    let outcome = verify_header(Some(&bearer(&tok)), KEY, NOW);
    assert_eq!(outcome, Outcome::ExpiredToken);
    let (body, status) = map_outcome(outcome, None);
    assert_eq!(status, 401);
    assert_eq!(error_code_of(&body).as_str(), "BAD_TOKEN");
    match body {
        ApiResponse::ApiError { message, .. } => {
            assert_eq!(message, "The JWT has already expired");
        },
        _ => panic!("expected an error body"),
    }
}

#[test]
fn expiry_equal_to_now_is_expired() {
    let claims = format!("{{\"uid\":\"u1\",\"exp\":{}}}", NOW);
    let tok = make_token(KEY, &claims);
    let outcome = verify_header(Some(&bearer(&tok)), KEY, NOW);
    assert_eq!(outcome, Outcome::ExpiredToken);
}

#[test]
fn valid_token_with_record_is_ok() {
    let claims = format!("{{\"uid\":\"u1\",\"exp\":{}}}", NOW + 3600);
    let tok = make_token(KEY, &claims);
    let outcome = verify_header(Some(&bearer(&tok)), KEY, NOW);
    assert_eq!(outcome, Outcome::Authenticated(b"u1".to_vec()));
    let rec = record_u1();
    let (body, status) = map_outcome(outcome, Some(LookupResult::Found(rec.clone())));
    assert_eq!(status, 200);
    match body {
        ApiResponse::UserResponse {
            uid,
            email,
            created_at,
            updated_at,
            last_login,
            active,
            metadata,
            email_verified,
        } => {
            assert_eq!(uid, b"u1".to_vec());
            assert_eq!(email, rec.email);
            assert_eq!(created_at, rec.created_at);
            assert_eq!(updated_at, rec.updated_at);
            assert_eq!(last_login, rec.last_login);
            assert_eq!(active, rec.active);
            assert_eq!(metadata, rec.metadata);
            assert_eq!(email_verified, rec.email_verified);
        },
        _ => panic!("expected a user body"),
    }
}

#[test]
fn valid_token_without_record_is_not_found() {
    let claims = format!("{{\"uid\":\"ghost\",\"exp\":{}}}", NOW + 3600);
    let tok = make_token(KEY, &claims);
    let outcome = verify_header(Some(&bearer(&tok)), KEY, NOW);
    assert_eq!(outcome, Outcome::Authenticated(b"ghost".to_vec()));
    let (body, status) = map_outcome(outcome, Some(LookupResult::NotFound));
    assert_eq!(status, 404);
    assert_eq!(error_code_of(&body).as_str(), "USER_NOT_FOUND");
}

#[test]
fn lookup_failure_is_internal_error_with_generic_message() {
    let claims = format!("{{\"uid\":\"u1\",\"exp\":{}}}", NOW + 3600);
    let tok = make_token(KEY, &claims);
    let outcome = verify_header(Some(&bearer(&tok)), KEY, NOW);
    let (body, status) = map_outcome(outcome, Some(LookupResult::Failed));
    assert_eq!(status, 500);
    assert_eq!(error_code_of(&body).as_str(), "INTERNAL_SERVER_ERROR");
    match body {
        ApiResponse::ApiError { message, .. } => {
            assert_eq!(message, "Something went wrong");
        },
        _ => panic!("expected an error body"),
    }
}

#[test]
fn repeated_requests_are_idempotent_while_valid() {
    let claims = format!("{{\"uid\":\"u1\",\"exp\":{}}}", NOW + 3600);
    let tok = make_token(KEY, &claims);
    let header = bearer(&tok);
    let first = verify_header(Some(&header), KEY, NOW);
    let second = verify_header(Some(&header), KEY, NOW + 100);
    assert_eq!(first, second);
    let r1 = map_outcome(first, Some(LookupResult::Found(record_u1())));
    let r2 = map_outcome(second, Some(LookupResult::Found(record_u1())));
    assert_eq!(r1, r2);
    let expired = verify_header(Some(&header), KEY, NOW + 3600);
    assert_eq!(expired, Outcome::ExpiredToken);
}

#[test]
fn uid_and_other_claims_in_any_order() {
    let claims = format!("{{\"iss\":\"me\",\"exp\":{},\"n\":7,\"uid\":\"ab c\"}}", NOW + 60);
    let tok = make_token(KEY, &claims);
    let outcome = verify_header(Some(&bearer(&tok)), KEY, NOW);
    assert_eq!(outcome, Outcome::Authenticated(b"ab c".to_vec()));
}
