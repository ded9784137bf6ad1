//! ResponseMapper: from an [`Outcome`] — and, on success, the result of
//! the caller's user lookup — to a response body and a transport status
//! code. The mapping is total and deterministic.

use vstd::prelude::*;

use crate::outcome::Outcome;
use crate::outcome::Verdict;

verus! {

/// The closed set of machine-readable error codes.
#[derive(Clone, Copy, PartialEq, Eq, Structural, Debug)]
pub enum ErrorCode {
    BadHeader,
    NotAuthenticated,
    BadToken,
    UserNotFound,
    InternalServerError,
}

/// The wire text of an error code.
pub open spec fn code_text(c: ErrorCode) -> Seq<char> {
    match c {
        ErrorCode::BadHeader => "BAD_HEADER"@,
        ErrorCode::NotAuthenticated => "NOT_AUTHENTICATED"@,
        ErrorCode::BadToken => "BAD_TOKEN"@,
        ErrorCode::UserNotFound => "USER_NOT_FOUND"@,
        ErrorCode::InternalServerError => "INTERNAL_SERVER_ERROR"@,
    }
}

impl ErrorCode {
    /// The wire text of this error code.
    pub fn as_str(&self) -> (r: &'static str)
        ensures
            r@ == code_text(*self),
    {
        match self {
            ErrorCode::BadHeader => "BAD_HEADER",
            ErrorCode::NotAuthenticated => "NOT_AUTHENTICATED",
            ErrorCode::BadToken => "BAD_TOKEN",
            ErrorCode::UserNotFound => "USER_NOT_FOUND",
            ErrorCode::InternalServerError => "INTERNAL_SERVER_ERROR",
        }
    }
}

/// A stored user record, as the lookup collaborator hands it back:
/// timestamps as absolute seconds, the subject identifier as the byte
/// string the token carries.
#[derive(Clone, Debug, PartialEq, Eq)]
pub struct UserRecord {
    pub uid: Vec<u8>,
    pub email: String,
    pub created_at: i64,
    pub updated_at: i64,
    pub last_login: Option<i64>,
    pub active: bool,
    pub metadata: Option<String>,
    pub email_verified: bool,
}

/// What the user lookup reported. A failure carries no detail: the
/// underlying error is for the caller's log, never for the response.
#[derive(Clone, Debug, PartialEq, Eq)]
pub enum LookupResult {
    Found(UserRecord),
    NotFound,
    Failed,
}

/// One response: either an error body or the authenticated user's
/// profile. Exactly one variant is emitted per request, and the two
/// variants share no field set, so the flattened wire encoding stays
/// unambiguous.
#[derive(Clone, Debug, PartialEq, Eq)]
pub enum ApiResponse {
    ApiError { message: &'static str, error_code: ErrorCode },
    UserResponse {
        uid: Vec<u8>,
        email: String,
        created_at: i64,
        updated_at: i64,
        last_login: Option<i64>,
        active: bool,
        metadata: Option<String>,
        email_verified: bool,
    },
}

/// The error body of one error code, with its fixed message.
pub open spec fn error_body(c: ErrorCode) -> ApiResponse {
    match c {
        ErrorCode::BadHeader => ApiResponse::ApiError {
            message: "The 'Authorization' header is improperly formatted",
            error_code: ErrorCode::BadHeader,
        },
        ErrorCode::NotAuthenticated => ApiResponse::ApiError {
            message: "The request is missing an 'Authorization' header",
            error_code: ErrorCode::NotAuthenticated,
        },
        ErrorCode::BadToken => ApiResponse::ApiError {
            message: "The JWT could not be verified by the server",
            error_code: ErrorCode::BadToken,
        },
        ErrorCode::UserNotFound => ApiResponse::ApiError {
            message: "The requested user was not found",
            error_code: ErrorCode::UserNotFound,
        },
        ErrorCode::InternalServerError => ApiResponse::ApiError {
            message: "Something went wrong",
            error_code: ErrorCode::InternalServerError,
        },
    }
}

/// The profile body built from a stored record: every field is the
/// record's own.
pub open spec fn user_body(rec: UserRecord) -> ApiResponse {
    ApiResponse::UserResponse {
        uid: rec.uid,
        email: rec.email,
        created_at: rec.created_at,
        updated_at: rec.updated_at,
        last_login: rec.last_login,
        active: rec.active,
        metadata: rec.metadata,
        email_verified: rec.email_verified,
    }
}

/// The mapping table: each verdict, with the lookup result where the
/// verdict is authenticated, to body and status code.
pub open spec fn verdict_response(v: Verdict, lookup: Option<LookupResult>) -> (ApiResponse, u16) {
    match v {
        Verdict::BadFormat => (error_body(ErrorCode::BadHeader), 400u16),
        Verdict::MissingHeader => (error_body(ErrorCode::NotAuthenticated), 401u16),
        Verdict::Unverifiable => (error_body(ErrorCode::BadToken), 401u16),
        Verdict::ExpiredToken => {
            (
                ApiResponse::ApiError {
                    message: "The JWT has already expired",
                    error_code: ErrorCode::BadToken,
                },
                401u16,
            )
        },
        Verdict::Authenticated(_) => match lookup {
            Some(LookupResult::Found(rec)) => (user_body(rec), 200u16),
            Some(LookupResult::NotFound) => (error_body(ErrorCode::UserNotFound), 404u16),
            _ => (error_body(ErrorCode::InternalServerError), 500u16),
        },
    }
}

/// Map an outcome, plus — only when the outcome is authenticated — the
/// lookup's result, to the response body and status code of the table.
pub fn map_outcome(outcome: Outcome, lookup: Option<LookupResult>) -> (r: (ApiResponse, u16))
    requires
        outcome is Authenticated ==> lookup is Some,
    ensures
        r == verdict_response(outcome@, lookup),
{
    match outcome {
        Outcome::BadFormat => (
            ApiResponse::ApiError {
                message: "The 'Authorization' header is improperly formatted",
                error_code: ErrorCode::BadHeader,
            },
            400,
        ),
        Outcome::MissingHeader => (
            ApiResponse::ApiError {
                message: "The request is missing an 'Authorization' header",
                error_code: ErrorCode::NotAuthenticated,
            },
            401,
        ),
        Outcome::Unverifiable => (
            ApiResponse::ApiError {
                message: "The JWT could not be verified by the server",
                error_code: ErrorCode::BadToken,
            },
            401,
        ),
        Outcome::ExpiredToken => (
            ApiResponse::ApiError {
                message: "The JWT has already expired",
                error_code: ErrorCode::BadToken,
            },
            401,
        ),
        Outcome::Authenticated(_) => match lookup {
            Some(LookupResult::Found(rec)) => (
                ApiResponse::UserResponse {
                    uid: rec.uid,
                    email: rec.email,
                    created_at: rec.created_at,
                    updated_at: rec.updated_at,
                    last_login: rec.last_login,
                    active: rec.active,
                    metadata: rec.metadata,
                    email_verified: rec.email_verified,
                },
                200,
            ),
            Some(LookupResult::NotFound) => (
                ApiResponse::ApiError {
                    message: "The requested user was not found",
                    error_code: ErrorCode::UserNotFound,
                },
                404,
            ),
            Some(LookupResult::Failed) => (
                ApiResponse::ApiError {
                    message: "Something went wrong",
                    error_code: ErrorCode::InternalServerError,
                },
                500,
            ),
            None => (
                ApiResponse::ApiError {
                    message: "Something went wrong",
                    error_code: ErrorCode::InternalServerError,
                },
                500,
            ),
        },
    }
}

} // verus!
