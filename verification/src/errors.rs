use vstd::prelude::*;

verus! {

/// Service-level failure taxonomy: lookup misses, uniqueness conflicts,
/// credential mismatches, failed authorization, and store failures.
#[derive(Clone, Copy, Debug, PartialEq, Eq, Structural)]
pub enum ApiError {
    NotFound,
    Conflict,
    BadRequest,
    Unauthorized,
    StoreFailure,
}

/// Failures of the note store: each models a uniqueness constraint of the
/// `notes` table.
#[derive(Clone, Copy, Debug, PartialEq, Eq, Structural)]
pub enum NoteStoreError {
    DuplicateTitle,
    DuplicateId,
}

/// Failures of the user store: each models a uniqueness constraint of the
/// `users` table.
#[derive(Clone, Copy, Debug, PartialEq, Eq, Structural)]
pub enum UserStoreError {
    DuplicateEmail,
    DuplicateId,
}

/// Failures of the authentication flow.
#[derive(Clone, Copy, Debug, PartialEq, Eq, Structural)]
pub enum AuthError {
    /// Registration found the email already taken.
    EmailTaken,
    /// Login found no user under the email; the answer never says whether
    /// the email or the password was wrong.
    InvalidCredentials,
    /// Login found the user but the password did not verify.
    WrongPassword,
    /// Registration drew an id the store already holds.
    IdTaken,
    /// The presented token is missing, malformed, or carries a bad signature.
    InvalidToken,
    /// The token is well-formed but its expiry has passed.
    TokenExpired,
    /// The token's subject no longer resolves to a user.
    UnknownSubject,
}

pub open spec fn spec_status_code(e: ApiError) -> int {
    match e {
        ApiError::NotFound => 404,
        ApiError::Conflict => 409,
        ApiError::BadRequest => 400,
        ApiError::Unauthorized => 401,
        ApiError::StoreFailure => 500,
    }
}

/// The HTTP status code a handler answers with for a given failure.
pub fn status_code(e: &ApiError) -> (code: u16)
    ensures
        code == spec_status_code(*e),
{
    match e {
        ApiError::NotFound => 404,
        ApiError::Conflict => 409,
        ApiError::BadRequest => 400,
        ApiError::Unauthorized => 401,
        ApiError::StoreFailure => 500,
    }
}

pub open spec fn spec_auth_api_error(e: AuthError) -> ApiError {
    match e {
        AuthError::EmailTaken => ApiError::Conflict,
        AuthError::InvalidCredentials => ApiError::BadRequest,
        AuthError::WrongPassword => ApiError::Conflict,
        AuthError::IdTaken => ApiError::StoreFailure,
        AuthError::InvalidToken => ApiError::Unauthorized,
        AuthError::TokenExpired => ApiError::Unauthorized,
        AuthError::UnknownSubject => ApiError::Unauthorized,
    }
}

/// Maps an authentication failure onto the HTTP taxonomy: a taken email
/// or a wrong password answer Conflict, a bad email BadRequest, every
/// refusal of a token Unauthorized, and a drawn id that collides with a
/// stored row StoreFailure.
pub fn auth_api_error(e: &AuthError) -> (r: ApiError)
    ensures
        r == spec_auth_api_error(*e),
{
    match e {
        AuthError::EmailTaken => ApiError::Conflict,
        AuthError::InvalidCredentials => ApiError::BadRequest,
        AuthError::WrongPassword => ApiError::Conflict,
        AuthError::IdTaken => ApiError::StoreFailure,
        AuthError::InvalidToken => ApiError::Unauthorized,
        AuthError::TokenExpired => ApiError::Unauthorized,
        AuthError::UnknownSubject => ApiError::Unauthorized,
    }
}

/// The JSON error envelope every handler answers failures with.
pub struct ErrorResponse {
    pub status: String,
    pub message: String,
}

impl ErrorResponse {
    /// Builds the envelope for a failure: server-side failures carry the
    /// status word "error", client-caused ones "fail".
    pub fn of_error(e: &ApiError, message: String) -> (r: ErrorResponse)
        ensures
            spec_status_code(*e) >= 500 ==> r.status@ == "error"@,
            spec_status_code(*e) < 500 ==> r.status@ == "fail"@,
            r.message == message,
    {
        let code = status_code(e);
        let status = if code >= 500 {
            "error".to_owned()
        } else {
            "fail".to_owned()
        };
        ErrorResponse { status, message }
    }
}

} // verus!
