//! Errors of the token endpoint (RFC 6749, section 5.2).
use vstd::prelude::*;

verus! {

/// An error answer of the token endpoint. The set of codes is fixed by the
/// specification, hence a closed enum.
#[derive(Debug)]
pub enum TokenError {
    InvalidRequest(&'static str),
    InvalidClient,
    InvalidGrant,
    UnsupportedGrantType,
}

/// The HTTP status that answers `e`: 401 for a failed client authentication,
/// 400 for everything else.
pub open spec fn token_error_status(e: TokenError) -> u16 {
    match e {
        TokenError::InvalidClient => 401,
        _ => 400,
    }
}

/// The `error` field of the answer to `e`.
pub open spec fn token_error_code(e: TokenError) -> Seq<char> {
    match e {
        TokenError::InvalidRequest(_) => "invalid_request"@,
        TokenError::InvalidClient => "invalid_client"@,
        TokenError::InvalidGrant => "invalid_grant"@,
        TokenError::UnsupportedGrantType => "unsupported_grant_type"@,
    }
}

/// The `error_description` field of the answer to `e`.
pub open spec fn token_error_description(e: TokenError) -> Seq<char> {
    match e {
        TokenError::InvalidRequest(msg) => msg@,
        TokenError::InvalidClient => "client authentication failed"@,
        TokenError::InvalidGrant => "authorization code is invalid, expired, or already used"@,
        TokenError::UnsupportedGrantType => "only authorization_code is supported"@,
    }
}

impl TokenError {
    /// The HTTP status code of the answer.
    pub fn status_code(&self) -> (status: u16)
        ensures
            status == token_error_status(*self),
    {
        match self {
            TokenError::InvalidClient => 401,
            _ => 400,
        }
    }

    /// The `error` code of the JSON answer body.
    pub fn error_code(&self) -> (code: &'static str)
        ensures
            code@ == token_error_code(*self),
    {
        match self {
            TokenError::InvalidRequest(_) => "invalid_request",
            TokenError::InvalidClient => "invalid_client",
            TokenError::InvalidGrant => "invalid_grant",
            TokenError::UnsupportedGrantType => "unsupported_grant_type",
        }
    }

    /// The `error_description` of the JSON answer body.
    pub fn error_description(&self) -> (description: &'static str)
        ensures
            description@ == token_error_description(*self),
    {
        match self {
            TokenError::InvalidRequest(msg) => msg,
            TokenError::InvalidClient => "client authentication failed",
            TokenError::InvalidGrant => "authorization code is invalid, expired, or already used",
            TokenError::UnsupportedGrantType => "only authorization_code is supported",
        }
    }
}

} // verus!
