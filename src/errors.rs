//! The error kinds that the core returns, and the HTTP status each maps to.

use vstd::prelude::*;
use vstd::string::StringExecFns;

verus! {

/// Every failure that an operation of the core can report.
///
/// Payloads carry only non-secret diagnostics: the raw body of a failed
/// provider response, or a fixed description.
#[derive(Debug, Clone, PartialEq, Eq)]
pub enum AppError {
    RecordAlreadyExists,
    RecordNotFound,
    DatabaseError(String),
    BlockingError(String),
    R2d2Error(String),
    UuidParseError(String),
    AuthError,
    HeaderParse(String),
    JWKSFetchError,
    PermissionError,
    OutsideRequestError(String),
    UrlParse(String),
    JsonParse(String),
    UrlEncodedParse(String),
    InvalidHeaderValue(String),
    HexParse(String),
    CryptoError(String),
    GithubAuthError(String),
    GithubAPIError(String),
    /// GitHub turned a request down: its status and raw body.
    GithubAPIRejection { status: u16, body: String },
}

pub const BAD_REQUEST: u16 = 400;
pub const UNAUTHORIZED: u16 = 401;
pub const FORBIDDEN: u16 = 403;
pub const NOT_FOUND: u16 = 404;
pub const INTERNAL_SERVER_ERROR: u16 = 500;
pub const BAD_GATEWAY: u16 = 502;

/// How `Debug` writes a string: in double quotes, with quotes, backslashes
/// and control characters escaped.
pub uninterp spec fn debug_quoted(s: Seq<char>) -> Seq<char>;

/// Relies on the `Debug` of `str`, which writes the text quoted and escaped.
#[verifier::external_body]
fn quoted(s: &str) -> (r: String)
    ensures
        r@ == debug_quoted(s@),
{
    format!("{:?}", s)
}

impl AppError {
    /// The HTTP status that the boundary layer answers with for this error.
    pub open spec fn spec_status_code(&self) -> u16 {
        match self {
            AppError::RecordAlreadyExists | AppError::HeaderParse(_) | AppError::JsonParse(_)
            | AppError::UrlEncodedParse(_) | AppError::InvalidHeaderValue(_) | AppError::UuidParseError(_)
            | AppError::JWKSFetchError => BAD_REQUEST,
            AppError::RecordNotFound => NOT_FOUND,
            AppError::DatabaseError(_) | AppError::BlockingError(_) | AppError::R2d2Error(_)
            | AppError::CryptoError(_) | AppError::UrlParse(_) | AppError::HexParse(_) => INTERNAL_SERVER_ERROR,
            AppError::AuthError => UNAUTHORIZED,
            AppError::PermissionError => FORBIDDEN,
            AppError::OutsideRequestError(_) | AppError::GithubAuthError(_) | AppError::GithubAPIError(_) => BAD_GATEWAY,
            AppError::GithubAPIRejection { status, .. } => *status,
        }
    }

    pub fn status_code(&self) -> (r: u16)
        ensures
            r == self.spec_status_code(),
    {
        match self {
            AppError::RecordAlreadyExists | AppError::HeaderParse(_) | AppError::JsonParse(_)
            | AppError::UrlEncodedParse(_) | AppError::InvalidHeaderValue(_) | AppError::UuidParseError(_)
            | AppError::JWKSFetchError => BAD_REQUEST,
            AppError::RecordNotFound => NOT_FOUND,
            AppError::DatabaseError(_) | AppError::BlockingError(_) | AppError::R2d2Error(_)
            | AppError::CryptoError(_) | AppError::UrlParse(_) | AppError::HexParse(_) => INTERNAL_SERVER_ERROR,
            AppError::AuthError => UNAUTHORIZED,
            AppError::PermissionError => FORBIDDEN,
            AppError::OutsideRequestError(_) | AppError::GithubAuthError(_) | AppError::GithubAPIError(_) => BAD_GATEWAY,
            AppError::GithubAPIRejection { status, .. } => *status,
        }
    }

    /// The human-readable text of this error: a fixed description, followed by
    /// the payload where there is one.
    pub open spec fn spec_message(&self) -> Seq<char> {
        match self {
            AppError::RecordAlreadyExists => "This record violates a unique constraint"@,
            AppError::RecordNotFound => "This record does not exist"@,
            AppError::DatabaseError(e) => "Database error: "@ + debug_quoted(e@),
            AppError::BlockingError(e) => "The running operation was blocked: "@ + debug_quoted(e@),
            AppError::R2d2Error(e) => "Database connection pool error: "@ + debug_quoted(e@),
            AppError::UuidParseError(e) => "UUID parse error: "@ + debug_quoted(e@),
            AppError::AuthError => "Unauthorized request. Pass user access token in request header."@,
            AppError::HeaderParse(e) => "Header parse error: "@ + debug_quoted(e@),
            AppError::JWKSFetchError => "Could not fetch JWKS"@,
            AppError::PermissionError => "User authorized by token doesn't have needed access permission."@,
            AppError::OutsideRequestError(e) => "Outside HTTP Request failed. Error: "@ + debug_quoted(e@),
            AppError::UrlParse(e) => "URL parse error: "@ + debug_quoted(e@),
            AppError::JsonParse(e) => "JSON parse error: "@ + debug_quoted(e@),
            AppError::UrlEncodedParse(e) => "URLEncoded type parse error: "@ + debug_quoted(e@),
            AppError::InvalidHeaderValue(e) => "Invalid header value, error: "@ + debug_quoted(e@),
            AppError::HexParse(e) => "Hex parse error: "@ + debug_quoted(e@),
            AppError::CryptoError(e) => "Crypto operation error: "@ + debug_quoted(e@),
            AppError::GithubAuthError(e) => "Github Auth error: "@ + debug_quoted(e@),
            AppError::GithubAPIError(e) => "Github API error: "@ + debug_quoted(e@),
            AppError::GithubAPIRejection { body, .. } => body@,
        }
    }

    /// The text that the boundary layer sends as the body of the error response.
    pub fn message(&self) -> (r: String)
        ensures
            r@ == self.spec_message(),
    {
        match self {
            AppError::RecordAlreadyExists => String::from_str("This record violates a unique constraint"),
            AppError::RecordNotFound => String::from_str("This record does not exist"),
            AppError::DatabaseError(e) => String::from_str("Database error: ").concat(quoted(e.as_str()).as_str()),
            AppError::BlockingError(e) => String::from_str("The running operation was blocked: ").concat(quoted(e.as_str()).as_str()),
            AppError::R2d2Error(e) => String::from_str("Database connection pool error: ").concat(quoted(e.as_str()).as_str()),
            AppError::UuidParseError(e) => String::from_str("UUID parse error: ").concat(quoted(e.as_str()).as_str()),
            AppError::AuthError => String::from_str("Unauthorized request. Pass user access token in request header."),
            AppError::HeaderParse(e) => String::from_str("Header parse error: ").concat(quoted(e.as_str()).as_str()),
            AppError::JWKSFetchError => String::from_str("Could not fetch JWKS"),
            AppError::PermissionError => String::from_str("User authorized by token doesn't have needed access permission."),
            AppError::OutsideRequestError(e) => String::from_str("Outside HTTP Request failed. Error: ").concat(quoted(e.as_str()).as_str()),
            AppError::UrlParse(e) => String::from_str("URL parse error: ").concat(quoted(e.as_str()).as_str()),
            AppError::JsonParse(e) => String::from_str("JSON parse error: ").concat(quoted(e.as_str()).as_str()),
            AppError::UrlEncodedParse(e) => String::from_str("URLEncoded type parse error: ").concat(quoted(e.as_str()).as_str()),
            AppError::InvalidHeaderValue(e) => String::from_str("Invalid header value, error: ").concat(quoted(e.as_str()).as_str()),
            AppError::HexParse(e) => String::from_str("Hex parse error: ").concat(quoted(e.as_str()).as_str()),
            AppError::CryptoError(e) => String::from_str("Crypto operation error: ").concat(quoted(e.as_str()).as_str()),
            AppError::GithubAuthError(e) => String::from_str("Github Auth error: ").concat(quoted(e.as_str()).as_str()),
            AppError::GithubAPIError(e) => String::from_str("Github API error: ").concat(quoted(e.as_str()).as_str()),
            AppError::GithubAPIRejection { body, .. } => body.clone(),
        }
    }
}

} // verus!
