//! Error taxonomy: domain errors with a stable code and status, and the
//! single structured response that every error resolves to.
use vstd::prelude::*;
use crate::model::UserModel;
use crate::outside::HashError;

verus! {

/// Domain errors, detected by the flows and returned unmodified.
#[derive(Debug, Clone)]
pub enum ErrorEnum {
    UnAuthorized,
    UserAlreadyExists(UserModel),
    InvalidValidationId,
    InvalidRefreshToken,
    UserNotFound,
    UserContactMissing,
    PasswordMismatch,
    EmailMobileEmpty,
    InvalidOTP,
    TokenExpired,
    OAuthProviderNotFound,
    OAuthFailed(String),
    NotYetImplemented,
    ValidationError(String),
}

/// The structured description of a domain error.
#[derive(Debug, Clone, PartialEq, Eq)]
pub struct GenericError {
    pub message: String,
    pub status: u16,
    pub code: String,
}

/// An error carried with an explicit message and status.
#[derive(Debug, Clone, PartialEq, Eq)]
pub struct WebResponseErrorCustom {
    pub msg: String,
    pub status: u16,
}

pub open spec fn error_code(e: ErrorEnum) -> Seq<char> {
    match e {
        ErrorEnum::ValidationError(_) => "GRA0000"@,
        ErrorEnum::UnAuthorized => "GRA0001"@,
        ErrorEnum::UserAlreadyExists(_) => "GRA0003"@,
        ErrorEnum::InvalidValidationId => "GRA0004"@,
        ErrorEnum::InvalidRefreshToken => "GRA0005"@,
        ErrorEnum::UserNotFound => "GRA0008"@,
        ErrorEnum::UserContactMissing => "GRA0011"@,
        ErrorEnum::PasswordMismatch => "GRA0012"@,
        ErrorEnum::EmailMobileEmpty => "GRA0013"@,
        ErrorEnum::InvalidOTP => "GRA0014"@,
        ErrorEnum::TokenExpired => "GRA0015"@,
        ErrorEnum::OAuthProviderNotFound => "GRA0016"@,
        ErrorEnum::OAuthFailed(_) => "GRA0017"@,
        ErrorEnum::NotYetImplemented => "GRA9999"@,
    }
}

pub open spec fn error_status(e: ErrorEnum) -> u16 {
    match e {
        ErrorEnum::ValidationError(_) => 400,
        ErrorEnum::UnAuthorized => 401,
        ErrorEnum::UserAlreadyExists(_) => 409,
        ErrorEnum::InvalidValidationId => 400,
        ErrorEnum::InvalidRefreshToken => 400,
        ErrorEnum::UserNotFound => 404,
        ErrorEnum::UserContactMissing => 500,
        ErrorEnum::PasswordMismatch => 401,
        ErrorEnum::EmailMobileEmpty => 400,
        ErrorEnum::InvalidOTP => 400,
        ErrorEnum::TokenExpired => 401,
        ErrorEnum::OAuthProviderNotFound => 400,
        ErrorEnum::OAuthFailed(_) => 500,
        ErrorEnum::NotYetImplemented => 500,
    }
}

pub open spec fn error_message(e: ErrorEnum) -> Seq<char> {
    match e {
        ErrorEnum::ValidationError(d) => "Failed to validate request: ["@ + d@ + "]"@,
        ErrorEnum::UnAuthorized => "Unauthorized"@,
        ErrorEnum::UserAlreadyExists(_) => "User already exists"@,
        ErrorEnum::InvalidValidationId => "Invalid validation ID"@,
        ErrorEnum::InvalidRefreshToken => "Invalid refresh token"@,
        ErrorEnum::UserNotFound => "User not found"@,
        ErrorEnum::UserContactMissing => "Both mobile and email are missing"@,
        ErrorEnum::PasswordMismatch => "Invalid user details"@,
        ErrorEnum::EmailMobileEmpty => "Mobile number and email both cannot be empty"@,
        ErrorEnum::InvalidOTP => "Invalid OTP"@,
        ErrorEnum::TokenExpired => "Auth token is expired"@,
        ErrorEnum::OAuthProviderNotFound => "OAuth invalid provider"@,
        ErrorEnum::OAuthFailed(d) => "OAuth failed: "@ + d@,
        ErrorEnum::NotYetImplemented => "Feature not yet implemented"@,
    }
}

/// `g` describes `e`: its code, message and status.
pub open spec fn describes(g: GenericError, e: ErrorEnum) -> bool {
    &&& g.code@ == error_code(e)
    &&& g.message@ == error_message(e)
    &&& g.status == error_status(e)
}

fn text(s: &str) -> (r: String)
    ensures
        r@ == s@,
{
    String::from_str(s)
}

/// The code, message and status of a domain error.
pub fn get_error(val: &ErrorEnum) -> (r: GenericError)
    ensures
        describes(r, *val),
{
    match val {
        ErrorEnum::ValidationError(e) => {
            let mut message = text("Failed to validate request: [");
            message.append(e.as_str());
            message.append("]");
            GenericError { code: text("GRA0000"), message, status: 400 }
        },
        ErrorEnum::UnAuthorized => GenericError {
            message: text("Unauthorized"),
            status: 401,
            code: text("GRA0001"),
        },
        ErrorEnum::UserAlreadyExists(_) => GenericError {
            code: text("GRA0003"),
            message: text("User already exists"),
            status: 409,
        },
        ErrorEnum::InvalidValidationId => GenericError {
            code: text("GRA0004"),
            message: text("Invalid validation ID"),
            status: 400,
        },
        ErrorEnum::InvalidRefreshToken => GenericError {
            code: text("GRA0005"),
            message: text("Invalid refresh token"),
            status: 400,
        },
        ErrorEnum::UserNotFound => GenericError {
            code: text("GRA0008"),
            message: text("User not found"),
            status: 404,
        },
        ErrorEnum::UserContactMissing => GenericError {
            code: text("GRA0011"),
            message: text("Both mobile and email are missing"),
            status: 500,
        },
        ErrorEnum::PasswordMismatch => GenericError {
            code: text("GRA0012"),
            message: text("Invalid user details"),
            status: 401,
        },
        ErrorEnum::EmailMobileEmpty => GenericError {
            code: text("GRA0013"),
            message: text("Mobile number and email both cannot be empty"),
            status: 400,
        },
        ErrorEnum::InvalidOTP => GenericError {
            code: text("GRA0014"),
            message: text("Invalid OTP"),
            status: 400,
        },
        ErrorEnum::TokenExpired => GenericError {
            code: text("GRA0015"),
            message: text("Auth token is expired"),
            status: 401,
        },
        ErrorEnum::OAuthProviderNotFound => GenericError {
            code: text("GRA0016"),
            message: text("OAuth invalid provider"),
            status: 400,
        },
        ErrorEnum::OAuthFailed(e) => {
            let mut message = text("OAuth failed: ");
            message.append(e.as_str());
            GenericError { code: text("GRA0017"), message, status: 500 }
        },
        ErrorEnum::NotYetImplemented => GenericError {
            code: text("GRA9999"),
            message: text("Feature not yet implemented"),
            status: 500,
        },
    }
}

/// Every failure of the library. Infrastructure failures carry their cause
/// for the server log; only domain errors are detailed to a caller.
#[derive(Debug)]
pub enum Error {
    /// Malformed input, with a description of the offending fields.
    ValidationErrors(String),
    BcryptError(bcrypt::BcryptError),
    /// The operating system's random source gave no salt for a hash.
    SaltDraw(bcrypt::BcryptError),
    ParseError(url::ParseError),
    /// A token whose signature or shape was rejected.
    JWTError(String),
    /// A header that is not valid text.
    ToStrError(String),
    /// A store, network, clock or decoding failure outside the library.
    Internal(String),
    WebResponseErrorCustom(WebResponseErrorCustom),
    DefinedError(ErrorEnum),
}

/// The body of an error response: a described domain error, or a bare
/// message.
#[derive(Debug, Clone, PartialEq, Eq)]
pub enum ErrorBody {
    Generic(GenericError),
    Plain(String),
}

/// The response an error resolves to.
#[derive(Debug, Clone, PartialEq, Eq)]
pub struct ErrorResponse {
    pub body: ErrorBody,
    pub status: u16,
}

/// The response for `e`: infrastructure failures collapse to a generic
/// internal error, a rejected token to `UnAuthorized`, malformed input to
/// `ValidationError`, and a domain error to its own description.
pub open spec fn responds(r: ErrorResponse, e: Error) -> bool {
    match e {
        Error::BcryptError(_) | Error::SaltDraw(_) | Error::ParseError(_) | Error::Internal(_) => {
            &&& r.body matches ErrorBody::Plain(m) && m@ == "Internal server error"@
            &&& r.status == 500
        },
        Error::JWTError(_) => {
            &&& r.body matches ErrorBody::Generic(g) && describes(g, ErrorEnum::UnAuthorized)
            &&& r.status == 401
        },
        Error::ValidationErrors(d) => {
            &&& r.body matches ErrorBody::Generic(g) && describes(g, ErrorEnum::ValidationError(d))
            &&& r.status == 400
        },
        Error::WebResponseErrorCustom(c) => {
            &&& r.body matches ErrorBody::Plain(m) && m@ == c.msg@
            &&& r.status == c.status
        },
        Error::ToStrError(d) => {
            &&& r.body matches ErrorBody::Plain(m) && m@ == d@
            &&& r.status == 400
        },
        Error::DefinedError(d) => {
            &&& r.body matches ErrorBody::Generic(g) && describes(g, d)
            &&& r.status == error_status(d)
        },
    }
}

impl Error {
    /// An error with an explicit message and status.
    pub fn new(msg: &str, status: u16) -> (r: Self)
        ensures
            r matches Error::WebResponseErrorCustom(c) && c.msg@ == msg@ && c.status == status,
    {
        Error::WebResponseErrorCustom(WebResponseErrorCustom { msg: String::from_str(msg), status })
    }

    /// The error for a failed hash: a salt that could not be drawn, or a
    /// request that bcrypt refused.
    pub fn from_hash(e: HashError) -> (r: Self)
        ensures
            e is SaltDraw <==> r is SaltDraw,
            e is Refused <==> r is BcryptError,
    {
        match e {
            HashError::SaltDraw(b) => Error::SaltDraw(b),
            HashError::Refused(b) => Error::BcryptError(b),
        }
    }

    /// The single structured response this error resolves to.
    pub fn error_response(&self) -> (r: ErrorResponse)
        ensures
            responds(r, *self),
    {
        match self {
            Error::BcryptError(_) | Error::SaltDraw(_) | Error::ParseError(_) | Error::Internal(_) => ErrorResponse {
                body: ErrorBody::Plain(text("Internal server error")),
                status: 500,
            },
            Error::JWTError(_) => {
                let g = get_error(&ErrorEnum::UnAuthorized);
                let status = g.status;
                ErrorResponse { body: ErrorBody::Generic(g), status }
            },
            Error::ValidationErrors(d) => {
                let g = get_error(&ErrorEnum::ValidationError(d.clone()));
                let status = g.status;
                ErrorResponse { body: ErrorBody::Generic(g), status }
            },
            Error::WebResponseErrorCustom(c) => ErrorResponse {
                body: ErrorBody::Plain(c.msg.clone()),
                status: c.status,
            },
            Error::ToStrError(d) => ErrorResponse { body: ErrorBody::Plain(d.clone()), status: 400 },
            Error::DefinedError(d) => {
                let g = get_error(d);
                let status = g.status;
                ErrorResponse { body: ErrorBody::Generic(g), status }
            },
        }
    }
}

} // verus!
