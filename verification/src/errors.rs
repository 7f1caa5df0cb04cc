//! The error taxonomy: domain errors raised by the user operations, the
//! public-facing error wrapper, and their mapping to HTTP status codes.

use vstd::prelude::*;
use vstd::string::StringExecFns;
use crate::response::{ApiResponse, Status};
use crate::strutil::{ascii_lowercase, spec_contains, spec_to_lower, str_contains};

verus! {

/// A failure of a user operation.
#[derive(Debug)]
pub enum UserError {
    /// A persistence-layer fault, with its rendered description.
    Database(String),
    /// An input rejected before it reached the store.
    Validation { message: String },
    UserNotFound,
    EmailExists,
    UsernameExists,
    InvalidCredentials,
    EmailNotVerified,
    /// A password-hashing fault, with its rendered description.
    PasswordHash(String),
}

/// An error as the boundary reports it.
#[derive(Debug)]
pub enum ApiError {
    /// A template-rendering fault, with its rendered description.
    TemplateError(String),
    /// A static-file-serving fault, with its rendered description.
    StaticFileError(String),
    /// A serialization fault, with its rendered description.
    SerializationError(String),
    UserError(UserError),
    /// No valid session identity.
    Unauthorized(String),
    /// The session identity's role does not permit the operation.
    Forbidden(String),
}

/// An error that the response envelope can report: each implementor fixes
/// the status code and the description its values map to, and the
/// executable accessors return exactly those.
pub trait IntoApiError {
    spec fn spec_code(&self) -> u16;

    spec fn spec_message(&self) -> Seq<char>;

    fn code(&self) -> (r: Option<u16>)
        ensures
            r == Some(self.spec_code()),
    ;

    fn message(&self) -> (r: String)
        ensures
            r@ == self.spec_message(),
    ;
}

/// The HTTP status code of a domain error.
pub open spec fn spec_user_error_code(e: UserError) -> u16 {
    match e {
        UserError::Validation { .. } => 400,
        UserError::UserNotFound => 404,
        UserError::EmailExists => 409,
        UserError::UsernameExists => 409,
        UserError::InvalidCredentials => 401,
        UserError::EmailNotVerified => 401,
        UserError::Database(_) => 500,
        UserError::PasswordHash(_) => 500,
    }
}

/// The rendered description of a domain error.
pub open spec fn spec_user_error_message(e: UserError) -> Seq<char> {
    match e {
        UserError::Database(s) => "Database error: "@ + s@,
        UserError::Validation { message } => "Validation error: "@ + message@,
        UserError::UserNotFound => "User not found"@,
        UserError::EmailExists => "Email already exists"@,
        UserError::UsernameExists => "Username already exists"@,
        UserError::InvalidCredentials => "Invalid credentials"@,
        UserError::EmailNotVerified => "Email not verified"@,
        UserError::PasswordHash(s) => "Password hashing error: "@ + s@,
    }
}

/// The HTTP status code the boundary reports for an error. A static-file
/// fault whose lower-cased description speaks of a missing file is a 404;
/// every other infrastructure fault is a 500.
pub open spec fn spec_api_error_code(e: ApiError) -> u16 {
    match e {
        ApiError::TemplateError(_) => 500,
        ApiError::StaticFileError(s) => if spec_contains(spec_to_lower(s@), "not found"@)
            || spec_contains(spec_to_lower(s@), "no such file"@) {
            404
        } else {
            500
        },
        ApiError::SerializationError(_) => 500,
        ApiError::UserError(ue) => match ue {
            UserError::Validation { .. } => 400,
            UserError::UserNotFound => 404,
            UserError::EmailExists => 409,
            UserError::UsernameExists => 409,
            UserError::InvalidCredentials => 401,
            _ => 500,
        },
        ApiError::Unauthorized(_) => 401,
        ApiError::Forbidden(_) => 403,
    }
}

/// The rendered description of a boundary error.
pub open spec fn spec_api_error_message(e: ApiError) -> Seq<char> {
    match e {
        ApiError::TemplateError(s) => "Template error: "@ + s@,
        ApiError::StaticFileError(s) => "Static file error: "@ + s@,
        ApiError::SerializationError(s) => "Serialization error: "@ + s@,
        ApiError::UserError(ue) => "User error: "@ + spec_user_error_message(ue),
        ApiError::Unauthorized(s) => s@,
        ApiError::Forbidden(s) => s@,
    }
}

/// The envelope the boundary's single error handler sends for an error: an
/// error-tagged envelope whose code is the mapped HTTP status and whose
/// message is the error's description.
pub fn api_error_envelope(e: &ApiError, now_ms: u64) -> (r: ApiResponse<()>)
    ensures
        r.status == Status::Error,
        r.code == Some(spec_api_error_code(*e)),
        (r.message matches Some(m) && m@ == spec_api_error_message(*e)),
        r.data is None,
        r.timestamp == now_ms,
{
    let code: u16 = match e {
        ApiError::TemplateError(_) => 500,
        ApiError::StaticFileError(s) => {
            let lower = ascii_lowercase(s.as_str());
            if str_contains(lower.as_str(), "not found") || str_contains(
                lower.as_str(),
                "no such file",
            ) {
                404
            } else {
                500
            }
        },
        ApiError::SerializationError(_) => 500,
        ApiError::UserError(ue) => match ue {
            UserError::Validation { .. } => 400,
            UserError::UserNotFound => 404,
            UserError::EmailExists | UserError::UsernameExists => 409,
            UserError::InvalidCredentials => 401,
            _ => 500,
        },
        ApiError::Unauthorized(_) => 401,
        ApiError::Forbidden(_) => 403,
    };
    let message: String = match e {
        ApiError::TemplateError(s) => {
            let mut m = "Template error: ".to_owned();
            m.append(s.as_str());
            m
        },
        ApiError::StaticFileError(s) => {
            let mut m = "Static file error: ".to_owned();
            m.append(s.as_str());
            m
        },
        ApiError::SerializationError(s) => {
            let mut m = "Serialization error: ".to_owned();
            m.append(s.as_str());
            m
        },
        ApiError::UserError(ue) => {
            let mut m = "User error: ".to_owned();
            m.append(ue.message().as_str());
            m
        },
        ApiError::Unauthorized(s) => s.clone(),
        ApiError::Forbidden(s) => s.clone(),
    };
    ApiResponse::err_with_code(message, code, now_ms)
}

impl IntoApiError for UserError {
    open spec fn spec_code(&self) -> u16 {
        spec_user_error_code(*self)
    }

    open spec fn spec_message(&self) -> Seq<char> {
        spec_user_error_message(*self)
    }

    /// The HTTP status this error maps to.
    fn code(&self) -> (r: Option<u16>)
    {
        match self {
            UserError::Validation { .. } => Some(400),
            UserError::UserNotFound => Some(404),
            UserError::EmailExists | UserError::UsernameExists => Some(409),
            UserError::InvalidCredentials | UserError::EmailNotVerified => Some(401),
            UserError::Database(_) | UserError::PasswordHash(_) => Some(500),
        }
    }

    /// The rendered description of this error.
    fn message(&self) -> (r: String)
    {
        match self {
            UserError::Database(s) => {
                let mut m = "Database error: ".to_owned();
                m.append(s.as_str());
                m
            },
            UserError::Validation { message } => {
                let mut m = "Validation error: ".to_owned();
                m.append(message.as_str());
                m
            },
            UserError::UserNotFound => "User not found".to_owned(),
            UserError::EmailExists => "Email already exists".to_owned(),
            UserError::UsernameExists => "Username already exists".to_owned(),
            UserError::InvalidCredentials => "Invalid credentials".to_owned(),
            UserError::EmailNotVerified => "Email not verified".to_owned(),
            UserError::PasswordHash(s) => {
                let mut m = "Password hashing error: ".to_owned();
                m.append(s.as_str());
                m
            },
        }
    }
}

} // verus!
