//! Error types of this crate.
//!
//! Every failure is returned as a value. Validation errors are found before
//! any request is made; response errors describe what came back from the
//! service or why nothing came back.

use vstd::prelude::*;
use vstd::string::*;

verus! {

/// Errors around validation of caller input.
#[derive(Debug)]
pub enum ValidationError {
    /// A value lies outside the range it is allowed to take.
    OutOfRange { msg: String },
    /// A value is not one of the tokens that are accepted.
    InvalidToken { msg: String },
}

/// Errors around the HTTP exchange: status codes, decoding, transport.
#[derive(Debug)]
pub enum HttpResponseError {
    /// A response that fits no other category; the text names the status.
    Various(String),
    /// The body of a successful response could not be decoded.
    JsonDecode(String),
    /// HTTP status code 403.
    Forbidden,
    /// HTTP status code 500.
    InternalServerError,
    /// HTTP status code 503.
    ServiceUnavailable,
    /// The request never produced a response; the text is the transport's cause.
    TransportError(String),
}

/// General error of this crate.
#[derive(Debug)]
pub enum ConnpassCliError {
    /// Errors around validation.
    Validation(ValidationError),
    /// Errors around the HTTP exchange.
    HttpResponse(HttpResponseError),
}

pub type ConnpassResult<T> = core::result::Result<T, ConnpassCliError>;

impl ValidationError {
    /// The text shown for this error: the message it carries.
    pub open spec fn text(&self) -> Seq<char> {
        match self {
            ValidationError::OutOfRange { msg } => msg@,
            ValidationError::InvalidToken { msg } => msg@,
        }
    }

    /// Returns the text shown for this error.
    pub fn message(&self) -> (s: String)
        ensures
            s@ == self.text(),
    {
        match self {
            ValidationError::OutOfRange { msg } => msg.clone(),
            ValidationError::InvalidToken { msg } => msg.clone(),
        }
    }
}

impl HttpResponseError {
    /// The text shown for this error: the carried text, or the name of the status.
    pub open spec fn text(&self) -> Seq<char> {
        match self {
            HttpResponseError::Various(msg) => msg@,
            HttpResponseError::JsonDecode(msg) => msg@,
            HttpResponseError::Forbidden => "Forbidden"@,
            HttpResponseError::InternalServerError => "Internal Server Error"@,
            HttpResponseError::ServiceUnavailable => "Service Unavailable"@,
            HttpResponseError::TransportError(cause) => cause@,
        }
    }

    /// Returns the text shown for this error.
    pub fn message(&self) -> (s: String)
        ensures
            s@ == self.text(),
    {
        match self {
            HttpResponseError::Various(msg) => msg.clone(),
            HttpResponseError::JsonDecode(msg) => msg.clone(),
            HttpResponseError::Forbidden => "Forbidden".to_owned(),
            HttpResponseError::InternalServerError => "Internal Server Error".to_owned(),
            HttpResponseError::ServiceUnavailable => "Service Unavailable".to_owned(),
            HttpResponseError::TransportError(cause) => cause.clone(),
        }
    }
}

impl ConnpassCliError {
    /// The text shown for this error: that of the error it wraps, unchanged.
    pub open spec fn text(&self) -> Seq<char> {
        match self {
            ConnpassCliError::Validation(e) => e.text(),
            ConnpassCliError::HttpResponse(e) => e.text(),
        }
    }

    /// Returns the text shown for this error.
    pub fn message(&self) -> (s: String)
        ensures
            s@ == self.text(),
    {
        match self {
            ConnpassCliError::Validation(e) => e.message(),
            ConnpassCliError::HttpResponse(e) => e.message(),
        }
    }
}

} // verus!
