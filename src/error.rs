//! The service's error taxonomy and how each error is answered over HTTP.
use vstd::prelude::*;
use vstd::string::StringExecFns;
use crate::status::{
    reason_phrase, reason_text, BAD_REQUEST, CONFLICT, INTERNAL_SERVER_ERROR, METHOD_NOT_ALLOWED,
    NOT_FOUND,
};

verus! {

/// Everything that can go wrong while serving a request. Failures of the
/// document store carry the store's own message.
#[derive(Debug, Clone, PartialEq, Eq)]
pub enum Error {
    MongoError(String),
    MongoQueryError(String),
    MongoDataError(String),
    BsonOidError(String),
    InvalidIDError(String),
    DatabaseQueryError(String),
    WordNotFoundError,
    HashingError,
    PasswordTooShortError,
    UnsafePasswordError,
}

/// The human-readable text of an error.
pub open spec fn error_text(e: Error) -> Seq<char> {
    match e {
        Error::MongoError(m) => "mongodb error: "@ + m@,
        Error::MongoQueryError(m) => "error during mongodb query: "@ + m@,
        Error::MongoDataError(m) => "could not access field in document: "@ + m@,
        Error::BsonOidError(m) => "could not parse ObjectID "@ + m@,
        Error::InvalidIDError(m) => "invalid id used: "@ + m@,
        Error::DatabaseQueryError(m) => "data base query error: "@ + m@,
        Error::WordNotFoundError => "word not found error"@,
        Error::HashingError => "hashing error"@,
        Error::PasswordTooShortError => "password must be at least 8 characters long"@,
        Error::UnsafePasswordError => "unsafe password"@,
    }
}

fn prefixed(prefix: &str, detail: &String) -> (r: String)
    ensures
        r@ == prefix@ + detail@,
{
    String::from_str(prefix).concat(detail.as_str())
}

impl Error {
    /// The human-readable text of this error.
    pub fn message(&self) -> (r: String)
        ensures
            r@ == error_text(*self),
    {
        match self {
            Error::MongoError(m) => prefixed("mongodb error: ", m),
            Error::MongoQueryError(m) => prefixed("error during mongodb query: ", m),
            Error::MongoDataError(m) => prefixed("could not access field in document: ", m),
            Error::BsonOidError(m) => prefixed("could not parse ObjectID ", m),
            Error::InvalidIDError(m) => prefixed("invalid id used: ", m),
            Error::DatabaseQueryError(m) => prefixed("data base query error: ", m),
            Error::WordNotFoundError => String::from_str("word not found error"),
            Error::HashingError => String::from_str("hashing error"),
            Error::PasswordTooShortError => String::from_str(
                "password must be at least 8 characters long",
            ),
            Error::UnsafePasswordError => String::from_str("unsafe password"),
        }
    }
}

/// Why a request was turned away before or while it was handled.
#[derive(Debug, Clone, PartialEq, Eq)]
pub enum Rejection {
    /// No route matches the path.
    NotFound,
    /// A handler failed with one of the service's errors.
    Custom(Error),
    /// The request body does not have the shape the route expects.
    BodyDeserialize,
    /// The path is known, but not with this method.
    MethodNotAllowed,
    /// Any other failure; its detail stays on the server.
    Unhandled,
}

/// The JSON body of every error reply.
#[derive(Debug, Clone, PartialEq, Eq)]
pub struct ErrorResponse {
    pub ok: bool,
    pub code: u16,
    pub status: String,
    pub message: String,
}

/// The status code that answers a rejection.
pub open spec fn rejection_code(r: Rejection) -> u16 {
    match r {
        Rejection::NotFound => NOT_FOUND,
        Rejection::Custom(Error::UnsafePasswordError) => CONFLICT,
        Rejection::Custom(_) => BAD_REQUEST,
        Rejection::BodyDeserialize => BAD_REQUEST,
        Rejection::MethodNotAllowed => METHOD_NOT_ALLOWED,
        Rejection::Unhandled => INTERNAL_SERVER_ERROR,
    }
}

/// The message that a rejection shows the client.
pub open spec fn rejection_message(r: Rejection) -> Seq<char> {
    match r {
        Rejection::NotFound => "Not Found"@,
        Rejection::Custom(e) => error_text(e),
        Rejection::BodyDeserialize => "BodyDeserializeError"@,
        Rejection::MethodNotAllowed => "Method Not Allowed"@,
        Rejection::Unhandled => "Internal Server Error"@,
    }
}

/// The error reply for a rejection: never `ok`, with the rejection's code,
/// that code's reason phrase as status, and the rejection's message.
pub fn handle_rejection(err: &Rejection) -> (r: ErrorResponse)
    ensures
        !r.ok,
        r.code == rejection_code(*err),
        r.status@ == reason_text(r.code),
        r.message@ == rejection_message(*err),
{
    let (code, message): (u16, String) = match err {
        Rejection::NotFound => (NOT_FOUND, String::from_str("Not Found")),
        Rejection::Custom(e) => match e {
            Error::UnsafePasswordError => (CONFLICT, e.message()),
            _ => (BAD_REQUEST, e.message()),
        },
        Rejection::BodyDeserialize => (BAD_REQUEST, String::from_str("BodyDeserializeError")),
        Rejection::MethodNotAllowed => (METHOD_NOT_ALLOWED, String::from_str("Method Not Allowed")),
        Rejection::Unhandled => (INTERNAL_SERVER_ERROR, String::from_str("Internal Server Error")),
    };
    ErrorResponse { ok: false, code, status: reason_phrase(code), message }
}

} // verus!
