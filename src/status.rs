//! HTTP status codes used by the service and their reason phrases.
use vstd::prelude::*;

verus! {

pub const OK: u16 = 200;

pub const BAD_REQUEST: u16 = 400;

pub const NOT_FOUND: u16 = 404;

pub const METHOD_NOT_ALLOWED: u16 = 405;

pub const CONFLICT: u16 = 409;

pub const INTERNAL_SERVER_ERROR: u16 = 500;

/// The reason phrase that the `http` crate registers for a status code,
/// if it registers one.
pub uninterp spec fn canonical_reason_of(code: u16) -> Option<Seq<char>>;

/// The reason phrase of each status code that the service answers with.
pub open spec fn reason_text(code: u16) -> Seq<char> {
    if code == OK {
        "OK"@
    } else if code == BAD_REQUEST {
        "Bad Request"@
    } else if code == NOT_FOUND {
        "Not Found"@
    } else if code == METHOD_NOT_ALLOWED {
        "Method Not Allowed"@
    } else if code == CONFLICT {
        "Conflict"@
    } else if code == INTERNAL_SERVER_ERROR {
        "Internal Server Error"@
    } else {
        Seq::empty()
    }
}

/// The codes that the service answers with.
pub open spec fn is_service_code(code: u16) -> bool {
    code == OK || code == BAD_REQUEST || code == NOT_FOUND || code == METHOD_NOT_ALLOWED
        || code == CONFLICT || code == INTERNAL_SERVER_ERROR
}

/// Relies on `http::StatusCode::from_u16` and `StatusCode::canonical_reason`
/// (through warp's re-export): the registered phrase of a code, looked up in
/// a fixed table, and `None` for codes outside 100..=999 or not in the table.
#[verifier::external_body]
fn canonical_reason(code: u16) -> (r: Option<String>)
    ensures
        match r {
            Some(s) => canonical_reason_of(code) == Some(s@),
            None => canonical_reason_of(code) is None,
        },
        is_service_code(code) ==> (r is Some && r->0@ == reason_text(code)),
{
    match warp::http::StatusCode::from_u16(code) {
        Ok(c) => c.canonical_reason().map(|p| p.to_string()),
        Err(_) => None,
    }
}

/// The reason phrase of a code that the service answers with.
pub fn reason_phrase(code: u16) -> (r: String)
    requires
        is_service_code(code),
    ensures
        r@ == reason_text(code),
{
    match canonical_reason(code) {
        Some(s) => s,
        None => String::new(),
    }
}

} // verus!
