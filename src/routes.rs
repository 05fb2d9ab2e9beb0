//! Routing of requests to endpoints, the endpoints' handlers, and the
//! replies they produce.
use vstd::prelude::*;
use vstd::string::StringExecFns;
use crate::db::Word;
use crate::error::{
    handle_rejection, rejection_code, rejection_message, ErrorResponse, Error, Rejection,
};
use crate::status::{reason_text, OK};

verus! {

/// The HTTP methods that routing tells apart.
#[derive(Debug, Clone, Copy, PartialEq, Eq, Structural)]
pub enum Method {
    Get,
    Post,
    Options,
    Other,
}

/// The endpoints of the service.
#[derive(Debug, Clone, Copy, PartialEq, Eq, Structural)]
pub enum Route {
    /// `GET /`: a plain-text greeting.
    Root,
    /// `GET /corpus`: every stored word.
    Corpus,
    /// `POST /word/add`: store a new word.
    AddWord,
    /// `POST /word/delete`: remove a word by key.
    DeleteWord,
    /// `OPTIONS` on any path: an empty answer for CORS preflight.
    Preflight,
}

/// The body of `POST /word/add`.
#[derive(Debug, Clone, PartialEq, Eq)]
pub struct AddWordRequest {
    pub word: String,
    pub description: Option<String>,
    pub tags: Option<Vec<String>>,
}

/// The body of `POST /word/delete`.
#[derive(Debug, Clone, PartialEq, Eq)]
pub struct DeleteWordRequest {
    pub word: String,
}

/// The JSON body of a successful write.
#[derive(Debug, Clone, PartialEq, Eq)]
pub struct StatusResponse {
    pub ok: bool,
    pub message: Option<String>,
}

/// The JSON body of a successful listing.
#[derive(Debug, Clone, PartialEq, Eq)]
pub struct CorpusResponse {
    pub ok: bool,
    pub message: Option<String>,
    pub words: Vec<Word>,
}

/// What a reply carries.
#[derive(Debug, Clone, PartialEq, Eq)]
pub enum ReplyBody {
    Text(String),
    Empty,
    Status(StatusResponse),
    Corpus(CorpusResponse),
    Failure(ErrorResponse),
}

/// A reply: its status code and its body.
#[derive(Debug, Clone, PartialEq, Eq)]
pub struct Reply {
    pub code: u16,
    pub body: ReplyBody,
}

/// The endpoint that a path names, whatever the method.
pub open spec fn path_route(path: Seq<char>) -> Option<Route> {
    if path == "/"@ {
        Some(Route::Root)
    } else if path == "/corpus"@ {
        Some(Route::Corpus)
    } else if path == "/word/add"@ {
        Some(Route::AddWord)
    } else if path == "/word/delete"@ {
        Some(Route::DeleteWord)
    } else {
        None
    }
}

/// The method that an endpoint answers.
pub open spec fn route_method(r: Route) -> Method {
    match r {
        Route::Root => Method::Get,
        Route::Corpus => Method::Get,
        Route::AddWord => Method::Post,
        Route::DeleteWord => Method::Post,
        Route::Preflight => Method::Options,
    }
}

/// Where a request goes: `OPTIONS` to the preflight answer on every path;
/// a known path with its own method to its endpoint, with another method to
/// `MethodNotAllowed`; any other path to `NotFound`.
pub open spec fn routing(method: Method, path: Seq<char>) -> Result<Route, Rejection> {
    if method == Method::Options {
        Ok(Route::Preflight)
    } else {
        match path_route(path) {
            Some(r) => if route_method(r) == method {
                Ok(r)
            } else {
                Err(Rejection::MethodNotAllowed)
            },
            None => Err(Rejection::NotFound),
        }
    }
}

fn is_path(path: &String, expected: &str) -> (r: bool)
    ensures
        r == (path@ == expected@),
{
    let e = String::from_str(expected);
    path.eq(&e)
}

/// Picks the endpoint for a request.
pub fn route(method: Method, path: &String) -> (r: Result<Route, Rejection>)
    ensures
        r == routing(method, path@),
{
    if method == Method::Options {
        return Ok(Route::Preflight);
    }
    let (endpoint, wanted): (Route, Method) = if is_path(path, "/") {
        (Route::Root, Method::Get)
    } else if is_path(path, "/corpus") {
        (Route::Corpus, Method::Get)
    } else if is_path(path, "/word/add") {
        (Route::AddWord, Method::Post)
    } else if is_path(path, "/word/delete") {
        (Route::DeleteWord, Method::Post)
    } else {
        return Err(Rejection::NotFound);
    };
    if method == wanted {
        Ok(endpoint)
    } else {
        Err(Rejection::MethodNotAllowed)
    }
}

/// The record that an add request stores: its fields, unchanged.
pub open spec fn word_of(req: AddWordRequest) -> Word {
    Word { word: req.word, description: req.description, tags: req.tags }
}

impl AddWordRequest {
    /// The record to store for this request.
    pub fn into_word(self) -> (r: Word)
        ensures
            r == word_of(self),
    {
        Word::new(self.word, self.description, self.tags)
    }
}

/// The successful answer to a write: `{ok: true, message: null}`.
pub open spec fn written_reply() -> Reply {
    Reply { code: OK, body: ReplyBody::Status(StatusResponse { ok: true, message: None }) }
}

/// The answer to a write, given whether the store carried it out.
pub open spec fn write_result(done: Result<(), Error>) -> Result<Reply, Rejection> {
    match done {
        Ok(()) => Ok(written_reply()),
        Err(e) => Err(Rejection::Custom(e)),
    }
}

/// The answer to a listing, given what the store listed: every listed
/// record, in the store's order.
pub open spec fn corpus_result(listed: Result<Vec<Word>, Error>) -> Result<Reply, Rejection> {
    match listed {
        Ok(words) => Ok(
            Reply {
                code: OK,
                body: ReplyBody::Corpus(CorpusResponse { ok: true, message: None, words }),
            },
        ),
        Err(e) => Err(Rejection::Custom(e)),
    }
}

/// The error body for a rejection: never `ok`, with the rejection's code,
/// that code's reason phrase as status, and the rejection's message.
pub open spec fn is_error_reply(e: ErrorResponse, r: Rejection) -> bool {
    &&& !e.ok
    &&& e.code == rejection_code(r)
    &&& e.status@ == reason_text(e.code)
    &&& e.message@ == rejection_message(r)
}

/// `reply` ends a request whose handling gave `result`: the handler's reply
/// itself, or the error reply for its rejection under the rejection's code.
pub open spec fn recovers_to(result: Result<Reply, Rejection>, reply: Reply) -> bool {
    match result {
        Ok(handled) => reply == handled,
        Err(r) => {
            &&& reply.code == rejection_code(r)
            &&& reply.body matches ReplyBody::Failure(e) && is_error_reply(e, r)
        },
    }
}

/// Ends a request: keeps the handler's reply, or answers its rejection
/// with an error reply.
pub fn recover(result: Result<Reply, Rejection>) -> (r: Reply)
    ensures
        recovers_to(result, r),
{
    match result {
        Ok(reply) => reply,
        Err(rejection) => {
            let e = handle_rejection(&rejection);
            Reply { code: e.code, body: ReplyBody::Failure(e) }
        },
    }
}

fn status_ok() -> (r: Reply)
    ensures
        r == written_reply(),
{
    Reply { code: OK, body: ReplyBody::Status(StatusResponse { ok: true, message: None }) }
}

/// `GET /`: the greeting.
pub fn root_handler() -> (r: Reply)
    ensures
        r.code == OK,
        r.body matches ReplyBody::Text(t) && t@ == "API root."@,
{
    Reply { code: OK, body: ReplyBody::Text(String::from_str("API root.")) }
}

/// `OPTIONS` on any path: an empty success.
pub fn preflight_handler() -> (r: Reply)
    ensures
        r == (Reply { code: OK, body: ReplyBody::Empty }),
{
    Reply { code: OK, body: ReplyBody::Empty }
}

/// `GET /corpus`, given the store's listing.
pub fn corpus_handler(listed: Result<Vec<Word>, Error>) -> (r: Result<Reply, Rejection>)
    ensures
        r == corpus_result(listed),
{
    match listed {
        Ok(words) => Ok(
            Reply {
                code: OK,
                body: ReplyBody::Corpus(CorpusResponse { ok: true, message: None, words }),
            },
        ),
        Err(e) => Err(Rejection::Custom(e)),
    }
}

/// `POST /word/add`, given the store's answer to the insert.
pub fn add_word_handler(inserted: Result<(), Error>) -> (r: Result<Reply, Rejection>)
    ensures
        r == write_result(inserted),
{
    match inserted {
        Ok(()) => Ok(status_ok()),
        Err(e) => Err(Rejection::Custom(e)),
    }
}

/// `POST /word/delete`, given the adapter's answer to the delete.
pub fn delete_word_handler(deleted: Result<(), Error>) -> (r: Result<Reply, Rejection>)
    ensures
        r == write_result(deleted),
{
    match deleted {
        Ok(()) => Ok(status_ok()),
        Err(e) => Err(Rejection::Custom(e)),
    }
}

} // verus!
