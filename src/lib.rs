//! A small word-corpus web service: the decisions it makes for each request,
//! proved correct. Network and database I/O live outside this crate.
pub mod status;
pub mod error;
pub mod db;
pub mod routes;
pub mod laws;

pub use db::{deleted_word, found_word, Word};
pub use error::{handle_rejection, Error, ErrorResponse, Rejection};
pub use routes::{
    add_word_handler, corpus_handler, delete_word_handler, preflight_handler, recover,
    root_handler, route, AddWordRequest, CorpusResponse, DeleteWordRequest, Method, Reply,
    ReplyBody, Route, StatusResponse,
};
pub use status::reason_phrase;
