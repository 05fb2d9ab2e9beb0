//! Properties of the service that hold for every input, proved from the
//! contracts of the routing, the adapter outcomes and the handlers.
use vstd::prelude::*;
use crate::db::{deletion_result, lookup_result, Word};
use crate::error::{Error, Rejection};
use crate::routes::{
    corpus_result, path_route, recovers_to, routing, word_of, write_result, written_reply,
    AddWordRequest, Method, Reply, ReplyBody, Route,
};
use crate::status::{BAD_REQUEST, NOT_FOUND, OK};

verus! {

/// `text` occurs in `s` as a contiguous run.
pub open spec fn contains_text(s: Seq<char>, text: Seq<char>) -> bool {
    exists|i: int| 0 <= i && i + text.len() <= s.len() && #[trigger] s.subrange(i, i + text.len()) == text
}

/// A successful listing reply that holds `words`, in that order.
pub open spec fn lists(reply: Reply, words: Seq<Word>) -> bool {
    &&& reply.code == OK
    &&& reply.body matches ReplyBody::Corpus(c) && c.ok && c.message is None && c.words@ == words
}

/// A word that was added shows up in the listing: when the store's listing
/// holds the record that an add request stored, the corpus reply holds an
/// entry with the request's word.
pub proof fn added_word_is_listed(req: AddWordRequest, listed: Vec<Word>)
    requires
        listed@.contains(word_of(req)),
    ensures
        corpus_result(Ok(listed)) matches Ok(reply) && lists(reply, listed@),
        exists|i: int| 0 <= i < listed@.len() && (#[trigger] listed@[i]).word == req.word,
{
    let i = choose|i: int| 0 <= i < listed@.len() && listed@[i] == word_of(req);
    assert(listed@[i].word == req.word);
}

/// Looking up a word that the store does not hold fails with
/// `WordNotFoundError`, which is answered with 400 and a message that says
/// "not found".
pub proof fn missing_word_is_bad_request(reply: Reply)
    requires
        recovers_to(Err(Rejection::Custom(Error::WordNotFoundError)), reply),
    ensures
        lookup_result(None) == Err::<Word, Error>(Error::WordNotFoundError),
        reply.code == BAD_REQUEST,
        reply.body matches ReplyBody::Failure(e) && !e.ok && contains_text(e.message@, "not found"@),
{
    reveal_strlit("word not found error");
    reveal_strlit("not found");
    if let ReplyBody::Failure(e) = reply.body {
        assert(e.message@ == "word not found error"@);
        assert(e.message@.subrange(5, 5 + "not found"@.len() as int) =~= "not found"@);
        assert(contains_text(e.message@, "not found"@));
    }
}

/// Deleting succeeds whatever number of records the store removed, none
/// included: the reply is 200 with `{ok: true, message: null}`.
pub proof fn delete_succeeds_whatever_was_removed(deleted_count: u64)
    ensures
        write_result(deletion_result(Ok(deleted_count))) == Ok::<Reply, Rejection>(written_reply()),
        written_reply().code == OK,
        written_reply().body matches ReplyBody::Status(s) && s.ok && s.message is None,
{
}

/// Duplicate keys are accepted: an insert succeeds whatever the store
/// already holds, and the listing keeps every entry, so two records with one
/// key stay two entries.
pub proof fn duplicates_are_kept(listed: Vec<Word>, i: int, j: int)
    requires
        0 <= i < j < listed@.len(),
        listed@[i].word@ == listed@[j].word@,
    ensures
        write_result(Ok(())) == Ok::<Reply, Rejection>(written_reply()),
        corpus_result(Ok(listed)) matches Ok(reply) && lists(reply, listed@),
        corpus_result(Ok(listed)) matches Ok(reply) && reply.body matches ReplyBody::Corpus(c)
            && c.words@[i].word@ == c.words@[j].word@,
{
}

/// A malformed request body is answered with 400.
pub proof fn malformed_body_is_bad_request(reply: Reply)
    requires
        recovers_to(Err(Rejection::BodyDeserialize), reply),
    ensures
        reply.code == BAD_REQUEST,
        reply.body matches ReplyBody::Failure(e) && !e.ok && e.code == BAD_REQUEST,
{
}

/// A path that names no endpoint, asked with any method but `OPTIONS`, is
/// rejected as not found and answered with 404 and status "Not Found".
pub proof fn unknown_path_is_not_found(method: Method, path: Seq<char>, reply: Reply)
    requires
        method != Method::Options,
        path_route(path) is None,
        recovers_to(Err(Rejection::NotFound), reply),
    ensures
        routing(method, path) == Err::<Route, Rejection>(Rejection::NotFound),
        reply.code == NOT_FOUND,
        reply.body matches ReplyBody::Failure(e) && !e.ok && e.status@ == "Not Found"@
            && e.message@ == "Not Found"@,
{
}

/// `OPTIONS` on any path goes to the preflight answer.
pub proof fn options_is_preflight(path: Seq<char>)
    ensures
        routing(Method::Options, path) == Ok::<Route, Rejection>(Route::Preflight),
{
}

} // verus!
