use kurator::{
    add_word_handler, corpus_handler, delete_word_handler, deleted_word, found_word,
    handle_rejection, preflight_handler, reason_phrase, recover, root_handler, route,
    AddWordRequest, Error, Method, Rejection, ReplyBody, Route, Word,
};

fn s(t: &str) -> String {
    t.to_string()
}

fn word(key: &str) -> Word {
    Word::new(s(key), None, None)
}

#[test]
fn routes_known_paths_with_their_methods() {
    assert_eq!(route(Method::Get, &s("/")), Ok(Route::Root));
    assert_eq!(route(Method::Get, &s("/corpus")), Ok(Route::Corpus));
    assert_eq!(route(Method::Post, &s("/word/add")), Ok(Route::AddWord));
    assert_eq!(route(Method::Post, &s("/word/delete")), Ok(Route::DeleteWord));
}

#[test]
fn wrong_method_on_known_path_is_not_allowed() {
    assert_eq!(route(Method::Get, &s("/word/add")), Err(Rejection::MethodNotAllowed));
    assert_eq!(route(Method::Post, &s("/corpus")), Err(Rejection::MethodNotAllowed));
    assert_eq!(route(Method::Other, &s("/word/delete")), Err(Rejection::MethodNotAllowed));
    let reply = recover(Err(route(Method::Post, &s("/")).unwrap_err()));
    assert_eq!(reply.code, 405);
    match reply.body {
        ReplyBody::Failure(e) => {
            assert_eq!(e.status, "Method Not Allowed");
            assert_eq!(e.message, "Method Not Allowed");
        }
        other => panic!("unexpected body {:?}", other),
    }
}

#[test]
fn unknown_path_is_not_found() {
    let rejected = route(Method::Get, &s("/nope")).unwrap_err();
    assert_eq!(rejected, Rejection::NotFound);
    let reply = recover(Err(rejected));
    assert_eq!(reply.code, 404);
    match reply.body {
        ReplyBody::Failure(e) => {
            assert!(!e.ok);
            assert_eq!(e.code, 404);
            assert_eq!(e.status, "Not Found");
            assert_eq!(e.message, "Not Found");
        }
        other => panic!("unexpected body {:?}", other),
    }
    assert_eq!(route(Method::Get, &s("/corpus/")), Err(Rejection::NotFound));
    assert_eq!(route(Method::Post, &s("")), Err(Rejection::NotFound));
}

#[test]
fn options_on_any_path_is_an_empty_success() {
    for path in ["/", "/corpus", "/word/add", "/nope", ""] {
        assert_eq!(route(Method::Options, &s(path)), Ok(Route::Preflight));
    }
    let reply = preflight_handler();
    assert_eq!(reply.code, 200);
    assert_eq!(reply.body, ReplyBody::Empty);
}

#[test]
fn root_greets() {
    let reply = root_handler();
    assert_eq!(reply.code, 200);
    assert_eq!(reply.body, ReplyBody::Text(s("API root.")));
}

#[test]
fn added_word_is_listed() {
    let req = AddWordRequest {
        word: s("foo"),
        description: Some(s("bar")),
        tags: Some(vec![s("x"), s("y")]),
    };
    let stored = req.clone().into_word();
    assert_eq!(stored.word, "foo");
    assert_eq!(stored.description, Some(s("bar")));
    assert_eq!(stored.tags, Some(vec![s("x"), s("y")]));
    let added = recover(add_word_handler(Ok(())));
    assert_eq!(added.code, 200);
    let listed = recover(corpus_handler(Ok(vec![word("other"), stored])));
    assert_eq!(listed.code, 200);
    match listed.body {
        ReplyBody::Corpus(c) => {
            assert!(c.ok);
            assert_eq!(c.message, None);
            assert!(c.words.iter().any(|w| w.word == "foo"));
        }
        other => panic!("unexpected body {:?}", other),
    }
}

#[test]
fn missing_word_is_bad_request() {
    let looked_up = found_word(None);
    assert_eq!(looked_up, Err(Error::WordNotFoundError));
    let reply = recover(Err(Rejection::Custom(looked_up.unwrap_err())));
    assert_eq!(reply.code, 400);
    match reply.body {
        ReplyBody::Failure(e) => {
            assert_eq!(e.status, "Bad Request");
            assert_eq!(e.message, "word not found error");
            assert!(e.message.contains("not found"));
        }
        other => panic!("unexpected body {:?}", other),
    }
}

#[test]
fn found_word_is_returned() {
    assert_eq!(found_word(Some(word("hello"))), Ok(word("hello")));
}

#[test]
fn deleting_a_missing_word_succeeds() {
    let reply = recover(delete_word_handler(deleted_word(Ok(0))));
    assert_eq!(reply.code, 200);
    match reply.body {
        ReplyBody::Status(st) => {
            assert!(st.ok);
            assert_eq!(st.message, None);
        }
        other => panic!("unexpected body {:?}", other),
    }
    assert_eq!(deleted_word(Ok(1)), Ok(()));
}

#[test]
fn failed_delete_is_reported() {
    let failed = deleted_word(Err(Error::MongoQueryError(s("timeout"))));
    assert_eq!(failed, Err(Error::MongoQueryError(s("timeout"))));
    let reply = recover(delete_word_handler(failed));
    assert_eq!(reply.code, 400);
    match reply.body {
        ReplyBody::Failure(e) => assert_eq!(e.message, "error during mongodb query: timeout"),
        other => panic!("unexpected body {:?}", other),
    }
}

#[test]
fn duplicate_inserts_are_both_listed() {
    assert_eq!(recover(add_word_handler(Ok(()))).code, 200);
    assert_eq!(recover(add_word_handler(Ok(()))).code, 200);
    let listed = recover(corpus_handler(Ok(vec![word("dup"), word("dup")])));
    match listed.body {
        ReplyBody::Corpus(c) => {
            assert_eq!(c.words.iter().filter(|w| w.word == "dup").count(), 2);
        }
        other => panic!("unexpected body {:?}", other),
    }
}

#[test]
fn failed_listing_is_reported() {
    let reply = recover(corpus_handler(Err(Error::MongoError(s("cursor closed")))));
    assert_eq!(reply.code, 400);
    match reply.body {
        ReplyBody::Failure(e) => assert_eq!(e.message, "mongodb error: cursor closed"),
        other => panic!("unexpected body {:?}", other),
    }
}

#[test]
fn malformed_body_is_bad_request() {
    let e = handle_rejection(&Rejection::BodyDeserialize);
    assert!(!e.ok);
    assert_eq!(e.code, 400);
    assert_eq!(e.status, "Bad Request");
    assert_eq!(e.message, "BodyDeserializeError");
    assert_eq!(recover(Err(Rejection::BodyDeserialize)).code, 400);
}

#[test]
fn unsafe_password_is_conflict() {
    let e = handle_rejection(&Rejection::Custom(Error::UnsafePasswordError));
    assert_eq!(e.code, 409);
    assert_eq!(e.status, "Conflict");
    assert_eq!(e.message, "unsafe password");
}

#[test]
fn unhandled_failure_is_internal_error() {
    let e = handle_rejection(&Rejection::Unhandled);
    assert_eq!(e.code, 500);
    assert_eq!(e.status, "Internal Server Error");
    assert_eq!(e.message, "Internal Server Error");
}

#[test]
fn error_messages() {
    assert_eq!(Error::MongoError(s("a")).message(), "mongodb error: a");
    assert_eq!(Error::MongoQueryError(s("b")).message(), "error during mongodb query: b");
    assert_eq!(
        Error::MongoDataError(s("c")).message(),
        "could not access field in document: c"
    );
    assert_eq!(Error::BsonOidError(s("d")).message(), "could not parse ObjectID d");
    assert_eq!(Error::InvalidIDError(s("e")).message(), "invalid id used: e");
    assert_eq!(Error::DatabaseQueryError(s("f")).message(), "data base query error: f");
    assert_eq!(Error::WordNotFoundError.message(), "word not found error");
    assert_eq!(Error::HashingError.message(), "hashing error");
    assert_eq!(
        Error::PasswordTooShortError.message(),
        "password must be at least 8 characters long"
    );
    assert_eq!(Error::UnsafePasswordError.message(), "unsafe password");
}

#[test]
fn reason_phrases() {
    assert_eq!(reason_phrase(200), "OK");
    assert_eq!(reason_phrase(400), "Bad Request");
    assert_eq!(reason_phrase(404), "Not Found");
    assert_eq!(reason_phrase(405), "Method Not Allowed");
    assert_eq!(reason_phrase(409), "Conflict");
    assert_eq!(reason_phrase(500), "Internal Server Error");
}
