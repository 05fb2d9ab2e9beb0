//! The word record and what the persistence adapter decides from the
//! store's answers. The store calls themselves are made by the caller.
use vstd::prelude::*;
use crate::error::Error;

verus! {

/// One record of the corpus: a word, keyed by its text, with an optional
/// description and optional ordered tags.
#[derive(Debug, Clone, PartialEq, Eq)]
pub struct Word {
    pub word: String,
    pub description: Option<String>,
    pub tags: Option<Vec<String>>,
}

impl Word {
    pub fn new(word: String, description: Option<String>, tags: Option<Vec<String>>) -> (r: Word)
        ensures
            r == (Word { word, description, tags }),
    {
        Word { word, description, tags }
    }
}

/// The outcome of looking a word up by key, given what the store found.
pub open spec fn lookup_result(found: Option<Word>) -> Result<Word, Error> {
    match found {
        Some(w) => Ok(w),
        None => Err(Error::WordNotFoundError),
    }
}

/// Turns the store's answer to a lookup by key into the adapter's result:
/// the record when one was found, `WordNotFoundError` when none was.
pub fn found_word(found: Option<Word>) -> (r: Result<Word, Error>)
    ensures
        r == lookup_result(found),
{
    match found {
        Some(w) => Ok(w),
        None => Err(Error::WordNotFoundError),
    }
}

/// The outcome of deleting by key: whatever number of records the store
/// removed, zero included, the deletion succeeded.
pub open spec fn deletion_result(deleted: Result<u64, Error>) -> Result<(), Error> {
    match deleted {
        Ok(_) => Ok(()),
        Err(e) => Err(e),
    }
}

/// Turns the store's answer to a delete by key (the number of records
/// removed) into the adapter's result.
pub fn deleted_word(deleted: Result<u64, Error>) -> (r: Result<(), Error>)
    ensures
        r == deletion_result(deleted),
        r is Ok <==> deleted is Ok,
{
    match deleted {
        Ok(_) => Ok(()),
        Err(e) => Err(e),
    }
}

} // verus!
