//! Handler module for phrase request

use vstd::prelude::*;

use crate::admin::{Page, Reply};
use crate::db::Error;
use crate::models;

verus! {

/// Processes the request for phrase request registration index.
pub fn index(contents: Result<Vec<models::GoodPhraseRequest>, Error>) -> (reply: Reply)
    ensures
        reply == match contents {
            Ok(rows) => Reply::Html(Page::PhraseRequests { rows }),
            Err(_) => Reply::InternalServerError("DB Error"),
        },
{
    match contents {
        Ok(rows) => Reply::Html(Page::PhraseRequests { rows }),
        Err(_) => Reply::InternalServerError("DB Error"),
    }
}

/// Processes the phrase request query: says what to answer once the
/// request is stored, or is not.
pub fn post(saved: Result<(), Error>) -> (reply: Reply)
    ensures
        reply == match saved {
            Ok(_) => Reply::Done,
            Err(_) => Reply::InternalServerError("DB error"),
        },
{
    match saved {
        Ok(_) => Reply::Done,
        Err(_) => Reply::InternalServerError("DB error"),
    }
}

} // verus!
