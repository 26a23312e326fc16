//! GoodPhrase service: the public feed.

use vstd::prelude::*;

use crate::db::Error;

pub mod response;

verus! {

/// What the public feed answers.
#[derive(Debug, Clone, PartialEq, Eq)]
pub enum FeedReply {
    /// The phrases, to be sent as a JSON array.
    Json(Vec<response::GoodPhrase>),
    /// The phrases could not be read: an answer of the 500 class, empty.
    InternalServerError,
}

/// Processes the request for good_phrase texts: the phrases if they were
/// read, an internal error if not.
pub fn index(contents: Result<Vec<response::GoodPhrase>, Error>) -> (reply: FeedReply)
    ensures
        reply == match contents {
            Ok(phrases) => FeedReply::Json(phrases),
            Err(_) => FeedReply::InternalServerError,
        },
{
    match contents {
        Ok(phrases) => FeedReply::Json(phrases),
        Err(_) => FeedReply::InternalServerError,
    }
}

} // verus!
