//! `GetTagsForPhrase` message.

use vstd::prelude::*;

use crate::db::get_rows::GoodPhraseTagQuery;

verus! {

/// A message type to get tags for a good_phrase.
#[derive(Debug, Clone)]
pub struct GetTagsForGoodPhrase {
    good_phrase_id: i32,
}

impl GetTagsForGoodPhrase {
    /// The phrase whose tags are asked for.
    pub closed spec fn spec_good_phrase_id(&self) -> i32 {
        self.good_phrase_id
    }

    /// Creates a new `GetTagsForGoodPhrase` from the given good phrase ID.
    pub fn new(good_phrase_id: i32) -> (msg: Self)
        ensures
            msg.spec_good_phrase_id() == good_phrase_id,
    {
        Self { good_phrase_id }
    }

    /// The phrase whose tags are asked for.
    pub fn good_phrase_id(&self) -> (id: i32)
        ensures
            id == self.spec_good_phrase_id(),
    {
        self.good_phrase_id
    }

    /// The same question as a tag query.
    pub fn query(&self) -> (query: GoodPhraseTagQuery)
        ensures
            query == GoodPhraseTagQuery::PhraseId(self.spec_good_phrase_id()),
    {
        GoodPhraseTagQuery::PhraseId(self.good_phrase_id)
    }
}

} // verus!
