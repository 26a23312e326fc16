//! DB messages to get rows of a specific type, and which rows each asks for.

use vstd::prelude::*;

use crate::models;

verus! {

/// Query type for [`GoodPhraseTag`][`models::GoodPhraseTag`].
#[derive(Debug, Clone, Copy, PartialEq, Eq, Hash, Structural)]
pub enum GoodPhraseTagQuery {
    /// Query all rows.
    All,
    /// Query rows for the given phrase id.
    PhraseId(i32),
    /// Query the row with the given tag id.
    TagId(i32),
}

/// Query type for [`GoodPhrase`][`models::GoodPhrase`].
#[derive(Debug, Clone, Copy, PartialEq, Eq, Hash, Structural)]
pub enum GoodPhraseQuery {
    /// Query all rows.
    All,
    /// Query rows for the given phrase id.
    PhraseId(i32),
}

/// Query type for [`PersonUrl`][`models::PersonUrl`].
#[derive(Debug, Clone, Copy, PartialEq, Eq, Hash, Structural)]
pub enum PersonUrlQuery {
    /// Query all rows.
    All,
    /// Query rows for the given person id.
    PersonId(i32),
}

/// Query type for [`Person`][`models::Person`].
#[derive(Debug, Clone, Copy, PartialEq, Eq, Hash, Structural)]
pub enum PersonQuery {
    /// Query all rows.
    All,
    /// Query rows for the given person id.
    PersonId(i32),
}

/// Query type for [`GoodPhraseRequest`][`models::GoodPhraseRequest`].
#[derive(Debug, Clone, Copy, PartialEq, Eq, Hash, Structural)]
pub enum GoodPhraseRequestQuery {
    /// Query all rows.
    All,
}

/// Whether one of the associations ties the phrase to the tag.
pub open spec fn ties(links: Seq<models::GoodPhraseAndTag>, phrase_id: i32, tag_id: i32) -> bool {
    exists|i: int|
        0 <= i < links.len() && (#[trigger] links[i]).good_phrase_id == phrase_id
            && links[i].good_phrase_tag_id == tag_id
}

impl GoodPhraseTagQuery {
    /// Whether the query asks for the tag, given the associations stored.
    pub open spec fn spec_selects(
        self,
        tag: models::GoodPhraseTag,
        links: Seq<models::GoodPhraseAndTag>,
    ) -> bool {
        match self {
            GoodPhraseTagQuery::All => true,
            GoodPhraseTagQuery::PhraseId(phrase_id) => ties(
                links,
                phrase_id,
                tag.good_phrase_tag_id,
            ),
            GoodPhraseTagQuery::TagId(tag_id) => tag.good_phrase_tag_id == tag_id,
        }
    }

    /// Tells whether the query asks for the tag, given the associations
    /// stored.
    pub fn selects(
        &self,
        tag: &models::GoodPhraseTag,
        links: &Vec<models::GoodPhraseAndTag>,
    ) -> (asked: bool)
        ensures
            asked == self.spec_selects(*tag, links@),
    {
        match self {
            GoodPhraseTagQuery::All => true,
            GoodPhraseTagQuery::PhraseId(phrase_id) => {
                let mut i: usize = 0;
                while i < links.len()
                    invariant
                        i <= links.len(),
                        *self == GoodPhraseTagQuery::PhraseId(*phrase_id),
                        forall|k: int|
                            0 <= k < i ==> !((#[trigger] links@[k]).good_phrase_id == *phrase_id
                                && links@[k].good_phrase_tag_id == tag.good_phrase_tag_id),
                    decreases links.len() - i,
                {
                    if links[i].good_phrase_id == *phrase_id && links[i].good_phrase_tag_id
                        == tag.good_phrase_tag_id {
                        return true;
                    }
                    i += 1;
                }
                false
            },
            GoodPhraseTagQuery::TagId(tag_id) => tag.good_phrase_tag_id == *tag_id,
        }
    }
}

impl GoodPhraseQuery {
    /// Whether the query asks for the phrase.
    pub open spec fn spec_selects(self, row: models::GoodPhrase) -> bool {
        match self {
            GoodPhraseQuery::All => true,
            GoodPhraseQuery::PhraseId(id) => row.good_phrase_id == id,
        }
    }

    /// Tells whether the query asks for the phrase.
    pub fn selects(&self, row: &models::GoodPhrase) -> (asked: bool)
        ensures
            asked == self.spec_selects(*row),
    {
        match self {
            GoodPhraseQuery::All => true,
            GoodPhraseQuery::PhraseId(id) => row.good_phrase_id == *id,
        }
    }
}

impl PersonUrlQuery {
    /// Whether the query asks for the URL row.
    pub open spec fn spec_selects(self, row: models::PersonUrl) -> bool {
        match self {
            PersonUrlQuery::All => true,
            PersonUrlQuery::PersonId(id) => row.person_id == id,
        }
    }

    /// Tells whether the query asks for the URL row.
    pub fn selects(&self, row: &models::PersonUrl) -> (asked: bool)
        ensures
            asked == self.spec_selects(*row),
    {
        match self {
            PersonUrlQuery::All => true,
            PersonUrlQuery::PersonId(id) => row.person_id == *id,
        }
    }
}

impl PersonQuery {
    /// Whether the query asks for the person.
    pub open spec fn spec_selects(self, row: models::Person) -> bool {
        match self {
            PersonQuery::All => true,
            PersonQuery::PersonId(id) => row.person_id == id,
        }
    }

    /// Tells whether the query asks for the person.
    pub fn selects(&self, row: &models::Person) -> (asked: bool)
        ensures
            asked == self.spec_selects(*row),
    {
        match self {
            PersonQuery::All => true,
            PersonQuery::PersonId(id) => row.person_id == *id,
        }
    }
}

} // verus!
