//! Data types insertable to DB: the rows of the tables, as they are written.

use vstd::prelude::*;

use crate::time::Timestamp;

verus! {

/// GoodPhrase tag.
#[derive(Debug, Clone, PartialEq, Eq, Hash)]
pub struct NewGoodPhraseTag {
    /// Row ID.
    pub good_phrase_tag_id: Option<i32>,
    /// UTC datetime the row is created at.
    pub created_at: Timestamp,
    /// UTC datetime the row is last modified at.
    pub modified_at: Timestamp,
    /// Tag name.
    pub name: String,
    /// Tag description.
    pub description: Option<String>,
}

/// GoodPhrase.
#[derive(Debug, Clone, PartialEq, Eq, Hash)]
pub struct NewGoodPhrase {
    /// Row ID.
    pub good_phrase_id: Option<i32>,
    /// UTC datetime the row is created at.
    pub created_at: Timestamp,
    /// UTC datetime the row is last modified at.
    pub modified_at: Timestamp,
    /// Title.
    pub title: String,
    /// Phrase.
    pub phrase: String,
    /// Person ID of the author.
    pub person_id: i32,
    /// URL of the phrase if exists.
    pub url: Option<String>,
    /// Whether the phrase is deleted.
    pub deleted: bool,
    /// UTC datetime the phrase is published at (if known).
    pub published_at: Option<Timestamp>,
}

/// GoodPhraseRequest.
#[derive(Debug, Clone, PartialEq, Eq, Hash)]
pub struct NewGoodPhraseRequest {
    /// Row ID.
    pub good_phrase_request_id: Option<i32>,
    /// Title.
    pub title: String,
    /// Phrase.
    pub phrase: String,
    /// Author.
    pub person: String,
    /// URL of the phrase if exists.
    pub url: Option<String>,
    /// Whether the phrase is deleted.
    pub deleted: bool,
    /// UTC datetime the phrase is published at (if known).
    pub published_at: Option<Timestamp>,
    /// Tags
    pub tags: Option<String>,
}

/// GoodPhrase and tag.
#[derive(Debug, Clone, Copy, PartialEq, Eq, Hash, Structural)]
pub struct NewGoodPhraseAndTag {
    /// Row ID.
    pub good_phrase_and_tag_id: Option<i32>,
    /// UTC datetime the row is created at.
    pub created_at: Timestamp,
    /// UTC datetime the row is last modified at.
    pub modified_at: Timestamp,
    /// GoodPhrase ID.
    pub good_phrase_id: i32,
    /// GoodPhrase tag ID.
    pub good_phrase_tag_id: i32,
}

/// Person and URL.
#[derive(Debug, Clone, PartialEq, Eq, Hash)]
pub struct NewPersonUrl {
    /// Row ID.
    pub person_url_id: Option<i32>,
    /// UTC datetime the row is created at.
    pub created_at: Timestamp,
    /// UTC datetime the row is last modified at.
    pub modified_at: Timestamp,
    /// Person ID.
    pub person_id: i32,
    /// URL.
    pub url: String,
}

/// Person.
#[derive(Debug, Clone, PartialEq, Eq, Hash)]
pub struct NewPerson {
    /// Row ID.
    pub person_id: Option<i32>,
    /// UTC datetime the row is created at.
    pub created_at: Timestamp,
    /// UTC datetime the row is last modified at.
    pub modified_at: Timestamp,
    /// Real name.
    pub real_name: Option<String>,
    /// Display name.
    ///
    /// This can be unofficial name.
    pub display_name: String,
    /// Twitter account (if known).
    pub twitter: Option<String>,
}

} // verus!
