//! Models: the rows of the tables, as they are read.

use vstd::prelude::*;

use crate::time::Timestamp;

pub mod update;

pub use self::update::{
    NewGoodPhrase, NewGoodPhraseAndTag, NewGoodPhraseRequest, NewGoodPhraseTag, NewPerson,
    NewPersonUrl,
};

verus! {

/// GoodPhrase tag.
#[derive(Debug, Clone, PartialEq, Eq, Hash)]
pub struct GoodPhraseTag {
    /// Row ID.
    pub good_phrase_tag_id: i32,
    /// UTC datetime the row is created at.
    pub created_at: Timestamp,
    /// UTC datetime the row is last modified at.
    pub modified_at: Timestamp,
    /// Tag name.
    pub name: String,
    /// Tag description.
    pub description: Option<String>,
}

/// GoodPhrase.
#[derive(Debug, Clone, PartialEq, Eq, Hash)]
pub struct GoodPhrase {
    /// Row ID.
    pub good_phrase_id: i32,
    /// UTC datetime the row is created at.
    pub created_at: Timestamp,
    /// UTC datetime the row is last modified at.
    pub modified_at: Timestamp,
    /// Title.
    pub title: String,
    /// Phrase.
    pub phrase: String,
    /// Person ID of the author.
    pub person_id: i32,
    /// URL of the phrase if exists.
    pub url: Option<String>,
    /// Whether the phrase is deleted.
    pub deleted: bool,
    /// UTC datetime the phrase is published at (if known).
    pub published_at: Option<Timestamp>,
}

/// GoodPhrase and tag.
#[derive(Debug, Clone, Copy, PartialEq, Eq, Hash, Structural)]
pub struct GoodPhraseAndTag {
    /// Row ID.
    pub good_phrase_and_tag_id: i32,
    /// UTC datetime the row is created at.
    pub created_at: Timestamp,
    /// UTC datetime the row is last modified at.
    pub modified_at: Timestamp,
    /// GoodPhrase ID.
    pub good_phrase_id: i32,
    /// GoodPhrase tag ID.
    pub good_phrase_tag_id: i32,
}

/// Person and URL.
#[derive(Debug, Clone, PartialEq, Eq, Hash)]
pub struct PersonUrl {
    /// Row ID.
    pub person_url_id: i32,
    /// UTC datetime the row is created at.
    pub created_at: Timestamp,
    /// UTC datetime the row is last modified at.
    pub modified_at: Timestamp,
    /// Person ID.
    pub person_id: i32,
    /// URL.
    pub url: String,
}

/// Person.
#[derive(Debug, Clone, PartialEq, Eq, Hash)]
pub struct Person {
    /// Row ID.
    pub person_id: i32,
    /// UTC datetime the row is created at.
    pub created_at: Timestamp,
    /// UTC datetime the row is last modified at.
    pub modified_at: Timestamp,
    /// Real name.
    pub real_name: Option<String>,
    /// Display name.
    ///
    /// This can be unofficial name.
    pub display_name: String,
    /// Twitter account (if known).
    pub twitter: Option<String>,
}

/// GoodPhraseRequest.
#[derive(Debug, Clone, PartialEq, Eq, Hash)]
pub struct GoodPhraseRequest {
    /// Row ID.
    pub good_phrase_request_id: i32,
    /// Title.
    pub title: String,
    /// Phrase.
    pub phrase: String,
    /// Author.
    pub person: String,
    /// URL of the phrase if exists.
    pub url: Option<String>,
    /// Whether the phrase is deleted.
    pub deleted: bool,
    /// UTC datetime the phrase is published at (if known).
    pub published_at: Option<Timestamp>,
    /// Tags, as the visitor wrote them.
    pub tags: Option<String>,
}

} // verus!
