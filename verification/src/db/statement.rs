//! What the library asks of the database, and what it is told.

use vstd::prelude::*;

use crate::db::{DbFailure, Error};
use crate::models::{
    NewGoodPhrase, NewGoodPhraseAndTag, NewGoodPhraseRequest, NewGoodPhraseTag, NewPerson,
    NewPersonUrl,
};
use crate::time::Timestamp;

verus! {

/// One relational operation, to be run on the connection of the host.
#[derive(Debug, Clone, PartialEq, Eq, Hash)]
pub enum Statement {
    /// Overwrite the columns of the phrase with the given id, but for its
    /// creation time.
    UpdatePhrase {
        good_phrase_id: i32,
        modified_at: Timestamp,
        title: String,
        phrase: String,
        person_id: i32,
        url: Option<String>,
        deleted: bool,
        published_at: Option<Timestamp>,
    },
    /// Add a phrase.
    InsertPhrase(NewGoodPhrase),
    /// Ask for the id of the row that the connection added last.
    LastInsertRowid,
    /// Ask for the tag ids that the phrase is associated with.
    SelectTagIdsOfPhrase { good_phrase_id: i32 },
    /// Remove every association of the phrase with the tag.
    DeletePhraseTag { good_phrase_id: i32, good_phrase_tag_id: i32 },
    /// Associate a phrase with a tag.
    InsertPhraseTag(NewGoodPhraseAndTag),
    /// Overwrite the columns of the person with the given id, but for its
    /// creation time.
    UpdatePerson {
        person_id: i32,
        modified_at: Timestamp,
        real_name: Option<String>,
        display_name: String,
        twitter: Option<String>,
    },
    /// Add a person.
    InsertPerson(NewPerson),
    /// Ask for the URL rows of the person: row id and URL of each.
    SelectUrlsOfPerson { person_id: i32 },
    /// Remove the URL row with the given id.
    DeletePersonUrl { person_url_id: i32 },
    /// Add a URL to a person.
    InsertPersonUrl(NewPersonUrl),
    /// Overwrite name and description of the tag with the given id.
    UpdateTag { good_phrase_tag_id: i32, name: String, description: Option<String> },
    /// Add a tag.
    InsertTag(NewGoodPhraseTag),
    /// Add a phrase request.
    InsertPhraseRequest(NewGoodPhraseRequest),
}

/// What the database made of a statement.
#[derive(Debug, Clone, PartialEq, Eq, Hash)]
pub enum Answer {
    /// A statement that changes rows went through.
    Done,
    /// The id that was asked for.
    Rowid(i32),
    /// The tag ids that were asked for, in the order the database gave them.
    TagIds(Vec<i32>),
    /// The URL rows that were asked for, in the order the database gave them.
    PersonUrls(Vec<(i32, String)>),
    /// The statement failed.
    Failed(DbFailure),
}

/// How to go on after an answer.
#[derive(Debug, PartialEq, Eq)]
pub enum Step {
    /// Run this statement and hand its answer in.
    Run(Statement),
    /// Nothing is left to run.  `Ok`: keep what was done.  `Err`: undo it.
    Finish(Result<(), Error>),
}

impl Statement {
    /// Whether the statement only reads.
    pub open spec fn is_query(&self) -> bool {
        match self {
            Statement::LastInsertRowid => true,
            Statement::SelectTagIdsOfPhrase { .. } => true,
            Statement::SelectUrlsOfPerson { .. } => true,
            _ => false,
        }
    }
}

} // verus!
