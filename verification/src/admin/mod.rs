//! DB update service: what the pages of the admin UI answer.
//!
//! Each handler here is the decision of one endpoint: it takes what the
//! database said and gives the answer to send.  Sending, and filling the
//! template that a page names, is the host's business.

use vstd::prelude::*;

use crate::db::Error;
use crate::models;

pub mod form;
pub mod person;
pub mod phrase;
pub mod phrase_request;
pub mod tag;

verus! {

/// A page of the admin UI, with what its template is filled with.
#[allow(inconsistent_fields)]
#[derive(Debug, PartialEq, Eq)]
pub enum Page {
    /// The entry page.
    Index,
    /// The rows of a table: id and label of each.
    List { table_name: &'static str, rows: Vec<(i32, String)> },
    /// The form for a phrase: every tag and person to choose from, and the
    /// phrase with its tags where one is edited.
    PhraseForm {
        all_tag: Vec<models::GoodPhraseTag>,
        all_person: Vec<models::Person>,
        phrase: Option<(models::GoodPhrase, Vec<models::GoodPhraseTag>)>,
    },
    /// A phrase was saved.
    PhrasePosted { phrase: form::Phrase },
    /// The form for a person: the person with its URLs where one is edited.
    PersonForm { person: Option<(models::Person, Vec<models::PersonUrl>)> },
    /// A person was saved.
    PersonPosted { person: form::Person },
    /// The form for a tag: the tag where one is edited.
    TagForm { tag: Option<models::GoodPhraseTag> },
    /// A tag was saved.
    TagPosted { tag: form::Tag },
    /// The phrase requests that visitors sent.
    PhraseRequests { rows: Vec<models::GoodPhraseRequest> },
}

/// What an endpoint answers.
#[derive(Debug, PartialEq, Eq)]
pub enum Reply {
    /// Success, with a page.
    Html(Page),
    /// Success, with nothing to show.
    Done,
    /// The request asks for what cannot be done: an answer of the 400 class.
    BadRequest(&'static str),
    /// The server could not do its part: an answer of the 500 class.
    InternalServerError(&'static str),
}

/// What a lookup by id came to.
#[derive(Debug, PartialEq, Eq)]
pub enum Lookup<T> {
    /// The row.
    Found(T),
    /// There is no such row.
    Missing,
    /// The database could not be asked.
    Failed,
}

impl Page {
    /// The template that shows the page.
    pub open spec fn spec_template(&self) -> &'static str {
        match self {
            Page::Index => "register/index.html",
            Page::List { .. } => "register/list.html",
            Page::PhraseForm { .. } => "register/phrase/update.html",
            Page::PhrasePosted { .. } => "register/phrase/post.html",
            Page::PersonForm { .. } => "register/person/update.html",
            Page::PersonPosted { .. } => "register/person/post.html",
            Page::TagForm { .. } => "register/tag/update.html",
            Page::TagPosted { .. } => "register/tag/post.html",
            Page::PhraseRequests { .. } => "register/phrase_request/phrase_request.html",
        }
    }

    /// The template that shows the page.
    pub fn template(&self) -> (path: &'static str)
        ensures
            path == self.spec_template(),
    {
        match self {
            Page::Index => "register/index.html",
            Page::List { .. } => "register/list.html",
            Page::PhraseForm { .. } => "register/phrase/update.html",
            Page::PhrasePosted { .. } => "register/phrase/post.html",
            Page::PersonForm { .. } => "register/person/update.html",
            Page::PersonPosted { .. } => "register/person/post.html",
            Page::TagForm { .. } => "register/tag/update.html",
            Page::TagPosted { .. } => "register/tag/post.html",
            Page::PhraseRequests { .. } => "register/phrase_request/phrase_request.html",
        }
    }
}

impl Reply {
    /// The class of the HTTP status that the reply is sent with: 2 for
    /// success, 4 for a fault of the request, 5 for a fault of the server.
    pub open spec fn spec_status_class(&self) -> u8 {
        match self {
            Reply::Html(_) => 2,
            Reply::Done => 2,
            Reply::BadRequest(_) => 4,
            Reply::InternalServerError(_) => 5,
        }
    }

    /// The class of the HTTP status that the reply is sent with.
    pub fn status_class(&self) -> (class: u8)
        ensures
            class == self.spec_status_class(),
    {
        match self {
            Reply::Html(_) => 2,
            Reply::Done => 2,
            Reply::BadRequest(_) => 4,
            Reply::InternalServerError(_) => 5,
        }
    }
}

/// What a lookup by id came to, given the rows that the database gave for
/// it: the last of the rows if there is any; no row, or the word of the
/// database that there is none, is a missing row; any other error is a
/// failure.
pub open spec fn looked_up<T>(rows: Result<Vec<T>, Error>) -> Lookup<T> {
    match rows {
        Ok(found) => if found@.len() > 0 {
            Lookup::Found(found@.last())
        } else {
            Lookup::Missing
        },
        Err(error) => if error == Error::Db(crate::db::DbFailure::NotFound) {
            Lookup::Missing
        } else {
            Lookup::Failed
        },
    }
}

/// Says what a lookup by id came to.
pub fn look_up<T>(rows: Result<Vec<T>, Error>) -> (lookup: Lookup<T>)
    ensures
        lookup == looked_up(rows),
{
    match rows {
        Ok(found) => {
            let mut found = found;
            match found.pop() {
                Some(row) => Lookup::Found(row),
                None => Lookup::Missing,
            }
        },
        Err(error) => if error.is_not_found() {
            Lookup::Missing
        } else {
            Lookup::Failed
        },
    }
}

/// Processes the request for DB register form index.
pub fn index() -> (reply: Reply)
    ensures
        reply == Reply::Html(Page::Index),
{
    Reply::Html(Page::Index)
}

} // verus!
