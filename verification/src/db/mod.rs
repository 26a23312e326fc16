//! DB operations.
//!
//! The library never holds a connection.  It says which statement is to run
//! next ([`Statement`]), is told what came back ([`Answer`]) and decides how
//! to go on ([`Step`]).  The host that owns the connection runs each statement
//! and hands the answer in.

use vstd::prelude::*;
use vstd::string::StringExecFns;

pub mod admin;
pub mod get_good_phrases;
pub mod get_rows;
pub mod get_tags_for_phrase;
pub mod laws;
pub mod reconcile;
pub mod statement;
pub mod store;
pub mod upsert_entry;

pub use self::get_good_phrases::GetGoodPhrases;
pub use self::get_rows::{
    GoodPhraseQuery, GoodPhraseRequestQuery, GoodPhraseTagQuery, PersonQuery, PersonUrlQuery,
};
pub use self::get_tags_for_phrase::GetTagsForGoodPhrase;
pub use self::statement::{Answer, Statement, Step};

verus! {

/// Why the database did not carry out a statement.
#[derive(Debug, Clone, PartialEq, Eq, Hash)]
pub enum DbFailure {
    /// A row that had to be there is not.
    NotFound,
    /// The database refused the statement; the text is its own account.
    Rejected(String),
    /// The answer handed in is of another kind than the statement asks for.
    Unexpected,
}

/// DB operation error.
#[derive(Debug, Clone, PartialEq, Eq, Hash)]
pub enum Error {
    /// Connection pool error.
    ConnectionPool(String),
    /// Diesel operation error.
    Db(DbFailure),
}

impl DbFailure {
    /// The failure in words.
    pub open spec fn spec_message(&self) -> Seq<char> {
        match self {
            DbFailure::NotFound => "Record not found"@,
            DbFailure::Rejected(text) => text@,
            DbFailure::Unexpected => "Unexpected answer"@,
        }
    }

    /// The failure in words.
    pub fn message(&self) -> (text: String)
        ensures
            text@ == self.spec_message(),
    {
        match self {
            DbFailure::NotFound => "Record not found".to_owned(),
            DbFailure::Rejected(text) => text.clone(),
            DbFailure::Unexpected => "Unexpected answer".to_owned(),
        }
    }
}

impl Error {
    /// The error in words: what kind it is, then what went wrong.
    pub open spec fn spec_message(&self) -> Seq<char> {
        match self {
            Error::ConnectionPool(text) => "Connection pool error: "@ + text@,
            Error::Db(failure) => "DB operation error: "@ + failure.spec_message(),
        }
    }

    /// The error in words.
    pub fn message(&self) -> (text: String)
        ensures
            text@ == self.spec_message(),
    {
        match self {
            Error::ConnectionPool(text) => "Connection pool error: ".to_owned().concat(
                text.as_str(),
            ),
            Error::Db(failure) => {
                let detail = failure.message();
                "DB operation error: ".to_owned().concat(detail.as_str())
            },
        }
    }

    /// Whether the error says that a row asked for is not there.
    pub fn is_not_found(&self) -> (missing: bool)
        ensures
            missing == (*self == Error::Db(DbFailure::NotFound)),
    {
        match self {
            Error::Db(DbFailure::NotFound) => true,
            _ => false,
        }
    }
}

} // verus!
