//! A model of the database: what each statement does to the tables, and
//! which answers are true of them.
//!
//! Nothing here runs.  The model is what the laws of the upserts are stated
//! and proved against: a table is a map from row id to row, a statement that
//! goes through turns one store into the next, and a run of an upsert is the
//! conversation between [`advance_spec`] and a store that answers truly or
//! fails.

use vstd::prelude::*;

use crate::db::statement::{Answer, Statement, Step};
use crate::db::upsert_entry::{advance_spec, Stage};
use crate::db::Error;
use crate::models::{
    GoodPhrase, GoodPhraseAndTag, GoodPhraseRequest, GoodPhraseTag, Person, PersonUrl,
};

verus! {

/// The tables, each a map from row id to row, and the id of the row that the
/// connection added last.
pub struct Store {
    pub phrases: Map<i32, GoodPhrase>,
    pub phrase_tags: Map<i32, GoodPhraseAndTag>,
    pub persons: Map<i32, Person>,
    pub person_urls: Map<i32, PersonUrl>,
    pub tags: Map<i32, GoodPhraseTag>,
    pub requests: Map<i32, GoodPhraseRequest>,
    pub last_rowid: i32,
}

/// Some row id that the table does not use, if there is one.
pub open spec fn unused_key<R>(rows: Map<i32, R>) -> i32 {
    choose|k: i32| !rows.contains_key(k)
}

/// The id under which a new row goes into a table: the one it asks for, or
/// one that the table does not use.
pub open spec fn new_key<R>(rows: Map<i32, R>, wanted: Option<i32>) -> i32 {
    match wanted {
        Some(k) => k,
        None => unused_key(rows),
    }
}

/// Whether a new row can go into a table: its id must be free.
pub open spec fn can_insert<R>(rows: Map<i32, R>, wanted: Option<i32>) -> bool {
    !rows.contains_key(new_key(rows, wanted))
}

/// How a run of an upsert ends.
pub enum Outcome {
    /// Every statement went through; the store is what they left.
    Committed(Store),
    /// The upsert gave up; the store is as it was before.
    RolledBack(Error),
    /// The answers ran out before the upsert was done.
    Unfinished,
    /// An answer was not true of the store, or answers were left over.
    Unfaithful,
}

impl Store {
    /// Whether the phrase is associated with the tag.
    pub open spec fn associates(self, phrase_id: i32, tag_id: i32) -> bool {
        exists|k: i32|
            #![trigger self.phrase_tags[k]]
            self.phrase_tags.contains_key(k) && self.phrase_tags[k].good_phrase_id == phrase_id
                && self.phrase_tags[k].good_phrase_tag_id == tag_id
    }

    /// The tags that the phrase is associated with.
    pub open spec fn tags_of(self, phrase_id: i32) -> Set<i32> {
        Set::new(|t: i32| self.associates(phrase_id, t))
    }

    /// Whether the row with the given id is a URL row of the person and reads
    /// `url`.
    pub open spec fn holds_url_row(self, person_id: i32, row_id: i32, url: Seq<char>) -> bool {
        self.person_urls.contains_key(row_id) && self.person_urls[row_id].person_id == person_id
            && self.person_urls[row_id].url@ == url
    }

    /// Whether the person has the URL.
    pub open spec fn has_url(self, person_id: i32, url: Seq<char>) -> bool {
        exists|k: i32| #[trigger] self.holds_url_row(person_id, k, url)
    }

    /// The URLs that the person has.
    pub open spec fn urls_of(self, person_id: i32) -> Set<Seq<char>> {
        Set::new(|u: Seq<char>| self.has_url(person_id, u))
    }

    /// Whether the statement can go through.  Only adding a row can be
    /// impossible: when the id it is to get is taken.
    pub open spec fn accepts(self, stmt: Statement) -> bool {
        match stmt {
            Statement::InsertPhrase(row) => can_insert(self.phrases, row.good_phrase_id),
            Statement::InsertPhraseTag(row) => can_insert(
                self.phrase_tags,
                row.good_phrase_and_tag_id,
            ),
            Statement::InsertPerson(row) => can_insert(self.persons, row.person_id),
            Statement::InsertPersonUrl(row) => can_insert(self.person_urls, row.person_url_id),
            Statement::InsertTag(row) => can_insert(self.tags, row.good_phrase_tag_id),
            Statement::InsertPhraseRequest(row) => can_insert(
                self.requests,
                row.good_phrase_request_id,
            ),
            _ => true,
        }
    }

    /// The store that a statement leaves when it goes through.
    pub open spec fn effect(self, stmt: Statement) -> Store {
        match stmt {
            Statement::UpdatePhrase {
                good_phrase_id,
                modified_at,
                title,
                phrase,
                person_id,
                url,
                deleted,
                published_at,
            } => if self.phrases.contains_key(good_phrase_id) {
                Store {
                    phrases: self.phrases.insert(
                        good_phrase_id,
                        GoodPhrase {
                            good_phrase_id,
                            created_at: self.phrases[good_phrase_id].created_at,
                            modified_at,
                            title,
                            phrase,
                            person_id,
                            url,
                            deleted,
                            published_at,
                        },
                    ),
                    ..self
                }
            } else {
                self
            },
            Statement::InsertPhrase(row) => {
                let k = new_key(self.phrases, row.good_phrase_id);
                Store {
                    phrases: self.phrases.insert(
                        k,
                        GoodPhrase {
                            good_phrase_id: k,
                            created_at: row.created_at,
                            modified_at: row.modified_at,
                            title: row.title,
                            phrase: row.phrase,
                            person_id: row.person_id,
                            url: row.url,
                            deleted: row.deleted,
                            published_at: row.published_at,
                        },
                    ),
                    last_rowid: k,
                    ..self
                }
            },
            Statement::LastInsertRowid => self,
            Statement::SelectTagIdsOfPhrase { .. } => self,
            Statement::DeletePhraseTag { good_phrase_id, good_phrase_tag_id } => Store {
                phrase_tags: self.phrase_tags.remove_keys(
                    Set::new(
                        |k: i32|
                            self.phrase_tags.contains_key(k) && self.phrase_tags[k].good_phrase_id
                                == good_phrase_id && self.phrase_tags[k].good_phrase_tag_id
                                == good_phrase_tag_id,
                    ),
                ),
                ..self
            },
            Statement::InsertPhraseTag(row) => {
                let k = new_key(self.phrase_tags, row.good_phrase_and_tag_id);
                Store {
                    phrase_tags: self.phrase_tags.insert(
                        k,
                        GoodPhraseAndTag {
                            good_phrase_and_tag_id: k,
                            created_at: row.created_at,
                            modified_at: row.modified_at,
                            good_phrase_id: row.good_phrase_id,
                            good_phrase_tag_id: row.good_phrase_tag_id,
                        },
                    ),
                    last_rowid: k,
                    ..self
                }
            },
            Statement::UpdatePerson { person_id, modified_at, real_name, display_name, twitter } => {
                if self.persons.contains_key(person_id) {
                    Store {
                        persons: self.persons.insert(
                            person_id,
                            Person {
                                person_id,
                                created_at: self.persons[person_id].created_at,
                                modified_at,
                                real_name,
                                display_name,
                                twitter,
                            },
                        ),
                        ..self
                    }
                } else {
                    self
                }
            },
            Statement::InsertPerson(row) => {
                let k = new_key(self.persons, row.person_id);
                Store {
                    persons: self.persons.insert(
                        k,
                        Person {
                            person_id: k,
                            created_at: row.created_at,
                            modified_at: row.modified_at,
                            real_name: row.real_name,
                            display_name: row.display_name,
                            twitter: row.twitter,
                        },
                    ),
                    last_rowid: k,
                    ..self
                }
            },
            Statement::SelectUrlsOfPerson { .. } => self,
            Statement::DeletePersonUrl { person_url_id } => Store {
                person_urls: self.person_urls.remove(person_url_id),
                ..self
            },
            Statement::InsertPersonUrl(row) => {
                let k = new_key(self.person_urls, row.person_url_id);
                Store {
                    person_urls: self.person_urls.insert(
                        k,
                        PersonUrl {
                            person_url_id: k,
                            created_at: row.created_at,
                            modified_at: row.modified_at,
                            person_id: row.person_id,
                            url: row.url,
                        },
                    ),
                    last_rowid: k,
                    ..self
                }
            },
            Statement::UpdateTag { good_phrase_tag_id, name, description } => {
                if self.tags.contains_key(good_phrase_tag_id) {
                    Store {
                        tags: self.tags.insert(
                            good_phrase_tag_id,
                            GoodPhraseTag {
                                good_phrase_tag_id,
                                created_at: self.tags[good_phrase_tag_id].created_at,
                                modified_at: self.tags[good_phrase_tag_id].modified_at,
                                name,
                                description,
                            },
                        ),
                        ..self
                    }
                } else {
                    self
                }
            },
            Statement::InsertTag(row) => {
                let k = new_key(self.tags, row.good_phrase_tag_id);
                Store {
                    tags: self.tags.insert(
                        k,
                        GoodPhraseTag {
                            good_phrase_tag_id: k,
                            created_at: row.created_at,
                            modified_at: row.modified_at,
                            name: row.name,
                            description: row.description,
                        },
                    ),
                    last_rowid: k,
                    ..self
                }
            },
            Statement::InsertPhraseRequest(row) => {
                let k = new_key(self.requests, row.good_phrase_request_id);
                Store {
                    requests: self.requests.insert(
                        k,
                        GoodPhraseRequest {
                            good_phrase_request_id: k,
                            title: row.title,
                            phrase: row.phrase,
                            person: row.person,
                            url: row.url,
                            deleted: row.deleted,
                            published_at: row.published_at,
                            tags: row.tags,
                        },
                    ),
                    last_rowid: k,
                    ..self
                }
            },
        }
    }

    /// Whether an answer is a true answer of this store to a statement that
    /// went through.  A question is answered with what the tables hold, in
    /// any order and with any repetition; everything else with `Done`.
    pub open spec fn answers(self, stmt: Statement, answer: Answer) -> bool {
        match stmt {
            Statement::LastInsertRowid => answer == Answer::Rowid(self.last_rowid),
            Statement::SelectTagIdsOfPhrase { good_phrase_id } => {
                &&& answer is TagIds
                &&& forall|t: i32|
                    #![trigger answer->TagIds_0@.contains(t)]
                    #![trigger self.associates(good_phrase_id, t)]
                    answer->TagIds_0@.contains(t) <==> self.associates(good_phrase_id, t)
            },
            Statement::SelectUrlsOfPerson { person_id } => {
                &&& answer is PersonUrls
                &&& forall|i: int|
                    0 <= i < answer->PersonUrls_0@.len() ==> self.holds_url_row(
                        person_id,
                        (#[trigger] answer->PersonUrls_0@[i]).0,
                        answer->PersonUrls_0@[i].1@,
                    )
                &&& forall|k: i32, u: Seq<char>| #[trigger]
                    self.holds_url_row(person_id, k, u) ==> exists|i: int|
                        0 <= i < answer->PersonUrls_0@.len() && (
                        #[trigger] answer->PersonUrls_0@[i]).0 == k
            },
            _ => answer == Answer::Done && self.accepts(stmt),
        }
    }

    /// The store that a list of statements leaves when each goes through.
    pub open spec fn apply_all(self, stmts: Seq<Statement>) -> Store
        decreases stmts.len(),
    {
        if stmts.len() == 0 {
            self
        } else {
            self.effect(stmts[0]).apply_all(stmts.drop_first())
        }
    }

    /// Whether each of a list of statements can go through, one after the
    /// other.
    pub open spec fn accepts_all(self, stmts: Seq<Statement>) -> bool
        decreases stmts.len(),
    {
        stmts.len() == 0 || (self.accepts(stmts[0]) && self.effect(stmts[0]).accepts_all(
            stmts.drop_first(),
        ))
    }
}

/// A run of an upsert against a store: `stmt` is the statement that is
/// running, `stage` where the upsert stands, and `answers` what the database
/// says from here on.  An answer that is a failure needs no backing by the
/// store; any other has to be true of it.
pub open spec fn run(stage: Stage, stmt: Statement, store: Store, answers: Seq<Answer>) -> Outcome
    decreases answers.len(),
{
    if answers.len() == 0 {
        Outcome::Unfinished
    } else {
        let answer = answers[0];
        let next = advance_spec(stage, answer);
        if !(answer is Failed) && !store.answers(stmt, answer) {
            Outcome::Unfaithful
        } else {
            match next.1 {
                Step::Finish(Err(error)) => Outcome::RolledBack(error),
                Step::Finish(Ok(_)) => if answers.len() == 1 {
                    Outcome::Committed(store.effect(stmt))
                } else {
                    Outcome::Unfaithful
                },
                Step::Run(following) => run(
                    next.0,
                    following,
                    store.effect(stmt),
                    answers.drop_first(),
                ),
            }
        }
    }
}

/// Whether the statement that is running is of the kind that the upsert
/// waits for where it stands: a question where it waits for what is stored,
/// a statement that changes rows everywhere else.
pub open spec fn awaits(stage: Stage, stmt: Statement) -> bool {
    match stage {
        Stage::PhraseWritten { .. } => !stmt.is_query(),
        Stage::PhraseRowid { .. } => stmt == Statement::LastInsertRowid,
        Stage::PhraseTags { .. } => stmt is SelectTagIdsOfPhrase,
        Stage::PersonWritten { .. } => !stmt.is_query(),
        Stage::PersonRowid { .. } => stmt == Statement::LastInsertRowid,
        Stage::PersonUrls { .. } => stmt is SelectUrlsOfPerson,
        Stage::Applying { rest } => !stmt.is_query() && forall|i: int|
            0 <= i < rest.len() ==> !(#[trigger] rest[i]).is_query(),
        Stage::Single => !stmt.is_query(),
        Stage::Finished => false,
    }
}

/// Whether the database plays its part in a run: none of its answers is a
/// failure, each is true of the store at the time it is given, and they end
/// where the upsert ends, neither before nor after.
pub open spec fn faithful(stage: Stage, stmt: Statement, store: Store, answers: Seq<Answer>) -> bool
    decreases answers.len(),
{
    &&& answers.len() > 0
    &&& !(answers[0] is Failed)
    &&& store.answers(stmt, answers[0])
    &&& match advance_spec(stage, answers[0]).1 {
        Step::Run(following) => faithful(
            advance_spec(stage, answers[0]).0,
            following,
            store.effect(stmt),
            answers.drop_first(),
        ),
        Step::Finish(_) => answers.len() == 1,
    }
}

} // verus!
