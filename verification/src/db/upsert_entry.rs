//! Types for upsert query, and the course that each upsert takes.
//!
//! An upsert is a short conversation with the database.  [`Transaction`]
//! holds where the conversation stands; [`Transaction::advance`] takes the
//! answer to the statement that was run last and says what to do next.  The
//! statements of a phrase or person upsert are meant to run inside one
//! database transaction, which the host commits on `Finish(Ok(..))` and rolls
//! back on `Finish(Err(..))`.

use vstd::prelude::*;

use crate::db::reconcile::{
    absent_from, ids_absent_from, missing_urls, stale_rows, stale_url_rows, urls_to_add,
};
use crate::db::statement::{Answer, Statement, Step};
use crate::db::{DbFailure, Error};
use crate::models::{
    NewGoodPhrase, NewGoodPhraseAndTag, NewGoodPhraseRequest, NewGoodPhraseTag, NewPerson,
    NewPersonUrl,
};
use crate::time::Timestamp;

verus! {

/// A phrase.
#[derive(Debug, Clone, PartialEq, Eq, Hash)]
pub struct GoodPhrase {
    /// Row ID (`None` for new entry)
    pub good_phrase_id: Option<i32>,
    /// Title (short summary).
    pub title: String,
    /// Phrase.
    pub phrase: String,
    /// Author's person id.
    pub person_id: i32,
    /// URL of the phrase if it is posted or published to the WWW.
    pub url: Option<String>,
    /// Whether the source web page is deleted or not.
    pub deleted: bool,
    /// Datetime when the phrase is published.
    pub published_at: Option<Timestamp>,
    /// Tag ids.
    pub tag_ids: Vec<i32>,
}

/// A phrase request
#[derive(Debug, Clone, PartialEq, Eq, Hash)]
pub struct GoodPhraseRequest {
    /// Title (short summary)
    pub title: String,
    /// Phrase.
    pub phrase: String,
    /// Author's name.
    pub person: String,
    /// URL of the phrase if it is posted or published to the WWW.
    pub url: Option<String>,
    /// Whether the source web page is deleted or not.
    pub deleted: bool,
    /// Datetime when the phrase is published.
    pub published_at: Option<Timestamp>,
    /// Tags.
    pub tags: Option<String>,
}

/// A person.
#[derive(Debug, Clone, PartialEq, Eq, Hash)]
pub struct Person {
    /// Row ID (`None` for new entry)
    pub person_id: Option<i32>,
    /// Real name.
    pub real_name: Option<String>,
    /// Display name.
    pub display_name: String,
    /// URLs of web pages of the person.
    pub url: Vec<String>,
    /// Twitter account.
    pub twitter: Option<String>,
}

/// A tag.
#[derive(Debug, Clone, PartialEq, Eq, Hash)]
pub struct GoodPhraseTag {
    /// Row ID (`None` for new entry)
    pub good_phrase_tag_id: Option<i32>,
    /// Name.
    pub name: String,
    /// Description of tag.
    pub description: Option<String>,
}

/// Where an upsert stands: which answer it waits for, and what it still
/// needs to know to go on.
#[derive(Debug, Clone, PartialEq, Eq, Hash)]
pub enum Transaction {
    /// The phrase row is being written: updated if `id` is given, added if
    /// not.
    PhraseWritten { id: Option<i32>, tag_ids: Vec<i32>, now: Timestamp },
    /// The id of the phrase just added is being asked for.
    PhraseRowid { tag_ids: Vec<i32>, now: Timestamp },
    /// The tag ids stored for the phrase are being asked for.
    PhraseTags { id: i32, tag_ids: Vec<i32>, now: Timestamp },
    /// The person row is being written: updated if `id` is given, added if
    /// not.
    PersonWritten { id: Option<i32>, urls: Vec<String>, now: Timestamp },
    /// The id of the person just added is being asked for.
    PersonRowid { urls: Vec<String>, now: Timestamp },
    /// The URL rows stored for the person are being asked for.
    PersonUrls { id: i32, urls: Vec<String>, now: Timestamp },
    /// A statement that brings the stored collection in line is running;
    /// `rest` are those that follow it.
    Applying { rest: Vec<Statement> },
    /// The only statement of the upsert is running.
    Single,
    /// Nothing is left to do.
    Finished,
}

/// What a [`Transaction`] stands for: the same states over sequences.
pub enum Stage {
    PhraseWritten { id: Option<i32>, tag_ids: Seq<i32>, now: Timestamp },
    PhraseRowid { tag_ids: Seq<i32>, now: Timestamp },
    PhraseTags { id: i32, tag_ids: Seq<i32>, now: Timestamp },
    PersonWritten { id: Option<i32>, urls: Seq<String>, now: Timestamp },
    PersonRowid { urls: Seq<String>, now: Timestamp },
    PersonUrls { id: i32, urls: Seq<String>, now: Timestamp },
    Applying { rest: Seq<Statement> },
    Single,
    Finished,
}

impl View for Transaction {
    type V = Stage;

    open spec fn view(&self) -> Stage {
        match self {
            Transaction::PhraseWritten { id, tag_ids, now } => Stage::PhraseWritten {
                id: *id,
                tag_ids: tag_ids@,
                now: *now,
            },
            Transaction::PhraseRowid { tag_ids, now } => Stage::PhraseRowid {
                tag_ids: tag_ids@,
                now: *now,
            },
            Transaction::PhraseTags { id, tag_ids, now } => Stage::PhraseTags {
                id: *id,
                tag_ids: tag_ids@,
                now: *now,
            },
            Transaction::PersonWritten { id, urls, now } => Stage::PersonWritten {
                id: *id,
                urls: urls@,
                now: *now,
            },
            Transaction::PersonRowid { urls, now } => Stage::PersonRowid { urls: urls@, now: *now },
            Transaction::PersonUrls { id, urls, now } => Stage::PersonUrls {
                id: *id,
                urls: urls@,
                now: *now,
            },
            Transaction::Applying { rest } => Stage::Applying { rest: rest@ },
            Transaction::Single => Stage::Single,
            Transaction::Finished => Stage::Finished,
        }
    }
}

/// The statement that takes the association of a phrase with a tag away.
pub open spec fn tag_deletion(id: i32, tag_id: i32) -> Statement {
    Statement::DeletePhraseTag { good_phrase_id: id, good_phrase_tag_id: tag_id }
}

/// The statement that associates a phrase with a tag.
pub open spec fn tag_insertion(id: i32, tag_id: i32, now: Timestamp) -> Statement {
    Statement::InsertPhraseTag(
        NewGoodPhraseAndTag {
            good_phrase_and_tag_id: None,
            created_at: now,
            modified_at: now,
            good_phrase_id: id,
            good_phrase_tag_id: tag_id,
        },
    )
}

/// The statement that takes a URL row away.
pub open spec fn url_deletion(row_id: i32) -> Statement {
    Statement::DeletePersonUrl { person_url_id: row_id }
}

/// The statement that adds a URL to a person.
pub open spec fn url_insertion(id: i32, url: String, now: Timestamp) -> Statement {
    Statement::InsertPersonUrl(
        NewPersonUrl { person_url_id: None, created_at: now, modified_at: now, person_id: id, url },
    )
}

/// The statements that bring the tags stored for a phrase in line with the
/// submitted ones: first one deletion for each stored tag that was not
/// submitted, then one insertion for each submitted tag that is not stored.
/// A tag that is stored or was submitted more than once is named once.
pub open spec fn phrase_plan(
    id: i32,
    current: Seq<i32>,
    tag_ids: Seq<i32>,
    now: Timestamp,
) -> Seq<Statement> {
    let gone = absent_from(current, tag_ids);
    let fresh = absent_from(tag_ids, current);
    Seq::new(gone.len(), |i: int| tag_deletion(id, gone[i])) + Seq::new(
        fresh.len(),
        |i: int| tag_insertion(id, fresh[i], now),
    )
}

/// The statements that bring the URLs stored for a person in line with the
/// submitted ones: first one deletion for each stored row whose URL was not
/// submitted, then one insertion for each submitted URL that no row holds.
/// A URL that was submitted more than once is added once.
pub open spec fn person_plan(
    id: i32,
    rows: Seq<(i32, String)>,
    urls: Seq<String>,
    now: Timestamp,
) -> Seq<Statement> {
    let gone = stale_url_rows(rows, urls);
    let fresh = missing_urls(urls, rows);
    Seq::new(gone.len(), |i: int| url_deletion(gone[i])) + Seq::new(
        fresh.len(),
        |i: int| url_insertion(id, fresh[i], now),
    )
}

/// How an upsert goes on with the statements still to run: the first of
/// them next, or the end if there is none.
pub open spec fn follow(plan: Seq<Statement>) -> (Stage, Step) {
    if plan.len() == 0 {
        (Stage::Finished, Step::Finish(Ok(())))
    } else {
        (Stage::Applying { rest: plan.drop_first() }, Step::Run(plan[0]))
    }
}

/// How an upsert ends when an answer is of the wrong kind.
pub open spec fn derailed() -> (Stage, Step) {
    (Stage::Finished, Step::Finish(Err(Error::Db(DbFailure::Unexpected))))
}

/// The statement that writes the phrase row, and the state in which its
/// answer is awaited.
pub open spec fn phrase_start(msg: GoodPhrase, now: Timestamp) -> (Stage, Statement) {
    (
        Stage::PhraseWritten { id: msg.good_phrase_id, tag_ids: msg.tag_ids@, now },
        match msg.good_phrase_id {
            Some(id) => Statement::UpdatePhrase {
                good_phrase_id: id,
                modified_at: now,
                title: msg.title,
                phrase: msg.phrase,
                person_id: msg.person_id,
                url: msg.url,
                deleted: msg.deleted,
                published_at: msg.published_at,
            },
            None => Statement::InsertPhrase(
                NewGoodPhrase {
                    good_phrase_id: None,
                    created_at: now,
                    modified_at: now,
                    title: msg.title,
                    phrase: msg.phrase,
                    person_id: msg.person_id,
                    url: msg.url,
                    deleted: msg.deleted,
                    published_at: msg.published_at,
                },
            ),
        },
    )
}

/// The statement that writes the person row, and the state in which its
/// answer is awaited.
pub open spec fn person_start(msg: Person, now: Timestamp) -> (Stage, Statement) {
    (
        Stage::PersonWritten { id: msg.person_id, urls: msg.url@, now },
        match msg.person_id {
            Some(id) => Statement::UpdatePerson {
                person_id: id,
                modified_at: now,
                real_name: msg.real_name,
                display_name: msg.display_name,
                twitter: msg.twitter,
            },
            None => Statement::InsertPerson(
                NewPerson {
                    person_id: None,
                    created_at: now,
                    modified_at: now,
                    real_name: msg.real_name,
                    display_name: msg.display_name,
                    twitter: msg.twitter,
                },
            ),
        },
    )
}

/// The one statement of a tag upsert.
pub open spec fn tag_start(msg: GoodPhraseTag, now: Timestamp) -> Statement {
    match msg.good_phrase_tag_id {
        Some(id) => Statement::UpdateTag {
            good_phrase_tag_id: id,
            name: msg.name,
            description: msg.description,
        },
        None => Statement::InsertTag(
            NewGoodPhraseTag {
                good_phrase_tag_id: None,
                created_at: now,
                modified_at: now,
                name: msg.name,
                description: msg.description,
            },
        ),
    }
}

/// The one statement of a phrase request: it adds the request, and nothing
/// else.
pub open spec fn request_start(msg: GoodPhraseRequest) -> Statement {
    Statement::InsertPhraseRequest(
        NewGoodPhraseRequest {
            good_phrase_request_id: None,
            title: msg.title,
            phrase: msg.phrase,
            person: msg.person,
            url: msg.url,
            deleted: msg.deleted,
            published_at: msg.published_at,
            tags: msg.tags,
        },
    )
}

/// How an upsert goes on after an answer.
///
/// A failure ends it with that failure, whatever it waited for.  An answer
/// of another kind than the one awaited ends it as well.  Otherwise the row
/// write is followed by the question for the new id, where there is none yet,
/// then by the question for what is stored, then by the statements that
/// bring the stored collection in line, one after the other.
pub open spec fn advance_spec(stage: Stage, answer: Answer) -> (Stage, Step) {
    match answer {
        Answer::Failed(failure) => (Stage::Finished, Step::Finish(Err(Error::Db(failure)))),
        Answer::Done => match stage {
            Stage::PhraseWritten { id: Some(id), tag_ids, now } => (
                Stage::PhraseTags { id, tag_ids, now },
                Step::Run(Statement::SelectTagIdsOfPhrase { good_phrase_id: id }),
            ),
            Stage::PhraseWritten { id: None, tag_ids, now } => (
                Stage::PhraseRowid { tag_ids, now },
                Step::Run(Statement::LastInsertRowid),
            ),
            Stage::PersonWritten { id: Some(id), urls, now } => (
                Stage::PersonUrls { id, urls, now },
                Step::Run(Statement::SelectUrlsOfPerson { person_id: id }),
            ),
            Stage::PersonWritten { id: None, urls, now } => (
                Stage::PersonRowid { urls, now },
                Step::Run(Statement::LastInsertRowid),
            ),
            Stage::Applying { rest } => follow(rest),
            Stage::Single => (Stage::Finished, Step::Finish(Ok(()))),
            _ => derailed(),
        },
        Answer::Rowid(id) => match stage {
            Stage::PhraseRowid { tag_ids, now } => (
                Stage::PhraseTags { id, tag_ids, now },
                Step::Run(Statement::SelectTagIdsOfPhrase { good_phrase_id: id }),
            ),
            Stage::PersonRowid { urls, now } => (
                Stage::PersonUrls { id, urls, now },
                Step::Run(Statement::SelectUrlsOfPerson { person_id: id }),
            ),
            _ => derailed(),
        },
        Answer::TagIds(current) => match stage {
            Stage::PhraseTags { id, tag_ids, now } => follow(
                phrase_plan(id, current@, tag_ids, now),
            ),
            _ => derailed(),
        },
        Answer::PersonUrls(rows) => match stage {
            Stage::PersonUrls { id, urls, now } => follow(person_plan(id, rows@, urls, now)),
            _ => derailed(),
        },
    }
}

/// The statements that bring the tags stored for a phrase in line with the
/// submitted ones.
pub fn plan_phrase_tags(id: i32, current: &Vec<i32>, tag_ids: &Vec<i32>, now: Timestamp) -> (plan:
    Vec<Statement>)
    ensures
        plan@ == phrase_plan(id, current@, tag_ids@, now),
{
    let gone = ids_absent_from(current, tag_ids);
    let fresh = ids_absent_from(tag_ids, current);
    let mut plan: Vec<Statement> = Vec::new();
    let mut i: usize = 0;
    while i < gone.len()
        invariant
            i <= gone.len(),
            plan@ == Seq::new(i as nat, |k: int| tag_deletion(id, gone@[k])),
        decreases gone.len() - i,
    {
        plan.push(Statement::DeletePhraseTag { good_phrase_id: id, good_phrase_tag_id: gone[i] });
        i += 1;
        proof {
            assert(plan@ =~= Seq::new(i as nat, |k: int| tag_deletion(id, gone@[k])));
        }
    }
    let ghost deletions = plan@;
    let mut j: usize = 0;
    while j < fresh.len()
        invariant
            j <= fresh.len(),
            plan@ == deletions + Seq::new(j as nat, |k: int| tag_insertion(id, fresh@[k], now)),
        decreases fresh.len() - j,
    {
        plan.push(
            Statement::InsertPhraseTag(
                NewGoodPhraseAndTag {
                    good_phrase_and_tag_id: None,
                    created_at: now,
                    modified_at: now,
                    good_phrase_id: id,
                    good_phrase_tag_id: fresh[j],
                },
            ),
        );
        j += 1;
        proof {
            assert(plan@ =~= deletions + Seq::new(
                j as nat,
                |k: int| tag_insertion(id, fresh@[k], now),
            ));
        }
    }
    plan
}

/// The statements that bring the URLs stored for a person in line with the
/// submitted ones.
pub fn plan_person_urls(
    id: i32,
    rows: &Vec<(i32, String)>,
    urls: &Vec<String>,
    now: Timestamp,
) -> (plan: Vec<Statement>)
    ensures
        plan@ == person_plan(id, rows@, urls@, now),
{
    let gone = stale_rows(rows, urls);
    let fresh = urls_to_add(urls, rows);
    let mut plan: Vec<Statement> = Vec::new();
    let mut i: usize = 0;
    while i < gone.len()
        invariant
            i <= gone.len(),
            plan@ == Seq::new(i as nat, |k: int| url_deletion(gone@[k])),
        decreases gone.len() - i,
    {
        plan.push(Statement::DeletePersonUrl { person_url_id: gone[i] });
        i += 1;
        proof {
            assert(plan@ =~= Seq::new(i as nat, |k: int| url_deletion(gone@[k])));
        }
    }
    let ghost deletions = plan@;
    let mut j: usize = 0;
    while j < fresh.len()
        invariant
            j <= fresh.len(),
            plan@ == deletions + Seq::new(j as nat, |k: int| url_insertion(id, fresh@[k], now)),
        decreases fresh.len() - j,
    {
        plan.push(
            Statement::InsertPersonUrl(
                NewPersonUrl {
                    person_url_id: None,
                    created_at: now,
                    modified_at: now,
                    person_id: id,
                    url: fresh[j].clone(),
                },
            ),
        );
        j += 1;
        proof {
            assert(plan@ =~= deletions + Seq::new(
                j as nat,
                |k: int| url_insertion(id, fresh@[k], now),
            ));
        }
    }
    plan
}

/// Goes on with the statements still to run.
fn follow_plan(plan: Vec<Statement>) -> (next: (Transaction, Step))
    ensures
        next.0@ == follow(plan@).0,
        next.1 == follow(plan@).1,
{
    let mut rest = plan;
    if rest.len() == 0 {
        (Transaction::Finished, Step::Finish(Ok(())))
    } else {
        let first = rest.remove(0);
        proof {
            assert(rest@ =~= plan@.drop_first());
        }
        (Transaction::Applying { rest }, Step::Run(first))
    }
}

/// Ends an upsert over an answer of the wrong kind.
fn derail() -> (next: (Transaction, Step))
    ensures
        next.0@ == derailed().0,
        next.1 == derailed().1,
{
    (Transaction::Finished, Step::Finish(Err(Error::Db(DbFailure::Unexpected))))
}

impl Transaction {
    /// Starts the upsert of a phrase: gives the statement that writes the
    /// phrase row, and the state in which its answer is awaited.
    pub fn phrase(msg: GoodPhrase, now: Timestamp) -> (start: (Transaction, Statement))
        ensures
            start.0@ == phrase_start(msg, now).0,
            start.1 == phrase_start(msg, now).1,
    {
        let GoodPhrase {
            good_phrase_id,
            title,
            phrase,
            person_id,
            url,
            deleted,
            published_at,
            tag_ids,
        } = msg;
        let first = match good_phrase_id {
            Some(id) => Statement::UpdatePhrase {
                good_phrase_id: id,
                modified_at: now,
                title,
                phrase,
                person_id,
                url,
                deleted,
                published_at,
            },
            None => Statement::InsertPhrase(
                NewGoodPhrase {
                    good_phrase_id: None,
                    created_at: now,
                    modified_at: now,
                    title,
                    phrase,
                    person_id,
                    url,
                    deleted,
                    published_at,
                },
            ),
        };
        (Transaction::PhraseWritten { id: good_phrase_id, tag_ids, now }, first)
    }

    /// Starts the upsert of a person: gives the statement that writes the
    /// person row, and the state in which its answer is awaited.
    pub fn person(msg: Person, now: Timestamp) -> (start: (Transaction, Statement))
        ensures
            start.0@ == person_start(msg, now).0,
            start.1 == person_start(msg, now).1,
    {
        let Person { person_id, real_name, display_name, url, twitter } = msg;
        let first = match person_id {
            Some(id) => Statement::UpdatePerson {
                person_id: id,
                modified_at: now,
                real_name,
                display_name,
                twitter,
            },
            None => Statement::InsertPerson(
                NewPerson {
                    person_id: None,
                    created_at: now,
                    modified_at: now,
                    real_name,
                    display_name,
                    twitter,
                },
            ),
        };
        (Transaction::PersonWritten { id: person_id, urls: url, now }, first)
    }

    /// Starts the upsert of a tag: gives its one statement.
    pub fn tag(msg: GoodPhraseTag, now: Timestamp) -> (start: (Transaction, Statement))
        ensures
            start.0@ == Stage::Single,
            start.1 == tag_start(msg, now),
    {
        let GoodPhraseTag { good_phrase_tag_id, name, description } = msg;
        let first = match good_phrase_tag_id {
            Some(id) => Statement::UpdateTag { good_phrase_tag_id: id, name, description },
            None => Statement::InsertTag(
                NewGoodPhraseTag {
                    good_phrase_tag_id: None,
                    created_at: now,
                    modified_at: now,
                    name,
                    description,
                },
            ),
        };
        (Transaction::Single, first)
    }

    /// Starts the submission of a phrase request: gives its one statement.
    pub fn request(msg: GoodPhraseRequest) -> (start: (Transaction, Statement))
        ensures
            start.0@ == Stage::Single,
            start.1 == request_start(msg),
    {
        let GoodPhraseRequest { title, phrase, person, url, deleted, published_at, tags } = msg;
        (
            Transaction::Single,
            Statement::InsertPhraseRequest(
                NewGoodPhraseRequest {
                    good_phrase_request_id: None,
                    title,
                    phrase,
                    person,
                    url,
                    deleted,
                    published_at,
                    tags,
                },
            ),
        )
    }

    /// Takes the answer to the statement that was run last and says how to
    /// go on.
    pub fn advance(self, answer: Answer) -> (next: (Transaction, Step))
        ensures
            next.0@ == advance_spec(self@, answer).0,
            next.1 == advance_spec(self@, answer).1,
    {
        match answer {
            Answer::Failed(failure) => (
                Transaction::Finished,
                Step::Finish(Err(Error::Db(failure))),
            ),
            Answer::Done => match self {
                Transaction::PhraseWritten { id: Some(id), tag_ids, now } => (
                    Transaction::PhraseTags { id, tag_ids, now },
                    Step::Run(Statement::SelectTagIdsOfPhrase { good_phrase_id: id }),
                ),
                Transaction::PhraseWritten { id: None, tag_ids, now } => (
                    Transaction::PhraseRowid { tag_ids, now },
                    Step::Run(Statement::LastInsertRowid),
                ),
                Transaction::PersonWritten { id: Some(id), urls, now } => (
                    Transaction::PersonUrls { id, urls, now },
                    Step::Run(Statement::SelectUrlsOfPerson { person_id: id }),
                ),
                Transaction::PersonWritten { id: None, urls, now } => (
                    Transaction::PersonRowid { urls, now },
                    Step::Run(Statement::LastInsertRowid),
                ),
                Transaction::Applying { rest } => follow_plan(rest),
                Transaction::Single => (Transaction::Finished, Step::Finish(Ok(()))),
                _ => derail(),
            },
            Answer::Rowid(id) => match self {
                Transaction::PhraseRowid { tag_ids, now } => (
                    Transaction::PhraseTags { id, tag_ids, now },
                    Step::Run(Statement::SelectTagIdsOfPhrase { good_phrase_id: id }),
                ),
                Transaction::PersonRowid { urls, now } => (
                    Transaction::PersonUrls { id, urls, now },
                    Step::Run(Statement::SelectUrlsOfPerson { person_id: id }),
                ),
                _ => derail(),
            },
            Answer::TagIds(current) => match self {
                Transaction::PhraseTags { id, tag_ids, now } => follow_plan(
                    plan_phrase_tags(id, &current, &tag_ids, now),
                ),
                _ => derail(),
            },
            Answer::PersonUrls(rows) => match self {
                Transaction::PersonUrls { id, urls, now } => follow_plan(
                    plan_person_urls(id, &rows, &urls, now),
                ),
                _ => derail(),
            },
        }
    }
}

} // verus!
