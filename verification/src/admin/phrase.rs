//! Handler module for phrase update form.

use vstd::prelude::*;

use crate::admin::form;
use crate::admin::{look_up, looked_up, Lookup, Page, Reply};
use crate::db::Error;
use crate::models;

verus! {

/// The name of the table of phrases, as the list page shows it.
pub open spec fn table_name() -> &'static str {
    "\u{767a}\u{8a00}"
}

/// The rows of the list page: id and title of each phrase, in their order.
pub open spec fn listed(contents: Seq<models::GoodPhrase>) -> Seq<(i32, String)> {
    Seq::new(contents.len(), |i: int| (contents[i].good_phrase_id, contents[i].title))
}

/// What the form page answers, given what the database gave: the phrase to
/// edit and its tags where one is edited, and every tag and person.  A phrase
/// that is not there is a fault of the request; anything that could not be
/// read is a fault of the server.
pub open spec fn form_reply(
    edited: Option<(Result<Vec<models::GoodPhrase>, Error>, Result<Vec<models::GoodPhraseTag>, Error>)>,
    all_tag: Result<Vec<models::GoodPhraseTag>, Error>,
    all_person: Result<Vec<models::Person>, Error>,
) -> Reply {
    match edited {
        Some((phrase, phrase_tag)) => match looked_up(phrase) {
            Lookup::Missing => Reply::BadRequest("Phrase not found"),
            Lookup::Failed => Reply::InternalServerError("DB error"),
            Lookup::Found(row) => match (phrase_tag, all_tag, all_person) {
                (Ok(tags), Ok(all_tag), Ok(all_person)) => Reply::Html(
                    Page::PhraseForm { all_tag, all_person, phrase: Some((row, tags)) },
                ),
                _ => Reply::InternalServerError("DB error"),
            },
        },
        None => match (all_tag, all_person) {
            (Ok(all_tag), Ok(all_person)) => Reply::Html(
                Page::PhraseForm { all_tag, all_person, phrase: None },
            ),
            _ => Reply::InternalServerError("DB error"),
        },
    }
}

/// Processes the request for phrase registration index.
pub fn index(contents: Result<Vec<models::GoodPhrase>, Error>) -> (reply: Reply)
    ensures
        contents is Err ==> reply == Reply::InternalServerError(""),
        contents matches Ok(found) ==> (reply matches Reply::Html(
            Page::List { table_name: name, rows },
        ) && name == table_name() && rows@ == listed(found@)),
{
    match contents {
        Ok(found) => {
            let mut rows: Vec<(i32, String)> = Vec::new();
            let mut i: usize = 0;
            while i < found.len()
                invariant
                    i <= found.len(),
                    rows@ == listed(found@.take(i as int)),
                decreases found.len() - i,
            {
                rows.push((found[i].good_phrase_id, found[i].title.clone()));
                i += 1;
                proof {
                    assert(rows@ =~= listed(found@.take(i as int)));
                }
            }
            proof {
                assert(found@.take(found.len() as int) =~= found@);
            }
            Reply::Html(Page::List { table_name: "\u{767a}\u{8a00}", rows })
        },
        Err(_) => Reply::InternalServerError(""),
    }
}

/// Internal implementation for `.../new` and `.../{id}` endpoints with GET
/// method.
pub fn get_impl(
    edited: Option<(Result<Vec<models::GoodPhrase>, Error>, Result<Vec<models::GoodPhraseTag>, Error>)>,
    all_tag: Result<Vec<models::GoodPhraseTag>, Error>,
    all_person: Result<Vec<models::Person>, Error>,
) -> (reply: Reply)
    ensures
        reply == form_reply(edited, all_tag, all_person),
{
    match edited {
        Some((phrase, phrase_tag)) => match look_up(phrase) {
            Lookup::Missing => Reply::BadRequest("Phrase not found"),
            Lookup::Failed => Reply::InternalServerError("DB error"),
            Lookup::Found(row) => match (phrase_tag, all_tag, all_person) {
                (Ok(tags), Ok(all_tag), Ok(all_person)) => Reply::Html(
                    Page::PhraseForm { all_tag, all_person, phrase: Some((row, tags)) },
                ),
                _ => Reply::InternalServerError("DB error"),
            },
        },
        None => match (all_tag, all_person) {
            (Ok(all_tag), Ok(all_person)) => Reply::Html(
                Page::PhraseForm { all_tag, all_person, phrase: None },
            ),
            _ => Reply::InternalServerError("DB error"),
        },
    }
}

/// Processes the request for new phrase registration form.
pub fn new(
    all_tag: Result<Vec<models::GoodPhraseTag>, Error>,
    all_person: Result<Vec<models::Person>, Error>,
) -> (reply: Reply)
    ensures
        reply == form_reply(None, all_tag, all_person),
{
    get_impl(None, all_tag, all_person)
}

/// Processes the request for phrase update form.
pub fn update(
    phrase: Result<Vec<models::GoodPhrase>, Error>,
    phrase_tag: Result<Vec<models::GoodPhraseTag>, Error>,
    all_tag: Result<Vec<models::GoodPhraseTag>, Error>,
    all_person: Result<Vec<models::Person>, Error>,
) -> (reply: Reply)
    ensures
        reply == form_reply(Some((phrase, phrase_tag)), all_tag, all_person),
{
    get_impl(Some((phrase, phrase_tag)), all_tag, all_person)
}

/// Processes the phrase update query: says what to answer once the upsert
/// that the form asked for is through.
pub fn post(form: form::Phrase, saved: Result<(), Error>) -> (reply: Reply)
    ensures
        saved is Err ==> reply == Reply::InternalServerError("DB error"),
        saved is Ok ==> (reply matches Reply::Html(Page::PhrasePosted { phrase }) && {
            &&& phrase.phrase@ == crate::text::trimmed(form.phrase@)
            &&& phrase.good_phrase_id == form.good_phrase_id
            &&& phrase.title == form.title
            &&& phrase.person_id == form.person_id
            &&& phrase.url == form.url
            &&& phrase.deleted == form.deleted
            &&& phrase.published_at == form.published_at
            &&& phrase.extra == form.extra
        }),
{
    match saved {
        Ok(_) => Reply::Html(Page::PhrasePosted { phrase: form.shown() }),
        Err(_) => Reply::InternalServerError("DB error"),
    }
}

} // verus!
