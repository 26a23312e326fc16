//! Handler module for tag update form.

use vstd::prelude::*;

use crate::admin::form;
use crate::admin::{look_up, looked_up, Lookup, Page, Reply};
use crate::db::Error;
use crate::models;

verus! {

/// The name of the table of tags, as the list page shows it.
pub open spec fn table_name() -> &'static str {
    "\u{30bf}\u{30b0}"
}

/// The rows of the list page: id and name of each tag, in their order.
pub open spec fn listed(contents: Seq<models::GoodPhraseTag>) -> Seq<(i32, String)> {
    Seq::new(contents.len(), |i: int| (contents[i].good_phrase_tag_id, contents[i].name))
}

/// What the form page answers, given what the database gave: the tag to edit
/// where one is edited.  A tag that is not there is a fault of the request;
/// one that could not be read is a fault of the server.
pub open spec fn form_reply(edited: Option<Result<Vec<models::GoodPhraseTag>, Error>>) -> Reply {
    match edited {
        Some(tag) => match looked_up(tag) {
            Lookup::Missing => Reply::BadRequest("Tag not found"),
            Lookup::Failed => Reply::InternalServerError("DB error"),
            Lookup::Found(row) => Reply::Html(Page::TagForm { tag: Some(row) }),
        },
        None => Reply::Html(Page::TagForm { tag: None }),
    }
}

/// Processes the request for tag registration index.
pub fn index(contents: Result<Vec<models::GoodPhraseTag>, Error>) -> (reply: Reply)
    ensures
        contents is Err ==> reply == Reply::InternalServerError("DB error"),
        contents matches Ok(found) ==> (reply matches Reply::Html(
            Page::List { table_name: name, rows },
        ) && name == table_name() && rows@ == listed(found@)),
{
    match contents {
        Ok(found) => {
            let mut rows: Vec<(i32, String)> = Vec::new();
            let mut i: usize = 0;
            while i < found.len()
                invariant
                    i <= found.len(),
                    rows@ == listed(found@.take(i as int)),
                decreases found.len() - i,
            {
                rows.push((found[i].good_phrase_tag_id, found[i].name.clone()));
                i += 1;
                proof {
                    assert(rows@ =~= listed(found@.take(i as int)));
                }
            }
            proof {
                assert(found@.take(found.len() as int) =~= found@);
            }
            Reply::Html(Page::List { table_name: "\u{30bf}\u{30b0}", rows })
        },
        Err(_) => Reply::InternalServerError("DB error"),
    }
}

/// Internal implementation for `.../new` and `.../{id}` endpoints with GET
/// method.
pub fn get_impl(edited: Option<Result<Vec<models::GoodPhraseTag>, Error>>) -> (reply: Reply)
    ensures
        reply == form_reply(edited),
{
    match edited {
        Some(tag) => match look_up(tag) {
            Lookup::Missing => Reply::BadRequest("Tag not found"),
            Lookup::Failed => Reply::InternalServerError("DB error"),
            Lookup::Found(row) => Reply::Html(Page::TagForm { tag: Some(row) }),
        },
        None => Reply::Html(Page::TagForm { tag: None }),
    }
}

/// Processes the request for new tag registration form.
pub fn new() -> (reply: Reply)
    ensures
        reply == Reply::Html(Page::TagForm { tag: None }),
{
    get_impl(None)
}

/// Processes the request for tag update form.
pub fn update(tag: Result<Vec<models::GoodPhraseTag>, Error>) -> (reply: Reply)
    ensures
        reply == form_reply(Some(tag)),
{
    get_impl(Some(tag))
}

/// Processes the tag update query: says what to answer once the upsert that
/// the form asked for is through.
pub fn post(form: form::Tag, saved: Result<(), Error>) -> (reply: Reply)
    ensures
        saved is Err ==> reply == Reply::InternalServerError("DB error"),
        saved is Ok ==> (reply matches Reply::Html(Page::TagPosted { tag }) && {
            &&& tag.good_phrase_tag_id == form.good_phrase_tag_id
            &&& tag.name == form.name
            &&& tag.description is Some == form.description is Some
            &&& form.description matches Some(text) ==> tag.description->0@
                == crate::text::trimmed(text@)
        }),
{
    match saved {
        Ok(_) => Reply::Html(Page::TagPosted { tag: form.shown() }),
        Err(_) => Reply::InternalServerError("DB error"),
    }
}

} // verus!
