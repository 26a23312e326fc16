//! Handler module for person update form.

use vstd::prelude::*;

use crate::admin::form;
use crate::admin::{look_up, looked_up, Lookup, Page, Reply};
use crate::db::upsert_entry;
use crate::db::Error;
use crate::models;

verus! {

/// The name of the table of persons, as the list page shows it.
pub open spec fn table_name() -> &'static str {
    "\u{767a}\u{8a00}\u{8005}"
}

/// The rows of the list page: id and display name of each person, in their
/// order.
pub open spec fn listed(contents: Seq<models::Person>) -> Seq<(i32, String)> {
    Seq::new(contents.len(), |i: int| (contents[i].person_id, contents[i].display_name))
}

/// What the form page answers, given what the database gave: the person to
/// edit and its URLs where one is edited.  A person that is not there is a
/// fault of the request; anything that could not be read is a fault of the
/// server.
pub open spec fn form_reply(
    edited: Option<(Result<Vec<models::Person>, Error>, Result<Vec<models::PersonUrl>, Error>)>,
) -> Reply {
    match edited {
        Some((person, person_url)) => match looked_up(person) {
            Lookup::Missing => Reply::BadRequest("Person not found"),
            Lookup::Failed => Reply::InternalServerError("DB error"),
            Lookup::Found(row) => match person_url {
                Ok(urls) => Reply::Html(Page::PersonForm { person: Some((row, urls)) }),
                Err(_) => Reply::InternalServerError("DB error"),
            },
        },
        None => Reply::Html(Page::PersonForm { person: None }),
    }
}

/// Processes the request for person registration index.
pub fn index(contents: Result<Vec<models::Person>, Error>) -> (reply: Reply)
    ensures
        contents is Err ==> reply == Reply::InternalServerError("DB Error"),
        contents matches Ok(found) ==> (reply matches Reply::Html(
            Page::List { table_name: name, rows },
        ) && name == table_name() && rows@ == listed(found@)),
{
    match contents {
        Ok(found) => {
            let mut rows: Vec<(i32, String)> = Vec::new();
            let mut i: usize = 0;
            while i < found.len()
                invariant
                    i <= found.len(),
                    rows@ == listed(found@.take(i as int)),
                decreases found.len() - i,
            {
                rows.push((found[i].person_id, found[i].display_name.clone()));
                i += 1;
                proof {
                    assert(rows@ =~= listed(found@.take(i as int)));
                }
            }
            proof {
                assert(found@.take(found.len() as int) =~= found@);
            }
            Reply::Html(Page::List { table_name: "\u{767a}\u{8a00}\u{8005}", rows })
        },
        Err(_) => Reply::InternalServerError("DB Error"),
    }
}

/// Internal implementation for `.../new` and `.../{id}` endpoints with GET
/// method.
pub fn get_impl(
    edited: Option<(Result<Vec<models::Person>, Error>, Result<Vec<models::PersonUrl>, Error>)>,
) -> (reply: Reply)
    ensures
        reply == form_reply(edited),
{
    match edited {
        Some((person, person_url)) => match look_up(person) {
            Lookup::Missing => Reply::BadRequest("Person not found"),
            Lookup::Failed => Reply::InternalServerError("DB error"),
            Lookup::Found(row) => match person_url {
                Ok(urls) => Reply::Html(Page::PersonForm { person: Some((row, urls)) }),
                Err(_) => Reply::InternalServerError("DB error"),
            },
        },
        None => Reply::Html(Page::PersonForm { person: None }),
    }
}

/// Processes the request for new person registration form.
pub fn new() -> (reply: Reply)
    ensures
        reply == Reply::Html(Page::PersonForm { person: None }),
{
    get_impl(None)
}

/// Processes the request for person update form.
pub fn update(
    person: Result<Vec<models::Person>, Error>,
    person_url: Result<Vec<models::PersonUrl>, Error>,
) -> (reply: Reply)
    ensures
        reply == form_reply(Some((person, person_url))),
{
    get_impl(Some((person, person_url)))
}

/// The upsert that a person form asks for, or the answer to a form that
/// asks for none: one without a display name.
pub fn accept(form: &form::Person) -> (accepted: Result<upsert_entry::Person, Reply>)
    ensures
        form.display_name is None ==> accepted == Err::<upsert_entry::Person, Reply>(
            Reply::BadRequest("Display name is required"),
        ),
        form.display_name is Some ==> (accepted matches Ok(person) && {
            &&& person.person_id == form.person_id
            &&& person.real_name == form.real_name
            &&& Some(person.display_name) == form.display_name
            &&& person.url@ == form.url@
            &&& person.twitter == form.twitter
        }),
{
    match form.upsert() {
        Ok(person) => Ok(person),
        Err(_) => Err(Reply::BadRequest("Display name is required")),
    }
}

/// Processes the person update query: says what to answer once the upsert
/// that the form asked for is through.
pub fn post(form: form::Person, saved: Result<(), Error>) -> (reply: Reply)
    ensures
        reply == match saved {
            Ok(_) => Reply::Html(Page::PersonPosted { person: form }),
            Err(_) => Reply::InternalServerError("DB error"),
        },
{
    match saved {
        Ok(_) => Reply::Html(Page::PersonPosted { person: form }),
        Err(_) => Reply::InternalServerError("DB error"),
    }
}

} // verus!
