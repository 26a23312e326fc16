use burning_pro_server::admin;
use burning_pro_server::admin::form;
use burning_pro_server::admin::{look_up, Lookup, Page, Reply};
use burning_pro_server::db::{DbFailure, Error};
use burning_pro_server::models;
use burning_pro_server::time::Timestamp;

fn at() -> Timestamp {
    Timestamp { secs: 1, nanos: 2 }
}

fn failure() -> Error {
    Error::Db(DbFailure::Rejected("locked".to_string()))
}

fn tag(id: i32, name: &str) -> models::GoodPhraseTag {
    models::GoodPhraseTag {
        good_phrase_tag_id: id,
        created_at: at(),
        modified_at: at(),
        name: name.to_string(),
        description: None,
    }
}

fn person(id: i32, name: &str) -> models::Person {
    models::Person {
        person_id: id,
        created_at: at(),
        modified_at: at(),
        real_name: None,
        display_name: name.to_string(),
        twitter: None,
    }
}

fn phrase(id: i32, title: &str) -> models::GoodPhrase {
    models::GoodPhrase {
        good_phrase_id: id,
        created_at: at(),
        modified_at: at(),
        title: title.to_string(),
        phrase: "said".to_string(),
        person_id: 1,
        url: None,
        deleted: false,
        published_at: None,
    }
}

fn url(id: i32, person_id: i32, url: &str) -> models::PersonUrl {
    models::PersonUrl {
        person_url_id: id,
        created_at: at(),
        modified_at: at(),
        person_id,
        url: url.to_string(),
    }
}

#[test]
fn index_is_the_entry_page() {
    let reply = admin::index();
    assert_eq!(reply, Reply::Html(Page::Index));
    assert_eq!(reply.status_class(), 2);
    assert_eq!(Page::Index.template(), "register/index.html");
}

#[test]
fn lookup_takes_the_last_row() {
    assert_eq!(look_up(Ok(vec![1, 2, 3])), Lookup::Found(3));
    assert_eq!(look_up::<i32>(Ok(vec![])), Lookup::Missing);
    assert_eq!(look_up::<i32>(Err(Error::Db(DbFailure::NotFound))), Lookup::Missing);
    assert_eq!(look_up::<i32>(Err(failure())), Lookup::Failed);
    assert_eq!(look_up::<i32>(Err(Error::ConnectionPool("x".to_string()))), Lookup::Failed);
}

#[test]
fn phrase_index_lists_id_and_title() {
    let reply = admin::phrase::index(Ok(vec![phrase(1, "one"), phrase(2, "two")]));
    assert_eq!(
        reply,
        Reply::Html(Page::List {
            table_name: "\u{767a}\u{8a00}",
            rows: vec![(1, "one".to_string()), (2, "two".to_string())],
        })
    );
    assert_eq!(admin::phrase::index(Err(failure())), Reply::InternalServerError(""));
    assert_eq!(admin::phrase::index(Err(failure())).status_class(), 5);
}

#[test]
fn phrase_form_for_a_new_phrase_offers_tags_and_persons() {
    let reply = admin::phrase::new(Ok(vec![tag(1, "t")]), Ok(vec![person(2, "p")]));
    let page = Page::PhraseForm {
        all_tag: vec![tag(1, "t")],
        all_person: vec![person(2, "p")],
        phrase: None,
    };
    assert_eq!(page.template(), "register/phrase/update.html");
    assert_eq!(reply, Reply::Html(page));
    assert_eq!(
        admin::phrase::new(Err(failure()), Ok(vec![])),
        Reply::InternalServerError("DB error")
    );
    assert_eq!(
        admin::phrase::new(Ok(vec![]), Err(failure())),
        Reply::InternalServerError("DB error")
    );
}

#[test]
fn phrase_form_for_an_update_shows_the_phrase() {
    let reply = admin::phrase::update(
        Ok(vec![phrase(5, "five")]),
        Ok(vec![tag(1, "t")]),
        Ok(vec![tag(1, "t"), tag(2, "u")]),
        Ok(vec![]),
    );
    assert_eq!(
        reply,
        Reply::Html(Page::PhraseForm {
            all_tag: vec![tag(1, "t"), tag(2, "u")],
            all_person: vec![],
            phrase: Some((phrase(5, "five"), vec![tag(1, "t")])),
        })
    );
}

#[test]
fn phrase_that_is_not_there_is_a_bad_request() {
    let missing = admin::phrase::update(Ok(vec![]), Ok(vec![]), Ok(vec![]), Ok(vec![]));
    assert_eq!(missing, Reply::BadRequest("Phrase not found"));
    assert_eq!(missing.status_class(), 4);
    let not_found = admin::phrase::update(
        Err(Error::Db(DbFailure::NotFound)),
        Ok(vec![]),
        Ok(vec![]),
        Ok(vec![]),
    );
    assert_eq!(not_found, Reply::BadRequest("Phrase not found"));
    let failed = admin::phrase::update(Err(failure()), Ok(vec![]), Ok(vec![]), Ok(vec![]));
    assert_eq!(failed, Reply::InternalServerError("DB error"));
    let tags_failed =
        admin::phrase::update(Ok(vec![phrase(5, "five")]), Err(failure()), Ok(vec![]), Ok(vec![]));
    assert_eq!(tags_failed, Reply::InternalServerError("DB error"));
}

fn phrase_form() -> form::Phrase {
    form::Phrase {
        good_phrase_id: None,
        title: "t".to_string(),
        phrase: " said ".to_string(),
        person_id: 1,
        url: None,
        deleted: false,
        published_at: None,
        extra: vec![],
    }
}

#[test]
fn phrase_post_shows_the_saved_form() {
    let mut shown = phrase_form();
    shown.phrase = "said".to_string();
    let page = Page::PhrasePosted { phrase: shown };
    assert_eq!(page.template(), "register/phrase/post.html");
    assert_eq!(admin::phrase::post(phrase_form(), Ok(())), Reply::Html(page));
    assert_eq!(
        admin::phrase::post(phrase_form(), Err(failure())),
        Reply::InternalServerError("DB error")
    );
}

#[test]
fn person_index_lists_id_and_display_name() {
    let reply = admin::person::index(Ok(vec![person(1, "one"), person(2, "two")]));
    assert_eq!(
        reply,
        Reply::Html(Page::List {
            table_name: "\u{767a}\u{8a00}\u{8005}",
            rows: vec![(1, "one".to_string()), (2, "two".to_string())],
        })
    );
    assert_eq!(admin::person::index(Err(failure())), Reply::InternalServerError("DB Error"));
}

#[test]
fn person_form_pages() {
    let empty = Page::PersonForm { person: None };
    assert_eq!(empty.template(), "register/person/update.html");
    assert_eq!(admin::person::new(), Reply::Html(empty));
    assert_eq!(
        admin::person::update(Ok(vec![person(3, "p")]), Ok(vec![url(1, 3, "u")])),
        Reply::Html(Page::PersonForm { person: Some((person(3, "p"), vec![url(1, 3, "u")])) })
    );
    assert_eq!(
        admin::person::update(Ok(vec![]), Ok(vec![])),
        Reply::BadRequest("Person not found")
    );
    assert_eq!(
        admin::person::update(Err(failure()), Ok(vec![])),
        Reply::InternalServerError("DB error")
    );
    assert_eq!(
        admin::person::update(Ok(vec![person(3, "p")]), Err(failure())),
        Reply::InternalServerError("DB error")
    );
}

fn person_form(display_name: Option<&str>) -> form::Person {
    form::Person {
        person_id: Some(3),
        real_name: None,
        display_name: display_name.map(|n| n.to_string()),
        url: vec!["u".to_string()],
        twitter: None,
    }
}

#[test]
fn person_post_needs_a_display_name() {
    assert_eq!(
        admin::person::accept(&person_form(None)),
        Err(Reply::BadRequest("Display name is required"))
    );
    let accepted = admin::person::accept(&person_form(Some("p"))).unwrap();
    assert_eq!(accepted.display_name, "p");
    assert_eq!(accepted.person_id, Some(3));
    assert_eq!(accepted.url, vec!["u".to_string()]);
}

#[test]
fn person_post_shows_the_saved_form() {
    let page = Page::PersonPosted { person: person_form(Some("p")) };
    assert_eq!(page.template(), "register/person/post.html");
    assert_eq!(admin::person::post(person_form(Some("p")), Ok(())), Reply::Html(page));
    assert_eq!(
        admin::person::post(person_form(Some("p")), Err(failure())),
        Reply::InternalServerError("DB error")
    );
}

#[test]
fn tag_pages() {
    assert_eq!(
        admin::tag::index(Ok(vec![tag(1, "one")])),
        Reply::Html(Page::List {
            table_name: "\u{30bf}\u{30b0}",
            rows: vec![(1, "one".to_string())]
        })
    );
    assert_eq!(admin::tag::index(Err(failure())), Reply::InternalServerError("DB error"));
    assert_eq!(admin::tag::new(), Reply::Html(Page::TagForm { tag: None }));
    assert_eq!(
        admin::tag::update(Ok(vec![tag(1, "one")])),
        Reply::Html(Page::TagForm { tag: Some(tag(1, "one")) })
    );
    assert_eq!(admin::tag::update(Ok(vec![])), Reply::BadRequest("Tag not found"));
    assert_eq!(admin::tag::update(Err(failure())), Reply::InternalServerError("DB error"));
    assert_eq!(Page::TagForm { tag: None }.template(), "register/tag/update.html");
}

#[test]
fn tag_post_shows_the_saved_form() {
    let form = form::Tag {
        good_phrase_tag_id: None,
        name: "n".to_string(),
        description: Some(" d ".to_string()),
    };
    let shown = form::Tag {
        good_phrase_tag_id: None,
        name: "n".to_string(),
        description: Some("d".to_string()),
    };
    let page = Page::TagPosted { tag: shown };
    assert_eq!(page.template(), "register/tag/post.html");
    assert_eq!(admin::tag::post(form.clone(), Ok(())), Reply::Html(page));
    assert_eq!(admin::tag::post(form, Err(failure())), Reply::InternalServerError("DB error"));
}

#[test]
fn phrase_request_pages() {
    let row = models::GoodPhraseRequest {
        good_phrase_request_id: 1,
        title: "t".to_string(),
        phrase: "p".to_string(),
        person: "w".to_string(),
        url: None,
        deleted: false,
        published_at: None,
        tags: None,
    };
    let page = Page::PhraseRequests { rows: vec![row.clone()] };
    assert_eq!(page.template(), "register/phrase_request/phrase_request.html");
    assert_eq!(admin::phrase_request::index(Ok(vec![row])), Reply::Html(page));
    assert_eq!(
        admin::phrase_request::index(Err(failure())),
        Reply::InternalServerError("DB Error")
    );
    assert_eq!(admin::phrase_request::post(Ok(())), Reply::Done);
    assert_eq!(Reply::Done.status_class(), 2);
    assert_eq!(
        admin::phrase_request::post(Err(failure())),
        Reply::InternalServerError("DB error")
    );
}
