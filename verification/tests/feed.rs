use burning_pro_server::app::{AdminAuthenticator, AppStateBuilder, BuildError};
use burning_pro_server::db::admin::UpsertTableRows;
use burning_pro_server::db::{
    DbFailure, Error, GetTagsForGoodPhrase, GoodPhraseQuery, GoodPhraseTagQuery, PersonQuery,
    PersonUrlQuery,
};
use burning_pro_server::good_phrase;
use burning_pro_server::good_phrase::response;
use burning_pro_server::good_phrase::FeedReply;
use burning_pro_server::models;
use burning_pro_server::time::{LocalTimestamp, Timestamp, FEED_OFFSET_SECS};

fn at(secs: i64) -> Timestamp {
    Timestamp { secs, nanos: 0 }
}

fn shown(secs: i64) -> LocalTimestamp {
    LocalTimestamp { utc: at(secs), offset_secs: 9 * 60 * 60 }
}

fn phrase_row() -> models::GoodPhrase {
    models::GoodPhrase {
        good_phrase_id: 5,
        created_at: at(100),
        modified_at: at(200),
        title: "title".to_string(),
        phrase: "said".to_string(),
        person_id: 3,
        url: Some("https://example.com/p".to_string()),
        deleted: true,
        published_at: Some(at(50)),
    }
}

fn person_row() -> models::Person {
    models::Person {
        person_id: 3,
        created_at: at(10),
        modified_at: at(20),
        real_name: Some("Real".to_string()),
        display_name: "Shown".to_string(),
        twitter: None,
    }
}

fn url_row(id: i32, url: &str) -> models::PersonUrl {
    models::PersonUrl {
        person_url_id: id,
        created_at: at(1),
        modified_at: at(1),
        person_id: 3,
        url: url.to_string(),
    }
}

fn link(id: i32, phrase_id: i32, tag_id: i32) -> models::GoodPhraseAndTag {
    models::GoodPhraseAndTag {
        good_phrase_and_tag_id: id,
        created_at: at(1),
        modified_at: at(1),
        good_phrase_id: phrase_id,
        good_phrase_tag_id: tag_id,
    }
}

fn tag_row(id: i32, name: &str) -> models::GoodPhraseTag {
    models::GoodPhraseTag {
        good_phrase_tag_id: id,
        created_at: at(1),
        modified_at: at(1),
        name: name.to_string(),
        description: None,
    }
}

fn entry() -> response::GoodPhrase {
    response::GoodPhrase::assemble(
        &phrase_row(),
        &person_row(),
        &vec![url_row(1, "https://a.example"), url_row(2, "https://b.example")],
        &vec![(link(1, 5, 8), tag_row(8, "wise")), (link(2, 5, 9), tag_row(9, "short"))],
    )
}

#[test]
fn feed_offset_is_nine_hours() {
    assert_eq!(FEED_OFFSET_SECS, 32400);
    assert_eq!(LocalTimestamp::for_feed(at(7)), shown(7));
}

#[test]
fn feed_entry_is_put_together_from_the_rows() {
    assert_eq!(
        entry(),
        response::GoodPhrase {
            phrase: response::Phrase {
                internal_id: 5,
                title: "title".to_string(),
                phrase: "said".to_string(),
                created: shown(100),
                url: Some("https://example.com/p".to_string()),
                deleted: true,
                datetime: Some(shown(50)),
            },
            person: response::Person {
                internal_id: 3,
                created: shown(10),
                real_name: Some("Real".to_string()),
                display_name: "Shown".to_string(),
                url: vec!["https://a.example".to_string(), "https://b.example".to_string()],
                twitter: None,
            },
            sys_meta: response::SysMeta {
                use_count: 5,
                fav_count: 3,
                tags: vec!["wise".to_string(), "short".to_string()],
            },
            user_meta: response::UserMeta {
                favorite: true,
                use_count: 2,
                mylists: vec!["\u{8a00}\u{3044}\u{8a33}\u{7528}".to_string()],
            },
        }
    );
}

#[test]
fn feed_entry_without_urls_and_tags() {
    let mut row = phrase_row();
    row.published_at = None;
    let entry = response::GoodPhrase::assemble(&row, &person_row(), &vec![], &vec![]);
    assert_eq!(entry.person.url, Vec::<String>::new());
    assert_eq!(entry.sys_meta.tags, Vec::<String>::new());
    assert_eq!(entry.phrase.datetime, None);
}

#[test]
fn feed_answers_with_the_phrases_or_an_internal_error() {
    assert_eq!(good_phrase::index(Ok(vec![entry()])), FeedReply::Json(vec![entry()]));
    assert_eq!(
        good_phrase::index(Err(Error::Db(DbFailure::Rejected("locked".to_string())))),
        FeedReply::InternalServerError
    );
    assert_eq!(
        good_phrase::index(Err(Error::ConnectionPool("timed out".to_string()))),
        FeedReply::InternalServerError
    );
}

#[test]
fn queries_select_their_rows() {
    assert!(GoodPhraseQuery::All.selects(&phrase_row()));
    assert!(GoodPhraseQuery::PhraseId(5).selects(&phrase_row()));
    assert!(!GoodPhraseQuery::PhraseId(6).selects(&phrase_row()));
    assert!(PersonQuery::All.selects(&person_row()));
    assert!(PersonQuery::PersonId(3).selects(&person_row()));
    assert!(!PersonQuery::PersonId(5).selects(&person_row()));
    assert!(PersonUrlQuery::All.selects(&url_row(1, "u")));
    assert!(PersonUrlQuery::PersonId(3).selects(&url_row(1, "u")));
    assert!(!PersonUrlQuery::PersonId(1).selects(&url_row(1, "u")));
}

#[test]
fn tag_query_follows_the_associations() {
    let links = vec![link(1, 5, 8), link(2, 6, 9)];
    assert!(GoodPhraseTagQuery::All.selects(&tag_row(7, "t"), &links));
    assert!(GoodPhraseTagQuery::PhraseId(5).selects(&tag_row(8, "t"), &links));
    assert!(!GoodPhraseTagQuery::PhraseId(5).selects(&tag_row(9, "t"), &links));
    assert!(GoodPhraseTagQuery::PhraseId(6).selects(&tag_row(9, "t"), &links));
    assert!(!GoodPhraseTagQuery::PhraseId(7).selects(&tag_row(8, "t"), &links));
    assert!(GoodPhraseTagQuery::TagId(8).selects(&tag_row(8, "t"), &vec![]));
    assert!(!GoodPhraseTagQuery::TagId(8).selects(&tag_row(9, "t"), &links));
}

#[test]
fn tags_for_phrase_message_asks_by_phrase() {
    let msg = GetTagsForGoodPhrase::new(12);
    assert_eq!(msg.good_phrase_id(), 12);
    assert_eq!(msg.query(), GoodPhraseTagQuery::PhraseId(12));
}

#[test]
fn upsert_table_rows_collects_rows() {
    let mut msg: UpsertTableRows<i32> = UpsertTableRows::new();
    assert_eq!(msg.len(), 0);
    msg.extend(vec![1, 2]);
    msg.extend(vec![]);
    msg.extend(vec![3]);
    assert_eq!(msg.len(), 3);
    assert_eq!(msg.into_rows(), vec![1, 2, 3]);
    assert_eq!(UpsertTableRows::from_row(9).into_rows(), vec![9]);
    assert_eq!(UpsertTableRows::from_rows(vec![4, 5]).into_rows(), vec![4, 5]);
    assert_eq!(UpsertTableRows::<i32>::default().len(), 0);
}

fn auth() -> AdminAuthenticator {
    AdminAuthenticator::new("realm".to_string(), "admin".to_string(), Some("pw".to_string()))
}

#[test]
fn builder_asks_for_the_database_url_first() {
    assert_eq!(AppStateBuilder::new().build().unwrap_err(), BuildError::MissingDatabaseUrl);
    assert_eq!(
        AppStateBuilder::new().admin_auth(auth()).build().unwrap_err(),
        BuildError::MissingDatabaseUrl
    );
    assert_eq!(
        AppStateBuilder::default().database_url("db.sqlite".to_string()).build().unwrap_err(),
        BuildError::MissingAdminAuth
    );
    assert_eq!(
        BuildError::MissingDatabaseUrl.message(),
        "`database_url` field is required but not set"
    );
    assert_eq!(
        BuildError::MissingAdminAuth.message(),
        "`admin_auth` field is required but not set"
    );
}

#[test]
fn builder_hands_out_what_it_was_given() {
    let config = AppStateBuilder::new()
        .database_url("old.sqlite".to_string())
        .admin_auth(auth())
        .database_url("db.sqlite".to_string())
        .build()
        .unwrap();
    assert_eq!(config.database_url, "db.sqlite");
    assert_eq!(config.admin_auth.realm(), "realm");
    assert!(config.admin_auth.is_authenticated("admin", Some("pw")));
}

#[test]
fn get_table_rows_is_a_plain_message() {
    let msg: burning_pro_server::db::admin::GetTableRows<models::Person> =
        burning_pro_server::db::admin::GetTableRows::new();
    assert!(format!("{:?}", msg).starts_with("GetTableRows"));
}
