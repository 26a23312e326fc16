use std::collections::BTreeSet;

use burning_pro_server::db::upsert_entry::{GoodPhrase, GoodPhraseRequest, Person, Transaction};
use burning_pro_server::db::{Answer, DbFailure, Error, Statement, Step};
use burning_pro_server::time::Timestamp;
use diesel::connection::SimpleConnection;
use diesel::dsl::sql;
use diesel::sql_types::{BigInt, Bool, Integer, Nullable, Text};
use diesel::{sql_query, Connection, QueryResult, RunQueryDsl, SqliteConnection};

const SCHEMA: &str = "
    CREATE TABLE good_phrases (
        good_phrase_id INTEGER PRIMARY KEY, created_at BIGINT NOT NULL,
        modified_at BIGINT NOT NULL, title TEXT NOT NULL, phrase TEXT NOT NULL,
        person_id INTEGER NOT NULL, url TEXT, deleted BOOLEAN NOT NULL, published_at BIGINT);
    CREATE TABLE good_phrases_and_tags (
        good_phrase_and_tag_id INTEGER PRIMARY KEY, created_at BIGINT NOT NULL,
        modified_at BIGINT NOT NULL, good_phrase_id INTEGER NOT NULL,
        good_phrase_tag_id INTEGER NOT NULL CHECK (good_phrase_tag_id <> 666));
    CREATE TABLE persons (
        person_id INTEGER PRIMARY KEY, created_at BIGINT NOT NULL, modified_at BIGINT NOT NULL,
        real_name TEXT, display_name TEXT NOT NULL, twitter TEXT);
    CREATE TABLE person_urls (
        person_url_id INTEGER PRIMARY KEY, created_at BIGINT NOT NULL,
        modified_at BIGINT NOT NULL, person_id INTEGER NOT NULL, url TEXT NOT NULL);
    CREATE TABLE good_phrase_tags (
        good_phrase_tag_id INTEGER PRIMARY KEY, created_at BIGINT NOT NULL,
        modified_at BIGINT NOT NULL, name TEXT NOT NULL, description TEXT);
    CREATE TABLE good_phrase_requests (
        good_phrase_request_id INTEGER PRIMARY KEY, title TEXT NOT NULL, phrase TEXT NOT NULL,
        person TEXT NOT NULL, url TEXT, deleted BOOLEAN NOT NULL, published_at BIGINT,
        tags TEXT);
";

fn open() -> SqliteConnection {
    let mut conn = SqliteConnection::establish(":memory:").unwrap();
    conn.batch_execute(SCHEMA).unwrap();
    conn
}

fn done(result: QueryResult<usize>) -> Answer {
    match result {
        Ok(_) => Answer::Done,
        Err(e) => Answer::Failed(DbFailure::Rejected(e.to_string())),
    }
}

fn run(conn: &mut SqliteConnection, stmt: Statement) -> Answer {
    match stmt {
        Statement::UpdatePhrase {
            good_phrase_id,
            modified_at,
            title,
            phrase,
            person_id,
            url,
            deleted,
            published_at,
        } => done(
            sql_query(
                "UPDATE good_phrases SET modified_at = ?, title = ?, phrase = ?, person_id = ?, \
                 url = ?, deleted = ?, published_at = ? WHERE good_phrase_id = ?",
            )
            .bind::<BigInt, _>(modified_at.secs)
            .bind::<Text, _>(title)
            .bind::<Text, _>(phrase)
            .bind::<Integer, _>(person_id)
            .bind::<Nullable<Text>, _>(url)
            .bind::<Bool, _>(deleted)
            .bind::<Nullable<BigInt>, _>(published_at.map(|at| at.secs))
            .bind::<Integer, _>(good_phrase_id)
            .execute(conn),
        ),
        Statement::InsertPhrase(row) => done(
            sql_query(
                "INSERT INTO good_phrases (good_phrase_id, created_at, modified_at, title, \
                 phrase, person_id, url, deleted, published_at) VALUES (?, ?, ?, ?, ?, ?, ?, ?, ?)",
            )
            .bind::<Nullable<Integer>, _>(row.good_phrase_id)
            .bind::<BigInt, _>(row.created_at.secs)
            .bind::<BigInt, _>(row.modified_at.secs)
            .bind::<Text, _>(row.title)
            .bind::<Text, _>(row.phrase)
            .bind::<Integer, _>(row.person_id)
            .bind::<Nullable<Text>, _>(row.url)
            .bind::<Bool, _>(row.deleted)
            .bind::<Nullable<BigInt>, _>(row.published_at.map(|at| at.secs))
            .execute(conn),
        ),
        Statement::LastInsertRowid => {
            match sql::<Integer>("SELECT last_insert_rowid()").get_result::<i32>(conn) {
                Ok(id) => Answer::Rowid(id),
                Err(e) => Answer::Failed(DbFailure::Rejected(e.to_string())),
            }
        }
        Statement::SelectTagIdsOfPhrase { good_phrase_id } => {
            let ids = sql::<Integer>(
                "SELECT good_phrase_tag_id FROM good_phrases_and_tags WHERE good_phrase_id = ",
            )
            .bind::<Integer, _>(good_phrase_id)
            .load::<i32>(conn);
            match ids {
                Ok(ids) => Answer::TagIds(ids),
                Err(e) => Answer::Failed(DbFailure::Rejected(e.to_string())),
            }
        }
        Statement::DeletePhraseTag { good_phrase_id, good_phrase_tag_id } => done(
            sql_query(
                "DELETE FROM good_phrases_and_tags WHERE good_phrase_id = ? AND \
                 good_phrase_tag_id = ?",
            )
            .bind::<Integer, _>(good_phrase_id)
            .bind::<Integer, _>(good_phrase_tag_id)
            .execute(conn),
        ),
        Statement::InsertPhraseTag(row) => done(
            sql_query(
                "INSERT INTO good_phrases_and_tags (good_phrase_and_tag_id, created_at, \
                 modified_at, good_phrase_id, good_phrase_tag_id) VALUES (?, ?, ?, ?, ?)",
            )
            .bind::<Nullable<Integer>, _>(row.good_phrase_and_tag_id)
            .bind::<BigInt, _>(row.created_at.secs)
            .bind::<BigInt, _>(row.modified_at.secs)
            .bind::<Integer, _>(row.good_phrase_id)
            .bind::<Integer, _>(row.good_phrase_tag_id)
            .execute(conn),
        ),
        Statement::UpdatePerson { person_id, modified_at, real_name, display_name, twitter } => {
            done(
                sql_query(
                    "UPDATE persons SET modified_at = ?, real_name = ?, display_name = ?, \
                     twitter = ? WHERE person_id = ?",
                )
                .bind::<BigInt, _>(modified_at.secs)
                .bind::<Nullable<Text>, _>(real_name)
                .bind::<Text, _>(display_name)
                .bind::<Nullable<Text>, _>(twitter)
                .bind::<Integer, _>(person_id)
                .execute(conn),
            )
        }
        Statement::InsertPerson(row) => done(
            sql_query(
                "INSERT INTO persons (person_id, created_at, modified_at, real_name, \
                 display_name, twitter) VALUES (?, ?, ?, ?, ?, ?)",
            )
            .bind::<Nullable<Integer>, _>(row.person_id)
            .bind::<BigInt, _>(row.created_at.secs)
            .bind::<BigInt, _>(row.modified_at.secs)
            .bind::<Nullable<Text>, _>(row.real_name)
            .bind::<Text, _>(row.display_name)
            .bind::<Nullable<Text>, _>(row.twitter)
            .execute(conn),
        ),
        Statement::SelectUrlsOfPerson { person_id } => {
            let rows = sql::<(Integer, Text)>(
                "SELECT person_url_id, url FROM person_urls WHERE person_id = ",
            )
            .bind::<Integer, _>(person_id)
            .load::<(i32, String)>(conn);
            match rows {
                Ok(rows) => Answer::PersonUrls(rows),
                Err(e) => Answer::Failed(DbFailure::Rejected(e.to_string())),
            }
        }
        Statement::DeletePersonUrl { person_url_id } => done(
            sql_query("DELETE FROM person_urls WHERE person_url_id = ?")
                .bind::<Integer, _>(person_url_id)
                .execute(conn),
        ),
        Statement::InsertPersonUrl(row) => done(
            sql_query(
                "INSERT INTO person_urls (person_url_id, created_at, modified_at, person_id, \
                 url) VALUES (?, ?, ?, ?, ?)",
            )
            .bind::<Nullable<Integer>, _>(row.person_url_id)
            .bind::<BigInt, _>(row.created_at.secs)
            .bind::<BigInt, _>(row.modified_at.secs)
            .bind::<Integer, _>(row.person_id)
            .bind::<Text, _>(row.url)
            .execute(conn),
        ),
        Statement::UpdateTag { good_phrase_tag_id, name, description } => done(
            sql_query(
                "UPDATE good_phrase_tags SET name = ?, description = ? WHERE \
                 good_phrase_tag_id = ?",
            )
            .bind::<Text, _>(name)
            .bind::<Nullable<Text>, _>(description)
            .bind::<Integer, _>(good_phrase_tag_id)
            .execute(conn),
        ),
        Statement::InsertTag(row) => done(
            sql_query(
                "INSERT INTO good_phrase_tags (good_phrase_tag_id, created_at, modified_at, \
                 name, description) VALUES (?, ?, ?, ?, ?)",
            )
            .bind::<Nullable<Integer>, _>(row.good_phrase_tag_id)
            .bind::<BigInt, _>(row.created_at.secs)
            .bind::<BigInt, _>(row.modified_at.secs)
            .bind::<Text, _>(row.name)
            .bind::<Nullable<Text>, _>(row.description)
            .execute(conn),
        ),
        Statement::InsertPhraseRequest(row) => done(
            sql_query(
                "INSERT INTO good_phrase_requests (good_phrase_request_id, title, phrase, \
                 person, url, deleted, published_at, tags) VALUES (?, ?, ?, ?, ?, ?, ?, ?)",
            )
            .bind::<Nullable<Integer>, _>(row.good_phrase_request_id)
            .bind::<Text, _>(row.title)
            .bind::<Text, _>(row.phrase)
            .bind::<Text, _>(row.person)
            .bind::<Nullable<Text>, _>(row.url)
            .bind::<Bool, _>(row.deleted)
            .bind::<Nullable<BigInt>, _>(row.published_at.map(|at| at.secs))
            .bind::<Nullable<Text>, _>(row.tags)
            .execute(conn),
        ),
    }
}

enum Abort {
    Decided(Error),
    Diesel(diesel::result::Error),
}

impl From<diesel::result::Error> for Abort {
    fn from(e: diesel::result::Error) -> Self {
        Abort::Diesel(e)
    }
}

fn transact(conn: &mut SqliteConnection, start: (Transaction, Statement)) -> Result<(), Error> {
    let result = conn.transaction::<(), Abort, _>(|conn| {
        let (mut tx, mut stmt) = start;
        loop {
            let answer = run(conn, stmt);
            let (next, step) = tx.advance(answer);
            tx = next;
            match step {
                Step::Run(following) => stmt = following,
                Step::Finish(Ok(())) => return Ok(()),
                Step::Finish(Err(e)) => return Err(Abort::Decided(e)),
            }
        }
    });
    match result {
        Ok(()) => Ok(()),
        Err(Abort::Decided(e)) => Err(e),
        Err(Abort::Diesel(e)) => Err(Error::Db(DbFailure::Rejected(e.to_string()))),
    }
}

fn now() -> Timestamp {
    Timestamp { secs: 1_539_000_000, nanos: 0 }
}

fn phrase(id: Option<i32>, title: &str, tag_ids: Vec<i32>) -> GoodPhrase {
    GoodPhrase {
        good_phrase_id: id,
        title: title.to_string(),
        phrase: "said".to_string(),
        person_id: 1,
        url: None,
        deleted: false,
        published_at: Some(now()),
        tag_ids,
    }
}

fn person(id: Option<i32>, urls: &[&str]) -> Person {
    Person {
        person_id: id,
        real_name: None,
        display_name: "someone".to_string(),
        url: urls.iter().map(|u| u.to_string()).collect(),
        twitter: None,
    }
}

fn tags_of(conn: &mut SqliteConnection, phrase_id: i32) -> BTreeSet<i32> {
    sql::<Integer>(
        "SELECT good_phrase_tag_id FROM good_phrases_and_tags WHERE good_phrase_id = ",
    )
    .bind::<Integer, _>(phrase_id)
    .load::<i32>(conn)
    .unwrap()
    .into_iter()
    .collect()
}

fn urls_of(conn: &mut SqliteConnection, person_id: i32) -> BTreeSet<String> {
    sql::<Text>("SELECT url FROM person_urls WHERE person_id = ")
        .bind::<Integer, _>(person_id)
        .load::<String>(conn)
        .unwrap()
        .into_iter()
        .collect()
}

fn count(conn: &mut SqliteConnection, table: &str) -> i64 {
    sql::<BigInt>(&format!("SELECT COUNT(*) FROM {}", table)).get_result::<i64>(conn).unwrap()
}

fn titles(conn: &mut SqliteConnection) -> Vec<(i32, String)> {
    sql::<(Integer, Text)>("SELECT good_phrase_id, title FROM good_phrases ORDER BY good_phrase_id")
        .load::<(i32, String)>(conn)
        .unwrap()
}

fn set(ids: &[i32]) -> BTreeSet<i32> {
    ids.iter().cloned().collect()
}

fn texts(urls: &[&str]) -> BTreeSet<String> {
    urls.iter().map(|u| u.to_string()).collect()
}

#[test]
fn sqlite_new_phrase_is_stored_with_its_tags() {
    let mut conn = open();
    assert_eq!(transact(&mut conn, Transaction::phrase(phrase(None, "a", vec![3, 4]), now())), Ok(()));
    assert_eq!(transact(&mut conn, Transaction::phrase(phrase(None, "b", vec![4, 5]), now())), Ok(()));
    assert_eq!(titles(&mut conn), vec![(1, "a".to_string()), (2, "b".to_string())]);
    assert_eq!(tags_of(&mut conn, 1), set(&[3, 4]));
    assert_eq!(tags_of(&mut conn, 2), set(&[4, 5]));
}

#[test]
fn sqlite_update_brings_the_tags_in_line() {
    let mut conn = open();
    transact(&mut conn, Transaction::phrase(phrase(None, "a", vec![1, 2, 3]), now())).unwrap();
    transact(&mut conn, Transaction::phrase(phrase(None, "b", vec![1]), now())).unwrap();
    assert_eq!(
        transact(&mut conn, Transaction::phrase(phrase(Some(1), "a2", vec![3, 4]), now())),
        Ok(())
    );
    assert_eq!(tags_of(&mut conn, 1), set(&[3, 4]));
    assert_eq!(tags_of(&mut conn, 2), set(&[1]));
    assert_eq!(titles(&mut conn), vec![(1, "a2".to_string()), (2, "b".to_string())]);
    assert_eq!(count(&mut conn, "good_phrases_and_tags"), 3);
}

#[test]
fn sqlite_resubmission_changes_no_association() {
    let mut conn = open();
    transact(&mut conn, Transaction::phrase(phrase(None, "a", vec![1, 2]), now())).unwrap();
    let ids = |conn: &mut SqliteConnection| {
        sql::<Integer>("SELECT good_phrase_and_tag_id FROM good_phrases_and_tags ORDER BY 1")
            .load::<i32>(conn)
            .unwrap()
    };
    let before = ids(&mut conn);
    transact(&mut conn, Transaction::phrase(phrase(Some(1), "a", vec![2, 1]), now())).unwrap();
    assert_eq!(ids(&mut conn), before);
    assert_eq!(tags_of(&mut conn, 1), set(&[1, 2]));
}

#[test]
fn sqlite_empty_submission_removes_all_tags() {
    let mut conn = open();
    transact(&mut conn, Transaction::phrase(phrase(None, "a", vec![1, 2]), now())).unwrap();
    transact(&mut conn, Transaction::phrase(phrase(Some(1), "a", vec![]), now())).unwrap();
    assert_eq!(tags_of(&mut conn, 1), set(&[]));
    assert_eq!(count(&mut conn, "good_phrases_and_tags"), 0);
}

#[test]
fn sqlite_failure_rolls_the_whole_upsert_back() {
    let mut conn = open();
    transact(&mut conn, Transaction::phrase(phrase(None, "a", vec![1, 2]), now())).unwrap();
    let failed =
        transact(&mut conn, Transaction::phrase(phrase(Some(1), "changed", vec![2, 3, 666]), now()));
    assert!(matches!(failed, Err(Error::Db(DbFailure::Rejected(_)))));
    assert_eq!(titles(&mut conn), vec![(1, "a".to_string())]);
    assert_eq!(tags_of(&mut conn, 1), set(&[1, 2]));
    let failed = transact(&mut conn, Transaction::phrase(phrase(None, "new", vec![666]), now()));
    assert!(matches!(failed, Err(Error::Db(DbFailure::Rejected(_)))));
    assert_eq!(count(&mut conn, "good_phrases"), 1);
}

#[test]
fn sqlite_person_urls_are_brought_in_line() {
    let mut conn = open();
    transact(&mut conn, Transaction::person(person(None, &["a", "b"]), now())).unwrap();
    transact(&mut conn, Transaction::person(person(None, &["a"]), now())).unwrap();
    assert_eq!(urls_of(&mut conn, 1), texts(&["a", "b"]));
    transact(&mut conn, Transaction::person(person(Some(1), &["b", "c"]), now())).unwrap();
    assert_eq!(urls_of(&mut conn, 1), texts(&["b", "c"]));
    assert_eq!(urls_of(&mut conn, 2), texts(&["a"]));
    transact(&mut conn, Transaction::person(person(Some(1), &[]), now())).unwrap();
    assert_eq!(urls_of(&mut conn, 1), texts(&[]));
    assert_eq!(count(&mut conn, "persons"), 2);
}

#[test]
fn sqlite_phrase_request_leaves_the_phrases_alone() {
    let mut conn = open();
    transact(&mut conn, Transaction::phrase(phrase(None, "a", vec![1]), now())).unwrap();
    let request = GoodPhraseRequest {
        title: "wish".to_string(),
        phrase: "said".to_string(),
        person: "who".to_string(),
        url: Some("https://example.com".to_string()),
        deleted: false,
        published_at: None,
        tags: Some("x".to_string()),
    };
    assert_eq!(transact(&mut conn, Transaction::request(request)), Ok(()));
    assert_eq!(titles(&mut conn), vec![(1, "a".to_string())]);
    assert_eq!(tags_of(&mut conn, 1), set(&[1]));
    assert_eq!(count(&mut conn, "good_phrase_requests"), 1);
    assert_eq!(count(&mut conn, "good_phrases"), 1);
}

#[test]
fn sqlite_tag_submitted_twice_is_stored_once() {
    let mut conn = open();
    transact(&mut conn, Transaction::phrase(phrase(None, "a", vec![3, 3, 4, 3]), now())).unwrap();
    assert_eq!(tags_of(&mut conn, 1), set(&[3, 4]));
    assert_eq!(count(&mut conn, "good_phrases_and_tags"), 2);
    transact(&mut conn, Transaction::person(person(None, &["u", "u"]), now())).unwrap();
    assert_eq!(urls_of(&mut conn, 1), texts(&["u"]));
    assert_eq!(count(&mut conn, "person_urls"), 1);
}

#[test]
fn sqlite_untouched_rows_keep_their_ids() {
    let mut conn = open();
    transact(&mut conn, Transaction::phrase(phrase(None, "a", vec![1, 2]), now())).unwrap();
    transact(&mut conn, Transaction::phrase(phrase(None, "b", vec![1]), now())).unwrap();
    let rows = |conn: &mut SqliteConnection| {
        sql::<(Integer, Integer, Integer)>(
            "SELECT good_phrase_and_tag_id, good_phrase_id, good_phrase_tag_id FROM \
             good_phrases_and_tags ORDER BY 1",
        )
        .load::<(i32, i32, i32)>(conn)
        .unwrap()
    };
    assert_eq!(rows(&mut conn), vec![(1, 1, 1), (2, 1, 2), (3, 2, 1)]);
    transact(&mut conn, Transaction::phrase(phrase(Some(1), "a", vec![2, 5]), now())).unwrap();
    assert_eq!(rows(&mut conn), vec![(2, 1, 2), (3, 2, 1), (4, 1, 5)]);
}
