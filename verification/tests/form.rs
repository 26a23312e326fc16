use burning_pro_server::admin::form::{
    parse_optdate, parse_optstr, parse_strvec, selected_tag_ids, MissingDisplayName, Person,
    Phrase, PhraseRequest, Tag,
};
use burning_pro_server::db::upsert_entry;
use burning_pro_server::time::{form_datetime_format, Timestamp};
use chrono::TimeZone;

fn field(name: &str, value: &str) -> (String, String) {
    (name.to_string(), value.to_string())
}

#[test]
fn optstr_takes_the_empty_field_as_none() {
    assert_eq!(parse_optstr(""), None);
    assert_eq!(parse_optstr("x"), Some("x".to_string()));
    assert_eq!(parse_optstr(" "), Some(" ".to_string()));
}

#[test]
fn strvec_takes_the_empty_field_as_no_items() {
    assert_eq!(parse_strvec(""), Vec::<String>::new());
}

#[test]
fn strvec_splits_at_commas_and_trims() {
    assert_eq!(
        parse_strvec("https://a.example , https://b.example"),
        vec!["https://a.example", "https://b.example"]
    );
    assert_eq!(parse_strvec(" "), vec![""]);
    assert_eq!(parse_strvec("a,,b,"), vec!["a", "", "b", ""]);
}

#[test]
fn optdate_takes_the_empty_field_as_none() {
    assert_eq!(parse_optdate(""), Ok(None));
}

#[test]
fn optdate_reads_a_date_on_the_local_wall_clock() {
    let naive = chrono::NaiveDate::from_ymd_opt(2018, 10, 13)
        .unwrap()
        .and_hms_opt(21, 30, 15)
        .unwrap();
    let parsed = parse_optdate("2018-10-13T21:30:15");
    match chrono::Local.from_local_datetime(&naive).single() {
        Some(local) => {
            assert_eq!(parsed, Ok(Some(Timestamp { secs: local.timestamp(), nanos: 0 })));
        }
        None => assert!(parsed.is_err()),
    }
}

#[test]
fn optdate_depends_on_the_text() {
    let early = parse_optdate("2001-02-03T04:05:06").unwrap().unwrap();
    let late = parse_optdate("2001-02-13T04:05:06").unwrap().unwrap();
    assert_eq!(late.secs - early.secs, 10 * 86_400);
    assert_eq!(early.nanos, 0);
}

#[test]
fn optdate_refuses_what_is_no_date() {
    for text in ["yesterday", "2018-10-13", "2018-13-01T00:00:00", "2018-10-13 21:30:15", " "] {
        let refused = parse_optdate(text);
        assert!(refused.is_err(), "{:?}", text);
    }
    let cause = parse_optdate("2018-02-30T00:00:00").unwrap_err().cause;
    assert_eq!(cause.kind(), chrono::format::ParseErrorKind::OutOfRange);
}

#[test]
fn tag_ids_come_from_the_fields_named_tags() {
    let extra = vec![
        field("tags_1", "1"),
        field("person_name", "7"),
        field("tags_x", "30"),
        field("tags_2", "none"),
        field("tags", "5"),
        field("tags_", "-4"),
        field("Tags_9", "9"),
        field("tags_3", "+12"),
        field("tags_4", "2147483648"),
    ];
    assert_eq!(selected_tag_ids(&extra), vec![1, 30, -4, 12]);
    assert_eq!(selected_tag_ids(&vec![]), Vec::<i32>::new());
}

fn phrase_form() -> Phrase {
    Phrase {
        good_phrase_id: Some(4),
        title: " title ".to_string(),
        phrase: "  said so \n".to_string(),
        person_id: 7,
        url: Some("https://example.com".to_string()),
        deleted: true,
        published_at: Some(Timestamp { secs: 10, nanos: 0 }),
        extra: vec![field("tags_2", "2"), field("tags_5", "5"), field("other", "1")],
    }
}

#[test]
fn phrase_form_becomes_an_upsert() {
    assert_eq!(
        phrase_form().upsert(),
        upsert_entry::GoodPhrase {
            good_phrase_id: Some(4),
            title: " title ".to_string(),
            phrase: "said so".to_string(),
            person_id: 7,
            url: Some("https://example.com".to_string()),
            deleted: true,
            published_at: Some(Timestamp { secs: 10, nanos: 0 }),
            tag_ids: vec![2, 5],
        }
    );
}

#[test]
fn phrase_form_is_shown_with_the_phrase_trimmed() {
    let mut expected = phrase_form();
    expected.phrase = "said so".to_string();
    assert_eq!(phrase_form().shown(), expected);
}

#[test]
fn person_form_becomes_an_upsert() {
    let form = Person {
        person_id: None,
        real_name: Some("Real".to_string()),
        display_name: Some("Shown".to_string()),
        url: vec!["a".to_string(), "b".to_string()],
        twitter: None,
    };
    assert_eq!(
        form.upsert(),
        Ok(upsert_entry::Person {
            person_id: None,
            real_name: Some("Real".to_string()),
            display_name: "Shown".to_string(),
            url: vec!["a".to_string(), "b".to_string()],
            twitter: None,
        })
    );
}

#[test]
fn person_form_without_display_name_is_refused() {
    let form = Person {
        person_id: Some(1),
        real_name: None,
        display_name: None,
        url: vec![],
        twitter: None,
    };
    assert_eq!(form.upsert(), Err(MissingDisplayName));
}

#[test]
fn tag_form_becomes_an_upsert_with_trimmed_description() {
    let form = Tag {
        good_phrase_tag_id: Some(2),
        name: " name ".to_string(),
        description: Some("  about it ".to_string()),
    };
    assert_eq!(
        form.upsert(),
        upsert_entry::GoodPhraseTag {
            good_phrase_tag_id: Some(2),
            name: " name ".to_string(),
            description: Some("about it".to_string()),
        }
    );
    assert_eq!(
        form.shown(),
        Tag {
            good_phrase_tag_id: Some(2),
            name: " name ".to_string(),
            description: Some("about it".to_string()),
        }
    );
    let bare = Tag { good_phrase_tag_id: None, name: "n".to_string(), description: None };
    assert_eq!(bare.upsert().description, None);
}

#[test]
fn phrase_request_form_becomes_a_submission() {
    let form = PhraseRequest {
        title: "t".to_string(),
        phrase: "\tsaid ".to_string(),
        person: "who".to_string(),
        url: None,
        deleted: false,
        published_at: None,
        tags: Some("a, b".to_string()),
    };
    assert_eq!(
        form.upsert(),
        upsert_entry::GoodPhraseRequest {
            title: "t".to_string(),
            phrase: "said".to_string(),
            person: "who".to_string(),
            url: None,
            deleted: false,
            published_at: None,
            tags: Some("a, b".to_string()),
        }
    );
}

#[test]
fn date_fields_are_written_as_year_to_second() {
    assert_eq!(form_datetime_format(), "%Y-%m-%dT%H:%M:%S");
}

#[test]
fn form_with_a_name_twice_is_not_well_formed() {
    let mut form = phrase_form();
    assert!(form.is_well_formed());
    form.extra.push(field("tags_2", "9"));
    assert!(!form.is_well_formed());
    form.extra = vec![];
    assert!(form.is_well_formed());
    form.extra = vec![field("a", "1"), field("b", "1"), field("A", "1")];
    assert!(form.is_well_formed());
}

#[test]
fn tags_selected_twice_are_submitted_twice_and_stored_once() {
    let mut form = phrase_form();
    form.extra = vec![field("tags_a", "3"), field("tags_b", "3")];
    assert!(form.is_well_formed());
    let msg = form.upsert();
    assert_eq!(msg.tag_ids, vec![3, 3]);
    let plan = upsert_entry::plan_phrase_tags(
        4,
        &vec![],
        &msg.tag_ids,
        Timestamp { secs: 0, nanos: 0 },
    );
    assert_eq!(plan.len(), 1);
}
