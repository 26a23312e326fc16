//! Form types, the readers of their fields, and what a form turns into.

use vstd::prelude::*;

use crate::db::upsert_entry;
use crate::text::{
    copy_opt, copy_strings, parse_i32, parsed_i32, split, split_trimmed, starts_with, str_eq,
    str_starts_with, trim, trim_opt, trimmed,
};
use crate::time::Timestamp;

pub use crate::time::{parse_optdate, InvalidDate};

verus! {

/// A phrase.
#[derive(Debug, Clone, PartialEq, Eq)]
pub struct Phrase {
    /// Row ID (`None` for new entry)
    pub good_phrase_id: Option<i32>,
    /// Title (short summary).
    pub title: String,
    /// Phrase.
    pub phrase: String,
    /// Author's person id.
    pub person_id: i32,
    /// URL of the phrase if it is posted or published to the WWW.
    pub url: Option<String>,
    /// Whether the source web page is deleted or not.
    pub deleted: bool,
    /// Datetime when the phrase is published.
    pub published_at: Option<Timestamp>,
    /// Extra form field, name and value of each.  A form gives each name
    /// once: see [`Phrase::wf`].
    ///
    /// Contains selected tag_ids, map person_id to display_name, and
    /// mapping of persons / tags from indices to names.
    pub extra: Vec<(String, String)>,
}

/// A person.
#[derive(Debug, Clone, PartialEq, Eq)]
pub struct Person {
    /// Row ID (`None` for new entry)
    pub person_id: Option<i32>,
    /// Real name.
    pub real_name: Option<String>,
    /// Display name.
    pub display_name: Option<String>,
    /// URLs of web pages of the person.
    pub url: Vec<String>,
    /// Twitter account.
    pub twitter: Option<String>,
}

/// A tag.
#[derive(Debug, Clone, PartialEq, Eq)]
pub struct Tag {
    /// Row ID (`None` for new entry)
    pub good_phrase_tag_id: Option<i32>,
    /// Name.
    pub name: String,
    /// Description of tag.
    pub description: Option<String>,
}

/// A phrase request.
#[derive(Debug, Clone, PartialEq, Eq)]
pub struct PhraseRequest {
    /// Title (short summary)
    pub title: String,
    /// Phrase.
    pub phrase: String,
    /// Author's name.
    pub person: String,
    /// URL of the phrase if it is posted or published to the WWW.
    pub url: Option<String>,
    /// Whether the source web page is deleted or not.
    pub deleted: bool,
    /// Datetime when the phrase is published.
    pub published_at: Option<Timestamp>,
    /// Tags.
    pub tags: Option<String>,
}

/// A person form that names no one: the display name is empty.
#[derive(Debug, Clone, Copy, PartialEq, Eq, Structural)]
pub struct MissingDisplayName;

/// The text of an optional string.
pub open spec fn opt_text(field: Option<String>) -> Option<Seq<char>> {
    match field {
        Some(text) => Some(text@),
        None => None,
    }
}

/// What an optional text field holds: nothing if it is empty, else its text.
pub open spec fn optstr(text: Seq<char>) -> Option<Seq<char>> {
    if text.len() == 0 {
        None
    } else {
        Some(text)
    }
}

/// What a field of comma-separated texts holds: nothing if it is empty, else
/// each piece between the commas, trimmed.
pub open spec fn strvec(text: Seq<char>) -> Seq<Seq<char>> {
    if text.len() == 0 {
        Seq::empty()
    } else {
        Seq::new(split(text, ',').len(), |k: int| trimmed(split(text, ',')[k]))
    }
}

/// Whether no name occurs twice among the fields.
pub open spec fn names_distinct(extra: Seq<(String, String)>) -> bool {
    forall|i: int, j: int|
        0 <= i < j < extra.len() ==> (#[trigger] extra[i]).0@ != (#[trigger] extra[j]).0@
}

/// The name that a form field has when it selects a tag begins with this.
pub open spec fn tag_field_prefix() -> Seq<char> {
    "tags_"@
}

/// The tag ids that the extra fields of a phrase form select: the value of
/// each field whose name begins with `tags_` and whose value is a number, in
/// the order of the fields.
pub open spec fn selected_tags(extra: Seq<(String, String)>) -> Seq<i32>
    decreases extra.len(),
{
    if extra.len() == 0 {
        Seq::empty()
    } else {
        let field = extra.last();
        let before = selected_tags(extra.drop_last());
        if starts_with(field.0@, tag_field_prefix()) && parsed_i32(field.1@) is Some {
            before.push(parsed_i32(field.1@)->0)
        } else {
            before
        }
    }
}

/// Reads an optional text field: `""` is no text, anything else is the text.
pub fn parse_optstr(text: &str) -> (field: Option<String>)
    ensures
        opt_text(field) == optstr(text@),
{
    if text.is_empty() {
        None
    } else {
        Some(text.to_owned())
    }
}

/// Reads a field of comma-separated texts: `""` holds none, anything else
/// holds the pieces between its commas, each without the white space around
/// it.
pub fn parse_strvec(text: &str) -> (field: Vec<String>)
    ensures
        field@.len() == strvec(text@).len(),
        forall|k: int| 0 <= k < field@.len() ==> (#[trigger] field@[k])@ == strvec(text@)[k],
{
    if text.is_empty() {
        Vec::new()
    } else {
        split_trimmed(text, ',')
    }
}

/// The tag ids that the extra fields of a phrase form select.
pub fn selected_tag_ids(extra: &Vec<(String, String)>) -> (tag_ids: Vec<i32>)
    ensures
        tag_ids@ == selected_tags(extra@),
{
    let mut tag_ids: Vec<i32> = Vec::new();
    let mut i: usize = 0;
    while i < extra.len()
        invariant
            i <= extra.len(),
            tag_ids@ == selected_tags(extra@.take(i as int)),
        decreases extra.len() - i,
    {
        proof {
            assert(extra@.take(i + 1).drop_last() =~= extra@.take(i as int));
        }
        if str_starts_with(extra[i].0.as_str(), "tags_") {
            match parse_i32(extra[i].1.as_str()) {
                Some(id) => {
                    tag_ids.push(id);
                },
                None => {},
            }
        }
        i += 1;
    }
    proof {
        assert(extra@.take(extra.len() as int) =~= extra@);
    }
    tag_ids
}

impl Phrase {
    /// Whether the form is one that a map of fields gives: no name occurs
    /// twice among its extra fields.
    pub open spec fn wf(&self) -> bool {
        names_distinct(self.extra@)
    }

    /// Tells whether no name occurs twice among the extra fields.
    pub fn is_well_formed(&self) -> (ok: bool)
        ensures
            ok == self.wf(),
    {
        let mut j: usize = 0;
        while j < self.extra.len()
            invariant
                j <= self.extra.len(),
                forall|a: int, b: int|
                    0 <= a < b < j ==> (#[trigger] self.extra@[a]).0@ != (
                    #[trigger] self.extra@[b]).0@,
            decreases self.extra.len() - j,
        {
            let mut i: usize = 0;
            while i < j
                invariant
                    i <= j < self.extra.len(),
                    forall|a: int| 0 <= a < i ==> (#[trigger] self.extra@[a]).0@ != self.extra@[j as int].0@,
                decreases j - i,
            {
                if str_eq(self.extra[i].0.as_str(), self.extra[j].0.as_str()) {
                    return false;
                }
                i += 1;
            }
            j += 1;
        }
        true
    }

    /// The upsert that the form asks for: its fields as they are, but the
    /// phrase without the white space around it, and the tags that its extra
    /// fields select.
    pub fn upsert(&self) -> (msg: upsert_entry::GoodPhrase)
        ensures
            msg.good_phrase_id == self.good_phrase_id,
            msg.title == self.title,
            msg.phrase@ == trimmed(self.phrase@),
            msg.person_id == self.person_id,
            msg.url == self.url,
            msg.deleted == self.deleted,
            msg.published_at == self.published_at,
            msg.tag_ids@ == selected_tags(self.extra@),
    {
        upsert_entry::GoodPhrase {
            good_phrase_id: self.good_phrase_id,
            title: self.title.clone(),
            phrase: trim(self.phrase.as_str()),
            person_id: self.person_id,
            url: copy_opt(&self.url),
            deleted: self.deleted,
            published_at: self.published_at,
            tag_ids: selected_tag_ids(&self.extra),
        }
    }

    /// The form as it is shown back: the phrase without the white space
    /// around it, everything else as submitted.
    pub fn shown(self) -> (form: Self)
        ensures
            form.phrase@ == trimmed(self.phrase@),
            form.good_phrase_id == self.good_phrase_id,
            form.title == self.title,
            form.person_id == self.person_id,
            form.url == self.url,
            form.deleted == self.deleted,
            form.published_at == self.published_at,
            form.extra == self.extra,
    {
        let Phrase {
            good_phrase_id,
            title,
            phrase,
            person_id,
            url,
            deleted,
            published_at,
            extra,
        } = self;
        Phrase {
            good_phrase_id,
            title,
            phrase: trim(phrase.as_str()),
            person_id,
            url,
            deleted,
            published_at,
            extra,
        }
    }
}

impl Person {
    /// The upsert that the form asks for: its fields as they are.  A form
    /// without a display name asks for none.
    pub fn upsert(&self) -> (msg: Result<upsert_entry::Person, MissingDisplayName>)
        ensures
            self.display_name is None <==> msg is Err,
            msg matches Ok(person) ==> {
                &&& person.person_id == self.person_id
                &&& person.real_name == self.real_name
                &&& Some(person.display_name) == self.display_name
                &&& person.url@ == self.url@
                &&& person.twitter == self.twitter
            },
    {
        match &self.display_name {
            None => Err(MissingDisplayName),
            Some(display_name) => Ok(
                upsert_entry::Person {
                    person_id: self.person_id,
                    real_name: copy_opt(&self.real_name),
                    display_name: display_name.clone(),
                    url: copy_strings(&self.url),
                    twitter: copy_opt(&self.twitter),
                },
            ),
        }
    }
}

impl Tag {
    /// The upsert that the form asks for: its fields as they are, but the
    /// description without the white space around it.
    pub fn upsert(&self) -> (msg: upsert_entry::GoodPhraseTag)
        ensures
            msg.good_phrase_tag_id == self.good_phrase_tag_id,
            msg.name == self.name,
            msg.description is Some == self.description is Some,
            self.description matches Some(text) ==> msg.description->0@ == trimmed(text@),
    {
        upsert_entry::GoodPhraseTag {
            good_phrase_tag_id: self.good_phrase_tag_id,
            name: self.name.clone(),
            description: trim_opt(&self.description),
        }
    }

    /// The form as it is shown back: the description without the white space
    /// around it, everything else as submitted.
    pub fn shown(self) -> (form: Self)
        ensures
            form.good_phrase_tag_id == self.good_phrase_tag_id,
            form.name == self.name,
            form.description is Some == self.description is Some,
            self.description matches Some(text) ==> form.description->0@ == trimmed(text@),
    {
        let Tag { good_phrase_tag_id, name, description } = self;
        Tag { good_phrase_tag_id, name, description: trim_opt(&description) }
    }
}

impl PhraseRequest {
    /// The submission that the form asks for: its fields as they are, but the
    /// phrase without the white space around it.
    pub fn upsert(&self) -> (msg: upsert_entry::GoodPhraseRequest)
        ensures
            msg.title == self.title,
            msg.phrase@ == trimmed(self.phrase@),
            msg.person == self.person,
            msg.url == self.url,
            msg.deleted == self.deleted,
            msg.published_at == self.published_at,
            msg.tags == self.tags,
    {
        upsert_entry::GoodPhraseRequest {
            title: self.title.clone(),
            phrase: trim(self.phrase.as_str()),
            person: self.person.clone(),
            url: copy_opt(&self.url),
            deleted: self.deleted,
            published_at: self.published_at,
            tags: copy_opt(&self.tags),
        }
    }
}

} // verus!
