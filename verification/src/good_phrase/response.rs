//! Response types.

use vstd::prelude::*;

use crate::models;
use crate::text::copy_opt;
use crate::time::LocalTimestamp;

verus! {

/// An good_phrase.
#[derive(Debug, Clone, PartialEq, Eq, Hash)]
pub struct GoodPhrase {
    /// Phrase.
    pub phrase: Phrase,
    /// Person.
    pub person: Person,
    /// System metadata.
    pub sys_meta: SysMeta,
    /// User metadata.
    pub user_meta: UserMeta,
}

/// A phrase.
#[derive(Debug, Clone, PartialEq, Eq, Hash)]
pub struct Phrase {
    /// Internal ID for DB.
    pub internal_id: i32,
    /// Title (short summary).
    pub title: String,
    /// Phrase.
    pub phrase: String,
    /// Datetime when the entry is created.
    pub created: LocalTimestamp,
    /// URL of the phrase if it is posted or published to the WWW.
    pub url: Option<String>,
    /// Whether the source web page is deleted or not.
    pub deleted: bool,
    /// Datetime when the phrase is published.
    pub datetime: Option<LocalTimestamp>,
}

/// A person.
#[derive(Debug, Clone, PartialEq, Eq, Hash)]
pub struct Person {
    /// Internal ID for DB.
    pub internal_id: i32,
    /// Datetime when the entry is created.
    pub created: LocalTimestamp,
    /// Real name.
    pub real_name: Option<String>,
    /// Display name.
    pub display_name: String,
    /// URLs of web pages of the person.
    pub url: Vec<String>,
    /// Twitter account.
    pub twitter: Option<String>,
}

/// System-wide metadata.
#[derive(Debug, Clone, PartialEq, Eq, Hash)]
pub struct SysMeta {
    /// Count of all users' use of the phrase.
    pub use_count: u64,
    /// Count of all users' favorites for the phrase.
    pub fav_count: u64,
    /// System-wide "tag" for the phrase.
    pub tags: Vec<String>,
}

/// User-local metadata.
#[derive(Debug, Clone, PartialEq, Eq, Hash)]
pub struct UserMeta {
    /// Whether the user favorited the phrase.
    pub favorite: bool,
    /// Count of the user's use of the phrase.
    pub use_count: u64,
    /// Mylists which the phrase is registered to.
    pub mylists: Vec<String>,
}

/// The one list that every phrase is shown as registered to, until lists
/// are kept.
pub open spec fn placeholder_mylist() -> Seq<char> {
    "\u{8a00}\u{3044}\u{8a33}\u{7528}"@
}

impl GoodPhrase {
    /// Puts one entry of the feed together: the phrase and its author as
    /// stored, their times shown at the offset of the feed, the URLs of the
    /// author in the order of their rows, the names of the tags in the order
    /// of theirs, and placeholders for the counts that are not kept yet.
    pub fn assemble(
        good_phrase: &models::GoodPhrase,
        person: &models::Person,
        urls: &Vec<models::PersonUrl>,
        tags: &Vec<(models::GoodPhraseAndTag, models::GoodPhraseTag)>,
    ) -> (entry: GoodPhrase)
        ensures
            entry.phrase.internal_id == good_phrase.good_phrase_id,
            entry.phrase.title == good_phrase.title,
            entry.phrase.phrase == good_phrase.phrase,
            entry.phrase.created == LocalTimestamp::spec_for_feed(good_phrase.created_at),
            entry.phrase.url == good_phrase.url,
            entry.phrase.deleted == good_phrase.deleted,
            entry.phrase.datetime == match good_phrase.published_at {
                Some(at) => Some(LocalTimestamp::spec_for_feed(at)),
                None => None,
            },
            entry.person.internal_id == person.person_id,
            entry.person.created == LocalTimestamp::spec_for_feed(person.created_at),
            entry.person.real_name == person.real_name,
            entry.person.display_name == person.display_name,
            entry.person.url@ == Seq::new(urls@.len(), |i: int| urls@[i].url),
            entry.person.twitter == person.twitter,
            entry.sys_meta.use_count == 5,
            entry.sys_meta.fav_count == 3,
            entry.sys_meta.tags@ == Seq::new(tags@.len(), |i: int| tags@[i].1.name),
            entry.user_meta.favorite,
            entry.user_meta.use_count == 2,
            entry.user_meta.mylists@.len() == 1,
            entry.user_meta.mylists@[0]@ == placeholder_mylist(),
    {
        let mut person_urls: Vec<String> = Vec::new();
        let mut i: usize = 0;
        while i < urls.len()
            invariant
                i <= urls.len(),
                person_urls@ == Seq::new(i as nat, |k: int| urls@[k].url),
            decreases urls.len() - i,
        {
            person_urls.push(urls[i].url.clone());
            i += 1;
            proof {
                assert(person_urls@ =~= Seq::new(i as nat, |k: int| urls@[k].url));
            }
        }
        let mut tag_names: Vec<String> = Vec::new();
        let mut j: usize = 0;
        while j < tags.len()
            invariant
                j <= tags.len(),
                tag_names@ == Seq::new(j as nat, |k: int| tags@[k].1.name),
            decreases tags.len() - j,
        {
            tag_names.push(tags[j].1.name.clone());
            j += 1;
            proof {
                assert(tag_names@ =~= Seq::new(j as nat, |k: int| tags@[k].1.name));
            }
        }
        let mut mylists: Vec<String> = Vec::new();
        mylists.push("\u{8a00}\u{3044}\u{8a33}\u{7528}".to_owned());
        GoodPhrase {
            phrase: Phrase {
                internal_id: good_phrase.good_phrase_id,
                title: good_phrase.title.clone(),
                phrase: good_phrase.phrase.clone(),
                created: LocalTimestamp::for_feed(good_phrase.created_at),
                url: copy_opt(&good_phrase.url),
                deleted: good_phrase.deleted,
                datetime: match good_phrase.published_at {
                    Some(at) => Some(LocalTimestamp::for_feed(at)),
                    None => None,
                },
            },
            person: Person {
                internal_id: person.person_id,
                created: LocalTimestamp::for_feed(person.created_at),
                real_name: copy_opt(&person.real_name),
                display_name: person.display_name.clone(),
                url: person_urls,
                twitter: copy_opt(&person.twitter),
            },
            sys_meta: SysMeta { use_count: 5, fav_count: 3, tags: tag_names },
            user_meta: UserMeta { favorite: true, use_count: 2, mylists },
        }
    }
}

} // verus!
