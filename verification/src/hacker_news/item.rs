//! Items, the URLs that name them, and what the API sends for them.

use super::comment::{Comment, CommentView};
use super::story::{Story, StoryView};
use super::Error;
use crate::decimal::{decimal_value, i64_value, int_text, lemma_i64_text_value, parse_i64, push_i64};
use crate::link::ParsedUrl;
use crate::text::{same_but_for_ascii_case, same_text};
use vstd::prelude::*;
use vstd::string::*;

verus! {

/// The host of Hacker News.
pub const HOST: &'static str = "news.ycombinator.com";

/// The path of the page of an item.
pub const ITEM_PATH: &'static str = "/item";

/// What the API sends for an item.
#[derive(Clone, Debug, PartialEq, Eq)]
pub enum Item {
    Comment(Comment),
    Story(Story),
}

/// The fields of an item as the API sends them, each absent or present.
/// `kind` is the field that the API calls `type`.
#[derive(Clone, Debug, PartialEq, Eq)]
pub struct RawItem {
    pub kind: Option<String>,
    pub id: Option<i64>,
    pub by: Option<String>,
    pub kids: Option<Vec<i64>>,
    pub text: Option<String>,
    pub time: Option<i64>,
    pub parent: Option<i64>,
    pub title: Option<String>,
    pub url: Option<String>,
    pub score: Option<i64>,
    pub descendants: Option<i64>,
}

/// The value of the first `id` parameter of a query.
pub open spec fn first_id(query: Seq<(String, String)>) -> Option<Seq<char>>
    decreases query.len(),
{
    if query.len() == 0 {
        None
    } else if query[0].0@ == "id"@ {
        Some(query[0].1@)
    } else {
        first_id(query.drop_first())
    }
}

/// The item that a URL names, or why it names none. The checks are made in
/// this order: the host, the path, the presence of `id`, its value.
pub open spec fn classify(url: ParsedUrl) -> Result<i64, Error> {
    if !(url.host matches Some(host) && host@ == HOST@) {
        Err(Error::UnsupportedHost)
    } else if url.path@ != ITEM_PATH@ {
        Err(Error::UnsupportedPath)
    } else {
        match first_id(url.query@) {
            None => Err(Error::MissingId),
            Some(value) => match i64_value(value) {
                None => Err(Error::MalformedId),
                Some(id) => Ok(id),
            },
        }
    }
}

/// Where the API serves an item.
pub open spec fn endpoint_of(id: i64) -> Seq<char> {
    "https://hacker-news.firebaseio.com/v0/item/"@ + int_text(id as int) + ".json"@
}

/// Whether raw fields have what a story needs.
pub open spec fn has_story_fields(raw: RawItem) -> bool {
    &&& raw.id is Some
    &&& raw.by is Some
    &&& raw.time is Some
    &&& raw.title is Some
    &&& raw.url is Some
    &&& raw.score is Some
    &&& raw.descendants is Some
}

/// Whether raw fields have what a comment needs.
pub open spec fn has_comment_fields(raw: RawItem) -> bool {
    &&& raw.id is Some
    &&& raw.by is Some
    &&& raw.text is Some
    &&& raw.time is Some
    &&& raw.parent is Some
}

/// Whether raw fields say that they are of the named kind.
pub open spec fn is_kind(raw: RawItem, name: Seq<char>) -> bool {
    raw.kind matches Some(kind) && same_but_for_ascii_case(kind@, name)
}

/// The text of a field, empty where the field is absent.
pub open spec fn text_or_empty(field: Option<String>) -> Seq<char> {
    match field {
        Some(text) => text@,
        None => Seq::empty(),
    }
}

/// The ids of a field, none where the field is absent.
pub open spec fn ids_or_none(field: Option<Vec<i64>>) -> Seq<i64> {
    match field {
        Some(ids) => ids@,
        None => Seq::empty(),
    }
}

/// The story that raw fields describe.
pub open spec fn story_of(raw: RawItem) -> StoryView {
    StoryView {
        id: raw.id->0,
        by: text_or_empty(raw.by),
        kids: ids_or_none(raw.kids),
        text: text_or_empty(raw.text),
        time: raw.time->0,
        title: text_or_empty(raw.title),
        url: text_or_empty(raw.url),
        score: raw.score->0,
        descendants: raw.descendants->0,
    }
}

/// The comment that raw fields describe.
pub open spec fn comment_of(raw: RawItem) -> CommentView {
    CommentView {
        id: raw.id->0,
        by: text_or_empty(raw.by),
        kids: ids_or_none(raw.kids),
        text: text_or_empty(raw.text),
        time: raw.time->0,
        parent: raw.parent->0,
    }
}

/// What `Item::from_raw` makes of raw fields: a comment or a story where the
/// kind says so and the fields that it needs are there, a failure otherwise.
pub open spec fn decoded(raw: RawItem, result: Result<Item, Error>) -> bool {
    if is_kind(raw, "comment"@) && has_comment_fields(raw) {
        result matches Ok(Item::Comment(comment)) && comment@ == comment_of(raw)
    } else if is_kind(raw, "story"@) && !is_kind(raw, "comment"@) && has_story_fields(raw) {
        result matches Ok(Item::Story(story)) && story@ == story_of(raw)
    } else {
        result == Err::<Item, Error>(Error::DecodeFailure)
    }
}

/// A URL of the item page names the item whose number its first `id` stands
/// for, whichever way the number is written.
pub proof fn lemma_classify_reads_id(url: ParsedUrl, value: Seq<char>, id: i64)
    requires
        url.host matches Some(host) && host@ == HOST@,
        url.path@ == ITEM_PATH@,
        first_id(url.query@) == Some(value),
        decimal_value(value) == Some(id as int),
    ensures
        classify(url) == Ok::<i64, Error>(id),
{
}

/// A URL of the item page whose `id` is a number as this library writes it
/// names the item of that number.
pub proof fn lemma_classify_reads_written_id(url: ParsedUrl, id: i64)
    requires
        url.host matches Some(host) && host@ == HOST@,
        url.path@ == ITEM_PATH@,
        first_id(url.query@) == Some(int_text(id as int)),
    ensures
        classify(url) == Ok::<i64, Error>(id),
{
    lemma_i64_text_value(id);
}

/// A URL of another host names no item, whatever else it holds.
pub proof fn lemma_classify_other_host(url: ParsedUrl)
    requires
        !(url.host matches Some(host) && host@ == HOST@),
    ensures
        classify(url) == Err::<i64, Error>(Error::UnsupportedHost),
{
}

fn text_or_default(field: Option<String>) -> (text: String)
    ensures
        text@ == text_or_empty(field),
{
    match field {
        Some(text) => text,
        None => String::new(),
    }
}

fn ids_or_default(field: Option<Vec<i64>>) -> (ids: Vec<i64>)
    ensures
        ids@ == ids_or_none(field),
{
    match field {
        Some(ids) => ids,
        None => Vec::new(),
    }
}

fn kind_is(kind: &Option<String>, name: &str) -> (same: bool)
    ensures
        same == (*kind matches Some(k) && same_but_for_ascii_case(k@, name@)),
{
    match kind {
        Some(k) => k.as_str().eq_ignore_ascii_case(name),
        None => false,
    }
}

impl Item {
    /// The address at which the API serves the item of a number.
    pub fn endpoint(id: i64) -> (url: String)
        ensures
            url@ == endpoint_of(id),
    {
        let mut url = String::from_str("https://hacker-news.firebaseio.com/v0/item/");
        push_i64(&mut url, id);
        url.append(".json");
        url
    }

    /// Makes an item of the fields that the API sent. The kind is told by
    /// `kind`, whatever the case of its letters. An absent body or an absent
    /// list of children is an empty one; any other absent field of the kind
    /// is a failure.
    pub fn from_raw(raw: RawItem) -> (result: Result<Item, Error>)
        ensures
            decoded(raw, result),
    {
        let is_comment = kind_is(&raw.kind, "comment");
        let is_story = kind_is(&raw.kind, "story");
        if is_comment {
            if raw.id.is_some() && raw.by.is_some() && raw.text.is_some() && raw.time.is_some()
                && raw.parent.is_some() {
                let comment = Comment::new(
                    raw.id.unwrap(),
                    text_or_default(raw.by),
                    ids_or_default(raw.kids),
                    text_or_default(raw.text),
                    raw.time.unwrap(),
                    raw.parent.unwrap(),
                );
                Ok(Item::Comment(comment))
            } else {
                Err(Error::DecodeFailure)
            }
        } else if is_story {
            if raw.id.is_some() && raw.by.is_some() && raw.time.is_some() && raw.title.is_some()
                && raw.url.is_some() && raw.score.is_some() && raw.descendants.is_some() {
                let story = Story::new(
                    raw.id.unwrap(),
                    text_or_default(raw.by),
                    ids_or_default(raw.kids),
                    text_or_default(raw.text),
                    raw.time.unwrap(),
                    text_or_default(raw.title),
                    text_or_default(raw.url),
                    raw.score.unwrap(),
                    raw.descendants.unwrap(),
                );
                Ok(Item::Story(story))
            } else {
                Err(Error::DecodeFailure)
            }
        } else {
            Err(Error::DecodeFailure)
        }
    }

    /// Tells which item a URL names: the URL must be of the host of Hacker
    /// News and of the path of an item, and carry the item's number in `id`.
    #[verifier::loop_isolation(false)]
    pub fn from_url(url: &ParsedUrl) -> (result: Result<i64, Error>)
        ensures
            result == classify(*url),
    {
        match &url.host {
            Some(host) => {
                if !same_text(host.as_str(), HOST) {
                    return Err(Error::UnsupportedHost);
                }
            },
            None => {
                return Err(Error::UnsupportedHost);
            },
        }
        if !same_text(url.path.as_str(), ITEM_PATH) {
            return Err(Error::UnsupportedPath);
        }
        let mut i: usize = 0;
        assert(url.query@.skip(0) == url.query@);
        while i < url.query.len()
            invariant
                i <= url.query.len(),
                first_id(url.query@) == first_id(url.query@.skip(i as int)),
            decreases url.query.len() - i,
        {
            assert(url.query@.skip(i as int).drop_first() == url.query@.skip(i + 1));
            assert(url.query@.skip(i as int)[0] == url.query@[i as int]);
            if same_text(url.query[i].0.as_str(), "id") {
                return match parse_i64(url.query[i].1.as_str()) {
                    Some(id) => Ok(id),
                    None => Err(Error::MalformedId),
                };
            }
            i += 1;
        }
        Err(Error::MissingId)
    }

    pub fn comment(self) -> (comment: Option<Comment>)
        ensures
            comment == match self {
                Item::Comment(c) => Some(c),
                Item::Story(_) => None,
            },
    {
        match self {
            Item::Comment(comment) => Some(comment),
            Item::Story(..) => None,
        }
    }

    pub fn story(self) -> (story: Option<Story>)
        ensures
            story == match self {
                Item::Story(s) => Some(s),
                Item::Comment(_) => None,
            },
    {
        match self {
            Item::Story(story) => Some(story),
            Item::Comment(..) => None,
        }
    }

    pub fn is_comment(&self) -> (yes: bool)
        ensures
            yes == (*self is Comment),
    {
        if let Item::Comment { .. } = *self {
            true
        } else {
            false
        }
    }

    pub fn is_story(&self) -> (yes: bool)
        ensures
            yes == (*self is Story),
    {
        if let Item::Story { .. } = *self {
            true
        } else {
            false
        }
    }
}

} // verus!
