//! Stories.

use super::Error;
use crate::decimal::{int_text, push_i64};
use crate::util::html_to_markdown::{conversion_of, convert, fragment_fits, parsed_fragment, Conversion};
use vstd::prelude::*;
use vstd::string::*;

verus! {

/// The address of the page of an item.
pub open spec fn item_url(id: i64) -> Seq<char> {
    "https://news.ycombinator.com/item?id="@ + int_text(id as int)
}

/// The address of the page of a user.
pub open spec fn user_url(name: Seq<char>) -> Seq<char> {
    "https://news.ycombinator.com/user?id="@ + name
}

/// Writes the address of the page of an item.
pub fn write_item_url(id: i64) -> (url: String)
    ensures
        url@ == item_url(id),
{
    let mut url = String::from_str("https://news.ycombinator.com/item?id=");
    push_i64(&mut url, id);
    url
}

/// Writes the address of the page of a user.
pub fn write_user_url(name: &str) -> (url: String)
    ensures
        url@ == user_url(name@),
{
    let mut url = String::from_str("https://news.ycombinator.com/user?id=");
    url.append(name);
    url
}

/// What `text_as_markdown` returns for a body: what the converter returns
/// for it, with the converter's refusal as an `Error`.
pub open spec fn body_conversion(text: Seq<char>, result: Result<Conversion, Error>) -> bool {
    if fragment_fits(text) {
        result is Ok && conversion_of(parsed_fragment(text), result->Ok_0)
    } else {
        result == Err::<Conversion, Error>(
            Error::Markup(crate::util::html_to_markdown::Error::FragmentTooLong),
        )
    }
}

/// Converts the body of an item, with the converter's refusal as an `Error`.
pub fn convert_body(text: &str) -> (result: Result<Conversion, Error>)
    ensures
        body_conversion(text@, result),
{
    match convert(text) {
        Ok(done) => Ok(done),
        Err(e) => Err(Error::Markup(e)),
    }
}

/// A story: a submission at the root of a discussion.
#[derive(Clone, Debug, PartialEq, Eq)]
pub struct Story {
    id: i64,
    by: String,
    kids: Vec<i64>,
    text: String,
    time: i64,
    title: String,
    url: String,
    score: i64,
    descendants: i64,
}

/// What a story holds.
pub struct StoryView {
    pub id: i64,
    pub by: Seq<char>,
    pub kids: Seq<i64>,
    pub text: Seq<char>,
    pub time: i64,
    pub title: Seq<char>,
    pub url: Seq<char>,
    pub score: i64,
    pub descendants: i64,
}

impl View for Story {
    type V = StoryView;

    closed spec fn view(&self) -> StoryView {
        StoryView {
            id: self.id,
            by: self.by@,
            kids: self.kids@,
            text: self.text@,
            time: self.time,
            title: self.title@,
            url: self.url@,
            score: self.score,
            descendants: self.descendants,
        }
    }
}

impl Story {
    /// A story of the given parts. `time` is in seconds since the Unix epoch;
    /// `text` and `url` are empty where the story has none.
    pub fn new(
        id: i64,
        by: String,
        kids: Vec<i64>,
        text: String,
        time: i64,
        title: String,
        url: String,
        score: i64,
        descendants: i64,
    ) -> (story: Story)
        ensures
            story@ == (StoryView {
                id,
                by: by@,
                kids: kids@,
                text: text@,
                time,
                title: title@,
                url: url@,
                score,
                descendants,
            }),
    {
        Story { id, by, kids, text, time, title, url, score, descendants }
    }

    pub fn id(&self) -> (id: i64)
        ensures
            id == self@.id,
    {
        self.id
    }

    pub fn by(&self) -> (by: &str)
        ensures
            by@ == self@.by,
    {
        self.by.as_str()
    }

    pub fn kids(&self) -> (kids: &[i64])
        ensures
            kids@ == self@.kids,
    {
        self.kids.as_slice()
    }

    pub fn text(&self) -> (text: &str)
        ensures
            text@ == self@.text,
    {
        self.text.as_str()
    }

    /// The body as flat formatted text.
    pub fn text_as_markdown(&self) -> (result: Result<Conversion, Error>)
        ensures
            body_conversion(self@.text, result),
    {
        convert_body(self.text.as_str())
    }

    /// When the story was submitted, in seconds since the Unix epoch.
    pub fn time(&self) -> (time: i64)
        ensures
            time == self@.time,
    {
        self.time
    }

    pub fn title(&self) -> (title: &str)
        ensures
            title@ == self@.title,
    {
        self.title.as_str()
    }

    /// The address of the story's page on Hacker News.
    pub fn url(&self) -> (url: String)
        ensures
            url@ == item_url(self@.id),
    {
        write_item_url(self.id)
    }

    pub fn score(&self) -> (score: i64)
        ensures
            score == self@.score,
    {
        self.score
    }

    pub fn descendants(&self) -> (descendants: i64)
        ensures
            descendants == self@.descendants,
    {
        self.descendants
    }

    /// The address of the page of the story's author.
    pub fn author_url(&self) -> (url: String)
        ensures
            url@ == user_url(self@.by),
    {
        write_user_url(self.by.as_str())
    }
}

} // verus!
