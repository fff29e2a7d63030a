//! Hacker News: its items, the URLs that name them and their previews.

use vstd::prelude::*;
use vstd::string::*;

pub mod comment;
pub mod item;
pub mod previewer;
pub mod story;

pub use self::comment::Comment;
pub use self::item::Item;
pub use self::previewer::HackerNews;
pub use self::story::Story;

verus! {

/// The icon shown in the footer of a preview.
pub const THUMBNAIL: &'static str = "https://news.ycombinator.com/y18.gif";

/// The colour of a preview.
pub const ORANGE: u64 = 0xFF6600;

/// Why a URL was not previewed.
#[derive(Clone, Debug, PartialEq, Eq)]
pub enum Error {
    /// The host is not that of Hacker News: the URL is someone else's.
    UnsupportedHost,
    /// The path is not that of an item: the URL is someone else's.
    UnsupportedPath,
    /// The URL has no `id` query parameter.
    MissingId,
    /// The `id` query parameter is not a 64-bit integer in base ten.
    MalformedId,
    /// The item could not be fetched.
    Transport(String),
    /// What was fetched is not a story or a comment.
    DecodeFailure,
    /// A comment's chain of parents did not end within the allowed hops.
    AncestorLoopSuspected,
    /// The chat refused a message.
    Delivery(String),
    /// A body could not be converted.
    Markup(crate::util::html_to_markdown::Error),
    /// An event arrived that does not answer the pending request.
    UnexpectedEvent,
}

/// What an error says of itself: a fixed sentence for each kind, and for a
/// failure of the transport or of the chat the message that came with it.
pub open spec fn description_of(error: Error) -> Seq<char> {
    match error {
        Error::UnsupportedHost => "Host is not that of Hacker News (news.ycombinator.com)"@,
        Error::UnsupportedPath => "URL path is not correct (/item)"@,
        Error::MissingId => "URL is missing the id query parameter (id={id})"@,
        Error::MalformedId => "Couldn't parse URL id as an i64 integer"@,
        Error::Transport(message) => message@,
        Error::DecodeFailure => "The item is not a story or a comment"@,
        Error::AncestorLoopSuspected => "The parents of the comment do not lead to a story"@,
        Error::Delivery(message) => message@,
        Error::Markup(_) => "The HTML is too long to be parsed"@,
        Error::UnexpectedEvent => "The event does not answer the pending request"@,
    }
}

impl Error {
    /// The error in words, for a log.
    pub fn description(&self) -> (text: String)
        ensures
            text@ == description_of(*self),
    {
        match self {
            Error::UnsupportedHost => String::from_str(
                "Host is not that of Hacker News (news.ycombinator.com)",
            ),
            Error::UnsupportedPath => String::from_str("URL path is not correct (/item)"),
            Error::MissingId => String::from_str("URL is missing the id query parameter (id={id})"),
            Error::MalformedId => String::from_str("Couldn't parse URL id as an i64 integer"),
            Error::Transport(message) => message.clone(),
            Error::DecodeFailure => String::from_str("The item is not a story or a comment"),
            Error::AncestorLoopSuspected => String::from_str(
                "The parents of the comment do not lead to a story",
            ),
            Error::Delivery(message) => message.clone(),
            Error::Markup(_) => String::from_str("The HTML is too long to be parsed"),
            Error::UnexpectedEvent => String::from_str("The event does not answer the pending request"),
        }
    }
}

} // verus!
