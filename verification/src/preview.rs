//! What a previewer is.
//!
//! A previewer does not fetch or send anything itself. It is offered a URL
//! and answers with what it wants done; when that is done it is told the
//! result and answers again, until it is finished.

use crate::hacker_news::{Error, Item};
use crate::link::ParsedUrl;
use vstd::prelude::*;

verus! {

/// A structured message for the chat.
#[derive(Clone, Debug, PartialEq, Eq)]
pub struct Embed {
    pub url: String,
    pub title: String,
    pub description: String,
    pub color: u64,
    /// In seconds since the Unix epoch.
    pub timestamp: i64,
    pub footer_icon_url: String,
    pub footer_text: String,
}

/// How a preview ended.
#[derive(Clone, Debug, PartialEq, Eq)]
pub enum Outcome {
    /// The preview was sent. The errors are those that the parser of the body
    /// recovered from, if a body was converted.
    Previewed(Vec<String>),
    /// The URL is not one of this previewer's.
    Ignored,
    /// The URL is one of this previewer's, and the preview failed.
    Failed(Error),
}

/// What a previewer wants done next.
#[derive(Clone, Debug, PartialEq, Eq)]
pub enum Action {
    /// Fetch the item of this number.
    Fetch(i64),
    /// Find the channel of the message that held the URL.
    OpenChannel,
    /// Send a structured message to the channel.
    SendEmbed(Embed),
    /// Send a plain message to the channel.
    Say(String),
    /// Nothing: the preview is over.
    Finish(Outcome),
}

/// The result of what a previewer wanted done.
#[derive(Debug, PartialEq, Eq)]
pub enum Event {
    /// Answers `Action::Fetch`.
    Fetched(Result<Item, Error>),
    /// Answers `Action::OpenChannel`.
    ChannelOpened(Result<(), Error>),
    /// Answers `Action::SendEmbed` and `Action::Say`.
    Sent(Result<(), Error>),
}

/// A type that can preview a URL.
pub trait Preview {
    /// Where a preview stands between two actions.
    type Progress;

    /// Offers a URL. A previewer that the URL does not concern answers
    /// `Action::Finish(Outcome::Ignored)`.
    fn preview(&self, url: &ParsedUrl) -> (Self::Progress, Action);

    /// Hands over the result of the last action.
    fn resume(&self, progress: Self::Progress, event: Event) -> (Self::Progress, Action);
}

} // verus!
