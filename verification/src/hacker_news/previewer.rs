//! The previewer of Hacker News items.
//!
//! A story is previewed by one structured message. A comment is previewed by
//! a structured message that names its story, and then by its body as a
//! quotation. The story of a comment is found by walking up its parents.

use super::comment::{advance_spec, AncestorWalk, AncestorWalkView, Comment, CommentView, WalkOutcome, WalkStep};
use super::item::{classify, Item, HOST};
use super::story::{item_url, Story, StoryView};
use super::{Error, ORANGE, THUMBNAIL};
use crate::decimal::{int_text, nat_text, push_i64, push_u64};
use crate::link::ParsedUrl;
use crate::preview::{Action, Embed, Event, Outcome, Preview};
use crate::util::html_to_markdown::{fragment_fits, markdown_of, parsed_fragment};
use vstd::prelude::*;
use vstd::string::*;

verus! {

/// The previewer of Hacker News items.
#[derive(Clone, Copy, Debug, PartialEq, Eq)]
pub struct HackerNews;

/// Where the preview of an item stands.
#[derive(Debug, PartialEq, Eq)]
pub enum Progress {
    /// The item that the URL names is being fetched.
    AwaitingItem,
    /// The channel is being found, for a story.
    StoryChannel(Story),
    /// The message of a story is being sent.
    StorySent,
    /// The channel is being found, for a comment.
    CommentChannel(Comment),
    /// An ancestor of a comment is being fetched.
    CommentStory(Comment, AncestorWalk),
    /// The message of a comment is being sent.
    CommentEmbedSent(Comment),
    /// The body of a comment is being sent; the errors are those that the
    /// parser of the body recovered from.
    CommentQuoteSent(Vec<String>),
    /// The preview is over.
    Done,
}

/// The line under the title of a story: its points and its comments.
pub open spec fn story_description(score: i64, comments: nat) -> Seq<char> {
    "**"@ + int_text(score as int) + "** points. **"@ + nat_text(comments) + "** comments"@
}

/// The line under the title of a comment: its replies, if it has any, and
/// its author.
pub open spec fn comment_description(replies: nat, by: Seq<char>) -> Seq<char> {
    if replies == 0 {
        "by **"@ + by + "**"@
    } else {
        "**"@ + nat_text(replies) + "** replies. by **"@ + by + "**"@
    }
}

/// The title of the message of a comment.
pub open spec fn comment_title(story_title: Seq<char>) -> Seq<char> {
    "Comment on: "@ + story_title
}

/// The body of a comment as a quotation.
pub open spec fn quote_of(body: Seq<char>) -> Seq<char> {
    ":speech_left: **BEGIN QUOTE** :speech_balloon:\n"@ + body
        + "\n:speech_left: **END QUOTE** :speech_balloon:"@
}

/// Whether a message has the colour and the footer of a preview.
pub open spec fn is_branded(embed: Embed) -> bool {
    &&& embed.color == ORANGE
    &&& embed.footer_icon_url@ == THUMBNAIL@
    &&& embed.footer_text@ == "Hacker News"@
}

/// Whether a message is the preview of a story.
pub open spec fn is_story_embed(embed: Embed, story: StoryView) -> bool {
    &&& embed.url@ == item_url(story.id)
    &&& embed.title@ == story.title
    &&& embed.description@ == story_description(story.score, story.kids.len())
    &&& embed.timestamp == story.time
    &&& is_branded(embed)
}

/// Whether a message is the preview of a comment on a story.
pub open spec fn is_comment_embed(embed: Embed, comment: CommentView, story: StoryView) -> bool {
    &&& embed.url@ == item_url(comment.id)
    &&& embed.title@ == comment_title(story.title)
    &&& embed.description@ == comment_description(comment.kids.len(), comment.by)
    &&& embed.timestamp == comment.time
    &&& is_branded(embed)
}

/// Whether a preview is over with the given outcome.
pub open spec fn finished(next: Progress, action: Action, outcome: Outcome) -> bool {
    next == Progress::Done && action == Action::Finish(outcome)
}

/// How the previewer answers a URL: it asks for the item that the URL names.
/// A URL of another host or path is not its concern, and any other URL that
/// names no item is a failure.
pub open spec fn previewed(url: ParsedUrl, next: Progress, action: Action) -> bool {
    match classify(url) {
        Ok(id) => next == Progress::AwaitingItem && action == Action::Fetch(id),
        Err(Error::UnsupportedHost) | Err(Error::UnsupportedPath) => finished(
            next,
            action,
            Outcome::Ignored,
        ),
        Err(error) => finished(next, action, Outcome::Failed(error)),
    }
}

/// How the previewer answers the result of its last action.
///
/// Any failure ends the preview with that failure. A fetched story is sent
/// once the channel is found. For a fetched comment the channel is found,
/// the parents are walked up to the story, the message is sent, and then the
/// body as a quotation. An event that does not answer the last action ends
/// the preview.
pub open spec fn resumed(progress: Progress, event: Event, next: Progress, action: Action) -> bool {
    match (progress, event) {
        (Progress::AwaitingItem, Event::Fetched(Err(error))) => finished(
            next,
            action,
            Outcome::Failed(error),
        ),
        (Progress::AwaitingItem, Event::Fetched(Ok(Item::Story(story)))) => next
            == Progress::StoryChannel(story) && action == Action::OpenChannel,
        (Progress::AwaitingItem, Event::Fetched(Ok(Item::Comment(comment)))) => next
            == Progress::CommentChannel(comment) && action == Action::OpenChannel,
        (Progress::StoryChannel(_), Event::ChannelOpened(Err(error))) => finished(
            next,
            action,
            Outcome::Failed(error),
        ),
        (Progress::StoryChannel(story), Event::ChannelOpened(Ok(_))) => {
            &&& next == Progress::StorySent
            &&& action matches Action::SendEmbed(embed) && is_story_embed(embed, story@)
        },
        (Progress::StorySent, Event::Sent(Err(error))) => finished(
            next,
            action,
            Outcome::Failed(error),
        ),
        (Progress::StorySent, Event::Sent(Ok(_))) => {
            &&& next == Progress::Done
            &&& action matches Action::Finish(Outcome::Previewed(errors)) && errors@.len() == 0
        },
        (Progress::CommentChannel(_), Event::ChannelOpened(Err(error))) => finished(
            next,
            action,
            Outcome::Failed(error),
        ),
        (Progress::CommentChannel(comment), Event::ChannelOpened(Ok(_))) => {
            &&& next matches Progress::CommentStory(same, walk) && same == comment && walk@ == (
            AncestorWalkView { next: comment@.parent, hops: Seq::empty() })
            &&& action == Action::Fetch(comment@.parent)
        },
        (Progress::CommentStory(comment, walk), Event::Fetched(fetched)) => match advance_spec(
            walk@,
            fetched,
        ) {
            WalkOutcome::Pending(now) => {
                &&& next matches Progress::CommentStory(same, walk) && same == comment && walk@
                    == now
                &&& action == Action::Fetch(now.next)
            },
            WalkOutcome::Found(story) => {
                &&& next == Progress::CommentEmbedSent(comment)
                &&& action matches Action::SendEmbed(embed) && is_comment_embed(
                    embed,
                    comment@,
                    story@,
                )
            },
            WalkOutcome::Failed(error) => finished(next, action, Outcome::Failed(error)),
        },
        (Progress::CommentEmbedSent(_), Event::Sent(Err(error))) => finished(
            next,
            action,
            Outcome::Failed(error),
        ),
        (Progress::CommentEmbedSent(comment), Event::Sent(Ok(_))) => if !fragment_fits(
            comment@.text,
        ) {
            finished(
                next,
                action,
                Outcome::Failed(
                    Error::Markup(crate::util::html_to_markdown::Error::FragmentTooLong),
                ),
            )
        } else {
            &&& next matches Progress::CommentQuoteSent(errors) && errors == parsed_fragment(
                comment@.text,
            ).errors
            &&& action matches Action::Say(text) && text@ == quote_of(
                markdown_of(parsed_fragment(comment@.text).document),
            )
        },
        (Progress::CommentQuoteSent(_), Event::Sent(Err(error))) => finished(
            next,
            action,
            Outcome::Failed(error),
        ),
        (Progress::CommentQuoteSent(errors), Event::Sent(Ok(_))) => finished(
            next,
            action,
            Outcome::Previewed(errors),
        ),
        _ => finished(next, action, Outcome::Failed(Error::UnexpectedEvent)),
    }
}

/// A URL of another host is ignored, and nothing is fetched for it.
pub proof fn lemma_other_host_is_ignored(url: ParsedUrl, next: Progress, action: Action)
    requires
        !(url.host matches Some(host) && host@ == HOST@),
        previewed(url, next, action),
    ensures
        action == Action::Finish(Outcome::Ignored),
        next == Progress::Done,
{
}

/// Once a story has been fetched, nothing more is fetched: the preview goes
/// on to the channel, to the message and to its end, or fails.
pub proof fn lemma_story_is_never_walked(
    progress: Progress,
    event: Event,
    next: Progress,
    action: Action,
)
    requires
        resumed(progress, event, next, action),
        (progress is AwaitingItem && event matches Event::Fetched(Ok(Item::Story(_))))
            || progress is StoryChannel || progress is StorySent,
    ensures
        !(action is Fetch),
        next is StoryChannel || next is StorySent || next is Done,
{
}

fn branded(url: String, title: String, description: String, timestamp: i64) -> (embed: Embed)
    ensures
        embed.url == url,
        embed.title == title,
        embed.description == description,
        embed.timestamp == timestamp,
        is_branded(embed),
{
    Embed {
        url,
        title,
        description,
        color: ORANGE,
        timestamp,
        footer_icon_url: String::from_str(THUMBNAIL),
        footer_text: String::from_str("Hacker News"),
    }
}

fn finish(outcome: Outcome) -> (step: (Progress, Action))
    ensures
        finished(step.0, step.1, outcome),
{
    (Progress::Done, Action::Finish(outcome))
}

/// The message that previews a story.
pub fn story_embed(story: &Story) -> (embed: Embed)
    ensures
        is_story_embed(embed, story@),
{
    let mut description = String::from_str("**");
    push_i64(&mut description, story.score());
    description.append("** points. **");
    push_u64(&mut description, story.kids().len() as u64);
    description.append("** comments");
    branded(story.url(), String::from_str(story.title()), description, story.time())
}

/// The message that previews a comment on a story.
pub fn comment_embed(comment: &Comment, story: &Story) -> (embed: Embed)
    ensures
        is_comment_embed(embed, comment@, story@),
{
    let replies = comment.kids().len();
    let mut description = String::new();
    if replies == 0 {
        description.append("by **");
    } else {
        description.append("**");
        push_u64(&mut description, replies as u64);
        description.append("** replies. by **");
    }
    description.append(comment.by());
    description.append("**");
    let mut title = String::from_str("Comment on: ");
    title.append(story.title());
    assert(description@ == comment_description(comment@.kids.len(), comment@.by));
    branded(comment.url(), title, description, comment.time())
}

/// The body of a comment as a quotation.
pub fn quote(body: &str) -> (text: String)
    ensures
        text@ == quote_of(body@),
{
    let mut text = String::from_str(":speech_left: **BEGIN QUOTE** :speech_balloon:\n");
    text.append(body);
    text.append("\n:speech_left: **END QUOTE** :speech_balloon:");
    text
}

impl HackerNews {
    /// Starts the preview of a fetched story: the channel is to be found.
    pub fn preview_story(&self, story: Story) -> (step: (Progress, Action))
        ensures
            step.0 == Progress::StoryChannel(story),
            step.1 == Action::OpenChannel,
    {
        (Progress::StoryChannel(story), Action::OpenChannel)
    }

    /// Starts the preview of a fetched comment: the channel is to be found.
    pub fn preview_comment(&self, comment: Comment) -> (step: (Progress, Action))
        ensures
            step.0 == Progress::CommentChannel(comment),
            step.1 == Action::OpenChannel,
    {
        (Progress::CommentChannel(comment), Action::OpenChannel)
    }

    fn after_walk(&self, comment: Comment, step: WalkStep) -> (next: (Progress, Action))
        ensures
            match step.outcome() {
                WalkOutcome::Pending(now) => {
                    &&& next.0 matches Progress::CommentStory(same, walk) && same == comment
                        && walk@ == now
                    &&& next.1 == Action::Fetch(now.next)
                },
                WalkOutcome::Found(story) => {
                    &&& next.0 == Progress::CommentEmbedSent(comment)
                    &&& next.1 matches Action::SendEmbed(embed) && is_comment_embed(
                        embed,
                        comment@,
                        story@,
                    )
                },
                WalkOutcome::Failed(error) => finished(next.0, next.1, Outcome::Failed(error)),
            },
    {
        match step {
            WalkStep::Continue(walk) => {
                let id = walk.next();
                (Progress::CommentStory(comment, walk), Action::Fetch(id))
            },
            WalkStep::Found(story) => {
                let embed = comment_embed(&comment, &story);
                (Progress::CommentEmbedSent(comment), Action::SendEmbed(embed))
            },
            WalkStep::Failed(error) => finish(Outcome::Failed(error)),
        }
    }

    fn quote_body(&self, comment: Comment) -> (next: (Progress, Action))
        ensures
            resumed(Progress::CommentEmbedSent(comment), Event::Sent(Ok(())), next.0, next.1),
    {
        match comment.text_as_markdown() {
            Ok(done) => (Progress::CommentQuoteSent(done.errors), Action::Say(quote(done.markdown.as_str()))),
            Err(error) => finish(Outcome::Failed(error)),
        }
    }
}

impl Preview for HackerNews {
    type Progress = Progress;

    fn preview(&self, url: &ParsedUrl) -> (step: (Progress, Action))
        ensures
            previewed(*url, step.0, step.1),
    {
        match Item::from_url(url) {
            Ok(id) => (Progress::AwaitingItem, Action::Fetch(id)),
            Err(Error::UnsupportedHost) => finish(Outcome::Ignored),
            Err(Error::UnsupportedPath) => finish(Outcome::Ignored),
            Err(error) => finish(Outcome::Failed(error)),
        }
    }

    fn resume(&self, progress: Progress, event: Event) -> (step: (Progress, Action))
        ensures
            resumed(progress, event, step.0, step.1),
    {
        match progress {
            Progress::AwaitingItem => match event {
                Event::Fetched(Ok(Item::Story(story))) => self.preview_story(story),
                Event::Fetched(Ok(Item::Comment(comment))) => self.preview_comment(comment),
                Event::Fetched(Err(error)) => finish(Outcome::Failed(error)),
                _ => finish(Outcome::Failed(Error::UnexpectedEvent)),
            },
            Progress::StoryChannel(story) => match event {
                Event::ChannelOpened(Ok(_)) => (Progress::StorySent, Action::SendEmbed(story_embed(&story))),
                Event::ChannelOpened(Err(error)) => finish(Outcome::Failed(error)),
                _ => finish(Outcome::Failed(Error::UnexpectedEvent)),
            },
            Progress::StorySent => match event {
                Event::Sent(Ok(_)) => (Progress::Done, Action::Finish(Outcome::Previewed(Vec::new()))),
                Event::Sent(Err(error)) => finish(Outcome::Failed(error)),
                _ => finish(Outcome::Failed(Error::UnexpectedEvent)),
            },
            Progress::CommentChannel(comment) => match event {
                Event::ChannelOpened(Ok(_)) => {
                    let walk = comment.get_story();
                    let id = walk.next();
                    (Progress::CommentStory(comment, walk), Action::Fetch(id))
                },
                Event::ChannelOpened(Err(error)) => finish(Outcome::Failed(error)),
                _ => finish(Outcome::Failed(Error::UnexpectedEvent)),
            },
            Progress::CommentStory(comment, walk) => match event {
                Event::Fetched(fetched) => {
                    let step = walk.advance(fetched);
                    self.after_walk(comment, step)
                },
                _ => finish(Outcome::Failed(Error::UnexpectedEvent)),
            },
            Progress::CommentEmbedSent(comment) => match event {
                Event::Sent(Ok(_)) => self.quote_body(comment),
                Event::Sent(Err(error)) => finish(Outcome::Failed(error)),
                _ => finish(Outcome::Failed(Error::UnexpectedEvent)),
            },
            Progress::CommentQuoteSent(errors) => match event {
                Event::Sent(Ok(_)) => finish(Outcome::Previewed(errors)),
                Event::Sent(Err(error)) => finish(Outcome::Failed(error)),
                _ => finish(Outcome::Failed(Error::UnexpectedEvent)),
            },
            Progress::Done => finish(Outcome::Failed(Error::UnexpectedEvent)),
        }
    }
}

} // verus!
