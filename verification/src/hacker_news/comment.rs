//! Comments, and the walk from a comment up to its story.

use super::item::Item;
use super::story::{body_conversion, convert_body, item_url, user_url, write_item_url, write_user_url, Story};
use super::Error;
use crate::util::html_to_markdown::Conversion;
use vstd::prelude::*;

verus! {

/// The most items that a walk fetches before it gives up.
pub const MAX_ANCESTOR_HOPS: usize = 64;

/// A comment: a reply to a story or to another comment.
#[derive(Clone, Debug, PartialEq, Eq)]
pub struct Comment {
    id: i64,
    by: String,
    kids: Vec<i64>,
    text: String,
    time: i64,
    parent: i64,
}

/// What a comment holds.
pub struct CommentView {
    pub id: i64,
    pub by: Seq<char>,
    pub kids: Seq<i64>,
    pub text: Seq<char>,
    pub time: i64,
    pub parent: i64,
}

impl View for Comment {
    type V = CommentView;

    closed spec fn view(&self) -> CommentView {
        CommentView {
            id: self.id,
            by: self.by@,
            kids: self.kids@,
            text: self.text@,
            time: self.time,
            parent: self.parent,
        }
    }
}

/// A walk up the parents of a comment, between two fetches.
#[derive(Clone, Debug, PartialEq, Eq)]
pub struct AncestorWalk {
    next: i64,
    hops: Vec<i64>,
}

/// Where a walk stands: the item to fetch now, and those fetched so far.
pub struct AncestorWalkView {
    pub next: i64,
    pub hops: Seq<i64>,
}

impl View for AncestorWalk {
    type V = AncestorWalkView;

    closed spec fn view(&self) -> AncestorWalkView {
        AncestorWalkView { next: self.next, hops: self.hops@ }
    }
}

/// What a walk does with a fetched item.
#[derive(Clone, Debug, PartialEq, Eq)]
pub enum WalkStep {
    /// The item was a comment: its parent is to be fetched next.
    Continue(AncestorWalk),
    /// The item was the story.
    Found(Story),
    /// The walk is over without a story.
    Failed(Error),
}

/// Where a walk stands after some fetches.
pub enum WalkOutcome {
    Pending(AncestorWalkView),
    Found(Story),
    Failed(Error),
}

impl WalkStep {
    /// The step with the walk taken by its view.
    pub open spec fn outcome(self) -> WalkOutcome {
        match self {
            WalkStep::Continue(walk) => WalkOutcome::Pending(walk@),
            WalkStep::Found(story) => WalkOutcome::Found(story),
            WalkStep::Failed(error) => WalkOutcome::Failed(error),
        }
    }
}

/// One step of a walk: a failed fetch ends it with that failure, a story ends
/// it, and a comment sends it on to the comment's parent, unless that would
/// be one fetch too many.
pub open spec fn advance_spec(walk: AncestorWalkView, fetched: Result<Item, Error>) -> WalkOutcome {
    match fetched {
        Err(error) => WalkOutcome::Failed(error),
        Ok(Item::Story(story)) => WalkOutcome::Found(story),
        Ok(Item::Comment(comment)) => if walk.hops.len() + 1 >= MAX_ANCESTOR_HOPS {
            WalkOutcome::Failed(Error::AncestorLoopSuspected)
        } else {
            WalkOutcome::Pending(
                AncestorWalkView { next: comment@.parent, hops: walk.hops.push(walk.next) },
            )
        },
    }
}

/// A walk fed the results of its fetches one after the other, as long as it
/// goes on.
pub open spec fn run(walk: AncestorWalkView, fetched: Seq<Result<Item, Error>>) -> WalkOutcome
    decreases fetched.len(),
{
    if fetched.len() == 0 {
        WalkOutcome::Pending(walk)
    } else {
        match advance_spec(walk, fetched[0]) {
            WalkOutcome::Pending(next) => run(next, fetched.drop_first()),
            over => over,
        }
    }
}

/// The answers of a source in which each of `comments` is the parent of the
/// one before it and `story` is the parent of the last.
pub open spec fn chain(comments: Seq<Comment>, story: Story) -> Seq<Result<Item, Error>> {
    comments.map_values(|c: Comment| Ok::<Item, Error>(Item::Comment(c))).push(
        Ok(Item::Story(story)),
    )
}

/// A walk still under way has made one fetch for each answer it was fed, and
/// fewer than `MAX_ANCESTOR_HOPS`: no walk goes on for ever.
pub proof fn lemma_walk_is_bounded(walk: AncestorWalkView, fetched: Seq<Result<Item, Error>>)
    requires
        walk.hops.len() < MAX_ANCESTOR_HOPS,
    ensures
        run(walk, fetched) matches WalkOutcome::Pending(now) ==> now.hops.len() == walk.hops.len()
            + fetched.len() && now.hops.len() < MAX_ANCESTOR_HOPS,
        walk.hops.len() + fetched.len() >= MAX_ANCESTOR_HOPS ==> !(run(walk, fetched) is Pending),
    decreases fetched.len(),
{
    if fetched.len() > 0 {
        match advance_spec(walk, fetched[0]) {
            WalkOutcome::Pending(next) => {
                lemma_walk_is_bounded(next, fetched.drop_first());
            },
            _ => {},
        }
    }
}

/// Along a chain of comments that ends in a story, a walk fetches each
/// comment's parent in turn and then finds the story: one fetch for each
/// comment and one for the story, and no other. This holds where the chain
/// is short enough for the fetches allowed.
pub proof fn lemma_walk_finds_story(
    walk: AncestorWalkView,
    comments: Seq<Comment>,
    story: Story,
    k: int,
)
    requires
        walk.hops.len() + comments.len() < MAX_ANCESTOR_HOPS,
        0 <= k <= comments.len(),
    ensures
        run(walk, chain(comments, story)) == WalkOutcome::Found(story),
        run(walk, chain(comments, story).take(k)) matches WalkOutcome::Pending(now) && now.next == (
        if k == 0 {
            walk.next
        } else {
            comments[k - 1]@.parent
        }) && now.hops.len() == walk.hops.len() + k,
    decreases comments.len(),
{
    let answers = chain(comments, story);
    if comments.len() == 0 {
        assert(answers.take(0).len() == 0);
    } else {
        let next = AncestorWalkView { next: comments[0]@.parent, hops: walk.hops.push(walk.next) };
        let rest = comments.drop_first();
        assert(answers[0] == Ok::<Item, Error>(Item::Comment(comments[0])));
        assert(advance_spec(walk, answers[0]) == WalkOutcome::Pending(next));
        assert(answers.drop_first() == chain(rest, story));
        if k == 0 {
            lemma_walk_finds_story(next, rest, story, 0);
            assert(answers.take(0).len() == 0);
        } else {
            lemma_walk_finds_story(next, rest, story, k - 1);
            assert(answers.take(k)[0] == answers[0]);
            assert(answers.take(k).drop_first() == chain(rest, story).take(k - 1));
        }
    }
}

impl AncestorWalk {
    /// The item that is to be fetched now.
    pub fn next(&self) -> (id: i64)
        ensures
            id == self@.next,
    {
        self.next
    }

    /// The items fetched so far, in the order they were fetched.
    pub fn hops(&self) -> (hops: &[i64])
        ensures
            hops@ == self@.hops,
    {
        self.hops.as_slice()
    }

    /// Takes the result of fetching `next`, and says how the walk goes on.
    pub fn advance(self, fetched: Result<Item, Error>) -> (step: WalkStep)
        ensures
            step.outcome() == advance_spec(self@, fetched),
    {
        match fetched {
            Err(error) => WalkStep::Failed(error),
            Ok(Item::Story(story)) => WalkStep::Found(story),
            Ok(Item::Comment(comment)) => {
                if self.hops.len() >= MAX_ANCESTOR_HOPS - 1 {
                    WalkStep::Failed(Error::AncestorLoopSuspected)
                } else {
                    let mut hops = self.hops;
                    hops.push(self.next);
                    WalkStep::Continue(AncestorWalk { next: comment.parent, hops })
                }
            },
        }
    }
}

impl Comment {
    /// A comment of the given parts. `time` is in seconds since the Unix epoch.
    pub fn new(id: i64, by: String, kids: Vec<i64>, text: String, time: i64, parent: i64) -> (comment:
        Comment)
        ensures
            comment@ == (CommentView { id, by: by@, kids: kids@, text: text@, time, parent }),
    {
        Comment { id, by, kids, text, time, parent }
    }

    /// Starts the walk to the story that this comment belongs to. The first
    /// item to fetch is the comment's parent, and each fetched item is handed
    /// to `AncestorWalk::advance`.
    pub fn get_story(&self) -> (walk: AncestorWalk)
        ensures
            walk@ == (AncestorWalkView { next: self@.parent, hops: Seq::empty() }),
    {
        AncestorWalk { next: self.parent, hops: Vec::new() }
    }

    pub fn id(&self) -> (id: i64)
        ensures
            id == self@.id,
    {
        self.id
    }

    pub fn by(&self) -> (by: &str)
        ensures
            by@ == self@.by,
    {
        self.by.as_str()
    }

    pub fn kids(&self) -> (kids: &[i64])
        ensures
            kids@ == self@.kids,
    {
        self.kids.as_slice()
    }

    pub fn text(&self) -> (text: &str)
        ensures
            text@ == self@.text,
    {
        self.text.as_str()
    }

    /// The body as flat formatted text.
    pub fn text_as_markdown(&self) -> (result: Result<Conversion, Error>)
        ensures
            body_conversion(self@.text, result),
    {
        convert_body(self.text.as_str())
    }

    /// When the comment was submitted, in seconds since the Unix epoch.
    pub fn time(&self) -> (time: i64)
        ensures
            time == self@.time,
    {
        self.time
    }

    /// The item that the comment replies to.
    pub fn parent(&self) -> (parent: i64)
        ensures
            parent == self@.parent,
    {
        self.parent
    }

    /// The address of the comment's page on Hacker News.
    pub fn url(&self) -> (url: String)
        ensures
            url@ == item_url(self@.id),
    {
        write_item_url(self.id)
    }

    /// The address of the page of the comment's author.
    pub fn author_url(&self) -> (url: String)
        ensures
            url@ == user_url(self@.by),
    {
        write_user_url(self.by.as_str())
    }
}

} // verus!
