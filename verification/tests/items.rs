use chrono::{DateTime, Utc};
use hn_preview::hacker_news::comment::{WalkStep, MAX_ANCESTOR_HOPS};
use hn_preview::hacker_news::item::RawItem;
use hn_preview::hacker_news::{Comment, Error, Item, Story};
use hn_preview::link::ParsedUrl;
use hn_preview::util::html_to_markdown::Conversion;

fn empty_raw() -> RawItem {
    RawItem {
        kind: None,
        id: None,
        by: None,
        kids: None,
        text: None,
        time: None,
        parent: None,
        title: None,
        url: None,
        score: None,
        descendants: None,
    }
}

fn raw_comment(id: i64, parent: i64) -> RawItem {
    RawItem {
        kind: Some("comment".to_string()),
        id: Some(id),
        by: Some("someone".to_string()),
        text: Some("a <i>reply</i>".to_string()),
        time: Some(1500000000),
        parent: Some(parent),
        ..empty_raw()
    }
}

fn raw_story(id: i64) -> RawItem {
    RawItem {
        kind: Some("story".to_string()),
        id: Some(id),
        by: Some("poster".to_string()),
        time: Some(1500000000),
        title: Some("A story".to_string()),
        url: Some("https://example.test/".to_string()),
        score: Some(10),
        descendants: Some(3),
        ..empty_raw()
    }
}

fn item_url(query: &[(&str, &str)]) -> ParsedUrl {
    ParsedUrl {
        host: Some("news.ycombinator.com".to_string()),
        path: "/item".to_string(),
        query: query.iter().map(|(k, v)| (k.to_string(), v.to_string())).collect(),
        text: String::new(),
    }
}

/// A source of items held in memory, and the number of fetches made.
fn fetch(source: &[RawItem], id: i64, fetches: &mut usize) -> Result<Item, Error> {
    *fetches += 1;
    match source.iter().find(|raw| raw.id == Some(id)) {
        Some(raw) => Item::from_raw(raw.clone()),
        None => Err(Error::Transport(format!("no item {}", id))),
    }
}

fn resolve(comment: &Comment, source: &[RawItem], fetches: &mut usize) -> Result<Story, Error> {
    let mut walk = comment.get_story();
    loop {
        let fetched = fetch(source, walk.next(), fetches);
        match walk.advance(fetched) {
            WalkStep::Continue(next) => walk = next,
            WalkStep::Found(story) => return Ok(story),
            WalkStep::Failed(error) => return Err(error),
        }
    }
}

#[test]
fn test_item_parse() {
    let raw = RawItem {
        kind: Some("comment".to_string()),
        id: Some(13028891),
        by: Some("filereaper".to_string()),
        kids: Some(vec![13029453, 13028998, 13029094, 13029028]),
        text: Some("Some text".to_string()),
        time: Some(1479973426),
        parent: Some(13028156),
        ..empty_raw()
    };
    let item = Item::from_raw(raw).expect("Couldn't get the item");
    let comment = item.comment().expect("Not a comment!");

    assert_eq!(13028891, comment.id());
    assert_eq!("filereaper", comment.by());
    assert_eq!("https://news.ycombinator.com/item?id=13028891", comment.url());
    assert_eq!("https://news.ycombinator.com/user?id=filereaper", comment.author_url());
    assert_eq!(&[13029453, 13028998, 13029094, 13029028], comment.kids());

    let expected_time: DateTime<Utc> = DateTime::from_timestamp(1479973426, 0).expect("a time in range");

    assert_eq!(expected_time, DateTime::from_timestamp(comment.time(), 0).expect("a time in range"));
}

#[test]
fn test_get_story() {
    let source = vec![
        raw_comment(14775602, 14775263),
        raw_comment(14775263, 14774589),
        raw_comment(14774589, 14774167),
        raw_story(14774167),
    ];
    let mut fetches = 0;
    let deep = fetch(&source, 14775602, &mut fetches).expect("Couldn't get item");
    let root = resolve(&deep.comment().expect("Not a comment!"), &source, &mut fetches)
        .expect("Item didn't have a parent");

    assert_eq!(14774167, root.id());
}

#[test]
fn walk_over_two_comments_makes_two_more_fetches() {
    // C1 -> C2 -> S
    let source = vec![raw_comment(1, 2), raw_comment(2, 3), raw_story(3)];
    let mut fetches = 0;
    let c1 = fetch(&source, 1, &mut fetches).expect("C1").comment().expect("a comment");
    assert_eq!(fetches, 1);
    let story = resolve(&c1, &source, &mut fetches).expect("the story");
    assert_eq!(fetches, 3);
    assert_eq!(story.id(), 3);
    assert_eq!(story.title(), "A story");
}

#[test]
fn walk_records_what_it_fetched() {
    let c1 = Item::from_raw(raw_comment(1, 2)).expect("C1").comment().expect("a comment");
    let walk = c1.get_story();
    assert_eq!(walk.next(), 2);
    assert_eq!(walk.hops(), &[] as &[i64]);
    let walk = match walk.advance(Item::from_raw(raw_comment(2, 3))) {
        WalkStep::Continue(walk) => walk,
        other => panic!("the walk should go on, not {:?}", other),
    };
    assert_eq!(walk.next(), 3);
    assert_eq!(walk.hops(), &[2]);
    match walk.advance(Item::from_raw(raw_story(3))) {
        WalkStep::Found(story) => assert_eq!(story.id(), 3),
        other => panic!("the walk should have found the story, not {:?}", other),
    }
}

#[test]
fn walk_stops_at_a_failed_fetch() {
    let source = vec![raw_comment(1, 2), raw_comment(2, 3)];
    let mut fetches = 0;
    let c1 = fetch(&source, 1, &mut fetches).expect("C1").comment().expect("a comment");
    let result = resolve(&c1, &source, &mut fetches);
    assert_eq!(result, Err(Error::Transport("no item 3".to_string())));
    assert_eq!(fetches, 3);
}

#[test]
fn walk_gives_up_on_a_cycle() {
    let source = vec![raw_comment(1, 2), raw_comment(2, 1)];
    let mut fetches = 0;
    let c1 = fetch(&source, 1, &mut fetches).expect("C1").comment().expect("a comment");
    let result = resolve(&c1, &source, &mut fetches);
    assert_eq!(result, Err(Error::AncestorLoopSuspected));
    assert_eq!(fetches, 1 + MAX_ANCESTOR_HOPS);
}

#[test]
fn walk_reaches_a_story_at_the_last_allowed_hop() {
    let mut source: Vec<RawItem> = (0..MAX_ANCESTOR_HOPS as i64).map(|i| raw_comment(i, i + 1)).collect();
    source.push(raw_story(MAX_ANCESTOR_HOPS as i64));
    let mut fetches = 0;
    let start = fetch(&source, 0, &mut fetches).expect("the start").comment().expect("a comment");
    let story = resolve(&start, &source, &mut fetches).expect("the story");
    assert_eq!(story.id(), MAX_ANCESTOR_HOPS as i64);
    assert_eq!(fetches, 1 + MAX_ANCESTOR_HOPS);
}

#[test]
fn walk_gives_up_one_hop_past_the_limit() {
    let mut source: Vec<RawItem> = (0..=MAX_ANCESTOR_HOPS as i64).map(|i| raw_comment(i, i + 1)).collect();
    source.push(raw_story(MAX_ANCESTOR_HOPS as i64 + 1));
    let mut fetches = 0;
    let start = fetch(&source, 0, &mut fetches).expect("the start").comment().expect("a comment");
    assert_eq!(resolve(&start, &source, &mut fetches), Err(Error::AncestorLoopSuspected));
}

#[test]
fn url_of_another_host_is_unsupported() {
    let mut url = item_url(&[("id", "1")]);
    url.host = Some("example.com".to_string());
    assert_eq!(Item::from_url(&url), Err(Error::UnsupportedHost));
    url.host = Some("NEWS.YCOMBINATOR.COM".to_string());
    assert_eq!(Item::from_url(&url), Err(Error::UnsupportedHost));
    url.host = Some("www.news.ycombinator.com".to_string());
    assert_eq!(Item::from_url(&url), Err(Error::UnsupportedHost));
}

#[test]
fn url_without_host_is_unsupported() {
    let mut url = item_url(&[("id", "1")]);
    url.host = None;
    assert_eq!(Item::from_url(&url), Err(Error::UnsupportedHost));
}

#[test]
fn host_is_checked_before_path() {
    let mut url = item_url(&[]);
    url.host = Some("example.com".to_string());
    url.path = "/elsewhere".to_string();
    assert_eq!(Item::from_url(&url), Err(Error::UnsupportedHost));
}

#[test]
fn url_of_another_path_is_unsupported() {
    let mut url = item_url(&[("id", "1")]);
    url.path = "/user".to_string();
    assert_eq!(Item::from_url(&url), Err(Error::UnsupportedPath));
    url.path = "/item/".to_string();
    assert_eq!(Item::from_url(&url), Err(Error::UnsupportedPath));
    url.path = "/".to_string();
    assert_eq!(Item::from_url(&url), Err(Error::UnsupportedPath));
}

#[test]
fn url_without_id_is_missing_it() {
    assert_eq!(Item::from_url(&item_url(&[])), Err(Error::MissingId));
    assert_eq!(Item::from_url(&item_url(&[("p", "2"), ("ID", "3")])), Err(Error::MissingId));
}

#[test]
fn url_with_an_id_that_is_no_number_is_malformed() {
    assert_eq!(Item::from_url(&item_url(&[("id", "abc")])), Err(Error::MalformedId));
    assert_eq!(Item::from_url(&item_url(&[("id", "")])), Err(Error::MalformedId));
    assert_eq!(Item::from_url(&item_url(&[("id", "12.5")])), Err(Error::MalformedId));
    assert_eq!(Item::from_url(&item_url(&[("id", "9223372036854775808")])), Err(Error::MalformedId));
}

#[test]
fn url_of_an_item_gives_its_number() {
    assert_eq!(Item::from_url(&item_url(&[("id", "14817557")])), Ok(14817557));
    assert_eq!(Item::from_url(&item_url(&[("p", "2"), ("id", "7")])), Ok(7));
    assert_eq!(Item::from_url(&item_url(&[("id", "-3")])), Ok(-3));
    assert_eq!(Item::from_url(&item_url(&[("id", "9223372036854775807")])), Ok(i64::MAX));
}

#[test]
fn first_id_decides() {
    assert_eq!(Item::from_url(&item_url(&[("id", "1"), ("id", "2")])), Ok(1));
    assert_eq!(Item::from_url(&item_url(&[("id", "x"), ("id", "2")])), Err(Error::MalformedId));
}

#[test]
fn endpoint_names_the_item() {
    assert_eq!(Item::endpoint(13028891), "https://hacker-news.firebaseio.com/v0/item/13028891.json");
    assert_eq!(Item::endpoint(-1), "https://hacker-news.firebaseio.com/v0/item/-1.json");
}

#[test]
fn raw_story_becomes_a_story() {
    let mut raw = raw_story(8863);
    raw.kids = Some(vec![9224, 8917]);
    raw.text = Some("body".to_string());
    let item = Item::from_raw(raw).expect("a story");
    assert!(item.is_story());
    assert!(!item.is_comment());
    let story = item.story().expect("a story");
    assert_eq!(story.id(), 8863);
    assert_eq!(story.by(), "poster");
    assert_eq!(story.kids(), &[9224, 8917]);
    assert_eq!(story.text(), "body");
    assert_eq!(story.time(), 1500000000);
    assert_eq!(story.title(), "A story");
    assert_eq!(story.score(), 10);
    assert_eq!(story.descendants(), 3);
    assert_eq!(story.url(), "https://news.ycombinator.com/item?id=8863");
    assert_eq!(story.author_url(), "https://news.ycombinator.com/user?id=poster");
}

#[test]
fn absent_body_and_children_are_empty() {
    let story = Item::from_raw(raw_story(1)).expect("a story").story().expect("a story");
    assert_eq!(story.text(), "");
    assert_eq!(story.kids(), &[] as &[i64]);
    let comment = Item::from_raw(raw_comment(2, 1)).expect("a comment").comment().expect("a comment");
    assert_eq!(comment.kids(), &[] as &[i64]);
}

#[test]
fn raw_comment_becomes_a_comment() {
    let item = Item::from_raw(raw_comment(5, 4)).expect("a comment");
    assert!(item.is_comment());
    assert!(!item.is_story());
    assert_eq!(item.clone().story(), None);
    let comment = item.comment().expect("a comment");
    assert_eq!(comment.id(), 5);
    assert_eq!(comment.parent(), 4);
    assert_eq!(comment.by(), "someone");
    assert_eq!(comment.text(), "a <i>reply</i>");
    assert_eq!(comment.time(), 1500000000);
}

#[test]
fn kind_is_read_whatever_its_case() {
    let mut raw = raw_story(1);
    raw.kind = Some("Story".to_string());
    assert!(Item::from_raw(raw).expect("a story").is_story());
    let mut raw = raw_comment(2, 1);
    raw.kind = Some("COMMENT".to_string());
    assert!(Item::from_raw(raw).expect("a comment").is_comment());
}

#[test]
fn unknown_kind_does_not_decode() {
    let mut raw = raw_story(1);
    raw.kind = Some("job".to_string());
    assert_eq!(Item::from_raw(raw), Err(Error::DecodeFailure));
    let mut raw = raw_story(1);
    raw.kind = None;
    assert_eq!(Item::from_raw(raw), Err(Error::DecodeFailure));
    let mut raw = raw_story(1);
    raw.kind = Some("stor\u{fd}".to_string());
    assert_eq!(Item::from_raw(raw), Err(Error::DecodeFailure));
}

#[test]
fn story_without_a_needed_field_does_not_decode() {
    for missing in 0..7 {
        let mut raw = raw_story(1);
        match missing {
            0 => raw.id = None,
            1 => raw.by = None,
            2 => raw.time = None,
            3 => raw.title = None,
            4 => raw.url = None,
            5 => raw.score = None,
            _ => raw.descendants = None,
        }
        assert_eq!(Item::from_raw(raw), Err(Error::DecodeFailure), "field {}", missing);
    }
}

#[test]
fn comment_without_a_needed_field_does_not_decode() {
    for missing in 0..5 {
        let mut raw = raw_comment(2, 1);
        match missing {
            0 => raw.id = None,
            1 => raw.by = None,
            2 => raw.text = None,
            3 => raw.time = None,
            _ => raw.parent = None,
        }
        assert_eq!(Item::from_raw(raw), Err(Error::DecodeFailure), "field {}", missing);
    }
}

#[test]
fn body_of_a_comment_converts() {
    let comment = Comment::new(1, "a".to_string(), vec![], "<p>one<p>two".to_string(), 0, 0);
    let done = comment.text_as_markdown().expect("a short body");
    assert_eq!(done.markdown, "\n\none\n\ntwo");
}

#[test]
fn body_of_a_story_converts() {
    let story = Story::new(
        1,
        "a".to_string(),
        vec![],
        "see <a href=\"https://x.test/\">this</a>".to_string(),
        0,
        "t".to_string(),
        String::new(),
        0,
        0,
    );
    assert_eq!(
        story.text_as_markdown(),
        Ok(Conversion { markdown: "see https://x.test/".to_string(), errors: vec![] })
    );
}

#[test]
fn errors_describe_themselves() {
    assert_eq!(Error::UnsupportedHost.description(), "Host is not that of Hacker News (news.ycombinator.com)");
    assert_eq!(Error::UnsupportedPath.description(), "URL path is not correct (/item)");
    assert_eq!(Error::MissingId.description(), "URL is missing the id query parameter (id={id})");
    assert_eq!(Error::MalformedId.description(), "Couldn't parse URL id as an i64 integer");
    assert_eq!(Error::Transport("connection reset".to_string()).description(), "connection reset");
    assert_eq!(Error::Delivery("missing permissions".to_string()).description(), "missing permissions");
    assert_eq!(Error::DecodeFailure.description(), "The item is not a story or a comment");
    assert_eq!(
        Error::AncestorLoopSuspected.description(),
        "The parents of the comment do not lead to a story"
    );
    assert_eq!(Error::UnexpectedEvent.description(), "The event does not answer the pending request");
    assert_eq!(
        Error::Markup(hn_preview::util::html_to_markdown::Error::FragmentTooLong).description(),
        "The HTML is too long to be parsed"
    );
}
