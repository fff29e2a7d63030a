//! Links in a message, and the parts of a URL that a previewer reads.

use linkify::{LinkFinder, LinkKind};
use vstd::prelude::*;

verus! {

/// The longest text, in bytes, that is scanned for links or parsed as a URL.
/// Both outside crates count characters of the text in 32-bit signed
/// integers, which a text of this length cannot overflow.
pub const MAX_TEXT_LEN: usize = 0x7FFF_FFFF;

/// Whether a text is short enough to be scanned or parsed: its UTF-8
/// encoding has at most `MAX_TEXT_LEN` bytes.
pub open spec fn text_fits(text: Seq<char>) -> bool {
    vstd::utf8::encode_utf8(text).len() <= MAX_TEXT_LEN
}

/// What a previewer reads of a URL.
#[derive(Clone, Debug, PartialEq, Eq)]
pub struct ParsedUrl {
    /// The host, if the URL has one.
    pub host: Option<String>,
    /// The path, percent-encoded.
    pub path: String,
    /// The pairs of the query string, decoded, in their order.
    pub query: Vec<(String, String)>,
    /// The whole URL as the parser writes it.
    pub text: String,
}

/// The parts of the URL that the `url` crate parses from a link, or nothing
/// where it refuses the link.
pub uninterp spec fn parsed_url(link: Seq<char>) -> Option<ParsedUrl>;

/// The URLs that `linkify` finds in a text, in their order.
pub uninterp spec fn links_in(text: Seq<char>) -> Seq<Seq<char>>;

/// The texts of a run of strings.
pub open spec fn texts(strings: Seq<String>) -> Seq<Seq<char>> {
    strings.map_values(|s: String| s@)
}

/// Parses a link with `url::Url::parse` and reads the parts off the result:
/// `host_str`, `path`, the pairs of `query_pairs` and the serialization.
/// Parsing depends on the link alone. A link that is refused gives nothing.
/// The parser counts the characters before the path in an `i32` and in a
/// `u32`, and in a build that checks arithmetic it panics where such a count
/// overflows; a link of at most `MAX_TEXT_LEN` bytes keeps every count in
/// range.
#[verifier::external_body]
pub(crate) fn parse_url(link: &str) -> (url: Option<ParsedUrl>)
    requires
        text_fits(link@),
    ensures
        url == parsed_url(link@),
{
    match url::Url::parse(link) {
        Ok(url) => Some(ParsedUrl {
            host: url.host_str().map(|host| host.to_string()),
            path: url.path().to_string(),
            query: url.query_pairs().map(|(key, value)| (key.into_owned(), value.into_owned())).collect(),
            text: url.as_str().to_string(),
        }),
        Err(_) => None,
    }
}

/// Scans a text with a `linkify::LinkFinder` restricted to URLs, and gives
/// the text of each link found, in the order they stand in the text.
/// The scan depends on the text alone. The finder counts brackets and dots
/// in `i32`s, and in a build that checks arithmetic it panics where such a
/// count overflows; a text of at most `MAX_TEXT_LEN` bytes keeps every count
/// in range.
#[verifier::external_body]
pub(crate) fn find_links(text: &str) -> (links: Vec<String>)
    requires
        text_fits(text@),
    ensures
        texts(links@) == links_in(text@),
{
    let mut finder = LinkFinder::new();
    finder.kinds(&[LinkKind::Url]);
    finder.links(text).map(|link| link.as_str().to_string()).collect()
}

} // verus!
