//! The dispatch of the links of a message to the registered previewers.

use crate::link::{find_links, links_in, parse_url, parsed_url, text_fits, texts, ParsedUrl, MAX_TEXT_LEN};
use vstd::string::*;
use crate::preview::Preview;
use vstd::prelude::*;

verus! {

/// One offer of a URL to a previewer: the place of the URL among those of
/// the message, and the place of the previewer among those registered.
#[derive(Clone, Copy, Debug, PartialEq, Eq)]
pub struct Invocation {
    pub link: usize,
    pub previewer: usize,
}

/// What is to be done with a message.
#[derive(Debug, PartialEq, Eq)]
pub struct Dispatch {
    /// Whether the message was left unscanned because it is longer than
    /// `MAX_TEXT_LEN` bytes.
    pub unscanned: bool,
    /// The links that are URLs, in the order they stand in the message.
    pub urls: Vec<ParsedUrl>,
    /// The links that are no URLs, in their order: those that could not be
    /// parsed, and those longer than `MAX_TEXT_LEN` bytes.
    pub rejected: Vec<String>,
    /// The offers to make, in the order to make them.
    pub calls: Vec<Invocation>,
}

/// The URL that a link is taken for: what the parser makes of it, and
/// nothing where the link is too long to be parsed.
pub open spec fn url_of(link: Seq<char>) -> Option<ParsedUrl> {
    if text_fits(link) {
        parsed_url(link)
    } else {
        None
    }
}

/// The links among `links` that are URLs, parsed.
pub open spec fn accepted(links: Seq<Seq<char>>) -> Seq<ParsedUrl>
    decreases links.len(),
{
    if links.len() == 0 {
        Seq::empty()
    } else {
        match url_of(links.last()) {
            Some(url) => accepted(links.drop_last()).push(url),
            None => accepted(links.drop_last()),
        }
    }
}

/// The links among `links` that are no URLs.
pub open spec fn refused(links: Seq<Seq<char>>) -> Seq<Seq<char>>
    decreases links.len(),
{
    if links.len() == 0 {
        Seq::empty()
    } else {
        match url_of(links.last()) {
            Some(_) => refused(links.drop_last()),
            None => refused(links.drop_last()).push(links.last()),
        }
    }
}

/// What `Bot::preview_links` decides for a message, with `previewers`
/// previewers registered: nothing for one of the bot's own, nothing but the
/// mark `unscanned` for one too long to be scanned, and for any other the
/// URLs among its links, the links that are no URLs, and the offers of the
/// URLs to the previewers.
pub open spec fn dispatched(
    content: Seq<char>,
    is_own: bool,
    previewers: nat,
    dispatch: Dispatch,
) -> bool {
    if is_own || !text_fits(content) {
        &&& dispatch.unscanned == !is_own
        &&& dispatch.urls@.len() == 0
        &&& dispatch.rejected@.len() == 0
        &&& dispatch.calls@.len() == 0
    } else {
        &&& !dispatch.unscanned
        &&& dispatch.urls@ == accepted(links_in(content))
        &&& texts(dispatch.rejected@) == refused(links_in(content))
        &&& dispatch.calls@ == fan_out(dispatch.urls@.len(), previewers)
    }
}

/// The offers of one URL: to each previewer, in the order of registration.
pub open spec fn offers_of(link: nat, previewers: nat) -> Seq<Invocation> {
    Seq::new(previewers, |p: int| Invocation { link: link as usize, previewer: p as usize })
}

/// The offers of the first `links` URLs: those of the first URL, then
/// those of the second, and so on.
pub open spec fn fan_out(links: nat, previewers: nat) -> Seq<Invocation>
    decreases links,
{
    if links == 0 {
        Seq::empty()
    } else {
        fan_out((links - 1) as nat, previewers) + offers_of((links - 1) as nat, previewers)
    }
}

/// Every URL is offered to every previewer, whatever becomes of the other
/// offers: the offer of URL `link` to previewer `previewer` is made after
/// `link * previewers + previewer` others.
pub proof fn lemma_fan_out_reaches_all(links: nat, previewers: nat, link: nat, previewer: nat)
    requires
        link < links,
        previewer < previewers,
    ensures
        fan_out(links, previewers).len() == links * previewers,
        link * previewers + previewer < links * previewers,
        fan_out(links, previewers)[(link * previewers + previewer) as int] == (Invocation {
            link: link as usize,
            previewer: previewer as usize,
        }),
    decreases links,
{
    let before = (links - 1) as nat;
    lemma_fan_out_len(before, previewers);
    lemma_fan_out_len(links, previewers);
    assert(before * previewers + previewers == links * previewers) by (nonlinear_arith)
        requires
            before + 1 == links,
    ;
    if link == before {
        assert(fan_out(links, previewers)[(before * previewers + previewer) as int] == offers_of(
            before,
            previewers,
        )[previewer as int]);
    } else {
        lemma_fan_out_reaches_all(before, previewers, link, previewer);
    }
}

/// There are as many offers as URLs times previewers.
pub proof fn lemma_fan_out_len(links: nat, previewers: nat)
    ensures
        fan_out(links, previewers).len() == links * previewers,
    decreases links,
{
    if links > 0 {
        let before = (links - 1) as nat;
        lemma_fan_out_len(before, previewers);
        assert(before * previewers + previewers == links * previewers) by (nonlinear_arith)
            requires
                before + 1 == links,
        ;
    } else {
        assert(links * previewers == 0) by (nonlinear_arith)
            requires
                links == 0,
        ;
    }
}

/// The offers to make of `links` URLs to `previewers` previewers.
pub fn offers(links: usize, previewers: usize) -> (calls: Vec<Invocation>)
    ensures
        calls@ == fan_out(links as nat, previewers as nat),
{
    let mut calls: Vec<Invocation> = Vec::new();
    let mut link: usize = 0;
    while link < links
        invariant
            link <= links,
            calls@ == fan_out(link as nat, previewers as nat),
        decreases links - link,
    {
        let ghost before = calls@;
        let mut previewer: usize = 0;
        while previewer < previewers
            invariant
                previewer <= previewers,
                link < links,
                calls@ == before + offers_of(link as nat, previewers as nat).take(previewer as int),
            decreases previewers - previewer,
        {
            calls.push(Invocation { link, previewer });
            previewer += 1;
        }
        assert(offers_of(link as nat, previewers as nat).take(previewer as int) == offers_of(
            link as nat,
            previewers as nat,
        ));
        link += 1;
    }
    calls
}

/// The previewers, in the order they were registered.
pub struct Bot<P: Preview> {
    previewers: Vec<P>,
}

impl<P: Preview> View for Bot<P> {
    type V = Seq<P>;

    closed spec fn view(&self) -> Seq<P> {
        self.previewers@
    }
}

impl<P: Preview> Bot<P> {
    /// A bot without previewers.
    pub fn new() -> (bot: Bot<P>)
        ensures
            bot@ == Seq::<P>::empty(),
    {
        Bot { previewers: Vec::new() }
    }

    /// Registers a previewer, after those registered before.
    pub fn push_previewer(&mut self, previewer: P)
        ensures
            final(self)@ == old(self)@.push(previewer),
    {
        self.previewers.push(previewer);
    }

    /// The previewers, in the order they were registered.
    pub fn previewers(&self) -> (previewers: &[P])
        ensures
            previewers@ == self@,
    {
        self.previewers.as_slice()
    }

    /// Sorts links into those that are URLs and those that are not, and
    /// lists the offers of the URLs to the previewers. A link longer than
    /// `MAX_TEXT_LEN` bytes is not parsed, and is taken for no URL.
    pub fn preview_each(&self, links: Vec<String>) -> (dispatch: Dispatch)
        ensures
            !dispatch.unscanned,
            dispatch.urls@ == accepted(texts(links@)),
            texts(dispatch.rejected@) == refused(texts(links@)),
            dispatch.calls@ == fan_out(dispatch.urls@.len(), self@.len()),
    {
        let mut urls: Vec<ParsedUrl> = Vec::new();
        let mut rejected: Vec<String> = Vec::new();
        let mut i: usize = 0;
        assert(texts(links@).take(0) == Seq::<Seq<char>>::empty());
        assert(texts(rejected@) == Seq::<Seq<char>>::empty());
        while i < links.len()
            invariant
                i <= links.len(),
                urls@ == accepted(texts(links@).take(i as int)),
                texts(rejected@) == refused(texts(links@).take(i as int)),
            decreases links.len() - i,
        {
            let ghost seen = texts(links@).take(i as int);
            let ghost longer = texts(links@).take(i + 1);
            assert(longer.drop_last() == seen);
            assert(longer.last() == links@[i as int]@);
            let link = links[i].as_str();
            let parsed = if link.as_bytes().len() <= MAX_TEXT_LEN {
                parse_url(link)
            } else {
                None
            };
            assert(parsed == url_of(links@[i as int]@));
            match parsed {
                Some(url) => {
                    urls.push(url);
                },
                None => {
                    let ghost before = rejected@;
                    rejected.push(links[i].clone());
                    assert(texts(rejected@) == texts(before).push(links@[i as int]@));
                },
            }
            i += 1;
        }
        assert(texts(links@).take(i as int) == texts(links@));
        let calls = offers(urls.len(), self.previewers.len());
        Dispatch { unscanned: false, urls, rejected, calls }
    }

    /// Decides what to do with a message: nothing with one of the bot's own,
    /// and with any other an offer of each URL in it to each previewer, URL
    /// by URL in the order of the message and previewer by previewer in the
    /// order of registration. A message longer than `MAX_TEXT_LEN` bytes is
    /// not scanned, and the dispatch says so.
    pub fn preview_links(&self, content: &str, is_own: bool) -> (dispatch: Dispatch)
        ensures
            dispatched(content@, is_own, self@.len(), dispatch),
    {
        if is_own {
            return Dispatch {
                unscanned: false,
                urls: Vec::new(),
                rejected: Vec::new(),
                calls: Vec::new(),
            };
        }
        if content.as_bytes().len() > MAX_TEXT_LEN {
            return Dispatch {
                unscanned: true,
                urls: Vec::new(),
                rejected: Vec::new(),
                calls: Vec::new(),
            };
        }
        self.preview_each(find_links(content))
    }
}

} // verus!
