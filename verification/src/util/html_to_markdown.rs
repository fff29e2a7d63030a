//! Conversion of an HTML fragment into flat formatted text.
//!
//! The fragment is parsed by `html5ever` into a tree, and the tree is walked
//! depth first. Four elements leave a mark in the output: a link is replaced
//! by its target, a paragraph starts with a blank line, code is fenced and
//! italic text is starred. Every other element is transparent.

use html5ever::tendril::TendrilSink;
use html5ever::{LocalName, Namespace, QualName};
use markup5ever_rcdom::{Handle, NodeData, RcDom};
use crate::text::same_text;
use vstd::prelude::*;
use vstd::string::*;

verus! {

/// The longest fragment, in bytes, that is handed to the parser. The parser
/// keeps text in buffers whose capacity it rounds up to a power of two below
/// 2^32, so a buffer holds at most 2^31 bytes, and the parser panics beyond
/// that. Where it replaces a NUL it writes three bytes for the one it read,
/// so three times this length must not pass 2^31.
pub const MAX_FRAGMENT_LEN: usize = 0x2AAA_AAAA;

/// One attribute of an element.
#[derive(Clone, Debug, PartialEq, Eq)]
pub struct Attribute {
    pub name: String,
    pub value: String,
}

/// A node of a parsed fragment, with what the conversion reads of it.
#[derive(Debug, PartialEq, Eq)]
pub enum MarkupNode {
    Document { children: Vec<MarkupNode> },
    Doctype,
    Text { contents: String },
    Comment,
    Element { name: String, attrs: Vec<Attribute>, children: Vec<MarkupNode> },
    ProcessingInstruction,
}

/// A parsed fragment: the tree, and the errors the parser recovered from.
#[derive(Debug, PartialEq, Eq)]
pub struct ParsedFragment {
    pub document: MarkupNode,
    pub errors: Vec<String>,
}

/// The result of a conversion: the text, and the errors the parser recovered
/// from on the way. The text is complete whether or not there were errors.
#[derive(Clone, Debug, PartialEq, Eq)]
pub struct Conversion {
    pub markdown: String,
    pub errors: Vec<String>,
}

/// Why a fragment could not be converted.
#[derive(Clone, Copy, Debug, PartialEq, Eq)]
pub enum Error {
    /// The fragment is longer than `MAX_FRAGMENT_LEN` bytes.
    FragmentTooLong,
}

/// What a link contributes: the values of its `href` attributes, in order.
pub open spec fn href_values(attrs: Seq<Attribute>) -> Seq<char>
    decreases attrs.len(),
{
    if attrs.len() == 0 {
        Seq::empty()
    } else if attrs.last().name@ == "href"@ {
        href_values(attrs.drop_last()) + attrs.last().value@
    } else {
        href_values(attrs.drop_last())
    }
}

/// The text that a node and everything below it contribute.
pub open spec fn markdown_of(node: MarkupNode) -> Seq<char>
    decreases node,
{
    match node {
        MarkupNode::Document { children } => markdown_of_all(children@),
        MarkupNode::Text { contents } => contents@,
        MarkupNode::Element { name, attrs, children } => {
            if name@ == "a"@ {
                href_values(attrs@)
            } else if name@ == "p"@ {
                "\n\n"@ + markdown_of_all(children@)
            } else if name@ == "code"@ {
                "```\n"@ + markdown_of_all(children@) + "```"@
            } else if name@ == "i"@ {
                "*"@ + markdown_of_all(children@) + "*"@
            } else {
                markdown_of_all(children@)
            }
        },
        MarkupNode::Doctype | MarkupNode::Comment | MarkupNode::ProcessingInstruction => Seq::empty(),
    }
}

/// The contributions of a run of sibling nodes, one after the other.
pub open spec fn markdown_of_all(nodes: Seq<MarkupNode>) -> Seq<char>
    decreases nodes,
{
    if nodes.len() == 0 {
        Seq::empty()
    } else {
        markdown_of_all(nodes.drop_last()) + markdown_of(nodes.last())
    }
}

/// The tree and the recovered errors that `html5ever` gives for a fragment
/// parsed inside a `body` element.
pub uninterp spec fn parsed_fragment(html: Seq<char>) -> ParsedFragment;

/// Whether a fragment is short enough for the parser: its UTF-8 encoding has
/// at most `MAX_FRAGMENT_LEN` bytes.
pub open spec fn fragment_fits(html: Seq<char>) -> bool {
    vstd::utf8::encode_utf8(html).len() <= MAX_FRAGMENT_LEN
}

/// What `convert` returns for a fragment that the parser takes.
pub open spec fn conversion_of(parsed: ParsedFragment, done: Conversion) -> bool {
    &&& done.markdown@ == markdown_of(parsed.document)
    &&& done.errors == parsed.errors
}

/// What `convert` returns for a fragment: a refusal where the fragment is
/// too long for the parser, and otherwise the conversion of what the parser
/// makes of it.
pub open spec fn converted(html: Seq<char>, result: Result<Conversion, Error>) -> bool {
    if fragment_fits(html) {
        result is Ok && conversion_of(parsed_fragment(html), result->Ok_0)
    } else {
        result == Err::<Conversion, Error>(Error::FragmentTooLong)
    }
}

/// Converting the same fragment twice gives the same text and the same
/// errors: the conversion depends on the fragment alone.
pub proof fn lemma_conversion_is_determined(
    html: Seq<char>,
    first: Result<Conversion, Error>,
    second: Result<Conversion, Error>,
)
    requires
        converted(html, first),
        converted(html, second),
    ensures
        first is Ok <==> second is Ok,
        first is Ok ==> first->Ok_0.markdown@ == second->Ok_0.markdown@ && first->Ok_0.errors
            == second->Ok_0.errors,
        first is Err ==> first == second,
{
}

/// Rebuilds one node of `markup5ever_rcdom`'s tree, and all below it, as a
/// `MarkupNode`: the kind of each node, the text of a text node, the local
/// name of an element and the local names and values of its attributes,
/// and the children in their order.
#[verifier::external_body]
fn markup_node(handle: &Handle) -> MarkupNode {
    let children = handle.children.borrow().iter().map(markup_node).collect();
    match handle.data {
        NodeData::Document => MarkupNode::Document { children },
        NodeData::Doctype { .. } => MarkupNode::Doctype,
        NodeData::Text { ref contents } => MarkupNode::Text { contents: contents.borrow().to_string() },
        NodeData::Comment { .. } => MarkupNode::Comment,
        NodeData::Element { ref name, ref attrs, .. } => MarkupNode::Element {
            name: name.local.to_string(),
            attrs: attrs.borrow().iter().map(|a| Attribute { name: a.name.local.to_string(), value: a.value.to_string() }).collect(),
            children,
        },
        NodeData::ProcessingInstruction { .. } => MarkupNode::ProcessingInstruction,
    }
}

/// Parses a fragment with `html5ever::parse_fragment`, in the context of an
/// HTML `body` element and with the default options, into an `RcDom`. The
/// result is the document node of that tree and the parser's list of
/// errors. The parser is deterministic, so both depend on the text alone.
/// It panics where a buffer of its own would pass 2^31 bytes, which a text
/// of at most `MAX_FRAGMENT_LEN` bytes cannot bring about, as it writes at
/// most three bytes for each byte that it reads.
#[verifier::external_body]
fn parse_fragment(html: &str) -> (parsed: ParsedFragment)
    requires
        fragment_fits(html@),
    ensures
        parsed == parsed_fragment(html@),
{
    let body = QualName::new(None, Namespace::from("http://www.w3.org/1999/xhtml"), LocalName::from("body"));
    let dom = html5ever::parse_fragment(RcDom::default(), Default::default(), body, vec![]).one(html);
    ParsedFragment {
        document: markup_node(&dom.document),
        errors: dom.errors.iter().map(|e| e.to_string()).collect(),
    }
}

#[verifier::external_type_specification]
#[verifier::external_body]
pub struct ExRcNode(markup5ever_rcdom::Node);

/// Accumulates the text while the tree is walked.
pub struct HtmlVisitor {
    markdown: String,
}

impl View for HtmlVisitor {
    type V = Seq<char>;

    closed spec fn view(&self) -> Seq<char> {
        self.markdown@
    }
}

impl HtmlVisitor {
    /// A visitor that has seen nothing yet.
    pub fn new() -> (visitor: HtmlVisitor)
        ensures
            visitor@ == Seq::<char>::empty(),
    {
        HtmlVisitor { markdown: String::new() }
    }

    /// The text accumulated so far.
    pub fn markdown(self) -> (markdown: String)
        ensures
            markdown@ == self@,
    {
        self.markdown
    }

    /// Visits a node and everything below it, appending what they contribute.
    pub fn visit(&mut self, node: &MarkupNode)
        ensures
            final(self)@ == old(self)@ + markdown_of(*node),
        decreases *node, 0nat,
    {
        match node {
            MarkupNode::Document { children } => self.visit_children(children),
            MarkupNode::Text { contents } => self.visit_text(contents),
            MarkupNode::Element { name, attrs, children } => {
                if same_text(name.as_str(), "a") {
                    self.visit_link(attrs)
                } else if same_text(name.as_str(), "p") {
                    self.visit_paragraph(children)
                } else if same_text(name.as_str(), "code") {
                    self.visit_code(children)
                } else if same_text(name.as_str(), "i") {
                    self.visit_italic(children)
                } else {
                    self.visit_children(children)
                }
            },
            MarkupNode::Doctype | MarkupNode::Comment | MarkupNode::ProcessingInstruction => {},
        }
    }

    fn visit_children(&mut self, children: &Vec<MarkupNode>)
        ensures
            final(self)@ == old(self)@ + markdown_of_all(children@),
        decreases *children, 0nat,
    {
        let mut i: usize = 0;
        while i < children.len()
            invariant
                i <= children.len(),
                self@ == old(self)@ + markdown_of_all(children@.take(i as int)),
            decreases children.len() - i,
        {
            assert(children@.take(i + 1).drop_last() == children@.take(i as int));
            assert(decreases_to!(*children => children[i as int]));
            self.visit(&children[i]);
            i += 1;
        }
        assert(children@.take(i as int) == children@);
    }

    fn visit_link(&mut self, attrs: &Vec<Attribute>)
        ensures
            final(self)@ == old(self)@ + href_values(attrs@),
    {
        let mut i: usize = 0;
        while i < attrs.len()
            invariant
                i <= attrs.len(),
                self@ == old(self)@ + href_values(attrs@.take(i as int)),
            decreases attrs.len() - i,
        {
            assert(attrs@.take(i + 1).drop_last() == attrs@.take(i as int));
            assert(attrs@.take(i + 1).last() == attrs@[i as int]);
            if same_text(attrs[i].name.as_str(), "href") {
                self.markdown.append(attrs[i].value.as_str());
                assert(self@ == old(self)@ + (href_values(attrs@.take(i as int)) + attrs@[i as int].value@));
            }
            i += 1;
        }
        assert(attrs@.take(i as int) == attrs@);
    }

    fn visit_text(&mut self, contents: &String)
        ensures
            final(self)@ == old(self)@ + contents@,
    {
        self.markdown.append(contents.as_str());
    }

    fn visit_paragraph(&mut self, children: &Vec<MarkupNode>)
        ensures
            final(self)@ == old(self)@ + ("\n\n"@ + markdown_of_all(children@)),
        decreases *children, 1nat,
    {
        self.markdown.append("\n\n");
        self.visit_children(children);
    }

    fn visit_code(&mut self, children: &Vec<MarkupNode>)
        ensures
            final(self)@ == old(self)@ + ("```\n"@ + markdown_of_all(children@) + "```"@),
        decreases *children, 1nat,
    {
        self.markdown.append("```\n");
        self.visit_children(children);
        self.markdown.append("```");
    }

    fn visit_italic(&mut self, children: &Vec<MarkupNode>)
        ensures
            final(self)@ == old(self)@ + ("*"@ + markdown_of_all(children@) + "*"@),
        decreases *children, 1nat,
    {
        self.markdown.append("*");
        self.visit_children(children);
        self.markdown.append("*");
    }
}

/// Converts a parsed fragment: the text of its tree, and its errors as they are.
pub fn convert_parsed(parsed: ParsedFragment) -> (done: Conversion)
    ensures
        conversion_of(parsed, done),
{
    let mut converter = HtmlVisitor::new();
    converter.visit(&parsed.document);
    Conversion { markdown: converter.markdown(), errors: parsed.errors }
}

/// Converts an HTML fragment into flat formatted text.
///
/// Errors from which the parser recovered do not stop the conversion: they
/// are returned beside the text. The only fragment that is refused is one
/// too long for the parser.
pub fn convert(html: &str) -> (result: Result<Conversion, Error>)
    ensures
        converted(html@, result),
{
    if html.as_bytes().len() > MAX_FRAGMENT_LEN {
        return Err(Error::FragmentTooLong);
    }
    Ok(convert_parsed(parse_fragment(html)))
}

} // verus!
