//! The markdown syntax tree and the styled output it is rendered into.
//!
//! A [`Node`] is one typed block or inline construct of a parsed markdown
//! document; the open-ended [`Node::Other`] variant carries a textual dump of
//! any construct outside the recognized set, so nothing is ever lost silently.
//! The renderer's output is a sequence of [`Line`] values, each an ordered
//! sequence of [`Span`] values: a run of text plus its style attributes.

use vstd::prelude::*;
use vstd::string::StringExecFns;

use crate::style::spec_plain_style;
use crate::style::Style;
use crate::style::plain_style;

verus! {

/// One node of a parsed markdown syntax tree.
pub enum Node {
    /// A paragraph of inline children.
    Paragraph { children: Vec<Node> },
    /// A heading; each child becomes one fully restyled line.
    Heading { children: Vec<Node> },
    /// A list of items.
    List { children: Vec<Node> },
    /// One item of a list.
    ListItem { children: Vec<Node> },
    /// Literal text.
    Text { value: String },
    /// Strong (bold) emphasis around inline children.
    Strong { children: Vec<Node> },
    /// A run of inline code.
    InlineCode { value: String },
    /// A link; only its children are rendered, the target is discarded.
    Link { children: Vec<Node> },
    /// A raw HTML fragment; it is dropped from the rendering.
    Html { value: String },
    /// A front-matter metadata block; rendered as a fixed placeholder notice.
    Yaml { value: String },
    /// Any construct outside the recognized set, as a textual dump.
    Other { raw: String },
}

/// The mathematical value of a [`Span`]: its text and its style.
#[verifier::ext_equal]
pub ghost struct SpanModel {
    pub text: Seq<char>,
    pub style: Style,
}

/// The mathematical value of a [`Line`]: its spans, in order.
pub type LineModel = Seq<SpanModel>;

/// A contiguous run of text together with its style attributes.
pub struct Span {
    pub content: String,
    pub style: Style,
}

/// One renderable terminal row: an ordered sequence of spans.
pub struct Line {
    pub spans: Vec<Span>,
}

impl View for Span {
    type V = SpanModel;

    open spec fn view(&self) -> SpanModel {
        SpanModel { text: self.content@, style: self.style }
    }
}

impl View for Line {
    type V = LineModel;

    open spec fn view(&self) -> LineModel {
        self.spans@.map_values(|s: Span| s@)
    }
}

/// The contents of a vector of spans, as span models in order.
pub open spec fn spans_view(v: Vec<Span>) -> Seq<SpanModel> {
    v@.map_values(|s: Span| s@)
}

/// The contents of a vector of lines, as line models in order.
pub open spec fn lines_view(v: Vec<Line>) -> Seq<LineModel> {
    v@.map_values(|l: Line| l@)
}

/// A span model with the given text and no style attributes.
pub open spec fn plain_span(text: Seq<char>) -> SpanModel {
    SpanModel { text, style: spec_plain_style() }
}

/// An unstyled span holding the given text.
pub fn span_from(text: String) -> (r: Span)
    ensures
        r@ == plain_span(text@),
{
    Span { content: text, style: plain_style() }
}

/// A copy of a span: same text, same style.
pub fn clone_span(s: &Span) -> (r: Span)
    ensures
        r@ == s@,
{
    Span { content: s.content.clone(), style: s.style }
}

/// The textual dump of a node, used as the visible fallback rendering for
/// constructs that have no dedicated rule in the position they appear in.
/// Container kinds show their name around the dumps of their children; leaf
/// kinds show their name around their literal value; an [`Node::Other`] node
/// is already a dump and stands as it is.
pub open spec fn debug_of(n: Node) -> Seq<char>
    decreases n,
{
    match n {
        Node::Paragraph { children } => "Paragraph["@ + debug_of_children(children@) + "]"@,
        Node::Heading { children } => "Heading["@ + debug_of_children(children@) + "]"@,
        Node::List { children } => "List["@ + debug_of_children(children@) + "]"@,
        Node::ListItem { children } => "ListItem["@ + debug_of_children(children@) + "]"@,
        Node::Text { value } => "Text("@ + value@ + ")"@,
        Node::Strong { children } => "Strong["@ + debug_of_children(children@) + "]"@,
        Node::InlineCode { value } => "InlineCode("@ + value@ + ")"@,
        Node::Link { children } => "Link["@ + debug_of_children(children@) + "]"@,
        Node::Html { value } => "Html("@ + value@ + ")"@,
        Node::Yaml { value } => "Yaml("@ + value@ + ")"@,
        Node::Other { raw } => raw@,
    }
}

/// The concatenated dumps of a sequence of nodes, in order.
pub open spec fn debug_of_children(s: Seq<Node>) -> Seq<char>
    decreases s,
{
    if s.len() == 0 {
        Seq::empty()
    } else {
        debug_of_children(s.drop_last()) + debug_of(s.last())
    }
}

/// Render the textual dump of a node.
pub fn node_debug(n: &Node) -> (r: String)
    ensures
        r@ == debug_of(*n),
    decreases *n, 2int,
{
    match n {
        Node::Paragraph { children } => debug_wrapped("Paragraph[", children),
        Node::Heading { children } => debug_wrapped("Heading[", children),
        Node::List { children } => debug_wrapped("List[", children),
        Node::ListItem { children } => debug_wrapped("ListItem[", children),
        Node::Text { value } => debug_leaf("Text(", value),
        Node::Strong { children } => debug_wrapped("Strong[", children),
        Node::InlineCode { value } => debug_leaf("InlineCode(", value),
        Node::Link { children } => debug_wrapped("Link[", children),
        Node::Html { value } => debug_leaf("Html(", value),
        Node::Yaml { value } => debug_leaf("Yaml(", value),
        Node::Other { raw } => raw.clone(),
    }
}

/// The dump of a leaf node: its kind name around its literal value.
fn debug_leaf(prefix: &str, value: &String) -> (r: String)
    ensures
        r@ == prefix@ + value@ + ")"@,
{
    let mut out = String::from_str(prefix);
    out.append(value.as_str());
    out.append(")");
    out
}

/// The dump of a container node: its kind name around its children's dumps.
fn debug_wrapped(prefix: &str, children: &Vec<Node>) -> (r: String)
    ensures
        r@ == prefix@ + debug_of_children(children@) + "]"@,
    decreases *children, 1int,
{
    let mut out = String::from_str(prefix);
    let mid = debug_children(children);
    out.append(mid.as_str());
    out.append("]");
    out
}

/// The concatenated dumps of a vector of nodes.
fn debug_children(children: &Vec<Node>) -> (r: String)
    ensures
        r@ == debug_of_children(children@),
    decreases *children, 0int,
{
    let mut out = String::new();
    let mut i: usize = 0;
    while i < children.len()
        invariant
            i <= children@.len(),
            out@ == debug_of_children(children@.take(i as int)),
        decreases children@.len() - i,
    {
        proof {
            assert(decreases_to!(*children => children@[i as int]));
        }
        let d = node_debug(&children[i]);
        out.append(d.as_str());
        proof {
            assert(children@.take(i as int + 1).drop_last() =~= children@.take(i as int));
            assert(children@.take(i as int + 1).last() == children@[i as int]);
        }
        i += 1;
    }
    proof {
        assert(children@.take(children@.len() as int) =~= children@);
    }
    out
}

} // verus!
