//! The node-to-lines transformer: the core rendering rules.
//!
//! A markdown node is converted into zero or more styled lines by a recursive
//! tree walk. Paragraphs flatten their inline children into the spans of one
//! line; headings restyle every child line with the heading style; list items
//! concatenate their children's lines and lists prefix or deepen each line's
//! indentation; strong text and inline code patch their style onto their
//! content; raw HTML is dropped; front matter becomes a fixed notice; any
//! other construct becomes one line holding its textual dump.

use vstd::prelude::*;
use vstd::string::StringExecFns;

use crate::node::clone_span;
use crate::node::debug_of;
use crate::node::lines_view;
use crate::node::node_debug;
use crate::node::plain_span;
use crate::node::span_from;
use crate::node::spans_view;
use crate::node::Line;
use crate::node::LineModel;
use crate::node::Node;
use crate::node::Span;
use crate::node::SpanModel;
use crate::style::bold_style;
use crate::style::code_style;
use crate::style::compose;
use crate::style::heading_style;
use crate::style::plain_style;
use crate::style::spec_bold_style;
use crate::style::spec_code_style;
use crate::style::spec_compose;
use crate::style::spec_heading_style;
use crate::style::Color;
use crate::style::Style;

verus! {

/// The span with `patch` composed onto its style; its text is unchanged.
pub open spec fn span_patched(sp: SpanModel, patch: Style) -> SpanModel {
    SpanModel { text: sp.text, style: spec_compose(sp.style, patch) }
}

/// Every span of the sequence with `patch` composed onto its style.
pub open spec fn patch_spans(s: Seq<SpanModel>, patch: Style) -> Seq<SpanModel> {
    s.map_values(|sp: SpanModel| span_patched(sp, patch))
}

/// Every line of the sequence passed through the list indentation rule.
pub open spec fn indent_all(ls: Seq<LineModel>) -> Seq<LineModel> {
    ls.map_values(|l: LineModel| spec_indent_line(l))
}

/// The list indentation rule for one flattened line of a list's items.
/// A line whose second span reads `- ` was already indented by a deeper list:
/// its leading indent grows by one two-space unit (as a fresh unstyled span).
/// Any other line is not yet indented: a two-space indent span and a `- `
/// bullet span are prepended. A line with fewer than two spans is always
/// treated as not yet indented.
pub open spec fn spec_indent_line(l: LineModel) -> LineModel {
    if l.len() >= 2 && l[1].text == "- "@ {
        l.update(0, plain_span(l[0].text + "  "@))
    } else {
        seq![plain_span("  "@), plain_span("- "@)] + l
    }
}

/// The spans a node is flattened into when it stands inside a single-line
/// construct (a paragraph or one heading line). Text becomes one unstyled
/// span; strong emphasis patches bold onto its children's spans; inline code
/// becomes one span with the code background; every other kind becomes one
/// unstyled span holding its textual dump.
pub open spec fn spans_of(n: Node) -> Seq<SpanModel>
    decreases n, 0int,
{
    match n {
        Node::Text { value } => seq![plain_span(value@)],
        Node::Strong { children } => patch_spans(
            spans_of_children(children@),
            spec_bold_style(),
        ),
        Node::InlineCode { value } => seq![SpanModel { text: value@, style: spec_code_style() }],
        _ => seq![plain_span(debug_of(n))],
    }
}

/// The concatenated spans of a sequence of nodes, in order.
pub open spec fn spans_of_children(s: Seq<Node>) -> Seq<SpanModel>
    decreases s, 1int,
{
    if s.len() == 0 {
        Seq::empty()
    } else {
        spans_of_children(s.drop_last()) + spans_of(s.last())
    }
}

/// The heading rendering of a sequence of child nodes: one line per child,
/// every span restyled with the heading style.
pub open spec fn heading_lines(s: Seq<Node>) -> Seq<LineModel>
    decreases s,
{
    if s.len() == 0 {
        Seq::empty()
    } else {
        heading_lines(s.drop_last()).push(
            patch_spans(spans_of(s.last()), spec_heading_style()),
        )
    }
}

/// The lines a node is rendered into. This is the transformer's full
/// per-kind policy.
pub open spec fn lines_of(n: Node) -> Seq<LineModel>
    decreases n, 0int,
{
    match n {
        Node::Paragraph { children } => seq![spans_of_children(children@)],
        Node::Heading { children } => heading_lines(children@),
        Node::Html { .. } => Seq::empty(),
        Node::Text { value } => seq![seq![plain_span(value@)]],
        Node::ListItem { children } => lines_of_children(children@),
        Node::List { children } => indent_all(lines_of_children(children@)),
        Node::Strong { .. } => seq![patch_spans(spans_of(n), spec_bold_style())],
        Node::Link { children } => lines_of_children(children@),
        Node::Yaml { .. } => seq![
            seq![plain_span("-- Found metadata block, currently unused"@)],
        ],
        Node::InlineCode { value } => seq![
            seq![SpanModel { text: value@, style: spec_code_style() }],
        ],
        Node::Other { .. } => seq![seq![plain_span(debug_of(n))]],
    }
}

/// The concatenated lines of a sequence of nodes, in order.
pub open spec fn lines_of_children(s: Seq<Node>) -> Seq<LineModel>
    decreases s, 1int,
{
    if s.len() == 0 {
        Seq::empty()
    } else {
        lines_of_children(s.drop_last()) + lines_of(s.last())
    }
}

/// A copy of the spans with `patch` composed onto every span's style.
fn patch_all(spans: &Vec<Span>, patch: Style) -> (r: Vec<Span>)
    ensures
        spans_view(r) == patch_spans(spans_view(*spans), patch),
{
    let mut out: Vec<Span> = Vec::new();
    let mut i: usize = 0;
    while i < spans.len()
        invariant
            i <= spans@.len(),
            out@.len() == i,
            forall|k: int| 0 <= k < i ==> out@[k]@ == span_patched(spans@[k]@, patch),
        decreases spans@.len() - i,
    {
        let sp = &spans[i];
        out.push(Span { content: sp.content.clone(), style: compose(sp.style, patch) });
        i += 1;
    }
    proof {
        assert(spans_view(out) =~= patch_spans(spans_view(*spans), patch));
    }
    out
}

/// Flatten a sequence of nodes into the concatenation of their spans.
pub fn nodes_to_spans(nodes: &Vec<Node>) -> (r: Vec<Span>)
    ensures
        spans_view(r) == spans_of_children(nodes@),
    decreases *nodes, 1int,
{
    let mut out: Vec<Span> = Vec::new();
    let mut i: usize = 0;
    while i < nodes.len()
        invariant
            i <= nodes@.len(),
            spans_view(out) == spans_of_children(nodes@.take(i as int)),
        decreases nodes@.len() - i,
    {
        proof {
            assert(decreases_to!(*nodes => nodes@[i as int]));
        }
        let mut cs = node_to_spans(&nodes[i]);
        out.append(&mut cs);
        proof {
            assert(nodes@.take(i as int + 1).drop_last() =~= nodes@.take(i as int));
            assert(nodes@.take(i as int + 1).last() == nodes@[i as int]);
            assert(spans_view(out) =~= spans_of_children(nodes@.take(i as int + 1)));
        }
        i += 1;
    }
    proof {
        assert(nodes@.take(nodes@.len() as int) =~= nodes@);
    }
    out
}

/// The spans one node is flattened into inside a single-line construct.
pub fn node_to_spans(node: &Node) -> (r: Vec<Span>)
    ensures
        spans_view(r) == spans_of(*node),
    decreases *node, 0int,
{
    match node {
        Node::Text { value } => {
            let mut out: Vec<Span> = Vec::new();
            out.push(span_from(value.clone()));
            proof {
                assert(spans_view(out) =~= spans_of(*node));
            }
            out
        },
        Node::Strong { children } => {
            let cs = nodes_to_spans(children);
            patch_all(&cs, bold_style())
        },
        Node::InlineCode { value } => {
            let mut out: Vec<Span> = Vec::new();
            out.push(Span { content: value.clone(), style: code_style() });
            proof {
                assert(spans_view(out) =~= spans_of(*node));
            }
            out
        },
        _ => {
            let mut out: Vec<Span> = Vec::new();
            out.push(span_from(node_debug(node)));
            proof {
                assert(spans_view(out) =~= spans_of(*node));
            }
            out
        },
    }
}

/// Copies of the spans of `acc`, then copies of the spans of `src` from
/// index `from` on.
fn extended_with(acc: Vec<Span>, src: &Vec<Span>, from: usize) -> (r: Vec<Span>)
    requires
        from <= src@.len(),
    ensures
        spans_view(r) == spans_view(acc) + spans_view(*src).skip(from as int),
{
    let ghost base = spans_view(acc);
    let mut out = acc;
    let mut j = from;
    while j < src.len()
        invariant
            from <= j <= src@.len(),
            out@.len() == base.len() + (j - from),
            forall|k: int| 0 <= k < base.len() ==> out@[k]@ == base[k],
            forall|k: int|
                base.len() <= k < out@.len() ==> out@[k]@ == spans_view(*src)[from + (k
                    - base.len())],
        decreases src@.len() - j,
    {
        out.push(clone_span(&src[j]));
        j += 1;
    }
    proof {
        assert(spans_view(out) =~= base + spans_view(*src).skip(from as int));
    }
    out
}

/// Apply the list indentation rule to every line, in order.
fn indent_lines(lines: &Vec<Line>) -> (r: Vec<Line>)
    ensures
        lines_view(r) == indent_all(lines_view(*lines)),
{
    let dash = String::from_str("- ");
    let mut out: Vec<Line> = Vec::new();
    let mut i: usize = 0;
    while i < lines.len()
        invariant
            i <= lines@.len(),
            out@.len() == i,
            dash@ == "- "@,
            forall|k: int| 0 <= k < i ==> out@[k]@ == spec_indent_line(lines@[k]@),
        decreases lines@.len() - i,
    {
        let line = &lines[i];
        let mut spans: Vec<Span> = Vec::new();
        if line.spans.len() >= 2 && line.spans[1].content == dash {
            let mut t = line.spans[0].content.clone();
            t.append("  ");
            spans.push(Span { content: t, style: plain_style() });
            spans = extended_with(spans, &line.spans, 1);
            proof {
                assert(spans_view(spans) =~= spec_indent_line(line@));
            }
        } else {
            spans.push(span_from(String::from_str("  ")));
            spans.push(span_from(dash.clone()));
            spans = extended_with(spans, &line.spans, 0);
            proof {
                assert(spans_view(spans) =~= spec_indent_line(line@));
            }
        }
        out.push(Line { spans });
        i += 1;
    }
    proof {
        assert(lines_view(out) =~= indent_all(lines_view(*lines)));
    }
    out
}

/// Flatten a sequence of nodes into the concatenation of their lines. This is
/// how a whole document (the children of its parsed root) is rendered.
pub fn nodes_to_lines(nodes: &Vec<Node>) -> (r: Vec<Line>)
    ensures
        lines_view(r) == lines_of_children(nodes@),
    decreases *nodes, 1int,
{
    let mut out: Vec<Line> = Vec::new();
    let mut i: usize = 0;
    while i < nodes.len()
        invariant
            i <= nodes@.len(),
            lines_view(out) == lines_of_children(nodes@.take(i as int)),
        decreases nodes@.len() - i,
    {
        proof {
            assert(decreases_to!(*nodes => nodes@[i as int]));
        }
        let mut cs = node_to_lines(&nodes[i]);
        out.append(&mut cs);
        proof {
            assert(nodes@.take(i as int + 1).drop_last() =~= nodes@.take(i as int));
            assert(nodes@.take(i as int + 1).last() == nodes@[i as int]);
            assert(lines_view(out) =~= lines_of_children(nodes@.take(i as int + 1)));
        }
        i += 1;
    }
    proof {
        assert(nodes@.take(nodes@.len() as int) =~= nodes@);
    }
    out
}

/// Render one markdown node into its styled lines, by the per-kind policy
/// that [`lines_of`] states.
pub fn node_to_lines(node: &Node) -> (r: Vec<Line>)
    ensures
        lines_view(r) == lines_of(*node),
    decreases *node, 0int,
{
    match node {
        Node::Paragraph { children } => {
            let spans = nodes_to_spans(children);
            let mut out: Vec<Line> = Vec::new();
            out.push(Line { spans });
            proof {
                assert(lines_view(out) =~~= lines_of(*node));
            }
            out
        },
        Node::Heading { children } => {
            let mut out: Vec<Line> = Vec::new();
            let mut i: usize = 0;
            while i < children.len()
                invariant
                    i <= children@.len(),
                    lines_view(out) == heading_lines(children@.take(i as int)),
                decreases children@.len() - i,
            {
                let cs = node_to_spans(&children[i]);
                let ps = patch_all(&cs, heading_style());
                out.push(Line { spans: ps });
                proof {
                    assert(children@.take(i as int + 1).drop_last() =~= children@.take(i as int));
                    assert(children@.take(i as int + 1).last() == children@[i as int]);
                    assert(lines_view(out) =~= heading_lines(children@.take(i as int + 1)));
                }
                i += 1;
            }
            proof {
                assert(children@.take(children@.len() as int) =~= children@);
            }
            out
        },
        Node::Html { .. } => {
            let out: Vec<Line> = Vec::new();
            proof {
                assert(lines_view(out) =~= lines_of(*node));
            }
            out
        },
        Node::Text { value } => {
            let mut spans: Vec<Span> = Vec::new();
            spans.push(span_from(value.clone()));
            let mut out: Vec<Line> = Vec::new();
            out.push(Line { spans });
            proof {
                assert(lines_view(out) =~~= lines_of(*node));
            }
            out
        },
        Node::ListItem { children } => nodes_to_lines(children),
        Node::List { children } => {
            let ls = nodes_to_lines(children);
            indent_lines(&ls)
        },
        Node::Strong { .. } => {
            let cs = node_to_spans(node);
            let ps = patch_all(&cs, bold_style());
            let mut out: Vec<Line> = Vec::new();
            out.push(Line { spans: ps });
            proof {
                assert(lines_view(out) =~~= lines_of(*node));
            }
            out
        },
        Node::Link { children } => nodes_to_lines(children),
        Node::Yaml { .. } => {
            let mut spans: Vec<Span> = Vec::new();
            spans.push(span_from(String::from_str("-- Found metadata block, currently unused")));
            let mut out: Vec<Line> = Vec::new();
            out.push(Line { spans });
            proof {
                assert(lines_view(out) =~~= lines_of(*node));
            }
            out
        },
        Node::InlineCode { value } => {
            let mut spans: Vec<Span> = Vec::new();
            spans.push(Span { content: value.clone(), style: code_style() });
            let mut out: Vec<Line> = Vec::new();
            out.push(Line { spans });
            proof {
                assert(lines_view(out) =~~= lines_of(*node));
            }
            out
        },
        Node::Other { .. } => {
            let mut spans: Vec<Span> = Vec::new();
            spans.push(span_from(node_debug(node)));
            let mut out: Vec<Line> = Vec::new();
            out.push(Line { spans });
            proof {
                assert(lines_view(out) =~~= lines_of(*node));
            }
            out
        },
    }
}

/// Law: patching a style onto a line twice yields the same line as patching
/// it once; style patching is idempotent.
pub proof fn lemma_patch_line_idempotent(l: LineModel, patch: Style)
    ensures
        patch_spans(patch_spans(l, patch), patch) == patch_spans(l, patch),
{
    assert(patch_spans(patch_spans(l, patch), patch) =~~= patch_spans(l, patch));
}

/// The number of lines a heading renders: one per child.
pub proof fn lemma_heading_lines_len(s: Seq<Node>)
    ensures
        heading_lines(s).len() == s.len(),
    decreases s.len(),
{
    if s.len() > 0 {
        lemma_heading_lines_len(s.drop_last());
    }
}

/// Law: the transformer is total over every node kind, the unrecognized
/// catch-all included. Every kind other than raw HTML and the container kinds
/// yields exactly one line; raw HTML yields none; a heading yields one line
/// per child; a list yields one line per flattened line of its items; list
/// items and links yield exactly their children's lines.
pub proof fn lemma_transform_total(n: Node)
    ensures
        n is Text || n is Paragraph || n is Strong || n is InlineCode || n is Yaml || n is Other
            ==> lines_of(n).len() == 1,
        n is Html ==> lines_of(n).len() == 0,
        n matches Node::Heading { children } ==> lines_of(n).len() == children@.len(),
        n matches Node::List { children } ==> lines_of(n).len() == lines_of_children(
            children@,
        ).len(),
        n matches Node::ListItem { children } ==> lines_of(n) == lines_of_children(children@),
        n matches Node::Link { children } ==> lines_of(n) == lines_of_children(children@),
{
    match n {
        Node::Heading { children } => {
            lemma_heading_lines_len(children@);
        },
        _ => {},
    }
}

/// Law: every span of every line rendered for a heading is bold and carries
/// the heading color, whatever styling the heading's children brought along.
pub proof fn lemma_heading_style_invariant(n: Node)
    requires
        n is Heading,
    ensures
        forall|i: int, j: int|
            0 <= i < lines_of(n).len() && 0 <= j < lines_of(n)[i].len() ==> (#[trigger] lines_of(
                n,
            )[i][j]).style.bold && lines_of(n)[i][j].style.fg == Some(Color::Red),
{
    lemma_heading_lines_styled(n->Heading_children@);
}

proof fn lemma_heading_lines_styled(s: Seq<Node>)
    ensures
        forall|i: int, j: int|
            0 <= i < heading_lines(s).len() && 0 <= j < heading_lines(s)[i].len() ==> (
            #[trigger] heading_lines(s)[i][j]).style.bold && heading_lines(s)[i][j].style.fg
                == Some(Color::Red),
    decreases s.len(),
{
    if s.len() > 0 {
        lemma_heading_lines_styled(s.drop_last());
        lemma_heading_lines_len(s);
        lemma_heading_lines_len(s.drop_last());
        assert forall|i: int, j: int|
            0 <= i < heading_lines(s).len() && 0 <= j < heading_lines(s)[i].len() implies (
        #[trigger] heading_lines(s)[i][j]).style.bold && heading_lines(s)[i][j].style.fg == Some(
            Color::Red,
        ) by {
            if i < s.len() - 1 {
                assert(heading_lines(s)[i] == heading_lines(s.drop_last())[i]);
            } else {
                assert(heading_lines(s)[i] == patch_spans(
                    spans_of(s.last()),
                    spec_heading_style(),
                ));
                assert(heading_lines(s)[i][j] == span_patched(
                    spans_of(s.last())[j],
                    spec_heading_style(),
                ));
            }
        }
    }
}

/// Law: a two-level nested list — one item holding a text line and a sub-list
/// with one text item — renders as exactly two bulleted lines, and the second
/// line's leading indent is exactly one two-space unit longer than the
/// first's.
pub proof fn lemma_nested_list_indent(outer: Node)
    requires
        outer matches Node::List { children: outer_items } && outer_items@.len() == 1 && (
        outer_items@[0] matches Node::ListItem { children: item_children } && item_children@.len()
            == 2 && item_children@[0] is Text && (item_children@[1] matches Node::List {
            children: inner_items,
        } && inner_items@.len() == 1 && (inner_items@[0] matches Node::ListItem {
            children: inner_children,
        } && inner_children@.len() == 1 && inner_children@[0] is Text))),
    ensures
        lines_of(outer).len() == 2,
        lines_of(outer)[0].len() == 3,
        lines_of(outer)[1].len() == 3,
        lines_of(outer)[0][1].text == "- "@,
        lines_of(outer)[1][1].text == "- "@,
        lines_of(outer)[0][0].text == "  "@,
        lines_of(outer)[1][0].text == "  "@ + "  "@,
        lines_of(outer)[1][0].text.len() == lines_of(outer)[0][0].text.len() + 2,
{
    reveal_strlit("  ");
    reveal_strlit("- ");
    reveal_with_fuel(lines_of_children, 3);
    reveal_with_fuel(lines_of, 2);
    let outer_items = outer->List_children;
    let item = outer_items@[0];
    let item_children = item->ListItem_children;
    let a = item_children@[0];
    let inner = item_children@[1];
    let inner_items = inner->List_children;
    let inner_item = inner_items@[0];
    let inner_children = inner_item->ListItem_children;
    let b = inner_children@[0];
    let line_a: LineModel = seq![plain_span(a->Text_value@)];
    let line_b: LineModel = seq![plain_span(b->Text_value@)];

    // the inner list renders its one text line and prepends the bullet prefix
    assert(inner_children@.drop_last() =~= Seq::<Node>::empty());
    assert(lines_of_children(Seq::<Node>::empty()) =~= Seq::<LineModel>::empty());
    assert(lines_of(b) =~= seq![line_b]);
    assert(lines_of_children(inner_children@) =~= seq![line_b]);
    assert(inner_items@.drop_last() =~= Seq::<Node>::empty());
    assert(lines_of(inner_item) =~= seq![line_b]);
    assert(lines_of_children(inner_items@) =~= seq![line_b]);
    let line_b_pref: LineModel = seq![plain_span("  "@), plain_span("- "@), plain_span(
        b->Text_value@,
    )];
    assert(spec_indent_line(line_b) =~= line_b_pref);
    assert(lines_of(inner) =~= seq![line_b_pref]);

    // the item flattens to the text line followed by the prefixed line
    assert(item_children@.drop_last() =~= seq![a]);
    assert(seq![a].drop_last() =~= Seq::<Node>::empty());
    assert(lines_of(a) =~= seq![line_a]);
    assert(lines_of_children(seq![a]) =~= seq![line_a]);
    assert(lines_of_children(item_children@) =~= seq![line_a, line_b_pref]);

    // the outer list prefixes the first line and deepens the second
    assert(outer_items@.drop_last() =~= Seq::<Node>::empty());
    assert(lines_of(item) == lines_of_children(item_children@));
    assert(lines_of_children(outer_items@) =~= seq![line_a, line_b_pref]);
    let line_a_pref: LineModel = seq![plain_span("  "@), plain_span("- "@), plain_span(
        a->Text_value@,
    )];
    assert(spec_indent_line(line_a) =~= line_a_pref);
    assert(line_b_pref[1].text == "- "@);
    let line_b_deep: LineModel = seq![plain_span("  "@ + "  "@), plain_span("- "@), plain_span(
        b->Text_value@,
    )];
    assert(spec_indent_line(line_b_pref) =~= line_b_deep);
    assert(lines_of(outer) =~= seq![line_a_pref, line_b_deep]);
}

} // verus!
