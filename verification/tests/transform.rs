use presento::node::node_debug;
use presento::node::Line;
use presento::node::Node;
use presento::parser::node_to_lines;
use presento::parser::node_to_spans;
use presento::parser::nodes_to_lines;
use presento::style::Color;

fn text(s: &str) -> Node {
    Node::Text { value: s.to_string() }
}

fn contents(line: &Line) -> Vec<&str> {
    line.spans.iter().map(|s| s.content.as_str()).collect()
}

#[test]
fn paragraph_flattens_inline_children() {
    let node = Node::Paragraph {
        children: vec![text("Hello "), Node::Strong { children: vec![text("world")] }],
    };
    let lines = node_to_lines(&node);
    assert_eq!(lines.len(), 1);
    assert_eq!(lines[0].spans.len(), 2);
    assert_eq!(lines[0].spans[0].content, "Hello ");
    assert!(!lines[0].spans[0].style.bold);
    assert_eq!(lines[0].spans[1].content, "world");
    assert!(lines[0].spans[1].style.bold);
    let joined: String = lines[0].spans.iter().map(|s| s.content.as_str()).collect();
    assert_eq!(joined, "Hello world");
}

#[test]
fn flat_list_prefixes_each_item_in_order() {
    let node = Node::List {
        children: vec![
            Node::ListItem { children: vec![text("a")] },
            Node::ListItem { children: vec![text("b")] },
        ],
    };
    let lines = node_to_lines(&node);
    assert_eq!(lines.len(), 2);
    assert_eq!(contents(&lines[0]), vec!["  ", "- ", "a"]);
    assert_eq!(contents(&lines[1]), vec!["  ", "- ", "b"]);
}

#[test]
fn nested_list_deepens_indent_by_one_unit() {
    let node = Node::List {
        children: vec![Node::ListItem {
            children: vec![
                text("a"),
                Node::List {
                    children: vec![Node::ListItem { children: vec![text("b")] }],
                },
            ],
        }],
    };
    let lines = node_to_lines(&node);
    assert_eq!(lines.len(), 2);
    assert_eq!(contents(&lines[0]), vec!["  ", "- ", "a"]);
    assert_eq!(contents(&lines[1]), vec!["    ", "- ", "b"]);
    assert_eq!(
        lines[1].spans[0].content.len(),
        lines[0].spans[0].content.len() + 2
    );
}

#[test]
fn heading_lines_are_bold_and_colored() {
    let node = Node::Heading {
        children: vec![text("Title"), Node::InlineCode { value: "code".to_string() }],
    };
    let lines = node_to_lines(&node);
    assert_eq!(lines.len(), 2);
    for line in &lines {
        for span in &line.spans {
            assert!(span.style.bold);
            assert_eq!(span.style.fg, Some(Color::Red));
        }
    }
    // the inline code keeps its own background under the heading restyle
    assert_eq!(lines[1].spans[0].content, "code");
    assert_eq!(lines[1].spans[0].style.bg, Some(Color::DarkGray));
}

#[test]
fn every_kind_renders_without_failing() {
    let kinds = vec![
        Node::Paragraph { children: vec![text("p")] },
        Node::Heading { children: vec![text("h")] },
        Node::List { children: vec![Node::ListItem { children: vec![text("i")] }] },
        Node::ListItem { children: vec![text("i")] },
        text("t"),
        Node::Strong { children: vec![text("s")] },
        Node::InlineCode { value: "c".to_string() },
        Node::Link { children: vec![text("l")] },
        Node::Html { value: "<br>".to_string() },
        Node::Yaml { value: "k: v".to_string() },
        Node::Other { raw: "Mystery".to_string() },
    ];
    for node in &kinds {
        let lines = node_to_lines(node);
        if matches!(node, Node::Html { .. }) {
            assert_eq!(lines.len(), 0);
        } else {
            assert_eq!(lines.len(), 1);
        }
    }
}

#[test]
fn unrecognized_kind_falls_back_to_visible_dump() {
    let node = Node::Other { raw: "Mystery".to_string() };
    let lines = node_to_lines(&node);
    assert_eq!(lines.len(), 1);
    assert_eq!(contents(&lines[0]), vec!["Mystery"]);
}

#[test]
fn yaml_renders_fixed_placeholder_notice() {
    let node = Node::Yaml { value: "title: x".to_string() };
    let lines = node_to_lines(&node);
    assert_eq!(lines.len(), 1);
    assert_eq!(
        contents(&lines[0]),
        vec!["-- Found metadata block, currently unused"]
    );
}

#[test]
fn inline_code_line_gets_highlighted_background() {
    let node = Node::InlineCode { value: "let x".to_string() };
    let lines = node_to_lines(&node);
    assert_eq!(lines.len(), 1);
    assert_eq!(lines[0].spans[0].content, "let x");
    assert_eq!(lines[0].spans[0].style.bg, Some(Color::DarkGray));
    assert!(!lines[0].spans[0].style.bold);
}

#[test]
fn link_renders_children_and_discards_target() {
    let node = Node::Link { children: vec![text("here")] };
    let lines = node_to_lines(&node);
    assert_eq!(lines.len(), 1);
    assert_eq!(contents(&lines[0]), vec!["here"]);
}

#[test]
fn double_bold_is_single_bold() {
    let once = Node::Strong { children: vec![text("w")] };
    let twice = Node::Strong { children: vec![Node::Strong { children: vec![text("w")] }] };
    let spans_once = node_to_spans(&once);
    let spans_twice = node_to_spans(&twice);
    assert_eq!(spans_once.len(), 1);
    assert_eq!(spans_twice.len(), 1);
    assert_eq!(spans_once[0].content, spans_twice[0].content);
    assert_eq!(spans_once[0].style, spans_twice[0].style);
}

#[test]
fn inline_construct_in_wrong_position_dumps_itself() {
    let node = Node::Paragraph {
        children: vec![Node::Link { children: vec![text("w")] }],
    };
    let lines = node_to_lines(&node);
    assert_eq!(lines.len(), 1);
    assert_eq!(contents(&lines[0]), vec!["Link[Text(w)]"]);
}

#[test]
fn node_dump_shows_structure() {
    let node = Node::Paragraph { children: vec![text("a"), text("b")] };
    assert_eq!(node_debug(&node), "Paragraph[Text(a)Text(b)]");
    assert_eq!(
        node_debug(&Node::Other { raw: "raw dump".to_string() }),
        "raw dump"
    );
}

#[test]
fn document_lines_concatenate_in_order() {
    let nodes = vec![
        Node::Paragraph { children: vec![text("one")] },
        Node::Html { value: "<hr>".to_string() },
        Node::Paragraph { children: vec![text("two")] },
    ];
    let lines = nodes_to_lines(&nodes);
    assert_eq!(lines.len(), 2);
    assert_eq!(contents(&lines[0]), vec!["one"]);
    assert_eq!(contents(&lines[1]), vec!["two"]);
}
