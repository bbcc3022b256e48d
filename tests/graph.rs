use ellipsis::attribute::Attribute;
use ellipsis::export::export;
use ellipsis::utils::{write_attribute, write_attributes};
use ellipsis::{
    Color, CompassPoint, Dot, Edge, EdgeAttribute, EdgeStyle, Graph, GraphAttribute, GraphType,
    Label, Node, NodeAttribute, NodeStyle, Shape,
};

#[test]
fn writing_twice_gives_the_same_text() {
    let dot = Dot::new(
        true,
        Graph::new(Some("g".to_string()))
            .label("x y")
            .subgraph(Graph::new(Some("s".to_string())).cluster().node(Node::new("c")))
            .node(Node::new("a").style(NodeStyle::Filled))
            .edge(Edge::new("a", "c").style(EdgeStyle::Dashed)),
    );
    assert_eq!(dot.write_to_string(), dot.write_to_string());
}

#[test]
fn sections_keep_insertion_order() {
    let dot = Dot::new(
        false,
        Graph::new(None)
            .compound(true)
            .label("G")
            .subgraph(Graph::new(Some("s2".to_string())))
            .subgraph(Graph::new(Some("s1".to_string())))
            .node(Node::new("b"))
            .node(Node::new("a"))
            .edge(Edge::new("b", "a"))
            .edge(Edge::new("a", "b")),
    );
    let expected = "graph {\n  compound=true\n  label=G\n\n  subgraph s2 {\n  }\n  subgraph s1 {\n  }\n\n  b\n  a\n\n  b -- a\n  a -- b\n}";
    assert_eq!(dot.write_to_string(), expected);
}

#[test]
fn attributes_keep_insertion_order() {
    let node = Node::new("n").shape(Some(Shape::Circle)).label("L").style(NodeStyle::Bold);
    let mut out = String::new();
    node.write(&mut out);
    assert_eq!(out, "n [shape=circle, label=L, style=bold]");
}

#[test]
fn named_cluster_gets_the_prefix() {
    let dot = Dot::new(
        false,
        Graph::new(None).subgraph(Graph::new(Some("x".to_string())).cluster()),
    );
    assert_eq!(dot.write_to_string(), "graph {\n  subgraph cluster_x {\n  }\n}");
}

#[test]
fn named_cluster_is_quoted_as_a_whole() {
    let dot = Dot::new(
        false,
        Graph::new(None).subgraph(Graph::new(Some("a b".to_string())).cluster()),
    );
    assert_eq!(dot.write_to_string(), "graph {\n  subgraph \"cluster_a b\" {\n  }\n}");
}

#[test]
fn root_is_never_a_cluster() {
    let dot = Dot::new(true, Graph::new(Some("r".to_string())).cluster());
    assert_eq!(dot.write_to_string(), "digraph r {\n}");
}

#[test]
fn nested_subgraphs_indent_further() {
    let dot = Dot::new(
        true,
        Graph::new(None).subgraph(
            Graph::new(Some("outer".to_string()))
                .subgraph(Graph::new(Some("inner".to_string())).node(Node::new("x")))
                .edge(Edge::new("x", "y")),
        ),
    );
    let expected = "digraph {\n  subgraph outer {\n    subgraph inner {\n      x\n    }\n\n    x -> y\n  }\n}";
    assert_eq!(dot.write_to_string(), expected);
}

#[test]
fn identifiers_are_quoted_when_needed() {
    let dot = Dot::new(
        true,
        Graph::new(Some("my graph".to_string())).edge(Edge::new("a-b", "c")),
    );
    assert_eq!(dot.write_to_string(), "digraph \"my graph\" {\n  \"a-b\" -> c\n}");
}

#[test]
fn node_attributes_are_encoded() {
    let node = Node::new("n")
        .color(Color::Rgba { red: 255, green: 0, blue: 0, alpha: 255 })
        .fill_color(Color::Name("red".to_string()))
        .font_color(Color::Name("dark red".to_string()))
        .shape(None)
        .shape(Some(Shape::Unknown("my shape".to_string())))
        .attribute(NodeAttribute::Label(Label::HtmlLike("<<b>x</b>>".to_string())))
        .attribute(NodeAttribute::Unknown("fontsize".to_string(), "1 2".to_string()));
    let mut out = String::new();
    node.write(&mut out);
    assert_eq!(
        out,
        "n [color=\"#ff0000ff\", fillcolor=red, fontcolor=\"dark red\", shape=none, shape=my shape, label=<<b>x</b>>, fontsize=\"1 2\"]"
    );
}

#[test]
fn edge_attributes_are_encoded() {
    let edge = Edge::new("a", "b")
        .head_label("h")
        .tail_label("t t")
        .head_port(CompassPoint::NorthEast)
        .tail_port(CompassPoint::Adjacent)
        .lhead("cluster_x")
        .ltail("l t")
        .same_head("sh")
        .same_tail("st")
        .style(EdgeStyle::Invisible)
        .color(Color::Name("blue".to_string()))
        .pen_width(&format!("{}", 1.5f32))
        .attribute(EdgeAttribute::Unknown("arrow head".to_string(), "dot".to_string()));
    let mut out = String::new();
    edge.write(false, &mut out);
    assert_eq!(
        out,
        "a -- b [headlabel=h, taillabel=\"t t\", headport=ne, tailport=_, lhead=cluster_x, ltail=\"l t\", samehead=sh, sametail=st, style=invis, color=blue, penwidth=1.5, \"arrow head\"=dot]"
    );
}

#[test]
fn graph_attributes_are_encoded() {
    let dot = Dot::new(
        false,
        Graph::new(None)
            .compound(false)
            .margin(&format!("{}", 0.5f32), &format!("{}", 1.0f32))
            .attribute(GraphAttribute::Label(Label::Text("t".to_string()))),
    );
    assert_eq!(dot.write_to_string(), "graph {\n  compound=false\n  margin=\"0.5,1\"\n  label=t\n}");
}

#[test]
fn compass_points_have_their_codes() {
    let all = [
        (CompassPoint::North, "n"),
        (CompassPoint::NorthEast, "ne"),
        (CompassPoint::East, "e"),
        (CompassPoint::SouthEast, "se"),
        (CompassPoint::South, "s"),
        (CompassPoint::SouthWest, "sw"),
        (CompassPoint::West, "w"),
        (CompassPoint::NorthWest, "nw"),
        (CompassPoint::Center, "c"),
        (CompassPoint::Adjacent, "_"),
    ];
    for (p, code) in all {
        assert_eq!(p.as_str(), code);
    }
}

#[test]
fn styles_and_shapes_have_their_names() {
    assert_eq!(NodeStyle::Invisible.as_str(), "invis");
    assert_eq!(NodeStyle::Diagonals.as_str(), "diagonals");
    assert_eq!(EdgeStyle::Tapered.as_str(), "tapered");
    assert_eq!(Shape::InvTrapezium.as_str(), "invtrapezium");
    assert_eq!(Shape::Underline.as_str(), "underline");
}

#[test]
fn attribute_list_is_bracketed_and_comma_separated() {
    let attributes = vec![
        NodeAttribute::Style(NodeStyle::Rounded),
        NodeAttribute::Shape(Some(Shape::Egg)),
    ];
    let mut out = String::from("x");
    write_attributes(&attributes, &mut out);
    assert_eq!(out, "x [style=rounded, shape=egg]");

    let mut one = String::new();
    write_attribute(&GraphAttribute::Compound(true), &mut one);
    assert_eq!(one, "compound=true");
}

#[test]
fn free_attribute_writes_name_and_value() {
    let a = Attribute { name: "rankdir".to_string(), value: "LR".to_string() };
    let mut out = String::new();
    a.write(&mut out);
    assert_eq!(out, "rankdir=LR");
}

#[test]
fn export_lists_the_graphs_own_nodes() {
    let g = Graph::new(None)
        .node(Node::new("a").label("A"))
        .node(Node::new("b"))
        .subgraph(Graph::new(None).node(Node::new("hidden")));
    let mut out = String::new();
    export(&g, &mut out);
    assert_eq!(out, "digraph {\n  a [label=A]\n  b\n}");
}

#[test]
fn graph_write_appends_to_what_is_there() {
    let g = Graph::new(Some("s".to_string())).node(Node::new("a"));
    let mut out = String::from(">");
    g.write(true, GraphType::Subgraph { cluster: true }, &mut out);
    assert_eq!(out, ">subgraph cluster_s {\n  a\n}");
}
