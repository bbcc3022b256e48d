use ellipsis::{Dot, Edge, Graph, Node, Shape};

fn compare(dot: &Dot, expected: &str) {
    let written = dot.write_to_string();

    assert_eq!(written, expected);
}

#[test]
fn empty() {
    let dot = Dot::new(false, Graph::new(Some("root".to_string())));

    let expected = "graph root {\n}";

    compare(&dot, expected);
}

#[test]
fn single_node() {
    let dot = Dot::new(
        false,
        Graph::new(None).node(Node::new("a").label("A").shape(Some(Shape::Box))),
    );

    let expected = "graph {\n  a [label=A, shape=box]\n}";

    compare(&dot, expected);
}

#[test]
fn edge_undirected() {
    let dot = Dot::new(
        false,
        Graph::new(None).edge(Edge::new("a", "b").label("E").pen_width(&format!("{}", 2.0f32))),
    );

    let expected = "graph {\n  a -- b [label=E, penwidth=2]\n}";

    compare(&dot, expected);
}

#[test]
fn edge_directed() {
    let dot = Dot::new(
        true,
        Graph::new(None).edge(Edge::new("a", "b").label("E").pen_width(&format!("{}", 2.0f32))),
    );

    let expected = "digraph {\n  a -> b [label=E, penwidth=2]\n}";

    compare(&dot, expected);
}

#[test]
fn subgraph() {
    let dot = Dot::new(
        false,
        Graph::new(None).subgraph(Graph::new(None).node(Node::new("a"))),
    );

    let expected = "graph {\n  subgraph {\n    a\n  }\n}";

    compare(&dot, expected);
}

#[test]
fn cluster() {
    let dot = Dot::new(
        false,
        Graph::new(None).subgraph(Graph::new(None).cluster().node(Node::new("a"))),
    );

    let expected = "graph {\n  subgraph cluster {\n    a\n  }\n}";

    compare(&dot, expected);
}

#[test]
fn whitespace() {
    let dot = Dot::new(
        false,
        Graph::new(None)
            .subgraph(Graph::new(None))
            .node(Node::new("a"))
            .node(Node::new("b"))
            .edge(Edge::new("a", "b")),
    );

    let expected = "graph {\n  subgraph {\n  }\n\n  a\n  b\n\n  a -- b\n}";

    compare(&dot, expected);
}
