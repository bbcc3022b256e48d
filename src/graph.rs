//! Graphs: trees of subgraphs, nodes and edges, and how they are written.

use vstd::prelude::*;
use crate::edge::Edge;
use crate::label::Label;
use crate::node::Node;
use crate::utils::{attribute_text, sanitize, sanitized, write_attribute, Attribute};

verus! {

pub struct Graph {
    pub id: Option<String>,
    /// Whether the graph, when it is a subgraph, is written as a cluster.
    pub cluster: bool,
    pub attributes: Vec<GraphAttribute>,
    pub subgraphs: Vec<Graph>,
    pub nodes: Vec<Node>,
    pub edges: Vec<Edge>,
}

/// Where a graph stands in the tree, which decides its keyword.
pub enum GraphType {
    Root,
    Subgraph { cluster: bool },
}

pub enum GraphAttribute {
    Compound(bool),
    Label(Label),
    /// The margins, each as the decimal text of a number.
    Margin(String, String),
}

impl Attribute for GraphAttribute {
    open spec fn key_text(&self) -> Seq<char> {
        match self {
            GraphAttribute::Compound(_) => "compound"@,
            GraphAttribute::Label(_) => "label"@,
            GraphAttribute::Margin(_, _) => "margin"@,
        }
    }

    open spec fn value_text(&self) -> Seq<char> {
        match self {
            GraphAttribute::Compound(true) => "true"@,
            GraphAttribute::Compound(false) => "false"@,
            GraphAttribute::Label(l) => l.text(),
            GraphAttribute::Margin(x, y) => "\""@ + x@ + ","@ + y@ + "\""@,
        }
    }

    fn pair(&self) -> (r: (String, String)) {
        match self {
            GraphAttribute::Compound(compound) => (
                String::from_str("compound"),
                String::from_str(
                    if *compound {
                        "true"
                    } else {
                        "false"
                    },
                ),
            ),
            GraphAttribute::Label(l) => (String::from_str("label"), l.as_string()),
            GraphAttribute::Margin(x, y) => {
                let mut v = String::from_str("\"");
                v.append(x.as_str());
                v.append(",");
                v.append(y.as_str());
                v.append("\"");
                (String::from_str("margin"), v)
            },
        }
    }
}

/// `s` with `indent` put before each line that does not start with a newline,
/// `at_line_start` telling whether `s` starts a line.
pub open spec fn indented_from(indent: Seq<char>, s: Seq<char>, at_line_start: bool) -> Seq<char>
    decreases s.len(),
{
    if s.len() == 0 {
        seq![]
    } else if s[0] == '\n' {
        seq!['\n'] + indented_from(indent, s.drop_first(), true)
    } else if at_line_start {
        indent + seq![s[0]] + indented_from(indent, s.drop_first(), false)
    } else {
        seq![s[0]] + indented_from(indent, s.drop_first(), false)
    }
}

/// `s` with `indent` put before each of its non-empty lines.
pub open spec fn indented(indent: Seq<char>, s: Seq<char>) -> Seq<char> {
    indented_from(indent, s, true)
}

/// Relies on indent_write's `fmt::IndentWriter`: text written through a new
/// writer gets the indent before each line that is not empty.
#[verifier::external_body]
fn indent_lines(indent: &str, s: &str) -> (r: String)
    ensures
        r@ == indented(indent@, s@),
{
    let mut out = String::new();
    let mut writer = indent_write::fmt::IndentWriter::new(indent, &mut out);
    let _ = core::fmt::Write::write_str(&mut writer, s);
    out
}

/// Two sections of a body, with a blank line between them when both are
/// non-empty.
pub open spec fn separated(a: Seq<char>, b: Seq<char>) -> Seq<char> {
    if b.len() == 0 {
        a
    } else if a.len() == 0 {
        b
    } else {
        a + "\n"@ + b
    }
}

/// One line per attribute, in order.
pub open spec fn attribute_lines(attributes: Seq<GraphAttribute>) -> Seq<char>
    decreases attributes.len(),
{
    if attributes.len() == 0 {
        seq![]
    } else {
        attribute_lines(attributes.drop_last()) + attribute_text(attributes.last()) + "\n"@
    }
}

/// One line per node, in order.
pub open spec fn node_lines(nodes: Seq<Node>) -> Seq<char>
    decreases nodes.len(),
{
    if nodes.len() == 0 {
        seq![]
    } else {
        node_lines(nodes.drop_last()) + nodes.last().text() + "\n"@
    }
}

/// One line per edge, in order.
pub open spec fn edge_lines(edges: Seq<Edge>, directed: bool) -> Seq<char>
    decreases edges.len(),
{
    if edges.len() == 0 {
        seq![]
    } else {
        edge_lines(edges.drop_last(), directed) + edges.last().text(directed) + "\n"@
    }
}

/// The keyword of a graph, then its identifier if it has one; a cluster's
/// identifier gets the prefix `cluster_`, and a cluster without one is
/// called `cluster`.
pub open spec fn header_text(g: Graph, directed: bool, kind: GraphType) -> Seq<char> {
    let cluster = kind matches GraphType::Subgraph { cluster } && cluster;
    let keyword = match kind {
        GraphType::Root => if directed {
            "digraph"@
        } else {
            "graph"@
        },
        GraphType::Subgraph { .. } => "subgraph"@,
    };
    keyword + match g.id {
        Some(name) => " "@ + if cluster {
            sanitized("cluster_"@ + name@)
        } else {
            sanitized(name@)
        },
        None => if cluster {
            " cluster"@
        } else {
            Seq::<char>::empty()
        },
    }
}

/// Each subgraph written as such, one after the other, each ending a line.
pub open spec fn subgraph_lines(subgraphs: Seq<Graph>, directed: bool) -> Seq<char>
    decreases subgraphs, 0int,
{
    if subgraphs.len() == 0 {
        seq![]
    } else {
        let last = subgraphs[subgraphs.len() - 1];
        subgraph_lines(subgraphs.subrange(0, subgraphs.len() - 1), directed) + graph_text(
            last,
            directed,
            GraphType::Subgraph { cluster: last.cluster },
        ) + "\n"@
    }
}

/// The body of a graph: its attributes, subgraphs, nodes and edges, each
/// section in insertion order, with one blank line between non-empty
/// sections.
pub open spec fn body_text(g: Graph, directed: bool) -> Seq<char>
    decreases g, 1int,
{
    separated(
        separated(
            separated(attribute_lines(g.attributes@), subgraph_lines(g.subgraphs@, directed)),
            node_lines(g.nodes@),
        ),
        edge_lines(g.edges@, directed),
    )
}

/// The text of a graph: its header, then its body indented by two spaces
/// between braces. No newline follows the closing brace.
pub open spec fn graph_text(g: Graph, directed: bool, kind: GraphType) -> Seq<char>
    decreases g, 2int,
{
    header_text(g, directed, kind) + " {\n"@ + indented("  "@, body_text(g, directed)) + "}"@
}

/// An attribute added to a graph is written after those added before it.
pub proof fn lemma_attribute_order(attributes: Seq<GraphAttribute>, a: GraphAttribute)
    ensures
        attribute_lines(attributes.push(a)) == attribute_lines(attributes) + attribute_text(a)
            + "\n"@,
{
    assert(attributes.push(a).drop_last() =~= attributes);
}

/// A subgraph added to a graph is written after those added before it.
pub proof fn lemma_subgraph_order(subgraphs: Seq<Graph>, g: Graph, directed: bool)
    ensures
        subgraph_lines(subgraphs.push(g), directed) == subgraph_lines(subgraphs, directed)
            + graph_text(g, directed, GraphType::Subgraph { cluster: g.cluster }) + "\n"@,
{
    assert(subgraphs.push(g).subrange(0, subgraphs.len() as int) =~= subgraphs);
}

/// A node added to a graph is written after those added before it.
pub proof fn lemma_node_order(nodes: Seq<Node>, n: Node)
    ensures
        node_lines(nodes.push(n)) == node_lines(nodes) + n.text() + "\n"@,
{
    assert(nodes.push(n).drop_last() =~= nodes);
}

/// An edge added to a graph is written after those added before it.
pub proof fn lemma_edge_order(edges: Seq<Edge>, e: Edge, directed: bool)
    ensures
        edge_lines(edges.push(e), directed) == edge_lines(edges, directed) + e.text(directed)
            + "\n"@,
{
    assert(edges.push(e).drop_last() =~= edges);
}

/// Appends `lines` to `body` as a section of its own.
fn append_section(body: &mut String, lines: &String)
    ensures
        final(body)@ == separated(old(body)@, lines@),
{
    if !lines.as_str().is_empty() {
        if !body.as_str().is_empty() {
            body.append("\n");
        }
        body.append(lines.as_str());
    }
}

impl Graph {
    pub fn new(name: Option<String>) -> (r: Graph)
        ensures
            r.id == name,
            !r.cluster,
            r.attributes@.len() == 0,
            r.subgraphs@.len() == 0,
            r.nodes@.len() == 0,
            r.edges@.len() == 0,
    {
        Graph {
            id: name,
            cluster: false,
            attributes: Vec::new(),
            subgraphs: Vec::new(),
            nodes: Vec::new(),
            edges: Vec::new(),
        }
    }

    pub fn subgraph(self, subgraph: Graph) -> (r: Graph)
        ensures
            r == (Graph { subgraphs: r.subgraphs, ..self }),
            r.subgraphs@ == self.subgraphs@.push(subgraph),
    {
        let mut r = self;
        r.subgraphs.push(subgraph);
        r
    }

    /// Marks the graph to be written as a cluster when it is a subgraph.
    pub fn cluster(self) -> (r: Graph)
        ensures
            r == (Graph { cluster: true, ..self }),
    {
        let mut r = self;
        r.cluster = true;
        r
    }

    pub fn node(self, node: Node) -> (r: Graph)
        ensures
            r == (Graph { nodes: r.nodes, ..self }),
            r.nodes@ == self.nodes@.push(node),
    {
        let mut r = self;
        r.nodes.push(node);
        r
    }

    pub fn edge(self, edge: Edge) -> (r: Graph)
        ensures
            r == (Graph { edges: r.edges, ..self }),
            r.edges@ == self.edges@.push(edge),
    {
        let mut r = self;
        r.edges.push(edge);
        r
    }

    pub fn compound(self, compound: bool) -> (r: Graph)
        ensures
            r == (Graph { attributes: r.attributes, ..self }),
            r.attributes@ == self.attributes@.push(GraphAttribute::Compound(compound)),
    {
        self.attribute(GraphAttribute::Compound(compound))
    }

    /// Adds a text label.
    pub fn label(self, label: &str) -> (r: Graph)
        ensures
            r == (Graph { attributes: r.attributes, ..self }),
            r.attributes@ == self.attributes@.push(r.attributes@.last()),
            r.attributes@.last() matches GraphAttribute::Label(Label::Text(t)) && t@ == label@,
    {
        self.attribute(GraphAttribute::Label(Label::Text(String::from_str(label))))
    }

    /// Sets the margins; each is the decimal text of a number, written as given.
    pub fn margin(self, x: &str, y: &str) -> (r: Graph)
        ensures
            r == (Graph { attributes: r.attributes, ..self }),
            r.attributes@ == self.attributes@.push(r.attributes@.last()),
            r.attributes@.last() matches GraphAttribute::Margin(mx, my) && mx@ == x@ && my@ == y@,
    {
        self.attribute(GraphAttribute::Margin(String::from_str(x), String::from_str(y)))
    }

    pub fn attribute(self, attribute: GraphAttribute) -> (r: Graph)
        ensures
            r == (Graph { attributes: r.attributes, ..self }),
            r.attributes@ == self.attributes@.push(attribute),
    {
        let mut r = self;
        r.attributes.push(attribute);
        r
    }

    fn write_header(&self, directed: bool, graph_type: GraphType, out: &mut String)
        ensures
            final(out)@ == old(out)@ + header_text(*self, directed, graph_type),
    {
        let cluster = match graph_type {
            GraphType::Root => {
                if directed {
                    out.append("digraph");
                } else {
                    out.append("graph");
                }
                false
            },
            GraphType::Subgraph { cluster } => {
                out.append("subgraph");
                cluster
            },
        };
        match &self.id {
            Some(name) => {
                out.append(" ");
                if cluster {
                    let mut prefixed = String::from_str("cluster_");
                    prefixed.append(name.as_str());
                    out.append(sanitize(prefixed.as_str()).as_str());
                } else {
                    out.append(sanitize(name.as_str()).as_str());
                }
            },
            None => {
                if cluster {
                    out.append(" cluster");
                }
            },
        }
        assert(out@ =~= old(out)@ + header_text(*self, directed, graph_type));
    }

    fn attribute_section(&self) -> (r: String)
        ensures
            r@ == attribute_lines(self.attributes@),
    {
        let mut lines = String::new();
        let mut i: usize = 0;
        while i < self.attributes.len()
            invariant
                i <= self.attributes.len(),
                lines@ == attribute_lines(self.attributes@.take(i as int)),
            decreases self.attributes.len() - i,
        {
            write_attribute(&self.attributes[i], &mut lines);
            lines.append("\n");
            assert(self.attributes@.take(i + 1).drop_last() =~= self.attributes@.take(i as int));
            i = i + 1;
        }
        assert(self.attributes@.take(i as int) =~= self.attributes@);
        lines
    }

    fn node_section(&self) -> (r: String)
        ensures
            r@ == node_lines(self.nodes@),
    {
        let mut lines = String::new();
        let mut i: usize = 0;
        while i < self.nodes.len()
            invariant
                i <= self.nodes.len(),
                lines@ == node_lines(self.nodes@.take(i as int)),
            decreases self.nodes.len() - i,
        {
            self.nodes[i].write(&mut lines);
            lines.append("\n");
            assert(self.nodes@.take(i + 1).drop_last() =~= self.nodes@.take(i as int));
            i = i + 1;
        }
        assert(self.nodes@.take(i as int) =~= self.nodes@);
        lines
    }

    fn edge_section(&self, directed: bool) -> (r: String)
        ensures
            r@ == edge_lines(self.edges@, directed),
    {
        let mut lines = String::new();
        let mut i: usize = 0;
        while i < self.edges.len()
            invariant
                i <= self.edges.len(),
                lines@ == edge_lines(self.edges@.take(i as int), directed),
            decreases self.edges.len() - i,
        {
            self.edges[i].write(directed, &mut lines);
            lines.append("\n");
            assert(self.edges@.take(i + 1).drop_last() =~= self.edges@.take(i as int));
            i = i + 1;
        }
        assert(self.edges@.take(i as int) =~= self.edges@);
        lines
    }

    /// Appends the text of the graph to `out`; `directed` picks the keyword
    /// of the root and the arrow of every edge in the tree.
    pub fn write(&self, directed: bool, graph_type: GraphType, out: &mut String)
        ensures
            final(out)@ == old(out)@ + graph_text(*self, directed, graph_type),
        decreases self,
    {
        let mut subgraphs = String::new();
        let mut i: usize = 0;
        while i < self.subgraphs.len()
            invariant
                i <= self.subgraphs.len(),
                subgraphs@ == subgraph_lines(self.subgraphs@.take(i as int), directed),
            decreases self.subgraphs.len() - i,
        {
            let subgraph = &self.subgraphs[i];
            subgraph.write(directed, GraphType::Subgraph { cluster: subgraph.cluster }, &mut subgraphs);
            subgraphs.append("\n");
            assert(self.subgraphs@.take(i + 1).subrange(0, i as int) =~= self.subgraphs@.take(
                i as int,
            ));
            i = i + 1;
        }
        assert(self.subgraphs@.take(i as int) =~= self.subgraphs@);

        let mut body = self.attribute_section();
        append_section(&mut body, &subgraphs);
        append_section(&mut body, &self.node_section());
        append_section(&mut body, &self.edge_section(directed));

        self.write_header(directed, graph_type, out);
        out.append(" {\n");
        out.append(indent_lines("  ", body.as_str()).as_str());
        out.append("}");
    }
}

} // verus!
