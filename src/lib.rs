//! Builds graphs of nodes, edges and nested subgraphs and writes them out in
//! the DOT language read by Graphviz.

pub mod attribute;
pub mod chars;
pub mod color;
pub mod compass_point;
pub mod edge;
pub mod export;
pub mod graph;
pub mod label;
pub mod node;
pub mod number;
pub mod utils;

pub use color::{Color, ColorParseError};
pub use compass_point::CompassPoint;
pub use edge::{Edge, EdgeAttribute, EdgeStyle};
pub use graph::{Graph, GraphAttribute, GraphType};
pub use label::Label;
pub use node::{Node, NodeAttribute, NodeStyle, Shape};

use vstd::prelude::*;
use graph::graph_text;

verus! {

/// A whole graph, ready to be written: the root graph and whether its edges
/// are directed.
pub struct Dot {
    pub directed: bool,
    pub graph: Graph,
}

impl Dot {
    /// The DOT text of the graph, with no newline after the closing brace.
    pub open spec fn text(&self) -> Seq<char> {
        graph_text(self.graph, self.directed, GraphType::Root)
    }

    pub fn new(directed: bool, graph: Graph) -> (r: Dot)
        ensures
            r.directed == directed,
            r.graph == graph,
    {
        Dot { directed, graph }
    }

    /// Appends the DOT text to `out`.
    pub fn write(&self, out: &mut String)
        ensures
            final(out)@ == old(out)@ + self.text(),
    {
        self.graph.write(self.directed, GraphType::Root, out);
    }

    pub fn write_to_string(&self) -> (r: String)
        ensures
            r@ == self.text(),
    {
        let mut out = String::new();
        self.write(&mut out);
        assert(out@ =~= self.text());
        out
    }
}

/// Writing the same tree twice gives the same text: any two results that
/// meet `write_to_string`'s contract for `d` are equal.
pub proof fn lemma_write_deterministic(d: Dot, first: String, second: String)
    requires
        first@ == d.text(),
        second@ == d.text(),
    ensures
        first@ == second@,
{
}

} // verus!
