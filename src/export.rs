//! A flat listing of a graph's own nodes as a directed graph.

use vstd::prelude::*;
use crate::graph::Graph;
use crate::node::Node;

verus! {

/// One indented line per node, in order.
pub open spec fn listed_nodes(nodes: Seq<Node>) -> Seq<char>
    decreases nodes.len(),
{
    if nodes.len() == 0 {
        seq![]
    } else {
        listed_nodes(nodes.drop_last()) + "  "@ + nodes.last().text() + "\n"@
    }
}

/// Appends a directed graph that lists the nodes of `graph` (not those of its
/// subgraphs) and nothing else.
pub fn export(graph: &Graph, out: &mut String)
    ensures
        final(out)@ == old(out)@ + "digraph {\n"@ + listed_nodes(graph.nodes@) + "}"@,
{
    let ghost start = out@;
    out.append("digraph {\n");
    let mut i: usize = 0;
    while i < graph.nodes.len()
        invariant
            i <= graph.nodes.len(),
            out@ == start + "digraph {\n"@ + listed_nodes(graph.nodes@.take(i as int)),
        decreases graph.nodes.len() - i,
    {
        out.append("  ");
        graph.nodes[i].write(out);
        out.append("\n");
        assert(graph.nodes@.take(i + 1).drop_last() =~= graph.nodes@.take(i as int));
        i = i + 1;
    }
    assert(graph.nodes@.take(i as int) =~= graph.nodes@);
    out.append("}");
}

} // verus!
