//! The edge data stage, in adjacency-list form.
use vstd::prelude::*;
use vstd::string::StringExecFns;

use crate::problem::fixed_edges::FixedEdges;
use crate::text::{decimal, push_decimal};
use crate::util::end_seq;
use crate::{Edge, Node};

verus! {

/// A node as the file numbers it (from one), followed by a space.
pub open spec fn entry(n: Node) -> Seq<char> {
    decimal(n as nat + 1) + " "@
}

/// What the adjacency lines of `edges` hold before the last `-1` and newline:
/// each edge adds its destination, and a change of source closes the
/// current line and opens one for the new source.
pub open spec fn adjacency_prefix(edges: Seq<Edge>) -> Seq<char>
    decreases edges.len(),
{
    if edges.len() == 0 {
        Seq::empty()
    } else if edges.len() == 1 {
        entry(edges[0][0]) + entry(edges[0][1])
    } else {
        let last = edges.last();
        let before = edges[edges.len() - 2];
        adjacency_prefix(edges.drop_last()) + (if last[0] != before[0] {
            "-1\n"@ + entry(last[0])
        } else {
            Seq::empty()
        }) + entry(last[1])
    }
}

/// The adjacency lines of `edges`, one per run of edges that share a source:
/// `<source+1> <dst1+1> <dst2+1> ... -1`. No edges give no lines.
pub open spec fn adjacency_text(edges: Seq<Edge>) -> Seq<char> {
    if edges.len() == 0 {
        Seq::empty()
    } else {
        adjacency_prefix(edges) + "-1\n"@
    }
}

/// The edge data stage of a problem file.
pub struct EdgeData(String);

impl View for EdgeData {
    type V = Seq<char>;

    /// The text written so far.
    closed spec fn view(&self) -> Seq<char> {
        self.0@
    }
}

impl EdgeData {
    pub(crate) fn new(w: String) -> (r: Self)
        ensures
            r@ == w@,
    {
        EdgeData(w)
    }

    /// Writes the section marker.
    pub fn begin_adjacency(self) -> (r: Self)
        ensures
            r@ == self@ + "EDGE_DATA_SECTION\n"@,
    {
        let mut w = self.0;
        w.append("EDGE_DATA_SECTION\n");
        EdgeData(w)
    }

    /// Opens the adjacency line of `source`.
    pub fn begin_adjacency_edge(self, source: Node) -> (r: Self)
        ensures
            r@ == self@ + entry(source),
    {
        let mut w = self.0;
        push_decimal(&mut w, source as u64 + 1);
        w.append(" ");
        EdgeData(w)
    }

    /// Adds `destination` to the open adjacency line.
    pub fn write_adjacency_entry(self, destination: Node) -> (r: Self)
        ensures
            r@ == self@ + entry(destination),
    {
        let mut w = self.0;
        push_decimal(&mut w, destination as u64 + 1);
        w.append(" ");
        EdgeData(w)
    }

    fn end_adjacency_edge(self) -> (r: Self)
        ensures
            r@ == self@ + "-1\n"@,
    {
        let mut w = self.0;
        end_seq(&mut w);
        EdgeData(w)
    }

    /// Writes the adjacency lines of `node_edges`. The edges that share a
    /// source are expected to be contiguous; a source that comes back after
    /// another gets a second line.
    pub fn write_adjacency_edges(self, node_edges: &[Edge]) -> (r: Self)
        ensures
            r@ == self@ + adjacency_text(node_edges@),
    {
        let n = node_edges.len();
        if n == 0 {
            assert(self@ =~= self@ + adjacency_text(node_edges@));
            return self;
        }
        let first = node_edges[0];
        let mut s = self.begin_adjacency_edge(first[0]).write_adjacency_entry(first[1]);
        let mut current = first[0];
        assert(node_edges@.take(1) == seq![first]);
        for i in 1..n
            invariant
                n == node_edges@.len(),
                1 <= i <= n,
                current == node_edges@[i - 1][0],
                s@ == self@ + adjacency_prefix(node_edges@.take(i as int)),
        {
            let e = node_edges[i];
            let ghost taken = node_edges@.take(i as int + 1);
            assert(taken.drop_last() == node_edges@.take(i as int));
            assert(taken.last() == e);
            assert(taken[i - 1] == node_edges@[i - 1]);
            if e[0] != current {
                s = s.end_adjacency_edge().begin_adjacency_edge(e[0]);
            }
            current = e[0];
            s = s.write_adjacency_entry(e[1]);
        }
        assert(node_edges@.take(n as int) == node_edges@);
        s.end_adjacency_edge()
    }

    /// Ends the edge data; the fixed edges come next.
    pub fn fixed_edges(self) -> (r: FixedEdges)
        ensures
            r@ == self@,
    {
        FixedEdges::new(self.0)
    }

    /// The text written so far.
    pub fn finish(self) -> (r: String)
        ensures
            r@ == self@,
    {
        self.0
    }
}

} // verus!
