//! The fixed edges stage: edges that the returned tour must hold.
use vstd::prelude::*;
use vstd::string::StringExecFns;

use crate::text::{decimal, push_decimal};
use crate::Edge;

verus! {

/// One line per edge, `<a> <b> `: the nodes are written as given, with no
/// shift to the one-based numbering of the other sections.
pub open spec fn fixed_edges_text(edges: Seq<Edge>) -> Seq<char>
    decreases edges.len(),
{
    if edges.len() == 0 {
        Seq::empty()
    } else {
        let last = edges.last();
        fixed_edges_text(edges.drop_last()) + decimal(last[0] as nat) + " "@ + decimal(
            last[1] as nat,
        ) + " "@ + "\n"@
    }
}

/// The fixed edges stage of a problem file.
pub struct FixedEdges(String);

impl View for FixedEdges {
    type V = Seq<char>;

    /// The text written so far.
    closed spec fn view(&self) -> Seq<char> {
        self.0@
    }
}

impl FixedEdges {
    pub(crate) fn new(w: String) -> (r: Self)
        ensures
            r@ == w@,
    {
        FixedEdges(w)
    }

    /// Writes the section marker.
    pub fn begin_fixed_edges(self) -> (r: Self)
        ensures
            r@ == self@ + "FIXED_EDGES_SECTION\n"@,
    {
        let mut w = self.0;
        w.append("FIXED_EDGES_SECTION\n");
        FixedEdges(w)
    }

    /// Writes one line per edge, with its nodes as given.
    pub fn write_fixed_edges(self, edges: &[Edge]) -> (r: Self)
        ensures
            r@ == self@ + fixed_edges_text(edges@),
    {
        let n = edges.len();
        let mut w = self.0;
        for i in 0..n
            invariant
                n == edges@.len(),
                w@ == self@ + fixed_edges_text(edges@.take(i as int)),
        {
            assert(edges@.take(i as int + 1).drop_last() == edges@.take(i as int));
            let e = edges[i];
            push_decimal(&mut w, e[0] as u64);
            w.append(" ");
            push_decimal(&mut w, e[1] as u64);
            w.append(" ");
            w.append("\n");
        }
        assert(edges@.take(n as int) == edges@);
        FixedEdges(w)
    }

    /// The text written so far.
    pub fn finish(self) -> (r: String)
        ensures
            r@ == self@,
    {
        self.0
    }
}

} // verus!
