//! A tool path as a problem: each segment gives two nodes, its endpoints
//! (nodes `2k` and `2k + 1` for segment `k`), joined by a fixed edge.
use vstd::prelude::*;

use crate::problem::coordinates::coordinates_text;
use crate::problem::fixed_edges::fixed_edges_text;
use crate::problem::header::{EdgeFormat, EdgeWeightKind, ProblemKind};
use crate::problem::Problem;
use crate::text::{decimal, field_line};
use crate::Edge;

verus! {

/// The number of nodes for `segments` segments, if it fits a `u32`.
pub fn segment_dimension(segments: usize) -> (r: Option<u32>)
    ensures
        r matches Some(d) ==> d == 2 * segments,
        r is None ==> 2 * segments > u32::MAX,
{
    if segments > (u32::MAX / 2) as usize {
        None
    } else {
        Some(2 * segments as u32)
    }
}

/// The fixed edges that join the endpoints of each of `segments` segments:
/// `[2k + 1, 2k + 2]` for segment `k`, numbered from one, as the fixed edges
/// section writes its nodes unchanged.
pub fn segment_edges(segments: u32) -> (r: Vec<Edge>)
    requires
        2 * segments <= u32::MAX,
    ensures
        r@.len() == segments,
        forall|k: int|
            0 <= k < segments ==> (#[trigger] r@[k])[0] == 2 * k + 1 && r@[k][1] == 2 * k + 2,
{
    let mut r: Vec<Edge> = Vec::new();
    let mut k: u32 = 0;
    while k < segments
        invariant
            k <= segments,
            2 * segments <= u32::MAX,
            r@.len() == k,
            forall|j: int| 0 <= j < k ==> (#[trigger] r@[j])[0] == 2 * j + 1 && r@[j][1] == 2 * j + 2,
        decreases segments - k,
    {
        let e: Edge = [2 * k + 1, 2 * k + 2];
        assert(e[0] == 2 * k + 1 && e[1] == 2 * k + 2);
        let ghost before = r@;
        r.push(e);
        assert(r@[k as int] == e);
        assert forall|j: int| 0 <= j < k ==> #[trigger] r@[j] == before[j] by {}
        k = k + 1;
    }
    r
}

/// The fixed edge lines for `n` segments: `2k+1 2k+2 ` for segment `k`.
pub open spec fn segment_edges_text(n: nat) -> Seq<char>
    decreases n,
{
    if n == 0 {
        Seq::empty()
    } else {
        segment_edges_text((n - 1) as nat) + decimal((2 * n - 1) as nat) + " "@ + decimal(2 * n)
            + " "@ + "\n"@
    }
}

proof fn lemma_segment_edges_text(edges: Seq<Edge>)
    requires
        forall|k: int|
            0 <= k < edges.len() ==> (#[trigger] edges[k])[0] == 2 * k + 1 && edges[k][1] == 2
                * k + 2,
    ensures
        fixed_edges_text(edges) == segment_edges_text(edges.len()),
    decreases edges.len(),
{
    if edges.len() > 0 {
        let rest = edges.drop_last();
        assert forall|k: int| 0 <= k < rest.len() implies (#[trigger] rest[k])[0] == 2 * k + 1
            && rest[k][1] == 2 * k + 2 by {
            assert(rest[k] == edges[k]);
        }
        lemma_segment_edges_text(rest);
        let k = edges.len() - 1;
        assert(edges[k][0] == 2 * k + 1 && edges[k][1] == 2 * k + 2);
    }
}

/// The problem text for a tool path of `segments` segments whose endpoints
/// have the coordinates `coordinates`, two per segment.
pub open spec fn toolpath_text(coordinates: Seq<Vec<String>>, segments: nat) -> Seq<char> {
    field_line("TYPE"@, "TSP"@) + field_line("DIMENSION"@, decimal(2 * segments)) + field_line(
        "EDGE_WEIGHT_TYPE"@,
        "EUC_2D"@,
    ) + field_line("EDGE_DATA_FORMAT"@, "ADJ_LIST"@) + "NODE_COORD_SECTION\n"@ + coordinates_text(
        coordinates,
    ) + "FIXED_EDGES_SECTION\n"@ + segment_edges_text(segments)
}

/// Writes the problem for a tool path: a symmetric problem in the plane,
/// one node per endpoint, and a fixed edge across each segment.
pub fn toolpath_problem(coordinates: &[Vec<String>], segments: u32) -> (r: String)
    requires
        2 * segments <= u32::MAX,
    ensures
        r@ == toolpath_text(coordinates@, segments as nat),
{
    let fixed = segment_edges(segments);
    proof {
        lemma_segment_edges_text(fixed@);
    }
    let r = Problem::with(String::new())
        .header()
        .problem_kind(ProblemKind::TSP)
        .dimension(2 * segments)
        .edge_weight_kind(EdgeWeightKind::EUC_2D)
        .edge_data_format(EdgeFormat::ADJ_LIST)
        .coords()
        .begin_node_coordinates()
        .write_coordinates(coordinates)
        .edges()
        .fixed_edges()
        .begin_fixed_edges()
        .write_fixed_edges(fixed.as_slice())
        .finish();
    assert(r@ =~= toolpath_text(coordinates@, segments as nat));
    r
}

} // verus!
