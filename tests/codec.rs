use lkh_codec::parameter::problem_file;
use lkh_codec::problem::header::{
    CoordinateKind, DisplayDataKind, EdgeFormat, EdgeWeightFormat, EdgeWeightKind, ProblemKind,
};
use lkh_codec::problem::Problem;
use lkh_codec::toolpath::{segment_dimension, segment_edges, toolpath_problem};
use lkh_codec::util::{end_seq, write_sequence};

fn comps(v: &[&str]) -> Vec<String> {
    v.iter().map(|s| s.to_string()).collect()
}

#[test]
fn adjacency_runs_become_lines() {
    let text = Problem::with(String::new())
        .header()
        .coords()
        .edges()
        .write_adjacency_edges(&[[0, 1], [0, 2], [1, 3]])
        .finish();
    assert_eq!(text, "1 2 3 -1\n2 4 -1\n");
}

#[test]
fn adjacency_section_with_marker() {
    let text = Problem::with(String::new())
        .header()
        .coords()
        .edges()
        .begin_adjacency()
        .write_adjacency_edges(&[[2, 0]])
        .finish();
    assert_eq!(text, "EDGE_DATA_SECTION\n3 1 -1\n");
}

#[test]
fn adjacency_of_no_edges_writes_nothing() {
    let text = Problem::with(String::from("EDGE_DATA_SECTION\n"))
        .header()
        .coords()
        .edges()
        .write_adjacency_edges(&[])
        .finish();
    assert_eq!(text, "EDGE_DATA_SECTION\n");
}

#[test]
fn adjacency_source_that_returns_gets_a_second_line() {
    let text = Problem::with(String::new())
        .header()
        .coords()
        .edges()
        .write_adjacency_edges(&[[0, 1], [1, 0], [0, 2]])
        .finish();
    assert_eq!(text, "1 2 -1\n2 1 -1\n1 3 -1\n");
}

#[test]
fn adjacency_pieces() {
    let text = Problem::with(String::new())
        .header()
        .coords()
        .edges()
        .begin_adjacency_edge(4)
        .write_adjacency_entry(9)
        .finish();
    assert_eq!(text, "5 10 ");
}

#[test]
fn adjacency_largest_node() {
    let text = Problem::with(String::new())
        .header()
        .coords()
        .edges()
        .write_adjacency_edges(&[[u32::MAX, 0]])
        .finish();
    assert_eq!(text, "4294967296 1 -1\n");
}

#[test]
fn header_lines() {
    let text = Problem::with(String::from("X\n"))
        .header()
        .name("test")
        .problem_kind(ProblemKind::TSP)
        .comment("test comment")
        .dimension(10)
        .capacity(0)
        .edge_weight_kind(EdgeWeightKind::EUC_2D)
        .edge_weight_format(EdgeWeightFormat::FULL_MATRIX)
        .edge_data_format(EdgeFormat::ADJ_LIST)
        .node_coord_kind(CoordinateKind::TWOD_COORDS)
        .display_data_kind(DisplayDataKind::NO_DISPLAY)
        .finish();
    assert_eq!(
        text,
        "X\nNAME: test\nTYPE: TSP\nCOMMENT: test comment\nDIMENSION: 10\nCAPACITY: 0\n\
EDGE_WEIGHT_TYPE: EUC_2D\nEDGE_WEIGHT_FORMAT: FULL_MATRIX\nEDGE_DATA_FORMAT: ADJ_LIST\n\
NODE_COORD_TYPE: TWOD_COORDS\nDISPLAY_DATA_TYPE: NO_DISPLAY\n"
    );
}

#[test]
fn header_large_dimension() {
    let text = Problem::with(String::new()).header().dimension(u32::MAX).finish();
    assert_eq!(text, "DIMENSION: 4294967295\n");
}

#[test]
fn keywords_and_defaults() {
    assert_eq!(ProblemKind::CVRP.keyword(), "CVRP");
    assert_eq!(EdgeWeightKind::XRAY2.keyword(), "XRAY2");
    assert_eq!(EdgeWeightFormat::LOWER_DIAG_COL.keyword(), "LOWER_DIAG_COL");
    assert_eq!(EdgeFormat::default(), EdgeFormat::ADJ_LIST);
    assert_eq!(CoordinateKind::default(), CoordinateKind::NO_COORDS);
    assert_eq!(DisplayDataKind::default(), DisplayDataKind::COORD_DISPLAY);
}

#[test]
fn coordinate_lines_are_numbered_from_one() {
    let text = Problem::with(String::new())
        .header()
        .coords()
        .begin_node_coordinates()
        .write_coordinate(0, &comps(&["5.4948000336e2", "2.9362899780e1"]))
        .finish();
    assert_eq!(text, "NODE_COORD_SECTION\n1 5.4948000336e2 2.9362899780e1 \n");
}

#[test]
fn coordinates_by_position() {
    let cs = vec![comps(&["0e0", "1e0"]), comps(&["2e0", "3e0"]), comps(&["4e0", "5e0"])];
    let text = Problem::with(String::new()).header().coords().write_coordinates(&cs).finish();
    assert_eq!(text, "1 0e0 1e0 \n2 2e0 3e0 \n3 4e0 5e0 \n");
}

#[test]
fn fixed_edges_are_not_shifted() {
    let text = Problem::with(String::new())
        .header()
        .coords()
        .edges()
        .fixed_edges()
        .begin_fixed_edges()
        .write_fixed_edges(&[[1, 2], [3, 4]])
        .finish();
    assert_eq!(text, "FIXED_EDGES_SECTION\n1 2 \n3 4 \n");
}

#[test]
fn full_problem_in_order() {
    let text = Problem::with(String::new())
        .header()
        .problem_kind(ProblemKind::TSP)
        .dimension(2)
        .coords()
        .begin_node_coordinates()
        .write_coordinates(&[comps(&["0e0"]), comps(&["1e0"])])
        .edges()
        .begin_adjacency()
        .write_adjacency_edges(&[[0, 1]])
        .fixed_edges()
        .begin_fixed_edges()
        .write_fixed_edges(&[[1, 2]])
        .finish();
    assert_eq!(
        text,
        "TYPE: TSP\nDIMENSION: 2\nNODE_COORD_SECTION\n1 0e0 \n2 1e0 \nEDGE_DATA_SECTION\n1 2 -1\nFIXED_EDGES_SECTION\n1 2 \n"
    );
}

#[test]
fn parameter_problem_file_line() {
    let mut w = String::new();
    problem_file(&mut w, "/tmp/a.tsp");
    assert_eq!(w, "PROBLEM_FILE = /tmp/a.tsp\n");
}

#[test]
fn sequence_and_terminator() {
    let mut w = String::new();
    write_sequence(&mut w, &comps(&["a", "bc"]));
    end_seq(&mut w);
    assert_eq!(w, "a bc \n-1\n");
}

#[test]
fn segments_become_node_pairs() {
    assert_eq!(segment_dimension(3), Some(6));
    assert_eq!(segment_dimension(0), Some(0));
    assert_eq!(segment_dimension(2147483647), Some(4294967294));
    assert_eq!(segment_dimension(2147483648), None);
    assert_eq!(segment_edges(3), vec![[1, 2], [3, 4], [5, 6]]);
    assert!(segment_edges(0).is_empty());
}

#[test]
fn toolpath_problem_text() {
    let cs = vec![comps(&["0e0", "0e0"]), comps(&["1e2", "0e0"])];
    assert_eq!(
        toolpath_problem(&cs, 1),
        "TYPE: TSP\nDIMENSION: 2\nEDGE_WEIGHT_TYPE: EUC_2D\nEDGE_DATA_FORMAT: ADJ_LIST\n\
NODE_COORD_SECTION\n1 0e0 0e0 \n2 1e2 0e0 \nFIXED_EDGES_SECTION\n1 2 \n"
    );
}
