//! The header stage: `KEY: value` lines describing the problem.
use vstd::prelude::*;

use crate::problem::coordinates::Coordinates;
use crate::text::{decimal, field_line, push_field, push_number_field};

verus! {

/// The kind of problem a file describes.
#[derive(Debug, Clone, Copy, PartialEq, Eq)]
#[allow(non_camel_case_types)]
#[non_exhaustive]
pub enum ProblemKind {
    /// Data for a symmetric traveling salesman problem
    TSP,
    /// Data for an asymmetric traveling salesman problem
    ATSP,
    /// Data for a sequential ordering problem
    SOP,
    /// Hamiltonian cycle problem data
    HCP,
    /// Capacitated vehicle routing problem data
    CVRP,
    /// A collection of tours
    TOUR,
}

impl ProblemKind {
    /// The keyword that names this value in a problem file.
    pub open spec fn spec_keyword(self) -> Seq<char> {
        match self {
            ProblemKind::TSP => "TSP"@,
            ProblemKind::ATSP => "ATSP"@,
            ProblemKind::SOP => "SOP"@,
            ProblemKind::HCP => "HCP"@,
            ProblemKind::CVRP => "CVRP"@,
            ProblemKind::TOUR => "TOUR"@,
        }
    }

    /// The keyword that names this value in a problem file.
    pub fn keyword(&self) -> (r: &'static str)
        ensures
            r@ == self.spec_keyword(),
    {
        match self {
            ProblemKind::TSP => "TSP",
            ProblemKind::ATSP => "ATSP",
            ProblemKind::SOP => "SOP",
            ProblemKind::HCP => "HCP",
            ProblemKind::CVRP => "CVRP",
            ProblemKind::TOUR => "TOUR",
        }
    }
}

/// Specifies how the edge weights (or distances) are given.
#[derive(Debug, Clone, Copy, PartialEq, Eq)]
#[allow(non_camel_case_types)]
#[non_exhaustive]
pub enum EdgeWeightKind {
    /// Weights are listed explicitly in the corresponding section
    EXPLICIT,
    /// Weights are Euclidean distances in 2-D
    EUC_2D,
    /// Weights are Euclidean distances in 3-D
    EUC_3D,
    /// Weights are maximum distances in 2-D
    MAX_2D,
    /// Weights are maximum distances in 3-D
    MAX_3D,
    /// Weights are Manhattan distances in 2-D
    MAN_2D,
    /// Weights are Manhattan distances in 3-D
    MAN_3D,
    /// Weights are Euclidean distances in 2-D rounded up
    CEIL,
    /// Weights are geographical distances
    GEO,
    /// Special distance function for problems att48 and att532
    ATT,
    /// Special distance function for crystallography problems (version 1)
    XRAY1,
    /// Special distance function for crystallography problems (version 2)
    XRAY2,
    /// There is a special distance function documented elsewhere
    SPECIAL,
}

impl EdgeWeightKind {
    /// The keyword that names this value in a problem file.
    pub open spec fn spec_keyword(self) -> Seq<char> {
        match self {
            EdgeWeightKind::EXPLICIT => "EXPLICIT"@,
            EdgeWeightKind::EUC_2D => "EUC_2D"@,
            EdgeWeightKind::EUC_3D => "EUC_3D"@,
            EdgeWeightKind::MAX_2D => "MAX_2D"@,
            EdgeWeightKind::MAX_3D => "MAX_3D"@,
            EdgeWeightKind::MAN_2D => "MAN_2D"@,
            EdgeWeightKind::MAN_3D => "MAN_3D"@,
            EdgeWeightKind::CEIL => "CEIL"@,
            EdgeWeightKind::GEO => "GEO"@,
            EdgeWeightKind::ATT => "ATT"@,
            EdgeWeightKind::XRAY1 => "XRAY1"@,
            EdgeWeightKind::XRAY2 => "XRAY2"@,
            EdgeWeightKind::SPECIAL => "SPECIAL"@,
        }
    }

    /// The keyword that names this value in a problem file.
    pub fn keyword(&self) -> (r: &'static str)
        ensures
            r@ == self.spec_keyword(),
    {
        match self {
            EdgeWeightKind::EXPLICIT => "EXPLICIT",
            EdgeWeightKind::EUC_2D => "EUC_2D",
            EdgeWeightKind::EUC_3D => "EUC_3D",
            EdgeWeightKind::MAX_2D => "MAX_2D",
            EdgeWeightKind::MAX_3D => "MAX_3D",
            EdgeWeightKind::MAN_2D => "MAN_2D",
            EdgeWeightKind::MAN_3D => "MAN_3D",
            EdgeWeightKind::CEIL => "CEIL",
            EdgeWeightKind::GEO => "GEO",
            EdgeWeightKind::ATT => "ATT",
            EdgeWeightKind::XRAY1 => "XRAY1",
            EdgeWeightKind::XRAY2 => "XRAY2",
            EdgeWeightKind::SPECIAL => "SPECIAL",
        }
    }
}

/// How explicit edge weights are laid out.
#[derive(Debug, Clone, Copy, PartialEq, Eq)]
#[allow(non_camel_case_types)]
#[non_exhaustive]
pub enum EdgeWeightFormat {
    /// Weights are given by a function
    FUNCTION,
    /// Weights are given by a full matrix
    FULL_MATRIX,
    /// Upper triangular matrix (row-wise without diagonal entries)
    UPPER_ROW,
    /// Lower triangular matrix (row-wise without diagonal entries)
    LOWER_ROW,
    /// Upper triangular matrix (row-wise including diagonal entries)
    UPPER_DIAG_ROW,
    /// Lower triangular matrix (row-wise including diagonal entries)
    LOWER_DIAG_ROW,
    /// Upper triangular matrix (column-wise without diagonal entries)
    UPPER_COL,
    /// Lower triangular matrix (column-wise without diagonal entries)
    LOWER_COL,
    /// Upper triangular matrix (column-wise including diagonal entries)
    UPPER_DIAG_COL,
    /// Lower triangular matrix (column-wise including diagonal entries)
    LOWER_DIAG_COL,
}

impl EdgeWeightFormat {
    /// The keyword that names this value in a problem file.
    pub open spec fn spec_keyword(self) -> Seq<char> {
        match self {
            EdgeWeightFormat::FUNCTION => "FUNCTION"@,
            EdgeWeightFormat::FULL_MATRIX => "FULL_MATRIX"@,
            EdgeWeightFormat::UPPER_ROW => "UPPER_ROW"@,
            EdgeWeightFormat::LOWER_ROW => "LOWER_ROW"@,
            EdgeWeightFormat::UPPER_DIAG_ROW => "UPPER_DIAG_ROW"@,
            EdgeWeightFormat::LOWER_DIAG_ROW => "LOWER_DIAG_ROW"@,
            EdgeWeightFormat::UPPER_COL => "UPPER_COL"@,
            EdgeWeightFormat::LOWER_COL => "LOWER_COL"@,
            EdgeWeightFormat::UPPER_DIAG_COL => "UPPER_DIAG_COL"@,
            EdgeWeightFormat::LOWER_DIAG_COL => "LOWER_DIAG_COL"@,
        }
    }

    /// The keyword that names this value in a problem file.
    pub fn keyword(&self) -> (r: &'static str)
        ensures
            r@ == self.spec_keyword(),
    {
        match self {
            EdgeWeightFormat::FUNCTION => "FUNCTION",
            EdgeWeightFormat::FULL_MATRIX => "FULL_MATRIX",
            EdgeWeightFormat::UPPER_ROW => "UPPER_ROW",
            EdgeWeightFormat::LOWER_ROW => "LOWER_ROW",
            EdgeWeightFormat::UPPER_DIAG_ROW => "UPPER_DIAG_ROW",
            EdgeWeightFormat::LOWER_DIAG_ROW => "LOWER_DIAG_ROW",
            EdgeWeightFormat::UPPER_COL => "UPPER_COL",
            EdgeWeightFormat::LOWER_COL => "LOWER_COL",
            EdgeWeightFormat::UPPER_DIAG_COL => "UPPER_DIAG_COL",
            EdgeWeightFormat::LOWER_DIAG_COL => "LOWER_DIAG_COL",
        }
    }
}

/// How the edge data section gives the graph.
#[derive(Debug, Clone, Copy, PartialEq, Eq)]
#[allow(non_camel_case_types)]
#[non_exhaustive]
pub enum EdgeFormat {
    /// The graph is given by an edge list
    EDGE_LIST,
    /// The graph is given as an adjacency list
    ADJ_LIST,
}

impl EdgeFormat {
    /// The keyword that names this value in a problem file.
    pub open spec fn spec_keyword(self) -> Seq<char> {
        match self {
            EdgeFormat::EDGE_LIST => "EDGE_LIST"@,
            EdgeFormat::ADJ_LIST => "ADJ_LIST"@,
        }
    }

    /// The keyword that names this value in a problem file.
    pub fn keyword(&self) -> (r: &'static str)
        ensures
            r@ == self.spec_keyword(),
    {
        match self {
            EdgeFormat::EDGE_LIST => "EDGE_LIST",
            EdgeFormat::ADJ_LIST => "ADJ_LIST",
        }
    }
}

impl Default for EdgeFormat {
    fn default() -> (r: Self)
        ensures
            r == EdgeFormat::ADJ_LIST,
    {
        EdgeFormat::ADJ_LIST
    }
}

/// How nodes are placed in space.
#[derive(Debug, Clone, Copy, PartialEq, Eq)]
#[allow(non_camel_case_types)]
#[non_exhaustive]
pub enum CoordinateKind {
    /// Nodes are specified by coordinates in 2-D
    TWOD_COORDS,
    /// Nodes are specified by coordinates in 3-D
    THREED_COORDS,
    /// The nodes do not have associated spatial coordinates
    NO_COORDS,
}

impl CoordinateKind {
    /// The keyword that names this value in a problem file.
    pub open spec fn spec_keyword(self) -> Seq<char> {
        match self {
            CoordinateKind::TWOD_COORDS => "TWOD_COORDS"@,
            CoordinateKind::THREED_COORDS => "THREED_COORDS"@,
            CoordinateKind::NO_COORDS => "NO_COORDS"@,
        }
    }

    /// The keyword that names this value in a problem file.
    pub fn keyword(&self) -> (r: &'static str)
        ensures
            r@ == self.spec_keyword(),
    {
        match self {
            CoordinateKind::TWOD_COORDS => "TWOD_COORDS",
            CoordinateKind::THREED_COORDS => "THREED_COORDS",
            CoordinateKind::NO_COORDS => "NO_COORDS",
        }
    }
}

impl Default for CoordinateKind {
    fn default() -> (r: Self)
        ensures
            r == CoordinateKind::NO_COORDS,
    {
        CoordinateKind::NO_COORDS
    }
}

/// How a graphical display of the nodes is obtained.
#[derive(Debug, Clone, Copy, PartialEq, Eq)]
#[allow(non_camel_case_types)]
#[non_exhaustive]
pub enum DisplayDataKind {
    /// Display is generated from the node coordinates
    COORD_DISPLAY,
    /// Explicit coordinates in 2-D are given
    TWOD_DISPLAY,
    /// No graphical display is possible
    NO_DISPLAY,
}

impl DisplayDataKind {
    /// The keyword that names this value in a problem file.
    pub open spec fn spec_keyword(self) -> Seq<char> {
        match self {
            DisplayDataKind::COORD_DISPLAY => "COORD_DISPLAY"@,
            DisplayDataKind::TWOD_DISPLAY => "TWOD_DISPLAY"@,
            DisplayDataKind::NO_DISPLAY => "NO_DISPLAY"@,
        }
    }

    /// The keyword that names this value in a problem file.
    pub fn keyword(&self) -> (r: &'static str)
        ensures
            r@ == self.spec_keyword(),
    {
        match self {
            DisplayDataKind::COORD_DISPLAY => "COORD_DISPLAY",
            DisplayDataKind::TWOD_DISPLAY => "TWOD_DISPLAY",
            DisplayDataKind::NO_DISPLAY => "NO_DISPLAY",
        }
    }
}

impl Default for DisplayDataKind {
    fn default() -> (r: Self)
        ensures
            r == DisplayDataKind::COORD_DISPLAY,
    {
        DisplayDataKind::COORD_DISPLAY
    }
}

/// The header stage of a problem file: each method appends one `KEY: value`
/// line and hands the stage back.
pub struct Header(String);

impl View for Header {
    type V = Seq<char>;

    /// The text written so far.
    closed spec fn view(&self) -> Seq<char> {
        self.0@
    }
}

impl Header {
    pub(crate) fn new(w: String) -> (r: Self)
        ensures
            r@ == w@,
    {
        Header(w)
    }

    /// Identifies the data file.
    pub fn name(self, name: &str) -> (r: Self)
        ensures
            r@ == self@ + field_line("NAME"@, name@),
    {
        let mut w = self.0;
        push_field(&mut w, "NAME", name);
        Header(w)
    }

    /// Specifies the type of the problem.
    pub fn problem_kind(self, kind: ProblemKind) -> (r: Self)
        ensures
            r@ == self@ + field_line("TYPE"@, kind.spec_keyword()),
    {
        let mut w = self.0;
        push_field(&mut w, "TYPE", kind.keyword());
        Header(w)
    }

    /// Additional comments, usually the name of the creator of the instance.
    pub fn comment(self, comment: &str) -> (r: Self)
        ensures
            r@ == self@ + field_line("COMMENT"@, comment@),
    {
        let mut w = self.0;
        push_field(&mut w, "COMMENT", comment);
        Header(w)
    }

    /// The number of nodes (for a routing problem, nodes and depots together).
    pub fn dimension(self, dimension: u32) -> (r: Self)
        ensures
            r@ == self@ + field_line("DIMENSION"@, decimal(dimension as nat)),
    {
        let mut w = self.0;
        push_number_field(&mut w, "DIMENSION", dimension);
        Header(w)
    }

    /// The truck capacity of a vehicle routing problem.
    pub fn capacity(self, capacity: u32) -> (r: Self)
        ensures
            r@ == self@ + field_line("CAPACITY"@, decimal(capacity as nat)),
    {
        let mut w = self.0;
        push_number_field(&mut w, "CAPACITY", capacity);
        Header(w)
    }

    /// Specifies how the edge weights (or distances) are given.
    pub fn edge_weight_kind(self, kind: EdgeWeightKind) -> (r: Self)
        ensures
            r@ == self@ + field_line("EDGE_WEIGHT_TYPE"@, kind.spec_keyword()),
    {
        let mut w = self.0;
        push_field(&mut w, "EDGE_WEIGHT_TYPE", kind.keyword());
        Header(w)
    }

    /// Specifies how explicit edge weights are laid out.
    pub fn edge_weight_format(self, format: EdgeWeightFormat) -> (r: Self)
        ensures
            r@ == self@ + field_line("EDGE_WEIGHT_FORMAT"@, format.spec_keyword()),
    {
        let mut w = self.0;
        push_field(&mut w, "EDGE_WEIGHT_FORMAT", format.keyword());
        Header(w)
    }

    /// Specifies how the edge data section gives the graph.
    pub fn edge_data_format(self, format: EdgeFormat) -> (r: Self)
        ensures
            r@ == self@ + field_line("EDGE_DATA_FORMAT"@, format.spec_keyword()),
    {
        let mut w = self.0;
        push_field(&mut w, "EDGE_DATA_FORMAT", format.keyword());
        Header(w)
    }

    /// Specifies how nodes are placed in space.
    pub fn node_coord_kind(self, kind: CoordinateKind) -> (r: Self)
        ensures
            r@ == self@ + field_line("NODE_COORD_TYPE"@, kind.spec_keyword()),
    {
        let mut w = self.0;
        push_field(&mut w, "NODE_COORD_TYPE", kind.keyword());
        Header(w)
    }

    /// Specifies how a graphical display of the nodes is obtained.
    pub fn display_data_kind(self, kind: DisplayDataKind) -> (r: Self)
        ensures
            r@ == self@ + field_line("DISPLAY_DATA_TYPE"@, kind.spec_keyword()),
    {
        let mut w = self.0;
        push_field(&mut w, "DISPLAY_DATA_TYPE", kind.keyword());
        Header(w)
    }

    /// Ends the header; the node coordinates come next.
    pub fn coords(self) -> (r: Coordinates)
        ensures
            r@ == self@,
    {
        Coordinates::new(self.0)
    }

    /// The text written so far.
    pub fn finish(self) -> (r: String)
        ensures
            r@ == self@,
    {
        self.0
    }
}

} // verus!
