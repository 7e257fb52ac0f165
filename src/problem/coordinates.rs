//! The coordinates stage: one numbered line per node.
use vstd::prelude::*;
use vstd::string::StringExecFns;

use crate::problem::edges::EdgeData;
use crate::text::{decimal, push_decimal, push_spaced, sequence_line};

verus! {

/// The line for the node labelled `label` (its one-based number): the label,
/// then each component followed by a space, then a newline.
pub open spec fn coordinate_line(label: nat, components: Seq<String>) -> Seq<char> {
    decimal(label) + " "@ + sequence_line(components)
}

/// The lines for `coordinates`, labelled by their position counted from one.
pub open spec fn coordinates_text(coordinates: Seq<Vec<String>>) -> Seq<char>
    decreases coordinates.len(),
{
    if coordinates.len() == 0 {
        Seq::empty()
    } else {
        coordinates_text(coordinates.drop_last()) + coordinate_line(
            coordinates.len(),
            coordinates.last()@,
        )
    }
}

/// The coordinates stage of a problem file. A component is given as the text
/// that the solver reads (scientific notation with ten fractional digits).
pub struct Coordinates(String);

impl View for Coordinates {
    type V = Seq<char>;

    /// The text written so far.
    closed spec fn view(&self) -> Seq<char> {
        self.0@
    }
}

impl Coordinates {
    pub(crate) fn new(w: String) -> (r: Self)
        ensures
            r@ == w@,
    {
        Coordinates(w)
    }

    /// Writes the section marker.
    pub fn begin_node_coordinates(self) -> (r: Self)
        ensures
            r@ == self@ + "NODE_COORD_SECTION\n"@,
    {
        let mut w = self.0;
        w.append("NODE_COORD_SECTION\n");
        Coordinates(w)
    }

    /// Writes the line of the node at zero-based `index`, numbered `index + 1`.
    pub fn write_coordinate(self, index: usize, coordinate: &[String]) -> (r: Self)
        requires
            index < usize::MAX,
        ensures
            r@ == self@ + coordinate_line(index as nat + 1, coordinate@),
    {
        let mut w = self.0;
        push_decimal(&mut w, index as u64 + 1);
        w.append(" ");
        push_spaced(&mut w, coordinate);
        w.append("\n");
        Coordinates(w)
    }

    /// Writes one line per coordinate, numbered by position.
    pub fn write_coordinates(self, coordinates: &[Vec<String>]) -> (r: Self)
        ensures
            r@ == self@ + coordinates_text(coordinates@),
    {
        let n = coordinates.len();
        let mut s = self;
        for i in 0..n
            invariant
                n == coordinates@.len(),
                s@ == self@ + coordinates_text(coordinates@.take(i as int)),
        {
            assert(coordinates@.take(i as int + 1).drop_last() == coordinates@.take(i as int));
            s = s.write_coordinate(i, coordinates[i].as_slice());
        }
        assert(coordinates@.take(n as int) == coordinates@);
        s
    }

    /// Ends the coordinates; the edge data comes next.
    pub fn edges(self) -> (r: EdgeData)
        ensures
            r@ == self@,
    {
        EdgeData::new(self.0)
    }

    /// The text written so far.
    pub fn finish(self) -> (r: String)
        ensures
            r@ == self@,
    {
        self.0
    }
}

} // verus!
