//! The problem file encoder. Its stages come in file order (header,
//! coordinates, edge data, fixed edges), and each offers only the operations
//! of its section, so the order of the sections cannot be broken.
use vstd::prelude::*;

pub mod coordinates;
pub mod edges;
pub mod fixed_edges;
pub mod header;

use crate::problem::header::Header;

verus! {

/// The start of a problem file, written after what `w` already holds.
pub struct Problem(String);

impl View for Problem {
    type V = Seq<char>;

    /// The text written so far.
    closed spec fn view(&self) -> Seq<char> {
        self.0@
    }
}

impl Problem {
    /// Starts a problem file after the text of `w`.
    pub fn with(w: String) -> (r: Self)
        ensures
            r@ == w@,
    {
        Problem(w)
    }

    /// Opens the header.
    pub fn header(self) -> (r: Header)
        ensures
            r@ == self@,
    {
        Header::new(self.0)
    }
}

} // verus!
