//! Encoder and decoder for the text files exchanged with an external
//! route-optimisation solver, and a wipe-on-release scratch file to hold them.
use vstd::prelude::*;

pub mod memory_file;
pub mod parameter;
pub mod problem;
pub mod text;
pub mod toolpath;
pub mod tour;
pub mod util;

verus! {

/// A node of the problem, numbered from zero.
pub type Node = u32;

/// An ordered pair of nodes.
pub type Edge = [Node; 2];

} // verus!
