//! Small writers shared by the sections of a problem file.
use vstd::prelude::*;
use vstd::string::StringExecFns;

use crate::text::{push_spaced, sequence_line};

verus! {

/// Writes `sequence`, each item followed by a space, then a newline.
pub fn write_sequence(w: &mut String, sequence: &[String])
    ensures
        final(w)@ == old(w)@ + sequence_line(sequence@),
{
    push_spaced(w, sequence);
    w.append("\n");
}

/// Writes the terminator line `-1`.
pub fn end_seq(w: &mut String)
    ensures
        final(w)@ == old(w)@ + "-1\n"@,
{
    w.append("-1\n");
}

} // verus!
