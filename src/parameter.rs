//! The solver's parameter file: `KEY = value` lines.
use vstd::prelude::*;
use vstd::string::StringExecFns;

verus! {

/// Writes the line that names the problem file.
pub fn problem_file(w: &mut String, path: &str)
    ensures
        final(w)@ == old(w)@ + "PROBLEM_FILE = "@ + path@ + "\n"@,
{
    w.append("PROBLEM_FILE = ");
    w.append(path);
    w.append("\n");
}

} // verus!
