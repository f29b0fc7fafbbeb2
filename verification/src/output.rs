//! The one place where the harness touches standard output.

use std::io::Write;

use vstd::prelude::*;

verus! {

/// Relies on std::io::stdout and the writeln macro: writes `s` followed by a
/// newline to standard output.  Write errors are ignored: report printing
/// has no recovery path.
#[verifier::external_body]
pub(crate) fn print_line(s: &str) {
    let mut out = std::io::stdout();
    let _ = writeln!(out, "{}", s);
}

} // verus!
