//! Rendering of a recoverable error and its causal chain into the
//! lines that the logging sink emits.

use vstd::prelude::*;

verus! {

/// One recoverable error of a run: the contextual message, followed by
/// the chain of underlying causes, outermost first.
pub struct CleanError {
    pub message: String,
    pub causes: Vec<String>,
}

/// Renders one error report: the contextual message first, then one
/// line per underlying cause in order, then a blank separator line.
/// The caller hands each line to the logging sink unaltered.
pub fn print_err(err: &CleanError) -> (lines: Vec<String>)
    ensures
        lines@.len() == err.causes@.len() + 2,
        lines@[0]@ == "Error: "@ + err.message@,
        forall|k: int|
            0 <= k < err.causes@.len() ==> lines@[k + 1]@ == "  Cause: "@
                + (#[trigger] err.causes@[k])@,
        lines@[lines@.len() - 1]@ == ""@,
{
    let mut lines: Vec<String> = Vec::new();
    lines.push(String::from_str("Error: ").concat(err.message.as_str()));
    let mut i: usize = 0;
    while i < err.causes.len()
        invariant
            i <= err.causes@.len(),
            lines@.len() == i + 1,
            lines@[0]@ == "Error: "@ + err.message@,
            forall|k: int|
                0 <= k < i ==> lines@[k + 1]@ == "  Cause: "@ + (#[trigger] err.causes@[k])@,
        decreases err.causes@.len() - i,
    {
        lines.push(String::from_str("  Cause: ").concat(err.causes[i].as_str()));
        i = i + 1;
    }
    lines.push(String::from_str(""));
    lines
}

} // verus!
