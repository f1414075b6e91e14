//! Call-site locations recorded by the tracing conversion rule.

use vstd::prelude::*;

verus! {

/// A snapshot of a single call site: a file identifier together with the
/// line and column of the propagation point.
///
/// A `Location` is an opaque, copyable value.  The propagation functions
/// never read its fields; they only hand it to [`crate::Traced::trace`].
/// Callers supply it explicitly at each propagation point, since no
/// caller-location intrinsic is available to verified code.
#[derive(Clone, Copy, PartialEq, Eq, Structural, Debug)]
pub struct Location {
    /// Identifier of the source file containing the call site.
    pub file: u64,
    /// Line of the call site within the file.
    pub line: u32,
    /// Column of the call site within the line.
    pub col: u32,
}

impl Location {
    /// Builds the location with the given file identifier, line and column.
    pub fn new(file: u64, line: u32, col: u32) -> (r: Location)
        ensures
            r == (Location { file, line, col }),
    {
        Location { file, line, col }
    }
}

} // verus!
