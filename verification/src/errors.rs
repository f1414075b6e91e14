//! Sample error types covering the two capability classes.
//!
//! [`CodeError`] supports only the base conversion capability and declares
//! so by [`UntracedMarker`], so failures converted into it take the base
//! rule.  [`TrailError`] and [`MarkedText`]
//! additionally declare [`TracedMarker`], so failures converted into them
//! take the tracing rule: [`TrailError`] records each propagation point's
//! location, while [`MarkedText`] appends a marker character per hop, as a
//! tracing hook that ignores the location it is handed.

use crate::location::Location;
use crate::tracing_result::{FromError, Traced, TracedMarker, UntracedMarker};
use vstd::prelude::*;

verus! {

/// An error holding a bare numeric code, declaring only the base
/// conversion capability: propagating into `CodeError` converts and
/// records nothing.
#[derive(Clone, Copy, PartialEq, Eq, Structural, Debug)]
pub struct CodeError {
    /// The numeric code carried over from the source error.
    pub code: u64,
}

impl View for CodeError {
    type V = CodeError;

    open spec fn view(&self) -> CodeError {
        *self
    }
}

impl FromError<u64> for CodeError {
    open spec fn from_error_view(e: u64) -> CodeError {
        CodeError { code: e }
    }

    fn from_error(e: u64) -> (r: Self) {
        CodeError { code: e }
    }
}

impl UntracedMarker for CodeError {

}

/// The mathematical content of a [`TrailError`]: its code and the sequence
/// of locations recorded so far, innermost propagation point first.
pub struct TrailSnapshot {
    /// The numeric code carried over from the source error.
    pub code: u64,
    /// Every location recorded on the error, in propagation order.
    pub trail: Seq<Location>,
}

/// An error that declares the tracing capability and keeps the full record:
/// each propagation into it appends that boundary's location to `trail`.
#[derive(Debug)]
pub struct TrailError {
    /// The numeric code carried over from the source error.
    pub code: u64,
    /// The locations of the tracing boundaries crossed so far, in order.
    pub trail: Vec<Location>,
}

impl View for TrailError {
    type V = TrailSnapshot;

    open spec fn view(&self) -> TrailSnapshot {
        TrailSnapshot { code: self.code, trail: self.trail@ }
    }
}

impl FromError<u64> for TrailError {
    open spec fn from_error_view(e: u64) -> TrailSnapshot {
        TrailSnapshot { code: e, trail: Seq::empty() }
    }

    fn from_error(e: u64) -> (r: Self) {
        TrailError { code: e, trail: Vec::new() }
    }
}

impl Traced for TrailError {
    open spec fn trace_view(pre: TrailSnapshot, location: Location) -> TrailSnapshot {
        TrailSnapshot { code: pre.code, trail: pre.trail.push(location) }
    }

    fn trace(&mut self, location: Location) {
        self.trail.push(location);
    }
}

impl TracedMarker for TrailError {

}

/// A text-wrapping error whose tracing hook appends one `'!'` marker per
/// propagation and ignores the location it is handed.
#[derive(Debug)]
pub struct MarkedText {
    /// The wrapped text, followed by one marker per tracing boundary crossed.
    pub text: Vec<char>,
}

impl View for MarkedText {
    type V = Seq<char>;

    open spec fn view(&self) -> Seq<char> {
        self.text@
    }
}

impl FromError<Vec<char>> for MarkedText {
    open spec fn from_error_view(e: Seq<char>) -> Seq<char> {
        e
    }

    fn from_error(e: Vec<char>) -> (r: Self) {
        MarkedText { text: e }
    }
}

impl Traced for MarkedText {
    open spec fn trace_view(pre: Seq<char>, location: Location) -> Seq<char> {
        pre.push('!')
    }

    fn trace(&mut self, _location: Location) {
        self.text.push('!');
    }
}

impl TracedMarker for MarkedText {

}

} // verus!
