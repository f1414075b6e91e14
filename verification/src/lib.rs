//! Short-circuiting error propagation with capability-selected tracing.
//!
//! The crate provides a two-variant success/failure container, [`Result`],
//! together with a propagation step that converts a failure value into the
//! enclosing context's error type as it crosses a function boundary.  Two
//! conversion rules exist and the target type's declared capabilities select
//! between them: a target that declares [`UntracedMarker`] takes the base
//! rule (plain conversion via [`FromError`], nothing recorded); a target
//! that declares [`TracedMarker`] instead takes the tracing rule, which
//! applies the target's [`Traced::trace`] hook exactly once with the
//! [`Location`] of the propagation point.  A target declares exactly one of
//! the two markers, so the rule is fixed by the type alone and a tracing
//! type can never be absorbed through the base rule.

pub mod boundary;
pub mod errors;
pub mod location;
pub mod tracing_result;

pub use location::Location;
pub use tracing_result::{
    base_rule, tracing_rule, ControlSignal, FromError, Residual, Result, Traced, TracedMarker,
    UntracedMarker,
};
