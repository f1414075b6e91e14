//! Worked propagation boundaries over the sample error types.
//!
//! Each function here is one fallible boundary (or a chain of them): it
//! splits its input with [`Result::branch`] and, on failure, absorbs the
//! residual with the conversion rule that the boundary's error type
//! selects.  Their contracts pin down the end-to-end behaviour of
//! propagation: successes pass through untouched, the first failure
//! short-circuits everything after it, and each tracing boundary crossed
//! adds exactly one record, in crossing order.

use crate::errors::{CodeError, TrailError};
use crate::location::Location;
use crate::tracing_result::{base_rule, tracing_rule, ControlSignal, Result, Traced};
use vstd::prelude::*;

verus! {

/// One base-rule boundary: a failure is converted into [`CodeError`] and
/// returned as converted — no location is recorded; a success passes
/// through unchanged, with no conversion at all.
pub fn convert_boundary(input: Result<u64, u64>) -> (r: Result<u64, CodeError>)
    ensures
        input matches Result::Success(v) ==> r == Result::<u64, CodeError>::Success(v),
        input matches Result::Failure(e) ==> r matches Result::Failure(f) && f@ == base_rule::<
            u64,
            CodeError,
        >(e),
{
    match input.branch() {
        ControlSignal::Continue(v) => Result::from_output(v),
        ControlSignal::Break(res) => Result::from_residual(res),
    }
}

/// One tracing boundary: a failure is converted into [`TrailError`] and the
/// boundary's location is recorded on it exactly once; a success passes
/// through unchanged.
pub fn tracing_boundary(input: Result<u64, u64>, at: Location) -> (r: Result<u64, TrailError>)
    ensures
        input matches Result::Success(v) ==> r == Result::<u64, TrailError>::Success(v),
        input matches Result::Failure(e) ==> r matches Result::Failure(f) && f@ == tracing_rule::<
            u64,
            TrailError,
        >(e, at),
{
    match input.branch() {
        ControlSignal::Continue(v) => Result::from_output(v),
        ControlSignal::Break(res) => Result::from_residual_traced(res, at),
    }
}

/// A further tracing boundary for an already-converted failure: the error
/// type converts from itself with the payload passed through unchanged, so
/// the one visible effect of the hop is the single location it records.
pub fn retracing_boundary(input: Result<u64, TrailError>, at: Location) -> (r: Result<
    u64,
    TrailError,
>)
    ensures
        input matches Result::Success(v) ==> r == Result::<u64, TrailError>::Success(v),
        input matches Result::Failure(f) ==> r matches Result::Failure(g) && g@
            == TrailError::trace_view(f@, at),
{
    match input.branch() {
        ControlSignal::Continue(v) => Result::from_output(v),
        ControlSignal::Break(res) => Result::from_residual_traced(res, at),
    }
}

/// Three nested tracing boundaries: a failure crossing all three has its
/// trace hook run three times, innermost boundary first, each run recording
/// that boundary's own location; the code itself is carried through
/// unchanged.  A success crosses all three untouched.
pub fn three_tracing_hops(
    input: Result<u64, u64>,
    first: Location,
    second: Location,
    third: Location,
) -> (r: Result<u64, TrailError>)
    ensures
        input matches Result::Success(v) ==> r == Result::<u64, TrailError>::Success(v),
        input matches Result::Failure(e) ==> r matches Result::Failure(f) && f@.code == e
            && f@.trail =~= seq![first, second, third],
{
    let once = tracing_boundary(input, first);
    let twice = retracing_boundary(once, second);
    retracing_boundary(twice, third)
}

/// Two operations in sequence behind one pair of tracing boundaries: when
/// the first operation fails, the outcome is its failure alone — the second
/// operation's value plays no part in the result, and only the first
/// boundary's location is recorded.  Only when the first operation succeeds
/// does the second decide the outcome.
pub fn sequence_boundaries(
    first: Result<u64, u64>,
    second: Result<u64, u64>,
    first_at: Location,
    second_at: Location,
) -> (r: Result<u64, TrailError>)
    ensures
        first matches Result::Failure(e) ==> r matches Result::Failure(f) && f@
            == tracing_rule::<u64, TrailError>(e, first_at),
        first matches Result::Success(_) ==> (second matches Result::Failure(e)
            ==> r matches Result::Failure(f) && f@ == tracing_rule::<u64, TrailError>(
            e,
            second_at,
        )),
        first matches Result::Success(_) ==> (second matches Result::Success(b) ==> r == Result::<
            u64,
            TrailError,
        >::Success(b)),
{
    let _first_value: u64 = match first.branch() {
        ControlSignal::Continue(v) => v,
        ControlSignal::Break(res) => {
            return Result::from_residual_traced(res, first_at);
        },
    };
    match second.branch() {
        ControlSignal::Continue(v) => Result::from_output(v),
        ControlSignal::Break(res) => Result::from_residual_traced(res, second_at),
    }
}

} // verus!
