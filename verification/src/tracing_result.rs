//! The success/failure container and its capability-dispatched propagation.
//!
//! A failure crossing a function boundary is converted into the boundary's
//! declared error type by exactly one of two rules:
//!
//! - the **base rule** ([`Result::from_residual`]): the target supports
//!   construction from the source error ([`FromError`]) and declares, by
//!   [`UntracedMarker`], that it does not trace; the converted value is
//!   returned unchanged — no location is recorded;
//! - the **tracing rule** ([`Result::from_residual_traced`]): the target
//!   instead declares the tracing capability ([`TracedMarker`]), and the
//!   converted value's [`Traced::trace`] hook runs exactly once with the
//!   location of the propagation point.
//!
//! A conversion target declares exactly one of the two markers, and the
//! declared capability alone — never the call site — selects the rule.  The
//! tracing rule takes precedence and cannot be suppressed: a type that
//! declares [`TracedMarker`] does not declare [`UntracedMarker`], so the
//! base absorber refuses it at type-check time and every propagation into
//! the type goes through [`Result::from_residual_traced`].
//! [`lemma_tracing_rule_refines_base`] states how the two rules relate when a
//! type qualifies for both.

use crate::location::Location;
use vstd::prelude::*;

verus! {

/// The base conversion capability: a value of `Self` can be built from an
/// error value of type `E`.  The conversion is pure and total; its meaning
/// is fixed, at the level of views, by `from_error_view`.
///
/// Every type converts from itself (the payload is passed through
/// unchanged), so a failure can be propagated to a boundary that declares
/// the same error type.
pub trait FromError<E: View>: View + Sized {
    /// What the conversion produces, stated over the views of the two types.
    spec fn from_error_view(e: E::V) -> Self::V;

    /// Builds `Self` from the error value `e`.
    fn from_error(e: E) -> (r: Self)
        ensures
            r@ == Self::from_error_view(e@),
    ;
}

impl<E: View> FromError<E> for E {
    open spec fn from_error_view(e: E::V) -> E::V {
        e
    }

    fn from_error(e: E) -> (r: E) {
        e
    }
}

/// The tracing capability: the implementing type can record the call site
/// of a propagation point.  The effect of one recording is fixed, at the
/// level of views, by `trace_view`.
pub trait Traced: View + Sized {
    /// What one application of the hook does to the value's view.
    spec fn trace_view(pre: Self::V, location: Location) -> Self::V;

    /// Records `location` on `self`, mutating it in place.
    fn trace(&mut self, location: Location)
        ensures
            final(self)@ == Self::trace_view(old(self)@, location),
    ;
}

/// Declares that the implementing type takes the base rule whenever a
/// failure is converted into it: the conversion runs and nothing is
/// recorded.
///
/// A conversion target declares exactly one of the two markers —
/// [`UntracedMarker`] or [`TracedMarker`] — and the declared marker alone
/// selects the rule: [`Result::from_residual`] demands this marker, so a
/// type that declares tracing instead cannot be absorbed through the base
/// rule at any call site.
pub trait UntracedMarker {}

/// Declares that the implementing type takes the tracing rule whenever a
/// failure is converted into it.  The marker carries no members of its own;
/// implementing it is the one way a type opts in, and opting in selects the
/// tracing rule for every propagation into the type: the base-rule absorber
/// is gated on [`UntracedMarker`], which a tracing type does not declare,
/// so no call site can suppress the trace.
pub trait TracedMarker: Traced {}

/// The two-variant success/failure container that propagation operates on.
pub enum Result<T, E> {
    /// The success variant, carrying the payload of a completed operation.
    Success(T),
    /// The failure variant, carrying the error payload.
    Failure(E),
}

/// A failure payload in mid-propagation: the failure half of a [`Result`]
/// after [`Result::branch`] has split away the (structurally unreachable)
/// success half.
pub enum Residual<E> {
    /// The propagating error payload.
    Failure(E),
}

impl<E> Residual<E> {
    /// The error payload carried by the residual.
    pub open spec fn error(self) -> E {
        match self {
            Residual::Failure(e) => e,
        }
    }
}

/// What one propagation step tells the enclosing computation: continue with
/// the success payload, or break out carrying the residual failure.
pub enum ControlSignal<B, C> {
    /// Carry on with the unwrapped success payload.
    Continue(C),
    /// Short-circuit: abandon the rest of the computation and hand the
    /// residual to the enclosing fallible context.
    Break(B),
}

/// The base rule, as a value-level function: converting a failure with view
/// `e` into a target `F` yields exactly the converted view — nothing is
/// recorded and nothing else changes.
pub open spec fn base_rule<S: View, F: FromError<S>>(e: S::V) -> F::V {
    F::from_error_view(e)
}

/// The tracing rule, as a value-level function: the same conversion as the
/// base rule, followed by exactly one application of the target's tracing
/// hook with the location of the propagation point.
pub open spec fn tracing_rule<S: View, F: FromError<S> + TracedMarker>(
    e: S::V,
    location: Location,
) -> F::V {
    F::trace_view(F::from_error_view(e), location)
}

/// When a target qualifies for both rules, the rule applied to it — the
/// tracing rule — produces the base rule's result with exactly one trace
/// recorded on top: tracing strictly refines the base conversion, and is
/// never skipped for a type that declares the capability.
pub proof fn lemma_tracing_rule_refines_base<S: View, F: FromError<S> + TracedMarker>(
    e: S::V,
    location: Location,
)
    ensures
        tracing_rule::<S, F>(e, location) == F::trace_view(base_rule::<S, F>(e), location),
{
}

impl<T, E> Result<T, E> {
    /// Wraps a success payload; the failure path is not involved at all.
    pub fn from_output(output: T) -> (r: Self)
        ensures
            r == Result::<T, E>::Success(output),
    {
        Result::Success(output)
    }

    /// The short-circuit step: a success continues with its payload
    /// unchanged, a failure breaks out with its payload recast as a
    /// residual.  No conversion and no tracing happens here; both belong to
    /// the boundary that absorbs the residual.
    pub fn branch(self) -> (r: ControlSignal<Residual<E>, T>)
        ensures
            self matches Result::Success(t) ==> r == ControlSignal::<Residual<E>, T>::Continue(t),
            self matches Result::Failure(e) ==> r == ControlSignal::<Residual<E>, T>::Break(
                Residual::Failure(e),
            ),
    {
        match self {
            Result::Success(t) => ControlSignal::Continue(t),
            Result::Failure(e) => ControlSignal::Break(Residual::Failure(e)),
        }
    }

    /// The base rule: absorbs a residual into a boundary whose error type
    /// supports plain conversion from the source error and declares, by
    /// [`UntracedMarker`], that it does not trace.  The result is the
    /// converted failure, untouched — no location is recorded.
    pub fn from_residual<S: View>(residual: Residual<S>) -> (r: Self) where
        E: FromError<S> + UntracedMarker,
        ensures
            r matches Result::Failure(f) && f@ == base_rule::<S, E>(residual.error()@),
    {
        match residual {
            Residual::Failure(e) => Result::Failure(E::from_error(e)),
        }
    }

    /// The tracing rule: absorbs a residual into a boundary whose error type
    /// declares the tracing capability.  The converted failure's trace hook
    /// runs exactly once, with the location of this propagation point, and
    /// the traced value is returned.
    pub fn from_residual_traced<S: View>(residual: Residual<S>, location: Location) -> (r: Self)
        where E: FromError<S> + TracedMarker
        ensures
            r matches Result::Failure(f) && f@ == tracing_rule::<S, E>(
                residual.error()@,
                location,
            ),
    {
        match residual {
            Residual::Failure(e) => {
                let mut f = E::from_error(e);
                f.trace(location);
                Result::Failure(f)
            },
        }
    }
}

} // verus!
