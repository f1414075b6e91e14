use trial_and_error::boundary::{
    convert_boundary, retracing_boundary, sequence_boundaries, three_tracing_hops,
    tracing_boundary,
};
use trial_and_error::errors::{CodeError, MarkedText, TrailError};
use trial_and_error::{ControlSignal, Location, Residual, Result};

#[test]
fn location_new_fields() {
    let l = Location::new(1, 2, 3);
    assert_eq!(l, Location { file: 1, line: 2, col: 3 });
}

#[test]
fn from_output_wraps_the_value() {
    let r: Result<u64, CodeError> = Result::from_output(3);
    assert!(matches!(r, Result::Success(3)));
}

#[test]
fn branch_continues_on_success() {
    let r: Result<u64, u64> = Result::Success(11);
    match r.branch() {
        ControlSignal::Continue(v) => assert_eq!(v, 11),
        ControlSignal::Break(_) => panic!("a success must continue"),
    }
}

#[test]
fn branch_breaks_on_failure() {
    let r: Result<u64, u64> = Result::Failure(7);
    match r.branch() {
        ControlSignal::Continue(_) => panic!("a failure must break"),
        ControlSignal::Break(Residual::Failure(e)) => assert_eq!(e, 7),
    }
}

#[test]
fn base_rule_converts_without_recording() {
    let r = convert_boundary(Result::Failure(7));
    match r {
        Result::Failure(f) => assert_eq!(f, CodeError { code: 7 }),
        Result::Success(_) => panic!("a failure must stay a failure"),
    }
}

#[test]
fn base_rule_success_passes_through() {
    let r = convert_boundary(Result::Success(5));
    assert!(matches!(r, Result::Success(5)));
}

#[test]
fn tracing_records_one_location() {
    let at = Location { file: 4, line: 40, col: 8 };
    let r = tracing_boundary(Result::Failure(7), at);
    match r {
        Result::Failure(f) => {
            assert_eq!(f.code, 7);
            assert_eq!(f.trail, vec![at]);
        }
        Result::Success(_) => panic!("a failure must stay a failure"),
    }
}

#[test]
fn three_hops_accumulate_in_order() {
    let l1 = Location { file: 1, line: 10, col: 2 };
    let l2 = Location { file: 1, line: 20, col: 4 };
    let l3 = Location { file: 2, line: 30, col: 6 };
    let r = three_tracing_hops(Result::Failure(9), l1, l2, l3);
    match r {
        Result::Failure(f) => {
            assert_eq!(f.code, 9);
            assert_eq!(f.trail, vec![l1, l2, l3]);
        }
        Result::Success(_) => panic!("a failure must stay a failure"),
    }
}

#[test]
fn success_crosses_three_hops_untouched() {
    let l1 = Location { file: 1, line: 10, col: 2 };
    let l2 = Location { file: 1, line: 20, col: 4 };
    let l3 = Location { file: 2, line: 30, col: 6 };
    let r = three_tracing_hops(Result::Success(4), l1, l2, l3);
    assert!(matches!(r, Result::Success(4)));
}

#[test]
fn marker_type_takes_the_tracing_rule() {
    // TrailError supports both plain conversion from u64 and the tracing
    // capability; absorbing a residual into it must run the trace hook.
    let at = Location { file: 3, line: 33, col: 1 };
    let r: Result<u64, TrailError> = Result::from_residual_traced(Residual::Failure(6u64), at);
    match r {
        Result::Failure(f) => {
            assert_eq!(f.code, 6);
            assert_eq!(f.trail, vec![at]);
        }
        Result::Success(_) => panic!("a failure must stay a failure"),
    }
}

#[test]
fn first_failure_short_circuits_the_second() {
    let l1 = Location { file: 1, line: 1, col: 1 };
    let l2 = Location { file: 2, line: 2, col: 2 };
    let with_failing_second =
        sequence_boundaries(Result::Failure(3), Result::Failure(8), l1, l2);
    let with_succeeding_second =
        sequence_boundaries(Result::Failure(3), Result::Success(2), l1, l2);
    for r in [with_failing_second, with_succeeding_second] {
        match r {
            Result::Failure(f) => {
                assert_eq!(f.code, 3);
                assert_eq!(f.trail, vec![l1]);
            }
            Result::Success(_) => panic!("the first failure must win"),
        }
    }
}

#[test]
fn second_failure_reached_only_after_first_success() {
    let l1 = Location { file: 1, line: 1, col: 1 };
    let l2 = Location { file: 2, line: 2, col: 2 };
    let r = sequence_boundaries(Result::Success(1), Result::Failure(8), l1, l2);
    match r {
        Result::Failure(f) => {
            assert_eq!(f.code, 8);
            assert_eq!(f.trail, vec![l2]);
        }
        Result::Success(_) => panic!("the second failure must propagate"),
    }
}

#[test]
fn sequence_of_successes_yields_the_last_value() {
    let l1 = Location { file: 1, line: 1, col: 1 };
    let l2 = Location { file: 2, line: 2, col: 2 };
    let r = sequence_boundaries(Result::Success(1), Result::Success(2), l1, l2);
    assert!(matches!(r, Result::Success(2)));
}

#[test]
fn retracing_keeps_earlier_records() {
    let l1 = Location { file: 1, line: 10, col: 2 };
    let l2 = Location { file: 1, line: 20, col: 4 };
    let once = tracing_boundary(Result::Failure(5), l1);
    let twice = retracing_boundary(once, l2);
    match twice {
        Result::Failure(f) => {
            assert_eq!(f.code, 5);
            assert_eq!(f.trail, vec![l1, l2]);
        }
        Result::Success(_) => panic!("a failure must stay a failure"),
    }
}

fn marked_inner(at: Location) -> Result<(), MarkedText> {
    let raw: Result<(), Vec<char>> = Result::Failure(vec!['E', 'r', 'r', 'o', 'r']);
    match raw.branch() {
        ControlSignal::Continue(v) => Result::from_output(v),
        ControlSignal::Break(res) => Result::from_residual_traced(res, at),
    }
}

fn marked_outer(inner_at: Location, outer_at: Location) -> Result<(), MarkedText> {
    match marked_inner(inner_at).branch() {
        ControlSignal::Continue(v) => Result::from_output(v),
        ControlSignal::Break(res) => Result::from_residual_traced(res, outer_at),
    }
}

#[test]
fn marked_text_gains_one_marker_per_hop() {
    let l1 = Location { file: 1, line: 1, col: 1 };
    let l2 = Location { file: 2, line: 2, col: 2 };
    let r = marked_outer(l1, l2);
    match r {
        Result::Failure(f) => {
            let expected: Vec<char> = vec!['E', 'r', 'r', 'o', 'r', '!', '!'];
            assert_eq!(f.text, expected);
        }
        Result::Success(_) => panic!("a failure must stay a failure"),
    }
}
