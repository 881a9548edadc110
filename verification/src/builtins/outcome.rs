//! What evaluation yields, as contracts speak of it.

use vstd::prelude::*;
use vstd::string::StringExecFns;
use crate::builtins::structure::pyexception::{PyException, PyExceptionView};
use crate::builtins::structure::pyobject::{PyObject, PyObjectView};
use crate::pyarena::{PyArena, State};

verus! {

/// What a computation that does not touch the state yields: a value, or the
/// exception raised.
pub type Answer = Result<PyObjectView, PyExceptionView>;

/// What a computation yields: its result, and the state it leaves.
pub struct Outcome<T> {
    pub result: Result<T, PyExceptionView>,
    pub state: State,
}

/// The outcome that raises `error` and leaves `state`.
pub open spec fn fails<T>(error: PyExceptionView, state: State) -> Option<Outcome<T>> {
    Some(Outcome { result: Err(error), state })
}

/// The outcome that yields `value` and leaves `state`.
pub open spec fn yields<T>(value: T, state: State) -> Option<Outcome<T>> {
    Some(Outcome { result: Ok(value), state })
}

/// The outcome of a computation that does not touch the state.
pub open spec fn lifted<T>(answer: Option<Result<T, PyExceptionView>>, state: State) -> Option<Outcome<T>> {
    match answer {
        Some(result) => Some(Outcome { result, state }),
        None => None,
    }
}

/// Whether the result `r` is the expected one. Nothing is expected where
/// a float was to be computed without a floating-point unit.
pub open spec fn answers<T: View>(expected: Option<Result<T::V, PyExceptionView>>, r: Result<T, PyException>) -> bool {
    match expected {
        Some(Ok(value)) => r matches Ok(v) && v@ == value,
        Some(Err(error)) => r matches Err(e) && e@ == error,
        None => true,
    }
}

/// Whether the result `r` and the state `state` are the expected ones.
/// Nothing is expected where a float was to be computed without a
/// floating-point unit.
pub open spec fn agrees<T: View>(expected: Option<Outcome<T::V>>, r: Result<T, PyException>, state: State) -> bool {
    match expected {
        Some(outcome) => state == outcome.state && answers(Some(outcome.result), r),
        None => true,
    }
}

/// Whether a step of the runtime that took the arena from `before` to
/// `after` and returned `r` did what was expected of it: the arena is still
/// well formed and holds the same classes and exception kinds, and result
/// and state are the expected ones.
pub open spec fn carried_out<T: View>(
    before: &PyArena,
    after: &PyArena,
    expected: Option<Outcome<T::V>>,
    r: Result<T, PyException>,
) -> bool {
    &&& after.wf()
    &&& after.same_world(before)
    &&& agrees(expected, r, after@)
}

/// Whether the result `r` and the state `state` are the expected ones,
/// the result taken by `view`.
pub open spec fn agrees_by<T, V>(
    expected: Option<Outcome<V>>,
    r: Result<T, PyException>,
    state: State,
    view: spec_fn(T) -> V,
) -> bool {
    match expected {
        Some(outcome) => state == outcome.state && match outcome.result {
            Ok(value) => r matches Ok(v) && view(v) == value,
            Err(error) => r matches Err(e) && e@ == error,
        },
        None => true,
    }
}

/// Whether a step of the runtime that took the arena from `before` to
/// `after` and returned `r` did what was expected of it, the result taken
/// by `view`.
pub open spec fn carried_out_by<T, V>(
    before: &PyArena,
    after: &PyArena,
    expected: Option<Outcome<V>>,
    r: Result<T, PyException>,
    view: spec_fn(T) -> V,
) -> bool {
    &&& after.wf()
    &&& after.same_world(before)
    &&& agrees_by(expected, r, after@, view)
}

/// What a block hands to the statement around it, as contracts speak of
/// it.
pub open spec fn flow_view(flow: Option<PyObject>) -> Option<PyObjectView> {
    match flow {
        Some(value) => Some(value@),
        None => None,
    }
}

/// The values as contracts speak of them.
pub open spec fn views(values: Seq<PyObject>) -> Seq<PyObjectView> {
    values.map_values(|value: PyObject| value@)
}

/// The text made of the three parts.
pub fn join3(a: &str, b: &str, c: &str) -> (r: String)
    ensures
        r@ == a@ + b@ + c@,
{
    let mut text = String::from_str(a);
    text.append(b);
    text.append(c);
    text
}

/// The text made of the five parts.
pub fn join5(a: &str, b: &str, c: &str, d: &str, e: &str) -> (r: String)
    ensures
        r@ == a@ + b@ + c@ + d@ + e@,
{
    let mut text = String::from_str(a);
    text.append(b);
    text.append(c);
    text.append(d);
    text.append(e);
    text
}

} // verus!
