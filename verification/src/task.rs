//! Task parameters, task dispatch, and the typed response shapes.
//!
//! The task selector is free-form text matched case-insensitively
//! against two closed alias sets; every other selector is rejected
//! before any further work is planned.

use vstd::prelude::*;
use crate::text::lower_of;
use crate::text::lowercase;
use crate::text::str_eq;

verus! {

/// The user-supplied parameters of one solver invocation.  The
/// interval bounds, tolerance and step size are passed through to the
/// solver verbatim, as text.
#[derive(Debug)]
pub struct TaskParams {
    /// Free-form task selector, matched case-insensitively against
    /// the known aliases.
    pub task: String,
    /// Target function identifier.
    pub func: String,
    /// Lower interval bound, verbatim.
    pub a: String,
    /// Upper interval bound, verbatim.
    pub b: String,
    /// Minimization-method selector.
    pub task1_method: String,
    /// Convergence tolerance, verbatim.
    pub eps: String,
    /// Step size, verbatim.
    pub h: String,
    /// Whether the additional RMSE sweep is requested.
    pub rmse_sweep: bool,
}

/// The two task families the bridge dispatches to.
#[derive(Clone, Copy, Debug)]
pub enum TaskKind {
    /// Function minimization.
    Minimize,
    /// Numerical differentiation.
    Differentiate,
}

/// The selectors that name the minimization task, in lowercase form.
pub open spec fn is_minimize_alias(s: Seq<char>) -> bool {
    s == "minimize"@ || s == "minimization"@ || s == "task1"@ || s == "1"@
}

/// The selectors that name the differentiation task, in lowercase
/// form.
pub open spec fn is_differentiate_alias(s: Seq<char>) -> bool {
    s == "differentiate"@ || s == "differentiation"@ || s == "task2"@ || s == "2"@ || s == "diff"@
        || s == "derivative"@
}

/// The task kind a lowercase selector names, if any.
pub open spec fn spec_normalize(lowered: Seq<char>) -> Option<TaskKind> {
    if is_minimize_alias(lowered) {
        Some(TaskKind::Minimize)
    } else if is_differentiate_alias(lowered) {
        Some(TaskKind::Differentiate)
    } else {
        None
    }
}

/// Every selector in the minimization alias set normalizes to the
/// minimization task, and every selector in the differentiation alias
/// set to the differentiation task; the two sets are disjoint.
pub proof fn lemma_alias_normalization(lowered: Seq<char>)
    ensures
        is_minimize_alias(lowered) ==> spec_normalize(lowered) == Some(TaskKind::Minimize),
        is_differentiate_alias(lowered) ==> spec_normalize(lowered) == Some(
            TaskKind::Differentiate,
        ),
        !is_minimize_alias(lowered) && !is_differentiate_alias(lowered) ==> spec_normalize(
            lowered,
        ) is None,
{
    if is_minimize_alias(lowered) && is_differentiate_alias(lowered) {
        reveal_strlit("minimize");
        reveal_strlit("minimization");
        reveal_strlit("task1");
        reveal_strlit("1");
        reveal_strlit("differentiate");
        reveal_strlit("differentiation");
        reveal_strlit("task2");
        reveal_strlit("2");
        reveal_strlit("diff");
        reveal_strlit("derivative");
        assert("minimize"@.len() == 8);
        assert("minimization"@.len() == 12);
        assert("task1"@.len() == 5);
        assert("1"@.len() == 1);
        assert("differentiate"@.len() == 13);
        assert("differentiation"@.len() == 15);
        assert("task2"@.len() == 5);
        assert("2"@.len() == 1);
        assert("diff"@.len() == 4);
        assert("derivative"@.len() == 10);
        assert("task1"@[4] == '1' && "task2"@[4] == '2');
        assert("1"@[0] == '1' && "2"@[0] == '2');
    }
}

/// Matches an already-lowercased selector against the two alias sets.
pub fn normalize_lowered(lowered: &String) -> (r: Option<TaskKind>)
    ensures
        r == spec_normalize(lowered@),
{
    if str_eq(lowered, "minimize") || str_eq(lowered, "minimization") || str_eq(lowered, "task1")
        || str_eq(lowered, "1") {
        Some(TaskKind::Minimize)
    } else if str_eq(lowered, "differentiate") || str_eq(lowered, "differentiation") || str_eq(
        lowered,
        "task2",
    ) || str_eq(lowered, "2") || str_eq(lowered, "diff") || str_eq(lowered, "derivative") {
        Some(TaskKind::Differentiate)
    } else {
        None
    }
}

/// Normalizes a free-form selector: lowercases it, then matches it
/// against the two alias sets.
pub fn normalize_task(selector: &String) -> (r: Option<TaskKind>)
    ensures
        r == spec_normalize(lower_of(selector@)),
{
    let lowered = lowercase(selector.as_str());
    normalize_lowered(&lowered)
}

/// The minimization results: the sampled curve, the method's sample
/// points, the bracketing intervals, and the scalar minimum pair.
/// Every table cell and the two scalars are validated numeric tokens.
#[derive(Debug)]
pub struct Task1Data {
    /// Sampled function curve rows, two columns each.
    pub func: Vec<Vec<String>>,
    /// Method-specific sample point rows, three columns each.
    pub points: Vec<Vec<String>>,
    /// Bracketing interval rows, four columns each.
    pub intervals: Vec<Vec<String>>,
    /// The minimum's location.
    pub x_min: String,
    /// The minimum's value.
    pub f_min: String,
}

/// The differentiation results: the combined curve/derivative table
/// and the optional RMSE-sweep table (empty when not requested).
#[derive(Debug)]
pub struct Task2Data {
    /// Combined function/derivative rows, six columns each.
    pub combined: Vec<Vec<String>>,
    /// RMSE sweep rows, four columns each; empty when the sweep was
    /// not requested.
    pub rmse: Vec<Vec<String>>,
}

/// The task-tagged response: exactly one of the two payloads is
/// present, and the tag names it.
#[derive(Debug)]
pub struct TaskResponse {
    /// The normalized task tag: `minimize` or `differentiate`.
    pub task: String,
    /// Present exactly when the tag is `minimize`.
    pub task1: Option<Task1Data>,
    /// Present exactly when the tag is `differentiate`.
    pub task2: Option<Task2Data>,
}

impl TaskResponse {
    /// The response invariant: the tag is one of the two normalized
    /// task names, and it names the single payload that is present.
    pub open spec fn wf(&self) -> bool {
        &&& (self.task@ == "minimize"@ || self.task@ == "differentiate"@)
        &&& (self.task@ == "minimize"@ <==> self.task1 is Some)
        &&& (self.task@ == "differentiate"@ <==> self.task2 is Some)
    }
}

/// Wraps minimization results in a tagged response.
pub fn respond_task1(data: Task1Data) -> (r: TaskResponse)
    ensures
        r.wf(),
        r.task@ == "minimize"@,
        r.task1 == Some(data),
        r.task2 is None,
{
    proof {
        reveal_strlit("minimize");
        reveal_strlit("differentiate");
        assert("minimize"@.len() == 8);
        assert("differentiate"@.len() == 13);
        assert("minimize"@ != "differentiate"@);
    }
    TaskResponse { task: "minimize".to_owned(), task1: Some(data), task2: None }
}

/// Wraps differentiation results in a tagged response.
pub fn respond_task2(data: Task2Data) -> (r: TaskResponse)
    ensures
        r.wf(),
        r.task@ == "differentiate"@,
        r.task2 == Some(data),
        r.task1 is None,
{
    proof {
        reveal_strlit("minimize");
        reveal_strlit("differentiate");
        assert("minimize"@.len() == 8);
        assert("differentiate"@.len() == 13);
        assert("minimize"@ != "differentiate"@);
    }
    TaskResponse { task: "differentiate".to_owned(), task1: None, task2: Some(data) }
}

} // verus!
