//! What one evaluation of a submission came to, and how it is rendered.
use vstd::prelude::*;
use crate::text::{joined, join_with, texts};

verus! {

/// The separator between rendered result values on one output line.
pub open spec fn tab() -> Seq<char> {
    seq!['\t']
}

/// A failure reported by the evaluator, as plain values.
pub struct EvalFailure {
    /// Set only for a syntax error in text that is a valid prefix of a longer
    /// statement, so that more input may complete it.
    pub incomplete_input: bool,
    /// The evaluator's description of the failure.
    pub message: String,
}

/// The three ways an evaluation can end.
pub enum Outcome {
    /// Success, with the display strings of the returned values in order.
    Values(Vec<String>),
    /// The text is a valid prefix of a longer statement: more lines are needed.
    Incomplete,
    /// The text is invalid on its own, or failed while running.
    Failed(String),
}

/// Mathematical model of an `Outcome`.
pub ghost enum OutcomeModel {
    Values(Seq<Seq<char>>),
    Incomplete,
    Failed(Seq<char>),
}

impl View for Outcome {
    type V = OutcomeModel;

    open spec fn view(&self) -> OutcomeModel {
        match self {
            Outcome::Values(vs) => OutcomeModel::Values(texts(vs@)),
            Outcome::Incomplete => OutcomeModel::Incomplete,
            Outcome::Failed(m) => OutcomeModel::Failed(m@),
        }
    }
}

/// The outcome of an evaluation that returned `r`.
pub open spec fn classified(r: Result<Vec<String>, EvalFailure>) -> OutcomeModel {
    match r {
        Ok(vs) => OutcomeModel::Values(texts(vs@)),
        Err(f) => if f.incomplete_input {
            OutcomeModel::Incomplete
        } else {
            OutcomeModel::Failed(f.message@)
        },
    }
}

impl Outcome {
    /// Sorts an evaluator's answer into the three outcomes: only a failure
    /// marked as an incomplete prefix asks for more input.
    pub fn classify(r: Result<Vec<String>, EvalFailure>) -> (o: Outcome)
        ensures
            o@ == classified(r),
    {
        match r {
            Ok(vs) => Outcome::Values(vs),
            Err(f) => if f.incomplete_input {
                Outcome::Incomplete
            } else {
                Outcome::Failed(f.message)
            },
        }
    }
}

/// The output line for one successful turn: the values' display strings
/// joined by tabs; no value gives an empty line.
pub fn render_values(values: &Vec<String>) -> (r: String)
    ensures
        r@ == joined(texts(values@), tab()),
{
    let sep = "\t";
    proof {
        reveal_strlit("\t");
        assert(sep@ =~= tab());
    }
    join_with(values, sep)
}

/// The verdict of a one-shot run (a file or an inline text): any failure,
/// an incomplete prefix included, is fatal and carries the evaluator's message.
pub fn one_shot_verdict(r: Result<(), EvalFailure>) -> (v: Result<(), String>)
    ensures
        v.is_ok() == r.is_ok(),
        r.is_err() ==> v.unwrap_err()@ == r.unwrap_err().message@,
{
    match r {
        Ok(()) => Ok(()),
        Err(f) => Err(f.message),
    }
}

} // verus!
