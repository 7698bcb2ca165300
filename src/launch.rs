//! The choice of what to run, made once at startup from the command-line flags.
use vstd::prelude::*;

verus! {

/// The command-line flags, each optional.
pub struct Flags {
    /// Print the evaluator's version and stop.
    pub version: bool,
    /// A file to run first.
    pub script: Option<String>,
    /// A text to run, then stop.
    pub execute: Option<String>,
    /// A text to run before the interactive session.
    pub interactive: Option<String>,
}

/// One stage of a run, performed in order.
pub enum Step {
    /// Print the evaluator's version.
    PrintVersion,
    /// Read the file at this path and run it as one submission.
    RunFile(String),
    /// Run this text as one submission.
    RunInline(String),
    /// Enter the interactive session.
    Interactive,
}

/// Mathematical model of a `Step`.
pub ghost enum StepModel {
    PrintVersion,
    RunFile(Seq<char>),
    RunInline(Seq<char>),
    Interactive,
}

impl View for Step {
    type V = StepModel;

    open spec fn view(&self) -> StepModel {
        match self {
            Step::PrintVersion => StepModel::PrintVersion,
            Step::RunFile(p) => StepModel::RunFile(p@),
            Step::RunInline(t) => StepModel::RunInline(t@),
            Step::Interactive => StepModel::Interactive,
        }
    }
}

/// The stages after an optional file: an inline text alone stops after
/// running; one meant for the session runs and then opens it; with neither
/// the session opens directly.
pub open spec fn mode_steps(f: Flags) -> Seq<StepModel> {
    match f.execute {
        Some(t) => seq![StepModel::RunInline(t@)],
        None => match f.interactive {
            Some(t) => seq![StepModel::RunInline(t@), StepModel::Interactive],
            None => seq![StepModel::Interactive],
        },
    }
}

/// The whole run: the version query alone ignores every other flag; else a
/// requested file runs first and the run goes on with the other flags.
pub open spec fn planned(f: Flags) -> Seq<StepModel> {
    if f.version {
        seq![StepModel::PrintVersion]
    } else {
        match f.script {
            Some(p) => seq![StepModel::RunFile(p@)] + mode_steps(f),
            None => mode_steps(f),
        }
    }
}

/// The stages to perform, in order; a failing one-shot stage ends the run.
pub fn plan(flags: Flags) -> (r: Vec<Step>)
    ensures
        r@.map_values(|s: Step| s@) == planned(flags),
{
    let ghost f = flags;
    let mut steps: Vec<Step> = Vec::new();
    if flags.version {
        steps.push(Step::PrintVersion);
        assert(steps@.map_values(|s: Step| s@) =~= planned(f));
        return steps;
    }
    if let Some(p) = flags.script {
        steps.push(Step::RunFile(p));
    }
    let ghost head = steps@.map_values(|s: Step| s@);
    match flags.execute {
        Some(t) => {
            steps.push(Step::RunInline(t));
        },
        None => match flags.interactive {
            Some(t) => {
                steps.push(Step::RunInline(t));
                steps.push(Step::Interactive);
            },
            None => {
                steps.push(Step::Interactive);
            },
        },
    }
    assert(steps@.map_values(|s: Step| s@) =~= head + mode_steps(f));
    assert(steps@.map_values(|s: Step| s@) =~= planned(f));
    steps
}

} // verus!
