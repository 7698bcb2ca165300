//! The interactive session driver as a state machine: the caller reads lines,
//! runs the evaluator and writes output; the driver decides what comes next.
use vstd::prelude::*;
use crate::buffer::{newline, SessionBuffer};
use crate::outcome::{render_values, tab, Outcome, OutcomeModel};
use crate::text::joined;

verus! {

/// Where the driver stands.
#[derive(Clone, Copy, PartialEq, Eq, Structural, Debug)]
pub enum Phase {
    /// Waiting for the next typed line.
    AwaitingLine,
    /// The buffer's contents were handed out for evaluation.
    Evaluating,
    /// Input ended or was interrupted; nothing more happens.
    Ended,
}

/// What the caller hands the driver.
pub enum Event {
    /// One typed line, without its line break.
    Line(String),
    /// The line editor reported end of input or an interrupt.
    Closed,
    /// The evaluator finished with the last submitted text.
    Evaluated(Outcome),
}

/// What the driver asks the caller to do.
pub enum Action {
    /// Evaluate this text.
    Submit(String),
    /// Record `entry` in the history and print `output` as one line.
    Accept { entry: String, output: String },
    /// Read another line under the continuation prompt.
    Continue,
    /// Print this message to the error stream.
    Reject(String),
    /// End the session without a diagnostic.
    Finish,
    /// The event does not fit the phase and changed nothing.
    Ignore,
}

/// Mathematical model of a `Session`.
pub ghost struct SessionModel {
    pub phase: Phase,
    pub lines: Seq<Seq<char>>,
}

/// Mathematical model of an `Event`.
pub ghost enum EventModel {
    Line(Seq<char>),
    Closed,
    Evaluated(OutcomeModel),
}

/// Mathematical model of an `Action`.
pub ghost enum ActionModel {
    Submit(Seq<char>),
    Accept { entry: Seq<char>, output: Seq<char> },
    Continue,
    Reject(Seq<char>),
    Finish,
    Ignore,
}

impl View for Event {
    type V = EventModel;

    open spec fn view(&self) -> EventModel {
        match self {
            Event::Line(l) => EventModel::Line(l@),
            Event::Closed => EventModel::Closed,
            Event::Evaluated(o) => EventModel::Evaluated(o@),
        }
    }
}

impl View for Action {
    type V = ActionModel;

    open spec fn view(&self) -> ActionModel {
        match self {
            Action::Submit(t) => ActionModel::Submit(t@),
            Action::Accept { entry, output } => ActionModel::Accept { entry: entry@, output: output@ },
            Action::Continue => ActionModel::Continue,
            Action::Reject(m) => ActionModel::Reject(m@),
            Action::Finish => ActionModel::Finish,
            Action::Ignore => ActionModel::Ignore,
        }
    }
}

/// The state at the start of every turn.
pub open spec fn fresh() -> SessionModel {
    SessionModel { phase: Phase::AwaitingLine, lines: Seq::empty() }
}

pub open spec fn primary_prompt() -> Seq<char> {
    seq!['>', ' ']
}

pub open spec fn continuation_prompt() -> Seq<char> {
    seq!['>', '>', ' ']
}

/// The prompt for the next line: primary on an empty buffer, else continuation.
pub open spec fn prompt_of(s: SessionModel) -> Seq<char> {
    if s.lines.len() == 0 {
        primary_prompt()
    } else {
        continuation_prompt()
    }
}

/// One transition: the next state and the action asked of the caller.
pub open spec fn next(s: SessionModel, e: EventModel) -> (SessionModel, ActionModel) {
    match s.phase {
        Phase::AwaitingLine => match e {
            EventModel::Line(l) => {
                let lines = s.lines.push(l);
                (
                    SessionModel { phase: Phase::Evaluating, lines },
                    ActionModel::Submit(joined(lines, newline())),
                )
            },
            EventModel::Closed => (SessionModel { phase: Phase::Ended, ..s }, ActionModel::Finish),
            EventModel::Evaluated(_) => (s, ActionModel::Ignore),
        },
        Phase::Evaluating => match e {
            EventModel::Evaluated(OutcomeModel::Values(vs)) => (
                fresh(),
                ActionModel::Accept { entry: joined(s.lines, newline()), output: joined(vs, tab()) },
            ),
            EventModel::Evaluated(OutcomeModel::Incomplete) => (
                SessionModel { phase: Phase::AwaitingLine, ..s },
                ActionModel::Continue,
            ),
            EventModel::Evaluated(OutcomeModel::Failed(m)) => (fresh(), ActionModel::Reject(m)),
            _ => (s, ActionModel::Ignore),
        },
        Phase::Ended => (s, ActionModel::Ignore),
    }
}

/// The interactive session: its phase and the lines of the current turn.
pub struct Session {
    phase: Phase,
    buffer: SessionBuffer,
}

impl View for Session {
    type V = SessionModel;

    closed spec fn view(&self) -> SessionModel {
        SessionModel { phase: self.phase, lines: self.buffer@ }
    }
}

impl Session {
    /// A session waiting for the first line of its first turn.
    pub fn new() -> (r: Session)
        ensures
            r@ == fresh(),
    {
        Session { phase: Phase::AwaitingLine, buffer: SessionBuffer::new() }
    }

    /// Where the session stands.
    pub fn phase(&self) -> (r: Phase)
        ensures
            r == self@.phase,
    {
        self.phase
    }

    /// Whether the session has ended.
    pub fn is_ended(&self) -> (r: bool)
        ensures
            r == (self@.phase == Phase::Ended),
    {
        self.phase == Phase::Ended
    }

    /// The prompt to show for the next line.
    pub fn prompt(&self) -> (r: &'static str)
        ensures
            r@ == prompt_of(self@),
    {
        if self.buffer.is_empty() {
            let p = "> ";
            proof {
                reveal_strlit("> ");
                assert(p@ =~= primary_prompt());
            }
            p
        } else {
            let p = ">> ";
            proof {
                reveal_strlit(">> ");
                assert(p@ =~= continuation_prompt());
            }
            p
        }
    }

    /// Takes one event and returns what the caller must do next.
    pub fn step(&mut self, event: Event) -> (a: Action)
        ensures
            (final(self)@, a@) == next(old(self)@, event@),
    {
        match self.phase {
            Phase::AwaitingLine => match event {
                Event::Line(l) => {
                    self.buffer.append(l);
                    self.phase = Phase::Evaluating;
                    Action::Submit(self.buffer.contents())
                },
                Event::Closed => {
                    self.phase = Phase::Ended;
                    Action::Finish
                },
                Event::Evaluated(_) => Action::Ignore,
            },
            Phase::Evaluating => match event {
                Event::Evaluated(Outcome::Values(vs)) => {
                    let entry = self.buffer.contents();
                    let output = render_values(&vs);
                    self.buffer.reset();
                    self.phase = Phase::AwaitingLine;
                    Action::Accept { entry, output }
                },
                Event::Evaluated(Outcome::Incomplete) => {
                    self.phase = Phase::AwaitingLine;
                    Action::Continue
                },
                Event::Evaluated(Outcome::Failed(m)) => {
                    self.buffer.reset();
                    self.phase = Phase::AwaitingLine;
                    Action::Reject(m)
                },
                _ => Action::Ignore,
            },
            Phase::Ended => Action::Ignore,
        }
    }
}

} // verus!
