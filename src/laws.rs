//! Properties of the session driver over whole sequences of events.
use vstd::prelude::*;
use crate::buffer::newline;
use crate::outcome::{tab, OutcomeModel};
use crate::session::{
    continuation_prompt, fresh, next, primary_prompt, prompt_of, ActionModel, EventModel, Phase,
    SessionModel,
};
use crate::text::joined;

verus! {

/// The state reached from `s` by the events in order, and the actions asked
/// on the way, one per event.
pub open spec fn run(s: SessionModel, es: Seq<EventModel>) -> (SessionModel, Seq<ActionModel>)
    decreases es.len(),
{
    if es.len() == 0 {
        (s, Seq::empty())
    } else {
        let (m, acts) = run(s, es.drop_last());
        let (t, a) = next(m, es.last());
        (t, acts.push(a))
    }
}

/// Each line typed and each answered as an incomplete prefix.
pub open spec fn incomplete_events(ls: Seq<Seq<char>>) -> Seq<EventModel>
    decreases ls.len(),
{
    if ls.len() == 0 {
        Seq::empty()
    } else {
        incomplete_events(ls.drop_last()) + seq![
            EventModel::Line(ls.last()),
            EventModel::Evaluated(OutcomeModel::Incomplete),
        ]
    }
}

/// A turn of several lines: every line but the last is an incomplete prefix,
/// and the whole text evaluates to `vs`.
pub open spec fn multi_line_turn(ls: Seq<Seq<char>>, vs: Seq<Seq<char>>) -> Seq<EventModel> {
    incomplete_events(ls.drop_last()) + seq![
        EventModel::Line(ls.last()),
        EventModel::Evaluated(OutcomeModel::Values(vs)),
    ]
}

pub open spec fn is_continue(a: ActionModel) -> bool {
    a is Continue
}

pub open spec fn is_submit(a: ActionModel) -> bool {
    a is Submit
}

proof fn lemma_run_two(s: SessionModel, es: Seq<EventModel>, a: EventModel, b: EventModel)
    ensures
        run(s, es + seq![a, b]) == ({
            let (m, acts) = run(s, es);
            let (m1, x) = next(m, a);
            let (m2, y) = next(m1, b);
            (m2, acts.push(x).push(y))
        }),
{
    let e2 = es + seq![a, b];
    assert(e2.drop_last() =~= es.push(a));
    assert(es.push(a).drop_last() =~= es);
    assert(e2.last() == b);
    assert(es.push(a).last() == a);
    let (m, acts) = run(s, es);
    let (m1, x) = next(m, a);
    assert(run(s, es.push(a)) == (m1, acts.push(x)));
}

/// Typing lines that are each an incomplete prefix of a longer statement
/// produces no output and no history entry: each line only submits the text
/// so far and asks for more under the continuation prompt, and the buffer
/// holds every line typed.
pub proof fn lemma_incomplete_lines(ls: Seq<Seq<char>>)
    ensures
        run(fresh(), incomplete_events(ls)).0 == (SessionModel {
            phase: Phase::AwaitingLine,
            lines: ls,
        }),
        run(fresh(), incomplete_events(ls)).1.len() == 2 * ls.len(),
        forall|i: int|
            0 <= i < ls.len() ==> #[trigger] run(fresh(), incomplete_events(ls)).1[2 * i]
                == ActionModel::Submit(joined(ls.take(i + 1), newline())),
        forall|i: int|
            0 <= i < ls.len() ==> is_continue(#[trigger] run(fresh(), incomplete_events(ls)).1[2 * i + 1]),
        ls.len() > 0 ==> prompt_of(run(fresh(), incomplete_events(ls)).0) == continuation_prompt(),
    decreases ls.len(),
{
    if ls.len() == 0 {
        assert(fresh().lines =~= ls);
    } else {
        let p = ls.drop_last();
        lemma_incomplete_lines(p);
        lemma_run_two(fresh(), incomplete_events(p), EventModel::Line(ls.last()),
            EventModel::Evaluated(OutcomeModel::Incomplete));
        assert(p.push(ls.last()) =~= ls);
        assert(ls.take(ls.len() as int) =~= ls);
        let acts = run(fresh(), incomplete_events(ls)).1;
        let pacts = run(fresh(), incomplete_events(p)).1;
        assert forall|i: int| 0 <= i < ls.len() implies #[trigger] acts[2 * i]
            == ActionModel::Submit(joined(ls.take(i + 1), newline())) by {
            if i < p.len() {
                assert(acts[2 * i] == pacts[2 * i]);
                assert(p.take(i + 1) =~= ls.take(i + 1));
            }
        }
        assert forall|i: int| 0 <= i < ls.len() implies is_continue(#[trigger] acts[2 * i + 1]) by {
            if i < p.len() {
                assert(acts[2 * i + 1] == pacts[2 * i + 1]);
            }
        }
    }
}

/// A statement typed over several lines, each proper prefix incomplete, is
/// accepted once, after its last line: the history entry is the lines joined
/// by newlines, the output is the rendered values, no earlier action records
/// or prints anything, and the next turn starts afresh under the primary
/// prompt.
pub proof fn lemma_multi_line_turn(ls: Seq<Seq<char>>, vs: Seq<Seq<char>>)
    requires
        ls.len() > 0,
    ensures
        run(fresh(), multi_line_turn(ls, vs)).0 == fresh(),
        run(fresh(), multi_line_turn(ls, vs)).1.len() == 2 * ls.len(),
        run(fresh(), multi_line_turn(ls, vs)).1.last() == (ActionModel::Accept {
            entry: joined(ls, newline()),
            output: joined(vs, tab()),
        }),
        forall|i: int|
            0 <= i < 2 * ls.len() - 1 ==> is_submit(#[trigger] run(fresh(), multi_line_turn(ls, vs)).1[i])
                || is_continue(run(fresh(), multi_line_turn(ls, vs)).1[i]),
        prompt_of(run(fresh(), multi_line_turn(ls, vs)).0) == primary_prompt(),
{
    let p = ls.drop_last();
    lemma_incomplete_lines(p);
    lemma_run_two(fresh(), incomplete_events(p), EventModel::Line(ls.last()),
        EventModel::Evaluated(OutcomeModel::Values(vs)));
    assert(p.push(ls.last()) =~= ls);
    let acts = run(fresh(), multi_line_turn(ls, vs)).1;
    let pacts = run(fresh(), incomplete_events(p)).1;
    assert forall|i: int| 0 <= i < 2 * ls.len() - 1 implies is_submit(#[trigger] acts[i])
        || is_continue(acts[i]) by {
        if i < 2 * p.len() {
            assert(acts[i] == pacts[i]);
            let k = i / 2;
            if i % 2 == 0 {
                assert(i == 2 * k);
                assert(is_submit(pacts[2 * k]));
            } else {
                assert(i == 2 * k + 1);
                assert(is_continue(pacts[2 * k + 1]));
            }
        }
    }
}

/// A single complete line that evaluates to `vs` is submitted as typed and
/// accepted at once: exactly one output line and exactly one history entry,
/// equal to the line.
pub proof fn lemma_single_line_turn(l: Seq<char>, vs: Seq<Seq<char>>)
    ensures
        run(fresh(), seq![EventModel::Line(l), EventModel::Evaluated(OutcomeModel::Values(vs))])
            == (fresh(), seq![
            ActionModel::Submit(l),
            ActionModel::Accept { entry: l, output: joined(vs, tab()) },
        ]),
{
    lemma_run_two(fresh(), Seq::empty(), EventModel::Line(l),
        EventModel::Evaluated(OutcomeModel::Values(vs)));
    assert(Seq::<EventModel>::empty() + seq![EventModel::Line(l),
        EventModel::Evaluated(OutcomeModel::Values(vs))] =~= seq![EventModel::Line(l),
        EventModel::Evaluated(OutcomeModel::Values(vs))]);
    assert(seq![l] == Seq::<Seq<char>>::empty().push(l));
    let a = run(fresh(), seq![EventModel::Line(l), EventModel::Evaluated(OutcomeModel::Values(vs))]).1;
    assert(a =~= seq![
        ActionModel::Submit(l),
        ActionModel::Accept { entry: l, output: joined(vs, tab()) },
    ]);
}

/// A submission that fails, not as an incomplete prefix, is reported and
/// discarded: no history entry, an empty buffer, and the primary prompt next.
pub proof fn lemma_failed_turn(s: SessionModel, m: Seq<char>)
    requires
        s.phase == Phase::Evaluating,
    ensures
        next(s, EventModel::Evaluated(OutcomeModel::Failed(m))) == (fresh(), ActionModel::Reject(m)),
        prompt_of(next(s, EventModel::Evaluated(OutcomeModel::Failed(m))).0) == primary_prompt(),
{
}

/// History only ever receives text whose evaluation succeeded: an action that
/// records an entry answers a successful outcome, and the entry is exactly the
/// text last submitted.
pub proof fn lemma_history_only_on_success(s: SessionModel, e: EventModel)
    ensures
        next(s, e).1 is Accept ==> s.phase == Phase::Evaluating,
        next(s, e).1 is Accept ==> (e matches EventModel::Evaluated(OutcomeModel::Values(_))),
        next(s, e).1 is Accept ==> next(s, e).1->entry == joined(s.lines, newline()),
{
}

/// A submission is handed out only for a newly typed line: the buffer grows
/// by exactly that line and the text handed out is the whole buffer, so no
/// stale partial text is evaluated twice.
pub proof fn lemma_submit_once_per_line(s: SessionModel, e: EventModel)
    ensures
        next(s, e).1 is Submit ==> (e matches EventModel::Line(l) && next(s, e).0.lines == s.lines.push(l)),
        next(s, e).1 is Submit ==> next(s, e).1->Submit_0 == joined(next(s, e).0.lines, newline()),
        next(s, e).1 is Submit ==> s.phase == Phase::AwaitingLine && next(s, e).0.phase == Phase::Evaluating,
{
}

/// Replaying an accepted entry as a fresh single-line turn submits exactly
/// the same text that the original turn submitted last, and the same outcome
/// then gives the same action; so the replay sees what the evaluator saw.
pub proof fn lemma_replay(ls: Seq<Seq<char>>, vs: Seq<Seq<char>>)
    requires
        ls.len() > 0,
    ensures
        ({
            let entry = joined(ls, newline());
            let acts = run(fresh(), multi_line_turn(ls, vs)).1;
            let replay = run(fresh(), seq![EventModel::Line(entry), EventModel::Evaluated(OutcomeModel::Values(vs))]);
            &&& acts[2 * ls.len() - 2] == ActionModel::Submit(entry)
            &&& replay.1[0] == ActionModel::Submit(entry)
            &&& replay.1[1] == acts.last()
            &&& replay.0 == fresh()
        }),
{
    let p = ls.drop_last();
    lemma_incomplete_lines(p);
    lemma_run_two(fresh(), incomplete_events(p), EventModel::Line(ls.last()),
        EventModel::Evaluated(OutcomeModel::Values(vs)));
    assert(p.push(ls.last()) =~= ls);
    lemma_multi_line_turn(ls, vs);
    lemma_single_line_turn(joined(ls, newline()), vs);
}

} // verus!
