//! Laws of the session controller, stated over whole event traces.
//!
//! [`run`] models a conforming caller: it feeds the machine one event after
//! another, each answering the request the machine has outstanding, and
//! collects the steps the machine returns. The proof functions here pin down
//! the reconciliation and I/O behaviour over every such trace.

use vstd::prelude::*;

use crate::params::DeviceParameters;
use crate::session::{
    ActionModel, ActivePhase, EndCause, EventModel, ReconcilePhase, Session, SessionResult,
    SessionState, StepModel, framed, is_exit_line, spec_step, wf,
};

verus! {

/// Whether an event answers the request outstanding in the current state.
/// A conforming caller only ever reports such events.
pub open spec fn fits(s: Session, ev: EventModel) -> bool {
    match s.state {
        SessionState::Reconciling(ReconcilePhase::AwaitCurrent) => ev is ParametersRead
            || ev is ReadFailed,
        SessionState::Reconciling(ReconcilePhase::AwaitCommitAck) => ev is CommitAck
            || ev is WriteFailed,
        SessionState::Reconciling(ReconcilePhase::AwaitVerify) => ev is ParametersRead
            || ev is ReadFailed,
        SessionState::Active(ActivePhase::AwaitModel) => ev is ModelRead || ev is ReadFailed,
        SessionState::Active(ActivePhase::AwaitByte) => ev is ByteRead || ev is Interrupted
            || ev is ReadFailed
            || ev is WriteFailed,
        SessionState::Active(ActivePhase::AwaitLine) => ev is LineRead || ev is Interrupted
            || ev is EndOfInput
            || ev is EditorFailed
            || ev is WriteFailed,
        _ => false,
    }
}

/// The machine driven over a trace: the session it ends in and the steps it
/// returned, in order. The trace is consumed while the session is running
/// and each event answers the outstanding request.
pub open spec fn run(s: Session, evs: Seq<EventModel>) -> (Session, Seq<StepModel>)
    decreases evs.len(),
{
    if evs.len() == 0 || !s.in_progress() || !fits(s, evs[0]) {
        (s, Seq::<StepModel>::empty())
    } else {
        let (s1, st) = spec_step(s, evs[0]);
        let r = run(s1, evs.drop_first());
        (r.0, seq![st] + r.1)
    }
}

/// How many steps of a trace asked for a parameter commit.
pub open spec fn commit_count(steps: Seq<StepModel>) -> nat
    decreases steps.len(),
{
    if steps.len() == 0 {
        0
    } else {
        (if steps[0].action is CommitParameters {
            1nat
        } else {
            0nat
        }) + commit_count(steps.drop_first())
    }
}

/// How many steps of a trace asked for a parameter read.
pub open spec fn query_count(steps: Seq<StepModel>) -> nat
    decreases steps.len(),
{
    if steps.len() == 0 {
        0
    } else {
        (if steps[0].action is QueryParameters {
            1nat
        } else {
            0nat
        }) + query_count(steps.drop_first())
    }
}

/// How many steps of a trace carried a verification warning.
pub open spec fn warning_count(steps: Seq<StepModel>) -> nat
    decreases steps.len(),
{
    if steps.len() == 0 {
        0
    } else {
        (if steps[0].warning is Some {
            1nat
        } else {
            0nat
        }) + warning_count(steps.drop_first())
    }
}

/// Every byte a trace asked to transmit to the module, in order.
pub open spec fn transmitted(steps: Seq<StepModel>) -> Seq<u8>
    decreases steps.len(),
{
    if steps.len() == 0 {
        Seq::<u8>::empty()
    } else {
        (match steps[0].action {
            ActionModel::TransmitFrame(f) => f,
            _ => Seq::<u8>::empty(),
        }) + transmitted(steps.drop_first())
    }
}

/// Every byte a trace asked to echo to the output sink, in order.
pub open spec fn echoed(steps: Seq<StepModel>) -> Seq<u8>
    decreases steps.len(),
{
    if steps.len() == 0 {
        Seq::<u8>::empty()
    } else {
        (match steps[0].action {
            ActionModel::EchoByte(b) => seq![b],
            _ => Seq::<u8>::empty(),
        }) + echoed(steps.drop_first())
    }
}

/// How many commits the machine may still ask for: one before the initial
/// read has been answered, none afterwards.
pub open spec fn commit_budget(s: Session) -> nat {
    if s.state == SessionState::Reconciling(ReconcilePhase::AwaitCurrent) {
        1
    } else {
        0
    }
}

/// How many parameter reads the machine may still ask for (beyond the one
/// requested by `start`): only the single post-commit verification read.
pub open spec fn query_budget(s: Session) -> nat {
    if s.state == SessionState::Reconciling(ReconcilePhase::AwaitCurrent) || s.state
        == SessionState::Reconciling(ReconcilePhase::AwaitCommitAck) {
        1
    } else {
        0
    }
}

/// How many verification warnings the machine may still emit.
pub open spec fn warning_budget(s: Session) -> nat {
    if s.state is Reconciling {
        1
    } else {
        0
    }
}

proof fn lemma_cons(st: StepModel, rest: Seq<StepModel>)
    ensures
        (seq![st] + rest).len() == 1 + rest.len(),
        (seq![st] + rest)[0] == st,
        (seq![st] + rest).drop_first() == rest,
{
    assert((seq![st] + rest).drop_first() =~= rest);
}

proof fn lemma_counts_cons(st: StepModel, rest: Seq<StepModel>)
    ensures
        commit_count(seq![st] + rest) == (if st.action is CommitParameters {
            1nat
        } else {
            0nat
        }) + commit_count(rest),
        query_count(seq![st] + rest) == (if st.action is QueryParameters {
            1nat
        } else {
            0nat
        }) + query_count(rest),
        warning_count(seq![st] + rest) == (if st.warning is Some {
            1nat
        } else {
            0nat
        }) + warning_count(rest),
        transmitted(seq![st] + rest) == (match st.action {
            ActionModel::TransmitFrame(f) => f,
            _ => Seq::<u8>::empty(),
        }) + transmitted(rest),
        echoed(seq![st] + rest) == (match st.action {
            ActionModel::EchoByte(b) => seq![b],
            _ => Seq::<u8>::empty(),
        }) + echoed(rest),
{
    lemma_cons(st, rest);
}

/// The reconciler never asks for more than one commit, one verification
/// read, or one warning, whatever a conforming caller reports.
pub proof fn lemma_budgets(s: Session, evs: Seq<EventModel>)
    ensures
        commit_count(run(s, evs).1) <= commit_budget(s),
        query_count(run(s, evs).1) <= query_budget(s),
        warning_count(run(s, evs).1) <= warning_budget(s),
    decreases evs.len(),
{
    if evs.len() == 0 || !s.in_progress() || !fits(s, evs[0]) {
    } else {
        let (s1, st) = spec_step(s, evs[0]);
        lemma_budgets(s1, evs.drop_first());
        lemma_counts_cons(st, run(s1, evs.drop_first()).1);
    }
}

/// Idempotence: when the initial read already reports the desired
/// parameters, no trace makes the reconciler commit anything.
pub proof fn lemma_reconcile_idempotent(s: Session, evs: Seq<EventModel>)
    requires
        s.state == SessionState::Reconciling(ReconcilePhase::AwaitCurrent),
        evs.len() > 0,
        evs[0] == EventModel::ParametersRead(s.desired),
    ensures
        commit_count(run(s, evs).1) == 0,
{
    let (s1, st) = spec_step(s, evs[0]);
    lemma_budgets(s1, evs.drop_first());
    lemma_counts_cons(st, run(s1, evs.drop_first()).1);
}

/// When the initial read reports parameters that differ from the desired
/// ones, the reconciler asks for exactly one commit — of the desired
/// parameters, with the chosen persistence — followed by exactly one
/// parameter re-read, and never another of either.
pub proof fn lemma_reconcile_commits_once(
    s: Session,
    current: DeviceParameters,
    evs: Seq<EventModel>,
)
    requires
        s.state == SessionState::Reconciling(ReconcilePhase::AwaitCurrent),
        evs.len() >= 2,
        evs[0] == EventModel::ParametersRead(current),
        current != s.desired,
        evs[1] == EventModel::CommitAck,
    ensures
        run(s, evs).1[0].action == ActionModel::CommitParameters(s.desired, s.persistence),
        run(s, evs).1[1].action == ActionModel::QueryParameters,
        commit_count(run(s, evs).1) == 1,
        query_count(run(s, evs).1) == 1,
{
    let (s1, st1) = spec_step(s, evs[0]);
    let evs1 = evs.drop_first();
    let (s2, st2) = spec_step(s1, evs1[0]);
    let evs2 = evs1.drop_first();
    lemma_budgets(s2, evs2);
    lemma_counts_cons(st2, run(s2, evs2).1);
    lemma_counts_cons(st1, run(s1, evs1).1);
    lemma_cons(st2, run(s2, evs2).1);
    lemma_cons(st1, run(s1, evs1).1);
}

/// A post-commit read that differs from the desired parameters is reported
/// as exactly one warning carrying the differing value; the session keeps
/// that value in effect and goes on — it never fails for this reason.
pub proof fn lemma_mismatch_warns_and_continues(
    s: Session,
    actual: DeviceParameters,
    evs: Seq<EventModel>,
)
    requires
        s.state == SessionState::Reconciling(ReconcilePhase::AwaitVerify),
        evs.len() > 0,
        evs[0] == EventModel::ParametersRead(actual),
        actual != s.desired,
    ensures
        run(s, evs).1[0].warning == Some(actual),
        warning_count(run(s, evs).1) == 1,
        spec_step(s, evs[0]).0.in_effect == Some(actual),
        spec_step(s, evs[0]).0.state is Active || spec_step(s, evs[0]).0.state
            == SessionState::Terminated(
            SessionResult::Completed(EndCause::ParametersReported(actual)),
        ),
{
    let (s1, st) = spec_step(s, evs[0]);
    lemma_budgets(s1, evs.drop_first());
    lemma_counts_cons(st, run(s1, evs.drop_first()).1);
    lemma_cons(st, run(s1, evs.drop_first()).1);
}

/// An exit line (`exit` or `quit`) terminates a sending session cleanly,
/// and the whole remaining trace transmits nothing.
pub proof fn lemma_send_exit_transmits_nothing(s: Session, line: Seq<u8>, evs: Seq<EventModel>)
    requires
        s.state == SessionState::Active(ActivePhase::AwaitLine),
        evs.len() > 0,
        evs[0] == EventModel::LineRead(line),
        is_exit_line(line),
    ensures
        run(s, evs).1[0].action == ActionModel::Halt(
            SessionResult::Completed(EndCause::ExitCommand),
        ),
        run(s, evs).0.state == SessionState::Terminated(
            SessionResult::Completed(EndCause::ExitCommand),
        ),
        transmitted(run(s, evs).1) == Seq::<u8>::empty(),
{
    let (s1, st) = spec_step(s, evs[0]);
    lemma_counts_cons(st, run(s1, evs.drop_first()).1);
    lemma_cons(st, run(s1, evs.drop_first()).1);
    assert(transmitted(run(s, evs).1) =~= Seq::<u8>::empty());
}

/// Any other line makes the sending session transmit exactly the line's
/// bytes followed by one newline byte — length plus one, in order — and
/// keep going.
pub proof fn lemma_send_line_frames(s: Session, line: Seq<u8>)
    requires
        s.state == SessionState::Active(ActivePhase::AwaitLine),
        !is_exit_line(line),
    ensures
        spec_step(s, EventModel::LineRead(line)).1.action == ActionModel::TransmitFrame(
            framed(line),
        ),
        spec_step(s, EventModel::LineRead(line)).0 == s,
        framed(line).len() == line.len() + 1,
        framed(line) == line + seq![10u8],
        transmitted(run(s, seq![EventModel::LineRead(line)]).1) == framed(line),
{
    assert(framed(line) =~= line + seq![10u8]);
    let (s1, st) = spec_step(s, EventModel::LineRead(line));
    let evs = seq![EventModel::LineRead(line)];
    assert(evs[0] == EventModel::LineRead(line));
    assert(evs.drop_first() =~= Seq::<EventModel>::empty());
    lemma_counts_cons(st, run(s1, evs.drop_first()).1);
    assert(transmitted(run(s, evs).1) =~= framed(line));
}

/// No event disturbs a well-formed session: every reachable state still
/// awaits only its own mode's request, with parameters in effect.
pub proof fn lemma_step_preserves_wf(s: Session, ev: EventModel)
    requires
        wf(s),
    ensures
        wf(spec_step(s, ev).0),
{
}

/// The selected mode, the desired parameters and the persistence choice are
/// session-scoped: no trace changes them. Once reconciliation has put a
/// parameter set in effect, that set stays in effect to the end.
pub proof fn lemma_session_constants(s: Session, evs: Seq<EventModel>)
    ensures
        run(s, evs).0.mode == s.mode,
        run(s, evs).0.desired == s.desired,
        run(s, evs).0.persistence == s.persistence,
        s.state is Active || s.state is Terminated ==> run(s, evs).0.in_effect == s.in_effect
            && !(run(s, evs).0.state is Reconciling),
    decreases evs.len(),
{
    if evs.len() == 0 || !s.in_progress() || !fits(s, evs[0]) {
    } else {
        let (s1, st) = spec_step(s, evs[0]);
        lemma_session_constants(s1, evs.drop_first());
    }
}

/// A listening session echoes every byte the driver delivers exactly once,
/// in the order received, and stays listening.
pub proof fn lemma_listen_echoes_in_order(s: Session, bytes: Seq<u8>)
    requires
        s.state == SessionState::Active(ActivePhase::AwaitByte),
    ensures
        run(s, Seq::new(bytes.len(), |i: int| EventModel::ByteRead(bytes[i]))).1.len()
            == bytes.len(),
        echoed(run(s, Seq::new(bytes.len(), |i: int| EventModel::ByteRead(bytes[i]))).1) == bytes,
        run(s, Seq::new(bytes.len(), |i: int| EventModel::ByteRead(bytes[i]))).0 == s,
    decreases bytes.len(),
{
    let evs = Seq::new(bytes.len(), |i: int| EventModel::ByteRead(bytes[i]));
    if bytes.len() == 0 {
        assert(echoed(run(s, evs).1) =~= bytes);
    } else {
        let (s1, st) = spec_step(s, evs[0]);
        assert(s1 == s);
        assert(st.action == ActionModel::EchoByte(bytes[0]));
        let tail = bytes.drop_first();
        assert(evs.drop_first() =~= Seq::new(tail.len(), |i: int| EventModel::ByteRead(tail[i])));
        lemma_listen_echoes_in_order(s, tail);
        lemma_counts_cons(st, run(s1, evs.drop_first()).1);
        lemma_cons(st, run(s1, evs.drop_first()).1);
        assert(echoed(run(s, evs).1) =~= bytes);
    }
}

} // verus!
