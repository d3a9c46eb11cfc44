//! The session controller: one state machine that reconciles the module's
//! parameters first and then drives exactly one operating mode.
//!
//! The machine owns no hardware. Every state has exactly one outstanding
//! request towards the outside world; the caller performs it and reports
//! the outcome as a [`SessionEvent`]. Each [`Session::step`] consumes one
//! event and returns one [`SessionStep`]: possibly a verification warning,
//! and the next [`SessionAction`] to carry out. The caller loops until the
//! action is [`SessionAction::Halt`].

use vstd::prelude::*;

use crate::params::{DeviceParameters, ModelInfo, Persistence};

verus! {

/// Operating mode, selected once per session.
#[derive(Clone, Copy, Debug, PartialEq, Eq, Structural)]
pub enum Mode {
    /// Query the module's model descriptor, report it, and finish.
    ReadModelData,
    /// Report the post-reconciliation parameters and finish.
    ReadParameters,
    /// Echo every byte the module delivers until cancelled.
    Listen,
    /// Transmit operator-entered lines until the operator ends the session.
    Send,
}

/// A fatal condition: the session stops and reports it.
#[derive(Clone, Copy, Debug, PartialEq, Eq, Structural)]
pub enum FatalError {
    /// The driver could not be reached at all: the initial parameter read
    /// failed, before reconciliation completed.
    Connection,
    /// A blocking read from the driver failed.
    Read,
    /// A blocking write to the driver failed.
    Write,
}

/// Why a session ended without a fatal error.
#[derive(Clone, Copy, Debug, PartialEq, Eq, Structural)]
pub enum EndCause {
    /// The model descriptor was read and is handed out for display.
    ModelReported(ModelInfo),
    /// The post-reconciliation parameters are handed out for display.
    ParametersReported(DeviceParameters),
    /// The operator entered one of the exit lines.
    ExitCommand,
    /// The line editor reported an interrupt.
    Interrupted,
    /// The line editor reported end of input.
    EndOfInput,
    /// The line editor failed in some other way; reported, never a crash.
    EditorFailure,
    /// An externally delivered cancellation ended a listening session.
    Cancelled,
}

/// How a session terminated.
#[derive(Clone, Copy, Debug, PartialEq, Eq, Structural)]
pub enum SessionResult {
    /// Clean termination.
    Completed(EndCause),
    /// Fatal termination.
    Failed(FatalError),
}

/// Where the reconciliation step stands.
#[derive(Clone, Copy, Debug, PartialEq, Eq, Structural)]
pub enum ReconcilePhase {
    /// The initial parameter read is outstanding.
    AwaitCurrent,
    /// The single commit of the desired parameters is outstanding.
    AwaitCommitAck,
    /// The single post-commit parameter read is outstanding.
    AwaitVerify,
}

/// Which request the active mode has outstanding.
#[derive(Clone, Copy, Debug, PartialEq, Eq, Structural)]
pub enum ActivePhase {
    /// The model-descriptor query is outstanding.
    AwaitModel,
    /// A single-byte read is outstanding.
    AwaitByte,
    /// A line read from the line editor is outstanding.
    AwaitLine,
}

/// The controller's lifecycle. Reconciling always precedes Active;
/// a fatal reconciliation error goes straight to Terminated.
#[derive(Clone, Copy, Debug, PartialEq, Eq, Structural)]
pub enum SessionState {
    /// Created, not started.
    Idle,
    /// Synchronizing the module's parameters with the desired ones.
    Reconciling(ReconcilePhase),
    /// Running the selected operating mode.
    Active(ActivePhase),
    /// Finished, with its result.
    Terminated(SessionResult),
}

/// The outcome of the request the machine had outstanding.
#[derive(Clone, Debug, PartialEq, Eq)]
pub enum SessionEvent {
    /// A parameter read returned these parameters.
    ParametersRead(DeviceParameters),
    /// The parameter commit was accepted.
    CommitAck,
    /// The model-descriptor query returned this descriptor.
    ModelRead(ModelInfo),
    /// A single-byte read returned this byte.
    ByteRead(u8),
    /// The line editor returned one line of input, as bytes.
    LineRead(Vec<u8>),
    /// The line editor reported an interrupt, or an external cancellation
    /// ended a listening session.
    Interrupted,
    /// The line editor reported end of input.
    EndOfInput,
    /// The line editor failed in some other way.
    EditorFailed,
    /// A blocking read from the driver failed.
    ReadFailed,
    /// A blocking write to the driver or the output sink failed.
    WriteFailed,
}

/// What the caller must do next.
#[derive(Clone, Debug, PartialEq, Eq)]
pub enum SessionAction {
    /// Query the driver for its current parameters.
    QueryParameters,
    /// Commit this parameter set with this persistence, exactly once.
    CommitParameters(DeviceParameters, Persistence),
    /// Query the driver for its model descriptor.
    QueryModelInfo,
    /// Block on a single-byte read from the driver.
    ReadByte,
    /// Write this byte to the output sink and flush it, then read the next
    /// byte from the driver.
    EchoByte(u8),
    /// Request one line from the line editor.
    ReadLine,
    /// Record the line in history, then transmit every byte of this frame in
    /// order (echoing each as it is sent), then request the next line.
    /// The frame is the line followed by one newline byte.
    TransmitFrame(Vec<u8>),
    /// The session is over; report the result and stop.
    Halt(SessionResult),
}

/// One step's outcome: at most one verification warning, and the next action.
#[derive(Clone, Debug, PartialEq, Eq)]
pub struct SessionStep {
    /// `Some(actual)` exactly when the post-commit read differed from the
    /// desired parameters: reported once, never fatal.
    pub warning: Option<DeviceParameters>,
    /// The next action to carry out.
    pub action: SessionAction,
}

/// Mathematical image of a [`SessionEvent`]: lines become sequences.
pub enum EventModel {
    ParametersRead(DeviceParameters),
    CommitAck,
    ModelRead(ModelInfo),
    ByteRead(u8),
    LineRead(Seq<u8>),
    Interrupted,
    EndOfInput,
    EditorFailed,
    ReadFailed,
    WriteFailed,
}

/// Mathematical image of a [`SessionAction`]: frames become sequences.
pub enum ActionModel {
    QueryParameters,
    CommitParameters(DeviceParameters, Persistence),
    QueryModelInfo,
    ReadByte,
    EchoByte(u8),
    ReadLine,
    TransmitFrame(Seq<u8>),
    Halt(SessionResult),
}

/// Mathematical image of a [`SessionStep`].
pub struct StepModel {
    pub warning: Option<DeviceParameters>,
    pub action: ActionModel,
}

impl View for SessionEvent {
    type V = EventModel;

    open spec fn view(&self) -> EventModel {
        match self {
            SessionEvent::ParametersRead(p) => EventModel::ParametersRead(*p),
            SessionEvent::CommitAck => EventModel::CommitAck,
            SessionEvent::ModelRead(m) => EventModel::ModelRead(*m),
            SessionEvent::ByteRead(b) => EventModel::ByteRead(*b),
            SessionEvent::LineRead(l) => EventModel::LineRead(l@),
            SessionEvent::Interrupted => EventModel::Interrupted,
            SessionEvent::EndOfInput => EventModel::EndOfInput,
            SessionEvent::EditorFailed => EventModel::EditorFailed,
            SessionEvent::ReadFailed => EventModel::ReadFailed,
            SessionEvent::WriteFailed => EventModel::WriteFailed,
        }
    }
}

impl View for SessionAction {
    type V = ActionModel;

    open spec fn view(&self) -> ActionModel {
        match self {
            SessionAction::QueryParameters => ActionModel::QueryParameters,
            SessionAction::CommitParameters(p, per) => ActionModel::CommitParameters(*p, *per),
            SessionAction::QueryModelInfo => ActionModel::QueryModelInfo,
            SessionAction::ReadByte => ActionModel::ReadByte,
            SessionAction::EchoByte(b) => ActionModel::EchoByte(*b),
            SessionAction::ReadLine => ActionModel::ReadLine,
            SessionAction::TransmitFrame(f) => ActionModel::TransmitFrame(f@),
            SessionAction::Halt(r) => ActionModel::Halt(*r),
        }
    }
}

impl View for SessionStep {
    type V = StepModel;

    open spec fn view(&self) -> StepModel {
        StepModel { warning: self.warning, action: self.action@ }
    }
}

/// The bytes of the line `exit`.
pub open spec fn exit_line() -> Seq<u8> {
    seq![101u8, 120u8, 105u8, 116u8]
}

/// The bytes of the line `quit`.
pub open spec fn quit_line() -> Seq<u8> {
    seq![113u8, 117u8, 105u8, 116u8]
}

/// Whether a line ends a sending session: exactly `exit` or exactly `quit`,
/// case-sensitive, with no trimming.
pub open spec fn is_exit_line(line: Seq<u8>) -> bool {
    line == exit_line() || line == quit_line()
}

/// The frame transmitted for a line: its bytes followed by one newline byte.
pub open spec fn framed(line: Seq<u8>) -> Seq<u8> {
    line.push(10u8)
}

/// Decide whether a line ends a sending session.
pub fn line_requests_exit(line: &Vec<u8>) -> (r: bool)
    ensures
        r == is_exit_line(line@),
{
    proof {
        assert(exit_line().len() == 4);
        assert(quit_line().len() == 4);
    }
    if line.len() != 4 {
        return false;
    }
    let is_exit = line[0] == 101 && line[1] == 120 && line[2] == 105 && line[3] == 116;
    let is_quit = line[0] == 113 && line[1] == 117 && line[2] == 105 && line[3] == 116;
    proof {
        if is_exit {
            assert(line@ =~= exit_line());
        }
        if is_quit {
            assert(line@ =~= quit_line());
        }
    }
    is_exit || is_quit
}

/// The session controller. It carries the desired parameters and the chosen
/// persistence for the single commit it may request, the selected mode, and
/// its lifecycle state.
#[derive(Clone, Copy, Debug, PartialEq, Eq)]
pub struct Session {
    /// Operating mode, selected once per session.
    pub mode: Mode,
    /// The parameter set the module should hold, immutable for the session.
    pub desired: DeviceParameters,
    /// Whether the single commit, if any, survives a power cycle.
    pub persistence: Persistence,
    /// Lifecycle state.
    pub state: SessionState,
    /// The parameters in effect once reconciliation has finished: whatever
    /// the reconciliation returned, matching or not.
    pub in_effect: Option<DeviceParameters>,
}

/// Well-formedness of a running session: each active phase belongs to the
/// mode the session was created for, and an active session always has a
/// reconciled parameter set in effect.
pub open spec fn wf(s: Session) -> bool {
    match s.state {
        SessionState::Active(ActivePhase::AwaitModel) => s.mode == Mode::ReadModelData
            && s.in_effect is Some,
        SessionState::Active(ActivePhase::AwaitByte) => s.mode == Mode::Listen
            && s.in_effect is Some,
        SessionState::Active(ActivePhase::AwaitLine) => s.mode == Mode::Send
            && s.in_effect is Some,
        _ => true,
    }
}

/// The request that is outstanding in a given state. The machine re-issues
/// it when an event arrives that does not answer it.
pub open spec fn spec_pending(s: Session) -> ActionModel {
    match s.state {
        SessionState::Idle => ActionModel::QueryParameters,
        SessionState::Reconciling(ReconcilePhase::AwaitCurrent) => ActionModel::QueryParameters,
        SessionState::Reconciling(ReconcilePhase::AwaitCommitAck) => ActionModel::CommitParameters(
            s.desired,
            s.persistence,
        ),
        SessionState::Reconciling(ReconcilePhase::AwaitVerify) => ActionModel::QueryParameters,
        SessionState::Active(ActivePhase::AwaitModel) => ActionModel::QueryModelInfo,
        SessionState::Active(ActivePhase::AwaitByte) => ActionModel::ReadByte,
        SessionState::Active(ActivePhase::AwaitLine) => ActionModel::ReadLine,
        SessionState::Terminated(r) => ActionModel::Halt(r),
    }
}

/// Leave reconciliation with parameters `p` in effect and begin the selected
/// mode: its first request, or immediate termination for the one-shot modes.
pub open spec fn spec_enter_active(s: Session, p: DeviceParameters) -> (Session, ActionModel) {
    let entered = Session { in_effect: Some(p), ..s };
    match s.mode {
        Mode::ReadModelData => (
            Session { state: SessionState::Active(ActivePhase::AwaitModel), ..entered },
            ActionModel::QueryModelInfo,
        ),
        Mode::ReadParameters => {
            let res = SessionResult::Completed(EndCause::ParametersReported(p));
            (Session { state: SessionState::Terminated(res), ..entered }, ActionModel::Halt(res))
        },
        Mode::Listen => (
            Session { state: SessionState::Active(ActivePhase::AwaitByte), ..entered },
            ActionModel::ReadByte,
        ),
        Mode::Send => (
            Session { state: SessionState::Active(ActivePhase::AwaitLine), ..entered },
            ActionModel::ReadLine,
        ),
    }
}

/// Terminate with the given result.
pub open spec fn spec_terminate(s: Session, res: SessionResult) -> (Session, ActionModel) {
    (Session { state: SessionState::Terminated(res), ..s }, ActionModel::Halt(res))
}

/// A step with no warning.
pub open spec fn plain(action: ActionModel) -> StepModel {
    StepModel { warning: None, action }
}

/// The complete transition table: one event in, one state and step out.
pub open spec fn spec_step(s: Session, ev: EventModel) -> (Session, StepModel) {
    match s.state {
        SessionState::Reconciling(ReconcilePhase::AwaitCurrent) => match ev {
            EventModel::ParametersRead(p) => {
                if p == s.desired {
                    // Idempotence: already-correct parameters are never rewritten.
                    let (s2, a) = spec_enter_active(s, p);
                    (s2, plain(a))
                } else {
                    (
                        Session {
                            state: SessionState::Reconciling(ReconcilePhase::AwaitCommitAck),
                            ..s
                        },
                        plain(ActionModel::CommitParameters(s.desired, s.persistence)),
                    )
                }
            },
            EventModel::ReadFailed => {
                let (s2, a) = spec_terminate(s, SessionResult::Failed(FatalError::Connection));
                (s2, plain(a))
            },
            _ => (s, plain(spec_pending(s))),
        },
        SessionState::Reconciling(ReconcilePhase::AwaitCommitAck) => match ev {
            EventModel::CommitAck => (
                Session { state: SessionState::Reconciling(ReconcilePhase::AwaitVerify), ..s },
                plain(ActionModel::QueryParameters),
            ),
            EventModel::WriteFailed => {
                let (s2, a) = spec_terminate(s, SessionResult::Failed(FatalError::Write));
                (s2, plain(a))
            },
            _ => (s, plain(spec_pending(s))),
        },
        SessionState::Reconciling(ReconcilePhase::AwaitVerify) => match ev {
            EventModel::ParametersRead(actual) => {
                if actual == s.desired {
                    let (s2, a) = spec_enter_active(s, actual);
                    (s2, plain(a))
                } else {
                    // Non-fatal mismatch: warn once, continue with what is
                    // actually in effect, never retry the write.
                    let (s2, a) = spec_enter_active(s, actual);
                    (s2, StepModel { warning: Some(actual), action: a })
                }
            },
            EventModel::ReadFailed => {
                let (s2, a) = spec_terminate(s, SessionResult::Failed(FatalError::Read));
                (s2, plain(a))
            },
            _ => (s, plain(spec_pending(s))),
        },
        SessionState::Active(ActivePhase::AwaitModel) => match ev {
            EventModel::ModelRead(m) => {
                let (s2, a) = spec_terminate(
                    s,
                    SessionResult::Completed(EndCause::ModelReported(m)),
                );
                (s2, plain(a))
            },
            EventModel::ReadFailed => {
                let (s2, a) = spec_terminate(s, SessionResult::Failed(FatalError::Read));
                (s2, plain(a))
            },
            _ => (s, plain(spec_pending(s))),
        },
        SessionState::Active(ActivePhase::AwaitByte) => match ev {
            EventModel::ByteRead(b) => (s, plain(ActionModel::EchoByte(b))),
            EventModel::Interrupted => {
                let (s2, a) = spec_terminate(s, SessionResult::Completed(EndCause::Cancelled));
                (s2, plain(a))
            },
            EventModel::ReadFailed => {
                let (s2, a) = spec_terminate(s, SessionResult::Failed(FatalError::Read));
                (s2, plain(a))
            },
            EventModel::WriteFailed => {
                let (s2, a) = spec_terminate(s, SessionResult::Failed(FatalError::Write));
                (s2, plain(a))
            },
            _ => (s, plain(spec_pending(s))),
        },
        SessionState::Active(ActivePhase::AwaitLine) => match ev {
            EventModel::LineRead(line) => {
                if is_exit_line(line) {
                    let (s2, a) = spec_terminate(
                        s,
                        SessionResult::Completed(EndCause::ExitCommand),
                    );
                    (s2, plain(a))
                } else {
                    (s, plain(ActionModel::TransmitFrame(framed(line))))
                }
            },
            EventModel::Interrupted => {
                let (s2, a) = spec_terminate(s, SessionResult::Completed(EndCause::Interrupted));
                (s2, plain(a))
            },
            EventModel::EndOfInput => {
                let (s2, a) = spec_terminate(s, SessionResult::Completed(EndCause::EndOfInput));
                (s2, plain(a))
            },
            EventModel::EditorFailed => {
                let (s2, a) = spec_terminate(
                    s,
                    SessionResult::Completed(EndCause::EditorFailure),
                );
                (s2, plain(a))
            },
            EventModel::WriteFailed => {
                let (s2, a) = spec_terminate(s, SessionResult::Failed(FatalError::Write));
                (s2, plain(a))
            },
            _ => (s, plain(spec_pending(s))),
        },
        // Not started or already over: nothing changes. `step` is never
        // called here; `start` is the one entry from `Idle`.
        _ => (s, plain(spec_pending(s))),
    }
}

impl Session {
    /// A session that has not started yet.
    pub fn new(mode: Mode, desired: DeviceParameters, persistence: Persistence) -> (s: Session)
        ensures
            s == (Session {
                mode,
                desired,
                persistence,
                state: SessionState::Idle,
                in_effect: None::<DeviceParameters>,
            }),
    {
        Session {
            mode,
            desired,
            persistence,
            state: SessionState::Idle,
            in_effect: None,
        }
    }

    /// The session is running: started and not yet terminated.
    pub open spec fn in_progress(self) -> bool {
        self.state is Reconciling || self.state is Active
    }

    /// Begin the session. Reconciliation always comes first, so the first
    /// request is the initial parameter read.
    pub fn start(&mut self) -> (a: SessionAction)
        requires
            old(self).state == SessionState::Idle,
        ensures
            *final(self) == (Session {
                state: SessionState::Reconciling(ReconcilePhase::AwaitCurrent),
                ..*old(self)
            }),
            a == SessionAction::QueryParameters,
    {
        self.state = SessionState::Reconciling(ReconcilePhase::AwaitCurrent);
        SessionAction::QueryParameters
    }

    /// Re-issue the outstanding request of the current state.
    fn pending_action(&self) -> (a: SessionAction)
        ensures
            a@ == spec_pending(*self),
    {
        match self.state {
            SessionState::Idle => SessionAction::QueryParameters,
            SessionState::Reconciling(ReconcilePhase::AwaitCurrent) => {
                SessionAction::QueryParameters
            },
            SessionState::Reconciling(ReconcilePhase::AwaitCommitAck) => {
                SessionAction::CommitParameters(self.desired, self.persistence)
            },
            SessionState::Reconciling(ReconcilePhase::AwaitVerify) => {
                SessionAction::QueryParameters
            },
            SessionState::Active(ActivePhase::AwaitModel) => SessionAction::QueryModelInfo,
            SessionState::Active(ActivePhase::AwaitByte) => SessionAction::ReadByte,
            SessionState::Active(ActivePhase::AwaitLine) => SessionAction::ReadLine,
            SessionState::Terminated(r) => SessionAction::Halt(r),
        }
    }

    /// Leave reconciliation with `p` in effect and begin the selected mode.
    fn enter_active(&mut self, p: DeviceParameters) -> (a: SessionAction)
        ensures
            ({
                let (s2, m) = spec_enter_active(*old(self), p);
                *final(self) == s2 && a@ == m
            }),
    {
        self.in_effect = Some(p);
        match self.mode {
            Mode::ReadModelData => {
                self.state = SessionState::Active(ActivePhase::AwaitModel);
                SessionAction::QueryModelInfo
            },
            Mode::ReadParameters => {
                let res = SessionResult::Completed(EndCause::ParametersReported(p));
                self.state = SessionState::Terminated(res);
                SessionAction::Halt(res)
            },
            Mode::Listen => {
                self.state = SessionState::Active(ActivePhase::AwaitByte);
                SessionAction::ReadByte
            },
            Mode::Send => {
                self.state = SessionState::Active(ActivePhase::AwaitLine);
                SessionAction::ReadLine
            },
        }
    }

    /// Terminate with the given result.
    fn terminate(&mut self, res: SessionResult) -> (a: SessionAction)
        ensures
            ({
                let (s2, m) = spec_terminate(*old(self), res);
                *final(self) == s2 && a@ == m
            }),
    {
        self.state = SessionState::Terminated(res);
        SessionAction::Halt(res)
    }

    /// Consume the outcome of the outstanding request and return what to do
    /// next. The whole behaviour is [`spec_step`]'s transition table.
    pub fn step(&mut self, ev: SessionEvent) -> (r: SessionStep)
        requires
            old(self).in_progress(),
        ensures
            spec_step(*old(self), ev@) == (*final(self), r@),
    {
        let st = self.state;
        match st {
            SessionState::Reconciling(ReconcilePhase::AwaitCurrent) => match ev {
                SessionEvent::ParametersRead(p) => {
                    if p == self.desired {
                        let a = self.enter_active(p);
                        SessionStep { warning: None, action: a }
                    } else {
                        self.state = SessionState::Reconciling(ReconcilePhase::AwaitCommitAck);
                        SessionStep {
                            warning: None,
                            action: SessionAction::CommitParameters(self.desired, self.persistence),
                        }
                    }
                },
                SessionEvent::ReadFailed => {
                    let a = self.terminate(SessionResult::Failed(FatalError::Connection));
                    SessionStep { warning: None, action: a }
                },
                _ => SessionStep { warning: None, action: self.pending_action() },
            },
            SessionState::Reconciling(ReconcilePhase::AwaitCommitAck) => match ev {
                SessionEvent::CommitAck => {
                    self.state = SessionState::Reconciling(ReconcilePhase::AwaitVerify);
                    SessionStep { warning: None, action: SessionAction::QueryParameters }
                },
                SessionEvent::WriteFailed => {
                    let a = self.terminate(SessionResult::Failed(FatalError::Write));
                    SessionStep { warning: None, action: a }
                },
                _ => SessionStep { warning: None, action: self.pending_action() },
            },
            SessionState::Reconciling(ReconcilePhase::AwaitVerify) => match ev {
                SessionEvent::ParametersRead(actual) => {
                    if actual == self.desired {
                        let a = self.enter_active(actual);
                        SessionStep { warning: None, action: a }
                    } else {
                        let a = self.enter_active(actual);
                        SessionStep { warning: Some(actual), action: a }
                    }
                },
                SessionEvent::ReadFailed => {
                    let a = self.terminate(SessionResult::Failed(FatalError::Read));
                    SessionStep { warning: None, action: a }
                },
                _ => SessionStep { warning: None, action: self.pending_action() },
            },
            SessionState::Active(ActivePhase::AwaitModel) => match ev {
                SessionEvent::ModelRead(m) => {
                    let a = self.terminate(SessionResult::Completed(EndCause::ModelReported(m)));
                    SessionStep { warning: None, action: a }
                },
                SessionEvent::ReadFailed => {
                    let a = self.terminate(SessionResult::Failed(FatalError::Read));
                    SessionStep { warning: None, action: a }
                },
                _ => SessionStep { warning: None, action: self.pending_action() },
            },
            SessionState::Active(ActivePhase::AwaitByte) => match ev {
                SessionEvent::ByteRead(b) => {
                    SessionStep { warning: None, action: SessionAction::EchoByte(b) }
                },
                SessionEvent::Interrupted => {
                    let a = self.terminate(SessionResult::Completed(EndCause::Cancelled));
                    SessionStep { warning: None, action: a }
                },
                SessionEvent::ReadFailed => {
                    let a = self.terminate(SessionResult::Failed(FatalError::Read));
                    SessionStep { warning: None, action: a }
                },
                SessionEvent::WriteFailed => {
                    let a = self.terminate(SessionResult::Failed(FatalError::Write));
                    SessionStep { warning: None, action: a }
                },
                _ => SessionStep { warning: None, action: self.pending_action() },
            },
            SessionState::Active(ActivePhase::AwaitLine) => match ev {
                SessionEvent::LineRead(line) => {
                    if line_requests_exit(&line) {
                        let a = self.terminate(SessionResult::Completed(EndCause::ExitCommand));
                        SessionStep { warning: None, action: a }
                    } else {
                        let mut frame = line;
                        frame.push(10u8);
                        SessionStep { warning: None, action: SessionAction::TransmitFrame(frame) }
                    }
                },
                SessionEvent::Interrupted => {
                    let a = self.terminate(SessionResult::Completed(EndCause::Interrupted));
                    SessionStep { warning: None, action: a }
                },
                SessionEvent::EndOfInput => {
                    let a = self.terminate(SessionResult::Completed(EndCause::EndOfInput));
                    SessionStep { warning: None, action: a }
                },
                SessionEvent::EditorFailed => {
                    let a = self.terminate(SessionResult::Completed(EndCause::EditorFailure));
                    SessionStep { warning: None, action: a }
                },
                SessionEvent::WriteFailed => {
                    let a = self.terminate(SessionResult::Failed(FatalError::Write));
                    SessionStep { warning: None, action: a }
                },
                _ => SessionStep { warning: None, action: self.pending_action() },
            },
            _ => SessionStep { warning: None, action: self.pending_action() },
        }
    }
}

} // verus!
