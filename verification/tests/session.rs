use ebyte_e32_ui::params::{
    AirBaudRate, BaudRate, DeviceParameters, ForwardErrorCorrectionMode, IoDriveMode, ModelInfo,
    Parity, Persistence, TransmissionMode, TransmissionPower, WakeupTime,
};
use ebyte_e32_ui::session::{
    EndCause, FatalError, Mode, Session, SessionAction, SessionEvent, SessionResult,
};

/// A parameter set with the given channel, air rate and UART rate; the
/// remaining fields sit at the module's defaults.
fn params(channel: u8, air_rate: AirBaudRate, uart_rate: BaudRate) -> DeviceParameters {
    DeviceParameters {
        address: 0,
        channel,
        uart_parity: Parity::default(),
        uart_rate,
        air_rate,
        transmission_mode: TransmissionMode::default(),
        io_drive_mode: IoDriveMode::default(),
        wakeup_time: WakeupTime::default(),
        fec: ForwardErrorCorrectionMode::default(),
        transmission_power: TransmissionPower::default(),
    }
}

fn default_params(channel: u8) -> DeviceParameters {
    params(channel, AirBaudRate::default(), BaudRate::default())
}

/// Start a session and drive it through a reconciliation in which the
/// module already holds the desired parameters, so it enters its mode
/// directly. Returns the mode's first action.
fn start_active(session: &mut Session) -> SessionAction {
    let first = session.start();
    assert_eq!(first, SessionAction::QueryParameters);
    let step = session.step(SessionEvent::ParametersRead(session.desired));
    assert_eq!(step.warning, None);
    step.action
}

#[test]
fn reconcile_skips_commit_when_parameters_match() {
    let desired = default_params(5);
    let mut session = Session::new(Mode::Listen, desired, Persistence::Temporary);
    let action = start_active(&mut session);
    // Straight into listening: no commit was ever requested.
    assert_eq!(action, SessionAction::ReadByte);
}

#[test]
fn reconcile_commits_differing_parameters_once() {
    // Scenario: desired channel 23, 300 bps air rate, 9600 bps UART rate;
    // the device currently holds channel 1.
    let desired = params(23, AirBaudRate::Bps300, BaudRate::Bps9600);
    let current = params(1, AirBaudRate::Bps300, BaudRate::Bps9600);
    let mut session = Session::new(Mode::Listen, desired, Persistence::Temporary);

    assert_eq!(session.start(), SessionAction::QueryParameters);
    let step = session.step(SessionEvent::ParametersRead(current));
    assert_eq!(step.warning, None);
    assert_eq!(
        step.action,
        SessionAction::CommitParameters(desired, Persistence::Temporary)
    );

    // Exactly one re-read follows the commit.
    let step = session.step(SessionEvent::CommitAck);
    assert_eq!(step.warning, None);
    assert_eq!(step.action, SessionAction::QueryParameters);

    // The re-read equals the desired set: no warning, the mode begins.
    let step = session.step(SessionEvent::ParametersRead(desired));
    assert_eq!(step.warning, None);
    assert_eq!(step.action, SessionAction::ReadByte);
}

#[test]
fn reconcile_mismatch_warns_once_and_continues() {
    let desired = default_params(23);
    let current = default_params(1);
    let actual = default_params(7);
    let mut session = Session::new(Mode::ReadParameters, desired, Persistence::Permanent);

    session.start();
    let step = session.step(SessionEvent::ParametersRead(current));
    assert_eq!(
        step.action,
        SessionAction::CommitParameters(desired, Persistence::Permanent)
    );
    let step = session.step(SessionEvent::CommitAck);
    assert_eq!(step.action, SessionAction::QueryParameters);

    // The post-commit read differs: one warning with the differing value,
    // and the session still reaches its mode with those parameters.
    let step = session.step(SessionEvent::ParametersRead(actual));
    assert_eq!(step.warning, Some(actual));
    assert_eq!(
        step.action,
        SessionAction::Halt(SessionResult::Completed(EndCause::ParametersReported(
            actual
        )))
    );
}

#[test]
fn send_session_transmits_lines_and_exits() {
    // Scenario: the operator enters "hello", then "exit".
    let desired = default_params(23);
    let mut session = Session::new(Mode::Send, desired, Persistence::Temporary);
    let action = start_active(&mut session);
    assert_eq!(action, SessionAction::ReadLine);

    let step = session.step(SessionEvent::LineRead(b"hello".to_vec()));
    assert_eq!(step.warning, None);
    assert_eq!(
        step.action,
        SessionAction::TransmitFrame(vec![b'h', b'e', b'l', b'l', b'o', b'\n'])
    );

    let step = session.step(SessionEvent::LineRead(b"exit".to_vec()));
    assert_eq!(
        step.action,
        SessionAction::Halt(SessionResult::Completed(EndCause::ExitCommand))
    );
}

#[test]
fn send_frame_is_line_plus_newline() {
    let desired = default_params(2);
    let mut session = Session::new(Mode::Send, desired, Persistence::Temporary);
    start_active(&mut session);
    let line = b"a message".to_vec();
    let step = session.step(SessionEvent::LineRead(line.clone()));
    match step.action {
        SessionAction::TransmitFrame(frame) => {
            assert_eq!(frame.len(), line.len() + 1);
            assert_eq!(&frame[..line.len()], &line[..]);
            assert_eq!(frame[line.len()], b'\n');
        }
        other => panic!("expected a frame, got {other:?}"),
    }
}

#[test]
fn send_empty_line_transmits_only_newline() {
    let desired = default_params(2);
    let mut session = Session::new(Mode::Send, desired, Persistence::Temporary);
    start_active(&mut session);
    let step = session.step(SessionEvent::LineRead(Vec::new()));
    assert_eq!(step.action, SessionAction::TransmitFrame(vec![b'\n']));
}

#[test]
fn send_quit_transmits_nothing() {
    let desired = default_params(23);
    let mut session = Session::new(Mode::Send, desired, Persistence::Temporary);
    start_active(&mut session);
    let step = session.step(SessionEvent::LineRead(b"quit".to_vec()));
    assert_eq!(step.warning, None);
    assert_eq!(
        step.action,
        SessionAction::Halt(SessionResult::Completed(EndCause::ExitCommand))
    );
}

#[test]
fn send_exit_is_exact_and_case_sensitive() {
    let desired = default_params(23);
    let mut session = Session::new(Mode::Send, desired, Persistence::Temporary);
    start_active(&mut session);
    // A near miss is an ordinary line and is transmitted.
    let step = session.step(SessionEvent::LineRead(b"Exit".to_vec()));
    assert_eq!(
        step.action,
        SessionAction::TransmitFrame(vec![b'E', b'x', b'i', b't', b'\n'])
    );
    let step = session.step(SessionEvent::LineRead(b"exit ".to_vec()));
    assert!(matches!(step.action, SessionAction::TransmitFrame(_)));
}

#[test]
fn send_interrupt_and_end_of_input_end_cleanly() {
    let desired = default_params(23);

    let mut session = Session::new(Mode::Send, desired, Persistence::Temporary);
    start_active(&mut session);
    let step = session.step(SessionEvent::Interrupted);
    assert_eq!(
        step.action,
        SessionAction::Halt(SessionResult::Completed(EndCause::Interrupted))
    );

    let mut session = Session::new(Mode::Send, desired, Persistence::Temporary);
    start_active(&mut session);
    let step = session.step(SessionEvent::EndOfInput);
    assert_eq!(
        step.action,
        SessionAction::Halt(SessionResult::Completed(EndCause::EndOfInput))
    );

    let mut session = Session::new(Mode::Send, desired, Persistence::Temporary);
    start_active(&mut session);
    let step = session.step(SessionEvent::EditorFailed);
    assert_eq!(
        step.action,
        SessionAction::Halt(SessionResult::Completed(EndCause::EditorFailure))
    );
}

#[test]
fn send_write_failure_is_fatal() {
    let desired = default_params(23);
    let mut session = Session::new(Mode::Send, desired, Persistence::Temporary);
    start_active(&mut session);
    let step = session.step(SessionEvent::WriteFailed);
    assert_eq!(
        step.action,
        SessionAction::Halt(SessionResult::Failed(FatalError::Write))
    );
}

#[test]
fn listen_echoes_bytes_in_order_until_cancelled() {
    // Scenario: the driver delivers 0x41 and 0x42, then an interrupt
    // cancels the session.
    let desired = default_params(23);
    let mut session = Session::new(Mode::Listen, desired, Persistence::Temporary);
    let action = start_active(&mut session);
    assert_eq!(action, SessionAction::ReadByte);

    let step = session.step(SessionEvent::ByteRead(0x41));
    assert_eq!(step.action, SessionAction::EchoByte(0x41));
    let step = session.step(SessionEvent::ByteRead(0x42));
    assert_eq!(step.action, SessionAction::EchoByte(0x42));

    let step = session.step(SessionEvent::Interrupted);
    assert_eq!(
        step.action,
        SessionAction::Halt(SessionResult::Completed(EndCause::Cancelled))
    );
}

#[test]
fn listen_read_failure_is_fatal() {
    let desired = default_params(23);
    let mut session = Session::new(Mode::Listen, desired, Persistence::Temporary);
    start_active(&mut session);
    let step = session.step(SessionEvent::ReadFailed);
    assert_eq!(
        step.action,
        SessionAction::Halt(SessionResult::Failed(FatalError::Read))
    );
}

#[test]
fn initial_read_failure_aborts_before_any_mode() {
    let desired = default_params(23);
    let mut session = Session::new(Mode::Send, desired, Persistence::Temporary);
    session.start();
    let step = session.step(SessionEvent::ReadFailed);
    assert_eq!(
        step.action,
        SessionAction::Halt(SessionResult::Failed(FatalError::Connection))
    );
}

#[test]
fn commit_write_failure_is_fatal() {
    let desired = default_params(23);
    let current = default_params(1);
    let mut session = Session::new(Mode::Send, desired, Persistence::Temporary);
    session.start();
    session.step(SessionEvent::ParametersRead(current));
    let step = session.step(SessionEvent::WriteFailed);
    assert_eq!(
        step.action,
        SessionAction::Halt(SessionResult::Failed(FatalError::Write))
    );
}

#[test]
fn verification_read_failure_is_fatal() {
    let desired = default_params(23);
    let current = default_params(1);
    let mut session = Session::new(Mode::Send, desired, Persistence::Temporary);
    session.start();
    session.step(SessionEvent::ParametersRead(current));
    session.step(SessionEvent::CommitAck);
    let step = session.step(SessionEvent::ReadFailed);
    assert_eq!(
        step.action,
        SessionAction::Halt(SessionResult::Failed(FatalError::Read))
    );
}

#[test]
fn read_model_data_mode_reports_and_finishes() {
    let desired = default_params(23);
    let mut session = Session::new(Mode::ReadModelData, desired, Persistence::Temporary);
    let action = start_active(&mut session);
    assert_eq!(action, SessionAction::QueryModelInfo);
    let info = ModelInfo {
        model: 0x45,
        version: 0x0D,
        features: 0x14,
    };
    let step = session.step(SessionEvent::ModelRead(info));
    assert_eq!(
        step.action,
        SessionAction::Halt(SessionResult::Completed(EndCause::ModelReported(info)))
    );
}

#[test]
fn read_parameters_mode_reports_reconciled_set() {
    let desired = default_params(23);
    let mut session = Session::new(Mode::ReadParameters, desired, Persistence::Temporary);
    let first = session.start();
    assert_eq!(first, SessionAction::QueryParameters);
    let step = session.step(SessionEvent::ParametersRead(desired));
    assert_eq!(step.warning, None);
    assert_eq!(
        step.action,
        SessionAction::Halt(SessionResult::Completed(EndCause::ParametersReported(
            desired
        )))
    );
}

#[test]
fn defaults_match_the_module() {
    assert_eq!(Parity::default(), Parity::NoParity);
    assert_eq!(BaudRate::default(), BaudRate::Bps9600);
    assert_eq!(AirBaudRate::default(), AirBaudRate::Bps2400);
    assert_eq!(TransmissionMode::default(), TransmissionMode::Transparent);
    assert_eq!(IoDriveMode::default(), IoDriveMode::PushPull);
    assert_eq!(WakeupTime::default(), WakeupTime::Ms250);
    assert_eq!(
        ForwardErrorCorrectionMode::default(),
        ForwardErrorCorrectionMode::On
    );
    assert_eq!(TransmissionPower::default(), TransmissionPower::Dbm30);
    assert_eq!(Persistence::default(), Persistence::Temporary);
}
