use serial_worker::errors::PortError;
use serial_worker::types::Command;
use serial_worker::worker::{step, WorkerAction, WorkerEvent, WorkerState};

#[test]
fn running_write_command_goes_to_device() {
    let (next, action) = step(
        WorkerState::Running,
        WorkerEvent::CommandReceived(Command::Write(vec![1, 2, 3])),
    );
    assert_eq!(next, WorkerState::Running);
    assert!(matches!(action, WorkerAction::WriteDevice(d) if d == vec![1, 2, 3]));
}

#[test]
fn running_shutdown_command_drains() {
    let (next, action) = step(
        WorkerState::Running,
        WorkerEvent::CommandReceived(Command::Shutdown),
    );
    assert_eq!(next, WorkerState::Draining);
    assert!(matches!(action, WorkerAction::FlushDevice));
}

#[test]
fn running_channel_disconnect_drains() {
    let (next, action) = step(WorkerState::Running, WorkerEvent::ChannelDisconnected);
    assert_eq!(next, WorkerState::Draining);
    assert!(matches!(action, WorkerAction::FlushDevice));
}

#[test]
fn running_read_data_dispatches() {
    let (next, action) = step(WorkerState::Running, WorkerEvent::ReadReady(vec![9]));
    assert_eq!(next, WorkerState::Running);
    assert!(matches!(action, WorkerAction::DispatchData(d) if d == vec![9]));
}

#[test]
fn running_read_timeout_is_a_no_op() {
    let (next, action) = step(WorkerState::Running, WorkerEvent::ReadTimedOut);
    assert_eq!(next, WorkerState::Running);
    assert!(matches!(action, WorkerAction::Idle));
}

#[test]
fn running_read_empty_is_a_no_op() {
    let (next, action) = step(WorkerState::Running, WorkerEvent::ReadEmpty);
    assert_eq!(next, WorkerState::Running);
    assert!(matches!(action, WorkerAction::Idle));
}

#[test]
fn running_read_failure_is_fatal_and_reported() {
    let (next, action) = step(WorkerState::Running, WorkerEvent::ReadFailed);
    assert_eq!(next, WorkerState::Stopped);
    assert!(matches!(
        action,
        WorkerAction::DispatchError(PortError::ReadFailure)
    ));
}

#[test]
fn running_write_failure_is_reported_but_not_fatal() {
    let (next, action) = step(WorkerState::Running, WorkerEvent::WriteFailed);
    assert_eq!(next, WorkerState::Running);
    assert!(matches!(
        action,
        WorkerAction::DispatchError(PortError::WriteFailure)
    ));
}

#[test]
fn draining_stops_once_flushed() {
    let (next, action) = step(WorkerState::Draining, WorkerEvent::Flushed);
    assert_eq!(next, WorkerState::Stopped);
    assert!(matches!(action, WorkerAction::Idle));
}

#[test]
fn draining_ignores_other_events() {
    let (next, action) = step(WorkerState::Draining, WorkerEvent::ReadFailed);
    assert_eq!(next, WorkerState::Draining);
    assert!(matches!(action, WorkerAction::Idle));
}

#[test]
fn stopped_is_terminal() {
    let (next, action) = step(
        WorkerState::Stopped,
        WorkerEvent::CommandReceived(Command::Write(vec![1])),
    );
    assert_eq!(next, WorkerState::Stopped);
    assert!(matches!(action, WorkerAction::Idle));
    let (next, action) = step(WorkerState::Stopped, WorkerEvent::ReadFailed);
    assert_eq!(next, WorkerState::Stopped);
    assert!(matches!(action, WorkerAction::Idle));
}
