use serial_worker::errors::PortError;
use serial_worker::session::{PortSession, ReadOutcome};
use serial_worker::worker::WorkerState;

#[test]
fn write_then_close_attempts_the_write_before_release() {
    let mut s = PortSession::open(None);
    assert!(s.write(vec![0xAA, 0xBB]).is_ok());
    assert!(s.close().is_ok());
    assert_eq!(s.device_writes, vec![vec![0xAA, 0xBB]]);
    assert_eq!(s.state, WorkerState::Stopped);
    assert!(s.closed);
}

#[test]
fn no_observer_invocation_after_close() {
    let mut s = PortSession::open(None);
    s.set_data_observer(1);
    s.set_error_observer(2);
    assert!(s.close().is_ok());
    s.inject_read(ReadOutcome::Data(vec![1, 2, 3]));
    s.inject_read(ReadOutcome::Failed);
    assert_eq!(s.data_dispatches.len(), 0);
    assert_eq!(s.error_dispatches.len(), 0);
}

#[test]
fn close_twice_is_safe_and_succeeds_both_times() {
    let mut s = PortSession::open(None);
    assert!(s.write(vec![1]).is_ok());
    assert!(s.close().is_ok());
    let writes_after_first = s.device_writes.clone();
    assert!(s.close().is_ok());
    assert_eq!(s.device_writes, writes_after_first);
    assert_eq!(s.state, WorkerState::Stopped);
    assert!(s.closed);
}

#[test]
fn timed_out_read_never_reaches_error_observer_nor_stops_worker() {
    let mut s = PortSession::open(None);
    s.set_error_observer(7);
    s.inject_read(ReadOutcome::TimedOut);
    s.inject_read(ReadOutcome::Empty);
    assert_eq!(s.error_dispatches.len(), 0);
    assert_eq!(s.state, WorkerState::Running);
    assert!(s.write(vec![1]).is_ok());
}

#[test]
fn other_read_failure_stops_worker_and_fires_error_observer_exactly_once() {
    let mut s = PortSession::open(None);
    s.set_error_observer(7);
    s.inject_read(ReadOutcome::Failed);
    assert_eq!(s.state, WorkerState::Stopped);
    assert_eq!(s.error_dispatches.len(), 1);
    assert_eq!(s.error_dispatches[0].observer, 7);
    assert_eq!(s.error_dispatches[0].error, PortError::ReadFailure);
    // a stopped worker dispatches nothing further
    s.inject_read(ReadOutcome::Failed);
    s.inject_read(ReadOutcome::Data(vec![1]));
    assert_eq!(s.error_dispatches.len(), 1);
    assert_eq!(s.data_dispatches.len(), 0);
    // and a later write reports the disconnected queue
    assert_eq!(s.write(vec![1]), Err(PortError::ChannelClosed));
}

#[test]
fn n_writes_then_close_attempts_all_in_order() {
    let mut s = PortSession::open(None);
    for i in 0..5u8 {
        assert!(s.write(vec![i, i + 1]).is_ok());
    }
    assert!(s.close().is_ok());
    assert_eq!(
        s.device_writes,
        vec![
            vec![0, 1],
            vec![1, 2],
            vec![2, 3],
            vec![3, 4],
            vec![4, 5]
        ]
    );
    assert_eq!(s.state, WorkerState::Stopped);
}

#[test]
fn replacing_data_observer_applies_to_next_dispatch() {
    let mut s = PortSession::open(None);
    s.set_data_observer(10);
    s.inject_read(ReadOutcome::Data(vec![1]));
    s.set_data_observer(20);
    s.inject_read(ReadOutcome::Data(vec![2]));
    assert_eq!(s.data_dispatches.len(), 2);
    assert_eq!(s.data_dispatches[0].observer, 10);
    assert_eq!(s.data_dispatches[0].data, vec![1]);
    assert_eq!(s.data_dispatches[1].observer, 20);
    assert_eq!(s.data_dispatches[1].data, vec![2]);
}

#[test]
fn data_without_observer_is_dropped_silently() {
    let mut s = PortSession::open(None);
    s.inject_read(ReadOutcome::Data(vec![1, 2]));
    assert_eq!(s.data_dispatches.len(), 0);
    assert_eq!(s.state, WorkerState::Running);
}

#[test]
fn zero_byte_read_is_not_dispatched() {
    let mut s = PortSession::open(None);
    s.set_data_observer(3);
    s.inject_read(ReadOutcome::Data(vec![]));
    assert_eq!(s.data_dispatches.len(), 0);
    assert_eq!(s.state, WorkerState::Running);
}

#[test]
fn write_failure_is_reported_and_worker_continues() {
    let mut s = PortSession::open(None);
    s.set_error_observer(4);
    s.inject_write_failure();
    assert_eq!(s.error_dispatches.len(), 1);
    assert_eq!(s.error_dispatches[0].error, PortError::WriteFailure);
    assert_eq!(s.state, WorkerState::Running);
    assert!(s.write(vec![1]).is_ok());
}

#[test]
fn cleared_data_observer_sees_nothing() {
    let mut s = PortSession::open(None);
    s.set_data_observer(1);
    s.inject_read(ReadOutcome::Data(vec![5]));
    s.clear_data_observer();
    s.inject_read(ReadOutcome::Data(vec![6]));
    assert_eq!(s.data_dispatches.len(), 1);
    assert_eq!(s.data_dispatches[0].data, vec![5]);
}

#[test]
fn open_resolves_settings_into_config() {
    let s = PortSession::open(None);
    assert_eq!(s.config.baud_rate, 115200);
    assert_eq!(s.config.timeout_ms, 10);
    assert_eq!(s.state, WorkerState::Running);
    assert!(!s.closed);
    assert!(s.device_writes.is_empty());
}
