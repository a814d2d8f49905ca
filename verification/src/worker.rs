//! The device worker's state machine.
//!
//! The worker is the single owner of the open device. Its life is a loop:
//! observe one event — a command arriving, the command channel closing, or
//! the outcome of one timed read or one write attempt — and answer with the
//! next state and one action. [`step`] is that decision, made total and
//! pure; the loop around it performs the action (a device write, a flush, a
//! dispatch to an observer slot) and feeds the next event back in.
//!
//! States: `Running` (servicing commands and reads), `Draining` (shutdown
//! observed, finishing up), `Stopped` (terminal). A timed-out read is the
//! routine outcome of no data having arrived: it is not an error, changes
//! nothing, and must never reach the error observer. Any other read failure
//! is fatal: it is reported once and stops the worker. A write failure is
//! non-fatal: it is reported and the worker continues.

use vstd::prelude::*;

use crate::errors::PortError;
use crate::types::Command;

verus! {

/// The worker's lifecycle state.
#[derive(Clone, Copy, Debug, PartialEq, Eq, Structural)]
pub enum WorkerState {
    /// Servicing commands and timed reads.
    Running,
    /// Shutdown observed; finishing the in-flight work, then stopping.
    Draining,
    /// Terminal: the worker has exited and releases the device.
    Stopped,
}

/// One observation the worker reacts to.
#[derive(Clone, Debug)]
pub enum WorkerEvent {
    /// A command arrived on the queue.
    CommandReceived(Command),
    /// The command channel is closed: every sender was dropped.
    ChannelDisconnected,
    /// A timed read returned bytes.
    ReadReady(Vec<u8>),
    /// A timed read returned zero bytes: nothing arrived, not an error.
    ReadEmpty,
    /// A timed read ended in the platform's "timed out" result: the routine
    /// outcome of no data having arrived, not an error.
    ReadTimedOut,
    /// A timed read failed for any other reason: fatal.
    ReadFailed,
    /// A previously requested write attempt failed: non-fatal.
    WriteFailed,
    /// The drain of the device's output buffer is done.
    Flushed,
}

/// What the worker asks its surroundings to do next.
#[derive(Clone, Debug)]
pub enum WorkerAction {
    /// Nothing: go observe the next event.
    Idle,
    /// Write these bytes to the device, blocking, in full.
    WriteDevice(Vec<u8>),
    /// Deliver these bytes to the data observer slot.
    DispatchData(Vec<u8>),
    /// Deliver this failure to the error observer slot, without blocking.
    DispatchError(PortError),
    /// Best-effort flush of the device's output buffer.
    FlushDevice,
}

/// The transition relation of the worker, in full. `Stopped` is terminal:
/// no event moves the worker out of it or makes it act again.
pub open spec fn spec_step(state: WorkerState, event: WorkerEvent) -> (WorkerState, WorkerAction) {
    match state {
        WorkerState::Running => match event {
            WorkerEvent::CommandReceived(Command::Write(data)) => (
                WorkerState::Running,
                WorkerAction::WriteDevice(data),
            ),
            WorkerEvent::CommandReceived(Command::Shutdown) => (
                WorkerState::Draining,
                WorkerAction::FlushDevice,
            ),
            WorkerEvent::ChannelDisconnected => (WorkerState::Draining, WorkerAction::FlushDevice),
            WorkerEvent::ReadReady(data) => (WorkerState::Running, WorkerAction::DispatchData(data)),
            WorkerEvent::ReadEmpty => (WorkerState::Running, WorkerAction::Idle),
            WorkerEvent::ReadTimedOut => (WorkerState::Running, WorkerAction::Idle),
            WorkerEvent::ReadFailed => (
                WorkerState::Stopped,
                WorkerAction::DispatchError(PortError::ReadFailure),
            ),
            WorkerEvent::WriteFailed => (
                WorkerState::Running,
                WorkerAction::DispatchError(PortError::WriteFailure),
            ),
            WorkerEvent::Flushed => (WorkerState::Running, WorkerAction::Idle),
        },
        WorkerState::Draining => match event {
            WorkerEvent::Flushed => (WorkerState::Stopped, WorkerAction::Idle),
            _ => (WorkerState::Draining, WorkerAction::Idle),
        },
        WorkerState::Stopped => (WorkerState::Stopped, WorkerAction::Idle),
    }
}

/// One decision of the worker: from the current state and one observed
/// event to the next state and the action to perform.
pub fn step(state: WorkerState, event: WorkerEvent) -> (r: (WorkerState, WorkerAction))
    ensures
        r == spec_step(state, event),
{
    match state {
        WorkerState::Running => match event {
            WorkerEvent::CommandReceived(cmd) => match cmd {
                Command::Write(data) => (WorkerState::Running, WorkerAction::WriteDevice(data)),
                Command::Shutdown => (WorkerState::Draining, WorkerAction::FlushDevice),
            },
            WorkerEvent::ChannelDisconnected => (WorkerState::Draining, WorkerAction::FlushDevice),
            WorkerEvent::ReadReady(data) => (WorkerState::Running, WorkerAction::DispatchData(data)),
            WorkerEvent::ReadEmpty => (WorkerState::Running, WorkerAction::Idle),
            WorkerEvent::ReadTimedOut => (WorkerState::Running, WorkerAction::Idle),
            WorkerEvent::ReadFailed => (
                WorkerState::Stopped,
                WorkerAction::DispatchError(PortError::ReadFailure),
            ),
            WorkerEvent::WriteFailed => (
                WorkerState::Running,
                WorkerAction::DispatchError(PortError::WriteFailure),
            ),
            WorkerEvent::Flushed => (WorkerState::Running, WorkerAction::Idle),
        },
        WorkerState::Draining => match event {
            WorkerEvent::Flushed => (WorkerState::Stopped, WorkerAction::Idle),
            _ => (WorkerState::Draining, WorkerAction::Idle),
        },
        WorkerState::Stopped => (WorkerState::Stopped, WorkerAction::Idle),
    }
}

/// A timed-out read is routine: from `Running` it neither stops the worker
/// nor produces any action — in particular it never reaches the error
/// observer. A read that ends with zero bytes behaves the same way.
pub proof fn lemma_timeout_is_routine()
    ensures
        spec_step(WorkerState::Running, WorkerEvent::ReadTimedOut)
            == (WorkerState::Running, WorkerAction::Idle),
        spec_step(WorkerState::Running, WorkerEvent::ReadEmpty)
            == (WorkerState::Running, WorkerAction::Idle),
{
}

/// Any read failure other than the routine timeout is fatal: the worker
/// stops and reports the failure to the error observer slot — and, the
/// state being terminal, it reports it exactly once: no later event makes a
/// stopped worker act again.
pub proof fn lemma_read_failure_is_fatal_once(later: WorkerEvent)
    ensures
        spec_step(WorkerState::Running, WorkerEvent::ReadFailed)
            == (WorkerState::Stopped, WorkerAction::DispatchError(PortError::ReadFailure)),
        spec_step(WorkerState::Stopped, later) == (WorkerState::Stopped, WorkerAction::Idle),
{
}

/// A failed write attempt is non-fatal: it is reported to the error
/// observer slot and the worker keeps running.
pub proof fn lemma_write_failure_is_not_fatal()
    ensures
        spec_step(WorkerState::Running, WorkerEvent::WriteFailed)
            == (WorkerState::Running, WorkerAction::DispatchError(PortError::WriteFailure)),
{
}

/// Shutdown — a `Shutdown` command, or the command channel closing — moves a
/// running worker to `Draining` with a best-effort flush, and the flush's
/// completion is the only event that moves `Draining` to `Stopped`.
pub proof fn lemma_shutdown_drains_then_stops(other: WorkerEvent)
    requires
        !(other matches WorkerEvent::Flushed),
    ensures
        spec_step(WorkerState::Running, WorkerEvent::CommandReceived(Command::Shutdown))
            == (WorkerState::Draining, WorkerAction::FlushDevice),
        spec_step(WorkerState::Running, WorkerEvent::ChannelDisconnected)
            == (WorkerState::Draining, WorkerAction::FlushDevice),
        spec_step(WorkerState::Draining, WorkerEvent::Flushed)
            == (WorkerState::Stopped, WorkerAction::Idle),
        spec_step(WorkerState::Draining, other).0 == WorkerState::Draining,
{
}

} // verus!
