//! A whole open-port lifetime, as one verified state machine.
//!
//! `PortSession` is the sequential model of everything that happens to one
//! open port: the caller-facing facade (`write`, `close`, observer
//! registration), the unbounded command queue between the facade and the
//! worker, the worker itself — driven through [`crate::worker::step`] — and
//! the device, reduced to the record of the write attempts made at it. Read
//! outcomes, which on a real device arrive by themselves, are injected
//! ([`PortSession::inject_read`]); every dispatch the worker would make to
//! an observer callback is recorded instead of invoked.
//!
//! The threaded runtime around the library mirrors this model: its loops
//! make the same decisions through the same `step` function, and perform as
//! real I/O what the model records.

use vstd::prelude::*;

use crate::errors::PortError;
use crate::observers::ObserverSlot;
use crate::settings::{resolve_settings, spec_resolve, ResolvedSettings};
use crate::types::{Command, PortSettings};
use crate::worker::{step, WorkerAction, WorkerEvent, WorkerState};

verus! {

/// One recorded invocation of the data observer: the callback token fetched
/// at the dispatch's read point, and the bytes delivered to it.
#[derive(Clone, Debug)]
pub struct DataDispatch {
    pub observer: u64,
    pub data: Vec<u8>,
}

/// One recorded invocation of the error observer.
#[derive(Clone, Copy, Debug, PartialEq, Eq, Structural)]
pub struct ErrorDispatch {
    pub observer: u64,
    pub error: PortError,
}

/// The outcome of one timed read attempt at the device.
#[derive(Clone, Debug)]
pub enum ReadOutcome {
    /// The read returned these bytes (possibly none).
    Data(Vec<u8>),
    /// The read returned zero bytes: nothing arrived, not an error.
    Empty,
    /// The platform's "timed out" result: the routine outcome of no data
    /// having arrived, not an error.
    TimedOut,
    /// Any other failure: fatal to the worker.
    Failed,
}

/// The state of one open port: facade, queue, worker and device record.
pub struct PortSession {
    /// The fully-resolved configuration the port was opened with.
    pub config: ResolvedSettings,
    /// The worker's lifecycle state.
    pub state: WorkerState,
    /// Commands sent by the facade and not yet serviced by the worker.
    pub queue: Vec<Command>,
    /// The replaceable data-observer slot.
    pub data_slot: ObserverSlot,
    /// The replaceable error-observer slot.
    pub error_slot: ObserverSlot,
    /// Every payload attempted at the device, in order of attempt.
    pub device_writes: Vec<Vec<u8>>,
    /// Every data-observer invocation, in dispatch order.
    pub data_dispatches: Vec<DataDispatch>,
    /// Every error-observer invocation, in dispatch order.
    pub error_dispatches: Vec<ErrorDispatch>,
    /// Whether `close` has completed at least once.
    pub closed: bool,
}

/// The payloads of a queue of write commands, in queue order.
pub open spec fn spec_payloads(queue: Seq<Command>) -> Seq<Seq<u8>> {
    queue.map_values(|c: Command| c.payload())
}

impl PortSession {
    /// The byte sequences attempted at the device, in order of attempt.
    pub open spec fn attempts(self) -> Seq<Seq<u8>> {
        self.device_writes@.map_values(|v: Vec<u8>| v@)
    }
}

impl PortSession {
    /// Well-formedness, established by `open` and preserved by every
    /// operation: the queue holds write commands only (shutdown is the
    /// `close` call itself), the worker is never left mid-drain, and a
    /// closed port has a stopped worker, an empty queue and no data
    /// observer left to invoke.
    pub open spec fn wf(self) -> bool {
        &&& forall|i: int| 0 <= i < self.queue@.len() ==> (#[trigger] self.queue@[i]).is_write()
        &&& self.state != WorkerState::Draining
        &&& self.closed ==> self.state == WorkerState::Stopped
        &&& self.closed ==> self.queue@.len() == 0
        &&& self.closed ==> self.data_slot.occupant() is None
    }

    /// Whether the facade still accepts work: the worker is running (a
    /// closed port's worker is stopped, so this excludes closed ports too).
    pub open spec fn accepting(self) -> bool {
        self.state == WorkerState::Running
    }

    /// Open a port: resolve the settings and start with a running worker,
    /// an empty queue, empty observer slots and an untouched device.
    pub fn open(settings: Option<PortSettings>) -> (s: PortSession)
        ensures
            s.wf(),
            s.config == spec_resolve(settings),
            s.state == WorkerState::Running,
            !s.closed,
            s.queue@.len() == 0,
            s.data_slot.occupant() is None,
            s.error_slot.occupant() is None,
            s.device_writes@.len() == 0,
            s.data_dispatches@.len() == 0,
            s.error_dispatches@.len() == 0,
    {
        PortSession {
            config: resolve_settings(settings),
            state: WorkerState::Running,
            queue: Vec::new(),
            data_slot: ObserverSlot::empty(),
            error_slot: ObserverSlot::empty(),
            device_writes: Vec::new(),
            data_dispatches: Vec::new(),
            error_dispatches: Vec::new(),
            closed: false,
        }
    }
}

/// Everything but the queue is unchanged from `pre` to `post`.
pub open spec fn spec_same_but_queue(pre: PortSession, post: PortSession) -> bool {
    &&& post.config == pre.config
    &&& post.state == pre.state
    &&& post.data_slot == pre.data_slot
    &&& post.error_slot == pre.error_slot
    &&& post.device_writes@ == pre.device_writes@
    &&& post.data_dispatches@ == pre.data_dispatches@
    &&& post.error_dispatches@ == pre.error_dispatches@
    &&& post.closed == pre.closed
}

/// What `write` does: on a running worker it appends one write command
/// carrying `data` to the queue and succeeds; on a stopped worker the queue
/// is disconnected, nothing changes and the caller gets `ChannelClosed`.
/// Success promises only the enqueue, never that the bytes reached the
/// device: delivery is asynchronous.
pub open spec fn spec_write(
    pre: PortSession,
    post: PortSession,
    data: Seq<u8>,
    r: Result<(), PortError>,
) -> bool {
    if pre.accepting() {
        &&& r is Ok
        &&& spec_same_but_queue(pre, post)
        &&& post.queue@.len() == pre.queue@.len() + 1
        &&& post.queue@.subrange(0, pre.queue@.len() as int) == pre.queue@
        &&& post.queue@.last().is_write()
        &&& post.queue@.last().payload() == data
    } else {
        &&& r == Result::<(), PortError>::Err(PortError::ChannelClosed)
        &&& post == pre
    }
}

/// What `close` does. Always: it succeeds, and it leaves the port closed —
/// worker stopped, queue empty, data observer cleared, nothing dispatched
/// by the close itself and the error observer slot untouched. On a running
/// worker it first services every queued write command in order, so each
/// queued payload is attempted at the device before the device is released;
/// on an already-closed port it is a no-op; on a port whose worker already
/// stopped on its own there is no one left to write, and the device record
/// is unchanged.
pub open spec fn spec_close(pre: PortSession, post: PortSession, r: Result<(), PortError>) -> bool {
    &&& r is Ok
    &&& post.closed
    &&& post.state == WorkerState::Stopped
    &&& post.queue@.len() == 0
    &&& post.data_slot.occupant() is None
    &&& post.config == pre.config
    &&& post.error_slot == pre.error_slot
    &&& post.data_dispatches@ == pre.data_dispatches@
    &&& post.error_dispatches@ == pre.error_dispatches@
    &&& if pre.closed {
        post == pre
    } else if pre.state == WorkerState::Running {
        post.attempts() == pre.attempts() + spec_payloads(pre.queue@)
    } else {
        post.device_writes@ == pre.device_writes@
    }
}

/// The data-observer slot now holds `token`; everything else is unchanged.
pub open spec fn spec_set_data_observer(pre: PortSession, post: PortSession, token: u64) -> bool {
    &&& post.data_slot.occupant() == Some(token)
    &&& spec_same_but_data_slot(pre, post)
}

/// The data-observer slot is now empty; everything else is unchanged.
pub open spec fn spec_clear_data_observer(pre: PortSession, post: PortSession) -> bool {
    &&& post.data_slot.occupant() is None
    &&& spec_same_but_data_slot(pre, post)
}

/// Everything but the data-observer slot is unchanged from `pre` to `post`.
pub open spec fn spec_same_but_data_slot(pre: PortSession, post: PortSession) -> bool {
    &&& post.config == pre.config
    &&& post.state == pre.state
    &&& post.queue@ == pre.queue@
    &&& post.error_slot == pre.error_slot
    &&& post.device_writes@ == pre.device_writes@
    &&& post.data_dispatches@ == pre.data_dispatches@
    &&& post.error_dispatches@ == pre.error_dispatches@
    &&& post.closed == pre.closed
}

/// Everything but the error-observer slot is unchanged from `pre` to `post`.
pub open spec fn spec_same_but_error_slot(pre: PortSession, post: PortSession) -> bool {
    &&& post.config == pre.config
    &&& post.state == pre.state
    &&& post.queue@ == pre.queue@
    &&& post.data_slot == pre.data_slot
    &&& post.device_writes@ == pre.device_writes@
    &&& post.data_dispatches@ == pre.data_dispatches@
    &&& post.error_dispatches@ == pre.error_dispatches@
    &&& post.closed == pre.closed
}

/// What injecting one read outcome does. A worker that is not running
/// ignores the device entirely: nothing changes, and in particular no
/// observer is invoked — this is what makes a closed port silent. A running
/// worker: delivers non-empty data to the data observer fetched at the
/// dispatch's read point, if one is installed, and keeps running; treats
/// empty and timed-out reads as routine no-ops; and on any other read
/// failure stops, reporting `ReadFailure` to the error observer fetched the
/// same way, if one is installed.
pub open spec fn spec_inject(pre: PortSession, post: PortSession, outcome: ReadOutcome) -> bool {
    if pre.state != WorkerState::Running {
        post == pre
    } else {
        &&& post.config == pre.config
        &&& post.queue@ == pre.queue@
        &&& post.data_slot == pre.data_slot
        &&& post.error_slot == pre.error_slot
        &&& post.device_writes@ == pre.device_writes@
        &&& post.closed == pre.closed
        &&& match outcome {
            ReadOutcome::Data(d) => {
                &&& post.state == WorkerState::Running
                &&& post.error_dispatches@ == pre.error_dispatches@
                &&& if d@.len() > 0 && pre.data_slot.occupant() is Some {
                    &&& post.data_dispatches@.len() == pre.data_dispatches@.len() + 1
                    &&& post.data_dispatches@.subrange(0, pre.data_dispatches@.len() as int)
                        == pre.data_dispatches@
                    &&& post.data_dispatches@.last().observer == pre.data_slot.occupant()->0
                    &&& post.data_dispatches@.last().data@ == d@
                } else {
                    post.data_dispatches@ == pre.data_dispatches@
                }
            },
            ReadOutcome::Empty => post == pre,
            ReadOutcome::TimedOut => post == pre,
            ReadOutcome::Failed => {
                &&& post.state == WorkerState::Stopped
                &&& post.data_dispatches@ == pre.data_dispatches@
                &&& if pre.error_slot.occupant() is Some {
                    &&& post.error_dispatches@.len() == pre.error_dispatches@.len() + 1
                    &&& post.error_dispatches@.subrange(0, pre.error_dispatches@.len() as int)
                        == pre.error_dispatches@
                    &&& post.error_dispatches@.last() == (ErrorDispatch {
                        observer: pre.error_slot.occupant()->0,
                        error: PortError::ReadFailure,
                    })
                } else {
                    post.error_dispatches@ == pre.error_dispatches@
                }
            },
        }
    }
}

/// What one failed write attempt at the device does: on a running worker it
/// is reported to the error observer fetched at the read point, if one is
/// installed, and the worker keeps running; otherwise nothing changes.
pub open spec fn spec_inject_write_failure(pre: PortSession, post: PortSession) -> bool {
    if pre.state != WorkerState::Running {
        post == pre
    } else {
        &&& post.config == pre.config
        &&& post.state == WorkerState::Running
        &&& post.queue@ == pre.queue@
        &&& post.data_slot == pre.data_slot
        &&& post.error_slot == pre.error_slot
        &&& post.device_writes@ == pre.device_writes@
        &&& post.data_dispatches@ == pre.data_dispatches@
        &&& post.closed == pre.closed
        &&& if pre.error_slot.occupant() is Some {
            &&& post.error_dispatches@.len() == pre.error_dispatches@.len() + 1
            &&& post.error_dispatches@.subrange(0, pre.error_dispatches@.len() as int)
                == pre.error_dispatches@
            &&& post.error_dispatches@.last() == (ErrorDispatch {
                observer: pre.error_slot.occupant()->0,
                error: PortError::WriteFailure,
            })
        } else {
            post.error_dispatches@ == pre.error_dispatches@
        }
    }
}

impl PortSession {
    /// Install the data observer; takes effect for the next dispatch.
    pub fn set_data_observer(&mut self, token: u64)
        requires
            old(self).wf(),
            !old(self).closed,
        ensures
            final(self).wf(),
            spec_set_data_observer(*old(self), *final(self), token),
    {
        self.data_slot.install(token);
    }

    /// Clear the data observer; later dispatches find no callback.
    pub fn clear_data_observer(&mut self)
        requires
            old(self).wf(),
        ensures
            final(self).wf(),
            spec_clear_data_observer(*old(self), *final(self)),
    {
        self.data_slot.clear();
    }

    /// Install the error observer; takes effect for the next dispatch.
    pub fn set_error_observer(&mut self, token: u64)
        requires
            old(self).wf(),
        ensures
            final(self).wf(),
            final(self).error_slot.occupant() == Some(token),
            spec_same_but_error_slot(*old(self), *final(self)),
    {
        self.error_slot.install(token);
    }

    /// Clear the error observer.
    pub fn clear_error_observer(&mut self)
        requires
            old(self).wf(),
        ensures
            final(self).wf(),
            final(self).error_slot.occupant() is None,
            spec_same_but_error_slot(*old(self), *final(self)),
    {
        self.error_slot.clear();
    }

    /// Enqueue one write command. Returns at once: success means the bytes
    /// are queued in send order, not that they reached the device. Fails
    /// with `ChannelClosed` exactly when the worker has stopped.
    pub fn write(&mut self, data: Vec<u8>) -> (r: Result<(), PortError>)
        requires
            old(self).wf(),
        ensures
            final(self).wf(),
            spec_write(*old(self), *final(self), data@, r),
    {
        if self.state == WorkerState::Running {
            let ghost pre_queue = self.queue@;
            self.queue.push(Command::Write(data));
            proof {
                assert(self.queue@.subrange(0, pre_queue.len() as int) =~= pre_queue);
            }
            Result::Ok(())
        } else {
            Result::Err(PortError::ChannelClosed)
        }
    }

    /// Idempotent teardown. Clears the data observer first, so no further
    /// data dispatch can start; then, if the worker is running, services
    /// every queued write command in order through the worker's transition
    /// function, lets it drain and stop, and releases the device. A second
    /// call finds the port closed and does nothing. Always succeeds.
    pub fn close(&mut self) -> (r: Result<(), PortError>)
        requires
            old(self).wf(),
        ensures
            final(self).wf(),
            spec_close(*old(self), *final(self), r),
    {
        if self.closed {
            return Result::Ok(());
        }
        // No further data callback can start once the slot is cleared.
        self.data_slot.clear();
        if self.state == WorkerState::Running {
            let ghost orig = self.queue@;
            let ghost pre_attempts = self.attempts();
            let total: usize = self.queue.len();
            let mut serviced: usize = 0;
            while self.queue.len() > 0
                invariant
                    total == orig.len(),
                    serviced <= total,
                    self.queue@ =~= orig.skip(serviced as int),
                    forall|i: int| 0 <= i < orig.len() ==> (#[trigger] orig[i]).is_write(),
                    self.state == WorkerState::Running,
                    self.attempts() =~= pre_attempts + spec_payloads(orig.take(serviced as int)),
                    self.config == old(self).config,
                    self.error_slot == old(self).error_slot,
                    self.data_dispatches@ == old(self).data_dispatches@,
                    self.error_dispatches@ == old(self).error_dispatches@,
                    self.closed == old(self).closed,
                    self.data_slot.occupant() is None,
                decreases self.queue.len(),
            {
                proof {
                    assert(serviced < total);
                }
                let cmd = self.queue.remove(0);
                proof {
                    assert(cmd == orig[serviced as int]);
                    assert(self.queue@ =~= orig.skip(serviced as int + 1));
                }
                let ghost pre_dev = self.attempts();
                let (next, action) = step(self.state, WorkerEvent::CommandReceived(cmd));
                self.state = next;
                match action {
                    WorkerAction::WriteDevice(data) => {
                        proof {
                            assert(data@ == orig[serviced as int].payload());
                        }
                        self.device_writes.push(data);
                        proof {
                            assert(self.attempts() =~= pre_dev.push(data@));
                        }
                    },
                    _ => {},
                }
                proof {
                    assert(spec_payloads(orig.take(serviced as int + 1)) =~= spec_payloads(
                        orig.take(serviced as int),
                    ).push(orig[serviced as int].payload()));
                    assert(self.attempts() =~= pre_attempts + spec_payloads(
                        orig.take(serviced as int + 1),
                    ));
                }
                serviced = serviced + 1;
            }
            proof {
                assert(orig.take(serviced as int) =~= orig);
            }
            // The facade's shutdown: the command channel closes, the worker
            // drains the device's output buffer and stops.
            let (next, _flush) = step(self.state, WorkerEvent::ChannelDisconnected);
            self.state = next;
            let (stopped, _idle) = step(self.state, WorkerEvent::Flushed);
            self.state = stopped;
        } else {
            // The worker already stopped on its own; there is no one left
            // to service what is still queued.
            self.queue.clear();
        }
        self.closed = true;
        Result::Ok(())
    }

    /// Let the worker observe one read outcome at the device, dispatching
    /// to the observer slots as the worker's transition function directs.
    /// A worker that is not running ignores it entirely.
    pub fn inject_read(&mut self, outcome: ReadOutcome)
        requires
            old(self).wf(),
        ensures
            final(self).wf(),
            spec_inject(*old(self), *final(self), outcome),
    {
        if !(self.state == WorkerState::Running) {
            return;
        }
        let event = match outcome {
            ReadOutcome::Data(d) => {
                if d.len() == 0 {
                    WorkerEvent::ReadEmpty
                } else {
                    WorkerEvent::ReadReady(d)
                }
            },
            ReadOutcome::Empty => WorkerEvent::ReadEmpty,
            ReadOutcome::TimedOut => WorkerEvent::ReadTimedOut,
            ReadOutcome::Failed => WorkerEvent::ReadFailed,
        };
        let (next, action) = step(self.state, event);
        self.state = next;
        match action {
            WorkerAction::DispatchData(data) => {
                // Read point: the dispatch keeps the occupant fetched here,
                // whatever happens to the slot afterwards.
                let fetched = self.data_slot.fetch();
                match fetched {
                    Option::Some(token) => {
                        let ghost pre_log = self.data_dispatches@;
                        self.data_dispatches.push(DataDispatch { observer: token, data });
                        proof {
                            assert(self.data_dispatches@.subrange(0, pre_log.len() as int)
                                =~= pre_log);
                        }
                    },
                    Option::None => {},
                }
            },
            WorkerAction::DispatchError(err) => {
                let fetched = self.error_slot.fetch();
                match fetched {
                    Option::Some(token) => {
                        let ghost pre_log = self.error_dispatches@;
                        self.error_dispatches.push(ErrorDispatch { observer: token, error: err });
                        proof {
                            assert(self.error_dispatches@.subrange(0, pre_log.len() as int)
                                =~= pre_log);
                        }
                    },
                    Option::None => {},
                }
            },
            _ => {},
        }
    }

    /// Let the worker observe that one write attempt at the device failed:
    /// reported to the error observer, non-fatal, the worker keeps running.
    pub fn inject_write_failure(&mut self)
        requires
            old(self).wf(),
        ensures
            final(self).wf(),
            spec_inject_write_failure(*old(self), *final(self)),
    {
        if !(self.state == WorkerState::Running) {
            return;
        }
        let (next, action) = step(self.state, WorkerEvent::WriteFailed);
        self.state = next;
        match action {
            WorkerAction::DispatchError(err) => {
                let fetched = self.error_slot.fetch();
                match fetched {
                    Option::Some(token) => {
                        let ghost pre_log = self.error_dispatches@;
                        self.error_dispatches.push(ErrorDispatch { observer: token, error: err });
                        proof {
                            assert(self.error_dispatches@.subrange(0, pre_log.len() as int)
                                =~= pre_log);
                        }
                    },
                    Option::None => {},
                }
            },
            _ => {},
        }
    }
}

/// A chain of successful writes: from `pre`, enqueuing the payloads of
/// `datas` one after the other ends in `post`.
pub open spec fn spec_write_all(pre: PortSession, post: PortSession, datas: Seq<Seq<u8>>) -> bool
    decreases datas.len(),
{
    if datas.len() == 0 {
        post == pre
    } else {
        exists|mid: PortSession|
            #[trigger] spec_write(pre, mid, datas.first(), Result::Ok(())) && spec_write_all(
                mid,
                post,
                datas.drop_first(),
            )
    }
}

/// What a chain of writes leaves behind: the worker still runs, nothing was
/// dispatched or written to the device yet, the slots are untouched, and
/// the queue's payloads have grown by exactly `datas`, in order.
pub proof fn lemma_write_all_effect(pre: PortSession, post: PortSession, datas: Seq<Seq<u8>>)
    requires
        pre.wf(),
        pre.state == WorkerState::Running,
        spec_write_all(pre, post, datas),
    ensures
        post.wf(),
        post.state == WorkerState::Running,
        post.closed == pre.closed,
        post.config == pre.config,
        post.data_slot == pre.data_slot,
        post.error_slot == pre.error_slot,
        post.device_writes@ == pre.device_writes@,
        post.data_dispatches@ == pre.data_dispatches@,
        post.error_dispatches@ == pre.error_dispatches@,
        spec_payloads(post.queue@) =~= spec_payloads(pre.queue@) + datas,
    decreases datas.len(),
{
    if datas.len() == 0 {
        assert(spec_payloads(post.queue@) =~= spec_payloads(pre.queue@) + datas);
    } else {
        let mid = choose|mid: PortSession|
            #[trigger] spec_write(pre, mid, datas.first(), Result::Ok(())) && spec_write_all(
                mid,
                post,
                datas.drop_first(),
            );
        assert(spec_write(pre, mid, datas.first(), Result::Ok(())));
        assert(spec_write_all(mid, post, datas.drop_first()));
        assert(mid.queue@.len() == pre.queue@.len() + 1);
        assert forall|i: int| 0 <= i < mid.queue@.len() implies (
        #[trigger] mid.queue@[i]).is_write() by {
            if i < pre.queue@.len() {
                assert(mid.queue@.subrange(0, pre.queue@.len() as int)[i] == mid.queue@[i]);
            }
        }
        assert(mid.wf());
        assert(spec_payloads(mid.queue@) =~= spec_payloads(pre.queue@).push(datas.first())) by {
            assert forall|i: int| 0 <= i < mid.queue@.len() implies #[trigger] spec_payloads(
                mid.queue@,
            )[i] == spec_payloads(pre.queue@).push(datas.first())[i] by {
                if i < pre.queue@.len() {
                    assert(mid.queue@.subrange(0, pre.queue@.len() as int)[i] == mid.queue@[i]);
                }
            }
        }
        lemma_write_all_effect(mid, post, datas.drop_first());
        assert(spec_payloads(post.queue@) =~= spec_payloads(pre.queue@) + datas) by {
            assert(spec_payloads(post.queue@) =~= spec_payloads(mid.queue@) + datas.drop_first());
            assert(spec_payloads(mid.queue@) =~= spec_payloads(pre.queue@).push(datas.first()));
        }
    }
}

/// A write followed immediately by a close is attempted before the device
/// is released: after the close returns, the written payload stands in the
/// device's record — last, behind whatever was queued before it — and only
/// then is the worker terminal.
pub proof fn lemma_write_then_close(
    pre: PortSession,
    mid: PortSession,
    post: PortSession,
    data: Seq<u8>,
    r1: Result<(), PortError>,
    r2: Result<(), PortError>,
)
    requires
        pre.wf(),
        pre.state == WorkerState::Running,
        spec_write(pre, mid, data, r1),
        spec_close(mid, post, r2),
    ensures
        r1 is Ok,
        r2 is Ok,
        post.closed,
        post.state == WorkerState::Stopped,
        post.attempts() =~= pre.attempts() + spec_payloads(pre.queue@).push(data),
        post.attempts().len() > 0,
        post.attempts().last() == data,
{
    assert(spec_payloads(mid.queue@) =~= spec_payloads(pre.queue@).push(data)) by {
        assert forall|i: int| 0 <= i < mid.queue@.len() implies #[trigger] spec_payloads(
            mid.queue@,
        )[i] == spec_payloads(pre.queue@).push(data)[i] by {
            if i < pre.queue@.len() {
                assert(mid.queue@.subrange(0, pre.queue@.len() as int)[i] == mid.queue@[i]);
            }
        }
    }
    assert(post.attempts() =~= pre.attempts() + spec_payloads(pre.queue@).push(data));
}

/// Enqueuing any number of writes and then closing once attempts all of
/// them at the device, in the original order, and then terminates: the
/// device record after the close is exactly the enqueued payloads.
pub proof fn lemma_writes_drain_in_order_on_close(
    pre: PortSession,
    mid: PortSession,
    post: PortSession,
    datas: Seq<Seq<u8>>,
    r: Result<(), PortError>,
)
    requires
        pre.wf(),
        pre.state == WorkerState::Running,
        pre.queue@.len() == 0,
        spec_write_all(pre, mid, datas),
        spec_close(mid, post, r),
    ensures
        r is Ok,
        post.closed,
        post.state == WorkerState::Stopped,
        post.attempts() =~= pre.attempts() + datas,
{
    lemma_write_all_effect(pre, mid, datas);
    assert(spec_payloads(pre.queue@) =~= Seq::<Seq<u8>>::empty());
    assert(spec_payloads(mid.queue@) =~= datas);
    assert(post.attempts() =~= pre.attempts() + datas);
}

/// After a close returns, no observer is invoked again, whatever the device
/// still produces: injecting any further read outcome leaves both dispatch
/// records exactly as they were, and the data observer stays cleared.
pub proof fn lemma_silent_after_close(
    pre: PortSession,
    mid: PortSession,
    post: PortSession,
    outcome: ReadOutcome,
    r: Result<(), PortError>,
)
    requires
        pre.wf(),
        spec_close(pre, mid, r),
        spec_inject(mid, post, outcome),
    ensures
        post.data_dispatches@ == pre.data_dispatches@,
        post.error_dispatches@ == pre.error_dispatches@,
        post.data_slot.occupant() is None,
        post.state == WorkerState::Stopped,
{
}

/// Closing twice is safe: both calls succeed, and the second changes
/// nothing at all.
pub proof fn lemma_close_idempotent(
    pre: PortSession,
    mid: PortSession,
    post: PortSession,
    r1: Result<(), PortError>,
    r2: Result<(), PortError>,
)
    requires
        pre.wf(),
        spec_close(pre, mid, r1),
        spec_close(mid, post, r2),
    ensures
        r1 is Ok,
        r2 is Ok,
        post == mid,
{
}

/// A timed-out read is routine: injecting it changes nothing — it neither
/// reaches the error observer nor terminates the worker. An empty read
/// behaves the same way.
pub proof fn lemma_timeout_never_reported(pre: PortSession, post: PortSession)
    requires
        pre.wf(),
        spec_inject(pre, post, ReadOutcome::TimedOut),
    ensures
        post == pre,
{
}

/// Any other read failure terminates the worker and fires the error
/// observer exactly once: the failed read adds one `ReadFailure` dispatch
/// to the installed observer, and nothing the device produces afterwards —
/// nor a second failure — is dispatched or changes anything again.
pub proof fn lemma_fatal_read_reported_once(
    pre: PortSession,
    mid: PortSession,
    post: PortSession,
    later: ReadOutcome,
    token: u64,
)
    requires
        pre.wf(),
        pre.state == WorkerState::Running,
        pre.error_slot.occupant() == Some(token),
        spec_inject(pre, mid, ReadOutcome::Failed),
        spec_inject(mid, post, later),
    ensures
        mid.state == WorkerState::Stopped,
        mid.error_dispatches@.len() == pre.error_dispatches@.len() + 1,
        mid.error_dispatches@.last() == (ErrorDispatch {
            observer: token,
            error: PortError::ReadFailure,
        }),
        mid.data_dispatches@ == pre.data_dispatches@,
        post == mid,
{
}

/// Replacing the data observer between two dispatches: the dispatch already
/// in flight used the observer fetched at its read point — the old one —
/// while the next dispatch uses the replacement, and neither dispatch nor
/// the update is lost.
pub proof fn lemma_replacement_applies_to_next_dispatch(
    s0: PortSession,
    s1: PortSession,
    s2: PortSession,
    s3: PortSession,
    d1: Vec<u8>,
    d2: Vec<u8>,
    told: u64,
    tnew: u64,
)
    requires
        s0.wf(),
        s0.state == WorkerState::Running,
        s0.data_slot.occupant() == Some(told),
        d1@.len() > 0,
        d2@.len() > 0,
        spec_inject(s0, s1, ReadOutcome::Data(d1)),
        spec_set_data_observer(s1, s2, tnew),
        spec_inject(s2, s3, ReadOutcome::Data(d2)),
    ensures
        s1.data_dispatches@.len() == s0.data_dispatches@.len() + 1,
        s1.data_dispatches@.last().observer == told,
        s1.data_dispatches@.last().data@ == d1@,
        s3.data_dispatches@.len() == s0.data_dispatches@.len() + 2,
        s3.data_dispatches@.last().observer == tnew,
        s3.data_dispatches@.last().data@ == d2@,
        s3.data_dispatches@.subrange(0, s1.data_dispatches@.len() as int) == s1.data_dispatches@,
{
    assert(s3.data_dispatches@.subrange(0, s2.data_dispatches@.len() as int)
        == s2.data_dispatches@);
}

} // verus!
