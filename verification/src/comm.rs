//! The link between the console, which produces a frame on every tick, and
//! the worker, which owns the device session and does the blocking exchange.
//!
//! Two things cross that link: a queue of at most one frame, and a running
//! flag. The console never waits on the queue: a frame that finds the slot
//! taken is either turned away or takes the older frame's place, as the
//! producer chooses. The worker follows a small state machine, from idle over
//! connecting and streaming to stopped, and looks at the running flag between
//! frames, never during one.

use vstd::prelude::*;
use crate::joint::JointConfig;
use crate::transport::TransportError;

verus! {

/// The running flag of the worker.
#[derive(Clone, Copy, Debug)]
pub struct CommState {
    pub running: bool,
}

/// Asks the worker to stop. It does so before its next frame.
pub fn stop_comm_thread(state: &mut CommState)
    ensures
        !final(state).running,
{
    state.running = false;
}

/// One unit of work for the worker: a full frame of pixels and the joint
/// command that rides with it.
#[derive(Clone, Debug)]
pub struct FrameItem {
    pub pixels: Vec<u8>,
    pub command: JointConfig,
}

/// The queue's one slot is taken.
#[derive(Clone, Copy, Debug, PartialEq, Eq, Structural)]
pub struct QueueFull;

/// The producer's end of the link, and the slot and flag that it shares with
/// the worker.
pub struct CommHandle {
    state: CommState,
    pending: Option<FrameItem>,
}

impl CommHandle {
    /// Whether the worker is running and has not been asked to stop.
    pub closed spec fn spec_active(&self) -> bool {
        self.state.running
    }

    /// The frame that waits for the worker, if one does.
    pub closed spec fn spec_pending(&self) -> Option<FrameItem> {
        self.pending
    }

    /// Frames that wait for the worker: none or one.
    pub open spec fn spec_pending_count(&self) -> nat {
        if self.spec_pending() is Some {
            1
        } else {
            0
        }
    }

    /// What `submit` leaves in the slot: a frame is taken in only by an
    /// active link whose slot is free.
    pub open spec fn after_submit(&self, item: FrameItem) -> Option<FrameItem> {
        if self.spec_active() && self.spec_pending() is None {
            Some(item)
        } else {
            self.spec_pending()
        }
    }

    /// What `submit_latest` leaves in the slot: on an active link, the new
    /// frame.
    pub open spec fn after_submit_latest(&self, item: FrameItem) -> Option<FrameItem> {
        if self.spec_active() {
            Some(item)
        } else {
            self.spec_pending()
        }
    }

    /// The link to a worker that has just been started: active, nothing
    /// pending.
    pub fn new() -> (handle: CommHandle)
        ensures
            handle.spec_active(),
            handle.spec_pending() is None,
    {
        CommHandle { state: CommState { running: true }, pending: None }
    }

    /// Whether the worker is running and has not been asked to stop.
    pub fn is_active(&self) -> (active: bool)
        ensures
            active == self.spec_active(),
    {
        self.state.running
    }

    /// Frames that wait for the worker: none or one.
    pub fn pending_count(&self) -> (n: usize)
        ensures
            n == self.spec_pending_count(),
            n <= 1,
    {
        if self.pending.is_some() {
            1
        } else {
            0
        }
    }

    /// Offers a frame without waiting. An active link with a free slot takes
    /// it. With the slot taken the frame is turned away with `QueueFull` and
    /// the older frame stays. Without a running worker the frame is dropped
    /// and the call succeeds, changing nothing.
    pub fn submit(&mut self, pixels: Vec<u8>, command: JointConfig) -> (res: Result<(), QueueFull>)
        ensures
            final(self).spec_active() == old(self).spec_active(),
            final(self).spec_pending() == old(self).after_submit(FrameItem { pixels, command }),
            res is Err <==> old(self).spec_active() && old(self).spec_pending() is Some,
    {
        if !self.state.running {
            return Ok(());
        }
        if self.pending.is_some() {
            return Err(QueueFull);
        }
        self.pending = Some(FrameItem { pixels, command });
        Ok(())
    }

    /// Offers a frame that takes the place of one still waiting, and hands
    /// the displaced frame back. Without a running worker the new frame is
    /// the one handed back, and nothing changes.
    pub fn submit_latest(&mut self, pixels: Vec<u8>, command: JointConfig) -> (displaced: Option<
        FrameItem,
    >)
        ensures
            final(self).spec_active() == old(self).spec_active(),
            final(self).spec_pending() == old(self).after_submit_latest(
                FrameItem { pixels, command },
            ),
            displaced == if old(self).spec_active() {
                old(self).spec_pending()
            } else {
                Some(FrameItem { pixels, command })
            },
    {
        let item = FrameItem { pixels, command };
        if !self.state.running {
            return Some(item);
        }
        let displaced = self.pending.take();
        self.pending = Some(item);
        displaced
    }

    /// The worker's end: takes the waiting frame out of the slot.
    pub fn take(&mut self) -> (item: Option<FrameItem>)
        ensures
            item == old(self).spec_pending(),
            final(self).spec_pending() is None,
            final(self).spec_active() == old(self).spec_active(),
    {
        self.pending.take()
    }

    /// Signals the worker to stop and discards the frame that still waits.
    /// Calling it again changes nothing. The caller then joins the worker,
    /// which comes to its end after the frame that it is exchanging.
    pub fn request_disconnect(&mut self)
        ensures
            !final(self).spec_active(),
            final(self).spec_pending() is None,
    {
        stop_comm_thread(&mut self.state);
        self.pending = None;
    }

    /// The worker's end: records that the worker has come to its end, on its
    /// own account or on request.
    pub fn worker_stopped(&mut self)
        ensures
            !final(self).spec_active(),
            final(self).spec_pending() is None,
    {
        self.state.running = false;
        self.pending = None;
    }
}

/// However many frames are offered before the worker takes one, at most one
/// waits. Under `submit_latest` the one that waits is the one offered last;
/// under `submit` it is the one offered first, and the second is turned away.
pub proof fn lemma_lossy_submission(
    h0: CommHandle,
    h1: CommHandle,
    h2: CommHandle,
    first: FrameItem,
    second: FrameItem,
    latest: bool,
)
    requires
        h0.spec_active(),
        h1.spec_active(),
        h0.spec_pending() is None,
        latest ==> h1.spec_pending() == h0.after_submit_latest(first),
        latest ==> h2.spec_pending() == h1.after_submit_latest(second),
        !latest ==> h1.spec_pending() == h0.after_submit(first),
        !latest ==> h2.spec_pending() == h1.after_submit(second),
    ensures
        h1.spec_pending_count() <= 1,
        h2.spec_pending_count() == 1,
        latest ==> h2.spec_pending() == Some(second),
        !latest ==> h2.spec_pending() == Some(first),
{
}

/// Where the worker stands.
#[derive(Clone, Copy, Debug, PartialEq, Eq, Structural)]
pub enum WorkerState {
    /// Not started.
    Idle,
    /// Opening the transport.
    Connecting,
    /// Session open: waiting for a frame, or exchanging one.
    Streaming,
    /// At its end. The thread exits.
    Stopped,
}

/// What the worker's driver reports.
#[derive(Clone, Copy, Debug, PartialEq, Eq, Structural)]
pub enum WorkerEvent {
    /// The worker thread has been started.
    Started,
    /// The transport is open and the session stands.
    Opened,
    /// The transport could not be opened.
    OpenFailed,
    /// A frame has come out of the queue.
    FrameReceived,
    /// The queue has been closed by the producer.
    QueueClosed,
    /// The frame has been exchanged.
    FrameSent,
    /// The session failed while the frame was exchanged.
    FrameFailed,
}

/// What the worker's driver has to do next.
#[derive(Clone, Copy, Debug, PartialEq, Eq, Structural)]
pub enum WorkerAction {
    /// Open the transport and set up the session.
    Open,
    /// Wait for the next frame from the queue.
    Receive,
    /// Exchange the frame that was received.
    SendFrame,
    /// Part from the device in order: power the servos down, then close the
    /// transport. Then exit.
    Disconnect,
    /// Discard the session without a further word to the device. Then exit.
    Abandon,
    /// Exit: there is no session to close.
    Exit,
    /// Nothing.
    Ignore,
}

/// The worker's next state and action. `running` is the running flag as the
/// worker sees it at this moment.
pub open spec fn worker_step(state: WorkerState, event: WorkerEvent, running: bool) -> (
    WorkerState,
    WorkerAction,
) {
    match state {
        WorkerState::Idle => match event {
            WorkerEvent::Started => (WorkerState::Connecting, WorkerAction::Open),
            _ => (WorkerState::Idle, WorkerAction::Ignore),
        },
        WorkerState::Connecting => match event {
            WorkerEvent::Opened => if running {
                (WorkerState::Streaming, WorkerAction::Receive)
            } else {
                (WorkerState::Stopped, WorkerAction::Disconnect)
            },
            WorkerEvent::OpenFailed => (WorkerState::Stopped, WorkerAction::Exit),
            _ => (WorkerState::Connecting, WorkerAction::Ignore),
        },
        WorkerState::Streaming => match event {
            WorkerEvent::FrameReceived => if running {
                (WorkerState::Streaming, WorkerAction::SendFrame)
            } else {
                (WorkerState::Stopped, WorkerAction::Disconnect)
            },
            WorkerEvent::FrameSent => if running {
                (WorkerState::Streaming, WorkerAction::Receive)
            } else {
                (WorkerState::Stopped, WorkerAction::Disconnect)
            },
            WorkerEvent::QueueClosed => (WorkerState::Stopped, WorkerAction::Disconnect),
            WorkerEvent::FrameFailed => (WorkerState::Stopped, WorkerAction::Abandon),
            _ => (WorkerState::Streaming, WorkerAction::Ignore),
        },
        WorkerState::Stopped => (WorkerState::Stopped, WorkerAction::Ignore),
    }
}

/// The worker that owns the device session.
#[derive(Clone, Copy, Debug)]
pub struct CommWorker {
    state: WorkerState,
}

impl CommWorker {
    /// Where the worker stands.
    pub closed spec fn spec_state(&self) -> WorkerState {
        self.state
    }

    /// A worker that has not been started.
    pub fn new() -> (worker: CommWorker)
        ensures
            worker.spec_state() == WorkerState::Idle,
    {
        CommWorker { state: WorkerState::Idle }
    }

    /// Where the worker stands.
    pub fn state(&self) -> (state: WorkerState)
        ensures
            state == self.spec_state(),
    {
        self.state
    }

    /// Whether the worker has come to its end.
    pub fn is_stopped(&self) -> (stopped: bool)
        ensures
            stopped == (self.spec_state() == WorkerState::Stopped),
    {
        self.state == WorkerState::Stopped
    }

    /// Takes the driver's report and says what to do next.
    pub fn on_event(&mut self, event: WorkerEvent, running: bool) -> (action: WorkerAction)
        ensures
            (final(self).spec_state(), action) == worker_step(
                old(self).spec_state(),
                event,
                running,
            ),
    {
        let (next, action) = match self.state {
            WorkerState::Idle => match event {
                WorkerEvent::Started => (WorkerState::Connecting, WorkerAction::Open),
                _ => (WorkerState::Idle, WorkerAction::Ignore),
            },
            WorkerState::Connecting => match event {
                WorkerEvent::Opened => if running {
                    (WorkerState::Streaming, WorkerAction::Receive)
                } else {
                    (WorkerState::Stopped, WorkerAction::Disconnect)
                },
                WorkerEvent::OpenFailed => (WorkerState::Stopped, WorkerAction::Exit),
                _ => (WorkerState::Connecting, WorkerAction::Ignore),
            },
            WorkerState::Streaming => match event {
                WorkerEvent::FrameReceived => if running {
                    (WorkerState::Streaming, WorkerAction::SendFrame)
                } else {
                    (WorkerState::Stopped, WorkerAction::Disconnect)
                },
                WorkerEvent::FrameSent => if running {
                    (WorkerState::Streaming, WorkerAction::Receive)
                } else {
                    (WorkerState::Stopped, WorkerAction::Disconnect)
                },
                WorkerEvent::QueueClosed => (WorkerState::Stopped, WorkerAction::Disconnect),
                WorkerEvent::FrameFailed => (WorkerState::Stopped, WorkerAction::Abandon),
                _ => (WorkerState::Streaming, WorkerAction::Ignore),
            },
            WorkerState::Stopped => (WorkerState::Stopped, WorkerAction::Ignore),
        };
        self.state = next;
        action
    }
}

/// Once the running flag is down, the worker exchanges no further frame: the
/// next thing it sees at a point between frames, be it a frame from the
/// queue, the end of the frame in flight or the closing of the queue, stops
/// it. A stopped worker stays stopped, and no failure is ever retried.
pub proof fn lemma_worker_stops(state: WorkerState, event: WorkerEvent)
    ensures
        worker_step(state, event, false).1 != WorkerAction::SendFrame,
        worker_step(state, event, false).1 != WorkerAction::Receive,
        state == WorkerState::Streaming && (event == WorkerEvent::FrameReceived || event
            == WorkerEvent::FrameSent || event == WorkerEvent::QueueClosed) ==> worker_step(
            state,
            event,
            false,
        ) == (WorkerState::Stopped, WorkerAction::Disconnect),
        forall|running: bool|
            worker_step(WorkerState::Stopped, event, running) == (
                WorkerState::Stopped,
                WorkerAction::Ignore,
            ),
        forall|running: bool|
            (event == WorkerEvent::OpenFailed && state == WorkerState::Connecting) || (event
                == WorkerEvent::FrameFailed && state == WorkerState::Streaming) ==> (
            #[trigger] worker_step(state, event, running)).0 == WorkerState::Stopped,
{
}

/// Which feedback read failures have been logged in this session.
#[derive(Clone, Copy, Debug)]
pub struct ReadErrorLog {
    timeout: bool,
    disconnected: bool,
    other: bool,
}

impl ReadErrorLog {
    /// Whether the failure `e` has been noted before.
    pub closed spec fn spec_seen(&self, e: TransportError) -> bool {
        match e {
            TransportError::Timeout => self.timeout,
            TransportError::Disconnected => self.disconnected,
            TransportError::Other => self.other,
        }
    }

    /// A log in which nothing has been noted.
    pub fn new() -> (log: ReadErrorLog)
        ensures
            forall|e: TransportError| !log.spec_seen(e),
    {
        ReadErrorLog { timeout: false, disconnected: false, other: false }
    }

    /// Notes a failed feedback read and says whether it is worth a log line:
    /// it is the first time that this failure is noted, never after.
    pub fn note(&mut self, e: TransportError) -> (first: bool)
        ensures
            first == !old(self).spec_seen(e),
            final(self).spec_seen(e),
            forall|other: TransportError|
                other != e ==> final(self).spec_seen(other) == old(self).spec_seen(other),
    {
        match e {
            TransportError::Timeout => {
                let first = !self.timeout;
                self.timeout = true;
                first
            },
            TransportError::Disconnected => {
                let first = !self.disconnected;
                self.disconnected = true;
                first
            },
            TransportError::Other => {
                let first = !self.other;
                self.other = true;
                first
            },
        }
    }
}

} // verus!
