use vstd::prelude::*;
use crate::encoder::{RawFrame, encode, well_formed, jpeg_of, base64_of, JPEG_QUALITY, MAX_JPEG_SIDE};
use crate::monitor::{MonitorDescriptor, resolve, resolve_spec};
use crate::session::{SessionManager, begin_post, begin_sequence, lemma_counter_after, lemma_epochs_increase};

verus! {

/// Target time between the starts of two capture iterations, in nanoseconds
/// (33 ms, about thirty frames a second).
pub const FRAME_INTERVAL_NANOS: u64 = 33_000_000;

/// Where a capture worker stands. `Superseded` and `SinkClosed` are final.
#[derive(Clone, Copy, Debug, PartialEq, Eq, Structural)]
pub enum WorkerState {
    /// Its epoch is current and it keeps capturing.
    Active,
    /// A newer session began; it captures and delivers nothing more.
    Superseded,
    /// The frame sink refused a delivery; it stops.
    SinkClosed,
}

/// The state after a liveness check that found `current` as the live epoch.
pub open spec fn observe_state(state: WorkerState, epoch: u64, current: u64) -> WorkerState {
    match state {
        WorkerState::Active => if epoch == current {
            WorkerState::Active
        } else {
            WorkerState::Superseded
        },
        _ => state,
    }
}

/// The state after the sink accepted (`true`) or refused a delivery.
pub open spec fn delivery_state(state: WorkerState, accepted: bool) -> WorkerState {
    match state {
        WorkerState::Active => if accepted {
            WorkerState::Active
        } else {
            WorkerState::SinkClosed
        },
        _ => state,
    }
}

/// How long to sleep after an iteration that took `elapsed` nanoseconds:
/// the rest of the frame interval, or nothing once it has passed.
pub open spec fn cadence_spec(elapsed: u128) -> u128 {
    if elapsed < FRAME_INTERVAL_NANOS {
        (FRAME_INTERVAL_NANOS - elapsed) as u128
    } else {
        0
    }
}

/// The decisions of one capture session's loop. The loop itself (reading the
/// live epoch, capturing, delivering, sleeping) is run by the caller, which
/// hands each outcome back here.
pub struct CaptureWorker {
    pub epoch: u64,
    pub monitor_index: usize,
    pub state: WorkerState,
}

impl CaptureWorker {
    /// A worker bound to `epoch`, capturing the display at `monitor_index`.
    pub fn new(epoch: u64, monitor_index: usize) -> (r: CaptureWorker)
        ensures
            r.epoch == epoch,
            r.monitor_index == monitor_index,
            r.state == WorkerState::Active,
    {
        CaptureWorker { epoch, monitor_index, state: WorkerState::Active }
    }

    /// Whether the worker still captures.
    pub fn is_active(&self) -> (r: bool)
        ensures
            r == (self.state == WorkerState::Active),
    {
        match self.state {
            WorkerState::Active => true,
            _ => false,
        }
    }

    /// The liveness check at the top of each iteration, against the live
    /// epoch `current`. Returns whether the worker goes on.
    pub fn observe_epoch(&mut self, current: u64) -> (r: bool)
        ensures
            final(self).epoch == old(self).epoch,
            final(self).monitor_index == old(self).monitor_index,
            final(self).state == observe_state(old(self).state, old(self).epoch, current),
            r == (final(self).state == WorkerState::Active),
    {
        if self.is_active() && self.epoch != current {
            self.state = WorkerState::Superseded;
        }
        self.is_active()
    }

    /// The display to capture this iteration, among those attached now.
    pub fn target_monitor(&self, monitors: &Vec<MonitorDescriptor>) -> (r: Option<MonitorDescriptor>)
        ensures
            r == resolve_spec(monitors@, self.monitor_index),
    {
        resolve(monitors, self.monitor_index)
    }

    /// The payload to deliver for a captured frame: its base64 JPEG text. An
    /// inactive worker delivers nothing, and a frame that cannot be encoded is
    /// dropped; an active worker delivers every frame that can.
    pub fn prepare_delivery(&self, frame: &RawFrame) -> (r: Option<String>)
        ensures
            r is Some ==> self.state == WorkerState::Active && well_formed(*frame),
            r matches Some(t) ==> t@ == base64_of(jpeg_of(frame.pixels@, frame.width, frame.height, JPEG_QUALITY)),
            self.state != WorkerState::Active || !well_formed(*frame) ==> r is None,
            well_formed(*frame) && (frame.width > MAX_JPEG_SIDE || frame.height > MAX_JPEG_SIDE) ==> r is None,
            self.state == WorkerState::Active && well_formed(*frame) && frame.width <= MAX_JPEG_SIDE
                && frame.height <= MAX_JPEG_SIDE ==> r is Some,
    {
        if !self.is_active() {
            return None;
        }
        match encode(frame) {
            Ok(f) => Some(f.text),
            Err(_) => None,
        }
    }

    /// Records what the sink did with a delivery: a refusal ends the session.
    pub fn record_delivery(&mut self, accepted: bool)
        ensures
            final(self).epoch == old(self).epoch,
            final(self).monitor_index == old(self).monitor_index,
            final(self).state == delivery_state(old(self).state, accepted),
    {
        if self.is_active() && !accepted {
            self.state = WorkerState::SinkClosed;
        }
    }
}

/// Begins a new session and returns the worker bound to its epoch, which
/// supersedes every worker started before.
pub fn start_screen_capture(sessions: &mut SessionManager, monitor_index: usize) -> (r: CaptureWorker)
    requires
        old(sessions).current < u64::MAX,
    ensures
        begin_post(*old(sessions), r.epoch, *final(sessions)),
        r.monitor_index == monitor_index,
        r.state == WorkerState::Active,
{
    let epoch = sessions.begin_session();
    CaptureWorker::new(epoch, monitor_index)
}

/// How long to sleep, in nanoseconds, after an iteration that took `elapsed`
/// nanoseconds, so that iterations start no closer than the frame interval.
pub fn cadence_delay(elapsed: u128) -> (r: u128)
    ensures
        r == cadence_spec(elapsed),
{
    if elapsed < FRAME_INTERVAL_NANOS as u128 {
        FRAME_INTERVAL_NANOS as u128 - elapsed
    } else {
        0
    }
}

/// `ms[i + 1]` and `ws[i]` are what `start_screen_capture(&mut ms[i], _)`
/// leaves and returns, for each `i`: the workers of calls made in that order.
pub open spec fn start_sequence(ms: Seq<SessionManager>, ws: Seq<CaptureWorker>) -> bool {
    &&& ms.len() == ws.len() + 1
    &&& forall|i: int| 0 <= i < ws.len() ==> #[trigger] begin_post(ms[i], ws[i].epoch, ms[i + 1])
}

/// The epochs that a run of `start_screen_capture` calls bound its workers to.
pub open spec fn epochs_of(ws: Seq<CaptureWorker>) -> Seq<u64> {
    ws.map_values(|w: CaptureWorker| w.epoch)
}

proof fn lemma_start_is_begin(ms: Seq<SessionManager>, ws: Seq<CaptureWorker>)
    requires
        start_sequence(ms, ws),
    ensures
        begin_sequence(ms, epochs_of(ws)),
{
    let es = epochs_of(ws);
    assert forall|i: int| 0 <= i < es.len() implies #[trigger] begin_post(ms[i], es[i], ms[i + 1]) by {
        assert(begin_post(ms[i], ws[i].epoch, ms[i + 1]));
    }
}

/// Workers started one after another by `start_screen_capture` are bound to
/// epochs that are at least one and strictly increase.
pub proof fn lemma_started_epochs_increase(ms: Seq<SessionManager>, ws: Seq<CaptureWorker>)
    requires
        start_sequence(ms, ws),
    ensures
        forall|i: int| 0 <= i < ws.len() ==> #[trigger] ws[i].epoch >= 1,
        forall|i: int, j: int| 0 <= i < j < ws.len() ==> ws[i].epoch < ws[j].epoch,
{
    lemma_start_is_begin(ms, ws);
    let es = epochs_of(ws);
    lemma_epochs_increase(ms, es);
    assert forall|i: int| 0 <= i < ws.len() implies #[trigger] ws[i].epoch >= 1 by {
        assert(es[i] == ws[i].epoch);
    }
    assert forall|i: int, j: int| 0 <= i < j < ws.len() implies ws[i].epoch < ws[j].epoch by {
        assert(es[i] == ws[i].epoch);
        assert(es[j] == ws[j].epoch);
    }
}

/// After a run of `start_screen_capture` calls, every worker but the last
/// finds itself superseded at its next liveness check, while the last one
/// stays active. A superseded worker stays superseded whatever epoch it later
/// observes and whatever the sink does, so it prepares no payload again.
pub proof fn lemma_only_latest_delivers(ms: Seq<SessionManager>, ws: Seq<CaptureWorker>)
    requires
        start_sequence(ms, ws),
        ws.len() > 0,
    ensures
        forall|i: int| 0 <= i < ws.len() - 1
            ==> observe_state(WorkerState::Active, (#[trigger] ws[i]).epoch, ms.last().current) == WorkerState::Superseded,
        observe_state(WorkerState::Active, ws.last().epoch, ms.last().current) == WorkerState::Active,
        forall|e: u64, c: u64| #[trigger] observe_state(WorkerState::Superseded, e, c) == WorkerState::Superseded,
        forall|a: bool| #[trigger] delivery_state(WorkerState::Superseded, a) == WorkerState::Superseded,
{
    lemma_start_is_begin(ms, ws);
    let es = epochs_of(ws);
    let n = ws.len() as int;
    lemma_counter_after(ms, es, n);
    lemma_counter_after(ms, es, n - 1);
    assert(es[n - 1] == ws.last().epoch);
    assert forall|i: int| 0 <= i < ws.len() - 1
        implies observe_state(WorkerState::Active, (#[trigger] ws[i]).epoch, ms.last().current) == WorkerState::Superseded by {
        lemma_counter_after(ms, es, i);
        assert(es[i] == ws[i].epoch);
    }
}

/// An iteration that took `elapsed` nanoseconds, followed by its sleep, spans
/// the larger of `elapsed` and the frame interval: consecutive iterations, and
/// so consecutive deliveries, start no closer than the frame interval.
pub proof fn lemma_cadence_floor(elapsed: u128)
    ensures
        elapsed + cadence_spec(elapsed) >= FRAME_INTERVAL_NANOS,
        elapsed + cadence_spec(elapsed) == if elapsed < FRAME_INTERVAL_NANOS {
            FRAME_INTERVAL_NANOS as int
        } else {
            elapsed as int
        },
{
}

} // verus!
