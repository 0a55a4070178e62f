use vstd::prelude::*;
use crate::event::RawInputEvent;
use crate::watcher::clicks_of;
use crate::watcher::matching_clicks;

verus! {

/// Why a watch of one device ended. The only exit is the device's event
/// stream becoming unreadable; absence of clicks never ends a watch.
#[derive(Clone, Copy, PartialEq, Eq, Structural, Debug)]
pub enum ExitReason {
    StreamError,
}

/// The fixed pause, in milliseconds, between a stream error and the next
/// attempt to locate the device.
pub const BACKOFF_MILLIS: u64 = 500;

/// The states of one per-device pipeline: looking for the device,
/// reading its events, or pausing after a stream error.
#[derive(Clone, Copy, PartialEq, Eq, Structural, Debug)]
pub enum PipelineState {
    Locating,
    Watching,
    Backoff,
}

/// What the outside world reports to one pipeline: the outcome of a
/// locate attempt, a read batch or the end of a watch with its exit
/// reason, or the end of a backoff pause.
#[derive(Debug)]
pub enum PipelineEvent {
    DeviceFound,
    DeviceAbsent,
    BatchRead(Vec<RawInputEvent>),
    WatchEnded(ExitReason),
    BackoffElapsed,
}

/// What the pipeline's driver must do next: look for the device again,
/// read the next batch from the open device, invoke the callback once
/// per listed click in order, or sleep the given number of milliseconds.
#[derive(Debug, PartialEq, Eq)]
pub enum PipelineAction {
    Locate,
    ReadBatch,
    Dispatch(Vec<RawInputEvent>),
    Sleep(u64),
}

/// Which events can reach a pipeline in each of its states.
pub open spec fn event_fits(s: PipelineState, e: PipelineEvent) -> bool {
    match s {
        PipelineState::Locating => e is DeviceFound || e is DeviceAbsent,
        PipelineState::Watching => e is BatchRead || e is WatchEnded,
        PipelineState::Backoff => e is BackoffElapsed,
    }
}

/// The pipeline's transition relation.
///
/// A found device is watched at once; an absent one is looked for again
/// with no pause. A batch read keeps the pipeline watching and dispatches
/// exactly the clicks of the batch, in delivery order. A stream error
/// moves the pipeline to Backoff and commands the fixed sleep; only after
/// that pause has elapsed does the pipeline locate again.
pub open spec fn next(
    s: PipelineState,
    e: PipelineEvent,
    s2: PipelineState,
    a: PipelineAction,
) -> bool {
    &&& event_fits(s, e)
    &&& match e {
        PipelineEvent::DeviceFound => s2 is Watching && a is ReadBatch,
        PipelineEvent::DeviceAbsent => s2 is Locating && a is Locate,
        PipelineEvent::BatchRead(b) => s2 is Watching && (a matches PipelineAction::Dispatch(c)
            && c@ == clicks_of(b@)),
        PipelineEvent::WatchEnded(_) => s2 is Backoff && a == PipelineAction::Sleep(BACKOFF_MILLIS),
        PipelineEvent::BackoffElapsed => s2 is Locating && a is Locate,
    }
}

/// Advances one pipeline by one step: from the current state and the
/// reported event to the next state and the action the driver must
/// perform before reporting the next event.
pub fn step(state: PipelineState, event: PipelineEvent) -> (r: (PipelineState, PipelineAction))
    requires
        event_fits(state, event),
    ensures
        next(state, event, r.0, r.1),
{
    match event {
        PipelineEvent::DeviceFound => (PipelineState::Watching, PipelineAction::ReadBatch),
        PipelineEvent::DeviceAbsent => (PipelineState::Locating, PipelineAction::Locate),
        PipelineEvent::BatchRead(batch) => {
            let clicks = matching_clicks(&batch);
            (PipelineState::Watching, PipelineAction::Dispatch(clicks))
        },
        PipelineEvent::WatchEnded(_) => (
            PipelineState::Backoff,
            PipelineAction::Sleep(BACKOFF_MILLIS),
        ),
        PipelineEvent::BackoffElapsed => (PipelineState::Locating, PipelineAction::Locate),
    }
}

/// After a stream error the pipeline waits the full backoff before it
/// looks for the device again: the step that consumes the error commands
/// a sleep of the fixed interval and enters Backoff, and the step that
/// leaves Backoff — the next locate — happens only on the report that
/// the pause has elapsed.
pub proof fn lemma_backoff_before_relocate(
    s0: PipelineState,
    e0: PipelineEvent,
    s1: PipelineState,
    a0: PipelineAction,
    e1: PipelineEvent,
    s2: PipelineState,
    a1: PipelineAction,
)
    requires
        next(s0, e0, s1, a0),
        next(s1, e1, s2, a1),
        e0 is WatchEnded,
    ensures
        a0 == PipelineAction::Sleep(BACKOFF_MILLIS),
        s1 is Backoff,
        e1 is BackoffElapsed,
        s2 is Locating && a1 is Locate,
{
}

/// A locate attempt is only ever commanded from the Locating state (the
/// device was absent) or from the Backoff state (the pause after an
/// error has elapsed) — never straight after a stream error.
pub proof fn lemma_locate_sources(
    s: PipelineState,
    e: PipelineEvent,
    s2: PipelineState,
    a: PipelineAction,
)
    requires
        next(s, e, s2, a),
        a is Locate,
    ensures
        s is Locating || s is Backoff,
        s is Backoff ==> e is BackoffElapsed,
        !(e is WatchEnded),
{
}

} // verus!
