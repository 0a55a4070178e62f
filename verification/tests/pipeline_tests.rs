use std::cell::RefCell;
use std::rc::Rc;

use clickwatch::event::RawInputEvent;
use clickwatch::pipeline::BACKOFF_MILLIS;
use clickwatch::pipeline::ExitReason;
use clickwatch::pipeline::PipelineAction;
use clickwatch::pipeline::PipelineEvent;
use clickwatch::pipeline::PipelineState;
use clickwatch::pipeline::step;

fn press() -> RawInputEvent {
    RawInputEvent { time_sec: 0, time_usec: 0, event_type: 1, code: 115, value: 1 }
}

#[test]
fn found_device_is_watched() {
    let (s, a) = step(PipelineState::Locating, PipelineEvent::DeviceFound);
    assert_eq!(s, PipelineState::Watching);
    assert_eq!(a, PipelineAction::ReadBatch);
}

#[test]
fn absent_device_is_relocated_immediately() {
    let (s, a) = step(PipelineState::Locating, PipelineEvent::DeviceAbsent);
    assert_eq!(s, PipelineState::Locating);
    assert_eq!(a, PipelineAction::Locate);
}

#[test]
fn batch_read_dispatches_its_clicks() {
    let release = RawInputEvent { time_sec: 0, time_usec: 1, event_type: 1, code: 115, value: 0 };
    let batch = vec![press(), release, press()];
    let (s, a) = step(PipelineState::Watching, PipelineEvent::BatchRead(batch));
    assert_eq!(s, PipelineState::Watching);
    assert_eq!(a, PipelineAction::Dispatch(vec![press(), press()]));
}

#[test]
fn stream_error_commands_full_backoff() {
    // The step that consumes the error commands the fixed sleep before
    // any further locate attempt.
    let (s, a) = step(PipelineState::Watching, PipelineEvent::WatchEnded(ExitReason::StreamError));
    assert_eq!(s, PipelineState::Backoff);
    assert_eq!(a, PipelineAction::Sleep(500));
    assert_eq!(BACKOFF_MILLIS, 500);
}

#[test]
fn elapsed_backoff_relocates() {
    let (s, a) = step(PipelineState::Backoff, PipelineEvent::BackoffElapsed);
    assert_eq!(s, PipelineState::Locating);
    assert_eq!(a, PipelineAction::Locate);
}

#[test]
fn stream_error_is_the_only_exit_reason() {
    assert_eq!(ExitReason::StreamError, ExitReason::StreamError);
}

#[test]
fn pipeline_invokes_callback_once_per_click() {
    // Drive one pipeline the way a worker does: locate, read one batch
    // with one press and one release, invoke the callback per dispatched
    // click, then hit a stream error.
    let count = Rc::new(RefCell::new(0));
    let counter = count.clone();
    let mut callback = move || {
        *counter.borrow_mut() += 1;
    };

    let mut state = PipelineState::Locating;
    let (s, _) = step(state, PipelineEvent::DeviceFound);
    state = s;

    let release = RawInputEvent { time_sec: 0, time_usec: 1, event_type: 1, code: 115, value: 0 };
    let (s, a) = step(state, PipelineEvent::BatchRead(vec![press(), release]));
    state = s;
    if let PipelineAction::Dispatch(clicks) = a {
        for _ in clicks {
            callback();
        }
    }
    assert_eq!(*count.borrow(), 1);

    let (s, a) = step(state, PipelineEvent::WatchEnded(ExitReason::StreamError));
    assert_eq!(s, PipelineState::Backoff);
    assert_eq!(a, PipelineAction::Sleep(500));
    assert_eq!(*count.borrow(), 1);
}
