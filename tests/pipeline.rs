use step_capture::capture::{
    handle_tracker_event, if_paused_capture, if_stop_capture, set_capture_status, CaptureState,
    CaptureStatus, ListenerAction,
};
use step_capture::event_tracker::{TrackerEvent, TrackerEventType};
use step_capture::frame::{EncodeFrameMessage, EncoderMessage, RawFrame};
use step_capture::router::{FrameRouter, RouteAction};
use step_capture::worker::{EncoderWorker, WorkerAction};

enum Input {
    Click,
    Frame(u64),
    BadFrame,
    Status(CaptureStatus),
}

/// The clip a worker wrote: its step and the display times and timestamps of
/// its frames, in encode order.
#[derive(Debug, PartialEq)]
struct Clip {
    step: u32,
    frames: Vec<(u64, u64)>,
}

fn frame(t: u64) -> RawFrame {
    RawFrame { width: 4, height: 2, display_time: t, data: vec![0u8; 32] }
}

fn click(state: &mut CaptureState<(f64, f64)>) {
    let event = TrackerEvent { pid: 1, event_type: TrackerEventType::LeftMouseDown, location: (1.0, 2.0) };
    assert_eq!(handle_tracker_event(state, event), ListenerAction::Continue);
}

/// Runs one worker over its queue. `fail_open` makes the encoder fail to open.
fn run_worker(step: u32, width: u32, height: u32, queue: Vec<EncoderMessage>, fail_open: bool) -> Option<Clip> {
    let mut worker = EncoderWorker::new(step, width, height);
    let mut frames = vec![];
    let mut queue = std::collections::VecDeque::from(queue);
    loop {
        if !worker.keep_receiving(queue.is_empty()) {
            break;
        }
        let message = match queue.pop_front() {
            Some(m) => m,
            None => {
                worker.on_disconnected();
                continue;
            }
        };
        match worker.on_message(&message) {
            WorkerAction::Encode { open_encoder, timestamp } => {
                if open_encoder && fail_open {
                    worker.encoder_failed();
                    continue;
                }
                if let EncoderMessage::EncodeFrame(m) = message {
                    frames.push((m.frame.display_time, timestamp));
                }
                worker.record_write(true);
            }
            WorkerAction::Skip | WorkerAction::Drain => {}
        }
    }
    if worker.finalize() {
        assert!(!worker.finalize());
        Some(Clip { step, frames })
    } else {
        None
    }
}

/// Drives the router over `inputs` then stops, and runs each worker it
/// started. Workers whose step is in `failing` cannot open their encoder.
fn run(inputs: Vec<Input>, failing: &[u32]) -> Vec<Clip> {
    let mut state: CaptureState<(f64, f64)> = CaptureState::new();
    set_capture_status(&mut state, CaptureStatus::Recording);
    let mut router = FrameRouter::new();
    let mut workers: Vec<(u32, u32, u32, Vec<EncoderMessage>)> = vec![];
    let mut inputs: Vec<Input> = inputs;
    inputs.push(Input::Status(CaptureStatus::Stopped));
    inputs.push(Input::Frame(u64::MAX));
    for input in inputs {
        let f = match input {
            Input::Click => {
                click(&mut state);
                continue;
            }
            Input::Status(s) => {
                set_capture_status(&mut state, s);
                continue;
            }
            Input::Frame(t) => frame(t),
            Input::BadFrame => RawFrame { width: 0, height: 3, display_time: 9, data: vec![] },
        };
        match router.route_frame(&state, f) {
            RouteAction::Exit => break,
            RouteAction::Discard => {}
            RouteAction::StartStep { worker, width, height, finish_previous, message } => {
                assert_eq!(worker, workers.len());
                workers.push((message.step_num, width, height, vec![]));
                if let Some(p) = finish_previous {
                    workers[p].3.push(EncoderMessage::Finish);
                }
                workers[worker].3.push(EncoderMessage::EncodeFrame(message));
            }
            RouteAction::Forward { worker, message } => {
                workers[worker].3.push(EncoderMessage::EncodeFrame(message));
            }
        }
    }
    for w in router.workers_to_finish() {
        workers[w].3.push(EncoderMessage::Finish);
    }
    workers
        .into_iter()
        .filter_map(|(step, width, height, queue)| run_worker(step, width, height, queue, failing.contains(&step)))
        .collect()
}

#[test]
fn two_steps_make_two_clips() {
    let clips = run(
        vec![Input::Click, Input::Frame(100), Input::Frame(140), Input::Click, Input::Frame(200)],
        &[],
    );
    assert_eq!(
        clips,
        vec![
            Clip { step: 1, frames: vec![(100, 0), (140, 40)] },
            Clip { step: 2, frames: vec![(200, 0)] },
        ]
    );
}

#[test]
fn no_clicks_no_clips() {
    let clips = run(vec![Input::Frame(1), Input::Frame(2), Input::Frame(3), Input::Frame(4)], &[]);
    assert_eq!(clips, vec![]);
}

#[test]
fn double_click_without_frames_skips_the_first_step() {
    let clips = run(
        vec![Input::Click, Input::Click, Input::Frame(10), Input::Frame(30), Input::Click, Input::Frame(50)],
        &[],
    );
    assert_eq!(
        clips,
        vec![
            Clip { step: 2, frames: vec![(10, 0), (30, 20)] },
            Clip { step: 3, frames: vec![(50, 0)] },
        ]
    );
}

#[test]
fn encoder_failure_loses_only_its_step() {
    let clips = run(
        vec![
            Input::Click,
            Input::Frame(1),
            Input::Click,
            Input::Frame(2),
            Input::Frame(3),
            Input::Click,
            Input::Frame(4),
            Input::Frame(6),
        ],
        &[2],
    );
    assert_eq!(
        clips,
        vec![Clip { step: 1, frames: vec![(1, 0)] }, Clip { step: 3, frames: vec![(4, 0), (6, 2)] }]
    );
}

#[test]
fn pausing_drops_frames() {
    let clips = run(
        vec![
            Input::Click,
            Input::Frame(10),
            Input::Status(CaptureStatus::Paused),
            Input::Frame(20),
            Input::Frame(30),
            Input::Status(CaptureStatus::Recording),
            Input::Frame(40),
        ],
        &[],
    );
    assert_eq!(clips, vec![Clip { step: 1, frames: vec![(10, 0), (40, 30)] }]);
}

#[test]
fn invalid_frames_are_dropped() {
    let clips = run(
        vec![Input::Click, Input::BadFrame, Input::Frame(5), Input::BadFrame, Input::Frame(7)],
        &[],
    );
    assert_eq!(clips, vec![Clip { step: 1, frames: vec![(5, 0), (7, 2)] }]);
}

#[test]
fn clips_match_steps_with_frames() {
    let clips = run(
        vec![
            Input::Frame(1),
            Input::Click,
            Input::Click,
            Input::Frame(2),
            Input::Click,
            Input::Status(CaptureStatus::Paused),
            Input::Frame(3),
            Input::Status(CaptureStatus::Recording),
            Input::Click,
            Input::Frame(4),
        ],
        &[],
    );
    let steps: Vec<u32> = clips.iter().map(|c| c.step).collect();
    assert_eq!(steps, vec![2, 4]);
}

#[test]
fn router_waits_for_first_click() {
    let mut state: CaptureState<(f64, f64)> = CaptureState::new();
    set_capture_status(&mut state, CaptureStatus::Recording);
    let mut router = FrameRouter::new();
    assert!(matches!(router.route_frame(&state, frame(1)), RouteAction::Discard));
    assert_eq!(router.worker_count(), 0);
    click(&mut state);
    match router.route_frame(&state, frame(2)) {
        RouteAction::StartStep { worker, width, height, finish_previous, message } => {
            assert_eq!((worker, width, height, finish_previous), (0, 4, 2, None));
            assert_eq!((message.step_num, message.index, message.frame.display_time), (1, 1, 2));
        }
        other => panic!("unexpected {:?}", other),
    }
    match router.route_frame(&state, frame(3)) {
        RouteAction::Forward { worker, message } => {
            assert_eq!(worker, 0);
            assert_eq!((message.step_num, message.index), (1, 2));
        }
        other => panic!("unexpected {:?}", other),
    }
    assert_eq!(router.frame_count(), 2);
    click(&mut state);
    match router.route_frame(&state, frame(4)) {
        RouteAction::StartStep { worker, finish_previous, message, .. } => {
            assert_eq!((worker, finish_previous), (1, Some(0)));
            assert_eq!((message.step_num, message.index), (2, 1));
        }
        other => panic!("unexpected {:?}", other),
    }
    assert_eq!(router.workers_to_finish(), vec![0, 1]);
}

#[test]
fn router_pause_and_stop() {
    let mut state: CaptureState<(f64, f64)> = CaptureState::new();
    let mut router = FrameRouter::new();
    assert!(matches!(router.route_frame(&state, frame(1)), RouteAction::Exit));
    set_capture_status(&mut state, CaptureStatus::Paused);
    click(&mut state);
    assert!(matches!(router.route_frame(&state, frame(2)), RouteAction::Discard));
    assert_eq!(router.worker_count(), 0);
    assert_eq!(router.frame_count(), 0);
    assert_eq!(state.current_step(), 1);
}

#[test]
fn status_queries() {
    let mut state: CaptureState<(f64, f64)> = CaptureState::new();
    assert!(if_stop_capture(&state));
    assert!(!if_paused_capture(&state));
    set_capture_status(&mut state, CaptureStatus::Recording);
    assert!(!if_stop_capture(&state));
    assert!(!if_paused_capture(&state));
    set_capture_status(&mut state, CaptureStatus::Paused);
    assert!(if_stop_capture(&state));
    assert!(if_paused_capture(&state));
}

#[test]
fn listener_counts_clicks_only() {
    let mut state: CaptureState<(i32, i32)> = CaptureState::new();
    let kinds = [
        TrackerEventType::ScrollWheel,
        TrackerEventType::LeftMouseDown,
        TrackerEventType::LeftMouseDragged,
        TrackerEventType::RightMouseDown,
        TrackerEventType::RightMouseDragged,
        TrackerEventType::LeftMouseUp,
        TrackerEventType::RightMouseUp,
    ];
    for (i, kind) in kinds.iter().enumerate() {
        let event = TrackerEvent { pid: 7, event_type: *kind, location: (i as i32, 0) };
        assert_eq!(handle_tracker_event(&mut state, event), ListenerAction::Continue);
    }
    assert_eq!(state.current_step(), 2);
    assert_eq!(state.clicks, vec![(1, 0), (3, 0)]);
    let stop = TrackerEvent { pid: 0, event_type: TrackerEventType::Disable, location: (0, 0) };
    assert_eq!(handle_tracker_event(&mut state, stop), ListenerAction::Terminate);
    assert_eq!(state.current_step(), 2);
    assert!(TrackerEventType::RightMouseDown.is_click());
    assert!(!TrackerEventType::Disable.is_click());
}

#[test]
fn record_click_appends() {
    let mut state: CaptureState<(f64, f64)> = CaptureState::new();
    state.record_click((3.5, 4.5));
    assert_eq!(state.current_step(), 1);
    assert_eq!(state.clicks, vec![(3.5, 4.5)]);
}

#[test]
fn worker_timestamps_and_finish_twice() {
    let mut worker = EncoderWorker::new(5, 4, 2);
    assert_eq!((worker.step_num(), worker.frame_width(), worker.frame_height()), (5, 4, 2));
    let m = |t: u64, w: u32| {
        EncoderMessage::EncodeFrame(EncodeFrameMessage {
            frame: RawFrame { width: w, height: 2, display_time: t, data: vec![7u8; 32] },
            step_num: 5,
            index: 1,
        })
    };
    assert!(worker.keep_receiving(true));
    assert_eq!(worker.on_message(&m(9, 0)), WorkerAction::Skip);
    assert_eq!(worker.on_message(&m(1000, 4)), WorkerAction::Encode { open_encoder: true, timestamp: 0 });
    worker.record_write(true);
    assert_eq!(worker.on_message(&m(1250, 4)), WorkerAction::Encode { open_encoder: false, timestamp: 250 });
    worker.record_write(true);
    assert_eq!(worker.on_message(&m(900, 4)), WorkerAction::Encode { open_encoder: false, timestamp: 0 });
    worker.record_write(false);
    assert_eq!(worker.on_message(&EncoderMessage::Finish), WorkerAction::Drain);
    assert!(worker.keep_receiving(false));
    assert_eq!(worker.on_message(&EncoderMessage::Finish), WorkerAction::Drain);
    assert!(!worker.finalize());
    assert!(!worker.keep_receiving(true));
    assert!(worker.finalize());
    assert!(!worker.finalize());
}

#[test]
fn worker_without_frames_writes_nothing() {
    let mut worker = EncoderWorker::new(1, 4, 2);
    assert_eq!(worker.on_message(&EncoderMessage::Finish), WorkerAction::Drain);
    assert!(!worker.keep_receiving(true));
    assert!(!worker.finalize());
}

#[test]
fn worker_stops_on_closed_queue() {
    let mut worker = EncoderWorker::new(1, 4, 2);
    let msg = EncoderMessage::EncodeFrame(EncodeFrameMessage { frame: frame(3), step_num: 1, index: 1 });
    assert!(matches!(worker.on_message(&msg), WorkerAction::Encode { open_encoder: true, timestamp: 0 }));
    worker.record_write(true);
    worker.on_disconnected();
    assert!(!worker.keep_receiving(false));
    assert!(worker.finalize());
}

#[test]
fn frame_validity() {
    assert!(frame(0).is_valid());
    assert!(!RawFrame { width: 3, height: 0, display_time: 0, data: vec![] }.is_valid());
}

#[test]
fn frames_keep_order_within_step() {
    let mut state: CaptureState<(f64, f64)> = CaptureState::new();
    set_capture_status(&mut state, CaptureStatus::Recording);
    click(&mut state);
    let mut router = FrameRouter::new();
    let mut sent = vec![];
    for t in [30u64, 10, 20, 50, 40] {
        match router.route_frame(&state, frame(t)) {
            RouteAction::StartStep { worker, message, .. } | RouteAction::Forward { worker, message } => {
                assert_eq!(worker, 0);
                sent.push((message.index, message.frame.display_time));
            }
            other => panic!("unexpected {:?}", other),
        }
    }
    assert_eq!(sent, vec![(1, 30), (2, 10), (3, 20), (4, 50), (5, 40)]);
}

fn pixel_message(t: u64, data: Vec<u8>) -> EncoderMessage {
    EncoderMessage::EncodeFrame(EncodeFrameMessage {
        frame: RawFrame { width: 4, height: 2, display_time: t, data },
        step_num: 1,
        index: 1,
    })
}

#[test]
fn frames_without_pixels_are_skipped() {
    let mut worker = EncoderWorker::new(1, 4, 2);
    assert_eq!(worker.on_message(&pixel_message(10, vec![])), WorkerAction::Skip);
    assert_eq!(
        worker.on_message(&pixel_message(30, vec![1u8; 32])),
        WorkerAction::Encode { open_encoder: true, timestamp: 0 }
    );
    worker.record_write(true);
    assert_eq!(
        worker.on_message(&pixel_message(45, vec![1u8; 32])),
        WorkerAction::Encode { open_encoder: false, timestamp: 15 }
    );
}

#[test]
fn step_with_only_empty_frames_writes_nothing() {
    let mut worker = EncoderWorker::new(1, 4, 2);
    assert_eq!(worker.on_message(&pixel_message(10, vec![])), WorkerAction::Skip);
    assert_eq!(worker.on_message(&pixel_message(20, vec![])), WorkerAction::Skip);
    assert_eq!(worker.on_message(&EncoderMessage::Finish), WorkerAction::Drain);
    assert!(!worker.keep_receiving(true));
    assert!(!worker.finalize());
}

#[test]
fn rejected_frames_write_nothing() {
    let mut worker = EncoderWorker::new(1, 4, 2);
    assert!(matches!(worker.on_message(&pixel_message(10, vec![1u8; 32])), WorkerAction::Encode { .. }));
    worker.record_write(false);
    assert!(matches!(worker.on_message(&pixel_message(20, vec![1u8; 32])), WorkerAction::Encode { .. }));
    worker.record_write(false);
    worker.on_disconnected();
    assert!(!worker.keep_receiving(false));
    assert!(!worker.finalize());
}
