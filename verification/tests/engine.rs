use measuring_device::dispatch::{
    dispatch_frame, encode_publish_frame, encode_reply_frame, DispatchStep, Frame, ProtocolError,
    Reply,
};
use measuring_device::guard::{HwGuard, Task};
use measuring_device::icd::{
    encode_path, encode_start_measuring, Measurement, PathId, StartMeasuring,
};
use measuring_device::session::{Device, OneShotOutcome, SampleStep, SessionState};

fn start_frame(seq_no: u32, interval_ms: u32) -> Frame {
    Frame {
        path: encode_path(PathId::Start),
        seq_no,
        payload: encode_start_measuring(&StartMeasuring { interval_ms, threshold_bits: 0 }),
    }
}

fn stop_frame(seq_no: u32) -> Frame {
    Frame { path: encode_path(PathId::Stop), seq_no, payload: Vec::new() }
}

fn measure_frame(seq_no: u32) -> Frame {
    Frame { path: encode_path(PathId::Measure), seq_no, payload: Vec::new() }
}

fn reading(temp: f32) -> Measurement {
    Measurement { temp01_bits: temp.to_bits() }
}

/// Runs one successful tick and returns the sequence number it published.
fn run_tick(dev: &mut Device, temp: f32) -> u32 {
    assert!(dev.tick_check());
    let step = dev.sample_decision(Some(reading(temp)));
    match step {
        SampleStep::Publish { seq, m } => {
            assert_eq!(m, reading(temp));
            let ended = dev.record_publish(true);
            assert!(!ended);
            seq
        }
        SampleStep::Halt => panic!("healthy tick must publish"),
    }
}

#[test]
fn start_three_ticks_stop_restart() {
    let mut dev = Device::new();

    // start(interval_ms = 1000)
    let step = dispatch_frame(&mut dev, &start_frame(7, 1000));
    match step {
        DispatchStep::SpawnSession { seq_no, req } => {
            assert_eq!(seq_no, 7);
            assert_eq!(req, StartMeasuring { interval_ms: 1000, threshold_bits: 0 });
        }
        _ => panic!("start must spawn the session"),
    }
    assert!(dev.session_acquire());
    assert!(dev.session_confirm(true));

    // Three ticks publish sequence numbers 0, 1, 2.
    let seqs = [run_tick(&mut dev, 20.0), run_tick(&mut dev, 20.5), run_tick(&mut dev, 21.0)];
    assert_eq!(seqs, [0, 1, 2]);

    // Stop: acknowledged at once, observed at the next tick boundary.
    let step = dispatch_frame(&mut dev, &stop_frame(8));
    assert_eq!(step, DispatchStep::Reply { seq_no: 8, reply: Reply::StopAck(true) });
    assert!(dev.stop_requested);
    assert!(!dev.tick_check());
    assert_eq!(dev, Device::new());

    // A new session starts cleanly with the sequence reset to 0.
    assert!(dev.session_acquire());
    assert!(dev.session_confirm(true));
    assert_eq!(run_tick(&mut dev, 19.0), 0);
}

#[test]
fn stop_reflected_within_one_tick() {
    let mut dev = Device::new();
    assert!(dev.session_acquire());
    assert!(dev.session_confirm(true));
    run_tick(&mut dev, 20.0);
    dev.request_stop();
    // The very next boundary check exits the loop.
    assert!(!dev.tick_check());
    assert_eq!(dev.session, SessionState::Idle);
    assert_eq!(dev.guard, HwGuard::Free);
    assert!(!dev.stop_requested);
}

#[test]
fn publish_failure_terminates_gracefully() {
    let mut dev = Device::new();
    assert!(dev.session_acquire());
    assert!(dev.session_confirm(true));
    assert!(dev.tick_check());
    let ended = dev.record_publish(false);
    assert!(ended);
    // Hardware released, flag reset: the dispatcher keeps working and a
    // new start succeeds.
    assert_eq!(dev.guard, HwGuard::Free);
    assert!(!dev.stop_requested);
    let step = dispatch_frame(&mut dev, &start_frame(9, 500));
    assert!(matches!(step, DispatchStep::SpawnSession { .. }));
    assert!(dev.session_acquire());
    assert!(dev.session_confirm(true));
}

#[test]
fn reply_failure_aborts_session_before_running() {
    let mut dev = Device::new();
    assert!(dev.session_acquire());
    assert_eq!(dev.guard, HwGuard::HeldBy(Task::Session));
    // The reply to the start request failed: abort without running and
    // release the just-acquired hardware.
    assert!(!dev.session_confirm(false));
    assert_eq!(dev.session, SessionState::Idle);
    assert_eq!(dev.guard, HwGuard::Free);
}

#[test]
fn guard_contention_between_session_and_one_shot() {
    let mut dev = Device::new();
    assert!(dev.session_acquire());
    assert!(dev.session_confirm(true));
    // While the session holds the hardware a one-shot caller suspends.
    let before = dev;
    assert!(!dev.one_shot_acquire());
    assert_eq!(dev, before);
    // Once the session terminates the one-shot caller is granted.
    dev.request_stop();
    assert!(!dev.tick_check());
    assert!(dev.one_shot_acquire());
    assert_eq!(dev.guard, HwGuard::HeldBy(Task::OneShot));
    // And a session start now contends the other way around.
    assert!(!dev.session_acquire());
}

#[test]
fn one_shot_measurement_when_idle() {
    let mut dev = Device::new();
    let step = dispatch_frame(&mut dev, &measure_frame(3));
    assert_eq!(step, DispatchStep::MeasureOnce { seq_no: 3 });
    assert!(dev.one_shot_acquire());
    let m = reading(22.25);
    match dev.one_shot_finish(Some(m)) {
        OneShotOutcome::Reply(got) => assert_eq!(got, m),
        OneShotOutcome::Halt => panic!("healthy reading must be replied"),
    }
    // The hardware is released immediately after the reply.
    assert_eq!(dev.guard, HwGuard::Free);
    assert_eq!(dev.session, SessionState::Idle);
}

#[test]
fn hardware_fault_is_fatal_decision() {
    let mut dev = Device::new();
    assert!(dev.session_acquire());
    assert!(dev.session_confirm(true));
    assert!(dev.tick_check());
    assert_eq!(dev.sample_decision(None), SampleStep::Halt);
    let mut dev2 = Device::new();
    assert!(dev2.one_shot_acquire());
    assert!(matches!(dev2.one_shot_finish(None), OneShotOutcome::Halt));
}

#[test]
fn sequence_number_wraps_on_overflow() {
    let mut dev = Device {
        stop_requested: false,
        guard: HwGuard::HeldBy(Task::Session),
        session: SessionState::Running { next_seq: u32::MAX },
    };
    assert!(dev.tick_check());
    match dev.sample_decision(Some(reading(20.0))) {
        SampleStep::Publish { seq, .. } => assert_eq!(seq, u32::MAX),
        SampleStep::Halt => panic!("healthy tick must publish"),
    }
    assert!(!dev.record_publish(true));
    assert_eq!(dev.session, SessionState::Running { next_seq: 0 });
}

#[test]
fn unknown_path_gets_error_reply_and_state_is_kept() {
    let mut dev = Device::new();
    let bogus = Frame { path: b"bogus/path".to_vec(), seq_no: 41, payload: Vec::new() };
    let step = dispatch_frame(&mut dev, &bogus);
    assert_eq!(
        step,
        DispatchStep::Reply { seq_no: 41, reply: Reply::Protocol(ProtocolError::UnknownPath) }
    );
    assert_eq!(dev, Device::new());
    // The publish topic and the error path have no inbound handler either.
    let topic = Frame { path: encode_path(PathId::Data), seq_no: 42, payload: Vec::new() };
    assert_eq!(
        dispatch_frame(&mut dev, &topic),
        DispatchStep::Reply { seq_no: 42, reply: Reply::Protocol(ProtocolError::UnknownPath) }
    );
    // A subsequent valid request is processed normally.
    assert_eq!(
        dispatch_frame(&mut dev, &stop_frame(43)),
        DispatchStep::Reply { seq_no: 43, reply: Reply::StopAck(true) }
    );
    assert!(dev.stop_requested);
}

#[test]
fn malformed_start_payload_gets_error_reply() {
    let mut dev = Device::new();
    let bad = Frame { path: encode_path(PathId::Start), seq_no: 5, payload: vec![0x80] };
    let step = dispatch_frame(&mut dev, &bad);
    assert_eq!(
        step,
        DispatchStep::Reply { seq_no: 5, reply: Reply::Protocol(ProtocolError::BadPayload) }
    );
    assert_eq!(dev, Device::new());
    // A well-formed start afterwards is routed to the session.
    assert!(matches!(
        dispatch_frame(&mut dev, &start_frame(6, 250)),
        DispatchStep::SpawnSession { .. }
    ));
}

#[test]
fn reply_and_publish_frames() {
    let f = encode_reply_frame(8, &Reply::StopAck(true));
    assert_eq!(f.path, b"measuring/stop".to_vec());
    assert_eq!(f.seq_no, 8);
    assert_eq!(f.payload, vec![1]);

    let f = encode_reply_frame(9, &Reply::StartAck);
    assert_eq!(f.path, b"measuring/start".to_vec());
    assert!(f.payload.is_empty());

    let f = encode_reply_frame(10, &Reply::Protocol(ProtocolError::UnknownPath));
    assert_eq!(f.path, b"error".to_vec());
    assert_eq!(f.payload, vec![0]);

    let m = reading(21.5);
    let f = encode_reply_frame(11, &Reply::OneShot(m));
    assert_eq!(f.path, b"measurement".to_vec());
    assert_eq!(f.payload, postcard::to_allocvec(&21.5f32).unwrap());

    let f = encode_publish_frame(2, &m);
    assert_eq!(f.path, b"measuring/data".to_vec());
    assert_eq!(f.seq_no, 2);
    assert_eq!(f.payload, postcard::to_allocvec(&21.5f32).unwrap());
}
