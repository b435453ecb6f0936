use mumblebot::engine::{
    deliver_all, scale_sample_exec, DeliveryStep, Engine, DEFAULT_VOLUME_PERCENT,
    PREBUFFER_SAMPLES, SAMPLES_PER_FRAME,
};

#[test]
fn frame_constants_match_the_format() {
    // 10 ms of 48 kHz stereo.
    assert_eq!(SAMPLES_PER_FRAME, 960);
    // 30 s of 48 kHz stereo.
    assert_eq!(PREBUFFER_SAMPLES, 2_880_000);
    assert_eq!(DEFAULT_VOLUME_PERCENT, 25);
}

#[test]
fn volume_scaling_truncates_toward_zero() {
    assert_eq!(scale_sample_exec(100, 50), 50);
    assert_eq!(scale_sample_exec(101, 50), 50);
    assert_eq!(scale_sample_exec(-101, 50), -50);
    assert_eq!(scale_sample_exec(3, 50), 1);
    assert_eq!(scale_sample_exec(-3, 50), -1);
    assert_eq!(scale_sample_exec(i16::MAX, 100), i16::MAX);
    assert_eq!(scale_sample_exec(i16::MIN, 100), i16::MIN);
    assert_eq!(scale_sample_exec(12345, 0), 0);
    assert_eq!(scale_sample_exec(-32768, 25), -8192);
}

#[test]
fn finite_input_yields_one_packet_per_full_frame() {
    // Two full frames plus a 100-sample shortfall: the shortfall is never
    // emitted.
    let chunks = vec![
        vec![7i16; SAMPLES_PER_FRAME],
        vec![9i16; SAMPLES_PER_FRAME / 2],
        vec![11i16; SAMPLES_PER_FRAME / 2 + 100],
    ];
    let total: usize = chunks.iter().map(|c| c.len()).sum();
    let frames = deliver_all(&chunks, 100);
    assert_eq!(frames.len(), total / SAMPLES_PER_FRAME);
    assert_eq!(frames.len(), 2);
    // At 100 percent every sample passes through unchanged, so the frames
    // are exactly the first two 960-sample segments of the input.
    assert_eq!(frames[0], vec![7i16; SAMPLES_PER_FRAME]);
    let mut expected = vec![9i16; SAMPLES_PER_FRAME / 2];
    expected.extend(vec![11i16; SAMPLES_PER_FRAME / 2]);
    assert_eq!(frames[1], expected);
}

#[test]
fn exact_multiple_input_is_fully_emitted() {
    let chunks = vec![vec![100i16; 3 * SAMPLES_PER_FRAME]];
    let frames = deliver_all(&chunks, 50);
    assert_eq!(frames.len(), 3);
    for f in &frames {
        assert_eq!(f, &vec![50i16; SAMPLES_PER_FRAME]);
    }
}

#[test]
fn empty_input_emits_nothing() {
    assert_eq!(deliver_all(&vec![], 100).len(), 0);
    assert_eq!(deliver_all(&vec![vec![1i16; 10]], 100).len(), 0);
}

#[test]
fn delivery_steps_walk_the_buffer() {
    let mut e = Engine::new();
    e.start();
    e.set_volume(100);
    e.feed(vec![5i16; SAMPLES_PER_FRAME + 10]);
    match e.step() {
        DeliveryStep::Emit(f) => assert_eq!(f, vec![5i16; SAMPLES_PER_FRAME]),
        other => panic!("expected a frame, got {:?}", other),
    }
    // Ten samples left and input still open: the task must pull more.
    assert!(matches!(e.step(), DeliveryStep::AwaitInput));
    e.mark_input_done();
    // Input exhausted with less than a frame left: natural end of track.
    assert!(matches!(e.step(), DeliveryStep::Finished));
}

#[test]
fn stop_mid_playback_emits_nothing_further() {
    let mut e = Engine::new();
    e.start();
    e.feed(vec![1i16; 10 * SAMPLES_PER_FRAME]);
    match e.step() {
        DeliveryStep::Emit(_) => {}
        other => panic!("expected a frame, got {:?}", other),
    }
    e.cancel();
    // Plenty of buffered audio remains, yet nothing comes out any more.
    for _ in 0..20 {
        assert!(matches!(e.step(), DeliveryStep::Cancelled));
    }
}

#[test]
fn pause_keeps_the_buffer_and_resume_continues() {
    let mut e = Engine::new();
    e.start();
    e.set_volume(100);
    let mut samples = vec![1i16; SAMPLES_PER_FRAME];
    samples.extend(vec![2i16; SAMPLES_PER_FRAME]);
    e.feed(samples);
    match e.step() {
        DeliveryStep::Emit(f) => assert_eq!(f, vec![1i16; SAMPLES_PER_FRAME]),
        other => panic!("expected a frame, got {:?}", other),
    }
    e.cancel();
    assert!(matches!(e.step(), DeliveryStep::Cancelled));
    // Resume mints a fresh scope over the same buffer: the next frame is
    // the one that would have followed, nothing lost and nothing repeated.
    e.resume();
    match e.step() {
        DeliveryStep::Emit(f) => assert_eq!(f, vec![2i16; SAMPLES_PER_FRAME]),
        other => panic!("expected a frame, got {:?}", other),
    }
}

#[test]
fn volume_changes_apply_from_the_next_frame() {
    let mut e = Engine::new();
    e.start();
    e.set_volume(100);
    e.feed(vec![100i16; 2 * SAMPLES_PER_FRAME]);
    match e.step() {
        DeliveryStep::Emit(f) => assert_eq!(f[0], 100),
        other => panic!("expected a frame, got {:?}", other),
    }
    e.set_volume(25);
    match e.step() {
        DeliveryStep::Emit(f) => assert_eq!(f[0], 25),
        other => panic!("expected a frame, got {:?}", other),
    }
}

#[test]
fn prebuffering_pulls_until_thirty_seconds_are_held() {
    let mut e = Engine::new();
    e.start();
    assert!(e.prebuffer_wants_more());
    e.feed(vec![0i16; PREBUFFER_SAMPLES - 1]);
    assert!(e.prebuffer_wants_more());
    e.feed(vec![0i16; 1]);
    assert!(!e.prebuffer_wants_more());

    // An exhausted input also ends pre-buffering, however short.
    let mut e2 = Engine::new();
    e2.start();
    e2.mark_input_done();
    assert!(!e2.prebuffer_wants_more());
}
