use mumble::codec::native_to_sample;
use mumble::codec::sample_to_native;
use mumble::codec::unity_to_dB;
use mumble::mumble::Mumble;
use mumble::mumble::downmix;
use mumble::FRAME_SIZE;

#[test]
fn full_frame_triggers_exactly_one_pass() {
    // Pushing exactly one frame of samples dispatches exactly one frame,
    // and an identity pass hands the same count back in order.
    let mut m = Mumble::new();
    let mut passes = 0;
    for i in 0..FRAME_SIZE {
        let sample = (i as i64) * 1_000;
        if let Some(frame) = m.add_sample(sample) {
            passes += 1;
            assert_eq!(i, FRAME_SIZE - 1);
            assert_eq!(frame.len(), FRAME_SIZE);
            for (j, v) in frame.iter().enumerate() {
                assert_eq!(*v, sample_to_native((j as i64) * 1_000));
            }
            m.complete_frame(&frame);
        }
    }
    assert_eq!(passes, 1);
    for j in 0..FRAME_SIZE {
        let expected = native_to_sample(sample_to_native((j as i64) * 1_000));
        assert_eq!(m.get_sample(), expected);
    }
    assert_eq!(m.get_sample(), 0);
}

#[test]
fn one_sample_short_triggers_no_pass() {
    let mut m = Mumble::new();
    for i in 0..FRAME_SIZE - 1 {
        assert!(m.add_sample(i as i64).is_none());
    }
    // Nothing was emitted: the output queue still reads as silence.
    assert_eq!(m.get_sample(), 0);
}

#[test]
fn empty_output_queue_reads_silence() {
    let mut m = Mumble::new();
    assert_eq!(m.get_sample(), 0);
    assert_eq!(m.get_sample(), 0);
}

#[test]
fn identity_pass_yields_quantized_half_scale() {
    // 960 samples of 0.5 through an identity enhancement pass come back
    // as the quantized value round(0.5 * 32767) / 32767, in order.
    let mut m = Mumble::new();
    let mut emitted = Vec::new();
    for _ in 0..FRAME_SIZE {
        if let Some(frame) = m.add_sample(500_000) {
            // identity pass: the frame goes back unchanged
            m.complete_frame(&frame);
        }
        emitted.push(m.get_sample());
    }
    assert_eq!(emitted.len(), FRAME_SIZE);
    // The first 959 pulls race ahead of the first completed frame and
    // read silence; the final pull sees the frame's first sample.
    for s in emitted.iter().take(FRAME_SIZE - 1) {
        assert_eq!(*s, 0);
    }
    assert_eq!(emitted[FRAME_SIZE - 1], 500_015);
    for _ in 0..FRAME_SIZE - 1 {
        assert_eq!(m.get_sample(), 500_015);
    }
    assert_eq!(m.get_sample(), 0);
}

/// A stand-in engine that records the last value written to its
/// noise-suppression control and reports an adjustable AGC gain.
struct FakeEngine {
    agc_gain: i32,
    last_noise_suppress: Option<i32>,
}

#[test]
fn noise_suppression_written_fresh_before_each_pass() {
    let mut m = Mumble::new();
    let mut engine = FakeEngine { agc_gain: 7, last_noise_suppress: None };
    assert!(m.set_parameter(10, 500_000).is_none());

    let mut gains_seen = Vec::new();
    for i in 0..2 * FRAME_SIZE {
        if let Some(frame) = m.add_sample(100_000) {
            // The glue's frame step: read the gain, write the compensated
            // noise-suppression value, run the pass.
            let gain = engine.agc_gain;
            engine.last_noise_suppress = Some(m.noise_suppress_value(gain));
            gains_seen.push(gain);
            m.complete_frame(&frame);
            // The simulated AGC adapts between frames.
            engine.agc_gain = 12;
        }
        let _ = m.get_sample();
        if i == FRAME_SIZE {
            // After the first pass the write was encode_decibel(0.5) - 7.
            assert_eq!(engine.last_noise_suppress, Some(unity_to_dB(500_000) - 7));
            assert_eq!(engine.last_noise_suppress, Some(-37));
        }
    }
    // The second pass recomputed the value from the new gain.
    assert_eq!(gains_seen, vec![7, 12]);
    assert_eq!(engine.last_noise_suppress, Some(unity_to_dB(500_000) - 12));
    assert_eq!(engine.last_noise_suppress, Some(-42));
}

#[test]
fn downmix_averages_and_truncates() {
    assert_eq!(downmix(400_000, 600_000), 500_000);
    assert_eq!(downmix(0, 0), 0);
    assert_eq!(downmix(3, 4), 3);
    assert_eq!(downmix(-3, -4), -3);
    assert_eq!(downmix(-1_000_000, 1_000_000), 0);
}
