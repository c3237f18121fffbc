use cofield_receiver::DEFAULT_PATTERN_MAX_DELAY;
use cofield_receiver::DEFAULT_REPEATING_PATTERN_DELAY;
use cofield_receiver::FINGERS_ORDER;
use cofield_receiver::FingersFlexValues;
use cofield_receiver::FingersSensibility;
use cofield_receiver::FlexSensorGloveNotification;
use cofield_receiver::MeanAggregator;
use cofield_receiver::Pattern;
use cofield_receiver::Process;
use cofield_receiver::ReapeatingPattern;
use cofield_receiver::TextPattern;
use cofield_receiver::VibrationMode;

fn frame(dt: u64, values: [u32; 5]) -> FlexSensorGloveNotification {
    FlexSensorGloveNotification { dt, flex_values: FingersFlexValues(values) }
}

fn finger_frame(dt: u64, i: usize) -> FlexSensorGloveNotification {
    let mut values = [0u32; 5];
    values[i] = 100;
    frame(dt, values)
}

fn sensibility() -> FingersSensibility {
    FingersSensibility([15, 15, 15, 15, 15])
}

#[test]
fn bare_pipeline_is_a_sensor_logger() {
    let mut process = Process::new(sensibility());
    let out = process.step(frame(5, [16, 15, 0, 40, 15]));
    assert_eq!(out.row.notification.dt, 5);
    assert_eq!(out.row.notification.flex_values.0, [16, 15, 0, 40, 15]);
    assert_eq!(out.row.moving_fingers, [true, false, false, true, false]);
    assert_eq!(out.row.vibration_state, [0, 0, 0, 0, 0]);
    assert_eq!(out.emitted, None);
    assert!(!out.mirror_to_keyboard);
    assert_eq!(out.vibration_write, None);
    assert_eq!(out.repeat_completions, 0);
}

#[test]
fn window_of_ten_caps_the_buffer() {
    let mut process = Process::new(sensibility());
    process.set_aggregator(Some(MeanAggregator::new(10)));

    let mut outputs = Vec::new();
    for k in 1..=12u32 {
        let out = process.step(frame(k as u64, [k, 0, 0, 0, 0]));
        outputs.push(out.row.notification.flex_values.0[0]);
    }

    // frame 11 averages frames 2..=11 (65 / 10 = 6), frame 12 averages
    // 3..=12 (75 / 10 = 7): both reflect the eviction of the oldest frames
    assert_eq!(outputs[10], 11 - 6);
    assert_eq!(outputs[11], 12 - 7);
    // earlier, the full history was still in the window
    assert_eq!(outputs[0], 0);
    assert_eq!(outputs[9], 10 - 5);
}

#[test]
fn smoothing_feeds_movement_detection() {
    let mut process = Process::new(sensibility());
    process.set_aggregator(Some(MeanAggregator::new(4)));

    // a constant high signal is baseline-corrected to zero: no movement,
    // even though the raw values sit far above the thresholds
    for k in 0..6u64 {
        let out = process.step(frame(k, [500, 500, 500, 500, 500]));
        assert_eq!(out.row.moving_fingers, [false; 5]);
    }

    // a sudden jump on one channel stands out against the baseline
    let out = process.step(frame(6, [600, 500, 500, 500, 500]));
    assert!(out.row.moving_fingers[0]);
    assert_eq!(out.row.moving_fingers[1..], [false; 4]);
}

#[test]
fn decoder_in_the_pipeline_emits_characters() {
    let mut process = Process::new(sensibility());
    process.set_text_pattern_detection(Some(TextPattern::new()));

    assert_eq!(process.step(finger_frame(0, 0)).emitted, None);
    let out = process.step(finger_frame(20, 1));
    assert_eq!(out.emitted.as_deref(), Some("G"));
    assert!(!out.mirror_to_keyboard);
}

#[test]
fn keyboard_mirroring_follows_the_toggle() {
    let mut process = Process::new(sensibility());
    let mut decoder = TextPattern::new();
    decoder.use_keyboard_emulation(true);
    process.set_text_pattern_detection(Some(decoder));

    let out = process.step(finger_frame(0, 0));
    assert_eq!(out.emitted, None);
    assert!(!out.mirror_to_keyboard);

    let out = process.step(finger_frame(20, 1));
    assert_eq!(out.emitted.as_deref(), Some("G"));
    assert!(out.mirror_to_keyboard);
}

#[test]
fn third_sweep_switches_feedback_to_randomized() {
    let mut process = Process::new(sensibility());
    let pattern = Pattern::new(FINGERS_ORDER.to_vec(), DEFAULT_PATTERN_MAX_DELAY);
    process.set_repeating_pattern(Some(ReapeatingPattern::new(
        pattern,
        DEFAULT_REPEATING_PATTERN_DELAY,
    )));
    process.set_vibration_glove(Some(cofield_receiver::VibrationGlove::new(255)));

    let mut t = 0u64;
    let mut last_out = None;
    for sweep in 0..3 {
        for i in 0..5 {
            let out = process.step(finger_frame(t, i));
            t += 100;
            last_out = Some((sweep, out));
        }
    }
    let (_, out) = last_out.unwrap();
    assert_eq!(out.repeat_completions, 3);

    // in the default scheduled mode the glove pulsed all fingers at 60; the
    // switch to randomized pulses silences it until its first random delay
    // has passed, so the switch itself is visible as an all-zero write
    assert_eq!(out.vibration_write, Some([0, 0, 0, 0, 0]));
    assert_eq!(out.row.vibration_state, [0, 0, 0, 0, 0]);
}

#[test]
fn first_write_of_the_scheduled_mode() {
    let mut process = Process::new(sensibility());
    process.set_vibration_glove(Some(cofield_receiver::VibrationGlove::new(255)));

    // the default scheduled mode starts inside a pulse of intensity 60
    let out = process.step(frame(0, [0; 5]));
    assert_eq!(out.vibration_write, Some([60, 60, 60, 60, 60]));
    // the unchanged pulse is not written twice
    let out = process.step(frame(10, [0; 5]));
    assert_eq!(out.vibration_write, None);
    assert_eq!(out.row.vibration_state, [60, 60, 60, 60, 60]);
}

#[test]
fn stages_can_be_swapped_between_frames() {
    let mut process = Process::new(sensibility());
    process.set_text_pattern_detection(Some(TextPattern::new()));
    process.step(finger_frame(0, 0));

    // dropping the decoder mid-session stops the emissions
    process.set_text_pattern_detection(None);
    let out = process.step(finger_frame(20, 1));
    assert_eq!(out.emitted, None);

    // a freshly attached decoder starts from its idle state
    process.set_text_pattern_detection(Some(TextPattern::new()));
    let out = process.step(finger_frame(40, 0));
    assert_eq!(out.emitted, None);
    let out = process.step(finger_frame(60, 1));
    assert_eq!(out.emitted.as_deref(), Some("G"));
}

#[test]
fn feedback_switch_is_sticky() {
    let mut process = Process::new(sensibility());
    let pattern = Pattern::new(FINGERS_ORDER.to_vec(), DEFAULT_PATTERN_MAX_DELAY);
    process.set_repeating_pattern(Some(ReapeatingPattern::new(
        pattern,
        DEFAULT_REPEATING_PATTERN_DELAY,
    )));
    let glove = cofield_receiver::VibrationGlove::new(255);
    process.set_vibration_glove(Some(glove));

    let mut t = 0u64;
    for _ in 0..3 {
        for i in 0..5 {
            process.step(finger_frame(t, i));
            t += 100;
        }
    }

    // the mode stays randomized afterwards: within its first random delay
    // (at least 2000 ms) every later write keeps every finger silent
    let out = process.step(frame(t, [0; 5]));
    assert_eq!(out.vibration_write, None);
    assert_eq!(out.row.vibration_state, [0, 0, 0, 0, 0]);
}

#[test]
fn scaled_movement_vector_for_plotting() {
    let mut process = Process::new(sensibility());
    let out = process.step(frame(0, [100, 0, 0, 100, 0]));
    assert_eq!(out.row.moving_fingers_scaled(), [500, 0, 0, 500, 0]);
}

#[test]
fn pipeline_mode_switch_uses_vibration_mode_variant() {
    let mut process = Process::new(sensibility());
    let mut glove = cofield_receiver::VibrationGlove::new(255);
    glove.set_vibration_mode(VibrationMode::_SynapticResponse);
    process.set_vibration_glove(Some(glove));

    let out = process.step(frame(0, [100, 0, 0, 0, 0]));
    assert_eq!(out.vibration_write, Some([255, 0, 0, 0, 0]));
}
