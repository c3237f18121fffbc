use cofield_receiver::FingersFlexValues;
use cofield_receiver::FingersSensibility;
use cofield_receiver::FlexSensorGloveNotification;
use cofield_receiver::Opt;
use cofield_receiver::OutputFormat;
use cofield_receiver::compute_hand_value;

#[test]
fn from_buffer_decodes_channels_and_timestamp() {
    let buffer: [u8; 14] = [1, 0, 2, 0, 3, 0, 4, 0, 5, 0, 16, 0, 0, 0];
    let n = FlexSensorGloveNotification::from_buffer(&buffer, 1000);
    assert_eq!(n.dt, 1016);
    assert_eq!(n.flex_values.0, [1, 2, 3, 4, 5]);
}

#[test]
fn from_buffer_reads_little_endian_high_bytes() {
    let buffer: [u8; 14] = [0, 1, 0, 2, 255, 255, 0, 0, 1, 1, 0, 1, 0, 0];
    let n = FlexSensorGloveNotification::from_buffer(&buffer, 0);
    assert_eq!(n.flex_values.0, [256, 512, 65535, 0, 257]);
    assert_eq!(n.dt, 256);
}

#[test]
fn detect_moved_fingers_is_strict() {
    let values = FingersFlexValues([15, 16, 14, 100, 0]);
    let sens = FingersSensibility([15, 15, 15, 15, 15]);
    let moved = values.detect_moved_fingers(&sens);
    assert_eq!(moved, [false, true, false, true, false]);
}

#[test]
fn detect_moved_fingers_per_finger_thresholds() {
    let values = FingersFlexValues([10, 10, 10, 10, 10]);
    let sens = FingersSensibility([9, 10, 11, 0, 10]);
    let moved = values.detect_moved_fingers(&sens);
    assert_eq!(moved, [true, false, false, true, false]);
}

#[test]
fn hand_value_single_finger() {
    assert_eq!(compute_hand_value(&[true, false, false, false, false]), Some(1));
    assert_eq!(compute_hand_value(&[false, false, true, false, false]), Some(3));
    assert_eq!(compute_hand_value(&[false, false, false, false, true]), Some(5));
}

#[test]
fn hand_value_rejects_idle_and_multi_finger() {
    assert_eq!(compute_hand_value(&[false, false, false, false, false]), None);
    assert_eq!(compute_hand_value(&[true, true, false, false, false]), None);
    assert_eq!(compute_hand_value(&[true, true, true, true, true]), None);
}

#[test]
fn default_configuration() {
    let opt = Opt::default();
    assert!(!opt.input_from_stdin);
    assert!(matches!(opt.output_format, OutputFormat::Pretty));
    assert_eq!(opt.output_glove_name, "FlexSensorGlove");
    assert!(opt.input_glove_name.is_none());
    assert_eq!(opt.aggregation_size, 10);
    assert_eq!(opt.fingers_sensibility.0, [15, 15, 15, 15, 15]);
    assert_eq!(opt.vibration_intensity, 255);
    assert!(!opt.verbose);
    assert!(!opt.lsl);
}

#[test]
fn aggregator_from_configuration() {
    let mut opt = Opt::default();
    assert!(opt.get_mean_aggregator().is_some());
    opt.aggregation_size = 0;
    assert!(opt.get_mean_aggregator().is_none());
}
