use cofield_receiver::FingersFlexValues;
use cofield_receiver::FlexSensorGloveNotification;
use cofield_receiver::MeanAggregator;

fn frame(dt: u64, v: u32) -> FlexSensorGloveNotification {
    FlexSensorGloveNotification { dt, flex_values: FingersFlexValues([v, v, v, v, v]) }
}

#[test]
fn first_push_is_all_zero() {
    let mut agg = MeanAggregator::new(3);
    let out = agg.push_and_aggregate(frame(7, 42));
    assert_eq!(out.dt, 7);
    assert_eq!(out.flex_values.0, [0, 0, 0, 0, 0]);
}

#[test]
fn window_mean_with_truncation() {
    let mut agg = MeanAggregator::new(3);
    agg.push_and_aggregate(frame(0, 10));
    let out = agg.push_and_aggregate(frame(1, 20));
    // mean of {10, 20} truncates to 15
    assert_eq!(out.flex_values.0, [5, 5, 5, 5, 5]);
    let out = agg.push_and_aggregate(frame(2, 30));
    // window full: mean of {10, 20, 30} is 20
    assert_eq!(out.flex_values.0, [10, 10, 10, 10, 10]);
    let out = agg.push_and_aggregate(frame(3, 40));
    // oldest frame evicted: mean of {20, 30, 40} is 30
    assert_eq!(out.flex_values.0, [10, 10, 10, 10, 10]);
}

#[test]
fn constant_stream_stays_zero() {
    let mut agg = MeanAggregator::new(4);
    for k in 0..10u64 {
        let out = agg.push_and_aggregate(frame(k, 33));
        assert_eq!(out.flex_values.0, [0, 0, 0, 0, 0]);
    }
}

#[test]
fn output_floors_at_zero() {
    let mut agg = MeanAggregator::new(3);
    agg.push_and_aggregate(frame(0, 100));
    let out = agg.push_and_aggregate(frame(1, 10));
    // mean of {100, 10} is 55, above the last value: floored at zero
    assert_eq!(out.flex_values.0, [0, 0, 0, 0, 0]);
}

#[test]
fn shrinking_window_truncates_history() {
    let mut agg = MeanAggregator::new(5);
    agg.push_and_aggregate(frame(0, 10));
    agg.push_and_aggregate(frame(1, 20));
    agg.push_and_aggregate(frame(2, 30));
    agg.push_and_aggregate(frame(3, 40));

    agg.set_aggregation_size(2);

    // only {30, 40} survived; the push evicts 30 and averages {40, 50}
    let out = agg.push_and_aggregate(frame(4, 50));
    assert_eq!(out.flex_values.0, [5, 5, 5, 5, 5]);
}

#[test]
fn growing_window_keeps_history() {
    let mut agg = MeanAggregator::new(2);
    agg.push_and_aggregate(frame(0, 10));
    agg.push_and_aggregate(frame(1, 20));

    agg.set_aggregation_size(4);

    // nothing dropped: the push keeps {10, 20} and appends 30
    let out = agg.push_and_aggregate(frame(2, 30));
    assert_eq!(out.flex_values.0, [10, 10, 10, 10, 10]);
}

#[test]
fn channels_are_independent() {
    let mut agg = MeanAggregator::new(2);
    agg.push_and_aggregate(FlexSensorGloveNotification {
        dt: 0,
        flex_values: FingersFlexValues([10, 0, 100, 4, 7]),
    });
    let out = agg.push_and_aggregate(FlexSensorGloveNotification {
        dt: 1,
        flex_values: FingersFlexValues([30, 8, 100, 0, 8]),
    });
    // per channel: value minus truncated mean, floored at zero
    assert_eq!(out.flex_values.0, [10, 4, 0, 0, 1]);
}
