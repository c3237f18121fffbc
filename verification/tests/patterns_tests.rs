use cofield_receiver::DEFAULT_PATTERN_MAX_DELAY;
use cofield_receiver::DEFAULT_REPEATING_PATTERN_DELAY;
use cofield_receiver::FINGERS_ORDER;
use cofield_receiver::Pattern;
use cofield_receiver::ReapeatingPattern;

fn finger(i: usize) -> [bool; 5] {
    let mut v = [false; 5];
    v[i] = true;
    v
}

fn detector() -> ReapeatingPattern {
    let pattern = Pattern::new(FINGERS_ORDER.to_vec(), DEFAULT_PATTERN_MAX_DELAY);
    ReapeatingPattern::new(pattern, DEFAULT_REPEATING_PATTERN_DELAY)
}

fn sweep(rp: &mut ReapeatingPattern, start: u64, step: u64) -> u64 {
    let mut t = start;
    for i in 0..5 {
        rp.process_moved_fingers(&finger(i), t);
        if i < 4 {
            t += step;
        }
    }
    t
}

#[test]
fn pattern_completes_in_order() {
    let mut p = Pattern::new(FINGERS_ORDER.to_vec(), 500);
    let mut t = 0;
    for i in 0..5 {
        assert!(!p.is_done());
        p.process_moved_fingers(&finger(i), t);
        t += 100;
    }
    assert!(p.is_done());
    p.reset();
    assert!(!p.is_done());
}

#[test]
fn pattern_ignores_wrong_and_multi_finger_steps() {
    let mut p = Pattern::new(FINGERS_ORDER.to_vec(), 500);
    p.process_moved_fingers(&finger(0), 0);
    // wrong finger: ignored, no reset
    p.process_moved_fingers(&finger(3), 100);
    // several fingers at once: ignored
    p.process_moved_fingers(&[true, true, false, false, false], 200);
    // the expected finger still advances the walk
    p.process_moved_fingers(&finger(1), 300);
    p.process_moved_fingers(&finger(2), 400);
    p.process_moved_fingers(&finger(3), 500);
    p.process_moved_fingers(&finger(4), 600);
    assert!(p.is_done());
}

#[test]
fn three_sweeps_reach_count_three() {
    let mut rp = detector();
    let t = sweep(&mut rp, 0, 100);
    assert_eq!(rp.nb_done(), 1);
    let t = sweep(&mut rp, t + 100, 100);
    assert_eq!(rp.nb_done(), 2);
    sweep(&mut rp, t + 100, 100);
    assert_eq!(rp.nb_done(), 3);
}

#[test]
fn mid_sweep_pause_resets_progress_not_count() {
    // a roomy inter-repeat delay, so only the inter-step pause is at play
    let pattern = Pattern::new(FINGERS_ORDER.to_vec(), DEFAULT_PATTERN_MAX_DELAY);
    let mut rp = ReapeatingPattern::new(pattern, 5000);
    sweep(&mut rp, 0, 100);
    assert_eq!(rp.nb_done(), 1);

    // two steps of the next sweep, then a pause beyond the inter-step delay
    rp.process_moved_fingers(&finger(0), 500);
    rp.process_moved_fingers(&finger(1), 600);
    // 700 ms of silence: progress falls back to the start, the count stays
    rp.process_moved_fingers(&finger(2), 1300);
    assert_eq!(rp.nb_done(), 1);

    // a full sweep from the start still completes and counts
    sweep(&mut rp, 1400, 100);
    assert_eq!(rp.nb_done(), 2);
}

#[test]
fn late_completion_restarts_count() {
    let mut rp = detector();
    let t = sweep(&mut rp, 0, 100);
    assert_eq!(rp.nb_done(), 1);
    // the next sweep completes more than a second after the first one
    sweep(&mut rp, t + 2000, 100);
    assert_eq!(rp.nb_done(), 1);
}
