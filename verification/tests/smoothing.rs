use coremon::smoothing::{Smoother, clamp_percent, copy_metrics, ewma_step, sanitize_raw, zero_metrics};

#[test]
fn step_moves_toward_raw_from_below() {
    // alpha = 1/5: the gap of 50 shrinks to floor(50 * 4 / 5) = 40.
    assert_eq!(ewma_step(0, 50, 1, 5), 10);
}

#[test]
fn step_moves_toward_raw_from_above() {
    assert_eq!(ewma_step(100, 50, 1, 5), 90);
}

#[test]
fn step_without_smoothing_is_identity_on_raw() {
    // alpha = 1 means no smoothing: the step lands on the raw value.
    assert_eq!(ewma_step(30, 70, 1, 1), 70);
    assert_eq!(ewma_step(70, 30, 1, 1), 30);
}

#[test]
fn step_at_raw_stays_put() {
    assert_eq!(ewma_step(42, 42, 1, 5), 42);
}

#[test]
fn scenario_constant_raw_converges() {
    // Four cores, raw constant at 50%, alpha = 0.2, ten ticks from zero:
    // the smoothed values rise monotonically toward 50 and obey the decay
    // bound 5^n * |smoothed - 50| <= 4^n * 50 at every tick.
    let mut smoother = Smoother::new(1, 5, 4);
    let raw = vec![50u64, 50, 50, 50];
    let expected = [10u64, 18, 25, 30, 34, 38, 41, 43, 45, 46];
    let mut prev = vec![0u64; 4];
    let mut pow5: u64 = 1;
    let mut pow4: u64 = 1;
    for tick in 0..10 {
        let snap = smoother.tick(&raw);
        pow5 *= 5;
        pow4 *= 4;
        assert_eq!(snap.len(), 4);
        for core in 0..4 {
            assert_eq!(snap[core], expected[tick]);
            // monotone approach from below
            assert!(snap[core] >= prev[core]);
            assert!(snap[core] <= 50);
            // exponential decay bound
            let gap = 50 - snap[core];
            assert!(pow5 * gap <= pow4 * 50);
        }
        prev = snap;
    }
}

#[test]
fn smoothing_never_leaves_percent_range() {
    let mut smoother = Smoother::new(3, 4, 2);
    let snap = smoother.tick(&vec![100u64, 0]);
    assert_eq!(snap, vec![75u64, 0]);
    let snap = smoother.tick(&vec![0u64, 100]);
    assert!(snap[0] <= 100 && snap[1] <= 100);
    assert_eq!(snap, vec![18u64, 75]);
}

#[test]
fn zero_metrics_is_zero_filled() {
    let v = zero_metrics(3);
    assert_eq!(v, vec![0u64, 0, 0]);
}

#[test]
fn copy_metrics_copies_exactly() {
    let v = vec![1u64, 99, 100];
    assert_eq!(copy_metrics(&v), v);
}

#[test]
fn clamp_caps_at_one_hundred() {
    assert_eq!(clamp_percent(100), 100);
    assert_eq!(clamp_percent(101), 100);
    assert_eq!(clamp_percent(7), 7);
}

#[test]
fn sanitize_clamps_each_entry() {
    assert_eq!(sanitize_raw(&vec![150u64, 99, 0]), vec![100u64, 99, 0]);
}
