use menu_core::anim::lerp_settle;
use menu_core::anim::lerp_toward;
use menu_core::anim::near;

#[test]
fn one_step_covers_the_clamped_fraction() {
    // 24 per second over 16 ms: 384 per-mille of the distance.
    assert_eq!(lerp_toward(0, 100_000, 16, 24, 800), 38_400);
    // A long enough step is clamped to the whole remaining distance.
    assert_eq!(lerp_toward(0, 100_000, 1000, 24, 800), 100_000);
}

#[test]
fn within_epsilon_snaps_exactly() {
    assert_eq!(lerp_toward(99_300, 100_000, 16, 24, 800), 100_000);
    assert_eq!(lerp_toward(100_700, 100_000, 16, 24, 800), 100_000);
}

#[test]
fn repeated_steps_converge_exactly_and_never_overshoot() {
    let target: i64 = 100_000;
    let mut current: i64 = 0;
    let mut steps: u32 = 0;
    while current != target {
        let next = lerp_toward(current, target, 16, 24, 800);
        assert!(next > current, "progress stalled at {current}");
        assert!(next <= target, "overshot to {next}");
        current = next;
        steps += 1;
        assert!(steps < 1000, "did not converge");
    }
    assert_eq!(current, target);
}

#[test]
fn convergence_from_above_never_undershoots() {
    let target: i64 = -380_000;
    let mut current: i64 = 96_000;
    let mut steps: u32 = 0;
    while current != target {
        let next = lerp_toward(current, target, 16, 24, 800);
        assert!(next < current);
        assert!(next >= target);
        current = next;
        steps += 1;
        assert!(steps < 1000);
    }
}

#[test]
fn settle_reaches_the_target_exactly() {
    assert_eq!(lerp_settle(0, 100_000, 16, 24, 800), 100_000);
    assert_eq!(lerp_settle(96_000, -380_000, 16, 24, 800), -380_000);
    assert_eq!(lerp_settle(7, 7, 16, 24, 800), 7);
}

#[test]
fn near_compares_against_the_tolerance() {
    assert!(near(100, 100, 0));
    assert!(near(100, 180, 80));
    assert!(!near(100, 181, 80));
    assert!(near(-100, -180, 80));
    assert!(!near(-100, 100, 80));
}

#[test]
fn zero_delta_time_moves_nothing() {
    assert_eq!(lerp_toward(0, 100_000, 0, 24, 800), 0);
}
