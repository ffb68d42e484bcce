use creative_bevy::{Ball, BoundsMonitor, BoundsReport, BoundsWatch, Fixed3, LoadEvent};

fn ball() -> Ball {
    Ball::new(500_000, Fixed3::new(0, 1_000_000, 0))
}

fn fell(r: &BoundsReport) -> Vec<bool> {
    match r {
        BoundsReport::Checked(f) => f.clone(),
        other => panic!("expected a check, got {:?}", other),
    }
}

#[test]
fn fall_is_reported_once_while_below() {
    let mut b = ball();
    let bottom = -2_000_000;
    let heights = [0, -1_000_000, -2_500_000, -3_000_000, -10_000_000, -1_000_000, -20_000_000];
    let mut reports = 0;
    for y in heights {
        if b.check_fall(y, bottom) {
            reports += 1;
        }
    }
    assert_eq!(reports, 1);
    assert!(!b.is_in_bounds);
}

#[test]
fn no_fall_above_threshold() {
    let mut b = ball();
    assert!(!b.check_fall(-2_000_000, -2_000_000));
    assert!(b.is_in_bounds);
    assert!(!b.check_fall(5, -2_000_000));
    assert!(b.is_in_bounds);
}

#[test]
fn monitor_waits_for_load_and_colliders() {
    let mut m = BoundsMonitor::new();
    let mut balls = vec![ball()];
    let r = m.tick(&vec![], true, Some(0), &mut balls, &vec![-1]);
    assert!(matches!(r, BoundsReport::Inactive));
    let r = m.tick(&vec![LoadEvent::Loaded], false, Some(0), &mut balls, &vec![-1]);
    assert!(matches!(r, BoundsReport::Inactive));
    assert_eq!(m.watch, BoundsWatch::Watching);
    assert!(balls[0].is_in_bounds);
    let r = m.tick(&vec![], true, Some(0), &mut balls, &vec![-1]);
    assert_eq!(fell(&r), vec![true]);
    assert!(!balls[0].is_in_bounds);
    let r = m.tick(&vec![], true, Some(0), &mut balls, &vec![-7]);
    assert_eq!(fell(&r), vec![false]);
}

#[test]
fn missing_bottom_is_reported_once_per_load() {
    let mut m = BoundsMonitor::new();
    let mut balls = vec![ball()];
    let r = m.tick(&vec![LoadEvent::Loaded], true, None, &mut balls, &vec![0]);
    assert!(matches!(r, BoundsReport::MissingBottom));
    assert_eq!(m.watch, BoundsWatch::Disabled);
    let r = m.tick(&vec![], true, None, &mut balls, &vec![0]);
    assert!(matches!(r, BoundsReport::Inactive));
    let r = m.tick(&vec![LoadEvent::Reloading], true, None, &mut balls, &vec![0]);
    assert!(matches!(r, BoundsReport::Inactive));
    assert_eq!(m.watch, BoundsWatch::Waiting);
    let r = m.tick(&vec![LoadEvent::Loaded], true, None, &mut balls, &vec![0]);
    assert!(matches!(r, BoundsReport::MissingBottom));
}

#[test]
fn monitor_checks_each_ball() {
    let mut m = BoundsMonitor { watch: BoundsWatch::Watching };
    let mut out_already = ball();
    out_already.is_in_bounds = false;
    let mut balls = vec![ball(), ball(), out_already];
    let r = m.tick(&vec![], true, Some(100), &mut balls, &vec![99, 100, 0]);
    assert_eq!(fell(&r), vec![true, false, false]);
    assert_eq!(
        balls.iter().map(|b| b.is_in_bounds).collect::<Vec<_>>(),
        vec![false, true, false]
    );
}
