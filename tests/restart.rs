use creative_bevy::{restart, Ball, BannerKind, Fixed3, Overlay};

#[test]
fn restart_after_fall_resets_everything() {
    let start = Fixed3::new(0, 1_000_000, 0);
    let mut balls = vec![Ball::new(500_000, start)];
    assert!(balls[0].check_fall(-5_000_000, -1_000_000));
    let mut overlay = Overlay::new();
    overlay.show(7, BannerKind::Fall);
    let orders = restart(&mut balls, &mut overlay);
    assert!(balls[0].is_in_bounds);
    assert_eq!(orders.motions.len(), 1);
    assert_eq!(orders.motions[0].position, start);
    assert_eq!(orders.motions[0].linvel, Fixed3::zero());
    assert_eq!(orders.motions[0].angvel, Fixed3::zero());
    assert_eq!(orders.despawn, vec![7]);
    assert!(overlay.banners.is_empty());
}

#[test]
fn restart_keeps_win_banner() {
    let mut balls = vec![Ball::new(1, Fixed3::new(3, 4, 5))];
    let mut overlay = Overlay::new();
    overlay.show(1, BannerKind::Win);
    overlay.show(2, BannerKind::Fall);
    overlay.show(3, BannerKind::Fall);
    let orders = restart(&mut balls, &mut overlay);
    assert_eq!(orders.despawn, vec![2, 3]);
    assert_eq!(overlay.banners.len(), 1);
    assert_eq!(overlay.banners[0].id, 1);
    assert_eq!(overlay.banners[0].kind, BannerKind::Win);
}

#[test]
fn restart_twice_changes_nothing_more() {
    let mut balls = vec![Ball::new(1, Fixed3::new(-3, 4, 5)), Ball::new(2, Fixed3::new(9, 9, 9))];
    let mut overlay = Overlay::new();
    overlay.show(4, BannerKind::Fall);
    let first = restart(&mut balls, &mut overlay);
    let after_first = balls.clone();
    let second = restart(&mut balls, &mut overlay);
    assert_eq!(balls, after_first);
    assert_eq!(first.motions, second.motions);
    assert!(second.despawn.is_empty());
    assert_eq!(second.motions[1].position, Fixed3::new(9, 9, 9));
}

#[test]
fn restart_without_balls() {
    let mut balls: Vec<Ball> = Vec::new();
    let mut overlay = Overlay::new();
    let orders = restart(&mut balls, &mut overlay);
    assert!(orders.motions.is_empty());
    assert!(orders.despawn.is_empty());
}
