use stroids::cooldown::Cooldown;
use stroids::utils::{loop_pos, point_within_radius, Vector};

#[test]
fn test_point_within_radius() {
    let p1 = Vector::new(100_000, 100_000);
    let p2 = Vector::new(90_000, 90_000);
    assert_eq!(point_within_radius(p1, p2, 15_000), true);
}

#[test]
fn test_within_radius_boundary_inclusive() {
    // A 3-4-5 triangle: distance is exactly 5 units.
    let a = Vector::new(0, 0);
    let b = Vector::new(3_000, 4_000);
    assert_eq!(point_within_radius(a, b, 5_000), true);
    assert_eq!(point_within_radius(a, b, 4_999), false);
    assert_eq!(point_within_radius(a, b, -1), false);
}

#[test]
fn test_within_radius_symmetric_concrete() {
    let pairs = [
        (Vector::new(100_000, 100_000), Vector::new(90_000, 90_000), 15_000),
        (Vector::new(-5_000, 3_000), Vector::new(2_000, -4_000), 9_000),
        (Vector::new(0, 0), Vector::new(3_000, 4_000), 5_000),
        (Vector::new(7, -9), Vector::new(-7, 9), 1),
    ];
    for (a, b, r) in pairs {
        assert_eq!(point_within_radius(a, b, r), point_within_radius(b, a, r));
    }
}

#[test]
fn test_vector_componentwise_ops() {
    let a = Vector::new(1_000, 2_000);
    let b = Vector::new(3_000, 4_000);
    let s = a.add(b);
    assert_eq!((s.x, s.y), (4_000, 6_000));
    let d = b.sub(a);
    assert_eq!((d.x, d.y), (2_000, 2_000));
    // Fixed point: 1.5 * 2.0 == 3.0 and -1.5 * 2.0 == -3.0.
    let m = Vector::new(1_500, -1_500).mul(Vector::new(2_000, 2_000));
    assert_eq!((m.x, m.y), (3_000, -3_000));
    // 3.0 / 1.5 == 2.0 and -3.0 / 2.0 == -1.5.
    let q = Vector::new(3_000, -3_000).div(Vector::new(1_500, 2_000));
    assert_eq!((q.x, q.y), (2_000, -1_500));
    // Remainder is scale-invariant: 7 % 3 == 1, -7 % 3 == -1.
    let r = Vector::new(7_000, -7_000).rem(Vector::new(3_000, 3_000));
    assert_eq!((r.x, r.y), (1_000, -1_000));
}

#[test]
fn test_vector_min_max() {
    let a = Vector::new(1, 9);
    let b = Vector::new(5, 2);
    let lo = a.min(b);
    let hi = a.max(b);
    assert_eq!((lo.x, lo.y), (1, 2));
    assert_eq!((hi.x, hi.y), (5, 9));
}

#[test]
fn test_vector_round_half_away_from_zero() {
    let r1 = Vector::new(1_499, 1_500).round();
    assert_eq!((r1.x, r1.y), (1_000, 2_000));
    let r2 = Vector::new(-1_499, -1_500).round();
    assert_eq!((r2.x, r2.y), (-1_000, -2_000));
    let r3 = Vector::new(0, 2_000).round();
    assert_eq!((r3.x, r3.y), (0, 2_000));
}

#[test]
fn test_vector_from_splat() {
    let v = Vector::from(5);
    assert_eq!((v.x, v.y), (5, 5));
    let e = Vector::new_empty();
    assert_eq!((e.x, e.y), (0, 0));
}

#[test]
fn test_loop_pos_wraps_each_axis() {
    let bounds = Vector::new(1_024_000, 768_000);
    // In range: untouched.
    let inside = loop_pos(Vector::new(500_000, 400_000), 10_000, bounds);
    assert_eq!((inside.x, inside.y), (500_000, 400_000));
    // Crossing the upper margin teleports to the lower margin.
    let over = loop_pos(Vector::new(1_034_000, 400_000), 10_000, bounds);
    assert_eq!((over.x, over.y), (-10_000, 400_000));
    // Crossing the lower margin teleports to the upper margin.
    let under = loop_pos(Vector::new(500_000, -10_001), 10_000, bounds);
    assert_eq!((under.x, under.y), (500_000, 778_000));
    // The axes wrap independently.
    let both = loop_pos(Vector::new(-20_000, 900_000), 10_000, bounds);
    assert_eq!((both.x, both.y), (1_034_000, -10_000));
}

#[test]
fn test_cooldown_ticks_down_and_floors() {
    let mut c = Cooldown::new();
    assert!(c.ready());
    c.reset(500);
    assert!(!c.ready());
    assert_eq!(c.remaining, 500);
    c.tick(200);
    assert_eq!(c.remaining, 300);
    assert!(!c.ready());
    c.tick(200);
    assert_eq!(c.remaining, 100);
    c.tick(200);
    assert_eq!(c.remaining, 0);
    assert!(c.ready());
    c.tick(200);
    assert_eq!(c.remaining, 0);
    assert!(c.ready());
}
