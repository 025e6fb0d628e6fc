use rand::SeedableRng;
use stroids::components::laser::{Laser, LaserConfig};
use stroids::components::roid::{Roid, RoidConfig};
use stroids::components::ship::{Ship, ShipConfig};
use stroids::heading::DirTable;
use stroids::utils::Vector;
use stroids::ConfigError;

fn table_dirs() -> Vec<Vector> {
    let mut dirs = Vec::new();
    for deg in 0..360 {
        let rad = (deg as f64) * std::f64::consts::PI / 180.0;
        dirs.push(Vector::new(
            (rad.cos() * 1000.0).round() as i64,
            (rad.sin() * 1000.0).round() as i64,
        ));
    }
    dirs
}

fn table() -> DirTable {
    DirTable::new(table_dirs()).unwrap()
}

fn ship_cfg() -> ShipConfig {
    ShipConfig {
        scale: 1_000,
        rotation_increment: 90_000,
        thrust_increment: 5_000,
        blink_timer: 1_000,
        laser_timer: 500,
        max_velocity: 100_000,
    }
}

fn laser_cfg() -> LaserConfig {
    LaserConfig { laser_lifetime: 2_000, laser_speed: 10_000 }
}

fn roid_cfg() -> RoidConfig {
    RoidConfig {
        min_speed: 0,
        max_speed: 1,
        max_rot: 1,
        min_scale: 999,
        max_scale: 1_000,
        min_spawn_mag: 200_000,
        max_spawn_mag: 200_001,
    }
}

#[test]
fn test_dir_table_validation() {
    let mut short = table_dirs();
    short.pop();
    assert!(matches!(DirTable::new(short), Err(ConfigError::InvalidDirTable)));

    let mut oversized = table_dirs();
    oversized[17] = Vector::new(1_001, 0);
    assert!(matches!(DirTable::new(oversized), Err(ConfigError::InvalidDirTable)));

    assert!(DirTable::new(table_dirs()).is_ok());
}

#[test]
fn test_dir_lookup_normalizes_and_quantizes() {
    let t = table();
    let east = t.dir(0);
    assert_eq!((east.x, east.y), (1_000, 0));
    let south = t.dir(90_000);
    assert_eq!((south.x, south.y), (0, 1_000));
    // Negative angles normalize: -90 degrees is the 270-degree entry.
    let north = t.dir(-90_000);
    assert_eq!((north.x, north.y), (0, -1_000));
    // Full turns vanish: 450 degrees is the 90-degree entry.
    let wrapped = t.dir(450_000);
    assert_eq!((wrapped.x, wrapped.y), (0, 1_000));
    // Quantization truncates to the whole degree below.
    let q = t.dir(500);
    assert_eq!((q.x, q.y), (1_000, 0));
}

#[test]
fn test_laser_flies_along_forward_heading() {
    let t = table();
    // A ship rotation of 90 degrees means a forward heading of 0 degrees.
    let l = Laser::new(&laser_cfg(), Vector::new(200_000, 200_000), 90_000, &t);
    assert_eq!(l.rot, 0);
    assert_eq!(l.life, 2_000);
    assert_eq!((l.vel.x, l.vel.y), (10_000, 0));
    assert_eq!((l.pos.x, l.pos.y), (200_000, 200_000));

    let mut l = l;
    l.update(1_000);
    assert_eq!((l.pos.x, l.pos.y), (210_000, 200_000));
    assert_eq!(l.life, 1_000);
    assert!(!l.expired());
    l.update(1_000);
    assert_eq!(l.life, 0);
    assert!(l.expired());
}

#[test]
fn test_laser_expires_after_exactly_its_life() {
    let t = table();
    let mut l = Laser::new(&laser_cfg(), Vector::new(100_000, 100_000), 0, &t);
    l.life = 16;
    l.update(16);
    assert!(l.expired());
}

#[test]
fn test_laser_wraps_across_the_field() {
    let t = table();
    let mut l = Laser::new(&laser_cfg(), Vector::new(1_020_000, 300_000), 90_000, &t);
    // One second at 10 units/second crosses the right margin (1024 + 4).
    l.update(1_000);
    assert_eq!((l.pos.x, l.pos.y), (-4_000, 300_000));
}

#[test]
fn test_roid_spawn_respects_configured_ranges() {
    let t = table();
    let cfg = roid_cfg();
    let mut rng = rand::rngs::StdRng::seed_from_u64(42);
    for _ in 0..50 {
        let r = Roid::new(&cfg, &t, &mut rng);
        // Scale is pinned to 999 by the one-wide range: 50 * 0.999 units.
        assert_eq!(r.diameter, 49_950);
        assert_eq!(r.rot, 0);
        assert!(-1 <= r.rot_vel && r.rot_vel < 1);
        // Speed is pinned to zero by the one-wide range.
        assert_eq!((r.vel.x, r.vel.y), (0, 0));
        // The polar offset magnitude is pinned to 200 units.
        let dx = r.pos.x - 512_000;
        let dy = r.pos.y - 384_000;
        let d2 = dx * dx + dy * dy;
        assert!(190_000i64 * 190_000 <= d2 && d2 <= 210_000i64 * 210_000);
    }
}

#[test]
fn test_ship_starts_centred_and_still() {
    let s = Ship::new(ship_cfg());
    assert_eq!((s.pos.x, s.pos.y), (512_000, 384_000));
    assert_eq!((s.vel.x, s.vel.y), (0, 0));
    assert_eq!(s.rot, 0);
    assert_eq!(s.radius, 80_000);
    assert!(!s.dead);
    assert!(!s.tinted);
    assert!(s.blink_cooldown.ready());
    assert!(s.laser_cooldown.ready());
}

#[test]
fn test_ship_rotates_by_rate_times_dt() {
    let t = table();
    let mut s = Ship::new(ship_cfg());
    s.actions.rotate_cw = true;
    s.update(1_000, &t);
    assert_eq!(s.rot, 90_000);
    s.actions.rotate_cw = false;
    s.actions.rotate_ccw = true;
    s.update(500, &t);
    assert_eq!(s.rot, 45_000);
    // Counterclockwise through zero normalizes into [0, 360).
    s.update(1_000, &t);
    assert_eq!(s.rot, 315_000);
}

#[test]
fn test_ship_thrusts_along_heading_and_clamps() {
    let t = table();
    let mut s = Ship::new(ship_cfg());
    s.rot = 90_000;  // forward heading 0 degrees
    s.actions.fire_boosters = true;
    s.update(1_000, &t);
    assert_eq!((s.vel.x, s.vel.y), (5_000, 0));

    let mut capped_cfg = ship_cfg();
    capped_cfg.max_velocity = 3_000;
    let mut c = Ship::new(capped_cfg);
    c.rot = 90_000;
    c.actions.fire_boosters = true;
    c.update(1_000, &t);
    assert_eq!((c.vel.x, c.vel.y), (3_000, 0));
}

#[test]
fn test_ship_integrates_velocity_with_frame_scale() {
    let t = table();
    let mut s = Ship::new(ship_cfg());
    // One unit per frame for one second: 60 units of travel.
    s.vel = Vector::new(1_000, 0);
    s.update(1_000, &t);
    assert_eq!((s.pos.x, s.pos.y), (572_000, 384_000));
}

#[test]
fn test_ship_blink_toggles_once_per_cooldown() {
    let t = table();
    let mut s = Ship::new(ship_cfg());
    s.actions.is_blinking = true;
    s.update(100, &t);
    assert!(s.tinted);
    assert_eq!(s.blink_cooldown.remaining, 900);
    // The intent is still held, but the cooldown gates a second toggle.
    s.update(100, &t);
    assert!(s.tinted);
    assert_eq!(s.blink_cooldown.remaining, 800);
}

#[test]
fn test_ship_fire_gate_and_laser_spawn_point() {
    let t = table();
    let mut s = Ship::new(ship_cfg());
    s.rot = 90_000;
    s.actions.is_shooting = true;
    assert!(s.is_firing_laser());
    let muzzle = s.get_laser_pos(&t);
    // Half the 80-unit radius ahead, along heading 0 degrees.
    assert_eq!((muzzle.x, muzzle.y), (552_000, 384_000));
    s.reset_laser_cd();
    assert_eq!(s.laser_cooldown.remaining, 500);
    assert!(!s.is_firing_laser());
}

#[test]
fn test_ship_kill_revive_and_reset() {
    let mut s = Ship::new(ship_cfg());
    s.kill();
    assert!(s.dead);
    s.unkill();
    assert!(!s.dead);
    s.pos = Vector::new(10_000, 20_000);
    s.vel = Vector::new(3_000, -3_000);
    s.rot = 45_000;
    s.reset();
    assert_eq!((s.pos.x, s.pos.y), (512_000, 384_000));
    assert_eq!((s.vel.x, s.vel.y), (0, 0));
    // Rotation survives a reset.
    assert_eq!(s.rot, 45_000);
}

#[test]
fn test_ship_wraps_across_the_field() {
    let t = table();
    let mut s = Ship::new(ship_cfg());
    s.pos = Vector::new(1_104_000, 384_000);
    s.update(16, &t);
    assert_eq!((s.pos.x, s.pos.y), (-80_000, 384_000));
}
