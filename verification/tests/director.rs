use rand::SeedableRng;
use stroids::components::laser::{Laser, LaserConfig};
use stroids::components::roid::{Roid, RoidConfig};
use stroids::components::ship::ShipConfig;
use stroids::game::{Game, GameConfig, GeneratorConfig};
use stroids::utils::Vector;
use stroids::ConfigError;

fn table_dirs() -> Vec<Vector> {
    let mut dirs = Vec::new();
    for deg in 0..360 {
        let rad = (deg as f64) * std::f64::consts::PI / 180.0;
        dirs.push(Vector::new(
            (rad.cos() * 1000.0).round() as i64,
            (rad.sin() * 1000.0).round() as i64,
        ));
    }
    dirs
}

fn config(base: u32) -> GameConfig {
    GameConfig {
        ship_config: ShipConfig {
            scale: 1_000,
            rotation_increment: 90_000,
            thrust_increment: 5_000,
            blink_timer: 1_000,
            laser_timer: 500,
            max_velocity: 100_000,
        },
        generator_config: GeneratorConfig { num_of_asteroids: base },
        laser_config: LaserConfig { laser_lifetime: 2_000, laser_speed: 10_000 },
        roid_config: RoidConfig {
            min_speed: 0,
            max_speed: 1,
            max_rot: 1,
            min_scale: 999,
            max_scale: 1_000,
            min_spawn_mag: 200_000,
            max_spawn_mag: 200_001,
        },
    }
}

fn game(base: u32) -> Game {
    let mut rng = rand::rngs::StdRng::seed_from_u64(42);
    Game::new(config(base), table_dirs(), &mut rng).unwrap()
}

fn still_roid(x: i64, y: i64, diameter: i64) -> Roid {
    Roid {
        pos: Vector::new(x, y),
        vel: Vector::new(0, 0),
        rot: 0,
        rot_vel: 0,
        sprite_id: uuid::Uuid::nil(),
        diameter,
    }
}

fn still_laser(x: i64, y: i64, life: i64) -> Laser {
    Laser {
        pos: Vector::new(x, y),
        vel: Vector::new(0, 0),
        rot: 0,
        life,
        sprite_id: uuid::Uuid::nil(),
        diameter: 4_000,
    }
}

/// An asteroid nowhere near the centred ship, so no transition fires.
fn far_roid() -> Roid {
    still_roid(800_000, 100_000, 50_000)
}

#[test]
fn test_invalid_configs_are_rejected_at_construction() {
    let mut rng = rand::rngs::StdRng::seed_from_u64(42);

    let mut bad_ship = config(1);
    bad_ship.ship_config.scale = 0;
    assert!(matches!(
        Game::new(bad_ship, table_dirs(), &mut rng),
        Err(ConfigError::InvalidShipConfig)
    ));

    let mut bad_laser = config(1);
    bad_laser.laser_config.laser_speed = -1;
    assert!(matches!(
        Game::new(bad_laser, table_dirs(), &mut rng),
        Err(ConfigError::InvalidLaserConfig)
    ));

    let mut bad_roid = config(1);
    bad_roid.roid_config.min_speed = bad_roid.roid_config.max_speed;
    assert!(matches!(
        Game::new(bad_roid, table_dirs(), &mut rng),
        Err(ConfigError::InvalidRoidConfig)
    ));

    let mut bad_gen = config(1);
    bad_gen.generator_config.num_of_asteroids = 100_001;
    assert!(matches!(
        Game::new(bad_gen, table_dirs(), &mut rng),
        Err(ConfigError::InvalidGeneratorConfig)
    ));

    let mut short = table_dirs();
    short.pop();
    assert!(matches!(
        Game::new(config(1), short, &mut rng),
        Err(ConfigError::InvalidDirTable)
    ));

    assert!(Game::new(config(1), table_dirs(), &mut rng).is_ok());
}

#[test]
fn test_new_session_state() {
    let g = game(4);
    assert_eq!(g.score, 0);
    assert_eq!(g.level, 1);
    assert_eq!(g.roids.len(), 4);
    assert_eq!(g.lasers.len(), 0);
    assert!(!g.ship.dead);
    assert_eq!((g.ship.pos.x, g.ship.pos.y), (512_000, 384_000));
}

#[test]
fn test_asteroid_on_ship_kills_it() {
    let mut rng = rand::rngs::StdRng::seed_from_u64(42);
    let mut g = game(0);
    // Distance zero is well inside ship radius + asteroid radius.
    g.set_roids(vec![still_roid(512_000, 384_000, 50_000)]);
    let rep = g.advance(16, &mut rng);
    assert_eq!(rep.ship_alive, false);
    // The same tick's transition restarts the session.
    assert_eq!(rep.score, 0);
    assert_eq!(rep.level, 1);
    assert_eq!(rep.targets_remaining, 0);
    assert!(!g.ship.dead);
    assert_eq!((g.ship.pos.x, g.ship.pos.y), (512_000, 384_000));
}

#[test]
fn test_laser_and_asteroid_die_together_and_score() {
    let mut rng = rand::rngs::StdRng::seed_from_u64(42);
    let mut g = game(0);
    // One target under a laser, one far asteroid so the field stays busy.
    g.set_roids(vec![still_roid(200_000, 200_000, 50_000), far_roid()]);
    g.set_lasers(vec![still_laser(200_000, 200_000, 10_000)]);
    let rep = g.advance(16, &mut rng);
    // round(50 units) scored once; both bodies removed the same tick.
    assert_eq!(rep.score, 50);
    assert_eq!(rep.level, 1);
    assert_eq!(rep.targets_remaining, 1);
    assert_eq!(g.lasers.len(), 0);
    assert_eq!(rep.ship_alive, true);
}

#[test]
fn test_asteroid_scored_once_per_tick() {
    let mut rng = rand::rngs::StdRng::seed_from_u64(42);
    let mut g = game(0);
    // Two lasers on one asteroid: only the first consumes it.
    g.set_roids(vec![still_roid(200_000, 200_000, 50_000), far_roid()]);
    g.set_lasers(vec![
        still_laser(200_000, 200_000, 10_000),
        still_laser(201_000, 200_000, 10_000),
    ]);
    let rep = g.advance(16, &mut rng);
    assert_eq!(rep.score, 50);
    // The second laser was not consumed and flies on.
    assert_eq!(g.lasers.len(), 1);
    assert_eq!(rep.targets_remaining, 1);
}

#[test]
fn test_expired_laser_leaves_the_live_set() {
    let mut rng = rand::rngs::StdRng::seed_from_u64(42);
    let mut g = game(0);
    g.set_roids(vec![far_roid()]);
    g.set_lasers(vec![still_laser(100_000, 600_000, 16)]);
    let rep = g.advance(16, &mut rng);
    assert_eq!(g.lasers.len(), 0);
    assert_eq!(rep.score, 0);
    assert_eq!(rep.targets_remaining, 1);
}

#[test]
fn test_level_progression_square_waves() {
    let mut rng = rand::rngs::StdRng::seed_from_u64(42);
    let mut g = game(0);
    // The empty field counts as cleared: each clear at level n spawns n*n.
    let rep1 = g.advance(16, &mut rng);
    assert_eq!(rep1.level, 2);
    assert_eq!(rep1.targets_remaining, 1);
    assert_eq!(rep1.score, 0);
    assert_eq!(rep1.ship_alive, true);
    g.set_roids(vec![]);
    let rep2 = g.advance(16, &mut rng);
    assert_eq!(rep2.level, 3);
    assert_eq!(rep2.targets_remaining, 4);
    g.set_roids(vec![]);
    let rep3 = g.advance(16, &mut rng);
    assert_eq!(rep3.level, 4);
    assert_eq!(rep3.targets_remaining, 9);
}

#[test]
fn test_level_progression_keeps_base_count() {
    let mut rng = rand::rngs::StdRng::seed_from_u64(42);
    let mut g = game(5);
    g.set_roids(vec![]);
    let rep = g.advance(16, &mut rng);
    assert_eq!(rep.level, 2);
    assert_eq!(rep.targets_remaining, 6);  // 5 + 1*1
}

#[test]
fn test_ship_death_resets_score_and_level() {
    let mut rng = rand::rngs::StdRng::seed_from_u64(42);
    let mut g = game(2);
    g.level = 7;
    g.score = 999;
    g.ship.kill();
    let rep = g.advance(16, &mut rng);
    assert_eq!(rep.ship_alive, false);
    assert_eq!(rep.score, 0);
    assert_eq!(rep.level, 1);
    assert_eq!(rep.targets_remaining, 2);
    assert!(!g.ship.dead);
    assert_eq!(g.score, 0);
    assert_eq!(g.level, 1);
}

#[test]
fn test_firing_spawns_one_laser_and_rearms_cooldown() {
    let mut rng = rand::rngs::StdRng::seed_from_u64(42);
    let mut g = game(0);
    g.set_roids(vec![far_roid()]);
    g.ship.actions.is_shooting = true;
    let rep = g.advance(16, &mut rng);
    assert_eq!(rep.ship_alive, true);
    assert_eq!(g.lasers.len(), 1);
    // The fire cooldown re-armed after this tick's countdown had run.
    assert_eq!(g.ship.laser_cooldown.remaining, 500);
    // Ship rotation 0 means heading -90 degrees: straight up.
    let l = &g.lasers[0];
    assert_eq!((l.vel.x, l.vel.y), (0, -10_000));
    // Spawned half a radius above centre, then moved 0.16 units up.
    assert_eq!((l.pos.x, l.pos.y), (512_000, 343_840));
    assert_eq!(l.life, 1_984);

    // Held intent does not fire again while the cooldown runs.
    let rep2 = g.advance(16, &mut rng);
    assert_eq!(rep2.ship_alive, true);
    assert_eq!(g.lasers.len(), 1);
    assert_eq!(g.ship.laser_cooldown.remaining, 484);
}

#[test]
fn test_two_lasers_fell_two_asteroids_in_one_tick() {
    let mut rng = rand::rngs::StdRng::seed_from_u64(42);
    let mut g = game(0);
    g.set_roids(vec![
        still_roid(200_000, 200_000, 50_000),
        still_roid(800_000, 600_000, 30_000),
        far_roid(),
    ]);
    g.set_lasers(vec![
        still_laser(200_000, 200_000, 10_000),
        still_laser(800_000, 600_000, 10_000),
    ]);
    let rep = g.advance(16, &mut rng);
    assert_eq!(rep.score, 80);  // round(50) + round(30)
    assert_eq!(rep.targets_remaining, 1);
    assert_eq!(g.lasers.len(), 0);
}
