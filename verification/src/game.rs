//! The wave/level director: it owns the ship and the living sets of lasers
//! and asteroids, and drives one simulation step at a time — advance every
//! body, resolve laser/asteroid collisions, detect a ship/asteroid
//! collision, sweep out the dead, then run the level/session transition.
//! That order is a strict contract: collisions are resolved and swept
//! before the field is tested for emptiness.

use vstd::prelude::*;
use crate::components::laser::{Laser, LaserConfig, LASER_DIAMETER};
use crate::components::roid::{Roid, RoidConfig, MAX_DIAMETER};
use crate::components::ship::{field_center, Ship, ShipConfig};
use crate::cooldown::Cooldown;
use crate::heading::{dir_index, table_ok, DirTable};
use crate::utils::{fx_mul, point_within_radius, within_radius, Vector};
use crate::{ConfigError, FX, MAX_DT, QUARTER_TURN};

verus! {

/// Cap on the configured base asteroid count.
pub const MAX_BASE_COUNT: u32 = 100_000;

/// Wave growth saturates at this level, so wave sizes stay allocatable.
pub const LEVEL_GROWTH_CAP: u32 = 65_535;

/// Largest wave the director ever asks for: the base cap plus the growth
/// cap squared.
pub const MAX_WAVE: u64 = 4_294_936_225;

/// The asteroid collection never grows beyond this.
pub const MAX_FIELD: u64 = 5_000_000_000;

/// How many asteroids seed the first wave of a session.
#[derive(Clone, Copy, Debug, PartialEq, Eq, Structural)]
pub struct GeneratorConfig {
    pub num_of_asteroids: u32,
}

impl GeneratorConfig {
    pub open spec fn valid(&self) -> bool {
        self.num_of_asteroids <= MAX_BASE_COUNT
    }

    /// Accepts exactly the valid records.
    pub fn check(&self) -> (r: bool)
        ensures
            r == self.valid(),
    {
        self.num_of_asteroids <= MAX_BASE_COUNT
    }
}

/// All the tuning one session needs, one record per entity type, injected
/// at construction and immutable thereafter.
#[derive(Clone, Copy, Debug, PartialEq, Eq, Structural)]
pub struct GameConfig {
    pub ship_config: ShipConfig,
    pub generator_config: GeneratorConfig,
    pub laser_config: LaserConfig,
    pub roid_config: RoidConfig,
}

/// The first invalid record, in a fixed order of blame.
pub open spec fn config_offender(c: GameConfig) -> ConfigError {
    if !c.ship_config.valid() {
        ConfigError::InvalidShipConfig
    } else if !c.laser_config.valid() {
        ConfigError::InvalidLaserConfig
    } else if !c.roid_config.valid() {
        ConfigError::InvalidRoidConfig
    } else {
        ConfigError::InvalidGeneratorConfig
    }
}

impl GameConfig {
    pub open spec fn valid(&self) -> bool {
        &&& self.ship_config.valid()
        &&& self.generator_config.valid()
        &&& self.laser_config.valid()
        &&& self.roid_config.valid()
    }

    /// Validates every record once, reporting the first offender; the
    /// simulation itself never fails after this.
    pub fn check(&self) -> (r: Result<(), ConfigError>)
        ensures
            match r {
                Ok(()) => self.valid(),
                Err(e) => !self.valid() && e == config_offender(*self),
            },
    {
        if !self.ship_config.check() {
            Err(ConfigError::InvalidShipConfig)
        } else if !self.laser_config.check() {
            Err(ConfigError::InvalidLaserConfig)
        } else if !self.roid_config.check() {
            Err(ConfigError::InvalidRoidConfig)
        } else if !self.generator_config.check() {
            Err(ConfigError::InvalidGeneratorConfig)
        } else {
            Ok(())
        }
    }
}

/// What one simulation step hands back for rendering: the aggregate state
/// after the step, and whether the ship survived the step (when it did
/// not, the stored ship is already re-centred and revived, but `score` and
/// `level` have been reset — this flag is the step's death report).
#[derive(Clone, Copy, Debug, PartialEq, Eq, Structural)]
pub struct TickReport {
    pub score: u64,
    pub level: u32,
    pub ship_alive: bool,
    pub targets_remaining: u64,
}

/// Points one destroyed asteroid scores: its diameter rounded to whole
/// units, halves up.
pub open spec fn score_of(r: Roid) -> int {
    (r.diameter + 500) / (FX as int)
}

/// The first laser at index `j` or later that is still unconsumed in this
/// sweep and touches the asteroid, scanning in insertion order.
pub open spec fn first_hit_from(r: Roid, lasers: Seq<Laser>, consumed: Seq<bool>, j: int) -> Option<
    int,
>
    decreases lasers.len() - j,
{
    if j < 0 || j >= lasers.len() {
        None
    } else if !consumed[j] && within_radius(lasers[j].pos, r.pos, (r.diameter as int) / 2) {
        Some(j)
    } else {
        first_hit_from(r, lasers, consumed, j + 1)
    }
}

/// The collision sweep after the first `i` asteroids have been tested:
/// which of them die, which lasers have been consumed, and the score
/// gained so far.  Each asteroid falls to the first unconsumed laser
/// within its radius; that laser is consumed and cannot strike again.
pub open spec fn sweep_state(roids: Seq<Roid>, lasers: Seq<Laser>, i: int) -> (Seq<bool>, Seq<
    bool,
>, int)
    decreases i,
{
    if i <= 0 {
        (Seq::empty(), Seq::new(lasers.len(), |j: int| false), 0)
    } else {
        let prev = sweep_state(roids, lasers, i - 1);
        match first_hit_from(roids[i - 1], lasers, prev.1, 0) {
            Some(j) => (prev.0.push(true), prev.1.update(j, true), prev.2 + score_of(
                roids[i - 1],
            )),
            None => (prev.0.push(false), prev.1, prev.2),
        }
    }
}

/// The score a mask awards over the first `i` asteroids: each marked
/// asteroid counted exactly once.
pub open spec fn masked_score(roids: Seq<Roid>, rmask: Seq<bool>, i: int) -> int
    decreases i,
{
    if i <= 0 {
        0
    } else {
        masked_score(roids, rmask, i - 1) + if rmask[i - 1] {
            score_of(roids[i - 1])
        } else {
            0
        }
    }
}

/// Score idempotence per tick: the score one collision sweep gains is the
/// sum, over the asteroids it marks destroyed, of each one's points — an
/// asteroid contributes at most once, because the sweep visits each index
/// exactly once and the mask records its single verdict.
pub proof fn lemma_sweep_score_once(roids: Seq<Roid>, lasers: Seq<Laser>, i: int)
    requires
        0 <= i <= roids.len(),
    ensures
        sweep_state(roids, lasers, i).2 == masked_score(roids, sweep_state(roids, lasers, i).0, i),
        sweep_state(roids, lasers, i).0.len() == i,
    decreases i,
{
    if i > 0 {
        lemma_sweep_score_once(roids, lasers, i - 1);
        let prev = sweep_state(roids, lasers, i - 1);
        let cur = sweep_state(roids, lasers, i);
        assert forall|k: int| 0 <= k < i - 1 implies cur.0[k] == prev.0[k] by {}
        lemma_masked_score_congruent(roids, prev.0, cur.0, i - 1);
    }
}

/// The masked sum only reads the first `i` mask bits.
proof fn lemma_masked_score_congruent(roids: Seq<Roid>, a: Seq<bool>, b: Seq<bool>, i: int)
    requires
        0 <= i,
        forall|k: int| 0 <= k < i ==> a[k] == b[k],
    ensures
        masked_score(roids, a, i) == masked_score(roids, b, i),
    decreases i,
{
    if i > 0 {
        lemma_masked_score_congruent(roids, a, b, i - 1);
    }
}

/// Whether a still-live asteroid (not destroyed by this tick's sweep)
/// touches the ship, with the combined radius of both bodies.
pub open spec fn ship_hit(s: Ship, roids: Seq<Roid>, rmask: Seq<bool>) -> bool {
    exists|i: int|
        0 <= i < roids.len() && !(#[trigger] rmask[i]) && within_radius(
            s.pos,
            roids[i].pos,
            (roids[i].diameter as int) / 2 + s.radius,
        )
}

/// The elements among the first `i` whose kill bit is clear, in order.
pub open spec fn keep_masked<T>(s: Seq<T>, kill: Seq<bool>, i: int) -> Seq<T>
    decreases i,
{
    if i <= 0 {
        Seq::empty()
    } else {
        let prev = keep_masked(s, kill, i - 1);
        if kill[i - 1] {
            prev
        } else {
            prev.push(s[i - 1])
        }
    }
}

/// A laser leaves the live set when the sweep consumed it or its life has
/// run out — whichever came first this tick.
pub open spec fn laser_kill_mask(lasers: Seq<Laser>, consumed: Seq<bool>) -> Seq<bool> {
    Seq::new(lasers.len(), |j: int| consumed[j] || lasers[j].life <= 0)
}

/// Saturating score accumulation.
pub open spec fn sat_add(a: int, d: int) -> int {
    if a + d <= u64::MAX {
        a + d
    } else {
        u64::MAX as int
    }
}

/// Size of the wave spawned when the field clears at `level`: the base
/// count plus the square of that level, the growth saturating at
/// [`LEVEL_GROWTH_CAP`].
pub open spec fn wave_size(base: u32, level: u32) -> int {
    let lvl: int = if level <= LEVEL_GROWTH_CAP {
        level as int
    } else {
        LEVEL_GROWTH_CAP as int
    };
    base + lvl * lvl
}

/// Level progression: a session starts at level 1 and each cleared field
/// advances the level by one ([`advance_rel`]), so the field cleared for
/// the `n`-th time — the ship never dying — is cleared at level `n`, and
/// [`advance_rel`] replaces it with a wave of exactly `base + n*n`
/// asteroids.
pub proof fn lemma_level_progression(base: u32, n: u32)
    requires
        1 <= n <= LEVEL_GROWTH_CAP,
    ensures
        wave_size(base, n) == base + n * n,
{
}

/// Computes [`wave_size`].
fn wave_quota(base: u32, level: u32) -> (n: u64)
    requires
        base <= MAX_BASE_COUNT,
    ensures
        n as int == wave_size(base, level),
        n <= MAX_WAVE,
{
    let lvl: u64 = if level <= LEVEL_GROWTH_CAP {
        level as u64
    } else {
        LEVEL_GROWTH_CAP as u64
    };
    proof {
        assert(lvl * lvl <= 65_535 * 65_535) by (nonlinear_arith)
            requires
                0 <= lvl <= 65_535,
        ;
    }
    base as u64 + lvl * lvl
}

/// Spawns `n` fresh asteroids in a row; public so a host can seed a field
/// of its own.
pub fn generate_roids(
    rng: &mut rand::rngs::StdRng,
    n: u64,
    config: &RoidConfig,
    table: &DirTable,
) -> (out: Vec<Roid>)
    requires
        config.valid(),
        table.wf(),
        n <= MAX_WAVE,
    ensures
        out@.len() == n,
        forall|k: int|
            0 <= k < out@.len() ==> (#[trigger] out@[k]).inv() && out@[k].spawn_ok(
                *config,
                *table,
            ),
{
    let mut out: Vec<Roid> = Vec::new();
    let mut i: u64 = 0;
    while i < n
        invariant
            i <= n,
            n <= MAX_WAVE,
            out@.len() == i,
            config.valid(),
            table.wf(),
            forall|k: int|
                0 <= k < out@.len() ==> (#[trigger] out@[k]).inv() && out@[k].spawn_ok(
                    *config,
                    *table,
                ),
        decreases n - i,
    {
        let r = Roid::new(config, table, rng);
        out.push(r);
        i = i + 1;
    }
    out
}

/// Every laser stepped by `dt`, in place order.
pub open spec fn stepped_lasers(ls: Seq<Laser>, dt: i64) -> Seq<Laser> {
    ls.map_values(|l: Laser| l.stepped(dt))
}

/// Every asteroid stepped by `dt`, in place order.
pub open spec fn stepped_roids(rs: Seq<Roid>, dt: i64) -> Seq<Roid> {
    rs.map_values(|r: Roid| r.stepped(dt))
}

/// Steps every laser.
fn step_lasers(v: &Vec<Laser>, dt: i64) -> (out: Vec<Laser>)
    requires
        forall|k: int| 0 <= k < v@.len() ==> (#[trigger] v@[k]).inv(),
        0 <= dt <= MAX_DT,
    ensures
        out@ == stepped_lasers(v@, dt),
        forall|k: int| 0 <= k < out@.len() ==> (#[trigger] out@[k]).inv(),
{
    let mut out: Vec<Laser> = Vec::new();
    let mut i: usize = 0;
    while i < v.len()
        invariant
            0 <= i <= v@.len(),
            out@.len() == i,
            forall|k: int| 0 <= k < v@.len() ==> (#[trigger] v@[k]).inv(),
            0 <= dt <= MAX_DT,
            forall|k: int| 0 <= k < i ==> out@[k] == (#[trigger] v@[k]).stepped(dt),
            forall|k: int| 0 <= k < i ==> (#[trigger] out@[k]).inv(),
        decreases v@.len() - i,
    {
        let mut l = v[i];
        l.update(dt);
        out.push(l);
        i = i + 1;
    }
    proof {
        assert(out@ =~= stepped_lasers(v@, dt));
    }
    out
}

/// Steps every asteroid.
fn step_roids(v: &Vec<Roid>, dt: i64) -> (out: Vec<Roid>)
    requires
        forall|k: int| 0 <= k < v@.len() ==> (#[trigger] v@[k]).inv(),
        0 <= dt <= MAX_DT,
    ensures
        out@ == stepped_roids(v@, dt),
        forall|k: int| 0 <= k < out@.len() ==> (#[trigger] out@[k]).inv(),
{
    let mut out: Vec<Roid> = Vec::new();
    let mut i: usize = 0;
    while i < v.len()
        invariant
            0 <= i <= v@.len(),
            out@.len() == i,
            forall|k: int| 0 <= k < v@.len() ==> (#[trigger] v@[k]).inv(),
            0 <= dt <= MAX_DT,
            forall|k: int| 0 <= k < i ==> out@[k] == (#[trigger] v@[k]).stepped(dt),
            forall|k: int| 0 <= k < i ==> (#[trigger] out@[k]).inv(),
        decreases v@.len() - i,
    {
        let mut r = v[i];
        r.update(dt);
        out.push(r);
        i = i + 1;
    }
    proof {
        assert(out@ =~= stepped_roids(v@, dt));
    }
    out
}

/// An asteroid's points stay comfortably bounded.
proof fn lemma_score_of_bounds(r: Roid)
    requires
        r.inv(),
    ensures
        0 <= score_of(r) <= 50_000_000,
{
    vstd::arithmetic::div_mod::lemma_div_pos_is_pos(r.diameter + 500, FX as int);
    vstd::arithmetic::div_mod::lemma_div_is_ordered(r.diameter + 500, MAX_DIAMETER + 500, FX as int);
    assert(((FX as int) * 50_000_000 + 500) / (FX as int) == 50_000_000) by {
        vstd::arithmetic::div_mod::lemma_div_multiples_vanish_fancy(50_000_000, 500, FX as int);
    }
}

/// The two-phase collision pass (pure phase): for every asteroid in order,
/// find the first still-unconsumed laser within its radius; mark both and
/// bank the asteroid's points.  Returns the asteroid kill mask, the laser
/// consumption mask, and the score gained.
fn resolve_collisions(roids: &Vec<Roid>, lasers: &Vec<Laser>) -> (out: (Vec<bool>, Vec<bool>, u64))
    requires
        forall|k: int| 0 <= k < roids@.len() ==> (#[trigger] roids@[k]).inv(),
        forall|k: int| 0 <= k < lasers@.len() ==> (#[trigger] lasers@[k]).inv(),
        roids@.len() <= MAX_FIELD,
    ensures
        out.0@ == sweep_state(roids@, lasers@, roids@.len() as int).0,
        out.1@ == sweep_state(roids@, lasers@, roids@.len() as int).1,
        out.2 as int == sweep_state(roids@, lasers@, roids@.len() as int).2,
        out.0@.len() == roids@.len(),
        out.1@.len() == lasers@.len(),
{
    let n = roids.len();
    let m = lasers.len();
    let mut rmask: Vec<bool> = Vec::new();
    let mut consumed: Vec<bool> = Vec::new();
    let mut j0: usize = 0;
    while j0 < m
        invariant
            0 <= j0 <= m,
            m == lasers@.len(),
            consumed@.len() == j0,
            forall|k: int| 0 <= k < j0 ==> !(#[trigger] consumed@[k]),
        decreases m - j0,
    {
        consumed.push(false);
        j0 = j0 + 1;
    }
    proof {
        assert(consumed@ =~= Seq::new(lasers@.len(), |j: int| false));
    }
    let mut delta: u64 = 0;
    let mut i: usize = 0;
    while i < n
        invariant
            0 <= i <= n,
            n == roids@.len(),
            m == lasers@.len(),
            n <= MAX_FIELD,
            forall|k: int| 0 <= k < roids@.len() ==> (#[trigger] roids@[k]).inv(),
            forall|k: int| 0 <= k < lasers@.len() ==> (#[trigger] lasers@[k]).inv(),
            rmask@.len() == i,
            consumed@.len() == m,
            rmask@ == sweep_state(roids@, lasers@, i as int).0,
            consumed@ == sweep_state(roids@, lasers@, i as int).1,
            delta as int == sweep_state(roids@, lasers@, i as int).2,
            delta <= i * 50_000_000,
        decreases n - i,
    {
        let r = roids[i];
        let mut found: bool = false;
        let mut hit_j: usize = 0;
        let mut j: usize = 0;
        while j < m
            invariant
                0 <= j <= m,
                m == lasers@.len(),
                i < roids@.len(),
                r == roids@[i as int],
                consumed@.len() == m,
                forall|k: int| 0 <= k < roids@.len() ==> (#[trigger] roids@[k]).inv(),
                forall|k: int| 0 <= k < lasers@.len() ==> (#[trigger] lasers@[k]).inv(),
                !found ==> first_hit_from(r, lasers@, consumed@, 0) == first_hit_from(
                    r,
                    lasers@,
                    consumed@,
                    j as int,
                ),
                found ==> hit_j < m && first_hit_from(r, lasers@, consumed@, 0) == Some(
                    hit_j as int,
                ),
            decreases m - j,
        {
            if !found {
                let l = lasers[j];
                if !consumed[j] && point_within_radius(l.pos, r.pos, r.diameter / 2) {
                    found = true;
                    hit_j = j;
                }
            }
            j = j + 1;
        }
        proof {
            lemma_score_of_bounds(roids@[i as int]);
            assert(delta + 50_000_000 <= (i + 1) * 50_000_000) by (nonlinear_arith)
                requires
                    delta <= i * 50_000_000,
            ;
            assert((i + 1) * 50_000_000 <= MAX_FIELD * 50_000_000) by (nonlinear_arith)
                requires
                    i + 1 <= MAX_FIELD,
            ;
        }
        if found {
            rmask.push(true);
            let pts: u64 = ((r.diameter + 500) / FX) as u64;
            delta = delta + pts;
            consumed.set(hit_j, true);
        } else {
            rmask.push(false);
        }
        i = i + 1;
    }
    (rmask, consumed, delta)
}

/// The ship-versus-field test of one tick, run over the asteroids that
/// survived the sweep.
fn check_ship_collision(ship: &Ship, roids: &Vec<Roid>, rmask: &Vec<bool>) -> (hit: bool)
    requires
        ship.inv(),
        forall|k: int| 0 <= k < roids@.len() ==> (#[trigger] roids@[k]).inv(),
        rmask@.len() == roids@.len(),
    ensures
        hit == ship_hit(*ship, roids@, rmask@),
{
    let n = roids.len();
    let mut hit: bool = false;
    let mut i: usize = 0;
    while i < n
        invariant
            0 <= i <= n,
            n == roids@.len(),
            rmask@.len() == roids@.len(),
            ship.inv(),
            forall|k: int| 0 <= k < roids@.len() ==> (#[trigger] roids@[k]).inv(),
            hit == exists|k: int|
                0 <= k < i && !(#[trigger] rmask@[k]) && within_radius(
                    ship.pos,
                    roids@[k].pos,
                    (roids@[k].diameter as int) / 2 + ship.radius,
                ),
        decreases n - i,
    {
        let r = roids[i];
        if !rmask[i] && point_within_radius(ship.pos, r.pos, r.diameter / 2 + ship.radius) {
            hit = true;
        }
        i = i + 1;
    }
    hit
}

/// Keeps the asteroids whose kill bit is clear, in order.
fn filter_roids(v: &Vec<Roid>, kill: &Vec<bool>) -> (out: Vec<Roid>)
    requires
        kill@.len() == v@.len(),
    ensures
        out@ == keep_masked(v@, kill@, v@.len() as int),
        out@.len() <= v@.len(),
{
    let n = v.len();
    let mut out: Vec<Roid> = Vec::new();
    let mut i: usize = 0;
    while i < n
        invariant
            0 <= i <= n,
            n == v@.len(),
            kill@.len() == v@.len(),
            out@ == keep_masked(v@, kill@, i as int),
            out@.len() <= i,
        decreases n - i,
    {
        if !kill[i] {
            out.push(v[i]);
        }
        i = i + 1;
    }
    out
}

/// Keeps the lasers that were neither consumed by the sweep nor expired.
fn filter_live_lasers(v: &Vec<Laser>, consumed: &Vec<bool>) -> (out: Vec<Laser>)
    requires
        consumed@.len() == v@.len(),
    ensures
        out@ == keep_masked(v@, laser_kill_mask(v@, consumed@), v@.len() as int),
        out@.len() <= v@.len(),
{
    let n = v.len();
    let mut out: Vec<Laser> = Vec::new();
    let mut i: usize = 0;
    while i < n
        invariant
            0 <= i <= n,
            n == v@.len(),
            consumed@.len() == v@.len(),
            out@ == keep_masked(v@, laser_kill_mask(v@, consumed@), i as int),
            out@.len() <= i,
        decreases n - i,
    {
        let l = v[i];
        if !consumed[i] && !(l.life <= 0) {
            out.push(l);
        }
        i = i + 1;
    }
    out
}

/// Elements kept by a mask satisfy what all source elements satisfied;
/// here, the entity invariants survive filtering.
proof fn lemma_keep_masked_roids_inv(s: Seq<Roid>, kill: Seq<bool>, i: int)
    requires
        0 <= i <= s.len(),
        forall|k: int| 0 <= k < s.len() ==> (#[trigger] s[k]).inv(),
    ensures
        forall|k: int|
            0 <= k < keep_masked(s, kill, i).len() ==> (#[trigger] keep_masked(s, kill, i)[k]).inv(),
        keep_masked(s, kill, i).len() <= i,
    decreases i,
{
    if i > 0 {
        lemma_keep_masked_roids_inv(s, kill, i - 1);
    }
}

/// The laser invariants survive filtering too.
proof fn lemma_keep_masked_lasers_inv(s: Seq<Laser>, kill: Seq<bool>, i: int)
    requires
        0 <= i <= s.len(),
        forall|k: int| 0 <= k < s.len() ==> (#[trigger] s[k]).inv(),
    ensures
        forall|k: int|
            0 <= k < keep_masked(s, kill, i).len() ==> (#[trigger] keep_masked(s, kill, i)[k]).inv(),
        keep_masked(s, kill, i).len() <= i,
    decreases i,
{
    if i > 0 {
        lemma_keep_masked_lasers_inv(s, kill, i - 1);
    }
}

/// The laser a firing ship spawns, given the render handle the spawn drew:
/// it appears at the ship's muzzle and flies along the ship's forward
/// heading at the configured speed, for the configured lifetime.
pub open spec fn fired_laser(s1: Ship, cfg: LaserConfig, table: DirTable, id: uuid::Uuid) -> Laser {
    let d = table.dirs@[dir_index(s1.rot - QUARTER_TURN)];
    Laser {
        pos: s1.laser_spawn_point(table),
        rot: (s1.rot - QUARTER_TURN) as i64,
        life: cfg.laser_lifetime,
        vel: (Vector {
            x: fx_mul(d.x as int, cfg.laser_speed as int) as i64,
            y: fx_mul(d.y as int, cfg.laser_speed as int) as i64,
        }),
        sprite_id: id,
        diameter: LASER_DIAMETER,
    }
}

/// The director: it owns the ship, the live lasers and asteroids, and the
/// score/level progression, and is their sole mutator.  Hosts write the
/// ship's action intents and read entity state between steps, never during
/// one.
pub struct Game {
    pub ship: Ship,
    pub lasers: Vec<Laser>,
    pub roids: Vec<Roid>,
    pub score: u64,
    pub level: u32,
    pub config: GameConfig,
    pub table: DirTable,
}

/// The whole effect of one simulation step `advance(dt)`, as a relation
/// from the state before to the state after.  The order is fixed: the ship
/// steps (and may fire, re-arming its fire cooldown and appending a laser
/// that also steps this very tick); every laser and asteroid steps; the
/// collision sweep pairs each doomed asteroid with the first unconsumed
/// laser inside its radius and banks its points; the ship is tested
/// against the asteroids that survived the sweep; the dead are removed;
/// and only then does the transition check run — a destroyed ship resets
/// the session (score 0, level 1, a base wave, the ship re-centred and
/// revived), an emptied field advances the level and spawns the next,
/// larger wave, and otherwise play just continues.  `id` is the render
/// handle the spawned laser drew, if one was fired.
pub open spec fn advance_rel(pre: Game, post: Game, dt: i64, rep: TickReport, id: uuid::Uuid) -> bool {
    let s1 = pre.ship.stepped(dt, pre.table);
    let fired = s1.laser_cooldown.remaining == 0 && s1.actions.is_shooting;
    let s2 = if fired {
        Ship {
            laser_cooldown: (Cooldown { remaining: pre.config.ship_config.laser_timer }),
            ..s1
        }
    } else {
        s1
    };
    let pending = if fired {
        pre.lasers@.push(fired_laser(s1, pre.config.laser_config, pre.table, id))
    } else {
        pre.lasers@
    };
    let lasers1 = stepped_lasers(pending, dt);
    let roids1 = stepped_roids(pre.roids@, dt);
    let sw = sweep_state(roids1, lasers1, roids1.len() as int);
    let gained = sat_add(pre.score as int, sw.2);
    let died = s2.dead || ship_hit(s2, roids1, sw.0);
    let roids2 = keep_masked(roids1, sw.0, roids1.len() as int);
    let lasers2 = keep_masked(lasers1, laser_kill_mask(lasers1, sw.1), lasers1.len() as int);
    let cleared = roids2.len() == 0;

    &&& post.config == pre.config
    &&& post.table == pre.table
    &&& post.lasers@ == lasers2
    &&& rep.ship_alive == !died
    &&& rep.score == post.score
    &&& rep.level == post.level
    &&& rep.targets_remaining == post.roids@.len()
    &&& if died {
        &&& post.score == 0
        &&& post.level == 1
        &&& post.ship == (Ship {
            pos: field_center(),
            vel: (Vector { x: 0, y: 0 }),
            dead: false,
            ..s2
        })
        &&& post.roids@.len() == pre.config.generator_config.num_of_asteroids
        &&& forall|k: int|
            0 <= k < post.roids@.len() ==> (#[trigger] post.roids@[k]).spawn_ok(
                pre.config.roid_config,
                pre.table,
            )
    } else if cleared {
        &&& post.score == gained
        &&& post.level == (if pre.level < u32::MAX {
            (pre.level + 1) as u32
        } else {
            pre.level
        })
        &&& post.ship == (Ship { pos: field_center(), vel: (Vector { x: 0, y: 0 }), ..s2 })
        &&& post.roids@.len() == wave_size(pre.config.generator_config.num_of_asteroids, pre.level)
        &&& forall|k: int|
            0 <= k < post.roids@.len() ==> (#[trigger] post.roids@[k]).spawn_ok(
                pre.config.roid_config,
                pre.table,
            )
    } else {
        &&& post.score == gained
        &&& post.level == pre.level
        &&& post.ship == s2
        &&& post.roids@ == roids2
    }
}

impl Game {
    pub open spec fn wf(&self) -> bool {
        &&& self.config.valid()
        &&& self.table.wf()
        &&& self.ship.inv()
        &&& self.ship.config == self.config.ship_config
        &&& forall|k: int| 0 <= k < self.lasers@.len() ==> (#[trigger] self.lasers@[k]).inv()
        &&& forall|k: int| 0 <= k < self.roids@.len() ==> (#[trigger] self.roids@[k]).inv()
        &&& self.level >= 1
        &&& self.roids@.len() <= MAX_FIELD
    }

    /// A new session: the configuration and the direction table are
    /// validated once, the ship starts at the field centre, the first wave
    /// holds the configured base count, the score is zero at level one.
    pub fn new(config: GameConfig, dirs: Vec<Vector>, rng: &mut rand::rngs::StdRng) -> (r:
        Result<Game, ConfigError>)
        ensures
            match r {
                Ok(g) => {
                    &&& config.valid()
                    &&& table_ok(dirs@)
                    &&& g.wf()
                    &&& g.config == config
                    &&& g.table.dirs@ == dirs@
                    &&& g.score == 0
                    &&& g.level == 1
                    &&& g.lasers@.len() == 0
                    &&& g.roids@.len() == config.generator_config.num_of_asteroids
                    &&& forall|k: int|
                        0 <= k < g.roids@.len() ==> (#[trigger] g.roids@[k]).spawn_ok(
                            config.roid_config,
                            g.table,
                        )
                    &&& g.ship.config == config.ship_config
                    &&& g.ship.pos == field_center()
                    &&& g.ship.rot == 0
                    &&& g.ship.vel == (Vector { x: 0, y: 0 })
                    &&& !g.ship.dead
                    &&& !g.ship.tinted
                    &&& g.ship.blink_cooldown.remaining == 0
                    &&& g.ship.laser_cooldown.remaining == 0
                },
                Err(e) => {
                    &&& !table_ok(dirs@) || !config.valid()
                    &&& e == if !table_ok(dirs@) {
                        ConfigError::InvalidDirTable
                    } else {
                        config_offender(config)
                    }
                },
            },
    {
        let table = match DirTable::new(dirs) {
            Ok(t) => t,
            Err(e) => {
                return Err(e);
            },
        };
        match config.check() {
            Ok(()) => {},
            Err(e) => {
                return Err(e);
            },
        }
        let ship = Ship::new(config.ship_config);
        let roids = generate_roids(
            rng,
            config.generator_config.num_of_asteroids as u64,
            &config.roid_config,
            &table,
        );
        Ok(Game { ship, lasers: Vec::new(), roids, score: 0, level: 1, config, table })
    }

    /// Replaces the asteroid field wholesale; a deterministic seeding hook
    /// for hosts and tests, since the spawner's draws are random.
    pub fn set_roids(&mut self, roids: Vec<Roid>)
        requires
            old(self).wf(),
            roids@.len() <= MAX_FIELD,
            forall|k: int| 0 <= k < roids@.len() ==> (#[trigger] roids@[k]).inv(),
        ensures
            final(self).roids@ == roids@,
            final(self).lasers@ == old(self).lasers@,
            final(self).ship == old(self).ship,
            final(self).score == old(self).score,
            final(self).level == old(self).level,
            final(self).config == old(self).config,
            final(self).table == old(self).table,
            final(self).wf(),
    {
        self.roids = roids;
    }

    /// Replaces the live lasers wholesale; the deterministic counterpart
    /// of a fired shot.
    pub fn set_lasers(&mut self, lasers: Vec<Laser>)
        requires
            old(self).wf(),
            forall|k: int| 0 <= k < lasers@.len() ==> (#[trigger] lasers@[k]).inv(),
        ensures
            final(self).lasers@ == lasers@,
            final(self).roids@ == old(self).roids@,
            final(self).ship == old(self).ship,
            final(self).score == old(self).score,
            final(self).level == old(self).level,
            final(self).config == old(self).config,
            final(self).table == old(self).table,
            final(self).wf(),
    {
        self.lasers = lasers;
    }

    /// Step the ship, and spawn a laser if its fire cooldown is ready
    /// while the fire intent is asserted, re-arming that cooldown.
    fn integrate_and_fire(&mut self, dt: i64) -> (id: Ghost<uuid::Uuid>)
        requires
            old(self).wf(),
            0 <= dt <= MAX_DT,
        ensures
            ({
                let s1 = old(self).ship.stepped(dt, old(self).table);
                let fired = s1.laser_cooldown.remaining == 0 && s1.actions.is_shooting;
                &&& final(self).ship == (if fired {
                    Ship {
                        laser_cooldown: (Cooldown {
                            remaining: old(self).config.ship_config.laser_timer,
                        }),
                        ..s1
                    }
                } else {
                    s1
                })
                &&& final(self).lasers@ == (if fired {
                    old(self).lasers@.push(
                        fired_laser(s1, old(self).config.laser_config, old(self).table, id@),
                    )
                } else {
                    old(self).lasers@
                })
            }),
            final(self).roids@ == old(self).roids@,
            final(self).score == old(self).score,
            final(self).level == old(self).level,
            final(self).config == old(self).config,
            final(self).table == old(self).table,
            final(self).wf(),
    {
        let ghost pre = *old(self);
        self.ship.update(dt, &self.table);
        let ghost s1 = self.ship;
        let ghost mut id: uuid::Uuid = vstd::pervasive::arbitrary();
        if self.ship.is_firing_laser() {
            let pos = self.ship.get_laser_pos(&self.table);
            let l = Laser::new(&self.config.laser_config, pos, self.ship.rot, &self.table);
            proof {
                id = l.sprite_id;
                assert(l == fired_laser(s1, pre.config.laser_config, pre.table, id));
            }
            self.lasers.push(l);
            self.ship.reset_laser_cd();
        }
        Ghost(id)
    }

    /// Step every laser and asteroid, resolve the collision sweep, bank
    /// the score, test the ship against the surviving asteroids, and
    /// remove the dead — everything of one tick except the transition.
    fn collide_and_sweep(&mut self, dt: i64)
        requires
            old(self).wf(),
            0 <= dt <= MAX_DT,
        ensures
            ({
                let lasers1 = stepped_lasers(old(self).lasers@, dt);
                let roids1 = stepped_roids(old(self).roids@, dt);
                let sw = sweep_state(roids1, lasers1, roids1.len() as int);
                let hit = ship_hit(old(self).ship, roids1, sw.0);
                &&& final(self).lasers@ == keep_masked(
                    lasers1,
                    laser_kill_mask(lasers1, sw.1),
                    lasers1.len() as int,
                )
                &&& final(self).roids@ == keep_masked(roids1, sw.0, roids1.len() as int)
                &&& final(self).score == sat_add(old(self).score as int, sw.2)
                &&& final(self).ship == (Ship {
                    dead: old(self).ship.dead || hit,
                    ..old(self).ship
                })
            }),
            final(self).level == old(self).level,
            final(self).config == old(self).config,
            final(self).table == old(self).table,
            final(self).wf(),
    {
        let ghost pre = *old(self);
        let new_lasers = step_lasers(&self.lasers, dt);
        self.lasers = new_lasers;
        let new_roids = step_roids(&self.roids, dt);
        self.roids = new_roids;
        let ghost lasers1 = self.lasers@;
        let ghost roids1 = self.roids@;

        let masks = resolve_collisions(&self.roids, &self.lasers);
        let rmask = masks.0;
        let consumed = masks.1;
        let delta = masks.2;
        if self.score <= u64::MAX - delta {
            self.score = self.score + delta;
        } else {
            self.score = u64::MAX;
        }

        let hit = check_ship_collision(&self.ship, &self.roids, &rmask);
        if hit {
            self.ship.kill();
        }

        let kept_roids = filter_roids(&self.roids, &rmask);
        self.roids = kept_roids;
        let kept_lasers = filter_live_lasers(&self.lasers, &consumed);
        self.lasers = kept_lasers;
        proof {
            let sw = sweep_state(roids1, lasers1, roids1.len() as int);
            lemma_keep_masked_roids_inv(roids1, sw.0, roids1.len() as int);
            lemma_keep_masked_lasers_inv(
                lasers1,
                laser_kill_mask(lasers1, sw.1),
                lasers1.len() as int,
            );
        }
    }

    /// The level/session transition of one tick, run after the sweep: a
    /// destroyed ship resets the session, an emptied field advances the
    /// level and spawns the next wave, and otherwise nothing changes.
    /// Returns whether the ship survived the tick.
    fn run_transition(&mut self, rng: &mut rand::rngs::StdRng) -> (alive: bool)
        requires
            old(self).wf(),
        ensures
            alive == !old(self).ship.dead,
            ({
                let base = old(self).config.generator_config.num_of_asteroids;
                &&& if old(self).ship.dead {
                    &&& final(self).score == 0
                    &&& final(self).level == 1
                    &&& final(self).ship == (Ship {
                        pos: field_center(),
                        vel: (Vector { x: 0, y: 0 }),
                        dead: false,
                        ..old(self).ship
                    })
                    &&& final(self).roids@.len() == base
                    &&& forall|k: int|
                        0 <= k < final(self).roids@.len() ==> (
                        #[trigger] final(self).roids@[k]).spawn_ok(
                            old(self).config.roid_config,
                            old(self).table,
                        )
                } else if old(self).roids@.len() == 0 {
                    &&& final(self).score == old(self).score
                    &&& final(self).level == (if old(self).level < u32::MAX {
                        (old(self).level + 1) as u32
                    } else {
                        old(self).level
                    })
                    &&& final(self).ship == (Ship {
                        pos: field_center(),
                        vel: (Vector { x: 0, y: 0 }),
                        ..old(self).ship
                    })
                    &&& final(self).roids@.len() == wave_size(base, old(self).level)
                    &&& forall|k: int|
                        0 <= k < final(self).roids@.len() ==> (
                        #[trigger] final(self).roids@[k]).spawn_ok(
                            old(self).config.roid_config,
                            old(self).table,
                        )
                } else {
                    &&& final(self).score == old(self).score
                    &&& final(self).level == old(self).level
                    &&& final(self).ship == old(self).ship
                    &&& final(self).roids@ == old(self).roids@
                }
            }),
            final(self).lasers@ == old(self).lasers@,
            final(self).config == old(self).config,
            final(self).table == old(self).table,
            final(self).wf(),
    {
        let mut ship_alive: bool = true;
        if self.ship.dead {
            ship_alive = false;
            self.ship.reset();
            self.ship.unkill();
            self.level = 1;
            self.score = 0;
            let wave = generate_roids(
                rng,
                self.config.generator_config.num_of_asteroids as u64,
                &self.config.roid_config,
                &self.table,
            );
            self.roids = wave;
        } else if self.roids.len() == 0 {
            self.ship.reset();
            let quota = wave_quota(self.config.generator_config.num_of_asteroids, self.level);
            let wave = generate_roids(rng, quota, &self.config.roid_config, &self.table);
            self.roids = wave;
            self.level = if self.level < u32::MAX {
                self.level + 1
            } else {
                self.level
            };
        }
        ship_alive
    }

    /// One simulation step; see [`advance_rel`] for the exact effect and
    /// its strict internal order.
    #[verifier::rlimit(100)]
    pub fn advance(&mut self, dt: i64, rng: &mut rand::rngs::StdRng) -> (rep: TickReport)
        requires
            old(self).wf(),
            0 <= dt <= MAX_DT,
        ensures
            final(self).wf(),
            exists|id: uuid::Uuid| advance_rel(*old(self), *final(self), dt, rep, id),
    {
        let ghost pre = *old(self);
        let id = self.integrate_and_fire(dt);
        let ghost s2 = self.ship;
        let ghost pending = self.lasers@;
        self.collide_and_sweep(dt);
        let ghost swept = *self;
        let ship_alive = self.run_transition(rng);
        let rep = TickReport {
            score: self.score,
            level: self.level,
            ship_alive,
            targets_remaining: self.roids.len() as u64,
        };
        proof {
            let s1 = pre.ship.stepped(dt, pre.table);
            let lasers1 = stepped_lasers(pending, dt);
            let roids1 = stepped_roids(pre.roids@, dt);
            let sw = sweep_state(roids1, lasers1, roids1.len() as int);
            let died = s2.dead || ship_hit(s2, roids1, sw.0);
            assert(swept.ship.dead == died);
            assert(rep.ship_alive == !died);
            assert(advance_rel(pre, *self, dt, rep, id@));
        }
        rep
    }
}

} // verus!

