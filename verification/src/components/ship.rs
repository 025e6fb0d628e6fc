//! The player entity: it accepts discrete input intents (rotate, thrust,
//! fire, blink), integrates its own motion with wrap-around, rate-limits
//! firing and blinking with cooldown timers, and carries an alive flag the
//! director toggles — the entity itself is never deallocated mid-session.

use vstd::prelude::*;
use crate::cooldown::{tick_spec, Cooldown};
use crate::heading::{dir_index, norm_angle, norm_deg, DirTable};
use crate::trusted::fresh_handle;
use crate::utils::{
    frame_disp, frame_step, fx_mul, lemma_dir_scale_bound, lemma_product_bound,
    lemma_rescale_bound, loop_pos, mul_fx, trunc_div, wrap_axis, Vector,
};
use crate::{
    FULL_TURN, FX, MAX_DT, MAX_RATE, MAX_SCALE, MAX_SPEED, POS_LIMIT, QUARTER_TURN, VIEW_H, VIEW_W,
};

verus! {

/// The ship sprite is 67 by 80 units before scaling.
pub const SHIP_SPRITE_W: i64 = 67_000;

/// See [`SHIP_SPRITE_W`].
pub const SHIP_SPRITE_H: i64 = 80_000;

/// No ship's collision radius exceeds the larger sprite side at full scale.
pub const MAX_RADIUS: i64 = 80_000_000_000;

/// Ship tuning, fixed-point: sprite scale, angular and thrust rates per
/// second, the two cooldown durations, and the per-axis speed limit.
#[derive(Clone, Copy, Debug, PartialEq, Eq, Structural)]
pub struct ShipConfig {
    pub scale: i64,
    pub rotation_increment: i64,
    pub thrust_increment: i64,
    pub blink_timer: i64,
    pub laser_timer: i64,
    pub max_velocity: i64,
}

impl ShipConfig {
    pub open spec fn valid(&self) -> bool {
        &&& 0 < self.scale <= MAX_SCALE
        &&& 0 <= self.rotation_increment <= MAX_RATE
        &&& 0 <= self.thrust_increment <= MAX_RATE
        &&& 0 <= self.blink_timer
        &&& 0 <= self.laser_timer
        &&& 0 <= self.max_velocity <= MAX_SPEED
    }

    /// Accepts exactly the valid records.
    pub fn check(&self) -> (r: bool)
        ensures
            r == self.valid(),
    {
        0 < self.scale && self.scale <= MAX_SCALE && 0 <= self.rotation_increment
            && self.rotation_increment <= MAX_RATE && 0 <= self.thrust_increment
            && self.thrust_increment <= MAX_RATE && 0 <= self.blink_timer && 0 <= self.laser_timer
            && 0 <= self.max_velocity && self.max_velocity <= MAX_SPEED
    }
}

/// The input adapter's per-tick snapshot of asserted intents; overwritten
/// wholesale before each simulation step.
#[derive(Clone, Copy, Debug, PartialEq, Eq, Structural)]
pub struct Actions {
    pub rotate_cw: bool,
    pub rotate_ccw: bool,
    pub fire_boosters: bool,
    pub is_shooting: bool,
    pub is_blinking: bool,
}

impl core::default::Default for Actions {
    /// No intent asserted.
    fn default() -> (a: Actions)
        ensures
            a == (Actions {
                rotate_cw: false,
                rotate_ccw: false,
                fire_boosters: false,
                is_shooting: false,
                is_blinking: false,
            }),
    {
        Actions {
            rotate_cw: false,
            rotate_ccw: false,
            fire_boosters: false,
            is_shooting: false,
            is_blinking: false,
        }
    }
}

/// The collision radius the sprite geometry gives a ship: the larger
/// sprite side at the configured scale.
pub open spec fn ship_radius(c: ShipConfig) -> int {
    fx_mul(
        if SHIP_SPRITE_W >= SHIP_SPRITE_H {
            SHIP_SPRITE_W as int
        } else {
            SHIP_SPRITE_H as int
        },
        c.scale as int,
    )
}

/// The centre of the field, where the ship starts and restarts.
pub open spec fn field_center() -> Vector {
    Vector { x: (VIEW_W / 2) as i64, y: (VIEW_H / 2) as i64 }
}

pub struct Ship {
    pub config: ShipConfig,
    pub sprite_id: uuid::Uuid,
    pub pos: Vector,
    pub rot: i64,
    pub vel: Vector,
    pub actions: Actions,
    pub tinted: bool,
    pub blink_cooldown: Cooldown,
    pub laser_cooldown: Cooldown,
    pub radius: i64,
    pub dead: bool,
}

/// `v` clamped to the symmetric band `[-m, m]`, exactly as a componentwise
/// `min` against `m` followed by a `max` against `-m` computes it.
pub open spec fn clamp_to(v: int, m: int) -> int {
    let capped = if v <= m {
        v
    } else {
        m
    };
    if capped >= -m {
        capped
    } else {
        -m
    }
}

/// One thrust component: the direction entry scaled by the configured
/// thrust rate and by the delta-time.
pub open spec fn accel_component(d: int, thrust: int, dt: int) -> int {
    fx_mul(fx_mul(d, thrust), dt)
}

impl Ship {
    pub open spec fn inv(&self) -> bool {
        &&& self.config.valid()
        &&& self.radius == ship_radius(self.config)
        &&& 0 < self.radius <= MAX_RADIUS
        &&& -MAX_RADIUS <= self.pos.x <= VIEW_W + MAX_RADIUS
        &&& -MAX_RADIUS <= self.pos.y <= VIEW_H + MAX_RADIUS
        &&& -self.config.max_velocity <= self.vel.x <= self.config.max_velocity
        &&& -self.config.max_velocity <= self.vel.y <= self.config.max_velocity
        &&& 0 <= self.rot < FULL_TURN
        &&& self.blink_cooldown.inv()
        &&& self.laser_cooldown.inv()
    }

    /// A new ship: centred, at rest, pointing up, untinted, both cooldowns
    /// ready, alive, with no intent asserted.
    pub fn new(config: ShipConfig) -> (s: Ship)
        requires
            config.valid(),
        ensures
            s.inv(),
            s.config == config,
            s.pos == field_center(),
            s.rot == 0,
            s.vel == (Vector { x: 0, y: 0 }),
            s.actions == (Actions {
                rotate_cw: false,
                rotate_ccw: false,
                fire_boosters: false,
                is_shooting: false,
                is_blinking: false,
            }),
            !s.tinted,
            s.blink_cooldown.remaining == 0,
            s.laser_cooldown.remaining == 0,
            !s.dead,
    {
        let base = if SHIP_SPRITE_W >= SHIP_SPRITE_H {
            SHIP_SPRITE_W
        } else {
            SHIP_SPRITE_H
        };
        proof {
            lemma_radius_bounds(config.scale as int);
        }
        Ship {
            config,
            sprite_id: fresh_handle(),
            pos: Vector::new(VIEW_W / 2, VIEW_H / 2),
            rot: 0,
            vel: Vector::new_empty(),
            actions: Actions::default(),
            tinted: false,
            blink_cooldown: Cooldown::new(),
            laser_cooldown: Cooldown::new(),
            radius: mul_fx(base, config.scale),
            dead: false,
        }
    }

    /// Rotation after one clockwise increment.
    pub open spec fn rotated_cw(self, dt: i64) -> int {
        norm_deg(self.rot + fx_mul(self.config.rotation_increment as int, dt as int))
    }

    /// Rotation after one counterclockwise increment.
    pub open spec fn rotated_ccw_from(self, from: int, dt: i64) -> int {
        norm_deg(from - fx_mul(self.config.rotation_increment as int, dt as int))
    }

    fn rotate_cw(&mut self, delta: i64)
        requires
            old(self).inv(),
            0 <= delta <= MAX_DT,
        ensures
            *final(self) == (Ship { rot: old(self).rotated_cw(delta) as i64, ..*old(self) }),
            final(self).inv(),
    {
        proof {
            lemma_spin_bound(self.config.rotation_increment as int, delta as int);
        }
        let spin = mul_fx(self.config.rotation_increment, delta);
        self.rot = norm_angle(self.rot + spin);
    }

    fn rotate_ccw(&mut self, delta: i64)
        requires
            old(self).inv(),
            0 <= delta <= MAX_DT,
        ensures
            *final(self) == (Ship {
                rot: old(self).rotated_ccw_from(old(self).rot as int, delta) as i64,
                ..*old(self)
            }),
            final(self).inv(),
    {
        proof {
            lemma_spin_bound(self.config.rotation_increment as int, delta as int);
        }
        let spin = mul_fx(self.config.rotation_increment, delta);
        self.rot = norm_angle(self.rot - spin);
    }

    /// Velocity after one thrust application along the current heading,
    /// clamped componentwise to the configured speed limit.
    pub open spec fn thrusted_vel(self, dt: i64, table: DirTable) -> Vector {
        let d = table.dirs@[dir_index(self.rot - QUARTER_TURN)];
        let m = self.config.max_velocity as int;
        Vector {
            x: clamp_to(
                self.vel.x + accel_component(d.x as int, self.config.thrust_increment as int, dt as int),
                m,
            ) as i64,
            y: clamp_to(
                self.vel.y + accel_component(d.y as int, self.config.thrust_increment as int, dt as int),
                m,
            ) as i64,
        }
    }

    fn accelerate(&mut self, delta: i64, table: &DirTable)
        requires
            old(self).inv(),
            table.wf(),
            0 <= delta <= MAX_DT,
        ensures
            *final(self) == (Ship { vel: old(self).thrusted_vel(delta, *table), ..*old(self) }),
            final(self).inv(),
    {
        let d = table.dir(self.rot - QUARTER_TURN);
        proof {
            lemma_dir_scale_bound(d.x as int, self.config.thrust_increment as int, MAX_RATE as int);
            lemma_dir_scale_bound(d.y as int, self.config.thrust_increment as int, MAX_RATE as int);
            lemma_spin_bound(fx_mul(d.x as int, self.config.thrust_increment as int), delta as int);
            lemma_spin_bound(fx_mul(d.y as int, self.config.thrust_increment as int), delta as int);
        }
        let acceleration = Vector::new(
            mul_fx(mul_fx(d.x, self.config.thrust_increment), delta),
            mul_fx(mul_fx(d.y, self.config.thrust_increment), delta),
        );
        let neg_max: i64 = 0 - self.config.max_velocity;
        self.vel = self.vel.add(acceleration);
        self.vel = self.vel.min(Vector::from(self.config.max_velocity));
        self.vel = self.vel.max(Vector::from(neg_max));
    }

    fn blink(&mut self)
        ensures
            *final(self) == (Ship { tinted: !old(self).tinted, ..*old(self) }),
    {
        self.tinted = !self.tinted;
    }

    fn reset_blink_cd(&mut self)
        requires
            old(self).inv(),
        ensures
            *final(self) == (Ship {
                blink_cooldown: (Cooldown { remaining: old(self).config.blink_timer }),
                ..*old(self)
            }),
            final(self).inv(),
    {
        self.blink_cooldown.reset(self.config.blink_timer);
    }

    /// Re-arms the fire-rate limiter; the director calls this right after
    /// it spawns a laser.
    pub fn reset_laser_cd(&mut self)
        requires
            old(self).inv(),
        ensures
            *final(self) == (Ship {
                laser_cooldown: (Cooldown { remaining: old(self).config.laser_timer }),
                ..*old(self)
            }),
            final(self).inv(),
    {
        self.laser_cooldown.reset(self.config.laser_timer);
    }

    /// The ship after one step of `dt`: position integrated (frame-rate
    /// parity factor applied) and wrapped by its own radius; then each
    /// asserted intent in turn — clockwise spin, counterclockwise spin,
    /// thrust along the post-rotation heading; then the tint toggles if the
    /// blink intent is asserted while its cooldown is ready (re-arming that
    /// cooldown); finally both cooldowns tick down.
    pub open spec fn stepped(self, dt: i64, table: DirTable) -> Ship {
        let moved = Ship {
            pos: (Vector {
                x: wrap_axis(
                    self.pos.x + frame_disp(self.vel.x as int, dt as int),
                    self.radius as int,
                    VIEW_W as int,
                ) as i64,
                y: wrap_axis(
                    self.pos.y + frame_disp(self.vel.y as int, dt as int),
                    self.radius as int,
                    VIEW_H as int,
                ) as i64,
            }),
            ..self
        };
        let r1 = if self.actions.rotate_cw {
            Ship { rot: moved.rotated_cw(dt) as i64, ..moved }
        } else {
            moved
        };
        let r2 = if self.actions.rotate_ccw {
            Ship { rot: r1.rotated_ccw_from(r1.rot as int, dt) as i64, ..r1 }
        } else {
            r1
        };
        let thrusted = if self.actions.fire_boosters {
            Ship { vel: r2.thrusted_vel(dt, table), ..r2 }
        } else {
            r2
        };
        let blinked = if self.actions.is_blinking && self.blink_cooldown.remaining == 0 {
            Ship {
                tinted: !thrusted.tinted,
                blink_cooldown: (Cooldown { remaining: self.config.blink_timer }),
                ..thrusted
            }
        } else {
            thrusted
        };
        Ship {
            blink_cooldown: (Cooldown {
                remaining: tick_spec(blinked.blink_cooldown.remaining as int, dt as int) as i64,
            }),
            laser_cooldown: (Cooldown {
                remaining: tick_spec(blinked.laser_cooldown.remaining as int, dt as int) as i64,
            }),
            ..blinked
        }
    }

    /// One simulation step; see [`Ship::stepped`] for the exact effect.
    pub fn update(&mut self, dt: i64, table: &DirTable)
        requires
            old(self).inv(),
            table.wf(),
            0 <= dt <= MAX_DT,
        ensures
            *final(self) == old(self).stepped(dt, *table),
            final(self).inv(),
    {
        let disp = frame_step(self.vel, dt);
        self.pos = loop_pos(self.pos.add(disp), self.radius, Vector::new(VIEW_W, VIEW_H));
        if self.actions.rotate_cw {
            self.rotate_cw(dt);
        }
        if self.actions.rotate_ccw {
            self.rotate_ccw(dt);
        }
        if self.actions.fire_boosters {
            self.accelerate(dt, table);
        }
        if self.actions.is_blinking && self.blink_cooldown.ready() {
            self.blink();
            self.reset_blink_cd();
        }
        self.blink_cooldown.tick(dt);
        self.laser_cooldown.tick(dt);
    }

    /// True exactly when the fire cooldown is ready and the fire intent is
    /// asserted; the director then spawns a laser.
    pub fn is_firing_laser(&self) -> (r: bool)
        ensures
            r == (self.laser_cooldown.remaining == 0 && self.actions.is_shooting),
    {
        self.laser_cooldown.ready() && self.actions.is_shooting
    }

    /// Where a new laser appears: half the ship's radius ahead of its
    /// centre, along the forward heading.
    pub open spec fn laser_spawn_point(self, table: DirTable) -> Vector {
        let d = table.dirs@[dir_index(self.rot - QUARTER_TURN)];
        Vector {
            x: (fx_mul(d.x as int, trunc_div(self.radius as int, 2)) + self.pos.x) as i64,
            y: (fx_mul(d.y as int, trunc_div(self.radius as int, 2)) + self.pos.y) as i64,
        }
    }

    /// Computes [`Ship::laser_spawn_point`].
    pub fn get_laser_pos(&self, table: &DirTable) -> (r: Vector)
        requires
            self.inv(),
            table.wf(),
        ensures
            r == self.laser_spawn_point(*table),
            -POS_LIMIT <= r.x <= POS_LIMIT,
            -POS_LIMIT <= r.y <= POS_LIMIT,
    {
        let d = table.dir(self.rot - QUARTER_TURN);
        let half = self.radius / 2;
        proof {
            lemma_dir_scale_bound(d.x as int, half as int, MAX_RADIUS as int);
            lemma_dir_scale_bound(d.y as int, half as int, MAX_RADIUS as int);
        }
        d.mul(Vector::from(half)).add(self.pos)
    }

    /// Re-centres the ship and stops it; rotation, cooldowns, tint and the
    /// alive flag are untouched.
    pub fn reset(&mut self)
        requires
            old(self).inv(),
        ensures
            *final(self) == (Ship {
                pos: field_center(),
                vel: (Vector { x: 0, y: 0 }),
                ..*old(self)
            }),
            final(self).inv(),
    {
        self.vel = Vector::new_empty();
        self.pos = Vector::new(VIEW_W / 2, VIEW_H / 2);
    }

    /// Flags the ship destroyed; the director's transition check acts on it.
    pub fn kill(&mut self)
        ensures
            *final(self) == (Ship { dead: true, ..*old(self) }),
    {
        self.dead = true;
    }

    /// Clears the destroyed flag when the session restarts.
    pub fn unkill(&mut self)
        ensures
            *final(self) == (Ship { dead: false, ..*old(self) }),
    {
        self.dead = false;
    }
}

/// The scaled radius stays positive and under the cap for every in-range
/// scale factor.
proof fn lemma_radius_bounds(scale: int)
    requires
        1 <= scale <= MAX_SCALE,
    ensures
        i64::MIN <= SHIP_SPRITE_H * scale <= i64::MAX,
        0 < fx_mul(SHIP_SPRITE_H as int, scale) <= MAX_RADIUS,
{
    let base = SHIP_SPRITE_H as int;
    lemma_product_bound(base, base, scale, MAX_SCALE as int);
    assert(base * scale >= base) by (nonlinear_arith)
        requires
            scale >= 1,
            base > 0,
    ;
    lemma_rescale_bound(base * scale, MAX_RADIUS as int);
    vstd::arithmetic::div_mod::lemma_div_is_ordered(FX as int, base * scale, FX as int);
    vstd::arithmetic::div_mod::lemma_div_multiples_vanish(1, FX as int);
}

/// A rate scaled by a delta-time stays within the angle-accumulation bound.
proof fn lemma_spin_bound(rate: int, dt: int)
    requires
        -MAX_RATE <= rate <= MAX_RATE,
        0 <= dt <= MAX_DT,
    ensures
        -(MAX_RATE * MAX_DT) <= rate * dt <= MAX_RATE * MAX_DT,
        -1_000_000_000_000 <= fx_mul(rate, dt) <= 1_000_000_000_000,
{
    lemma_product_bound(rate, MAX_RATE as int, dt, MAX_DT as int);
    lemma_rescale_bound(rate * dt, 1_000_000_000_000);
}

} // verus!
