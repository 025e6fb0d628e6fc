//! An asteroid: a kinematic body spawned with randomized speed, heading,
//! spin, scale and polar offset from the field centre, destroyed when a
//! live laser strikes it.

use vstd::prelude::*;
use crate::heading::{norm_angle, norm_deg, DirTable};
use crate::trusted::{draw_range, fresh_handle};
use crate::utils::{
    frame_disp, frame_step, fx_mul, lemma_dir_scale_bound, lemma_product_bound,
    lemma_rescale_bound, loop_pos, mul_fx, wrap_axis, Vector,
};
use crate::{
    FULL_TURN, FX, MAX_DT, MAX_MAG, MAX_RATE, MAX_SCALE, MAX_SPEED, POS_LIMIT, VIEW_H, VIEW_W,
};

verus! {

/// The asteroid sprite is a 50-unit square before scaling.
pub const ROID_BASE_DIAMETER: i64 = 50_000;

/// No asteroid's collision diameter exceeds the base sprite at full scale.
pub const MAX_DIAMETER: i64 = 50_000_000_000;

/// Asteroid spawn tuning, fixed-point: speed, spin and scale ranges, and
/// the polar offset band (from the field centre) new asteroids appear in.
#[derive(Clone, Copy, Debug, PartialEq, Eq, Structural)]
pub struct RoidConfig {
    pub min_speed: i64,
    pub max_speed: i64,
    pub max_rot: i64,
    pub min_scale: i64,
    pub max_scale: i64,
    pub min_spawn_mag: i64,
    pub max_spawn_mag: i64,
}

impl RoidConfig {
    pub open spec fn valid(&self) -> bool {
        &&& 0 <= self.min_speed < self.max_speed <= MAX_SPEED
        &&& 0 < self.max_rot <= MAX_RATE
        &&& 0 < self.min_scale < self.max_scale <= MAX_SCALE
        &&& 0 <= self.min_spawn_mag < self.max_spawn_mag <= MAX_MAG
    }

    /// Accepts exactly the valid records.
    pub fn check(&self) -> (r: bool)
        ensures
            r == self.valid(),
    {
        0 <= self.min_speed && self.min_speed < self.max_speed && self.max_speed <= MAX_SPEED
            && 0 < self.max_rot && self.max_rot <= MAX_RATE && 0 < self.min_scale
            && self.min_scale < self.max_scale && self.max_scale <= MAX_SCALE
            && 0 <= self.min_spawn_mag && self.min_spawn_mag < self.max_spawn_mag
            && self.max_spawn_mag <= MAX_MAG
    }
}

#[derive(Clone, Copy)]
pub struct Roid {
    pub pos: Vector,
    pub vel: Vector,
    pub rot: i64,
    pub rot_vel: i64,
    pub sprite_id: uuid::Uuid,
    pub diameter: i64,
}

impl Roid {
    pub open spec fn inv(&self) -> bool {
        &&& -POS_LIMIT <= self.pos.x <= POS_LIMIT
        &&& -POS_LIMIT <= self.pos.y <= POS_LIMIT
        &&& -MAX_SPEED <= self.vel.x <= MAX_SPEED
        &&& -MAX_SPEED <= self.vel.y <= MAX_SPEED
        &&& 0 <= self.rot < FULL_TURN
        &&& -MAX_RATE <= self.rot_vel <= MAX_RATE
        &&& 0 < self.diameter <= MAX_DIAMETER
    }

    /// What every freshly spawned asteroid satisfies, whatever the random
    /// draws were: no spin faster than the configured cap, a diameter from
    /// the base sprite scaled by an in-range factor, a velocity of an
    /// in-range speed along some table direction, and a position offset
    /// from the field centre by an in-range magnitude along some table
    /// direction — the polar-offset policy, which keeps spawns at least
    /// `min_spawn_mag` from the centre where the ship rests.
    pub open spec fn spawn_ok(self, c: RoidConfig, t: DirTable) -> bool {
        &&& self.rot == 0
        &&& -c.max_rot <= self.rot_vel < c.max_rot
        &&& (exists|scale: i64|
            c.min_scale <= scale < c.max_scale && self.diameter == #[trigger] fx_mul(
                ROID_BASE_DIAMETER as int,
                scale as int,
            ))
        &&& (exists|slot: int, speed: i64|
            0 <= slot < 360 && c.min_speed <= speed < c.max_speed && self.vel.x
                == #[trigger] fx_mul(t.dirs@[slot].x as int, speed as int) && self.vel.y == fx_mul(
                t.dirs@[slot].y as int,
                speed as int,
            ))
        &&& (exists|slot: int, mag: i64|
            0 <= slot < 360 && c.min_spawn_mag <= mag < c.max_spawn_mag && self.pos.x == (
            VIEW_W as int) / 2 + #[trigger] fx_mul(t.dirs@[slot].x as int, mag as int)
                && self.pos.y == (VIEW_H as int) / 2 + fx_mul(t.dirs@[slot].y as int, mag as int))
    }

    /// Spawns one asteroid from six uniform draws.
    pub fn new(config: &RoidConfig, table: &DirTable, rng: &mut rand::rngs::StdRng) -> (r: Roid)
        requires
            config.valid(),
            table.wf(),
        ensures
            r.inv(),
            r.spawn_ok(*config, *table),
    {
        let speed = draw_range(rng, config.min_speed, config.max_speed);
        let scale = draw_range(rng, config.min_scale, config.max_scale);
        let rot_vel = draw_range(rng, -config.max_rot, config.max_rot);
        let heading_slot = draw_range(rng, 0, 360);
        let mag = draw_range(rng, config.min_spawn_mag, config.max_spawn_mag);
        let spawn_slot = draw_range(rng, 0, 360);

        let hd = table.dirs[heading_slot as usize];
        let sd = table.dirs[spawn_slot as usize];
        proof {
            lemma_dir_scale_bound(hd.x as int, speed as int, MAX_SPEED as int);
            lemma_dir_scale_bound(hd.y as int, speed as int, MAX_SPEED as int);
            lemma_dir_scale_bound(sd.x as int, mag as int, MAX_MAG as int);
            lemma_dir_scale_bound(sd.y as int, mag as int, MAX_MAG as int);
            lemma_diameter_bounds(scale as int);
        }
        let vel = hd.mul(Vector::from(speed));
        let offset = sd.mul(Vector::from(mag));
        let pos = Vector::new(VIEW_W / 2, VIEW_H / 2).add(offset);
        let diameter = mul_fx(ROID_BASE_DIAMETER, scale);

        let r = Roid { pos, rot: 0, rot_vel, vel, sprite_id: fresh_handle(), diameter };
        proof {
            assert(r.vel.x == fx_mul(table.dirs@[heading_slot as int].x as int, speed as int));
            assert(r.pos.x == (VIEW_W as int) / 2 + fx_mul(
                table.dirs@[spawn_slot as int].x as int,
                mag as int,
            ));
            assert(r.diameter == fx_mul(ROID_BASE_DIAMETER as int, scale as int));
        }
        r
    }

    /// The asteroid after one step of `dt`: position integrated (with the
    /// frame-rate parity factor) and wrapped by its own diameter, rotation
    /// advanced by its spin and kept normalized.
    pub open spec fn stepped(self, dt: i64) -> Roid {
        Roid {
            pos: (Vector {
                x: wrap_axis(
                    self.pos.x + frame_disp(self.vel.x as int, dt as int),
                    self.diameter as int,
                    VIEW_W as int,
                ) as i64,
                y: wrap_axis(
                    self.pos.y + frame_disp(self.vel.y as int, dt as int),
                    self.diameter as int,
                    VIEW_H as int,
                ) as i64,
            }),
            vel: self.vel,
            rot: norm_deg(self.rot + fx_mul(self.rot_vel as int, dt as int)) as i64,
            rot_vel: self.rot_vel,
            sprite_id: self.sprite_id,
            diameter: self.diameter,
        }
    }

    /// One simulation step: integrate, spin, wrap.
    pub fn update(&mut self, dt: i64)
        requires
            old(self).inv(),
            0 <= dt <= MAX_DT,
        ensures
            *final(self) == old(self).stepped(dt),
            final(self).inv(),
    {
        let disp = frame_step(self.vel, dt);
        self.pos = loop_pos(self.pos.add(disp), self.diameter, Vector::new(VIEW_W, VIEW_H));
        proof {
            lemma_product_bound(self.rot_vel as int, MAX_RATE as int, dt as int, MAX_DT as int);
            lemma_rescale_bound((self.rot_vel as int) * (dt as int), 1_000_000_000_000);
        }
        let spin = mul_fx(self.rot_vel, dt);
        self.rot = norm_angle(self.rot + spin);
    }
}

/// The scaled diameter stays positive and under the cap for every in-range
/// scale factor.
proof fn lemma_diameter_bounds(scale: int)
    requires
        1 <= scale <= MAX_SCALE,
    ensures
        i64::MIN <= ROID_BASE_DIAMETER * scale <= i64::MAX,
        0 < fx_mul(ROID_BASE_DIAMETER as int, scale) <= MAX_DIAMETER,
{
    let base = ROID_BASE_DIAMETER as int;
    lemma_product_bound(base, base, scale, MAX_SCALE as int);
    assert(base * scale >= base) by (nonlinear_arith)
        requires
            scale >= 1,
            base > 0,
    ;
    lemma_rescale_bound(base * scale, MAX_DIAMETER as int);
    vstd::arithmetic::div_mod::lemma_div_is_ordered(FX as int, base * scale, FX as int);
    vstd::arithmetic::div_mod::lemma_div_multiples_vanish(1, FX as int);
}

} // verus!
