//! A short-lived projectile: it flies in a straight line, wraps across the
//! field like every kinematic body, and expires when its remaining life has
//! been fully burned — whichever of expiry and impact comes first removes
//! it from the live set.

use vstd::prelude::*;
use crate::cooldown::tick_spec;
use crate::heading::{dir_index, DirTable};
use crate::trusted::fresh_handle;
use crate::utils::{fx_mul, lemma_dir_scale_bound, loop_pos, raw_disp, raw_step, wrap_axis, Vector};
use crate::{FULL_TURN, MAX_SPEED, POS_LIMIT, QUARTER_TURN, VIEW_H, VIEW_W};

verus! {

/// Collision diameter of a laser bolt: its sprite is 4 units square.
pub const LASER_DIAMETER: i64 = 4_000;

/// Laser tuning, fixed-point: a lifetime in seconds and a speed in
/// units-per-second.
#[derive(Clone, Copy, Debug, PartialEq, Eq, Structural)]
pub struct LaserConfig {
    pub laser_lifetime: i64,
    pub laser_speed: i64,
}

impl LaserConfig {
    pub open spec fn valid(&self) -> bool {
        0 <= self.laser_lifetime && 0 <= self.laser_speed <= MAX_SPEED
    }

    /// Accepts exactly the valid records.
    pub fn check(&self) -> (r: bool)
        ensures
            r == self.valid(),
    {
        0 <= self.laser_lifetime && 0 <= self.laser_speed && self.laser_speed <= MAX_SPEED
    }
}

#[derive(Clone, Copy)]
pub struct Laser {
    pub pos: Vector,
    pub vel: Vector,
    pub rot: i64,
    pub life: i64,
    pub sprite_id: uuid::Uuid,
    pub diameter: i64,
}

impl Laser {
    pub open spec fn inv(&self) -> bool {
        &&& -POS_LIMIT <= self.pos.x <= POS_LIMIT
        &&& -POS_LIMIT <= self.pos.y <= POS_LIMIT
        &&& -MAX_SPEED <= self.vel.x <= MAX_SPEED
        &&& -MAX_SPEED <= self.vel.y <= MAX_SPEED
        &&& 0 <= self.life
        &&& self.diameter == LASER_DIAMETER
    }

    /// How a fresh laser's fields derive from its spawn arguments: it
    /// starts at `pos` with the configured lifetime, and flies at the
    /// configured speed along the table's direction for the firing ship's
    /// rotation turned to its forward heading (a quarter turn back).
    pub open spec fn spawned(
        self,
        config: LaserConfig,
        pos: Vector,
        fake_rot: i64,
        table: DirTable,
    ) -> bool {
        let d = table.dirs@[dir_index(fake_rot - QUARTER_TURN)];
        &&& self.pos == pos
        &&& self.rot == fake_rot - QUARTER_TURN
        &&& self.life == config.laser_lifetime
        &&& self.vel.x == fx_mul(d.x as int, config.laser_speed as int)
        &&& self.vel.y == fx_mul(d.y as int, config.laser_speed as int)
        &&& self.diameter == LASER_DIAMETER
    }

    pub fn new(config: &LaserConfig, pos: Vector, fake_rot: i64, table: &DirTable) -> (l: Laser)
        requires
            config.valid(),
            table.wf(),
            0 <= fake_rot < FULL_TURN,
            -POS_LIMIT <= pos.x <= POS_LIMIT,
            -POS_LIMIT <= pos.y <= POS_LIMIT,
        ensures
            l.spawned(*config, pos, fake_rot, *table),
            l.inv(),
    {
        let rot = fake_rot - QUARTER_TURN;
        let d = table.dir(rot);
        proof {
            lemma_dir_scale_bound(d.x as int, config.laser_speed as int, MAX_SPEED as int);
            lemma_dir_scale_bound(d.y as int, config.laser_speed as int, MAX_SPEED as int);
        }
        Laser {
            pos,
            rot,
            life: config.laser_lifetime,
            vel: d.mul(Vector::from(config.laser_speed)),
            sprite_id: fresh_handle(),
            diameter: LASER_DIAMETER,
        }
    }

    /// The laser after one step of `dt`: position integrated and wrapped,
    /// remaining life burned down (clamped at zero); nothing else moves.
    pub open spec fn stepped(self, dt: i64) -> Laser {
        Laser {
            pos: (Vector {
                x: wrap_axis(
                    self.pos.x + raw_disp(self.vel.x as int, dt as int),
                    self.diameter as int,
                    VIEW_W as int,
                ) as i64,
                y: wrap_axis(
                    self.pos.y + raw_disp(self.vel.y as int, dt as int),
                    self.diameter as int,
                    VIEW_H as int,
                ) as i64,
            }),
            vel: self.vel,
            rot: self.rot,
            life: tick_spec(self.life as int, dt as int) as i64,
            sprite_id: self.sprite_id,
            diameter: self.diameter,
        }
    }

    /// One simulation step: integrate, wrap, burn lifetime.
    pub fn update(&mut self, dt: i64)
        requires
            old(self).inv(),
            0 <= dt <= crate::MAX_DT,
        ensures
            *final(self) == old(self).stepped(dt),
            final(self).inv(),
    {
        let disp = raw_step(self.vel, dt);
        self.pos = loop_pos(self.pos.add(disp), self.diameter, Vector::new(VIEW_W, VIEW_H));
        if self.life > dt {
            self.life = self.life - dt;
        } else {
            self.life = 0;
        }
    }

    /// Expired once the remaining life has reached zero.
    pub fn expired(&self) -> (r: bool)
        ensures
            r == (self.life <= 0),
    {
        self.life <= 0
    }
}

} // verus!
