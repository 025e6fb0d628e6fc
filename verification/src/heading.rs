//! Headings without trigonometry: angles are fixed-point degrees, and a
//! table injected by the host maps each whole degree to its precomputed
//! direction vector.  The simulation normalizes an angle, quantizes it to a
//! degree, and looks the direction up; it never computes a sine itself.

use vstd::prelude::*;
use crate::utils::Vector;
use crate::{ConfigError, DEG_STEP, FULL_TURN, FX};

verus! {

/// Number of directions a table holds: one per whole degree.
pub const DIR_COUNT: usize = 360;

/// Angles an entity can accumulate in one step stay well inside this bound.
pub const ANGLE_LIMIT: i64 = 2_000_000_000_000;

/// An angle reduced to `[0, FULL_TURN)`, in fixed-point degrees.
pub open spec fn norm_deg(a: int) -> int {
    a % (FULL_TURN as int)
}

/// The table slot an angle selects.
pub open spec fn dir_index(a: int) -> int {
    norm_deg(a) / (DEG_STEP as int)
}

/// Reduces an angle to `[0, FULL_TURN)`.
pub fn norm_angle(a: i64) -> (r: i64)
    requires
        -ANGLE_LIMIT <= a <= ANGLE_LIMIT,
    ensures
        r == norm_deg(a as int),
        0 <= r < FULL_TURN,
{
    let m: i64 = a % FULL_TURN;
    proof {
        lemma_norm_cases(a as int, m as int);
    }
    if m < 0 {
        m + FULL_TURN
    } else {
        m
    }
}

proof fn lemma_norm_cases(a: int, m: int)
    requires
        m == trunc_rem_of(a),
    ensures
        m >= 0 ==> m == norm_deg(a),
        m < 0 ==> m + FULL_TURN == norm_deg(a),
        -FULL_TURN < m < FULL_TURN,
{
    let n = FULL_TURN as int;
    if a >= 0 {
        vstd::arithmetic::div_mod::lemma_mod_division_less_than_divisor(a, n);
    } else {
        let t = (-a) % n;
        vstd::arithmetic::div_mod::lemma_mod_division_less_than_divisor(-a, n);
        vstd::arithmetic::div_mod::lemma_fundamental_div_mod(-a, n);
        let q = (-a) / n;
        assert(-a == n * q + t);
        if t == 0 {
            vstd::arithmetic::div_mod::lemma_fundamental_div_mod_converse_mod(a, n, -q, 0);
        } else {
            vstd::arithmetic::div_mod::lemma_fundamental_div_mod_converse_mod(a, n, -q - 1, n - t);
        }
    }
}

/// What the executable `%` leaves for a divisor of `FULL_TURN`.
spec fn trunc_rem_of(a: int) -> int {
    crate::utils::trunc_rem(a, FULL_TURN as int)
}

/// A direction fits in the unit box of the fixed-point scale.
pub open spec fn unit_dir(v: Vector) -> bool {
    -FX <= v.x <= FX && -FX <= v.y <= FX
}

/// A full table: one bounded direction per whole degree.
pub open spec fn table_ok(dirs: Seq<Vector>) -> bool {
    dirs.len() == DIR_COUNT && (forall|i: int|
        0 <= i < dirs.len() ==> unit_dir(#[trigger] dirs[i]))
}

/// 360 precomputed direction vectors, slot `i` standing for `i` degrees.
/// The host fills it (typically with the cosine/sine pair of each degree,
/// scaled by `FX`); the simulation only requires each entry to stay inside
/// the unit box, which is all the motion bounds need.
pub struct DirTable {
    pub dirs: Vec<Vector>,
}

impl DirTable {
    pub open spec fn wf(&self) -> bool {
        table_ok(self.dirs@)
    }

    /// Accepts exactly the well-formed tables.
    pub fn new(dirs: Vec<Vector>) -> (r: Result<DirTable, ConfigError>)
        ensures
            match r {
                Ok(t) => t.dirs@ == dirs@ && t.wf(),
                Err(e) => e == ConfigError::InvalidDirTable && !table_ok(dirs@),
            },
    {
        if dirs.len() != DIR_COUNT {
            return Err(ConfigError::InvalidDirTable);
        }
        let mut i: usize = 0;
        while i < DIR_COUNT
            invariant
                0 <= i <= DIR_COUNT,
                dirs@.len() == DIR_COUNT,
                forall|k: int| 0 <= k < i ==> unit_dir(#[trigger] dirs@[k]),
            decreases DIR_COUNT - i,
        {
            let d = dirs[i];
            if d.x < -FX || d.x > FX || d.y < -FX || d.y > FX {
                return Err(ConfigError::InvalidDirTable);
            }
            i = i + 1;
        }
        Ok(DirTable { dirs })
    }

    /// The direction stored for an angle, after normalization and
    /// quantization to a whole degree.
    pub fn dir(&self, angle: i64) -> (r: Vector)
        requires
            self.wf(),
            -ANGLE_LIMIT <= angle <= ANGLE_LIMIT,
        ensures
            r == self.dirs@[dir_index(angle as int)],
            unit_dir(r),
    {
        let norm = norm_angle(angle);
        let idx = (norm / DEG_STEP) as usize;
        assert(0 <= norm_deg(angle as int) / (DEG_STEP as int) < 360) by {
            vstd::arithmetic::div_mod::lemma_div_pos_is_pos(norm as int, DEG_STEP as int);
        }
        self.dirs[idx]
    }
}

} // verus!
