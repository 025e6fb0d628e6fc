//! 2D fixed-point vector arithmetic, the circle predicate used for every
//! collision test, and the toroidal position wrap.

use vstd::prelude::*;
use crate::{COORD_LIMIT, FRAME_SCALE, FX, MAX_DT, MAX_SPEED};

verus! {

/// Division that truncates toward zero, the way `/` behaves on `i64`.
pub open spec fn trunc_div(a: int, b: int) -> int {
    if a >= 0 {
        a / b
    } else {
        -((-a) / b)
    }
}

/// Remainder that pairs with [`trunc_div`], the way `%` behaves on `i64`.
pub open spec fn trunc_rem(a: int, b: int) -> int {
    if a >= 0 {
        a % b
    } else {
        -((-a) % b)
    }
}

/// Fixed-point product: both factors carry the `FX` scale, so the raw
/// product is rescaled once.
pub open spec fn fx_mul(a: int, b: int) -> int {
    trunc_div(a * b, FX as int)
}

/// Fixed-point quotient, the inverse rescaling of [`fx_mul`].
pub open spec fn fx_div(a: int, b: int) -> int {
    trunc_div(a * (FX as int), b)
}

/// Nearest whole-unit multiple of `FX`, halves rounded away from zero.
pub open spec fn round_to_unit(x: int) -> int {
    if x >= 0 {
        ((x + 500) / 1000) * 1000
    } else {
        -(((-x + 500) / 1000) * 1000)
    }
}

/// Fixed-point product of two scalars.
pub fn mul_fx(a: i64, b: i64) -> (r: i64)
    requires
        i64::MIN <= a * b <= i64::MAX,
    ensures
        r == fx_mul(a as int, b as int),
{
    let p: i64 = a * b;
    p / FX
}

/// Fixed-point quotient of two scalars.
pub fn div_fx(a: i64, b: i64) -> (r: i64)
    requires
        b != 0,
        -i64::MAX <= a * FX <= i64::MAX,
    ensures
        r == fx_div(a as int, b as int),
{
    let p: i64 = a * FX;
    proof {
        lemma_trunc_div_bounds(p as int, b as int);
    }
    p / b
}

/// Truncating division never grows the magnitude of the dividend.
pub proof fn lemma_trunc_div_bounds(a: int, b: int)
    requires
        b != 0,
    ensures
        a >= 0 ==> -a <= trunc_div(a, b) <= a,
        a < 0 ==> a <= trunc_div(a, b) <= -a,
{
    if a >= 0 {
        lemma_div_bounds_nonneg(a, b);
    } else {
        lemma_div_bounds_nonneg(-a, b);
    }
}

proof fn lemma_div_bounds_nonneg(a: int, b: int)
    requires
        a >= 0,
        b != 0,
    ensures
        -a <= a / b <= a,
{
    if b > 0 {
        vstd::arithmetic::div_mod::lemma_div_pos_is_pos(a, b);
        vstd::arithmetic::div_mod::lemma_div_nonincreasing(a, b);
    } else {
        let q = a / b;
        let r = a % b;
        vstd::arithmetic::div_mod::lemma_fundamental_div_mod(a, b);
        assert(0 <= r < -b);
        assert(-a <= q <= a) by (nonlinear_arith)
            requires
                a >= 0,
                b <= -1,
                a == b * q + r,
                0 <= r,
                r < -b,
        ;
    }
}

/// A point or displacement on the field; both coordinates are fixed-point
/// scalars.  Every operation returns a new value.
#[derive(Copy, Clone, Debug, Default, PartialEq, Eq, Structural)]
pub struct Vector {
    pub x: i64,
    pub y: i64,
}

impl Vector {
    /// The origin.
    pub fn new_empty() -> (v: Vector)
        ensures
            v == (Vector { x: 0, y: 0 }),
    {
        Vector::new(0, 0)
    }

    pub fn new(x: i64, y: i64) -> (v: Vector)
        ensures
            v == (Vector { x, y }),
    {
        Vector { x, y }
    }

    /// Componentwise minimum.
    pub fn min(&self, nv: Vector) -> (r: Vector)
        ensures
            r.x == if self.x <= nv.x { self.x } else { nv.x },
            r.y == if self.y <= nv.y { self.y } else { nv.y },
    {
        Vector {
            x: if self.x <= nv.x { self.x } else { nv.x },
            y: if self.y <= nv.y { self.y } else { nv.y },
        }
    }

    /// Componentwise maximum.
    pub fn max(&self, nv: Vector) -> (r: Vector)
        ensures
            r.x == if self.x >= nv.x { self.x } else { nv.x },
            r.y == if self.y >= nv.y { self.y } else { nv.y },
    {
        Vector {
            x: if self.x >= nv.x { self.x } else { nv.x },
            y: if self.y >= nv.y { self.y } else { nv.y },
        }
    }

    /// Both coordinates rounded to the nearest whole unit.
    pub fn round(&self) -> (r: Vector)
        requires
            -i64::MAX + 500 <= self.x <= i64::MAX - 500,
            -i64::MAX + 500 <= self.y <= i64::MAX - 500,
        ensures
            r.x == round_to_unit(self.x as int),
            r.y == round_to_unit(self.y as int),
    {
        Vector { x: round_axis(self.x), y: round_axis(self.y) }
    }

    /// Componentwise sum.
    pub fn add(self, other: Vector) -> (r: Vector)
        requires
            i64::MIN <= self.x + other.x <= i64::MAX,
            i64::MIN <= self.y + other.y <= i64::MAX,
        ensures
            r.x == self.x + other.x,
            r.y == self.y + other.y,
    {
        Vector { x: self.x + other.x, y: self.y + other.y }
    }

    /// Componentwise difference.
    pub fn sub(self, other: Vector) -> (r: Vector)
        requires
            i64::MIN <= self.x - other.x <= i64::MAX,
            i64::MIN <= self.y - other.y <= i64::MAX,
        ensures
            r.x == self.x - other.x,
            r.y == self.y - other.y,
    {
        Vector { x: self.x - other.x, y: self.y - other.y }
    }

    /// Componentwise fixed-point product (not a dot product: axes scale
    /// independently, which is how delta-time scaling is applied).
    pub fn mul(self, other: Vector) -> (r: Vector)
        requires
            i64::MIN <= self.x * other.x <= i64::MAX,
            i64::MIN <= self.y * other.y <= i64::MAX,
        ensures
            r.x == fx_mul(self.x as int, other.x as int),
            r.y == fx_mul(self.y as int, other.y as int),
    {
        Vector { x: mul_fx(self.x, other.x), y: mul_fx(self.y, other.y) }
    }

    /// Componentwise fixed-point quotient.
    pub fn div(self, other: Vector) -> (r: Vector)
        requires
            other.x != 0,
            other.y != 0,
            -i64::MAX <= self.x * FX <= i64::MAX,
            -i64::MAX <= self.y * FX <= i64::MAX,
        ensures
            r.x == fx_div(self.x as int, other.x as int),
            r.y == fx_div(self.y as int, other.y as int),
    {
        Vector { x: div_fx(self.x, other.x), y: div_fx(self.y, other.y) }
    }

    /// Componentwise remainder (scale-invariant, so no rescaling).
    pub fn rem(self, other: Vector) -> (r: Vector)
        requires
            other.x != 0,
            other.y != 0,
            !(self.x == i64::MIN && other.x == -1),
            !(self.y == i64::MIN && other.y == -1),
        ensures
            r.x == trunc_rem(self.x as int, other.x as int),
            r.y == trunc_rem(self.y as int, other.y as int),
    {
        Vector { x: self.x % other.x, y: self.y % other.y }
    }
}

impl core::convert::From<i64> for Vector {
    /// A vector with the same scalar on both axes.
    fn from(num: i64) -> (v: Vector) {
        Vector { x: num, y: num }
    }
}

impl vstd::std_specs::convert::FromSpecImpl<i64> for Vector {
    open spec fn obeys_from_spec() -> bool {
        true
    }

    open spec fn from_spec(num: i64) -> Vector {
        Vector { x: num, y: num }
    }
}

/// One coordinate rounded to the nearest whole unit, halves away from zero.
fn round_axis(x: i64) -> (r: i64)
    requires
        -i64::MAX + 500 <= x <= i64::MAX - 500,
    ensures
        r == round_to_unit(x as int),
{
    if x >= 0 {
        ((x + 500) / 1000) * 1000
    } else {
        -((((-x) + 500) / 1000) * 1000)
    }
}

/// Magnitudes multiply: bounded factors give a bounded product.
pub proof fn lemma_product_bound(a: int, ab: int, b: int, bb: int)
    requires
        -ab <= a <= ab,
        -bb <= b <= bb,
        0 <= ab,
        0 <= bb,
    ensures
        -(ab * bb) <= a * b <= ab * bb,
{
    assert(-(ab * bb) <= a * b <= ab * bb) by (nonlinear_arith)
        requires
            -ab <= a <= ab,
            -bb <= b <= bb,
            0 <= ab,
            0 <= bb,
    ;
}

/// Rescaling a product bounded by `FX * s` leaves at most `s`.
pub proof fn lemma_rescale_bound(p: int, s: int)
    requires
        0 <= s,
        -(FX * s) <= p <= FX * s,
    ensures
        -s <= trunc_div(p, FX as int) <= s,
{
    let f = FX as int;
    vstd::arithmetic::div_mod::lemma_div_multiples_vanish(s, f);
    assert(f * s / f == s);
    if p >= 0 {
        vstd::arithmetic::div_mod::lemma_div_pos_is_pos(p, f);
        vstd::arithmetic::div_mod::lemma_div_is_ordered(p, f * s, f);
    } else {
        vstd::arithmetic::div_mod::lemma_div_pos_is_pos(-p, f);
        vstd::arithmetic::div_mod::lemma_div_is_ordered(-p, f * s, f);
    }
}

/// A direction entry scaled by a bounded speed stays within that speed.
pub proof fn lemma_dir_scale_bound(d: int, s: int, bound: int)
    requires
        -FX <= d <= FX,
        -bound <= s <= bound,
        0 <= bound,
    ensures
        -bound <= fx_mul(d, s) <= bound,
        -(FX * bound) <= d * s <= FX * bound,
{
    lemma_product_bound(d, FX as int, s, bound);
    lemma_rescale_bound(d * s, bound);
}

/// One step's displacement under the velocity-unit convention: velocities
/// are units-per-frame-at-60Hz, so real-time integration scales by the
/// delta-time and then by 60.
pub open spec fn frame_disp(v: int, dt: int) -> int {
    fx_mul(fx_mul(v, dt), FRAME_SCALE as int)
}

/// One step's displacement for an entity whose velocity is plain
/// units-per-second: only the delta-time scaling applies.
pub open spec fn raw_disp(v: int, dt: int) -> int {
    fx_mul(v, dt)
}

/// No single step moves an entity further than this on either axis.
pub const DISP_LIMIT: i64 = 60_000_000_000_000;

/// The displacement `vel * dt * 60` of one step, both axes.
pub fn frame_step(vel: Vector, dt: i64) -> (r: Vector)
    requires
        -MAX_SPEED <= vel.x <= MAX_SPEED,
        -MAX_SPEED <= vel.y <= MAX_SPEED,
        0 <= dt <= MAX_DT,
    ensures
        r.x == frame_disp(vel.x as int, dt as int),
        r.y == frame_disp(vel.y as int, dt as int),
        -DISP_LIMIT <= r.x <= DISP_LIMIT,
        -DISP_LIMIT <= r.y <= DISP_LIMIT,
{
    proof {
        lemma_frame_disp_bound(vel.x as int, dt as int);
        lemma_frame_disp_bound(vel.y as int, dt as int);
    }
    vel.mul(Vector::from(dt)).mul(Vector::from(FRAME_SCALE))
}

/// The displacement `vel * dt` of one step, both axes.
pub fn raw_step(vel: Vector, dt: i64) -> (r: Vector)
    requires
        -MAX_SPEED <= vel.x <= MAX_SPEED,
        -MAX_SPEED <= vel.y <= MAX_SPEED,
        0 <= dt <= MAX_DT,
    ensures
        r.x == raw_disp(vel.x as int, dt as int),
        r.y == raw_disp(vel.y as int, dt as int),
        -DISP_LIMIT <= r.x <= DISP_LIMIT,
        -DISP_LIMIT <= r.y <= DISP_LIMIT,
{
    proof {
        lemma_raw_disp_bound(vel.x as int, dt as int);
        lemma_raw_disp_bound(vel.y as int, dt as int);
    }
    vel.mul(Vector::from(dt))
}

/// Bound and overflow-freedom of the intermediate products of `frame_disp`.
pub proof fn lemma_frame_disp_bound(v: int, dt: int)
    requires
        -MAX_SPEED <= v <= MAX_SPEED,
        0 <= dt <= MAX_DT,
    ensures
        -(MAX_SPEED * MAX_DT) <= v * dt <= MAX_SPEED * MAX_DT,
        -1_000_000_000_000 <= fx_mul(v, dt) <= 1_000_000_000_000,
        -(FRAME_SCALE * 1_000_000_000_000) <= fx_mul(v, dt) * (FRAME_SCALE as int) <= FRAME_SCALE
            * 1_000_000_000_000,
        -DISP_LIMIT <= frame_disp(v, dt) <= DISP_LIMIT,
{
    lemma_raw_disp_bound(v, dt);
    let q = fx_mul(v, dt);
    lemma_product_bound(q, 1_000_000_000_000, FRAME_SCALE as int, FRAME_SCALE as int);
    lemma_rescale_bound(q * (FRAME_SCALE as int), DISP_LIMIT as int);
}

/// Bound and overflow-freedom of the intermediate product of `raw_disp`.
pub proof fn lemma_raw_disp_bound(v: int, dt: int)
    requires
        -MAX_SPEED <= v <= MAX_SPEED,
        0 <= dt <= MAX_DT,
    ensures
        -(MAX_SPEED * MAX_DT) <= v * dt <= MAX_SPEED * MAX_DT,
        -1_000_000_000_000 <= raw_disp(v, dt) <= 1_000_000_000_000,
{
    lemma_product_bound(v, MAX_SPEED as int, dt, MAX_DT as int);
    lemma_rescale_bound(v * dt, 1_000_000_000_000);
}

/// Whether `point` lies within (or exactly on) the circle of radius
/// `radius` around `center`: Euclidean distance at most `radius`.
pub open spec fn within_radius(point: Vector, center: Vector, radius: int) -> bool {
    radius >= 0 && (point.x - center.x) * (point.x - center.x) + (point.y - center.y) * (point.y
        - center.y) <= radius * radius
}

/// Exact circle test; the squared comparison avoids any square root.
pub fn point_within_radius(point: Vector, source: Vector, radius: i64) -> (r: bool)
    requires
        -COORD_LIMIT <= point.x <= COORD_LIMIT,
        -COORD_LIMIT <= point.y <= COORD_LIMIT,
        -COORD_LIMIT <= source.x <= COORD_LIMIT,
        -COORD_LIMIT <= source.y <= COORD_LIMIT,
        -COORD_LIMIT <= radius <= COORD_LIMIT,
    ensures
        r == within_radius(point, source, radius as int),
{
    if radius < 0 {
        return false;
    }
    let dx: i128 = point.x as i128 - source.x as i128;
    let dy: i128 = point.y as i128 - source.y as i128;
    let rr: i128 = radius as i128;
    proof {
        lemma_square_bound(dx as int, 2 * COORD_LIMIT as int);
        lemma_square_bound(dy as int, 2 * COORD_LIMIT as int);
        lemma_square_bound(rr as int, COORD_LIMIT as int);
    }
    dx * dx + dy * dy <= rr * rr
}

/// The distance relation is symmetric in its two points.
pub proof fn lemma_within_radius_symmetric(a: Vector, b: Vector, r: int)
    ensures
        within_radius(a, b, r) == within_radius(b, a, r),
{
    assert((a.x - b.x) * (a.x - b.x) == (b.x - a.x) * (b.x - a.x)) by (nonlinear_arith);
    assert((a.y - b.y) * (a.y - b.y) == (b.y - a.y) * (b.y - a.y)) by (nonlinear_arith);
}

proof fn lemma_square_bound(a: int, bound: int)
    requires
        -bound <= a <= bound,
    ensures
        0 <= a * a <= bound * bound,
{
    if a >= 0 {
        vstd::arithmetic::mul::lemma_mul_upper_bound(a, bound, a, bound);
        vstd::arithmetic::mul::lemma_mul_nonnegative(a, a);
    } else {
        assert(a * a == (-a) * (-a)) by (nonlinear_arith);
        vstd::arithmetic::mul::lemma_mul_upper_bound(-a, bound, -a, bound);
        vstd::arithmetic::mul::lemma_mul_nonnegative(-a, -a);
    }
}

/// One axis of the toroidal wrap: a centre that crosses `b + d` (or `-d`)
/// teleports to the opposite margin, `-d` (or `b + d`); anything still
/// between the margins is untouched.
pub open spec fn wrap_axis(p: int, d: int, b: int) -> int {
    if p >= b + d {
        -d
    } else if p < -d {
        b + d
    } else {
        p
    }
}

/// Toroidal wrap of a position, applied to each axis independently, with a
/// margin of the entity's own diameter so sprites leave the screen fully
/// before reappearing on the far side.
pub fn loop_pos(pos: Vector, diameter: i64, bounds: Vector) -> (r: Vector)
    requires
        0 <= diameter,
        bounds.x + diameter <= i64::MAX,
        bounds.y + diameter <= i64::MAX,
    ensures
        r.x == wrap_axis(pos.x as int, diameter as int, bounds.x as int),
        r.y == wrap_axis(pos.y as int, diameter as int, bounds.y as int),
{
    let mut ret_vector = Vector::new_empty();
    if pos.x >= bounds.x + diameter {
        ret_vector.x = -diameter;
    } else if pos.x < -diameter {
        ret_vector.x = bounds.x + diameter;
    } else {
        ret_vector.x = pos.x;
    }
    if pos.y >= bounds.y + diameter {
        ret_vector.y = -diameter;
    } else if pos.y < -diameter {
        ret_vector.y = bounds.y + diameter;
    } else {
        ret_vector.y = pos.y;
    }
    ret_vector
}

/// The wrap keeps a centre inside `[-d, b + d)` and moves it by an exact
/// multiple of the torus circumference `b + 2d`.
///
/// This holds on each axis for every start already between the margins
/// (`-d <= p <= b + d`) and for every start that overshot the upper margin
/// by a whole number of circumferences; a start below `-d` lands exactly on
/// the closed upper margin `b + d` instead, outside the half-open interval.
pub proof fn lemma_wrap_invariant(p: int, d: int, b: int)
    requires
        d > 0,
        b >= 0,
        -d <= p,
        p <= b + d || (p + d) % (b + 2 * d) == 0,
    ensures
        -d <= wrap_axis(p, d, b) < b + d,
        (wrap_axis(p, d, b) - p) % (b + 2 * d) == 0,
{
    let n = b + 2 * d;
    if p < b + d {
        assert(wrap_axis(p, d, b) == p);
        assert((0int) % n == 0) by {
            vstd::arithmetic::div_mod::lemma_mod_multiples_basic(0, n);
        }
    } else if p == b + d {
        assert(wrap_axis(p, d, b) == -d);
        assert((-d - p) % n == 0) by {
            assert(-d - p == -1 * n);
            vstd::arithmetic::div_mod::lemma_mod_multiples_basic(-1, n);
        }
    } else {
        assert((p + d) % n == 0);
        assert(wrap_axis(p, d, b) == -d);
        vstd::arithmetic::div_mod::lemma_fundamental_div_mod(p + d, n);
        let q = (p + d) / n;
        assert(p + d == n * q);
        assert(-d - p == -(p + d));
        assert(-(n * q) == (-q) * n) by (nonlinear_arith);
        vstd::arithmetic::div_mod::lemma_mod_multiples_basic(-q, n);
    }
}

} // verus!
