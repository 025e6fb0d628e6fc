//! The only assumptions this library makes about outside crates: a uniform
//! integer draw from `rand`, and a fresh render handle from `uuid`.  Every
//! other line of the simulation is verified.

use vstd::prelude::*;

verus! {

#[verifier::external_type_specification]
#[verifier::external_body]
pub struct ExStdRng(rand::rngs::StdRng);

#[verifier::external_type_specification]
#[verifier::external_body]
pub struct ExUuid(uuid::Uuid);

/// Relies on `uuid::Uuid` deriving both `Copy` and `Clone`: the derived
/// clone of a `Copy` type returns the value itself.
pub assume_specification[ <uuid::Uuid as core::clone::Clone>::clone ](v: &uuid::Uuid) -> (r:
    uuid::Uuid)
    ensures
        r == *v,
;

/// Relies on `rand::Rng::gen_range` over `lo..hi`: it panics only on an
/// empty range (ruled out here) and returns a member of the range, so
/// `lo <= r < hi`.  Nothing more is assumed — the draw is random.
#[verifier::external_body]
pub(crate) fn draw_range(rng: &mut rand::rngs::StdRng, lo: i64, hi: i64) -> (r: i64)
    requires
        lo < hi,
    ensures
        lo <= r < hi,
{
    rand::Rng::gen_range(rng, lo..hi)
}

/// Relies on `uuid::Uuid::new_v4` for a fresh random render handle, the
/// opaque identifier a host uses to pair an entity with its sprite.  The
/// simulation never reads the value, so nothing is assumed of it.
#[verifier::external_body]
pub(crate) fn fresh_handle() -> (r: uuid::Uuid) {
    uuid::Uuid::new_v4()
}

} // verus!
