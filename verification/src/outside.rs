//! The calls that leave this crate. Their contracts are taken on trust.

use vstd::prelude::*;

verus! {

/// The bits that every random (version 4) identifier has in common: the
/// version field holds 4 and the variant field starts with the bits `10`.
pub open spec fn is_random_id(id: u128) -> bool {
    id & 0x0000_0000_0000_f000_c000_0000_0000_0000u128
        == 0x0000_0000_0000_4000_8000_0000_0000_0000u128
}

/// Draws a new identifier with `uuid::Uuid::new_v4` and hands it out as the
/// number that `Uuid::as_u128` gives. Which number comes back is left open;
/// the contract only states the version and variant bits that `new_v4` sets
/// on every identifier it makes.
#[verifier::external_body]
pub(crate) fn fresh_id() -> (id: u128)
    ensures
        is_random_id(id),
{
    uuid::Uuid::new_v4().as_u128()
}

/// Draws a number with `rand::Rng::gen_range` on the thread's generator,
/// over the inclusive range from `min` to `max`. `gen_range` panics on an
/// empty range, which `requires` leaves out; the contract states only that
/// the number lies in the range.
#[verifier::external_body]
pub(crate) fn draw_between(min: u64, max: u64) -> (drawn: u64)
    requires
        min <= max,
    ensures
        min <= drawn <= max,
{
    rand::Rng::gen_range(&mut rand::thread_rng(), min..=max)
}

} // verus!
