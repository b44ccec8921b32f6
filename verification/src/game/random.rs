//! Chance: dice, shuffles, room codes and player ids come from `rand` and `uuid`.

use rand::Rng;
use vstd::prelude::*;

verus! {

/// Calls `rand::thread_rng().gen_range(low..=high)`: a number drawn from the
/// thread's generator, which rand documents to lie in the inclusive range (it
/// panics only on an empty range, which `requires` excludes). Which number
/// comes back is left open: it rests on chance.
#[verifier::external_body]
pub fn random_in_range(low: usize, high: usize) -> (r: usize)
    requires
        low <= high,
    ensures
        low <= r <= high,
{
    rand::thread_rng().gen_range(low..=high)
}

/// Calls `uuid::Uuid::new_v4()` and gives its 128-bit value (`as_u128`).
/// The uuid source sets the version nibble to 4 and the variant bits to `10`;
/// the other bits are random, and nothing is said of them.
#[verifier::external_body]
pub fn new_uuid() -> (r: u128)
    ensures
        r & 0x0000_0000_0000_f000_c000_0000_0000_0000u128 == 0x0000_0000_0000_4000_8000_0000_0000_0000u128,
{
    uuid::Uuid::new_v4().as_u128()
}

/// One die: a number from 1 to 6.
pub fn roll_die() -> (r: u8)
    ensures
        1 <= r <= 6,
{
    random_in_range(1, 6) as u8
}

} // verus!
