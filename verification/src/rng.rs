//! The random draw, behind a narrow trusted interface: one operation that
//! draws a uniform integer from a closed interval.
use vstd::prelude::*;

use rand::Rng;

verus! {

/// Relies on rand::Rng::gen_range over rand::thread_rng(): on an inclusive
/// range it returns a value within that range, and panics only when the
/// range is empty, which the precondition rules out. Nothing more is claimed:
/// the draw is not reproducible, so two calls on equal bounds may differ.
#[verifier::external_body]
fn draw_uniform(lo: u32, hi: u32) -> (r: u32)
    requires
        lo <= hi,
    ensures
        lo <= r <= hi,
{
    rand::thread_rng().gen_range(lo..=hi)
}

/// The smallest lucky number.
pub const LUCKY_MIN: u32 = 1;

/// The largest lucky number.
pub const LUCKY_MAX: u32 = 100;

/// Draws one lucky number, uniformly from [LUCKY_MIN, LUCKY_MAX].
pub fn generate_lucky_number() -> (r: u32)
    ensures
        LUCKY_MIN <= r <= LUCKY_MAX,
{
    draw_uniform(LUCKY_MIN, LUCKY_MAX)
}

} // verus!
