//! Random draws, each behind a trusted wrapper around `rand`.
//!
//! Every draw is unseeded, matching the simulation's deliberately
//! non-deterministic design; contracts state only the range of the result.

use rand::Rng;
use vstd::prelude::*;

verus! {

/// Relies on `rand::Rng::gen_range` over `1..=100` on `thread_rng`:
/// returns a draw from that inclusive range (it panics only on an empty
/// range, and `1..=100` is not empty).
#[verifier::external_body]
pub(crate) fn roll_percent() -> (r: i32)
    ensures
        1 <= r <= 100,
{
    rand::thread_rng().gen_range(1..=100)
}

/// Relies on `rand::Rng::gen_range` over `lo..=hi` on `thread_rng`:
/// returns a draw from the inclusive range, which the precondition keeps
/// non-empty.
#[verifier::external_body]
pub(crate) fn sample_value(lo: i64, hi: i64) -> (r: i64)
    requires
        lo <= hi,
    ensures
        lo <= r <= hi,
{
    rand::thread_rng().gen_range(lo..=hi)
}

/// Relies on `rand::Rng::gen_range` over `0..len` on `thread_rng`:
/// returns an index below `len`, which the precondition keeps positive.
#[verifier::external_body]
pub(crate) fn sample_index(len: usize) -> (r: usize)
    requires
        len > 0,
    ensures
        r < len,
{
    rand::thread_rng().gen_range(0..len)
}

} // verus!
