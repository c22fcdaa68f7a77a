use vstd::prelude::*;

verus! {

/// Bound on the width of a range that `random_in_range` draws from.
pub const RANDOM_SPAN_LIMIT: i64 = 1_048_576;

/// Relies on `macroquad::rand::gen_range` on `i64`: it scales a 32-bit draw
/// into `[0, 1)` and adds `low + (high - low) * r` in `f64`, which is exact for
/// spans up to 2^20, so the truncated result lies in `[low, high)`.
#[verifier::external_body]
pub(crate) fn random_in_range(low: i64, high: i64) -> (r: i64)
    requires
        0 <= low < high,
        high - low <= RANDOM_SPAN_LIMIT,
        high <= RANDOM_SPAN_LIMIT,
    ensures
        low <= r < high,
{
    macroquad::rand::gen_range(low, high)
}

} // verus!
