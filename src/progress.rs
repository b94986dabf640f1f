//! Progress of a countdown as a whole percentage.
use vstd::prelude::*;

verus! {

/// Percentage of `total` that `elapsed` has used up, rounded down and capped
/// at 100. A zero total counts as already complete.
pub open spec fn percent_spec(elapsed: nat, total: nat) -> nat {
    if total == 0 || elapsed >= total {
        100
    } else {
        elapsed * 100 / total
    }
}

/// Percentage of `total` that `elapsed` has used up, in `0..=100`. Both are in
/// the same unit.
pub fn percentage(elapsed: u64, total: u64) -> (r: u64)
    ensures
        r == percent_spec(elapsed as nat, total as nat),
        r <= 100,
{
    if total == 0 || elapsed >= total {
        100
    } else {
        let scaled: u128 = elapsed as u128 * 100;
        let r = scaled / (total as u128);
        let ghost e = elapsed as int;
        let ghost t = total as int;
        assert(e * 100 / t < 100) by (nonlinear_arith)
            requires e < t, t > 0;
        r as u64
    }
}

/// As elapsed time grows against a fixed total, the percentage never falls,
/// and it stays within `0..=100`.
pub proof fn lemma_percent_monotonic(earlier: nat, later: nat, total: nat)
    requires
        earlier <= later,
    ensures
        percent_spec(earlier, total) <= percent_spec(later, total),
        percent_spec(later, total) <= 100,
{
    if total > 0 && later < total {
        assert(earlier * 100 / total <= later * 100 / total) by (nonlinear_arith)
            requires earlier <= later, total > 0;
        assert(later * 100 / total < 100) by (nonlinear_arith)
            requires later < total, total > 0;
    } else if total > 0 && earlier < total {
        assert(earlier * 100 / total < 100) by (nonlinear_arith)
            requires earlier < total, total > 0;
    }
}

} // verus!
