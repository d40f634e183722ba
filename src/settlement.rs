//! Settlement arithmetic: the fee-adjusted proportional payout of a winning
//! stake, and what the payouts of all winners add up to.

use vstd::arithmetic::div_mod::{lemma_fundamental_div_mod, lemma_mod_bound};
use vstd::prelude::*;

use crate::config::{DEFAULT_PLATFORM_FEE_PERCENTAGE, PERCENTAGE_DENOMINATOR};
use crate::market::{outcome_total, sum_amounts, MarketView, StakeView, MAX_TOTAL_STAKE};

verus! {

/// What a stake is worth once the platform's cut is removed:
/// `stake * (100 - fee) / 100`, truncated.
pub open spec fn spec_net_share(stake: int) -> int {
    stake * (100 - 2) / 100
}

/// The payout of a winning stake: its net share scaled by the whole pool over
/// the winning side's total, truncated; 0 when the winning side is empty.
pub open spec fn spec_payout(stake: int, total: int, winning_total: int) -> int {
    if winning_total > 0 {
        spec_net_share(stake) * total / winning_total
    } else {
        0
    }
}

/// The platform's fee on a pool: `total * fee / 100`, truncated.
pub open spec fn spec_platform_fee(total: int) -> int {
    total * 2 / 100
}

/// The payout of a winning stake of `stake` in a pool of `total_staked`,
/// of which `winning_total` was staked on the winning outcome. The fee comes
/// off the stake first; the net share is then scaled by the whole pool.
pub fn payout_share(stake: i128, total_staked: i128, winning_total: i128) -> (r: i128)
    requires
        0 <= stake <= total_staked <= MAX_TOTAL_STAKE,
    ensures
        r == spec_payout(stake as int, total_staked as int, winning_total as int),
        0 <= r,
{
    if winning_total <= 0 {
        return 0;
    }
    proof {
        assert(0 <= stake * 98 <= MAX_TOTAL_STAKE * 98) by (nonlinear_arith)
            requires
                0 <= stake <= MAX_TOTAL_STAKE,
        ;
    }
    let net = stake * (PERCENTAGE_DENOMINATOR - DEFAULT_PLATFORM_FEE_PERCENTAGE)
        / PERCENTAGE_DENOMINATOR;
    proof {
        lemma_div_mul_le(stake * 98, 100);
        assert(0 <= net <= stake);
        assert(net * total_staked <= MAX_TOTAL_STAKE * MAX_TOTAL_STAKE) by (nonlinear_arith)
            requires
                0 <= net <= MAX_TOTAL_STAKE,
                0 <= total_staked <= MAX_TOTAL_STAKE,
        ;
        assert(0 <= net * total_staked) by (nonlinear_arith)
            requires
                0 <= net,
                0 <= total_staked,
        ;
    }
    net * total_staked / winning_total
}

/// The platform's fee on a pool of `total_staked`.
pub fn platform_fee(total_staked: i128) -> (r: i128)
    requires
        0 <= total_staked <= MAX_TOTAL_STAKE,
    ensures
        r == spec_platform_fee(total_staked as int),
{
    total_staked * DEFAULT_PLATFORM_FEE_PERCENTAGE / PERCENTAGE_DENOMINATOR
}

/// Sum of the payouts of the entries on outcome `o`, in a pool of `total`
/// whose winning side holds `w`.
pub open spec fn winners_payout_sum(s: Seq<StakeView>, o: Seq<char>, total: int, w: int) -> int
    decreases s.len(),
{
    if s.len() == 0 {
        0
    } else {
        winners_payout_sum(s.drop_last(), o, total, w) + if s.last().outcome == o {
            spec_payout(s.last().amount as int, total, w)
        } else {
            0
        }
    }
}

/// Sum of the net shares of the entries on outcome `o`.
pub open spec fn net_share_sum(s: Seq<StakeView>, o: Seq<char>) -> int
    decreases s.len(),
{
    if s.len() == 0 {
        0
    } else {
        net_share_sum(s.drop_last(), o) + if s.last().outcome == o {
            spec_net_share(s.last().amount as int)
        } else {
            0
        }
    }
}

proof fn lemma_div_mul_le(x: int, d: int)
    requires
        x >= 0,
        d > 0,
    ensures
        (x / d) * d <= x,
        x - (x / d) * d < d,
        x / d >= 0,
{
    lemma_fundamental_div_mod(x, d);
    lemma_mod_bound(x, d);
    assert((x / d) * d == d * (x / d)) by (nonlinear_arith);
    assert(x / d >= 0) by (nonlinear_arith)
        requires
            x >= 0,
            d > 0,
            x == d * (x / d) + x % d,
            0 <= x % d < d,
    ;
}

/// Scaled by the winning total, the payouts never exceed the net shares
/// scaled by the pool.
proof fn lemma_payout_sum_scaled(s: Seq<StakeView>, o: Seq<char>, total: int, w: int)
    requires
        w > 0,
        total >= 0,
        forall|k: int| 0 <= k < s.len() ==> #[trigger] s[k].amount > 0,
    ensures
        winners_payout_sum(s, o, total, w) * w <= total * net_share_sum(s, o),
        net_share_sum(s, o) >= 0,
    decreases s.len(),
{
    if s.len() > 0 {
        let t = s.drop_last();
        assert forall|k: int| 0 <= k < t.len() implies #[trigger] t[k].amount > 0 by {
            assert(t[k] == s[k]);
        }
        lemma_payout_sum_scaled(t, o, total, w);
        let a = s.last().amount as int;
        assert(s.last().amount > 0) by {
            assert(s.last() == s[s.len() - 1]);
        }
        let net = spec_net_share(a);
        lemma_div_mul_le(a * 98, 100);
        assert(net >= 0);
        let p0 = winners_payout_sum(t, o, total, w);
        let n0 = net_share_sum(t, o);
        if s.last().outcome == o {
            let x = net * total;
            assert(x >= 0) by (nonlinear_arith)
                requires
                    x == net * total,
                    net >= 0,
                    total >= 0,
            ;
            lemma_div_mul_le(x, w);
            assert((p0 + x / w) * w <= total * (n0 + net)) by (nonlinear_arith)
                requires
                    p0 * w <= total * n0,
                    (x / w) * w <= x,
                    x == net * total,
            ;
        }
    }
}

/// Net shares keep at most 98 in every 100 of what they came from, and lose
/// less than one unit each to truncation.
proof fn lemma_net_share_sum_bounds(s: Seq<StakeView>, o: Seq<char>)
    requires
        forall|k: int| 0 <= k < s.len() ==> #[trigger] s[k].amount > 0,
    ensures
        net_share_sum(s, o) * 100 <= 98 * outcome_total(s, o),
        net_share_sum(s, o) * 100 + 99 * s.len() >= 98 * outcome_total(s, o),
    decreases s.len(),
{
    if s.len() > 0 {
        let t = s.drop_last();
        assert forall|k: int| 0 <= k < t.len() implies #[trigger] t[k].amount > 0 by {
            assert(t[k] == s[k]);
        }
        lemma_net_share_sum_bounds(t, o);
        let a = s.last().amount as int;
        assert(s.last().amount > 0) by {
            assert(s.last() == s[s.len() - 1]);
        }
        lemma_div_mul_le(a * 98, 100);
    }
}

/// When the winning side holds the whole pool, each payout is exactly the
/// net share.
proof fn lemma_payout_sum_whole_pool(s: Seq<StakeView>, o: Seq<char>, total: int)
    requires
        total > 0,
        forall|k: int| 0 <= k < s.len() ==> #[trigger] s[k].amount > 0,
    ensures
        winners_payout_sum(s, o, total, total) == net_share_sum(s, o),
    decreases s.len(),
{
    if s.len() > 0 {
        let t = s.drop_last();
        assert forall|k: int| 0 <= k < t.len() implies #[trigger] t[k].amount > 0 by {
            assert(t[k] == s[k]);
        }
        lemma_payout_sum_whole_pool(t, o, total);
        let net = spec_net_share(s.last().amount as int);
        assert((net * total) / total == net) by (nonlinear_arith)
            requires
                total > 0,
        ;
    }
}

/// With no winning side, nobody is paid.
proof fn lemma_payout_sum_empty_side(s: Seq<StakeView>, o: Seq<char>, total: int)
    ensures
        winners_payout_sum(s, o, total, 0) == 0,
    decreases s.len(),
{
    if s.len() > 0 {
        lemma_payout_sum_empty_side(s.drop_last(), o, total);
    }
}

/// Settlement never pays out more than the pool: for any winning outcome `o`
/// of a well-formed market, the payouts owed to all stakes on `o` plus the
/// platform fee add up to at most the total staked.
pub proof fn lemma_payouts_within_pool(m: MarketView, o: Seq<char>)
    requires
        m.wf(),
    ensures
        winners_payout_sum(m.stakes, o, m.total_staked as int, outcome_total(m.stakes, o))
            + spec_platform_fee(m.total_staked as int) <= m.total_staked,
{
    let s = m.stakes;
    let total = m.total_staked as int;
    let w = outcome_total(s, o);
    crate::market::lemma_outcome_total_bounds(s, o);
    crate::market::lemma_sum_nonneg(s);
    lemma_div_mul_le(total * 2, 100);
    let fee = spec_platform_fee(total);
    if w == 0 {
        lemma_payout_sum_empty_side(s, o, total);
    } else {
        lemma_payout_sum_scaled(s, o, total, w);
        lemma_net_share_sum_bounds(s, o);
        let p = winners_payout_sum(s, o, total, w);
        let n = net_share_sum(s, o);
        assert(p * 100 <= 98 * total) by (nonlinear_arith)
            requires
                w > 0,
                total >= 0,
                p * w <= total * n,
                n * 100 <= 98 * w,
        ;
    }
}

/// When every stake is on the winning outcome, settlement is exact up to
/// truncation: the payouts plus the platform fee fall short of the total
/// staked by at most one unit per participant.
pub proof fn lemma_payouts_whole_pool_exact(m: MarketView, o: Seq<char>)
    requires
        m.wf(),
        outcome_total(m.stakes, o) == m.total_staked,
    ensures
        m.total_staked - m.stakes.len() <= winners_payout_sum(
            m.stakes,
            o,
            m.total_staked as int,
            m.total_staked as int,
        ) + spec_platform_fee(m.total_staked as int) <= m.total_staked,
{
    let s = m.stakes;
    let total = m.total_staked as int;
    lemma_payouts_within_pool(m, o);
    crate::market::lemma_sum_nonneg(s);
    lemma_div_mul_le(total * 2, 100);
    if total == 0 {
        lemma_payout_sum_empty_side(s, o, total);
    } else {
        lemma_payout_sum_whole_pool(s, o, total);
        lemma_net_share_sum_bounds(s, o);
    }
}

} // verus!
