//! Engine-wide laws, proved over the models the operation contracts use.
//!
//! `place_bet` guarantees that each successful bet turns the market into
//! `Market::after_bet` and a repeated bet into an accumulated position, and
//! `claim` guarantees that its result and the position it leaves are exactly
//! `claim_decision` and `position_after_claim`.  The lemmas here lift those
//! single-step contracts to whole histories.

use vstd::prelude::*;
use vstd::arithmetic::div_mod::lemma_div_is_ordered;
use vstd::arithmetic::div_mod::lemma_div_multiples_vanish;
use vstd::arithmetic::div_mod::lemma_fundamental_div_mod;
use vstd::arithmetic::div_mod::lemma_mod_bound;
use vstd::arithmetic::mul::lemma_mul_inequality;
use vstd::arithmetic::mul::lemma_mul_is_commutative;
use vstd::arithmetic::mul::lemma_mul_is_distributive_add;
use vstd::arithmetic::mul::lemma_mul_is_distributive_add_other_way;
use vstd::arithmetic::mul::lemma_mul_is_distributive_sub;
use crate::ops::claim_decision;
use crate::ops::position_after_claim;
use crate::settle::spec_share;
use crate::state::Market;
use crate::state::MarketStatus;
use crate::state::Outcome;
use crate::state::Position;
use crate::state::Protocol;
use crate::state::SibylError;

verus! {

/// The market after a history of successful bets, each applied as
/// `place_bet`'s contract says a successful bet is applied.
pub open spec fn market_after_bets(m: Market, bets: Seq<(Outcome, u64)>) -> Market
    decreases bets.len(),
{
    if bets.len() == 0 {
        m
    } else {
        market_after_bets(m, bets.drop_last()).after_bet(bets.last().0, bets.last().1)
    }
}

/// The combined amount staked by a history of bets.
pub open spec fn sum_of_bets(bets: Seq<(Outcome, u64)>) -> int
    decreases bets.len(),
{
    if bets.len() == 0 {
        0
    } else {
        sum_of_bets(bets.drop_last()) + bets.last().1
    }
}

/// Every bet in the history is on a real side and lands in a pool with room
/// for it; these are the conditions under which `place_bet` accepts the bet
/// and its checked accumulation cannot overflow.
pub open spec fn bets_fit(m: Market, bets: Seq<(Outcome, u64)>) -> bool
    decreases bets.len(),
{
    bets.len() == 0 || {
        let prior = market_after_bets(m, bets.drop_last());
        &&& bets_fit(m, bets.drop_last())
        &&& bets.last().0 != Outcome::Invalid
        &&& prior.side_pool(bets.last().0) + bets.last().1 <= u64::MAX
    }
}

/// Pool conservation: after any history of successful bets, the combined
/// pool equals the starting combined pool plus the sum of all amounts
/// escrowed by those bets.
pub proof fn lemma_pool_conservation(m: Market, bets: Seq<(Outcome, u64)>)
    requires
        bets_fit(m, bets),
    ensures
        market_after_bets(m, bets).total_pool() == m.total_pool() + sum_of_bets(bets),
    decreases bets.len(),
{
    if bets.len() > 0 {
        lemma_pool_conservation(m, bets.drop_last());
    }
}

/// A position after repeated successful bets of the given amounts on its
/// own (market, owner, side) triple, each applied as `place_bet`'s contract
/// says a repeated bet is applied.
pub open spec fn position_after_rebets(p: Position, amounts: Seq<u64>) -> Position
    decreases amounts.len(),
{
    if amounts.len() == 0 {
        p
    } else {
        let prior = position_after_rebets(p, amounts.drop_last());
        Position { amount: (prior.amount + amounts.last()) as u64, ..prior }
    }
}

/// The combined amount of a history of repeated bets.
pub open spec fn sum_of_amounts(amounts: Seq<u64>) -> int
    decreases amounts.len(),
{
    if amounts.len() == 0 {
        0
    } else {
        sum_of_amounts(amounts.drop_last()) + amounts.last()
    }
}

/// The accumulated stake never outgrows its type along the history.
pub open spec fn rebets_fit(p: Position, amounts: Seq<u64>) -> bool
    decreases amounts.len(),
{
    amounts.len() == 0 || {
        &&& rebets_fit(p, amounts.drop_last())
        &&& position_after_rebets(p, amounts.drop_last()).amount + amounts.last() <= u64::MAX
    }
}

/// Position stability: however often its owner adds to a position, its
/// side, owner, market and claimed flag never change, and its stake only
/// accumulates, by exactly the amounts staked.
pub proof fn lemma_position_accumulates(p: Position, amounts: Seq<u64>)
    requires
        rebets_fit(p, amounts),
    ensures
        position_after_rebets(p, amounts).side == p.side,
        position_after_rebets(p, amounts).owner == p.owner,
        position_after_rebets(p, amounts).market == p.market,
        position_after_rebets(p, amounts).claimed == p.claimed,
        position_after_rebets(p, amounts).amount == p.amount + sum_of_amounts(amounts),
    decreases amounts.len(),
{
    if amounts.len() > 0 {
        lemma_position_accumulates(p, amounts.drop_last());
    }
}

/// Floor division is superadditive: splitting a dividend loses at most the
/// rounding, never gains, so `a / d + b / d <= (a + b) / d`.
proof fn lemma_div_superadditive(a: int, b: int, d: int)
    requires
        0 <= a,
        0 <= b,
        0 < d,
    ensures
        a / d + b / d <= (a + b) / d,
{
    lemma_fundamental_div_mod(a, d);
    lemma_fundamental_div_mod(b, d);
    lemma_fundamental_div_mod(a + b, d);
    lemma_mod_bound(a, d);
    lemma_mod_bound(b, d);
    lemma_mod_bound(a + b, d);
    let q1 = (a + b) / d;
    let q2 = a / d + b / d;
    assert(d * q1 - d * (a / d) - d * (b / d) == a % d + b % d - (a + b) % d);
    if q1 < q2 {
        lemma_mul_inequality(q1, q2 - 1, d);
        lemma_mul_is_commutative(q1, d);
        lemma_mul_is_commutative(q2 - 1, d);
        lemma_mul_is_distributive_sub(d, q2, 1);
        lemma_mul_is_distributive_add(d, a / d, b / d);
        assert(d * q1 <= d * (a / d) + d * (b / d) - d);
        assert(a % d + b % d - (a + b) % d <= -d);
        assert(false);
    }
}

/// The combined gross share owed to a set of stakes, each settled by the
/// claim formula against the same pools.
pub open spec fn sum_of_shares(amounts: Seq<u64>, total: int, pool: u64) -> int
    decreases amounts.len(),
{
    if amounts.len() == 0 {
        0
    } else {
        sum_of_shares(amounts.drop_last(), total, pool) + spec_share(amounts.last(), total, pool)
    }
}

proof fn lemma_sum_of_amounts_nonneg(amounts: Seq<u64>)
    ensures
        0 <= sum_of_amounts(amounts),
    decreases amounts.len(),
{
    if amounts.len() > 0 {
        lemma_sum_of_amounts_nonneg(amounts.drop_last());
    }
}

/// The combined share of a set of stakes never exceeds the share of their
/// sum: the floors only ever round value away.
proof fn lemma_sum_of_shares_bounded(amounts: Seq<u64>, total: int, pool: u64)
    requires
        0 <= total,
        pool > 0,
    ensures
        sum_of_shares(amounts, total, pool) <= (sum_of_amounts(amounts) * total) / (pool as int),
    decreases amounts.len(),
{
    if amounts.len() == 0 {
        lemma_sum_of_amounts_nonneg(amounts);
    } else {
        let rest = amounts.drop_last();
        let last = amounts.last();
        lemma_sum_of_shares_bounded(rest, total, pool);
        lemma_sum_of_amounts_nonneg(rest);
        lemma_mul_inequality(0, sum_of_amounts(rest), total);
        lemma_mul_inequality(0, last as int, total);
        lemma_div_superadditive(sum_of_amounts(rest) * total, (last as int) * total, pool as int);
        lemma_mul_is_distributive_add_other_way(total, sum_of_amounts(rest), last as int);
    }
}

/// Aggregate solvency of a market resolved `Yes` or `No`: as long as the
/// stakes of the positions on the winning side together do not exceed that
/// side's pool — which pool conservation guarantees for the positions
/// betting built — the gross amounts (payout plus fee) of all their claims
/// together never exceed the combined pool the escrow custodies.  The
/// invalid-outcome refund, by contrast, deliberately amplifies and carries
/// no such bound.
pub proof fn lemma_winning_claims_covered(m: Market, winner: Outcome, amounts: Seq<u64>)
    requires
        sum_of_amounts(amounts) <= m.side_pool(winner),
    ensures
        sum_of_shares(amounts, m.total_pool(), m.side_pool(winner)) <= m.total_pool(),
    decreases amounts.len(),
{
    let pool = m.side_pool(winner);
    let total = m.total_pool();
    if pool == 0 {
        // Every share of an empty pool is zero.
        if amounts.len() > 0 {
            lemma_sum_of_amounts_nonneg(amounts.drop_last());
            lemma_winning_claims_covered(m, winner, amounts.drop_last());
        }
    } else {
        lemma_sum_of_shares_bounded(amounts, total, pool);
        lemma_mul_inequality(sum_of_amounts(amounts), pool as int, total);
        lemma_div_is_ordered(sum_of_amounts(amounts) * total, (pool as int) * total, pool as int);
        lemma_div_multiples_vanish(total, pool as int);
    }
}

/// A claim succeeds at most once: the position a successful claim leaves
/// behind is refused with `AlreadyClaimed` by every later claim against the
/// same resolved market.
pub proof fn lemma_claim_at_most_once(protocol: Protocol, m: Market, p: Position)
    requires
        claim_decision(protocol, m, p) is Ok,
    ensures
        claim_decision(protocol, m, position_after_claim(p, claim_decision(protocol, m, p)))
            == Err::<(int, int), SibylError>(SibylError::AlreadyClaimed),
{
    assert(m.status == MarketStatus::Resolved);
}

} // verus!
