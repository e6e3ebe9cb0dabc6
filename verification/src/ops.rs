//! The engine's operations.
//!
//! Each operation is the decision-and-bookkeeping core of one atomic
//! transaction.  The surrounding application supplies the stored entities,
//! the caller's identity checks and the current time, and realizes the token
//! movements an operation reports; a failed operation leaves every entity
//! unchanged, so the all-or-nothing transaction discipline is preserved.

use vstd::prelude::*;
use vstd::string::StrSliceExecFns;
use crate::settle::fee_of;
use crate::settle::share_of_total;
use crate::settle::spec_fee;
use crate::settle::spec_share;
use crate::state::AccountId;
use crate::state::BPS_DENOMINATOR;
use crate::state::Market;
use crate::state::MarketStatus;
use crate::state::MAX_DESC_LEN;
use crate::state::MAX_TITLE_LEN;
use crate::state::Outcome;
use crate::state::Position;
use crate::state::Protocol;
use crate::state::SibylError;

verus! {

/// Create the protocol singleton.
///
/// Succeeds exactly when `fee_bps` is a genuine basis-point rate and
/// `swap_cap` is positive; the new protocol starts with market counter 0.
/// The storage layer, not this function, must refuse a second singleton.
pub fn initialize(
    fee_bps: u16,
    swap_cap: u64,
    authority: AccountId,
    oracle: AccountId,
    sbyl_mint: AccountId,
    treasury: AccountId,
) -> (r: Result<Protocol, SibylError>)
    ensures
        fee_bps > BPS_DENOMINATOR ==> r == Err::<Protocol, SibylError>(SibylError::InvalidFeeBps),
        fee_bps <= BPS_DENOMINATOR && swap_cap == 0 ==> r == Err::<Protocol, SibylError>(
            SibylError::ZeroAmount,
        ),
        fee_bps <= BPS_DENOMINATOR && swap_cap > 0 ==> r == Ok::<Protocol, SibylError>(
            (Protocol {
                authority,
                oracle,
                sbyl_mint,
                treasury,
                fee_bps,
                swap_cap,
                market_count: 0,
            }),
        ),
        r matches Ok(p) ==> p.wf(),
{
    if fee_bps > BPS_DENOMINATOR {
        return Err(SibylError::InvalidFeeBps);
    }
    if swap_cap == 0 {
        return Err(SibylError::ZeroAmount);
    }
    Ok(
        Protocol {
            authority,
            oracle,
            sbyl_mint,
            treasury,
            fee_bps,
            swap_cap,
            market_count: 0,
        },
    )
}

/// Exchange `sol_amount` of the base currency for the bet currency at the
/// fixed 1:1 rate, subject to the per-call swap cap.
///
/// On success the returned amount is both what the application transfers
/// from the caller to the treasury and what it mints to the caller.
pub fn swap_to_sbyl(protocol: &Protocol, sol_amount: u64) -> (r: Result<u64, SibylError>)
    ensures
        sol_amount == 0 ==> r == Err::<u64, SibylError>(SibylError::ZeroAmount),
        sol_amount > protocol.swap_cap ==> r == Err::<u64, SibylError>(SibylError::SwapCapExceeded),
        0 < sol_amount <= protocol.swap_cap ==> r == Ok::<u64, SibylError>(sol_amount),
{
    if sol_amount == 0 {
        return Err(SibylError::ZeroAmount);
    }
    if sol_amount > protocol.swap_cap {
        return Err(SibylError::SwapCapExceeded);
    }
    Ok(sol_amount)
}

/// The timing and amount checks a bet must pass, whatever its side: a
/// positive stake, an open market, and a current time strictly before the
/// deadline.
pub open spec fn bet_admissible(m: Market, amount: u64, current_time: i64) -> bool {
    &&& amount > 0
    &&& m.status == MarketStatus::Open
    &&& current_time < m.resolution_deadline
}

/// Stake `amount` on `side` of an open market.
///
/// `position` is the ledger entry stored at (market, bettor, side); the
/// storage layer hands in a zeroed entry when none exists yet, and this
/// function initializes it on a first bet or accumulates into it on a
/// repeated one.  On success the application escrows `amount` of the bet
/// currency from the bettor into the market's custody; on failure market and
/// position are unchanged.  A stored side never changes, and a stored amount
/// never decreases.  Pools and positions that would outgrow their type
/// cannot take the bet, mirroring the checked accumulation.
pub fn place_bet(
    market: &mut Market,
    position: &mut Position,
    user: AccountId,
    side: Outcome,
    amount: u64,
    current_time: i64,
) -> (r: Result<(), SibylError>)
    requires
        bet_admissible(*old(market), amount, current_time) && side != Outcome::Invalid ==> old(
            market,
        ).side_pool(side) + amount <= u64::MAX,
        bet_admissible(*old(market), amount, current_time) && side != Outcome::Invalid && old(
            position,
        ).amount > 0 && old(position).side == side ==> old(position).amount + amount <= u64::MAX,
    ensures
        r is Err ==> *final(market) == *old(market) && *final(position) == *old(position),
        amount == 0 ==> r == Err::<(), SibylError>(SibylError::ZeroAmount),
        amount > 0 && old(market).status != MarketStatus::Open ==> r == Err::<(), SibylError>(
            SibylError::MarketNotOpen,
        ),
        amount > 0 && old(market).status == MarketStatus::Open && current_time >= old(
            market,
        ).resolution_deadline ==> r == Err::<(), SibylError>(SibylError::MarketExpired),
        bet_admissible(*old(market), amount, current_time) && side == Outcome::Invalid ==> r
            == Err::<(), SibylError>(SibylError::InvalidBetSide),
        bet_admissible(*old(market), amount, current_time) && side != Outcome::Invalid && old(
            position,
        ).amount > 0 && old(position).side != side ==> r == Err::<(), SibylError>(
            SibylError::SideMismatch,
        ),
        r is Ok <==> bet_admissible(*old(market), amount, current_time) && side != Outcome::Invalid
            && (old(position).amount == 0 || old(position).side == side),
        // Once the market is no longer open, or its deadline has arrived,
        // every bet fails.
        old(market).status != MarketStatus::Open || current_time >= old(
            market,
        ).resolution_deadline ==> r is Err,
        r is Ok ==> *final(market) == old(market).after_bet(side, amount),
        // The combined pool grows by exactly the amount escrowed, and no
        // pool ever shrinks.
        r is Ok ==> final(market).total_pool() == old(market).total_pool() + amount,
        final(market).yes_pool >= old(market).yes_pool && final(market).no_pool >= old(
            market,
        ).no_pool,
        r is Ok && old(position).amount == 0 ==> *final(position) == (Position {
            owner: user,
            market: old(market).id,
            side,
            amount,
            claimed: false,
        }),
        r is Ok && old(position).amount > 0 ==> *final(position) == (Position {
            amount: (old(position).amount + amount) as u64,
            ..*old(position)
        }),
        // A position's stored side never changes after creation, and its
        // stored amount never decreases.
        old(position).amount > 0 ==> final(position).side == old(position).side,
        final(position).amount >= old(position).amount,
        // Betting preserves the position-pool consistency invariant.
        r is Ok && old(position).consistent_with(*old(market)) ==> final(position).consistent_with(
            *final(market),
        ),
{
    if amount == 0 {
        return Err(SibylError::ZeroAmount);
    }
    if market.status != MarketStatus::Open {
        return Err(SibylError::MarketNotOpen);
    }
    if current_time >= market.resolution_deadline {
        return Err(SibylError::MarketExpired);
    }
    if side == Outcome::Invalid {
        return Err(SibylError::InvalidBetSide);
    }
    if position.amount > 0 && position.side != side {
        return Err(SibylError::SideMismatch);
    }
    if side == Outcome::Yes {
        market.yes_pool = market.yes_pool + amount;
    } else {
        market.no_pool = market.no_pool + amount;
    }
    if position.amount == 0 {
        position.owner = user;
        position.market = market.id;
        position.side = side;
        position.amount = amount;
        position.claimed = false;
    } else {
        position.amount = position.amount + amount;
    }
    Ok(())
}

/// Create a new market against the protocol singleton.
///
/// Only meaningful when the registered authority calls; the application
/// checks that identity.  The title and description must fit their bounds
/// and the deadline must lie strictly in the future.  On success the market
/// takes the current counter value as its id and the counter advances; on
/// failure the protocol is unchanged.  A counter at the type's maximum
/// cannot assign another id, so a successful creation requires room for it.
pub fn create_market(
    protocol: &mut Protocol,
    title: String,
    description: String,
    resolution_deadline: i64,
    current_time: i64,
) -> (r: Result<Market, SibylError>)
    requires
        title@.len() <= MAX_TITLE_LEN && description@.len() <= MAX_DESC_LEN && resolution_deadline
            > current_time ==> old(protocol).market_count < u64::MAX,
    ensures
        r is Err ==> *final(protocol) == *old(protocol),
        title@.len() > MAX_TITLE_LEN ==> r == Err::<Market, SibylError>(SibylError::TitleTooLong),
        title@.len() <= MAX_TITLE_LEN && description@.len() > MAX_DESC_LEN ==> r == Err::<
            Market,
            SibylError,
        >(SibylError::DescriptionTooLong),
        title@.len() <= MAX_TITLE_LEN && description@.len() <= MAX_DESC_LEN && resolution_deadline
            <= current_time ==> r == Err::<Market, SibylError>(SibylError::DeadlineInPast),
        title@.len() <= MAX_TITLE_LEN && description@.len() <= MAX_DESC_LEN && resolution_deadline
            > current_time ==> r == Ok::<Market, SibylError>(
            (Market {
                id: old(protocol).market_count,
                authority: old(protocol).authority,
                title,
                description,
                resolution_deadline,
                yes_pool: 0,
                no_pool: 0,
                status: MarketStatus::Open,
                outcome: None,
                oracle_confidence: 0,
            }),
        ) && *final(protocol) == (Protocol {
            market_count: (old(protocol).market_count + 1) as u64,
            ..*old(protocol)
        }),
        r matches Ok(m) ==> m.outcome_wf() && m.pools_fit(),
{
    if title.as_str().unicode_len() > MAX_TITLE_LEN {
        return Err(SibylError::TitleTooLong);
    }
    if description.as_str().unicode_len() > MAX_DESC_LEN {
        return Err(SibylError::DescriptionTooLong);
    }
    if resolution_deadline <= current_time {
        return Err(SibylError::DeadlineInPast);
    }
    let market_id: u64 = protocol.market_count;
    protocol.market_count = protocol.market_count + 1;
    Ok(
        Market {
            id: market_id,
            authority: protocol.authority,
            title,
            description,
            resolution_deadline,
            yes_pool: 0,
            no_pool: 0,
            status: MarketStatus::Open,
            outcome: None,
            oracle_confidence: 0,
        },
    )
}

/// Declare a market's outcome.
///
/// Only meaningful when the registered oracle calls; the application checks
/// that identity.  Resolution before the deadline is always rejected, and an
/// `Open` market passes through `Locked` to `Resolved` within this single
/// call, with no externally observable intermediate state.  `Resolved` is
/// terminal: a resolved (or reserved `Settled`) market cannot be resolved
/// again.
pub fn resolve(
    market: &mut Market,
    outcome: Outcome,
    confidence: u8,
    current_time: i64,
) -> (r: Result<(), SibylError>)
    ensures
        r is Err ==> *final(market) == *old(market),
        confidence > 100 ==> r == Err::<(), SibylError>(SibylError::InvalidConfidence),
        confidence <= 100 && old(market).status != MarketStatus::Open && old(market).status
            != MarketStatus::Locked ==> r == Err::<(), SibylError>(SibylError::MarketNotResolvable),
        confidence <= 100 && (old(market).status == MarketStatus::Open || old(market).status
            == MarketStatus::Locked) && current_time < old(market).resolution_deadline ==> r
            == Err::<(), SibylError>(SibylError::DeadlineNotReached),
        confidence <= 100 && (old(market).status == MarketStatus::Open || old(market).status
            == MarketStatus::Locked) && current_time >= old(market).resolution_deadline ==> r
            == Ok::<(), SibylError>(()) && *final(market) == (Market {
            status: MarketStatus::Resolved,
            outcome: Some(outcome),
            oracle_confidence: confidence,
            ..*old(market)
        }),
        // Whatever the market's status, resolution before the deadline fails.
        current_time < old(market).resolution_deadline ==> r is Err,
        r is Ok ==> final(market).outcome_wf(),
{
    if confidence > 100 {
        return Err(SibylError::InvalidConfidence);
    }
    if market.status != MarketStatus::Open && market.status != MarketStatus::Locked {
        return Err(SibylError::MarketNotResolvable);
    }
    if current_time < market.resolution_deadline {
        return Err(SibylError::DeadlineNotReached);
    }
    if market.status == MarketStatus::Open {
        market.status = MarketStatus::Locked;
    }
    market.status = MarketStatus::Resolved;
    market.outcome = Some(outcome);
    market.oracle_confidence = confidence;
    Ok(())
}

/// The states in which `claim` reaches the settlement arithmetic: a
/// resolved market, an unclaimed position, and either an invalid outcome
/// (every side is refunded) or a position standing on the declared winning
/// side.
pub open spec fn claim_computes(m: Market, p: Position) -> bool {
    &&& m.status == MarketStatus::Resolved
    &&& !p.claimed
    &&& (m.outcome == Some(Outcome::Invalid) || m.outcome == Some(p.side))
}

/// The refund owed to a position when the market's outcome is `Invalid`:
/// the stake scaled by the ratio of the whole pool to the position's own
/// side's pool.  A bettor on a lightly subscribed side is refunded more than
/// staked; the formula is reproduced as the engine defines it, not
/// corrected.
pub open spec fn invalid_refund(m: Market, p: Position) -> int {
    spec_share(p.amount, m.total_pool(), m.side_pool(p.side))
}

/// The gross amount a winning position is owed before the protocol fee: its
/// proportional share of the combined pool.
pub open spec fn winner_gross(m: Market, p: Position, winner: Outcome) -> int {
    spec_share(p.amount, m.total_pool(), m.side_pool(winner))
}

/// The protocol fee withheld from a winning claim.
pub open spec fn winner_fee(m: Market, p: Position, winner: Outcome, fee_bps: u16) -> int {
    spec_fee(winner_gross(m, p, winner), fee_bps)
}

/// What a winning position is paid after the protocol fee.
pub open spec fn winner_net(m: Market, p: Position, winner: Outcome, fee_bps: u16) -> int {
    winner_gross(m, p, winner) - winner_fee(m, p, winner, fee_bps)
}

/// The full claim decision as a mathematical function: which error a claim
/// fails with, or which `(payout, fee)` pair it realizes.  `claim` returns
/// exactly this decision, so laws about repeated claims can be stated and
/// proved over it.
pub open spec fn claim_decision(protocol: Protocol, m: Market, p: Position) -> Result<
    (int, int),
    SibylError,
> {
    if m.status != MarketStatus::Resolved {
        Err(SibylError::MarketNotResolved)
    } else if p.claimed {
        Err(SibylError::AlreadyClaimed)
    } else if m.outcome == Some(Outcome::Invalid) {
        if p.side == Outcome::Invalid {
            Err(SibylError::InvalidBetSide)
        } else if invalid_refund(m, p) == 0 {
            Err(SibylError::NoPayout)
        } else {
            Ok((invalid_refund(m, p), 0))
        }
    } else {
        let w = m.outcome.unwrap();
        if p.side != w {
            Err(SibylError::NotWinner)
        } else if winner_net(m, p, w, protocol.fee_bps) == 0 {
            Err(SibylError::NoPayout)
        } else {
            Ok((winner_net(m, p, w, protocol.fee_bps), winner_fee(m, p, w, protocol.fee_bps)))
        }
    }
}

/// The position as a claim with decision `d` leaves it: marked claimed on
/// success, untouched on failure.
pub open spec fn position_after_claim(p: Position, d: Result<(int, int), SibylError>) -> Position {
    if d is Ok {
        Position { claimed: true, ..p }
    } else {
        p
    }
}

/// Settle a position against a resolved market, returning `(payout, fee)`.
///
/// On success the application realizes `payout` from the market's escrow to
/// the claimant and `fee` (when positive) from the escrow to the treasury,
/// and the position is marked claimed, permanently: a second claim fails.
/// On an invalid outcome every position is refunded its amplified share and
/// no fee is taken; on a `Yes`/`No` outcome only positions on the winning
/// side are paid, the fee in basis points being withheld from their gross
/// share.  A claim whose payout rounds to zero fails rather than marking
/// the position claimed.  Together the payout and fee never exceed the
/// combined pool the escrow custodies.
pub fn claim(protocol: &Protocol, market: &Market, position: &mut Position) -> (r: Result<
    (u64, u64),
    SibylError,
>)
    requires
        protocol.wf(),
        old(position).market == market.id,
        market.status == MarketStatus::Resolved ==> market.outcome is Some,
        claim_computes(*market, *old(position)) ==> market.pools_fit() && old(
            position,
        ).consistent_with(*market),
    ensures
        r is Err ==> *final(position) == *old(position),
        market.status != MarketStatus::Resolved ==> r == Err::<(u64, u64), SibylError>(
            SibylError::MarketNotResolved,
        ),
        // A claimed position can never claim again.
        market.status == MarketStatus::Resolved && old(position).claimed ==> r == Err::<
            (u64, u64),
            SibylError,
        >(SibylError::AlreadyClaimed),
        claim_computes(*market, *old(position)) && market.outcome == Some(Outcome::Invalid) ==> {
            let refund = invalid_refund(*market, *old(position));
            &&& old(position).side == Outcome::Invalid ==> r == Err::<(u64, u64), SibylError>(
                SibylError::InvalidBetSide,
            )
            &&& old(position).side != Outcome::Invalid && refund == 0 ==> r == Err::<
                (u64, u64),
                SibylError,
            >(SibylError::NoPayout)
            &&& old(position).side != Outcome::Invalid && refund > 0 ==> (r matches Ok(pf)
                && pf.0 == refund && pf.1 == 0)
        },
        market.status == MarketStatus::Resolved && !old(position).claimed && market.outcome
            is Some && market.outcome != Some(Outcome::Invalid) ==> {
            let w = market.outcome.unwrap();
            let net = winner_net(*market, *old(position), w, protocol.fee_bps);
            &&& old(position).side != w ==> r == Err::<(u64, u64), SibylError>(
                SibylError::NotWinner,
            )
            &&& old(position).side == w && net == 0 ==> r == Err::<(u64, u64), SibylError>(
                SibylError::NoPayout,
            )
            &&& old(position).side == w && net > 0 ==> (r matches Ok(pf) && pf.0 == net && pf.1
                == winner_fee(*market, *old(position), w, protocol.fee_bps))
        },
        r is Ok ==> *final(position) == (Position { claimed: true, ..*old(position) }),
        // The result is exactly the claim decision, and the position ends as
        // that decision leaves it.
        r matches Ok(pf) ==> claim_decision(*protocol, *market, *old(position)) == Ok::<
            (int, int),
            SibylError,
        >((pf.0 as int, pf.1 as int)),
        r matches Err(e) ==> claim_decision(*protocol, *market, *old(position)) == Err::<
            (int, int),
            SibylError,
        >(e),
        *final(position) == position_after_claim(
            *old(position),
            claim_decision(*protocol, *market, *old(position)),
        ),
        r matches Ok(pf) ==> pf.0 > 0,
        // Solvency: what leaves the escrow never exceeds what it custodies.
        r matches Ok(pf) ==> pf.0 + pf.1 <= market.total_pool(),
{
    if market.status != MarketStatus::Resolved {
        return Err(SibylError::MarketNotResolved);
    }
    if position.claimed {
        return Err(SibylError::AlreadyClaimed);
    }
    let outcome = market.outcome.unwrap();
    let result: (u64, u64) = if outcome == Outcome::Invalid {
        let side_pool: u64 = match position.side {
            Outcome::Yes => market.yes_pool,
            Outcome::No => market.no_pool,
            Outcome::Invalid => {
                return Err(SibylError::InvalidBetSide);
            },
        };
        let total: u64 = market.yes_pool + market.no_pool;
        (share_of_total(position.amount, total, side_pool), 0u64)
    } else {
        if position.side != outcome {
            return Err(SibylError::NotWinner);
        }
        let total: u64 = market.yes_pool + market.no_pool;
        let winning_pool: u64 = if outcome == Outcome::Yes {
            market.yes_pool
        } else {
            market.no_pool
        };
        let gross: u64 = share_of_total(position.amount, total, winning_pool);
        let fee: u64 = fee_of(gross, protocol.fee_bps);
        (gross - fee, fee)
    };
    let (payout, fee_amount): (u64, u64) = result;
    if payout == 0 {
        return Err(SibylError::NoPayout);
    }
    position.claimed = true;
    Ok((payout, fee_amount))
}

} // verus!
