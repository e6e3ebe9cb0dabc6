//! The persistent entities of the engine and their validity conditions.

use vstd::prelude::*;

verus! {

/// Maximum number of characters in a market title.
pub const MAX_TITLE_LEN: usize = 200;

/// Maximum number of characters in a market description.
pub const MAX_DESC_LEN: usize = 1000;

/// Fee rates are expressed in basis points out of this denominator.
pub const BPS_DENOMINATOR: u16 = 10000;

/// Opaque identity of an external account (wallet, oracle, treasury, mint).
///
/// The execution substrate addresses and authenticates accounts; the engine
/// only stores identities and compares them for equality.
#[derive(Clone, Copy, PartialEq, Eq, Structural, Debug)]
pub struct AccountId(pub u64);

/// Lifecycle of a market.
#[derive(Clone, Copy, PartialEq, Eq, Structural, Debug)]
pub enum MarketStatus {
    /// Accepting bets.
    Open,
    /// Past its deadline but not yet resolved; passed through only inside a
    /// single resolution step, never observed between operations.
    Locked,
    /// An outcome has been declared; positions may claim.
    Resolved,
    /// Reserved for a future "all positions claimed and vault drained"
    /// terminal state; no operation transitions into it.
    Settled,
}

/// A declared market outcome, doubling as the side of a bet.
///
/// `Invalid` is a valid resolution (the market is voided and stakes are
/// refunded) but never a valid side for a position.
#[derive(Clone, Copy, PartialEq, Eq, Structural, Debug)]
pub enum Outcome {
    Yes,
    No,
    Invalid,
}

impl Outcome {
    /// The byte that tags this outcome in a deterministic storage address.
    pub open spec fn spec_to_u8(self) -> u8 {
        match self {
            Outcome::Yes => 0u8,
            Outcome::No => 1u8,
            Outcome::Invalid => 2u8,
        }
    }

    /// Executable form of [`Self::spec_to_u8`], used by the storage layer to
    /// build position addresses.
    pub fn to_u8(&self) -> (r: u8)
        ensures
            r == self.spec_to_u8(),
    {
        match self {
            Outcome::Yes => 0,
            Outcome::No => 1,
            Outcome::Invalid => 2,
        }
    }
}

/// Everything that can go wrong in an engine operation.
#[derive(Clone, Copy, PartialEq, Eq, Structural, Debug)]
pub enum SibylError {
    InvalidFeeBps,
    TitleTooLong,
    DescriptionTooLong,
    DeadlineInPast,
    MarketNotOpen,
    MarketExpired,
    ZeroAmount,
    InvalidBetSide,
    SideMismatch,
    InvalidConfidence,
    MarketNotResolvable,
    MarketNotResolved,
    AlreadyClaimed,
    NotWinner,
    NoPayout,
    NotPositionOwner,
    DeadlineNotReached,
    SwapCapExceeded,
    TreasuryMismatch,
}

/// The protocol singleton: global configuration and the market counter.
#[derive(Clone, Copy, Debug)]
pub struct Protocol {
    pub authority: AccountId,
    pub oracle: AccountId,
    pub sbyl_mint: AccountId,
    pub treasury: AccountId,
    /// Protocol fee on winning claims, in basis points (at most 10000).
    pub fee_bps: u16,
    /// Maximum amount of bet currency mintable per swap call (positive).
    pub swap_cap: u64,
    /// Next market id; starts at 0 and increments by one per market.
    pub market_count: u64,
}

impl Protocol {
    /// Configuration validity: the fee is a genuine basis-point rate and the
    /// swap cap is positive.  Established by `initialize` and never mutated
    /// afterwards except for the market counter.
    pub open spec fn wf(self) -> bool {
        &&& self.fee_bps <= BPS_DENOMINATOR
        &&& self.swap_cap > 0
    }
}

/// A single prediction market.
#[derive(Debug)]
pub struct Market {
    /// Assigned from the protocol counter at creation; immutable.
    pub id: u64,
    pub authority: AccountId,
    pub title: String,
    pub description: String,
    /// Resolution becomes possible at this time; betting stops at it.
    pub resolution_deadline: i64,
    /// Total staked on Yes; monotonically non-decreasing.
    pub yes_pool: u64,
    /// Total staked on No; monotonically non-decreasing.
    pub no_pool: u64,
    pub status: MarketStatus,
    /// Absent until the market is resolved.
    pub outcome: Option<Outcome>,
    /// Oracle confidence 0-100; meaningful only once resolved.
    pub oracle_confidence: u8,
}

impl Market {
    /// The pool backing a given side; `Invalid` backs nothing.
    pub open spec fn side_pool(self, side: Outcome) -> u64 {
        match side {
            Outcome::Yes => self.yes_pool,
            Outcome::No => self.no_pool,
            Outcome::Invalid => 0u64,
        }
    }

    /// The combined stake custodied by the market's escrow.
    pub open spec fn total_pool(self) -> int {
        self.yes_pool + self.no_pool
    }

    /// The combined stake fits the pool type, so settlement can add the two
    /// pools without overflow.
    pub open spec fn pools_fit(self) -> bool {
        self.total_pool() <= u64::MAX
    }

    /// A resolved market carries an outcome; an unresolved one does not.
    pub open spec fn outcome_wf(self) -> bool {
        self.status == MarketStatus::Resolved <==> self.outcome is Some
    }

    /// The market as a successful bet of `amount` on `side` leaves it: the
    /// matching pool grows by the amount escrowed, everything else is
    /// unchanged.  A bet on `Invalid` never succeeds, so that side changes
    /// nothing.
    pub open spec fn after_bet(self, side: Outcome, amount: u64) -> Market {
        match side {
            Outcome::Yes => Market { yes_pool: (self.yes_pool + amount) as u64, ..self },
            Outcome::No => Market { no_pool: (self.no_pool + amount) as u64, ..self },
            Outcome::Invalid => self,
        }
    }
}

/// One bettor's accumulated stake on one side of one market.
#[derive(Clone, Copy, PartialEq, Eq, Structural, Debug)]
pub struct Position {
    pub owner: AccountId,
    /// Id of the market the position belongs to; immutable.
    pub market: u64,
    /// The side bet on; `Yes` or `No` for every position created through
    /// betting, and immutable after creation.
    pub side: Outcome,
    /// Total staked across all bets on this (market, owner, side).
    pub amount: u64,
    /// One-way flag: set by a successful claim, never cleared.
    pub claimed: bool,
}

impl Position {
    /// The position belongs to the given market, and its stake is a part of
    /// the pool on its side.  Every position reachable through betting
    /// satisfies this: bets accumulate into the position and its side's pool
    /// in lockstep.
    pub open spec fn consistent_with(self, m: Market) -> bool {
        &&& self.market == m.id
        &&& self.side != Outcome::Invalid ==> self.amount <= m.side_pool(self.side)
    }
}

} // verus!
