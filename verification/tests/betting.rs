use sibyl::ops::place_bet;
use sibyl::state::AccountId;
use sibyl::state::Market;
use sibyl::state::MarketStatus;
use sibyl::state::Outcome;
use sibyl::state::Position;
use sibyl::state::SibylError;

fn open_market() -> Market {
    Market {
        id: 7,
        authority: AccountId(1),
        title: String::from("t"),
        description: String::from("d"),
        resolution_deadline: 2_000,
        yes_pool: 0,
        no_pool: 0,
        status: MarketStatus::Open,
        outcome: None,
        oracle_confidence: 0,
    }
}

fn empty_position() -> Position {
    Position {
        owner: AccountId(0),
        market: 0,
        side: Outcome::Yes,
        amount: 0,
        claimed: false,
    }
}

#[test]
fn place_bet_rejects_zero_amount() {
    let mut m = open_market();
    let mut pos = empty_position();
    let r = place_bet(&mut m, &mut pos, AccountId(5), Outcome::Yes, 0, 1_000);
    assert!(matches!(r, Err(SibylError::ZeroAmount)));
    assert_eq!(m.yes_pool, 0);
}

#[test]
fn place_bet_rejects_locked_market() {
    let mut m = open_market();
    m.status = MarketStatus::Locked;
    let mut pos = empty_position();
    let r = place_bet(&mut m, &mut pos, AccountId(5), Outcome::Yes, 10, 1_000);
    assert!(matches!(r, Err(SibylError::MarketNotOpen)));
}

#[test]
fn place_bet_rejects_resolved_market() {
    let mut m = open_market();
    m.status = MarketStatus::Resolved;
    m.outcome = Some(Outcome::Yes);
    let mut pos = empty_position();
    let r = place_bet(&mut m, &mut pos, AccountId(5), Outcome::Yes, 10, 1_000);
    assert!(matches!(r, Err(SibylError::MarketNotOpen)));
}

#[test]
fn place_bet_at_deadline_fails() {
    let mut m = open_market();
    let mut pos = empty_position();
    let r = place_bet(&mut m, &mut pos, AccountId(5), Outcome::Yes, 10, 2_000);
    assert!(matches!(r, Err(SibylError::MarketExpired)));
}

#[test]
fn place_bet_rejects_invalid_side() {
    let mut m = open_market();
    let mut pos = empty_position();
    let r = place_bet(&mut m, &mut pos, AccountId(5), Outcome::Invalid, 10, 1_000);
    assert!(matches!(r, Err(SibylError::InvalidBetSide)));
    assert_eq!(m.yes_pool, 0);
    assert_eq!(m.no_pool, 0);
}

#[test]
fn place_bet_creates_position() {
    let mut m = open_market();
    let mut pos = empty_position();
    let r = place_bet(&mut m, &mut pos, AccountId(5), Outcome::No, 40, 1_000);
    assert!(r.is_ok());
    assert_eq!(m.no_pool, 40);
    assert_eq!(m.yes_pool, 0);
    assert_eq!(
        pos,
        Position {
            owner: AccountId(5),
            market: 7,
            side: Outcome::No,
            amount: 40,
            claimed: false,
        }
    );
}

#[test]
fn repeated_bet_accumulates_and_keeps_side() {
    let mut m = open_market();
    let mut pos = empty_position();
    place_bet(&mut m, &mut pos, AccountId(5), Outcome::Yes, 30, 1_000).unwrap();
    place_bet(&mut m, &mut pos, AccountId(5), Outcome::Yes, 12, 1_100).unwrap();
    assert_eq!(pos.side, Outcome::Yes);
    assert_eq!(pos.amount, 42);
    assert_eq!(m.yes_pool, 42);
    assert!(!pos.claimed);
}

#[test]
fn bet_on_other_side_than_stored_fails() {
    let mut m = open_market();
    let mut pos = empty_position();
    place_bet(&mut m, &mut pos, AccountId(5), Outcome::Yes, 30, 1_000).unwrap();
    let r = place_bet(&mut m, &mut pos, AccountId(5), Outcome::No, 12, 1_100);
    assert!(matches!(r, Err(SibylError::SideMismatch)));
    assert_eq!(pos.side, Outcome::Yes);
    assert_eq!(pos.amount, 30);
    assert_eq!(m.no_pool, 0);
}

#[test]
fn pools_sum_to_total_staked() {
    let mut m = open_market();
    let mut a = empty_position();
    let mut b = empty_position();
    let mut c = empty_position();
    place_bet(&mut m, &mut a, AccountId(5), Outcome::Yes, 100, 1_000).unwrap();
    place_bet(&mut m, &mut b, AccountId(6), Outcome::No, 50, 1_100).unwrap();
    place_bet(&mut m, &mut c, AccountId(7), Outcome::Yes, 25, 1_200).unwrap();
    place_bet(&mut m, &mut a, AccountId(5), Outcome::Yes, 5, 1_300).unwrap();
    assert_eq!(m.yes_pool as u128 + m.no_pool as u128, 100 + 50 + 25 + 5);
}

#[test]
fn same_owner_can_hold_both_sides() {
    let mut m = open_market();
    let mut yes_pos = empty_position();
    let mut no_pos = empty_position();
    place_bet(&mut m, &mut yes_pos, AccountId(5), Outcome::Yes, 10, 1_000).unwrap();
    place_bet(&mut m, &mut no_pos, AccountId(5), Outcome::No, 20, 1_000).unwrap();
    assert_eq!(yes_pos.side, Outcome::Yes);
    assert_eq!(no_pos.side, Outcome::No);
    assert_eq!(m.yes_pool, 10);
    assert_eq!(m.no_pool, 20);
}
