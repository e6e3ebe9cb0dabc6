use sibyl::ops::create_market;
use sibyl::ops::initialize;
use sibyl::ops::resolve;
use sibyl::state::AccountId;
use sibyl::state::Market;
use sibyl::state::MarketStatus;
use sibyl::state::Outcome;
use sibyl::state::Protocol;
use sibyl::state::SibylError;

fn test_protocol() -> Protocol {
    initialize(
        500,
        1_000_000,
        AccountId(1),
        AccountId(2),
        AccountId(3),
        AccountId(4),
    )
    .unwrap()
}

fn open_market(protocol: &mut Protocol, deadline: i64, now: i64) -> Market {
    create_market(
        protocol,
        String::from("Will it rain tomorrow?"),
        String::from("Resolves Yes if any rain falls."),
        deadline,
        now,
    )
    .unwrap()
}

#[test]
fn initialize_rejects_fee_over_10000() {
    let r = initialize(
        10_001,
        100,
        AccountId(1),
        AccountId(2),
        AccountId(3),
        AccountId(4),
    );
    assert!(matches!(r, Err(SibylError::InvalidFeeBps)));
}

#[test]
fn initialize_accepts_fee_of_exactly_10000() {
    let r = initialize(
        10_000,
        100,
        AccountId(1),
        AccountId(2),
        AccountId(3),
        AccountId(4),
    );
    assert!(r.is_ok());
}

#[test]
fn initialize_rejects_zero_swap_cap() {
    let r = initialize(
        500,
        0,
        AccountId(1),
        AccountId(2),
        AccountId(3),
        AccountId(4),
    );
    assert!(matches!(r, Err(SibylError::ZeroAmount)));
}

#[test]
fn initialize_sets_configuration() {
    let p = test_protocol();
    assert_eq!(p.authority, AccountId(1));
    assert_eq!(p.oracle, AccountId(2));
    assert_eq!(p.sbyl_mint, AccountId(3));
    assert_eq!(p.treasury, AccountId(4));
    assert_eq!(p.fee_bps, 500);
    assert_eq!(p.swap_cap, 1_000_000);
    assert_eq!(p.market_count, 0);
}

#[test]
fn create_market_with_deadline_equal_to_now_fails() {
    let mut p = test_protocol();
    let r = create_market(
        &mut p,
        String::from("t"),
        String::from("d"),
        1_000,
        1_000,
    );
    assert!(matches!(r, Err(SibylError::DeadlineInPast)));
    assert_eq!(p.market_count, 0);
}

#[test]
fn create_market_with_past_deadline_fails() {
    let mut p = test_protocol();
    let r = create_market(&mut p, String::from("t"), String::from("d"), 999, 1_000);
    assert!(matches!(r, Err(SibylError::DeadlineInPast)));
}

#[test]
fn create_market_rejects_long_title() {
    let mut p = test_protocol();
    let r = create_market(
        &mut p,
        "x".repeat(201),
        String::from("d"),
        2_000,
        1_000,
    );
    assert!(matches!(r, Err(SibylError::TitleTooLong)));
}

#[test]
fn create_market_accepts_title_at_bound() {
    let mut p = test_protocol();
    let r = create_market(
        &mut p,
        "x".repeat(200),
        "y".repeat(1_000),
        2_000,
        1_000,
    );
    assert!(r.is_ok());
}

#[test]
fn create_market_rejects_long_description() {
    let mut p = test_protocol();
    let r = create_market(
        &mut p,
        String::from("t"),
        "y".repeat(1_001),
        2_000,
        1_000,
    );
    assert!(matches!(r, Err(SibylError::DescriptionTooLong)));
}

#[test]
fn create_market_assigns_sequential_ids() {
    let mut p = test_protocol();
    let m0 = open_market(&mut p, 2_000, 1_000);
    let m1 = open_market(&mut p, 3_000, 1_000);
    assert_eq!(m0.id, 0);
    assert_eq!(m1.id, 1);
    assert_eq!(p.market_count, 2);
    assert_eq!(m0.yes_pool, 0);
    assert_eq!(m0.no_pool, 0);
    assert_eq!(m0.status, MarketStatus::Open);
    assert_eq!(m0.outcome, None);
    assert_eq!(m0.oracle_confidence, 0);
    assert_eq!(m0.authority, AccountId(1));
}

#[test]
fn resolve_before_deadline_always_fails() {
    let mut p = test_protocol();
    let mut m = open_market(&mut p, 2_000, 1_000);
    let r = resolve(&mut m, Outcome::Yes, 90, 1_999);
    assert!(matches!(r, Err(SibylError::DeadlineNotReached)));
    assert_eq!(m.status, MarketStatus::Open);

    m.status = MarketStatus::Locked;
    let r = resolve(&mut m, Outcome::Yes, 90, 1_999);
    assert!(matches!(r, Err(SibylError::DeadlineNotReached)));
    assert_eq!(m.status, MarketStatus::Locked);
}

#[test]
fn resolve_exactly_at_deadline_succeeds() {
    let mut p = test_protocol();
    let mut m = open_market(&mut p, 2_000, 1_000);
    let r = resolve(&mut m, Outcome::Yes, 80, 2_000);
    assert!(r.is_ok());
    assert_eq!(m.status, MarketStatus::Resolved);
}

#[test]
fn resolve_rejects_confidence_over_100() {
    let mut p = test_protocol();
    let mut m = open_market(&mut p, 2_000, 1_000);
    let r = resolve(&mut m, Outcome::Yes, 101, 2_000);
    assert!(matches!(r, Err(SibylError::InvalidConfidence)));
}

#[test]
fn resolve_open_market_becomes_resolved() {
    let mut p = test_protocol();
    let mut m = open_market(&mut p, 2_000, 1_000);
    let r = resolve(&mut m, Outcome::No, 75, 2_000);
    assert!(r.is_ok());
    assert_eq!(m.status, MarketStatus::Resolved);
    assert_eq!(m.outcome, Some(Outcome::No));
    assert_eq!(m.oracle_confidence, 75);
}

#[test]
fn resolve_locked_market_becomes_resolved() {
    let mut p = test_protocol();
    let mut m = open_market(&mut p, 2_000, 1_000);
    m.status = MarketStatus::Locked;
    let r = resolve(&mut m, Outcome::Invalid, 10, 2_500);
    assert!(r.is_ok());
    assert_eq!(m.status, MarketStatus::Resolved);
    assert_eq!(m.outcome, Some(Outcome::Invalid));
}

#[test]
fn resolve_resolved_market_fails() {
    let mut p = test_protocol();
    let mut m = open_market(&mut p, 2_000, 1_000);
    resolve(&mut m, Outcome::Yes, 90, 2_000).unwrap();
    let r = resolve(&mut m, Outcome::No, 90, 2_100);
    assert!(matches!(r, Err(SibylError::MarketNotResolvable)));
    assert_eq!(m.outcome, Some(Outcome::Yes));
}

#[test]
fn resolve_settled_market_fails() {
    let mut p = test_protocol();
    let mut m = open_market(&mut p, 2_000, 1_000);
    m.status = MarketStatus::Settled;
    let r = resolve(&mut m, Outcome::Yes, 90, 2_000);
    assert!(matches!(r, Err(SibylError::MarketNotResolvable)));
}

#[test]
fn outcome_to_u8_mapping() {
    assert_eq!(Outcome::Yes.to_u8(), 0);
    assert_eq!(Outcome::No.to_u8(), 1);
    assert_eq!(Outcome::Invalid.to_u8(), 2);
}
