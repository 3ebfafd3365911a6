use freelance::{get_state, EscrowError, FreeLancer, Identity, Ledger, State, Withdrawal, Work};

const DEADLINE: u64 = 1_000;

fn id(n: u8) -> Identity {
    Identity::new(vec![b'G', n, n, n])
}

fn provider() -> Identity {
    id(1)
}

fn token() -> Identity {
    id(9)
}

fn started(rating: u64) -> Work {
    let mut w = Work::new();
    assert_eq!(w.transaction(provider(), DEADLINE, token(), rating, 10), Ok(()));
    w
}

#[test]
fn example_scenario() {
    let mut w = started(2);
    assert_eq!(w.deposit(id(2), 100, DEADLINE - 1), Ok(()));
    assert_eq!(w.balance(id(2), DEADLINE - 1, 100), Ok(100));
    assert_eq!(w.withdraw(provider(), DEADLINE, 100), Ok(Withdrawal::Claim(100)));
    assert_eq!(w.config.as_ref().map(|c| c.claimed), Some(true));
    assert_eq!(w.state(DEADLINE), Ok(2));
    assert_eq!(w.withdraw(id(2), DEADLINE + 1, 100), Ok(Withdrawal::Refund(50)));
    assert_eq!(w.balance(id(2), DEADLINE + 1, 50), Ok(0));
    assert_eq!(w.ledger.get(&id(2)), 0);
}

#[test]
fn initialize_twice_fails_and_keeps_first() {
    let mut w = started(3);
    assert_eq!(w.transaction(id(5), 7, id(6), 1, 20), Err(EscrowError::AlreadyInitialized));
    let c = w.config.as_ref().unwrap();
    assert_eq!(c.provider, provider());
    assert_eq!(c.deadline, DEADLINE);
    assert_eq!(c.token, token());
    assert_eq!(c.rating, 3);
    assert_eq!(c.started_at, 10);
    assert!(!c.claimed);
}

#[test]
fn getters_after_initialization() {
    let w = started(4);
    assert_eq!(w.freelancer(), Ok(provider()));
    assert_eq!(w.deadline(), Ok(DEADLINE));
    assert_eq!(w.token(), Ok(token()));
    assert_eq!(w.state(0), Ok(0));
}

#[test]
fn everything_refused_before_initialization() {
    let mut w = Work::new();
    assert_eq!(w.freelancer(), Err(EscrowError::NotInitialized));
    assert_eq!(w.deadline(), Err(EscrowError::NotInitialized));
    assert_eq!(w.state(5), Err(EscrowError::NotInitialized));
    assert_eq!(w.token(), Err(EscrowError::NotInitialized));
    assert_eq!(w.balance(id(2), 5, 0), Err(EscrowError::NotInitialized));
    assert_eq!(w.deposit(id(2), 5, 5), Err(EscrowError::NotInitialized));
    assert_eq!(w.withdraw(id(2), 5, 0), Err(EscrowError::NotInitialized));
    assert_eq!(w.set_rating(3), Err(EscrowError::NotInitialized));
    assert!(w.config.is_none());
}

#[test]
fn phase_follows_clock_and_claim() {
    for now in [0u64, 1, DEADLINE - 1] {
        assert_eq!(get_state(now, DEADLINE, false), State::InProgress);
        assert_eq!(get_state(now, DEADLINE, true), State::InProgress);
    }
    for now in [DEADLINE, DEADLINE + 1, u64::MAX] {
        assert_eq!(get_state(now, DEADLINE, false), State::Success);
        assert_eq!(get_state(now, DEADLINE, true), State::Over);
    }
    assert_eq!(State::InProgress.code(), 0);
    assert_eq!(State::Success.code(), 1);
    assert_eq!(State::Over.code(), 2);
}

#[test]
fn state_ordinals_through_the_escrow() {
    let mut w = started(1);
    assert_eq!(w.state(DEADLINE - 1), Ok(0));
    assert_eq!(w.state(DEADLINE), Ok(1));
    assert_eq!(w.state(DEADLINE + 500), Ok(1));
    assert!(w.withdraw(provider(), DEADLINE, 0).is_ok());
    assert_eq!(w.state(DEADLINE), Ok(2));
    assert_eq!(w.state(u64::MAX), Ok(2));
}

#[test]
fn deposits_add_up() {
    let mut w = started(2);
    assert_eq!(w.deposit(id(2), 40, 1), Ok(()));
    assert_eq!(w.deposit(id(2), 60, 2), Ok(()));
    assert_eq!(w.deposit(id(3), 7, 3), Ok(()));
    assert_eq!(w.balance(id(2), 4, 107), Ok(100));
    assert_eq!(w.balance(id(3), 4, 107), Ok(7));
    assert_eq!(w.balance(id(4), 4, 107), Ok(0));
}

#[test]
fn success_phase_balance_is_the_holding_for_the_provider_only() {
    let mut w = started(2);
    assert_eq!(w.deposit(id(2), 30, 1), Ok(()));
    assert_eq!(w.balance(provider(), DEADLINE, 30), Ok(30));
    assert_eq!(w.balance(id(2), DEADLINE, 30), Ok(0));
    assert_eq!(w.balance(provider(), 1, 30), Ok(0));
}

#[test]
fn non_positive_deposits_rejected() {
    let mut w = started(2);
    assert_eq!(w.deposit(id(2), 5, 1), Ok(()));
    assert_eq!(w.deposit(id(2), 0, 1), Err(EscrowError::InvalidAmount));
    assert_eq!(w.deposit(id(2), -5, 1), Err(EscrowError::InvalidAmount));
    assert_eq!(w.ledger.get(&id(2)), 5);
    let mut fresh = Work::new();
    assert_eq!(fresh.deposit(id(2), 0, 1), Err(EscrowError::InvalidAmount));
}

#[test]
fn deposit_after_deadline_is_closed() {
    let mut w = started(2);
    assert_eq!(w.deposit(id(2), 5, DEADLINE), Err(EscrowError::EscrowClosed));
    assert_eq!(w.ledger.get(&id(2)), 0);
}

#[test]
fn deposit_overflow_refused() {
    let mut w = started(2);
    assert_eq!(w.deposit(id(2), i128::MAX, 1), Ok(()));
    assert_eq!(w.deposit(id(2), 1, 1), Err(EscrowError::Overflow));
    assert_eq!(w.ledger.get(&id(2)), i128::MAX);
}

#[test]
fn withdraw_before_deadline_is_open() {
    let mut w = started(2);
    assert_eq!(w.withdraw(provider(), DEADLINE - 1, 10), Err(EscrowError::EscrowOpen));
    assert_eq!(w.withdraw(id(2), 0, 10), Err(EscrowError::EscrowOpen));
}

#[test]
fn only_provider_claims() {
    let mut w = started(2);
    assert_eq!(w.withdraw(id(2), DEADLINE, 10), Err(EscrowError::NotAuthorized));
    assert_eq!(w.config.as_ref().map(|c| c.claimed), Some(false));
}

#[test]
fn single_claim() {
    let mut w = started(2);
    assert_eq!(w.deposit(id(2), 80, 1), Ok(()));
    assert_eq!(w.withdraw(provider(), DEADLINE, 80), Ok(Withdrawal::Claim(80)));
    assert_eq!(w.withdraw(provider(), DEADLINE + 3, 0), Err(EscrowError::GigOver));
    assert_eq!(w.config.as_ref().map(|c| c.claimed), Some(true));
}

#[test]
fn refund_divides_by_rating() {
    for (rating, expected) in [(1u64, 99i128), (2, 49), (3, 33), (4, 24), (5, 19)] {
        let mut w = started(rating);
        assert_eq!(w.deposit(id(2), 99, 1), Ok(()));
        assert_eq!(w.deposit(id(3), 10, 1), Ok(()));
        assert!(w.withdraw(provider(), DEADLINE, 109).is_ok());
        assert_eq!(w.withdraw(id(2), DEADLINE, 0), Ok(Withdrawal::Refund(expected)));
        assert_eq!(w.balance(id(2), DEADLINE, 0), Ok(0));
        assert_eq!(w.balance(id(3), DEADLINE, 0), Ok(10));
        assert_eq!(w.withdraw(id(2), DEADLINE, 0), Ok(Withdrawal::Refund(0)));
    }
}

#[test]
fn refund_with_zero_rating_refused() {
    let mut w = started(0);
    assert_eq!(w.deposit(id(2), 10, 1), Ok(()));
    assert!(w.withdraw(provider(), DEADLINE, 10).is_ok());
    assert_eq!(w.withdraw(id(2), DEADLINE, 0), Err(EscrowError::DivisionByZero));
    assert_eq!(w.ledger.get(&id(2)), 10);
}

#[test]
fn rating_setter_checks_range() {
    let mut w = started(0);
    assert_eq!(w.set_rating(6), Err(EscrowError::InvalidRating));
    assert_eq!(w.config.as_ref().map(|c| c.rating), Some(0));
    assert_eq!(w.set_rating(5), Ok(5));
    assert_eq!(w.config.as_ref().map(|c| c.rating), Some(5));
    assert_eq!(w.set_rating(0), Ok(0));
}

#[test]
fn freelancer_key_codes() {
    assert_eq!(FreeLancer::Wallet.code(), 0);
    assert_eq!(FreeLancer::Rating.code(), 1);
    assert_eq!(FreeLancer::Skills.code(), 2);
    assert_eq!(FreeLancer::from_code(0), Some(FreeLancer::Wallet));
    assert_eq!(FreeLancer::from_code(1), Some(FreeLancer::Rating));
    assert_eq!(FreeLancer::from_code(2), Some(FreeLancer::Skills));
    assert_eq!(FreeLancer::from_code(3), None);
}

#[test]
fn identity_comparison_and_copy() {
    assert!(id(1).same(&id(1)));
    assert!(!id(1).same(&id(2)));
    assert!(!Identity::new(vec![1, 2]).same(&Identity::new(vec![1, 2, 3])));
    assert!(Identity::new(vec![]).same(&Identity::new(vec![])));
    let copy = id(7).duplicate();
    assert_eq!(copy, id(7));
}

#[test]
fn ledger_overwrites() {
    let mut l = Ledger::new();
    assert_eq!(l.get(&id(2)), 0);
    l.set(id(2), 15);
    l.set(id(3), 4);
    assert_eq!(l.get(&id(2)), 15);
    l.set(id(2), 1);
    assert_eq!(l.get(&id(2)), 1);
    assert_eq!(l.get(&id(3)), 4);
}
