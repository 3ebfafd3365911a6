use crate::escrow::{
    balance_of, deposit_post, phase_at, transaction_post, withdraw_post, Config, EscrowError,
    Withdrawal, Work,
};
use crate::identity::Identity;
use crate::phase::{resolve, State};
use vstd::prelude::*;

verus! {

/// Initializing twice fails the second time, with no change from it.
pub proof fn lemma_single_initialization(
    w0: Work,
    freelancer: Identity,
    deadline: u64,
    token: Identity,
    rating: u64,
    now: u64,
    w1: Work,
    r1: Result<(), EscrowError>,
    freelancer2: Identity,
    deadline2: u64,
    token2: Identity,
    rating2: u64,
    now2: u64,
    w2: Work,
    r2: Result<(), EscrowError>,
)
    requires
        transaction_post(w0, freelancer, deadline, token, rating, now, w1, r1),
        transaction_post(w1, freelancer2, deadline2, token2, rating2, now2, w2, r2),
    ensures
        r2 == Err::<(), EscrowError>(EscrowError::AlreadyInitialized),
        w2 == w1,
{
}

/// With no claim the phase is in progress before the deadline and success
/// from it on; after the claim it is over from the deadline on, however far
/// the clock moves. The phase never goes back as time passes.
pub proof fn lemma_phase_monotonic(deadline: u64, now: u64, later: u64)
    requires
        now <= later,
    ensures
        now < deadline ==> resolve(now, deadline, false) == State::InProgress,
        now >= deadline ==> resolve(now, deadline, false) == State::Success,
        now >= deadline ==> resolve(later, deadline, true) == State::Over,
        resolve(now, deadline, false).ordinal() <= resolve(later, deadline, false).ordinal(),
        resolve(now, deadline, true).ordinal() <= resolve(later, deadline, true).ordinal(),
{
}

/// After `user` deposits `amount`, outside the success phase their balance
/// is what they stood at before plus `amount`.
pub proof fn lemma_deposit_conservation(
    w0: Work,
    user: Seq<u8>,
    amount: i128,
    now: u64,
    w1: Work,
    r: Result<(), EscrowError>,
    later: u64,
    held: i128,
)
    requires
        deposit_post(w0, user, amount, now, w1, r),
        r is Ok,
        w1.config is Some,
        phase_at(w1.config->0, later) != State::Success,
    ensures
        balance_of(w1, user, later, held) == Ok::<i128, EscrowError>(
            (w0.ledger@[user] + amount) as i128,
        ),
        w0.ledger@[user] + amount <= i128::MAX,
{
}

/// The provider's first withdrawal in the success phase takes the whole
/// holding and records the claim; a second one, at the same time or later,
/// fails with `GigOver` and changes nothing.
pub proof fn lemma_single_claim(
    w0: Work,
    provider: Seq<u8>,
    now: u64,
    held: i128,
    w1: Work,
    r1: Result<Withdrawal, EscrowError>,
    later: u64,
    held2: i128,
    w2: Work,
    r2: Result<Withdrawal, EscrowError>,
)
    requires
        w0.config is Some,
        provider == w0.config->0.provider@,
        phase_at(w0.config->0, now) == State::Success,
        withdraw_post(w0, provider, now, held, w1, r1),
        now <= later,
        withdraw_post(w1, provider, later, held2, w2, r2),
    ensures
        r1 == Ok::<Withdrawal, EscrowError>(Withdrawal::Claim(held)),
        w1.config is Some && w1.config->0.claimed,
        r2 == Err::<Withdrawal, EscrowError>(EscrowError::GigOver),
        w2 == w1,
{
}

/// In the over phase a depositor with a rating in `1..=5` gets back what they
/// stood at divided by the rating, and then stands at zero; nobody else's
/// balance moves.
pub proof fn lemma_refund(
    w0: Work,
    to: Seq<u8>,
    now: u64,
    held: i128,
    w1: Work,
    r: Result<Withdrawal, EscrowError>,
)
    requires
        w0.config is Some,
        phase_at(w0.config->0, now) == State::Over,
        to != w0.config->0.provider@,
        1 <= w0.config->0.rating <= 5,
        withdraw_post(w0, to, now, held, w1, r),
    ensures
        r matches Ok(Withdrawal::Refund(x)) && x == w0.ledger@[to] / (w0.config->0.rating as int),
        w1.ledger@[to] == 0,
        forall|k: Seq<u8>| k != to ==> w1.ledger@[k] == w0.ledger@[k],
        w1.config == w0.config,
{
}

/// `post` keeps every setting of `pre` and has the claim wherever `pre` has it.
pub open spec fn kept(pre: Config, post: Config) -> bool {
    &&& post.provider == pre.provider
    &&& post.started_at == pre.started_at
    &&& post.deadline == pre.deadline
    &&& post.token == pre.token
    &&& post.rating == pre.rating
    &&& pre.claimed ==> post.claimed
}

/// Deposits and withdrawals leave the settings of an initialized escrow as
/// they were, and never take a claim back.
pub proof fn lemma_settings_kept(
    w0: Work,
    user: Seq<u8>,
    amount: i128,
    now: u64,
    w1: Work,
    r1: Result<(), EscrowError>,
    to: Seq<u8>,
    later: u64,
    held: i128,
    w2: Work,
    r2: Result<Withdrawal, EscrowError>,
)
    requires
        w0.config is Some,
        deposit_post(w0, user, amount, now, w1, r1),
        withdraw_post(w1, to, later, held, w2, r2),
    ensures
        w1.config is Some && kept(w0.config->0, w1.config->0),
        w2.config is Some && kept(w1.config->0, w2.config->0),
{
}

/// A deposit of zero or less fails with `InvalidAmount` and changes nothing.
pub proof fn lemma_non_positive_deposit(
    w0: Work,
    user: Seq<u8>,
    amount: i128,
    now: u64,
    w1: Work,
    r: Result<(), EscrowError>,
)
    requires
        amount <= 0,
        deposit_post(w0, user, amount, now, w1, r),
    ensures
        r == Err::<(), EscrowError>(EscrowError::InvalidAmount),
        w1 == w0,
{
}

} // verus!
