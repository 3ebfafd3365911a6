use crate::identity::Identity;
use crate::ledger::Ledger;
use crate::phase::{get_state, resolve, State};
use vstd::prelude::*;

verus! {

/// Why an operation was refused; a refused operation changes nothing.
#[derive(Clone, Copy, Debug, PartialEq, Eq, Structural)]
pub enum EscrowError {
    AlreadyInitialized,
    NotInitialized,
    InvalidAmount,
    EscrowClosed,
    EscrowOpen,
    NotAuthorized,
    AlreadyClaimed,
    GigOver,
    InvalidRating,
    DivisionByZero,
    /// A depositor's total would not fit in an `i128`.
    Overflow,
}

/// What a granted withdrawal asks the token ledger to pay out of the escrow.
#[derive(Clone, Copy, Debug, PartialEq, Eq, Structural)]
pub enum Withdrawal {
    /// The provider takes the whole balance the escrow holds.
    Claim(i128),
    /// A depositor takes back this refund; the escrow's balance is then announced.
    Refund(i128),
}

/// The escrow's settings, fixed at initialization but for `claimed`, which
/// only ever goes from false to true.
#[derive(Debug)]
pub struct Config {
    pub provider: Identity,
    pub started_at: u64,
    pub deadline: u64,
    pub token: Identity,
    pub rating: u64,
    pub claimed: bool,
}

/// The escrow: its settings once initialized, and the deposits.
pub struct Work {
    pub config: Option<Config>,
    pub ledger: Ledger,
}

/// The phase that `c` is in at time `now`.
pub open spec fn phase_at(c: Config, now: u64) -> State {
    resolve(now, c.deadline, c.claimed)
}

/// `c` with the claim recorded.
pub open spec fn claimed(c: Config) -> Config {
    Config {
        provider: c.provider,
        started_at: c.started_at,
        deadline: c.deadline,
        token: c.token,
        rating: c.rating,
        claimed: true,
    }
}

/// `c` with its rating replaced by `rating`.
pub open spec fn rated(c: Config, rating: u64) -> Config {
    Config {
        provider: c.provider,
        started_at: c.started_at,
        deadline: c.deadline,
        token: c.token,
        rating,
        claimed: c.claimed,
    }
}

/// The outcome of initializing `pre` at time `now`.
pub open spec fn transaction_post(
    pre: Work,
    freelancer: Identity,
    deadline: u64,
    token: Identity,
    rating: u64,
    now: u64,
    post: Work,
    r: Result<(), EscrowError>,
) -> bool {
    if pre.config is Some {
        r == Err::<(), EscrowError>(EscrowError::AlreadyInitialized) && post == pre
    } else {
        &&& r is Ok
        &&& post.config == Some(
            Config {
                provider: freelancer,
                started_at: now,
                deadline,
                token,
                rating,
                claimed: false,
            },
        )
        &&& post.ledger == pre.ledger
    }
}

/// What `balance` reports for `user` at time `now`, the escrow holding `held`.
pub open spec fn balance_of(w: Work, user: Seq<u8>, now: u64, held: i128) -> Result<
    i128,
    EscrowError,
> {
    match w.config {
        None => Err(EscrowError::NotInitialized),
        Some(c) => if phase_at(c, now) == State::Success {
            if user == c.provider@ {
                Ok(held)
            } else {
                Ok(0)
            }
        } else {
            Ok(w.ledger@[user] as i128)
        },
    }
}

/// The outcome of `user` depositing `amount` into `pre` at time `now`.
pub open spec fn deposit_post(
    pre: Work,
    user: Seq<u8>,
    amount: i128,
    now: u64,
    post: Work,
    r: Result<(), EscrowError>,
) -> bool {
    match deposit_refusal(pre, user, amount, now) {
        Some(e) => r == Err::<(), EscrowError>(e) && post == pre,
        None => {
            &&& r is Ok
            &&& post.config == pre.config
            &&& post.ledger@ == pre.ledger@.insert(user, pre.ledger@[user] + amount)
        },
    }
}

/// Why a deposit is refused, if it is.
pub open spec fn deposit_refusal(pre: Work, user: Seq<u8>, amount: i128, now: u64) -> Option<
    EscrowError,
> {
    if amount <= 0 {
        Some(EscrowError::InvalidAmount)
    } else if pre.config is None {
        Some(EscrowError::NotInitialized)
    } else if phase_at(pre.config->0, now) != State::InProgress {
        Some(EscrowError::EscrowClosed)
    } else if pre.ledger@[user] + amount > i128::MAX {
        Some(EscrowError::Overflow)
    } else {
        None
    }
}

/// Why a withdrawal to `to` is refused, if it is.
pub open spec fn withdraw_refusal(pre: Work, to: Seq<u8>, now: u64) -> Option<EscrowError> {
    match pre.config {
        None => Some(EscrowError::NotInitialized),
        Some(c) => match phase_at(c, now) {
            State::InProgress => Some(EscrowError::EscrowOpen),
            State::Success => if to != c.provider@ {
                Some(EscrowError::NotAuthorized)
            } else if c.claimed {
                Some(EscrowError::AlreadyClaimed)
            } else {
                None
            },
            State::Over => if to == c.provider@ {
                Some(EscrowError::GigOver)
            } else if c.rating == 0 {
                Some(EscrowError::DivisionByZero)
            } else {
                None
            },
        },
    }
}

/// The outcome of a withdrawal to `to` from `pre` at time `now`, the escrow
/// holding `held`.
pub open spec fn withdraw_post(
    pre: Work,
    to: Seq<u8>,
    now: u64,
    held: i128,
    post: Work,
    r: Result<Withdrawal, EscrowError>,
) -> bool {
    match withdraw_refusal(pre, to, now) {
        Some(e) => r == Err::<Withdrawal, EscrowError>(e) && post == pre,
        None => {
            let c = pre.config->0;
            if phase_at(c, now) == State::Success {
                &&& r == Ok::<Withdrawal, EscrowError>(Withdrawal::Claim(held))
                &&& post.config == Some(claimed(c))
                &&& post.ledger == pre.ledger
            } else {
                &&& r matches Ok(Withdrawal::Refund(x)) && x == pre.ledger@[to] / (c.rating as int)
                &&& post.config == pre.config
                &&& post.ledger@ == pre.ledger@.insert(to, 0)
            }
        },
    }
}

impl Work {
    pub open spec fn wf(&self) -> bool {
        self.ledger.wf()
    }

    /// An escrow not yet initialized, with no deposits.
    pub fn new() -> (r: Work)
        ensures
            r.wf(),
            r.config is None,
            r.ledger@ == Map::new(|who: Seq<u8>| true, |who: Seq<u8>| 0int),
    {
        Work { config: None, ledger: Ledger::new() }
    }

    /// Sets the escrow up, once: `freelancer` is the provider, the clock
    /// reads `now`.
    pub fn transaction(
        &mut self,
        freelancer: Identity,
        deadline: u64,
        token: Identity,
        rating: u64,
        now: u64,
    ) -> (r: Result<(), EscrowError>)
        requires
            old(self).wf(),
        ensures
            final(self).wf(),
            transaction_post(*old(self), freelancer, deadline, token, rating, now, *final(self), r),
    {
        if self.config.is_some() {
            return Err(EscrowError::AlreadyInitialized);
        }
        self.config = Some(
            Config { provider: freelancer, started_at: now, deadline, token, rating, claimed: false },
        );
        Ok(())
    }

    /// The provider.
    pub fn freelancer(&self) -> (r: Result<Identity, EscrowError>)
        ensures
            self.config is None ==> r == Err::<Identity, EscrowError>(EscrowError::NotInitialized),
            self.config is Some ==> (r matches Ok(p) && p@ == self.config->0.provider@),
    {
        match &self.config {
            None => Err(EscrowError::NotInitialized),
            Some(c) => Ok(c.provider.duplicate()),
        }
    }

    /// The deadline.
    pub fn deadline(&self) -> (r: Result<u64, EscrowError>)
        ensures
            self.config is None ==> r == Err::<u64, EscrowError>(EscrowError::NotInitialized),
            self.config is Some ==> r == Ok::<u64, EscrowError>(self.config->0.deadline),
    {
        match &self.config {
            None => Err(EscrowError::NotInitialized),
            Some(c) => Ok(c.deadline),
        }
    }

    /// The phase at time `now`, as its ordinal.
    pub fn state(&self, now: u64) -> (r: Result<u32, EscrowError>)
        ensures
            self.config is None ==> r == Err::<u32, EscrowError>(EscrowError::NotInitialized),
            self.config is Some ==> r == Ok::<u32, EscrowError>(
                phase_at(self.config->0, now).ordinal(),
            ),
    {
        match &self.config {
            None => Err(EscrowError::NotInitialized),
            Some(c) => Ok(get_state(now, c.deadline, c.claimed).code()),
        }
    }

    /// The token the escrow holds.
    pub fn token(&self) -> (r: Result<Identity, EscrowError>)
        ensures
            self.config is None ==> r == Err::<Identity, EscrowError>(EscrowError::NotInitialized),
            self.config is Some ==> (r matches Ok(t) && t@ == self.config->0.token@),
    {
        match &self.config {
            None => Err(EscrowError::NotInitialized),
            Some(c) => Ok(c.token.duplicate()),
        }
    }

    /// What `user` can see as theirs at time `now`, the escrow holding `held`:
    /// once the deadline has passed and before the claim, the provider sees
    /// the whole holding and everyone else nothing; otherwise each sees their
    /// deposits.
    pub fn balance(&self, user: Identity, now: u64, held: i128) -> (r: Result<i128, EscrowError>)
        requires
            self.wf(),
        ensures
            r == balance_of(*self, user@, now, held),
    {
        match &self.config {
            None => Err(EscrowError::NotInitialized),
            Some(c) => {
                match get_state(now, c.deadline, c.claimed) {
                    State::Success => {
                        if user.same(&c.provider) {
                            Ok(held)
                        } else {
                            Ok(0)
                        }
                    },
                    _ => Ok(self.ledger.get(&user)),
                }
            },
        }
    }

    /// `user` pays `amount` into the escrow while it is in progress; the
    /// amount is added to what they stand at. On `Ok` the caller moves
    /// `amount` of the token from `user` to the escrow.
    pub fn deposit(&mut self, user: Identity, amount: i128, now: u64) -> (r: Result<
        (),
        EscrowError,
    >)
        requires
            old(self).wf(),
        ensures
            final(self).wf(),
            deposit_post(*old(self), user@, amount, now, *final(self), r),
    {
        if amount <= 0 {
            return Err(EscrowError::InvalidAmount);
        }
        let (deadline, claimed) = match &self.config {
            None => {
                return Err(EscrowError::NotInitialized);
            },
            Some(c) => (c.deadline, c.claimed),
        };
        match get_state(now, deadline, claimed) {
            State::InProgress => {},
            _ => {
                return Err(EscrowError::EscrowClosed);
            },
        }
        let before = self.ledger.get(&user);
        if before > i128::MAX - amount {
            return Err(EscrowError::Overflow);
        }
        self.ledger.set(user, before + amount);
        Ok(())
    }

    /// Records the provider's claim.
    fn set_claimed(&mut self)
        requires
            old(self).config is Some,
        ensures
            final(self).config == Some(claimed(old(self).config->0)),
            final(self).ledger == old(self).ledger,
    {
        match &mut self.config {
            Some(c) => {
                c.claimed = true;
            },
            None => {},
        }
    }

    /// A withdrawal to `to` at time `now`, the escrow holding `held`. Once the
    /// deadline has passed, the provider claims the whole holding, once;
    /// after that claim each depositor takes back what they stand at divided
    /// by the rating, and stands at zero.
    pub fn withdraw(&mut self, to: Identity, now: u64, held: i128) -> (r: Result<
        Withdrawal,
        EscrowError,
    >)
        requires
            old(self).wf(),
        ensures
            final(self).wf(),
            withdraw_post(*old(self), to@, now, held, *final(self), r),
    {
        let (deadline, claimed, rating, is_provider) = match &self.config {
            None => {
                return Err(EscrowError::NotInitialized);
            },
            Some(c) => (c.deadline, c.claimed, c.rating, c.provider.same(&to)),
        };
        match get_state(now, deadline, claimed) {
            State::InProgress => Err(EscrowError::EscrowOpen),
            State::Success => {
                if !is_provider {
                    return Err(EscrowError::NotAuthorized);
                }
                if claimed {
                    return Err(EscrowError::AlreadyClaimed);
                }
                self.set_claimed();
                Ok(Withdrawal::Claim(held))
            },
            State::Over => {
                if is_provider {
                    return Err(EscrowError::GigOver);
                }
                if rating == 0 {
                    return Err(EscrowError::DivisionByZero);
                }
                let deposited = self.ledger.get(&to);
                let refund = (deposited as u128) / (rating as u128);
                assert(refund <= deposited) by (nonlinear_arith)
                    requires
                        refund == (deposited as u128) / (rating as u128),
                        deposited >= 0,
                        rating >= 1,
                ;
                self.ledger.set(to, 0);
                Ok(Withdrawal::Refund(refund as i128))
            },
        }
    }

    /// Sets the rating, which must lie in `0..=5`.
    pub fn set_rating(&mut self, rating: u64) -> (r: Result<u64, EscrowError>)
        requires
            old(self).wf(),
        ensures
            final(self).wf(),
            old(self).config is None ==> r == Err::<u64, EscrowError>(EscrowError::NotInitialized)
                && *final(self) == *old(self),
            old(self).config is Some && rating > 5 ==> r == Err::<u64, EscrowError>(
                EscrowError::InvalidRating,
            ) && *final(self) == *old(self),
            old(self).config is Some && rating <= 5 ==> r == Ok::<u64, EscrowError>(rating)
                && final(self).config == Some(rated(old(self).config->0, rating))
                && final(self).ledger == old(self).ledger,
    {
        match &mut self.config {
            None => Err(EscrowError::NotInitialized),
            Some(c) => {
                if rating > 5 {
                    return Err(EscrowError::InvalidRating);
                }
                c.rating = rating;
                Ok(rating)
            },
        }
    }
}

} // verus!
