use crate::identity::Identity;
use vstd::prelude::*;

verus! {

/// The phase of the escrow, derived from the clock, the deadline and the
/// claimed flag; never stored.
#[derive(Clone, Copy, Debug, PartialEq, Eq, Structural)]
pub enum State {
    InProgress,
    Success,
    Over,
}

impl State {
    /// The ordinal under which the phase is reported.
    pub open spec fn ordinal(self) -> u32 {
        match self {
            State::InProgress => 0,
            State::Success => 1,
            State::Over => 2,
        }
    }

    pub fn code(&self) -> (r: u32)
        ensures
            r == self.ordinal(),
    {
        match self {
            State::InProgress => 0,
            State::Success => 1,
            State::Over => 2,
        }
    }
}

/// The phase at time `now` for the given deadline and claimed flag.
pub open spec fn resolve(now: u64, deadline: u64, claimed: bool) -> State {
    if now < deadline {
        State::InProgress
    } else if !claimed {
        State::Success
    } else {
        State::Over
    }
}

/// The single authority on the phase.
pub fn get_state(now: u64, deadline: u64, claimed: bool) -> (r: State)
    ensures
        r == resolve(now, deadline, claimed),
{
    if now < deadline {
        State::InProgress
    } else if !claimed {
        State::Success
    } else {
        State::Over
    }
}

/// The keys under which the provider's own record is kept.
#[derive(Clone, Copy, Debug, PartialEq, Eq, Structural)]
pub enum FreeLancer {
    Wallet,
    Rating,
    Skills,
}

impl FreeLancer {
    /// The number under which the key is stored.
    pub open spec fn ordinal(self) -> u32 {
        match self {
            FreeLancer::Wallet => 0,
            FreeLancer::Rating => 1,
            FreeLancer::Skills => 2,
        }
    }

    pub fn code(&self) -> (r: u32)
        ensures
            r == self.ordinal(),
    {
        match self {
            FreeLancer::Wallet => 0,
            FreeLancer::Rating => 1,
            FreeLancer::Skills => 2,
        }
    }

    /// The key stored under `n`, if any.
    pub fn from_code(n: u32) -> (r: Option<FreeLancer>)
        ensures
            n <= 2 ==> r is Some && r->0.ordinal() == n,
            n > 2 ==> r is None,
    {
        match n {
            0 => Some(FreeLancer::Wallet),
            1 => Some(FreeLancer::Rating),
            2 => Some(FreeLancer::Skills),
            _ => None,
        }
    }
}

/// The keys of the escrow's own records.
#[derive(Debug, PartialEq, Eq)]
pub enum DataPoint {
    Deadline,
    Started,
    Token,
    User(Identity),
    IsClaimed,
}

} // verus!
