//! An escrow between a pool of depositors and one service provider, gated by
//! a deadline: the phase resolver, the per-depositor ledger and the
//! deposit / withdrawal transitions, each with a proved contract.
pub mod escrow;
pub mod identity;
pub mod laws;
pub mod ledger;
pub mod phase;

pub use escrow::{Config, EscrowError, Withdrawal, Work};
pub use identity::Identity;
pub use ledger::Ledger;
pub use phase::{get_state, DataPoint, FreeLancer, State};
