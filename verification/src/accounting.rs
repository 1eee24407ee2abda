//! What the balances add up to, after any number of operations.
//!
//! The known balance of a staking pool is what the votes on its proposal
//! still have at stake, together with the rewards that finalizing has
//! deposited. The known balance of a treasury is what was there at first
//! and what the engine has added since. And what an operation books on the
//! sub-accounts is what the ledger holds once it has performed the
//! operation's instructions.

pub mod ledger;
pub mod pool;
pub mod treasury;
