//! A fund-pooling launch ledger. Contributors pool value toward a target; a
//! three-member authority proposes a winner with a commitment to the
//! deliberation outcome; contributors confirm by a value-weighted vote; an
//! approved pool pays the winner, mints a fixed reward supply and lets each
//! contributor claim a proportional share, while a cancelled pool refunds.
//!
//! `lifecycle` holds each operation on the stored records, `ledger` a whole
//! pool with its balances and invariants, `laws` the properties proved of
//! them, and `audit` the log of the deliberation that supplies the commitment.

pub mod address;
pub mod audit;
pub mod distribution;
pub mod error;
pub mod events;
pub mod laws;
pub mod ledger;
pub mod lifecycle;
pub mod multisig;
pub mod records;
