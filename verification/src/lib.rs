//! A market settlement and escrow ledger: pooled wagers across discrete
//! outcomes, a strict market lifecycle (open, then resolved or cancelled),
//! and proportional payouts net of a platform fee.
//!
//! The library holds the logic only: validation, bet accounting, the state
//! machine, and the payout arithmetic, all on plain ledger records. Durable
//! storage, signer identity and the actual movement of funds are capabilities
//! of the host, which calls into this crate and performs the transfers that
//! the results of these functions request.

pub mod state;
pub mod events;
pub mod sums;
pub mod lifecycle;
pub mod betting;
pub mod settlement;
pub mod laws;
