//! Notifications emitted by successful operations, carrying each operation's
//! key outputs for external auditability. The host forwards them to whatever
//! indexing or logging it provides.

use vstd::prelude::*;

verus! {

/// The platform configuration was created.
#[derive(Clone, Copy, PartialEq, Eq, Structural, Debug)]
pub struct PlatformInitialized {
    pub authority: u64,
    pub platform_fee_bps: u16,
    pub fee_recipient: u64,
}

/// A market was created; carries the full market definition.
#[derive(Clone, Debug)]
pub struct MarketCreated {
    pub market_id: u64,
    pub creator: u64,
    pub question: String,
    pub outcomes: Vec<String>,
    pub end_time: i64,
    pub oracle: u64,
    pub min_bet: u64,
}

/// A bet was accepted; `total_pool` is the market's running total after it.
#[derive(Clone, Copy, PartialEq, Eq, Structural, Debug)]
pub struct BetPlaced {
    pub user: u64,
    pub market_id: u64,
    pub outcome_index: u8,
    pub amount: u64,
    pub total_pool: u64,
}

/// A market was resolved to a winning outcome.
#[derive(Clone, Copy, PartialEq, Eq, Structural, Debug)]
pub struct MarketResolved {
    pub market_id: u64,
    pub winning_outcome: u8,
    pub resolver: u64,
    pub total_pool: u64,
}

/// A user's winnings were paid out; `amount` is the transfer the host owes.
#[derive(Clone, Copy, PartialEq, Eq, Structural, Debug)]
pub struct WinningsClaimed {
    pub user: u64,
    pub market_id: u64,
    pub amount: u64,
}

/// The platform fee was collected; `amount` is the transfer the host owes.
#[derive(Clone, Copy, PartialEq, Eq, Structural, Debug)]
pub struct FeesCollected {
    pub market_id: u64,
    pub amount: u64,
    pub recipient: u64,
}

/// A market was cancelled by the platform authority.
#[derive(Clone, Copy, PartialEq, Eq, Structural, Debug)]
pub struct MarketClosed {
    pub market_id: u64,
    pub authority: u64,
}

} // verus!
