//! Ledger records: the platform configuration, markets, and per-user
//! positions, together with their mathematical views and well-formedness
//! predicates.

use vstd::prelude::*;

use crate::sums::pool_sum;

verus! {

/// Identities (authority, oracle, bettors, fee recipient) are plain numerals
/// chosen by the host. `NO_USER` marks a position record not yet bound to a
/// user; real identities are nonzero.
pub const NO_USER: u64 = 0;

/// A market offers at least this many outcomes.
pub const MIN_OUTCOMES: usize = 2;

/// A market offers at most this many outcomes.
pub const MAX_OUTCOMES: usize = 8;

/// Longest admissible market question, in characters.
pub const MAX_QUESTION_CHARS: usize = 200;

/// Longest admissible outcome label, in characters.
pub const MAX_LABEL_CHARS: usize = 50;

/// A betting window lasts at least one hour.
pub const MIN_DURATION_SECS: i64 = 3600;

/// A betting window lasts at most ninety days.
pub const MAX_DURATION_SECS: i64 = 7776000;

/// The platform fee may not exceed five percent.
pub const MAX_FEE_BPS: u16 = 500;

/// Fees are expressed in basis points: an integer numerator over 10000.
pub const BPS_DENOMINATOR: u64 = 10000;

/// Lifecycle of a market: `Active` accepts bets, `Resolved` and `Cancelled`
/// are terminal.
#[derive(Clone, Copy, PartialEq, Eq, Structural, Debug)]
pub enum MarketStatus {
    Active,
    Resolved,
    Cancelled,
}

/// Every way an operation can be refused. Each operation's contract states
/// exactly which inputs produce which variant.
#[derive(Clone, Copy, PartialEq, Eq, Structural, Debug)]
pub enum ErrorCode {
    /// The platform fee exceeds `MAX_FEE_BPS`.
    FeeTooHigh,
    /// Fewer than `MIN_OUTCOMES` outcomes were offered.
    InsufficientOutcomes,
    /// More than `MAX_OUTCOMES` outcomes were offered.
    TooManyOutcomes,
    /// An outcome label is blank or longer than `MAX_LABEL_CHARS`.
    InvalidOutcomeLabel,
    /// The question is longer than `MAX_QUESTION_CHARS`.
    QuestionTooLong,
    /// The question is blank.
    EmptyQuestion,
    /// The end time is not in the future, or the betting window falls
    /// outside `[MIN_DURATION_SECS, MAX_DURATION_SECS]`.
    InvalidEndTime,
    /// The minimum bet is zero.
    InvalidMinBet,
    /// A market with this id already exists in the store.
    DuplicateMarket,
    /// The market is not in the `Active` state.
    MarketNotActive,
    /// The betting window has closed.
    MarketExpired,
    /// The outcome index does not name an outcome of the market.
    InvalidOutcome,
    /// The amount is below the market's minimum bet.
    BetTooSmall,
    /// The caller is neither the market's oracle nor the platform authority.
    UnauthorizedResolver,
    /// The betting window has not closed yet.
    MarketNotExpired,
    /// The market is not in the `Resolved` state.
    MarketNotResolved,
    /// The position's winnings were already claimed.
    AlreadyClaimed,
    /// The caller does not own the position.
    UnauthorizedClaim,
    /// The position holds no stake on the winning outcome.
    NoWinningBet,
    /// The caller is not the platform authority.
    UnauthorizedFeeCollection,
    /// The caller is not the platform authority.
    UnauthorizedMarketClose,
    /// A pool or counter update would overflow.
    ArithmeticOverflow,
}

impl ErrorCode {
    /// A short description of the error, for the host's reporting.
    pub fn message(&self) -> &'static str {
        match self {
            ErrorCode::FeeTooHigh => "Platform fee too high",
            ErrorCode::InsufficientOutcomes => "Insufficient outcomes for market",
            ErrorCode::TooManyOutcomes => "Too many outcomes for market",
            ErrorCode::InvalidOutcomeLabel => "Invalid outcome label",
            ErrorCode::QuestionTooLong => "Question too long",
            ErrorCode::EmptyQuestion => "Question is empty",
            ErrorCode::InvalidEndTime => "Invalid end time",
            ErrorCode::InvalidMinBet => "Invalid minimum bet",
            ErrorCode::DuplicateMarket => "Market already exists",
            ErrorCode::MarketNotActive => "Market is not active",
            ErrorCode::MarketExpired => "Market has expired",
            ErrorCode::InvalidOutcome => "Invalid outcome index",
            ErrorCode::BetTooSmall => "Bet amount too small",
            ErrorCode::UnauthorizedResolver => "Unauthorized resolver",
            ErrorCode::MarketNotExpired => "Market has not expired yet",
            ErrorCode::MarketNotResolved => "Market is not resolved",
            ErrorCode::AlreadyClaimed => "Winnings already claimed",
            ErrorCode::UnauthorizedClaim => "Unauthorized claim",
            ErrorCode::NoWinningBet => "No winning bet",
            ErrorCode::UnauthorizedFeeCollection => "Unauthorized fee collection",
            ErrorCode::UnauthorizedMarketClose => "Unauthorized market close",
            ErrorCode::ArithmeticOverflow => "Arithmetic overflow",
        }
    }
}

/// The one platform-wide record: who administers the platform, the fee it
/// takes, where the fee goes, and how many markets were ever created.
#[derive(Clone, Copy, PartialEq, Eq, Structural, Debug)]
pub struct GlobalState {
    pub authority: u64,
    pub platform_fee_bps: u16,
    pub fee_recipient: u64,
    pub total_markets: u64,
}

/// One market: a question, its outcomes, a betting window, and the pooled
/// stakes. `outcome_pools` runs parallel to `outcomes`; the outcome index is
/// canonical.
#[derive(Clone, Debug)]
pub struct Market {
    pub id: u64,
    pub creator: u64,
    pub question: String,
    pub outcomes: Vec<String>,
    pub end_time: i64,
    pub oracle: u64,
    pub min_bet: u64,
    pub status: MarketStatus,
    pub total_pool: u64,
    pub outcome_pools: Vec<u64>,
    pub winning_outcome: Option<u8>,
    pub created_at: i64,
}

/// Mathematical view of a `Market`.
#[verifier::ext_equal]
pub ghost struct MarketView {
    pub id: u64,
    pub creator: u64,
    pub question: Seq<char>,
    pub outcomes: Seq<Seq<char>>,
    pub end_time: i64,
    pub oracle: u64,
    pub min_bet: u64,
    pub status: MarketStatus,
    pub total_pool: u64,
    pub outcome_pools: Seq<u64>,
    pub winning_outcome: Option<u8>,
    pub created_at: i64,
}

impl View for Market {
    type V = MarketView;

    open spec fn view(&self) -> MarketView {
        MarketView {
            id: self.id,
            creator: self.creator,
            question: self.question@,
            outcomes: self.outcomes.deep_view(),
            end_time: self.end_time,
            oracle: self.oracle,
            min_bet: self.min_bet,
            status: self.status,
            total_pool: self.total_pool,
            outcome_pools: self.outcome_pools@,
            winning_outcome: self.winning_outcome,
            created_at: self.created_at,
        }
    }
}

/// One user's cumulative stakes in one market. `bets` runs parallel to the
/// market's outcomes; `claimed` latches once winnings are paid out.
#[derive(Clone, Debug)]
pub struct UserBet {
    pub user: u64,
    pub market: u64,
    pub bets: Vec<u64>,
    pub total_bet: u64,
    pub claimed: bool,
}

/// Mathematical view of a `UserBet`.
#[verifier::ext_equal]
pub ghost struct UserBetView {
    pub user: u64,
    pub market: u64,
    pub bets: Seq<u64>,
    pub total_bet: u64,
    pub claimed: bool,
}

impl View for UserBet {
    type V = UserBetView;

    open spec fn view(&self) -> UserBetView {
        UserBetView {
            user: self.user,
            market: self.market,
            bets: self.bets@,
            total_bet: self.total_bet,
            claimed: self.claimed,
        }
    }
}

impl UserBet {
    /// A blank position record, as the store hands out before a user's first
    /// bet in a market binds it.
    pub fn blank() -> (r: UserBet)
        ensures
            position_fresh(r@),
            r@.bets.len() == 0,
            r@.market == 0,
    {
        UserBet { user: NO_USER, market: 0, bets: Vec::new(), total_bet: 0, claimed: false }
    }
}

/// The platform configuration is well formed when its fee is within bounds.
/// `initialize` establishes this and nothing ever changes the fee.
pub open spec fn config_wf(g: GlobalState) -> bool {
    g.platform_fee_bps <= MAX_FEE_BPS
}

/// Well-formedness of a market record. `create_market` establishes it and
/// every operation preserves it: the pools run parallel to the outcomes, the
/// total pool is exactly the sum of the outcome pools, and a winning outcome
/// exists exactly in the `Resolved` state and names a real outcome.
pub open spec fn market_wf(m: MarketView) -> bool {
    &&& m.outcome_pools.len() == m.outcomes.len()
    &&& MIN_OUTCOMES <= m.outcomes.len() <= MAX_OUTCOMES
    &&& pool_sum(m.outcome_pools) == m.total_pool as int
    &&& forall|i: int| 0 <= i < m.outcome_pools.len() ==> m.outcome_pools[i] <= m.total_pool
    &&& m.min_bet > 0
    &&& m.created_at < m.end_time
    &&& (m.status is Resolved ==> match m.winning_outcome {
        Some(w) => (w as int) < m.outcomes.len(),
        None => false,
    })
    &&& (!(m.status is Resolved) ==> m.winning_outcome is None)
}

/// Well-formedness of a position record: its running total is exactly the sum
/// of its per-outcome stakes.
pub open spec fn position_wf(p: UserBetView) -> bool {
    pool_sum(p.bets) == p.total_bet as int
}

/// A blank position record, not yet bound to any user.
pub open spec fn position_fresh(p: UserBetView) -> bool {
    &&& p.user == NO_USER
    &&& p.total_bet == 0
    &&& !p.claimed
}

/// Coherence of a position with the market it is keyed under: its stakes run
/// parallel to the outcomes and are contained in the market's pools. The
/// store's keying guarantees this pairing; `place_bet` preserves it.
pub open spec fn position_matches_market(p: UserBetView, m: MarketView) -> bool {
    &&& p.market == m.id
    &&& p.bets.len() == m.outcomes.len()
    &&& forall|i: int| 0 <= i < p.bets.len() ==> p.bets[i] <= m.outcome_pools[i]
    &&& p.total_bet <= m.total_pool
}

} // verus!
