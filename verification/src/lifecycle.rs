//! Market lifecycle: platform initialization, market creation with full
//! parameter validation, and the emergency close of an active market.

use vstd::prelude::*;
use vstd::string::StrSliceExecFns;

use crate::events::{MarketClosed, MarketCreated, PlatformInitialized};
use crate::state::{
    config_wf, market_wf, ErrorCode, GlobalState, Market, MarketStatus, MarketView,
    MAX_DURATION_SECS, MAX_FEE_BPS, MAX_LABEL_CHARS, MAX_OUTCOMES, MAX_QUESTION_CHARS,
    MIN_DURATION_SECS, MIN_OUTCOMES,
};
use crate::sums::lemma_pool_sum_zeros;

verus! {

/// A character that trimming would remove.
pub open spec fn blank_char(c: char) -> bool {
    c == ' ' || c == '\t' || c == '\n' || c == '\r'
}

/// The text is non-empty after trimming: some character is not blank.
pub open spec fn has_content(s: Seq<char>) -> bool {
    exists|i: int| 0 <= i < s.len() && !blank_char(s[i])
}

/// An admissible outcome label: within the length bound and not blank.
pub open spec fn label_ok(s: Seq<char>) -> bool {
    s.len() <= MAX_LABEL_CHARS && has_content(s)
}

/// The validation that `create_market` performs, in order, and the error each
/// failing check reports. `None` means every check passes.
pub open spec fn create_err(
    question: Seq<char>,
    outcomes: Seq<Seq<char>>,
    end_time: i64,
    min_bet: u64,
    now: i64,
) -> Option<ErrorCode> {
    if outcomes.len() < MIN_OUTCOMES {
        Some(ErrorCode::InsufficientOutcomes)
    } else if outcomes.len() > MAX_OUTCOMES {
        Some(ErrorCode::TooManyOutcomes)
    } else if exists|i: int| 0 <= i < outcomes.len() && !label_ok(outcomes[i]) {
        Some(ErrorCode::InvalidOutcomeLabel)
    } else if question.len() > MAX_QUESTION_CHARS {
        Some(ErrorCode::QuestionTooLong)
    } else if !has_content(question) {
        Some(ErrorCode::EmptyQuestion)
    } else if !(now < end_time && MIN_DURATION_SECS <= end_time - now <= MAX_DURATION_SECS) {
        Some(ErrorCode::InvalidEndTime)
    } else if min_bet == 0 {
        Some(ErrorCode::InvalidMinBet)
    } else {
        None
    }
}

/// The market record that a successful creation produces: every pool zero,
/// status `Active`, no winning outcome, created now.
pub open spec fn market_init(
    market_id: u64,
    creator: u64,
    question: Seq<char>,
    outcomes: Seq<Seq<char>>,
    end_time: i64,
    oracle: u64,
    min_bet: u64,
    now: i64,
) -> MarketView {
    MarketView {
        id: market_id,
        creator,
        question,
        outcomes,
        end_time,
        oracle,
        min_bet,
        status: MarketStatus::Active,
        total_pool: 0,
        outcome_pools: Seq::new(outcomes.len(), |i: int| 0u64),
        winning_outcome: None,
        created_at: now,
    }
}

/// Creates the platform configuration. The first caller becomes the
/// authority; the fee is refused above `MAX_FEE_BPS`. The host's
/// create-if-absent storage keeps this a one-time operation.
pub fn initialize(authority: u64, platform_fee_bps: u16, fee_recipient: u64) -> (r: Result<
    (GlobalState, PlatformInitialized),
    ErrorCode,
>)
    ensures
        r is Ok <==> platform_fee_bps <= MAX_FEE_BPS,
        r matches Err(e) ==> e == ErrorCode::FeeTooHigh,
        r matches Ok(p) ==> {
            &&& p.0 == (GlobalState { authority, platform_fee_bps, fee_recipient, total_markets: 0 })
            &&& config_wf(p.0)
            &&& p.1 == (PlatformInitialized { authority, platform_fee_bps, fee_recipient })
        },
{
    if platform_fee_bps > MAX_FEE_BPS {
        return Err(ErrorCode::FeeTooHigh);
    }
    let global_state = GlobalState { authority, platform_fee_bps, fee_recipient, total_markets: 0 };
    let event = PlatformInitialized { authority, platform_fee_bps, fee_recipient };
    Ok((global_state, event))
}

/// Whether the text has a non-blank character.
fn str_has_content(s: &str) -> (b: bool)
    ensures
        b == has_content(s@),
{
    let n = s.unicode_len();
    let mut i: usize = 0;
    while i < n
        invariant
            n == s@.len(),
            i <= n,
            forall|j: int| 0 <= j < i ==> blank_char(s@[j]),
        decreases n - i,
    {
        let c = s.get_char(i);
        if !(c == ' ' || c == '\t' || c == '\n' || c == '\r') {
            proof {
                assert(0 <= i < s@.len() && !blank_char(s@[i as int]));
            }
            return true;
        }
        i += 1;
    }
    false
}

/// Whether every outcome label is admissible.
fn labels_ok(outcomes: &Vec<String>) -> (b: bool)
    ensures
        b == (forall|i: int| 0 <= i < outcomes.deep_view().len() ==> label_ok(
            outcomes.deep_view()[i],
        )),
{
    let n = outcomes.len();
    let mut i: usize = 0;
    while i < n
        invariant
            n == outcomes.len(),
            i <= n,
            forall|j: int| 0 <= j < i ==> label_ok(outcomes.deep_view()[j]),
        decreases n - i,
    {
        let label = outcomes[i].as_str();
        if label.unicode_len() > MAX_LABEL_CHARS || !str_has_content(label) {
            proof {
                assert(!label_ok(outcomes.deep_view()[i as int]));
            }
            return false;
        }
        i += 1;
    }
    true
}

/// Copies the outcome labels for the creation notification.
fn clone_labels(v: &Vec<String>) -> (r: Vec<String>)
    ensures
        r.deep_view() == v.deep_view(),
{
    let n = v.len();
    let mut r: Vec<String> = Vec::new();
    let mut i: usize = 0;
    while i < n
        invariant
            n == v.len(),
            i <= n,
            r.len() == i,
            forall|j: int| 0 <= j < i ==> r@[j] == v@[j],
        decreases n - i,
    {
        r.push(v[i].clone());
        i += 1;
    }
    proof {
        assert(r.deep_view() =~= v.deep_view());
    }
    r
}

/// Validates and creates a market. The checks run in the order `create_err`
/// gives, each side-effect-free; only when all pass is the market allocated,
/// its pools zeroed, and the platform's market counter advanced. Keying the
/// new record by `market_id`, and refusing a duplicate id, is the store's
/// part.
pub fn create_market(
    global_state: &mut GlobalState,
    market_id: u64,
    question: String,
    outcomes: Vec<String>,
    end_time: i64,
    oracle: u64,
    min_bet: u64,
    creator: u64,
    now: i64,
) -> (r: Result<(Market, MarketCreated), ErrorCode>)
    ensures
        r is Ok <==> (create_err(question@, outcomes.deep_view(), end_time, min_bet, now) is None
            && old(global_state).total_markets < u64::MAX),
        r matches Err(e) ==> {
            &&& *final(global_state) == *old(global_state)
            &&& match create_err(question@, outcomes.deep_view(), end_time, min_bet, now) {
                Some(e0) => e == e0,
                None => e == ErrorCode::ArithmeticOverflow,
            }
        },
        r matches Ok(p) ==> {
            &&& p.0@ == market_init(
                market_id,
                creator,
                question@,
                outcomes.deep_view(),
                end_time,
                oracle,
                min_bet,
                now,
            )
            &&& market_wf(p.0@)
            &&& *final(global_state) == (GlobalState {
                total_markets: (old(global_state).total_markets + 1) as u64,
                ..*old(global_state)
            })
            &&& p.1.market_id == market_id
            &&& p.1.creator == creator
            &&& p.1.question@ == question@
            &&& p.1.outcomes.deep_view() == outcomes.deep_view()
            &&& p.1.end_time == end_time
            &&& p.1.oracle == oracle
            &&& p.1.min_bet == min_bet
        },
{
    let n_outcomes = outcomes.len();
    if n_outcomes < MIN_OUTCOMES {
        return Err(ErrorCode::InsufficientOutcomes);
    }
    if n_outcomes > MAX_OUTCOMES {
        return Err(ErrorCode::TooManyOutcomes);
    }
    if !labels_ok(&outcomes) {
        return Err(ErrorCode::InvalidOutcomeLabel);
    }
    if question.as_str().unicode_len() > MAX_QUESTION_CHARS {
        return Err(ErrorCode::QuestionTooLong);
    }
    if !str_has_content(question.as_str()) {
        return Err(ErrorCode::EmptyQuestion);
    }
    if !(now < end_time) {
        return Err(ErrorCode::InvalidEndTime);
    }
    let duration: i128 = (end_time as i128) - (now as i128);
    if duration < (MIN_DURATION_SECS as i128) || duration > (MAX_DURATION_SECS as i128) {
        return Err(ErrorCode::InvalidEndTime);
    }
    if min_bet == 0 {
        return Err(ErrorCode::InvalidMinBet);
    }
    let new_total = match global_state.total_markets.checked_add(1) {
        Some(t) => t,
        None => {
            return Err(ErrorCode::ArithmeticOverflow);
        },
    };

    let mut outcome_pools: Vec<u64> = Vec::new();
    let mut i: usize = 0;
    while i < n_outcomes
        invariant
            i <= n_outcomes,
            outcome_pools.len() == i,
            forall|j: int| 0 <= j < i ==> outcome_pools@[j] == 0,
        decreases n_outcomes - i,
    {
        outcome_pools.push(0);
        i += 1;
    }

    let question_copy = question.clone();
    let outcomes_copy = clone_labels(&outcomes);

    let market = Market {
        id: market_id,
        creator,
        question,
        outcomes,
        end_time,
        oracle,
        min_bet,
        status: MarketStatus::Active,
        total_pool: 0,
        outcome_pools,
        winning_outcome: None,
        created_at: now,
    };
    global_state.total_markets = new_total;

    let event = MarketCreated {
        market_id,
        creator,
        question: question_copy,
        outcomes: outcomes_copy,
        end_time,
        oracle,
        min_bet,
    };

    proof {
        let init = market_init(
            market_id,
            creator,
            market.question@,
            market.outcomes.deep_view(),
            end_time,
            oracle,
            min_bet,
            now,
        );
        assert(market@ =~= init);
        lemma_pool_sum_zeros(market@.outcome_pools);
        assert(market_wf(market@));
    }
    Ok((market, event))
}

/// Cancels an active market. Only the platform authority may do so; the
/// market leaves `Active` for the terminal `Cancelled` state and is never
/// payable afterwards. No refund path exists: stakes stay in escrow.
pub fn close_market(global_state: &GlobalState, market: &mut Market, caller: u64) -> (r: Result<
    MarketClosed,
    ErrorCode,
>)
    requires
        market_wf(old(market)@),
    ensures
        r is Ok <==> (caller == global_state.authority && old(market)@.status is Active),
        r matches Err(e) ==> {
            &&& final(market)@ == old(market)@
            &&& e == (if caller != global_state.authority {
                ErrorCode::UnauthorizedMarketClose
            } else {
                ErrorCode::MarketNotActive
            })
        },
        r matches Ok(ev) ==> {
            &&& final(market)@ == (MarketView { status: MarketStatus::Cancelled, ..old(market)@ })
            &&& market_wf(final(market)@)
            &&& ev == (MarketClosed { market_id: old(market)@.id, authority: caller })
        },
{
    if caller != global_state.authority {
        return Err(ErrorCode::UnauthorizedMarketClose);
    }
    if !(market.status == MarketStatus::Active) {
        return Err(ErrorCode::MarketNotActive);
    }
    market.status = MarketStatus::Cancelled;
    Ok(MarketClosed { market_id: market.id, authority: caller })
}

} // verus!
