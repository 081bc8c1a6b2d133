//! Settlement: oracle- or authority-gated resolution, the proportional
//! payout formula with its single-claim latch, and the platform-fee
//! computation. All products are formed in 128-bit arithmetic so no
//! intermediate step can overflow.

use vstd::prelude::*;
use vstd::arithmetic::div_mod::{
    lemma_div_is_ordered, lemma_div_multiples_vanish, lemma_div_pos_is_pos,
    lemma_fundamental_div_mod, lemma_mod_bound, lemma_multiply_divide_le,
};
use vstd::arithmetic::mul::lemma_mul_is_distributive_add;

use crate::events::{FeesCollected, MarketResolved, WinningsClaimed};
use crate::state::{
    config_wf, market_wf, position_matches_market, position_wf, ErrorCode, GlobalState, Market,
    MarketStatus, MarketView, UserBet, UserBetView, BPS_DENOMINATOR,
};

verus! {

/// The platform's cut of a market's pool: `floor(total_pool * fee_bps / 10000)`.
pub open spec fn fee_amount(total_pool: u64, fee_bps: u16) -> int {
    (total_pool * fee_bps) / (BPS_DENOMINATOR as int)
}

/// What is left for the winners once the platform fee is taken.
pub open spec fn prize_pool_amount(total_pool: u64, fee_bps: u16) -> int {
    total_pool - fee_amount(total_pool, fee_bps)
}

/// A winner's share of the prize pool, proportional to their stake in the
/// winning pool: `floor(stake * prize_pool / winning_pool)`.
pub open spec fn payout_amount(stake: u64, total_pool: u64, fee_bps: u16, winning_pool: u64) -> int {
    (stake * prize_pool_amount(total_pool, fee_bps)) / (winning_pool as int)
}

/// The fee is between zero and the whole pool.
pub proof fn lemma_fee_bounds(total_pool: u64, fee_bps: u16)
    requires
        fee_bps as int <= BPS_DENOMINATOR as int,
    ensures
        0 <= fee_amount(total_pool, fee_bps) <= total_pool,
{
    let x = total_pool as int;
    let b = fee_bps as int;
    let d = BPS_DENOMINATOR as int;
    assert(0 <= x * b <= d * x) by (nonlinear_arith)
        requires
            0 <= x,
            0 <= b <= d,
    ;
    lemma_div_pos_is_pos(x * b, d);
    lemma_multiply_divide_le(x * b, d, x);
}

/// A payout never exceeds the prize pool, which never exceeds the pool.
pub proof fn lemma_payout_bounds(stake: u64, total_pool: u64, fee_bps: u16, winning_pool: u64)
    requires
        fee_bps as int <= BPS_DENOMINATOR as int,
        stake <= winning_pool,
        0 < winning_pool,
    ensures
        0 <= payout_amount(stake, total_pool, fee_bps, winning_pool),
        payout_amount(stake, total_pool, fee_bps, winning_pool) <= prize_pool_amount(
            total_pool,
            fee_bps,
        ),
        prize_pool_amount(total_pool, fee_bps) <= total_pool,
{
    lemma_fee_bounds(total_pool, fee_bps);
    let prize = prize_pool_amount(total_pool, fee_bps);
    let s = stake as int;
    let w = winning_pool as int;
    assert(0 <= s * prize <= w * prize) by (nonlinear_arith)
        requires
            0 <= s <= w,
            0 <= prize,
    ;
    lemma_div_pos_is_pos(s * prize, w);
    lemma_multiply_divide_le(s * prize, w, prize);
}

/// Rounding down loses at most one unit per term: the floored quotients of a
/// sum's parts never exceed the floored quotient of the sum.
pub proof fn lemma_floor_add(x: int, y: int, w: int)
    requires
        0 <= x,
        0 <= y,
        0 < w,
    ensures
        x / w + y / w <= (x + y) / w,
{
    lemma_fundamental_div_mod(x, w);
    lemma_fundamental_div_mod(y, w);
    lemma_mod_bound(x, w);
    lemma_mod_bound(y, w);
    lemma_mul_is_distributive_add(w, x / w, y / w);
    lemma_div_multiples_vanish(x / w + y / w, w);
    lemma_div_is_ordered(w * (x / w + y / w), x + y, w);
}

/// The checks `resolve_market` performs, in order, and the error each
/// failing check reports. `None` means the resolution is accepted.
pub open spec fn resolve_err(
    m: MarketView,
    authority: u64,
    resolver: u64,
    winning_outcome: u8,
    now: i64,
) -> Option<ErrorCode> {
    if resolver != m.oracle && resolver != authority {
        Some(ErrorCode::UnauthorizedResolver)
    } else if !(m.status is Active) {
        Some(ErrorCode::MarketNotActive)
    } else if now < m.end_time {
        Some(ErrorCode::MarketNotExpired)
    } else if m.outcomes.len() <= winning_outcome as int {
        Some(ErrorCode::InvalidOutcome)
    } else {
        None
    }
}

/// What resolution does: either the error `resolve_err` gives, or the same
/// market in the terminal `Resolved` state with its winning outcome set.
pub open spec fn resolve_step(
    m: MarketView,
    authority: u64,
    resolver: u64,
    winning_outcome: u8,
    now: i64,
) -> Result<MarketView, ErrorCode> {
    match resolve_err(m, authority, resolver, winning_outcome, now) {
        Some(e) => Err(e),
        None => Ok(
            MarketView {
                status: MarketStatus::Resolved,
                winning_outcome: Some(winning_outcome),
                ..m
            },
        ),
    }
}

/// The checks `claim_winnings` performs, in order, and the error each
/// failing check reports. `None` means the claim is paid.
pub open spec fn claim_err(m: MarketView, p: UserBetView, user: u64) -> Option<ErrorCode> {
    if !(m.status is Resolved) {
        Some(ErrorCode::MarketNotResolved)
    } else if p.claimed {
        Some(ErrorCode::AlreadyClaimed)
    } else if p.user != user {
        Some(ErrorCode::UnauthorizedClaim)
    } else if p.bets[m.winning_outcome.unwrap() as int] == 0 {
        Some(ErrorCode::NoWinningBet)
    } else {
        None
    }
}

/// What a claim does: either the error `claim_err` gives, or the position
/// with its claim latched and the payout the formula owes the user.
pub open spec fn claim_step(m: MarketView, p: UserBetView, user: u64, fee_bps: u16) -> Result<
    (UserBetView, int),
    ErrorCode,
> {
    match claim_err(m, p, user) {
        Some(e) => Err(e),
        None => {
            let w = m.winning_outcome.unwrap() as int;
            Ok(
                (
                    UserBetView { claimed: true, ..p },
                    payout_amount(p.bets[w], m.total_pool, fee_bps, m.outcome_pools[w]),
                ),
            )
        },
    }
}

/// The checks `collect_fees` performs, in order. `None` means the fee may be
/// computed and, when positive, transferred.
pub open spec fn collect_err(m: MarketView, authority: u64, caller: u64) -> Option<ErrorCode> {
    if caller != authority {
        Some(ErrorCode::UnauthorizedFeeCollection)
    } else if !(m.status is Resolved) {
        Some(ErrorCode::MarketNotResolved)
    } else {
        None
    }
}

/// Resolves an active market to one of its outcomes. Only the market's
/// oracle or the platform authority may resolve, only once the betting
/// window has closed, and only once: the transition is terminal and the
/// winning outcome is set exactly here, never changed again.
pub fn resolve_market(
    global_state: &GlobalState,
    market: &mut Market,
    resolver: u64,
    winning_outcome: u8,
    now: i64,
) -> (r: Result<MarketResolved, ErrorCode>)
    requires
        market_wf(old(market)@),
    ensures
        r is Ok <==> resolve_step(
            old(market)@,
            global_state.authority,
            resolver,
            winning_outcome,
            now,
        ) is Ok,
        r matches Err(e) ==> {
            &&& final(market)@ == old(market)@
            &&& resolve_step(old(market)@, global_state.authority, resolver, winning_outcome, now)
                == Err::<MarketView, ErrorCode>(e)
        },
        r matches Ok(ev) ==> {
            &&& resolve_step(old(market)@, global_state.authority, resolver, winning_outcome, now)
                == Ok::<MarketView, ErrorCode>(final(market)@)
            &&& market_wf(final(market)@)
            &&& final(market)@.status is Resolved
            &&& final(market)@.winning_outcome == Some(winning_outcome)
            &&& ev == (MarketResolved {
                market_id: old(market)@.id,
                winning_outcome,
                resolver,
                total_pool: old(market)@.total_pool,
            })
        },
{
    if resolver != market.oracle && resolver != global_state.authority {
        return Err(ErrorCode::UnauthorizedResolver);
    }
    if !(market.status == MarketStatus::Active) {
        return Err(ErrorCode::MarketNotActive);
    }
    if now < market.end_time {
        return Err(ErrorCode::MarketNotExpired);
    }
    if market.outcomes.len() <= winning_outcome as usize {
        return Err(ErrorCode::InvalidOutcome);
    }
    market.status = MarketStatus::Resolved;
    market.winning_outcome = Some(winning_outcome);
    Ok(MarketResolved {
        market_id: market.id,
        winning_outcome,
        resolver,
        total_pool: market.total_pool,
    })
}

/// Pays a user their share of a resolved market's prize pool and latches the
/// position as claimed. The caller must own the position; a position with no
/// stake on the winning outcome gets nothing. The returned notification's
/// `amount` is the transfer the host owes the user from the market's escrow.
/// The position is the one the store keys under `(user, market)`, so its
/// stake on the winning outcome is contained in the winning pool; that is
/// what keeps the division safe.
pub fn claim_winnings(
    global_state: &GlobalState,
    market: &Market,
    user_bet: &mut UserBet,
    user: u64,
) -> (r: Result<WinningsClaimed, ErrorCode>)
    requires
        config_wf(*global_state),
        market_wf(market@),
        position_wf(old(user_bet)@),
        position_matches_market(old(user_bet)@, market@),
    ensures
        r is Ok <==> claim_step(market@, old(user_bet)@, user, global_state.platform_fee_bps)
            is Ok,
        r matches Err(e) ==> {
            &&& final(user_bet)@ == old(user_bet)@
            &&& claim_step(market@, old(user_bet)@, user, global_state.platform_fee_bps)
                == Err::<(UserBetView, int), ErrorCode>(e)
        },
        r matches Ok(ev) ==> {
            &&& claim_step(market@, old(user_bet)@, user, global_state.platform_fee_bps)
                == Ok::<(UserBetView, int), ErrorCode>((final(user_bet)@, ev.amount as int))
            &&& final(user_bet)@ == (UserBetView { claimed: true, ..old(user_bet)@ })
            &&& ev.user == user
            &&& ev.market_id == market@.id
            &&& ev.amount as int == payout_amount(
                old(user_bet)@.bets[market@.winning_outcome.unwrap() as int],
                market@.total_pool,
                global_state.platform_fee_bps,
                market@.outcome_pools[market@.winning_outcome.unwrap() as int],
            )
        },
{
    if !(market.status == MarketStatus::Resolved) {
        return Err(ErrorCode::MarketNotResolved);
    }
    if user_bet.claimed {
        return Err(ErrorCode::AlreadyClaimed);
    }
    if user_bet.user != user {
        return Err(ErrorCode::UnauthorizedClaim);
    }
    let w_idx: usize = match market.winning_outcome {
        Some(w) => w as usize,
        None => {
            proof {
                assert(false);
            }
            return Err(ErrorCode::MarketNotResolved);
        },
    };
    let stake = user_bet.bets[w_idx];
    if stake == 0 {
        return Err(ErrorCode::NoWinningBet);
    }
    let winning_pool = market.outcome_pools[w_idx];
    proof {
        assert(stake <= winning_pool);
        lemma_payout_bounds(stake, market.total_pool, global_state.platform_fee_bps, winning_pool);
    }

    let fee: u128 = (market.total_pool as u128) * (global_state.platform_fee_bps as u128) / (
    BPS_DENOMINATOR as u128);
    let prize: u128 = (market.total_pool as u128) - fee;
    proof {
        assert((stake as int) * (prize as int) <= u128::MAX as int) by (nonlinear_arith)
            requires
                0 <= stake as int <= u64::MAX as int,
                0 <= prize as int <= u64::MAX as int,
        ;
    }
    let payout: u128 = (stake as u128) * prize / (winning_pool as u128);
    let amount: u64 = payout as u64;

    user_bet.claimed = true;
    proof {
        assert(final(user_bet)@ =~= (UserBetView { claimed: true, ..old(user_bet)@ }));
    }
    Ok(WinningsClaimed { user, market_id: market.id, amount })
}

/// Computes the platform fee of a resolved market for the authority and,
/// when it is positive, hands back the transfer the host owes the fee
/// recipient from the market's escrow. Nothing latches a collection: the
/// host must not replay it.
pub fn collect_fees(global_state: &GlobalState, market: &Market, caller: u64) -> (r: Result<
    Option<FeesCollected>,
    ErrorCode,
>)
    requires
        config_wf(*global_state),
    ensures
        r is Ok <==> collect_err(market@, global_state.authority, caller) is None,
        r matches Err(e) ==> collect_err(market@, global_state.authority, caller) == Some(e),
        r matches Ok(opt) ==> match opt {
            Some(ev) => {
                &&& fee_amount(market@.total_pool, global_state.platform_fee_bps) > 0
                &&& ev.amount as int == fee_amount(market@.total_pool, global_state.platform_fee_bps)
                &&& ev.market_id == market@.id
                &&& ev.recipient == global_state.fee_recipient
            },
            None => fee_amount(market@.total_pool, global_state.platform_fee_bps) == 0,
        },
{
    if caller != global_state.authority {
        return Err(ErrorCode::UnauthorizedFeeCollection);
    }
    if !(market.status == MarketStatus::Resolved) {
        return Err(ErrorCode::MarketNotResolved);
    }
    proof {
        lemma_fee_bounds(market.total_pool, global_state.platform_fee_bps);
    }
    let fee: u128 = (market.total_pool as u128) * (global_state.platform_fee_bps as u128) / (
    BPS_DENOMINATOR as u128);
    if fee > 0 {
        Ok(
            Some(
                FeesCollected {
                    market_id: market.id,
                    amount: fee as u64,
                    recipient: global_state.fee_recipient,
                },
            ),
        )
    } else {
        Ok(None)
    }
}

} // verus!
