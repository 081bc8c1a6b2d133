//! Bet accounting: time-windowed acceptance of stakes with overflow-checked
//! pool updates. The host requests the matching value transfer only after an
//! accepted bet, and aborts the whole operation if that transfer fails.

use vstd::prelude::*;

use crate::events::BetPlaced;
use crate::state::{
    market_wf, position_fresh, position_matches_market, position_wf, ErrorCode, Market,
    MarketStatus, MarketView, UserBet, UserBetView, NO_USER,
};
use crate::sums::{lemma_pool_sum_update, lemma_pool_sum_zeros};

verus! {

/// The checks `place_bet` performs, in order, and the error each failing
/// check reports. `None` means the bet is accepted.
pub open spec fn place_bet_err(m: MarketView, outcome_index: u8, amount: u64, now: i64) -> Option<
    ErrorCode,
> {
    if !(m.status is Active) {
        Some(ErrorCode::MarketNotActive)
    } else if now >= m.end_time {
        Some(ErrorCode::MarketExpired)
    } else if m.outcomes.len() <= outcome_index as int {
        Some(ErrorCode::InvalidOutcome)
    } else if amount < m.min_bet {
        Some(ErrorCode::BetTooSmall)
    } else if m.total_pool + amount > u64::MAX {
        Some(ErrorCode::ArithmeticOverflow)
    } else {
        None
    }
}

/// A blank position record at the moment a user's first bet in a market
/// binds it: zero stake on every outcome of that market.
pub open spec fn position_opened(user: u64, m: MarketView) -> UserBetView {
    UserBetView {
        user,
        market: m.id,
        bets: Seq::new(m.outcomes.len(), |i: int| 0u64),
        total_bet: 0,
        claimed: false,
    }
}

/// What one bet does: either the error `place_bet_err` gives, or the market
/// and the position with `amount` added to the chosen outcome's pool, the
/// total pool, the user's stake on that outcome, and the user's total.
pub open spec fn bet_step(
    m: MarketView,
    p: UserBetView,
    user: u64,
    outcome_index: u8,
    amount: u64,
    now: i64,
) -> Result<(MarketView, UserBetView), ErrorCode> {
    match place_bet_err(m, outcome_index, amount, now) {
        Some(e) => Err(e),
        None => {
            let i = outcome_index as int;
            let p0 = if p.user == NO_USER {
                position_opened(user, m)
            } else {
                p
            };
            let m1 = MarketView {
                total_pool: (m.total_pool + amount) as u64,
                outcome_pools: m.outcome_pools.update(i, (m.outcome_pools[i] + amount) as u64),
                ..m
            };
            let p1 = UserBetView {
                bets: p0.bets.update(i, (p0.bets[i] + amount) as u64),
                total_bet: (p0.total_bet + amount) as u64,
                ..p0
            };
            Ok((m1, p1))
        },
    }
}

/// Accepts a stake of `amount` on one outcome of an active market before its
/// end time, updating the market's pools and the caller's position exactly as
/// `bet_step` says. Any failing check, overflow included, leaves both records
/// unchanged; the host then debits nothing. The position record is the one
/// the store keys under `(user, market)`: either still blank, or already
/// bound to this user and market.
pub fn place_bet(
    market: &mut Market,
    user_bet: &mut UserBet,
    user: u64,
    outcome_index: u8,
    amount: u64,
    now: i64,
) -> (r: Result<BetPlaced, ErrorCode>)
    requires
        market_wf(old(market)@),
        user != NO_USER,
        position_fresh(old(user_bet)@) || (old(user_bet)@.user == user && position_wf(
            old(user_bet)@,
        ) && position_matches_market(old(user_bet)@, old(market)@)),
    ensures
        r is Ok <==> bet_step(old(market)@, old(user_bet)@, user, outcome_index, amount, now)
            is Ok,
        r matches Err(e) ==> {
            &&& final(market)@ == old(market)@
            &&& final(user_bet)@ == old(user_bet)@
            &&& bet_step(old(market)@, old(user_bet)@, user, outcome_index, amount, now)
                == Err::<(MarketView, UserBetView), ErrorCode>(e)
        },
        r matches Ok(ev) ==> {
            &&& bet_step(old(market)@, old(user_bet)@, user, outcome_index, amount, now)
                == Ok::<(MarketView, UserBetView), ErrorCode>((final(market)@, final(user_bet)@))
            &&& market_wf(final(market)@)
            &&& position_wf(final(user_bet)@)
            &&& position_matches_market(final(user_bet)@, final(market)@)
            &&& final(user_bet)@.user == user
            &&& final(market)@.total_pool == old(market)@.total_pool + amount
            &&& ev == (BetPlaced {
                user,
                market_id: old(market)@.id,
                outcome_index,
                amount,
                total_pool: (old(market)@.total_pool + amount) as u64,
            })
        },
{
    if !(market.status == MarketStatus::Active) {
        return Err(ErrorCode::MarketNotActive);
    }
    if now >= market.end_time {
        return Err(ErrorCode::MarketExpired);
    }
    let n = market.outcomes.len();
    if (outcome_index as usize) >= n {
        return Err(ErrorCode::InvalidOutcome);
    }
    if amount < market.min_bet {
        return Err(ErrorCode::BetTooSmall);
    }
    let new_total = match market.total_pool.checked_add(amount) {
        Some(t) => t,
        None => {
            return Err(ErrorCode::ArithmeticOverflow);
        },
    };
    let idx = outcome_index as usize;

    if user_bet.user == NO_USER {
        let mut zeroes: Vec<u64> = Vec::new();
        let mut i: usize = 0;
        while i < n
            invariant
                i <= n,
                zeroes.len() == i,
                forall|j: int| 0 <= j < i ==> zeroes@[j] == 0,
            decreases n - i,
        {
            zeroes.push(0);
            i += 1;
        }
        user_bet.user = user;
        user_bet.market = market.id;
        user_bet.bets = zeroes;
        user_bet.total_bet = 0;
        user_bet.claimed = false;
        proof {
            lemma_pool_sum_zeros(user_bet@.bets);
            assert(user_bet@ =~= position_opened(user, old(market)@));
        }
    }

    proof {
        assert(user_bet@.bets[idx as int] <= old(market)@.outcome_pools[idx as int]);
        assert(user_bet@.total_bet <= old(market)@.total_pool);
    }
    let stake = user_bet.bets[idx];
    user_bet.bets[idx] = stake + amount;
    user_bet.total_bet = user_bet.total_bet + amount;

    let pool = market.outcome_pools[idx];
    market.outcome_pools[idx] = pool + amount;
    market.total_pool = new_total;

    proof {
        let m0 = old(market)@;
        let p0 = if old(user_bet)@.user == NO_USER {
            position_opened(user, m0)
        } else {
            old(user_bet)@
        };
        lemma_pool_sum_update(m0.outcome_pools, idx as int, (m0.outcome_pools[idx as int]
            + amount) as u64);
        lemma_pool_sum_update(p0.bets, idx as int, (p0.bets[idx as int] + amount) as u64);
        assert(bet_step(old(market)@, old(user_bet)@, user, outcome_index, amount, now)
            == Ok::<(MarketView, UserBetView), ErrorCode>((market@, user_bet@)));
        assert(market_wf(market@));
        assert(position_matches_market(user_bet@, market@));
    }
    Ok(BetPlaced {
        user,
        market_id: market.id,
        outcome_index,
        amount,
        total_pool: new_total,
    })
}

} // verus!
