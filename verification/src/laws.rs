//! The library's laws: properties that relate several operations or a whole
//! run of them, stated over the transition functions and proved once and for
//! all.

use vstd::prelude::*;
use vstd::arithmetic::div_mod::{
    lemma_div_is_ordered, lemma_div_multiples_vanish, lemma_div_of0,
};

use crate::betting::{bet_step, position_opened};
use crate::lifecycle::{create_err, market_init};
use crate::settlement::{
    claim_step, fee_amount, lemma_fee_bounds, lemma_floor_add, payout_amount, prize_pool_amount,
    resolve_step,
};
use crate::state::{
    market_wf, position_fresh, position_matches_market, position_wf, ErrorCode, MarketView,
    UserBetView, BPS_DENOMINATOR, NO_USER,
};
use crate::sums::{lemma_pool_sum_nonneg, lemma_pool_sum_update, lemma_pool_sum_zeros, pool_sum};

verus! {

/// A market fresh from a valid creation is well formed, with one pool per
/// outcome, every pool zero, and an empty total.
pub proof fn lemma_creation_zeroed(
    market_id: u64,
    creator: u64,
    question: Seq<char>,
    outcomes: Seq<Seq<char>>,
    end_time: i64,
    oracle: u64,
    min_bet: u64,
    now: i64,
)
    requires
        create_err(question, outcomes, end_time, min_bet, now) is None,
    ensures
        ({
            let m = market_init(
                market_id,
                creator,
                question,
                outcomes,
                end_time,
                oracle,
                min_bet,
                now,
            );
            &&& market_wf(m)
            &&& m.outcome_pools.len() == m.outcomes.len()
            &&& forall|i: int| 0 <= i < m.outcome_pools.len() ==> m.outcome_pools[i] == 0
            &&& m.total_pool == 0
        }),
{
    let m = market_init(market_id, creator, question, outcomes, end_time, oracle, min_bet, now);
    lemma_pool_sum_zeros(m.outcome_pools);
}

/// Every accepted bet preserves the accounting invariants: the market's
/// total pool stays the sum of its outcome pools, the position's total stays
/// the sum of its per-outcome stakes, and the position stays contained in
/// the market's pools. With `lemma_creation_zeroed` as the base case, these
/// hold after any sequence of accepted bets.
pub proof fn lemma_bet_preserves_accounting(
    m: MarketView,
    p: UserBetView,
    user: u64,
    outcome_index: u8,
    amount: u64,
    now: i64,
)
    requires
        market_wf(m),
        user != NO_USER,
        position_fresh(p) || (p.user == user && position_wf(p) && position_matches_market(p, m)),
        bet_step(m, p, user, outcome_index, amount, now) is Ok,
    ensures
        ({
            let m1 = bet_step(m, p, user, outcome_index, amount, now).unwrap().0;
            let p1 = bet_step(m, p, user, outcome_index, amount, now).unwrap().1;
            &&& market_wf(m1)
            &&& position_wf(p1)
            &&& position_matches_market(p1, m1)
            &&& m1.total_pool as int == pool_sum(m1.outcome_pools)
            &&& p1.total_bet as int == pool_sum(p1.bets)
        }),
{
    let i = outcome_index as int;
    let p0 = if p.user == NO_USER {
        position_opened(user, m)
    } else {
        p
    };
    if p.user == NO_USER {
        lemma_pool_sum_zeros(p0.bets);
    }
    lemma_pool_sum_update(m.outcome_pools, i, (m.outcome_pools[i] + amount) as u64);
    lemma_pool_sum_update(p0.bets, i, (p0.bets[i] + amount) as u64);
}

/// Resolution is final: once a resolution succeeds, the winning outcome is
/// set to the reported one, and no later resolution attempt succeeds,
/// whoever makes it and whenever — an authorized caller is refused with the
/// state error, so the winning outcome never changes.
pub proof fn lemma_resolution_is_final(
    m: MarketView,
    authority1: u64,
    resolver1: u64,
    outcome1: u8,
    now1: i64,
    authority2: u64,
    resolver2: u64,
    outcome2: u8,
    now2: i64,
)
    requires
        resolve_step(m, authority1, resolver1, outcome1, now1) is Ok,
    ensures
        ({
            let m1 = resolve_step(m, authority1, resolver1, outcome1, now1).unwrap();
            &&& m1.winning_outcome == Some(outcome1)
            &&& resolve_step(m1, authority2, resolver2, outcome2, now2) is Err
            &&& (resolver2 == m1.oracle || resolver2 == authority2) ==> resolve_step(
                m1,
                authority2,
                resolver2,
                outcome2,
                now2,
            ) == Err::<MarketView, ErrorCode>(ErrorCode::MarketNotActive)
        }),
{
}

/// A claim pays at most once: a successful claim latches the position, and
/// any further claim on that position is refused as already claimed, for any
/// caller and any fee.
pub proof fn lemma_claim_exactly_once(
    m: MarketView,
    p: UserBetView,
    user1: u64,
    fee1: u16,
    user2: u64,
    fee2: u16,
)
    requires
        claim_step(m, p, user1, fee1) is Ok,
    ensures
        ({
            let p1 = claim_step(m, p, user1, fee1).unwrap().0;
            &&& p1.claimed
            &&& claim_step(m, p1, user2, fee2) == Err::<(UserBetView, int), ErrorCode>(
                ErrorCode::AlreadyClaimed,
            )
        }),
{
}

/// The sum of the payouts owed to any set of winning claimants, one stake
/// each from the winning pool.
pub open spec fn payout_total(
    stakes: Seq<u64>,
    total_pool: u64,
    fee_bps: u16,
    winning_pool: u64,
) -> int
    decreases stakes.len(),
{
    if stakes.len() == 0 {
        0
    } else {
        payout_total(stakes.drop_last(), total_pool, fee_bps, winning_pool) + payout_amount(
            stakes.last(),
            total_pool,
            fee_bps,
            winning_pool,
        )
    }
}

/// The payouts of any claimants together never exceed their combined stake's
/// share of the prize pool.
proof fn lemma_payout_total_le(stakes: Seq<u64>, total_pool: u64, fee_bps: u16, winning_pool: u64)
    requires
        fee_bps as int <= BPS_DENOMINATOR as int,
        0 < winning_pool,
    ensures
        payout_total(stakes, total_pool, fee_bps, winning_pool) <= pool_sum(stakes)
            * prize_pool_amount(total_pool, fee_bps) / (winning_pool as int),
    decreases stakes.len(),
{
    let prize = prize_pool_amount(total_pool, fee_bps);
    let w = winning_pool as int;
    lemma_fee_bounds(total_pool, fee_bps);
    if stakes.len() == 0 {
        lemma_div_of0(w);
        assert(pool_sum(stakes) * prize == 0) by (nonlinear_arith)
            requires
                pool_sum(stakes) == 0,
        ;
    } else {
        let s = stakes.drop_last();
        let last = stakes.last();
        lemma_payout_total_le(s, total_pool, fee_bps, winning_pool);
        lemma_pool_sum_nonneg(s);
        assert(pool_sum(s) * prize >= 0 && last * prize >= 0 && pool_sum(s) * prize + last * prize
            == (pool_sum(s) + last) * prize) by (nonlinear_arith)
            requires
                pool_sum(s) >= 0,
                last >= 0,
                prize >= 0,
        ;
        lemma_floor_add(pool_sum(s) * prize, last * prize, w);
    }
}

/// Payout conservation: for a resolved market whose winning claimants hold
/// stakes summing to at most the winning pool, the payouts together never
/// exceed the pool net of the platform fee. The escrow therefore always
/// covers every claim and the fee.
pub proof fn lemma_payout_conservation(
    stakes: Seq<u64>,
    total_pool: u64,
    fee_bps: u16,
    winning_pool: u64,
)
    requires
        fee_bps as int <= BPS_DENOMINATOR as int,
        0 < winning_pool,
        pool_sum(stakes) <= winning_pool as int,
    ensures
        payout_total(stakes, total_pool, fee_bps, winning_pool) <= total_pool - fee_amount(
            total_pool,
            fee_bps,
        ),
{
    let prize = prize_pool_amount(total_pool, fee_bps);
    let w = winning_pool as int;
    let staked = pool_sum(stakes);
    lemma_payout_total_le(stakes, total_pool, fee_bps, winning_pool);
    lemma_pool_sum_nonneg(stakes);
    lemma_fee_bounds(total_pool, fee_bps);
    assert(staked * prize <= w * prize) by (nonlinear_arith)
        requires
            0 <= staked <= w,
            0 <= prize,
    ;
    lemma_div_is_ordered(staked * prize, w * prize, w);
    lemma_div_multiples_vanish(prize, w);
}

} // verus!
