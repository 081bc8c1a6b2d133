use prediction_market::betting::place_bet;
use prediction_market::lifecycle::{close_market, create_market, initialize};
use prediction_market::settlement::{claim_winnings, collect_fees, resolve_market};
use prediction_market::state::{ErrorCode, GlobalState, Market, MarketStatus, UserBet};

const HOUR: i64 = 3600;
const DAY: i64 = 86400;

const AUTHORITY: u64 = 11;
const ORACLE: u64 = 22;
const RECIPIENT: u64 = 33;
const U1: u64 = 101;
const U2: u64 = 102;
const U3: u64 = 103;

fn strings(labels: &[&str]) -> Vec<String> {
    labels.iter().map(|s| s.to_string()).collect()
}

fn fresh_config(fee_bps: u16) -> GlobalState {
    let (gs, _) = initialize(AUTHORITY, fee_bps, RECIPIENT).unwrap();
    gs
}

fn yes_no_market(gs: &mut GlobalState, min_bet: u64, now: i64, end_time: i64) -> Market {
    let (market, _) = create_market(
        gs,
        1,
        "Will it rain tomorrow?".to_string(),
        strings(&["Yes", "No"]),
        end_time,
        ORACLE,
        min_bet,
        U1,
        now,
    )
    .unwrap();
    market
}

#[test]
fn initialize_sets_configuration() {
    let (gs, ev) = initialize(AUTHORITY, 200, RECIPIENT).unwrap();
    assert_eq!(gs.authority, AUTHORITY);
    assert_eq!(gs.platform_fee_bps, 200);
    assert_eq!(gs.fee_recipient, RECIPIENT);
    assert_eq!(gs.total_markets, 0);
    assert_eq!(ev.authority, AUTHORITY);
    assert_eq!(ev.platform_fee_bps, 200);
    assert_eq!(ev.fee_recipient, RECIPIENT);
}

#[test]
fn initialize_rejects_excessive_fee() {
    assert_eq!(initialize(AUTHORITY, 501, RECIPIENT).unwrap_err(), ErrorCode::FeeTooHigh);
    assert!(initialize(AUTHORITY, 500, RECIPIENT).is_ok());
    assert!(initialize(AUTHORITY, 0, RECIPIENT).is_ok());
}

#[test]
fn create_market_zeroes_pools() {
    let mut gs = fresh_config(200);
    let (market, ev) = create_market(
        &mut gs,
        7,
        "Who wins the cup?".to_string(),
        strings(&["Ajax", "Feyenoord", "PSV"]),
        2 * HOUR,
        ORACLE,
        100,
        U1,
        0,
    )
    .unwrap();
    assert_eq!(market.id, 7);
    assert_eq!(market.creator, U1);
    assert_eq!(market.outcomes.len(), 3);
    assert_eq!(market.outcome_pools, vec![0, 0, 0]);
    assert_eq!(market.total_pool, 0);
    assert_eq!(market.status, MarketStatus::Active);
    assert_eq!(market.winning_outcome, None);
    assert_eq!(market.min_bet, 100);
    assert_eq!(market.end_time, 2 * HOUR);
    assert_eq!(market.created_at, 0);
    assert_eq!(market.oracle, ORACLE);
    assert_eq!(gs.total_markets, 1);
    assert_eq!(ev.market_id, 7);
    assert_eq!(ev.question, "Who wins the cup?");
    assert_eq!(ev.outcomes, strings(&["Ajax", "Feyenoord", "PSV"]));
    assert_eq!(ev.oracle, ORACLE);
    assert_eq!(ev.min_bet, 100);
}

#[test]
fn create_market_validates_outcome_count() {
    let mut gs = fresh_config(200);
    let e = create_market(
        &mut gs,
        1,
        "q?".to_string(),
        strings(&["only"]),
        2 * HOUR,
        ORACLE,
        1,
        U1,
        0,
    )
    .unwrap_err();
    assert_eq!(e, ErrorCode::InsufficientOutcomes);
    let nine: Vec<String> = (0..9).map(|i| format!("outcome {}", i)).collect();
    let e = create_market(&mut gs, 1, "q?".to_string(), nine, 2 * HOUR, ORACLE, 1, U1, 0)
        .unwrap_err();
    assert_eq!(e, ErrorCode::TooManyOutcomes);
    assert_eq!(gs.total_markets, 0);
}

#[test]
fn create_market_validates_labels() {
    let mut gs = fresh_config(200);
    let e = create_market(
        &mut gs,
        1,
        "q?".to_string(),
        strings(&["Yes", "   "]),
        2 * HOUR,
        ORACLE,
        1,
        U1,
        0,
    )
    .unwrap_err();
    assert_eq!(e, ErrorCode::InvalidOutcomeLabel);
    let long = "x".repeat(51);
    let e = create_market(
        &mut gs,
        1,
        "q?".to_string(),
        strings(&["Yes", &long]),
        2 * HOUR,
        ORACLE,
        1,
        U1,
        0,
    )
    .unwrap_err();
    assert_eq!(e, ErrorCode::InvalidOutcomeLabel);
    let edge = "x".repeat(50);
    assert!(create_market(
        &mut gs,
        1,
        "q?".to_string(),
        strings(&["Yes", &edge]),
        2 * HOUR,
        ORACLE,
        1,
        U1,
        0,
    )
    .is_ok());
}

#[test]
fn create_market_validates_question() {
    let mut gs = fresh_config(200);
    let long = "q".repeat(201);
    let e = create_market(&mut gs, 1, long, strings(&["a", "b"]), 2 * HOUR, ORACLE, 1, U1, 0)
        .unwrap_err();
    assert_eq!(e, ErrorCode::QuestionTooLong);
    let edge = "q".repeat(200);
    assert!(
        create_market(&mut gs, 1, edge, strings(&["a", "b"]), 2 * HOUR, ORACLE, 1, U1, 0).is_ok()
    );
    let e = create_market(
        &mut gs,
        1,
        " \t\n".to_string(),
        strings(&["a", "b"]),
        2 * HOUR,
        ORACLE,
        1,
        U1,
        0,
    )
    .unwrap_err();
    assert_eq!(e, ErrorCode::EmptyQuestion);
}

#[test]
fn create_market_validates_window() {
    let mut gs = fresh_config(200);
    let q = || "q?".to_string();
    let outs = || strings(&["a", "b"]);
    let now = 1000;
    assert_eq!(
        create_market(&mut gs, 1, q(), outs(), now, ORACLE, 1, U1, now).unwrap_err(),
        ErrorCode::InvalidEndTime
    );
    assert_eq!(
        create_market(&mut gs, 1, q(), outs(), now - 1, ORACLE, 1, U1, now).unwrap_err(),
        ErrorCode::InvalidEndTime
    );
    assert_eq!(
        create_market(&mut gs, 1, q(), outs(), now + HOUR - 1, ORACLE, 1, U1, now).unwrap_err(),
        ErrorCode::InvalidEndTime
    );
    assert!(create_market(&mut gs, 1, q(), outs(), now + HOUR, ORACLE, 1, U1, now).is_ok());
    assert!(create_market(&mut gs, 1, q(), outs(), now + 90 * DAY, ORACLE, 1, U1, now).is_ok());
    assert_eq!(
        create_market(&mut gs, 1, q(), outs(), now + 90 * DAY + 1, ORACLE, 1, U1, now)
            .unwrap_err(),
        ErrorCode::InvalidEndTime
    );
}

#[test]
fn create_market_validates_min_bet() {
    let mut gs = fresh_config(200);
    let e = create_market(
        &mut gs,
        1,
        "q?".to_string(),
        strings(&["a", "b"]),
        2 * HOUR,
        ORACLE,
        0,
        U1,
        0,
    )
    .unwrap_err();
    assert_eq!(e, ErrorCode::InvalidMinBet);
}

#[test]
fn place_bet_keeps_pool_sums() {
    let mut gs = fresh_config(200);
    let mut market = yes_no_market(&mut gs, 100, 0, 2 * HOUR);
    let mut pos1 = UserBet::blank();
    let mut pos2 = UserBet::blank();

    let ev = place_bet(&mut market, &mut pos1, U1, 0, 100, 10).unwrap();
    assert_eq!(ev.total_pool, 100);
    let ev = place_bet(&mut market, &mut pos2, U2, 1, 300, 20).unwrap();
    assert_eq!(ev.total_pool, 400);
    let ev = place_bet(&mut market, &mut pos1, U1, 1, 150, 30).unwrap();
    assert_eq!(ev.total_pool, 550);

    assert_eq!(market.total_pool, 550);
    assert_eq!(market.outcome_pools, vec![100, 450]);
    assert_eq!(
        market.total_pool,
        market.outcome_pools.iter().sum::<u64>()
    );
    assert_eq!(pos1.user, U1);
    assert_eq!(pos1.market, market.id);
    assert_eq!(pos1.bets, vec![100, 150]);
    assert_eq!(pos1.total_bet, 250);
    assert_eq!(pos1.total_bet, pos1.bets.iter().sum::<u64>());
    assert_eq!(pos2.bets, vec![0, 300]);
    assert_eq!(pos2.total_bet, 300);
    assert!(!pos1.claimed);
}

#[test]
fn place_bet_window_boundary() {
    let mut gs = fresh_config(200);
    let mut market = yes_no_market(&mut gs, 100, 0, 2 * HOUR);
    let mut pos = UserBet::blank();
    let end = market.end_time;
    assert!(place_bet(&mut market, &mut pos, U1, 0, 100, end - 1).is_ok());
    assert_eq!(
        place_bet(&mut market, &mut pos, U1, 0, 100, end).unwrap_err(),
        ErrorCode::MarketExpired
    );
    assert_eq!(
        place_bet(&mut market, &mut pos, U1, 0, 100, end + 500).unwrap_err(),
        ErrorCode::MarketExpired
    );
    assert_eq!(market.total_pool, 100);
}

#[test]
fn place_bet_minimum_boundary() {
    let mut gs = fresh_config(200);
    let mut market = yes_no_market(&mut gs, 100, 0, 2 * HOUR);
    let mut pos = UserBet::blank();
    assert_eq!(
        place_bet(&mut market, &mut pos, U1, 0, 99, 10).unwrap_err(),
        ErrorCode::BetTooSmall
    );
    assert_eq!(market.total_pool, 0);
    assert_eq!(market.outcome_pools, vec![0, 0]);
    assert_eq!(pos.total_bet, 0);
    assert!(place_bet(&mut market, &mut pos, U1, 0, 100, 10).is_ok());
    assert_eq!(market.total_pool, 100);
}

#[test]
fn place_bet_rejects_bad_outcome_and_inactive_market() {
    let mut gs = fresh_config(200);
    let mut market = yes_no_market(&mut gs, 100, 0, 2 * HOUR);
    let mut pos = UserBet::blank();
    assert_eq!(
        place_bet(&mut market, &mut pos, U1, 2, 100, 10).unwrap_err(),
        ErrorCode::InvalidOutcome
    );
    place_bet(&mut market, &mut pos, U1, 0, 100, 10).unwrap();
    resolve_market(&gs, &mut market, ORACLE, 0, 2 * HOUR).unwrap();
    assert_eq!(
        place_bet(&mut market, &mut pos, U1, 0, 100, 10).unwrap_err(),
        ErrorCode::MarketNotActive
    );
}

#[test]
fn place_bet_overflow_leaves_state_unchanged() {
    let mut gs = fresh_config(200);
    let mut market = yes_no_market(&mut gs, 1, 0, 2 * HOUR);
    let mut pos1 = UserBet::blank();
    let mut pos2 = UserBet::blank();
    place_bet(&mut market, &mut pos1, U1, 0, u64::MAX, 10).unwrap();
    assert_eq!(market.total_pool, u64::MAX);
    assert_eq!(
        place_bet(&mut market, &mut pos2, U2, 1, 1, 10).unwrap_err(),
        ErrorCode::ArithmeticOverflow
    );
    assert_eq!(market.total_pool, u64::MAX);
    assert_eq!(market.outcome_pools, vec![u64::MAX, 0]);
    assert_eq!(pos2.user, 0);
    assert_eq!(pos2.total_bet, 0);
}

#[test]
fn resolve_market_sets_winner() {
    let mut gs = fresh_config(200);
    let mut market = yes_no_market(&mut gs, 100, 0, 2 * HOUR);
    let ev = resolve_market(&gs, &mut market, ORACLE, 1, 2 * HOUR).unwrap();
    assert_eq!(market.status, MarketStatus::Resolved);
    assert_eq!(market.winning_outcome, Some(1));
    assert_eq!(ev.market_id, market.id);
    assert_eq!(ev.winning_outcome, 1);
    assert_eq!(ev.resolver, ORACLE);
}

#[test]
fn resolve_market_accepts_platform_authority() {
    let mut gs = fresh_config(200);
    let mut market = yes_no_market(&mut gs, 100, 0, 2 * HOUR);
    assert!(resolve_market(&gs, &mut market, AUTHORITY, 0, 2 * HOUR).is_ok());
}

#[test]
fn resolve_market_rejects_strangers() {
    let mut gs = fresh_config(200);
    let mut market = yes_no_market(&mut gs, 100, 0, 2 * HOUR);
    assert_eq!(
        resolve_market(&gs, &mut market, U3, 0, 2 * HOUR).unwrap_err(),
        ErrorCode::UnauthorizedResolver
    );
    assert_eq!(market.status, MarketStatus::Active);
    assert_eq!(market.winning_outcome, None);
}

#[test]
fn resolve_market_rejects_early_and_bad_index() {
    let mut gs = fresh_config(200);
    let mut market = yes_no_market(&mut gs, 100, 0, 2 * HOUR);
    assert_eq!(
        resolve_market(&gs, &mut market, ORACLE, 0, 2 * HOUR - 1).unwrap_err(),
        ErrorCode::MarketNotExpired
    );
    assert_eq!(
        resolve_market(&gs, &mut market, ORACLE, 2, 2 * HOUR).unwrap_err(),
        ErrorCode::InvalidOutcome
    );
    assert_eq!(market.status, MarketStatus::Active);
}

#[test]
fn resolve_market_twice_fails_with_state_error() {
    let mut gs = fresh_config(200);
    let mut market = yes_no_market(&mut gs, 100, 0, 2 * HOUR);
    resolve_market(&gs, &mut market, ORACLE, 1, 2 * HOUR).unwrap();
    assert_eq!(
        resolve_market(&gs, &mut market, ORACLE, 0, 3 * HOUR).unwrap_err(),
        ErrorCode::MarketNotActive
    );
    assert_eq!(market.winning_outcome, Some(1));
    assert_eq!(market.status, MarketStatus::Resolved);
}

#[test]
fn scenario_two_users_fee_and_payout() {
    let mut gs = fresh_config(200);
    let mut market = yes_no_market(&mut gs, 100, 0, 2 * HOUR);
    let mut pos1 = UserBet::blank();
    let mut pos2 = UserBet::blank();
    place_bet(&mut market, &mut pos1, U1, 0, 100, 10).unwrap();
    place_bet(&mut market, &mut pos2, U2, 1, 300, 20).unwrap();
    resolve_market(&gs, &mut market, ORACLE, 0, 2 * HOUR).unwrap();
    assert_eq!(market.total_pool, 400);

    let ev = claim_winnings(&gs, &market, &mut pos1, U1).unwrap();
    assert_eq!(ev.amount, 392);
    assert_eq!(ev.user, U1);
    assert_eq!(ev.market_id, market.id);
    assert!(pos1.claimed);

    let fee_ev = collect_fees(&gs, &market, AUTHORITY).unwrap().unwrap();
    assert_eq!(fee_ev.amount, 8);
    assert_eq!(fee_ev.recipient, RECIPIENT);
    assert_eq!(fee_ev.market_id, market.id);
}

#[test]
fn claim_rejects_unresolved_wrong_user_and_losers() {
    let mut gs = fresh_config(200);
    let mut market = yes_no_market(&mut gs, 100, 0, 2 * HOUR);
    let mut pos1 = UserBet::blank();
    let mut pos2 = UserBet::blank();
    place_bet(&mut market, &mut pos1, U1, 0, 100, 10).unwrap();
    place_bet(&mut market, &mut pos2, U2, 1, 300, 20).unwrap();

    assert_eq!(
        claim_winnings(&gs, &market, &mut pos1, U1).unwrap_err(),
        ErrorCode::MarketNotResolved
    );
    resolve_market(&gs, &mut market, ORACLE, 0, 2 * HOUR).unwrap();
    assert_eq!(
        claim_winnings(&gs, &market, &mut pos1, U3).unwrap_err(),
        ErrorCode::UnauthorizedClaim
    );
    assert_eq!(
        claim_winnings(&gs, &market, &mut pos2, U2).unwrap_err(),
        ErrorCode::NoWinningBet
    );
    assert!(!pos2.claimed);
}

#[test]
fn claim_twice_fails_and_pays_once() {
    let mut gs = fresh_config(200);
    let mut market = yes_no_market(&mut gs, 100, 0, 2 * HOUR);
    let mut pos1 = UserBet::blank();
    let mut pos2 = UserBet::blank();
    place_bet(&mut market, &mut pos1, U1, 0, 100, 10).unwrap();
    place_bet(&mut market, &mut pos2, U2, 1, 300, 20).unwrap();
    resolve_market(&gs, &mut market, ORACLE, 0, 2 * HOUR).unwrap();
    claim_winnings(&gs, &market, &mut pos1, U1).unwrap();
    assert_eq!(
        claim_winnings(&gs, &market, &mut pos1, U1).unwrap_err(),
        ErrorCode::AlreadyClaimed
    );
    assert!(pos1.claimed);
}

#[test]
fn payouts_never_exceed_prize_pool() {
    let mut gs = fresh_config(300);
    let mut market = yes_no_market(&mut gs, 1, 0, 2 * HOUR);
    let mut pos1 = UserBet::blank();
    let mut pos2 = UserBet::blank();
    let mut pos3 = UserBet::blank();
    place_bet(&mut market, &mut pos1, U1, 0, 3, 10).unwrap();
    place_bet(&mut market, &mut pos2, U2, 0, 4, 20).unwrap();
    place_bet(&mut market, &mut pos3, U3, 1, 993, 30).unwrap();
    resolve_market(&gs, &mut market, ORACLE, 0, 2 * HOUR).unwrap();

    // total 1000, fee 3% = 30, prize 970, winning pool 7
    let a1 = claim_winnings(&gs, &market, &mut pos1, U1).unwrap().amount;
    let a2 = claim_winnings(&gs, &market, &mut pos2, U2).unwrap().amount;
    let fee = collect_fees(&gs, &market, AUTHORITY).unwrap().unwrap().amount;
    assert_eq!(fee, 30);
    assert_eq!(a1, 3 * 970 / 7);
    assert_eq!(a2, 4 * 970 / 7);
    assert!(a1 + a2 <= 970);
    assert!(a1 + a2 + fee <= market.total_pool);
}

#[test]
fn collect_fees_requires_authority_and_resolution() {
    let mut gs = fresh_config(200);
    let mut market = yes_no_market(&mut gs, 100, 0, 2 * HOUR);
    assert_eq!(
        collect_fees(&gs, &market, ORACLE).unwrap_err(),
        ErrorCode::UnauthorizedFeeCollection
    );
    assert_eq!(
        collect_fees(&gs, &market, AUTHORITY).unwrap_err(),
        ErrorCode::MarketNotResolved
    );
    resolve_market(&gs, &mut market, ORACLE, 0, 2 * HOUR).unwrap();
    // no stakes at all: the fee rounds to zero and nothing is owed
    assert!(collect_fees(&gs, &market, AUTHORITY).unwrap().is_none());
}

#[test]
fn close_market_cancels_active_market() {
    let mut gs = fresh_config(200);
    let mut market = yes_no_market(&mut gs, 100, 0, 2 * HOUR);
    assert_eq!(
        close_market(&gs, &mut market, ORACLE).unwrap_err(),
        ErrorCode::UnauthorizedMarketClose
    );
    let ev = close_market(&gs, &mut market, AUTHORITY).unwrap();
    assert_eq!(market.status, MarketStatus::Cancelled);
    assert_eq!(market.winning_outcome, None);
    assert_eq!(ev.market_id, market.id);
    assert_eq!(ev.authority, AUTHORITY);
    assert_eq!(
        close_market(&gs, &mut market, AUTHORITY).unwrap_err(),
        ErrorCode::MarketNotActive
    );
}

#[test]
fn cancelled_market_accepts_nothing() {
    let mut gs = fresh_config(200);
    let mut market = yes_no_market(&mut gs, 100, 0, 2 * HOUR);
    let mut pos = UserBet::blank();
    place_bet(&mut market, &mut pos, U1, 0, 100, 10).unwrap();
    close_market(&gs, &mut market, AUTHORITY).unwrap();
    assert_eq!(
        place_bet(&mut market, &mut pos, U1, 0, 100, 20).unwrap_err(),
        ErrorCode::MarketNotActive
    );
    assert_eq!(
        resolve_market(&gs, &mut market, ORACLE, 0, 2 * HOUR).unwrap_err(),
        ErrorCode::MarketNotActive
    );
    assert_eq!(
        claim_winnings(&gs, &market, &mut pos, U1).unwrap_err(),
        ErrorCode::MarketNotResolved
    );
}

#[test]
fn error_messages_are_descriptive() {
    assert_eq!(ErrorCode::BetTooSmall.message(), "Bet amount too small");
    assert_eq!(ErrorCode::AlreadyClaimed.message(), "Winnings already claimed");
    assert_eq!(ErrorCode::MarketNotExpired.message(), "Market has not expired yet");
}
