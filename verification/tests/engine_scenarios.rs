//! Scenarios for the forecasting engine: outcome derivation, late
//! resolution, and the guild cascade.

use predictive_manager::engine::{
    calculate_outcome_from_prices, get_daily_period_start, get_monthly_period_start,
    get_weekly_period_start,
};
use predictive_manager::types::{
    GameConfig, PredictionPeriod, PriceOutcome, ONE_DAY_MICROS, ONE_WEEK_MICROS,
};
use predictive_manager::PredictionMarketState;

const ADMIN: u64 = 900;
const CHAIN: u64 = 1;

fn fresh_state() -> PredictionMarketState {
    PredictionMarketState::instantiate(GameConfig::default(), Some(ADMIN), 1)
}

#[test]
fn test_outcome_rise() {
    assert_eq!(calculate_outcome_from_prices(100, 120), PriceOutcome::Rise);
}

#[test]
fn test_outcome_fall() {
    assert_eq!(calculate_outcome_from_prices(100, 80), PriceOutcome::Fall);
}

#[test]
fn test_outcome_neutral() {
    assert_eq!(calculate_outcome_from_prices(100, 100), PriceOutcome::Neutral);
}

#[test]
fn test_period_starts_round_down() {
    let t: u64 = 5 * ONE_DAY_MICROS + 123_456;
    assert_eq!(get_daily_period_start(t), 5 * ONE_DAY_MICROS);
    assert_eq!(get_weekly_period_start(t), 0);
    assert_eq!(get_monthly_period_start(t), 0);
    let w: u64 = 9 * ONE_WEEK_MICROS + 1;
    assert_eq!(get_weekly_period_start(w), 9 * ONE_WEEK_MICROS);
}

#[test]
fn test_predict_daily_outcome_success() {
    let mut s = fresh_state();
    s.register_player(7, Some("TestPlayer".to_string()), CHAIN, 10).unwrap();
    let d = s.predict_daily_outcome(7, PriceOutcome::Rise, CHAIN, 20).unwrap();
    assert_eq!(d.targets, vec![CHAIN]);
    let p = s.predictions.get(7, PredictionPeriod::Daily, 0).unwrap();
    assert!(!p.resolved);
    assert_eq!(p.correct, None);
    assert_eq!(p.outcome, PriceOutcome::Rise);
    // The window was created with the current price as its start snapshot.
    let w = s.period_prices.get(PredictionPeriod::Daily, 0).unwrap();
    assert_eq!(w.period_end, ONE_DAY_MICROS);
    assert!(w.start_price.is_some());
    assert!(w.end_price.is_none());
    assert!(!w.resolved);
}

#[test]
fn test_predict_daily_outcome_duplicate() {
    let mut s = fresh_state();
    s.register_player(7, None, CHAIN, 10).unwrap();
    s.predict_daily_outcome(7, PriceOutcome::Rise, CHAIN, 20).unwrap();
    let second = s.predict_daily_outcome(7, PriceOutcome::Fall, CHAIN, 30);
    assert!(second.is_err());
    // The first forecast stands untouched.
    let p = s.predictions.get(7, PredictionPeriod::Daily, 0).unwrap();
    assert_eq!(p.outcome, PriceOutcome::Rise);
}

#[test]
fn test_predict_weekly_outcome() {
    let mut s = fresh_state();
    s.register_player(7, None, CHAIN, 10).unwrap();
    s.predict_weekly_outcome(7, PriceOutcome::Fall, CHAIN, 20).unwrap();
    let p = s.predictions.get(7, PredictionPeriod::Weekly, 0).unwrap();
    assert_eq!(p.outcome, PriceOutcome::Fall);
    let w = s.period_prices.get(PredictionPeriod::Weekly, 0).unwrap();
    assert_eq!(w.period_end, ONE_WEEK_MICROS);
}

#[test]
fn test_predict_monthly_outcome() {
    let mut s = fresh_state();
    s.register_player(7, None, CHAIN, 10).unwrap();
    s.predict_monthly_outcome(7, PriceOutcome::Neutral, CHAIN, 20).unwrap();
    let p = s.predictions.get(7, PredictionPeriod::Monthly, 0).unwrap();
    assert_eq!(p.outcome, PriceOutcome::Neutral);
}

#[test]
fn test_multiple_period_predictions() {
    let mut s = fresh_state();
    s.register_player(7, None, CHAIN, 10).unwrap();
    s.predict_daily_outcome(7, PriceOutcome::Rise, CHAIN, 20).unwrap();
    s.predict_weekly_outcome(7, PriceOutcome::Fall, CHAIN, 21).unwrap();
    s.predict_monthly_outcome(7, PriceOutcome::Neutral, CHAIN, 22).unwrap();
    assert_eq!(s.predictions.len(), 3);
    assert_eq!(s.period_prices.len(), 3);
}

/// One price update after the daily window's end resolves daily correctly
/// (Rise predicted, price rose) and judges the weekly and monthly
/// forecasts wrong once their windows mature too.
#[test]
fn test_prediction_resolution_flow() {
    let mut s = fresh_state();
    s.register_player(7, Some("TestPlayer".to_string()), CHAIN, 10).unwrap();
    s.update_market_price(ADMIN, 50000, CHAIN, 100).unwrap();
    s.predict_daily_outcome(7, PriceOutcome::Rise, CHAIN, 200).unwrap();
    s.predict_weekly_outcome(7, PriceOutcome::Fall, CHAIN, 201).unwrap();
    s.predict_monthly_outcome(7, PriceOutcome::Neutral, CHAIN, 202).unwrap();
    assert_eq!(s.get_daily_outcome(7, 300).unwrap(), false);

    // One update after the daily boundary resolves the daily window only.
    let after_day: u64 = ONE_DAY_MICROS + 1000;
    s.update_market_price(ADMIN, 55000, CHAIN, after_day).unwrap();
    let daily = s.predictions.get(7, PredictionPeriod::Daily, 0).unwrap();
    assert!(daily.resolved);
    assert_eq!(daily.correct, Some(true));
    let weekly = s.predictions.get(7, PredictionPeriod::Weekly, 0).unwrap();
    assert!(!weekly.resolved);

    // An update after the weekly boundary judges the weekly forecast wrong.
    let after_week: u64 = ONE_WEEK_MICROS + 1000;
    s.update_market_price(ADMIN, 60000, CHAIN, after_week).unwrap();
    let weekly = s.predictions.get(7, PredictionPeriod::Weekly, 0).unwrap();
    assert!(weekly.resolved);
    assert_eq!(weekly.correct, Some(false));

    // And after the monthly boundary the neutral forecast is wrong too.
    let after_month: u64 = 31 * ONE_DAY_MICROS;
    s.update_market_price(ADMIN, 61000, CHAIN, after_month).unwrap();
    let monthly = s.predictions.get(7, PredictionPeriod::Monthly, 0).unwrap();
    assert!(monthly.resolved);
    assert_eq!(monthly.correct, Some(false));
}

/// The late-end-price scenario: the window opens with start price 50000,
/// no update arrives until an hour after the window's end, and that single
/// late update is what resolves it.
#[test]
fn test_late_end_price_resolution() {
    let mut s = fresh_state();
    s.register_player(7, None, CHAIN, 10).unwrap();
    s.update_market_price(ADMIN, 50000, CHAIN, 50).unwrap();
    s.predict_daily_outcome(7, PriceOutcome::Rise, CHAIN, 100).unwrap();
    let w = s.period_prices.get(PredictionPeriod::Daily, 0).unwrap();
    assert_eq!(w.start_price.unwrap().price, 50000);
    assert!(!w.resolved);

    // Nothing matures the window before its end passes.
    let hour: u64 = 60 * 60 * 1_000_000;
    let late: u64 = ONE_DAY_MICROS + hour;
    let p = s.predictions.get(7, PredictionPeriod::Daily, 0).unwrap();
    assert!(!p.resolved);

    // The single late update resolves it, with the late price as the end
    // snapshot.
    s.update_market_price(ADMIN, 55000, CHAIN, late).unwrap();
    let w = s.period_prices.get(PredictionPeriod::Daily, 0).unwrap();
    assert!(w.resolved);
    assert_eq!(w.start_price.unwrap().price, 50000);
    assert_eq!(w.end_price.unwrap().price, 55000);
    assert_eq!(w.outcome, Some(PriceOutcome::Rise));
    let p = s.predictions.get(7, PredictionPeriod::Daily, 0).unwrap();
    assert!(p.resolved);
    assert_eq!(p.correct, Some(true));
}

/// The guild cascade: a three-member guild and one member's correct daily
/// forecast pay the daily tier once to each member — the predictor is paid
/// once, not twice — and mint exactly three tiers into the supply.
#[test]
fn test_guild_cascade_reward() {
    let mut s = fresh_state();
    s.register_player(1, Some("Founder".to_string()), CHAIN, 10).unwrap();
    s.register_player(2, Some("Member2".to_string()), CHAIN, 11).unwrap();
    s.register_player(3, Some("Member3".to_string()), CHAIN, 12).unwrap();
    let (gid, _local, _global) = s.create_guild(1, "Test Guild".to_string(), CHAIN, 77).unwrap();
    s.join_guild(2, gid).unwrap();
    s.join_guild(3, gid).unwrap();

    s.update_market_price(ADMIN, 50000, CHAIN, 100).unwrap();
    s.predict_daily_outcome(1, PriceOutcome::Rise, CHAIN, 200).unwrap();

    let balance_before: Vec<u128> =
        vec![1, 2, 3].into_iter().map(|p| s.get_player(p).unwrap().token_balance).collect();
    let supply_before = s.get_total_supply();

    s.update_market_price(ADMIN, 55000, CHAIN, ONE_DAY_MICROS + 1).unwrap();

    // Each member's balance grew by exactly the daily tier, once.
    for (i, pid) in [1u64, 2, 3].iter().enumerate() {
        let after = s.get_player(*pid).unwrap().token_balance;
        assert_eq!(after, balance_before[i] + 100, "member {} balance", pid);
    }
    // The supply grew by exactly three tiers: one per member.
    assert_eq!(s.get_total_supply(), supply_before + 300);
}

/// A wrong forecast in a guild charges each member the tier, clamped at
/// zero, and never stops at a short balance.
#[test]
fn test_guild_cascade_penalty_clamps() {
    let mut s = fresh_state();
    s.register_player(1, None, CHAIN, 10).unwrap();
    s.register_player(2, None, CHAIN, 11).unwrap();
    let (gid, _l, _g) = s.create_guild(1, "Guild".to_string(), CHAIN, 77).unwrap();
    s.join_guild(2, gid).unwrap();
    // Drain member 2 below the daily tier: contribute 200 of the 250 held
    // (100 initial plus the 150 membership achievement bonus).
    s.contribute_to_guild(2, 200).unwrap();
    assert_eq!(s.get_player(2).unwrap().token_balance, 50);

    s.update_market_price(ADMIN, 50000, CHAIN, 100).unwrap();
    s.predict_daily_outcome(1, PriceOutcome::Fall, CHAIN, 200).unwrap();
    s.update_market_price(ADMIN, 55000, CHAIN, ONE_DAY_MICROS + 1).unwrap();

    // Member 1 paid the full tier; member 2 was clamped at zero.
    assert_eq!(s.get_player(1).unwrap().token_balance, 0);
    assert_eq!(s.get_player(2).unwrap().token_balance, 0);
    let p = s.predictions.get(1, PredictionPeriod::Daily, 0).unwrap();
    assert_eq!(p.correct, Some(false));
}

/// A guildless predictor is rewarded alone.
#[test]
fn test_solo_reward() {
    let mut s = fresh_state();
    s.register_player(1, None, CHAIN, 10).unwrap();
    s.update_market_price(ADMIN, 100, CHAIN, 20).unwrap();
    s.predict_daily_outcome(1, PriceOutcome::Rise, CHAIN, 30).unwrap();
    let supply_before = s.get_total_supply();
    s.update_market_price(ADMIN, 120, CHAIN, ONE_DAY_MICROS + 1).unwrap();
    assert_eq!(s.get_player(1).unwrap().token_balance, 200);
    assert_eq!(s.get_total_supply(), supply_before + 100);
    assert_eq!(s.get_daily_outcome(1, ONE_DAY_MICROS + 2).unwrap(), false);
    // The resolved window is immutable under further updates.
    let w_before = s.period_prices.get(PredictionPeriod::Daily, 0).unwrap();
    s.update_market_price(ADMIN, 90, CHAIN, ONE_DAY_MICROS + 5000).unwrap();
    let w_after = s.period_prices.get(PredictionPeriod::Daily, 0).unwrap();
    assert_eq!(w_before, w_after);
}

/// All three outcomes derive correctly through a full window each.
#[test]
fn test_all_prediction_outcomes() {
    // Rise.
    let mut s = fresh_state();
    s.register_player(1, None, CHAIN, 10).unwrap();
    s.update_market_price(ADMIN, 100, CHAIN, 20).unwrap();
    s.predict_daily_outcome(1, PriceOutcome::Rise, CHAIN, 30).unwrap();
    s.update_market_price(ADMIN, 120, CHAIN, ONE_DAY_MICROS + 1).unwrap();
    assert_eq!(
        s.period_prices.get(PredictionPeriod::Daily, 0).unwrap().outcome,
        Some(PriceOutcome::Rise)
    );

    // Fall.
    let mut s = fresh_state();
    s.register_player(1, None, CHAIN, 10).unwrap();
    s.update_market_price(ADMIN, 100, CHAIN, 20).unwrap();
    s.predict_daily_outcome(1, PriceOutcome::Fall, CHAIN, 30).unwrap();
    s.update_market_price(ADMIN, 80, CHAIN, ONE_DAY_MICROS + 1).unwrap();
    assert_eq!(
        s.period_prices.get(PredictionPeriod::Daily, 0).unwrap().outcome,
        Some(PriceOutcome::Fall)
    );
    assert_eq!(
        s.predictions.get(1, PredictionPeriod::Daily, 0).unwrap().correct,
        Some(true)
    );

    // Neutral.
    let mut s = fresh_state();
    s.register_player(1, None, CHAIN, 10).unwrap();
    s.update_market_price(ADMIN, 100, CHAIN, 20).unwrap();
    s.predict_daily_outcome(1, PriceOutcome::Neutral, CHAIN, 30).unwrap();
    s.update_market_price(ADMIN, 100, CHAIN, ONE_DAY_MICROS + 1).unwrap();
    assert_eq!(
        s.period_prices.get(PredictionPeriod::Daily, 0).unwrap().outcome,
        Some(PriceOutcome::Neutral)
    );
}

#[test]
fn test_update_market_price_unauthorized() {
    let mut s = fresh_state();
    s.register_player(1, None, CHAIN, 10).unwrap();
    let r = s.update_market_price(1, 50000, CHAIN, 20);
    assert!(r.is_err());
    assert_eq!(s.current_market_price.price, 0);
}
