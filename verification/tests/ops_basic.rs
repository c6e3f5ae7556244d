//! Account, guild and market operations: happy paths and every named
//! rejection.

use predictive_manager::progress::xp_threshold;
use predictive_manager::types::{
    ContractError, GameConfig, Operation, Player, PriceOutcome, ONE_DAY_MICROS,
};
use predictive_manager::PredictionMarketState;

const ADMIN: u64 = 900;
const CHAIN: u64 = 1;

fn fresh_state() -> PredictionMarketState {
    PredictionMarketState::instantiate(GameConfig::default(), Some(ADMIN), 1)
}

/// A hand-built account at the market-access level, for market tests.
fn seasoned_player(id: u64, balance: u128) -> Player {
    Player {
        id,
        display_name: None,
        registration_time: 1,
        last_login: 1,
        token_balance: balance,
        total_earned: balance,
        total_spent: 0,
        level: 5,
        experience_points: 64000,
        reputation: 100,
        markets_participated: 0,
        markets_won: 0,
        total_profit: 0,
        win_streak: 0,
        best_win_streak: 0,
        guild_id: None,
        achievements_earned: Vec::new(),
        active_markets: Vec::new(),
    }
}

#[test]
fn test_player_registration_success() {
    let mut s = fresh_state();
    let d = s.register_player(7, Some("TestPlayer".to_string()), CHAIN, 10).unwrap();
    assert!(d.targets.is_empty());
    let p = s.get_player(7).unwrap();
    assert_eq!(p.token_balance, 100);
    assert_eq!(p.total_earned, 100);
    assert_eq!(p.level, 1);
    assert_eq!(p.display_name.as_deref(), Some("TestPlayer"));
    assert_eq!(s.get_total_supply(), 100);
    // Registration also seeds the local global projection.
    assert_eq!(s.global_players.len(), 1);
}

#[test]
fn test_player_registration_duplicate() {
    let mut s = fresh_state();
    s.register_player(7, Some("TestPlayer".to_string()), CHAIN, 10).unwrap();
    let r = s.register_player(7, Some("Other".to_string()), CHAIN, 20);
    assert_eq!(r.err(), Some(ContractError::PlayerAlreadyExists));
    assert_eq!(s.get_total_supply(), 100);
    assert_eq!(s.get_player(7).unwrap().display_name.as_deref(), Some("TestPlayer"));
}

#[test]
fn test_player_registration_no_display_name() {
    let mut s = fresh_state();
    s.register_player(7, None, CHAIN, 10).unwrap();
    assert_eq!(s.get_player(7).unwrap().display_name, None);
}

#[test]
fn test_profile_update_success() {
    let mut s = fresh_state();
    s.register_player(7, Some("OriginalName".to_string()), CHAIN, 10).unwrap();
    s.update_player_profile(7, Some("UpdatedName".to_string())).unwrap();
    assert_eq!(s.get_player(7).unwrap().display_name.as_deref(), Some("UpdatedName"));
}

#[test]
fn test_profile_update_unregistered() {
    let mut s = fresh_state();
    let r = s.update_player_profile(7, Some("NewName".to_string()));
    assert_eq!(r.err(), Some(ContractError::PlayerNotFound));
}

#[test]
fn test_daily_reward_success() {
    let mut s = fresh_state();
    s.register_player(7, None, CHAIN, 10).unwrap();
    s.claim_daily_reward(7, 10 + ONE_DAY_MICROS).unwrap();
    assert_eq!(s.get_player(7).unwrap().token_balance, 110);
    assert_eq!(s.get_total_supply(), 110);
}

#[test]
fn test_daily_reward_unregistered() {
    let mut s = fresh_state();
    let r = s.claim_daily_reward(7, ONE_DAY_MICROS);
    assert_eq!(r.err(), Some(ContractError::PlayerNotFound));
}

#[test]
fn test_daily_reward_cooldown() {
    let mut s = fresh_state();
    s.register_player(7, None, CHAIN, 10).unwrap();
    let r = s.claim_daily_reward(7, 10 + ONE_DAY_MICROS - 1);
    assert_eq!(r.err(), Some(ContractError::DailyRewardAlreadyClaimed));
    assert_eq!(s.get_player(7).unwrap().token_balance, 100);
}

#[test]
fn test_mint_points_unauthorized() {
    let mut s = fresh_state();
    s.register_player(7, None, CHAIN, 10).unwrap();
    let r = s.mint_points(7, 1000);
    assert_eq!(r.err(), Some(ContractError::NotAdmin));
    assert_eq!(s.get_total_supply(), 100);
}

#[test]
fn test_mint_points_admin() {
    let mut s = fresh_state();
    s.mint_points(ADMIN, 1000).unwrap();
    assert_eq!(s.get_total_supply(), 1000);
}

#[test]
fn test_update_config_unauthorized() {
    let mut s = fresh_state();
    s.register_player(7, None, CHAIN, 10).unwrap();
    let mut cfg = GameConfig::default();
    cfg.daily_login_reward = 2000;
    let r = s.update_game_config(7, cfg);
    assert_eq!(r.err(), Some(ContractError::NotAdmin));
    assert_eq!(s.config.daily_login_reward, 10);
}

#[test]
fn test_guild_creation_success() {
    let mut s = fresh_state();
    s.register_player(7, None, CHAIN, 10).unwrap();
    let (gid, local, _global) = s.create_guild(7, "Test Guild".to_string(), CHAIN, 42).unwrap();
    assert_eq!(gid, 42);
    assert_eq!(local.targets, vec![CHAIN]);
    let g = s.guilds.get(gid).unwrap();
    assert_eq!(g.name, "Test Guild");
    assert_eq!(g.founder, 7);
    assert_eq!(g.members, vec![7]);
    assert_eq!(s.get_player(7).unwrap().guild_id, Some(gid));
}

#[test]
fn test_guild_creation_already_in_guild() {
    let mut s = fresh_state();
    s.register_player(7, None, CHAIN, 10).unwrap();
    s.create_guild(7, "First Guild".to_string(), CHAIN, 42).unwrap();
    let r = s.create_guild(7, "Second Guild".to_string(), CHAIN, 43);
    assert_eq!(r.err(), Some(ContractError::AlreadyInGuild));
}

#[test]
fn test_join_guild_nonexistent() {
    let mut s = fresh_state();
    s.register_player(7, None, CHAIN, 10).unwrap();
    let r = s.join_guild(7, 99999);
    assert_eq!(r.err(), Some(ContractError::GuildNotFound));
}

#[test]
fn test_join_guild_already_in_guild() {
    let mut s = fresh_state();
    s.register_player(7, None, CHAIN, 10).unwrap();
    s.register_player(8, None, CHAIN, 11).unwrap();
    let (gid, _l, _g) = s.create_guild(7, "My Guild".to_string(), CHAIN, 42).unwrap();
    s.join_guild(8, gid).unwrap();
    let r = s.join_guild(8, gid);
    assert_eq!(r.err(), Some(ContractError::AlreadyInGuild));
    // Joining grants the membership achievement exactly once.
    assert_eq!(s.get_player(8).unwrap().token_balance, 250);
}

#[test]
fn test_leave_guild_not_member() {
    let mut s = fresh_state();
    s.register_player(7, None, CHAIN, 10).unwrap();
    let r = s.leave_guild(7);
    assert_eq!(r.err(), Some(ContractError::NotGuildMember));
}

#[test]
fn test_leave_guild_success() {
    let mut s = fresh_state();
    s.register_player(7, None, CHAIN, 10).unwrap();
    s.register_player(8, None, CHAIN, 11).unwrap();
    let (gid, _l, _g) = s.create_guild(7, "Guild".to_string(), CHAIN, 42).unwrap();
    s.join_guild(8, gid).unwrap();
    s.leave_guild(8).unwrap();
    assert_eq!(s.guilds.get(gid).unwrap().members, vec![7]);
    assert_eq!(s.get_player(8).unwrap().guild_id, None);
}

#[test]
fn test_contribute_to_guild_not_member() {
    let mut s = fresh_state();
    s.register_player(7, None, CHAIN, 10).unwrap();
    let r = s.contribute_to_guild(7, 100);
    assert_eq!(r.err(), Some(ContractError::NotGuildMember));
}

#[test]
fn test_contribute_to_guild_insufficient_balance() {
    let mut s = fresh_state();
    s.register_player(7, None, CHAIN, 10).unwrap();
    let (gid, _l, _g) = s.create_guild(7, "Guild".to_string(), CHAIN, 42).unwrap();
    let r = s.contribute_to_guild(7, 1000000);
    assert_eq!(r.err(), Some(ContractError::InsufficientBalance));
    assert_eq!(s.guilds.get(gid).unwrap().shared_pool, 0);
}

#[test]
fn test_contribute_to_guild_success() {
    let mut s = fresh_state();
    s.register_player(7, None, CHAIN, 10).unwrap();
    let (gid, _l, _g) = s.create_guild(7, "Guild".to_string(), CHAIN, 42).unwrap();
    s.contribute_to_guild(7, 60).unwrap();
    assert_eq!(s.guilds.get(gid).unwrap().shared_pool, 60);
    assert_eq!(s.get_player(7).unwrap().token_balance, 40);
}

#[test]
fn test_market_creation_insufficient_level() {
    let mut s = fresh_state();
    s.register_player(7, None, CHAIN, 10).unwrap();
    let r = s.create_market(7, "Test Market".to_string(), 1000, 5, CHAIN, 20);
    assert_eq!(r.err(), Some(ContractError::InsufficientLevel));
}

#[test]
fn test_market_creation_insufficient_balance() {
    let mut s = fresh_state();
    s.players.put(7, seasoned_player(7, 50));
    let r = s.create_market(7, "Expensive Market".to_string(), 1000, 5, CHAIN, 20);
    assert_eq!(r.err(), Some(ContractError::InsufficientBalance));
}

#[test]
fn test_market_creation_invalid_fee() {
    let mut s = fresh_state();
    s.players.put(7, seasoned_player(7, 20000));
    let r = s.create_market(7, "Invalid Fee Market".to_string(), 1000, 150, CHAIN, 20);
    assert_eq!(r.err(), Some(ContractError::InvalidOutcome));
}

#[test]
fn test_market_creation_success() {
    let mut s = fresh_state();
    s.players.put(7, seasoned_player(7, 20000));
    let ds = s.create_market(7, "Test Market".to_string(), 1000, 10, CHAIN, 20).unwrap();
    assert_eq!(ds.len(), 2);
    let m = s.markets.get(0).unwrap();
    assert_eq!(m.title, "Test Market");
    assert_eq!(m.total_liquidity, 1000);
    assert_eq!(m.fee_percent, 10);
    assert_eq!(s.next_market_id, 1);
    // The creation cost left the creator and entered the supply; the
    // first-market achievement paid its bonus back.
    let p = s.get_player(7).unwrap();
    assert_eq!(p.total_spent, 100);
    assert!(p.active_markets.contains(&0));
    assert_eq!(s.get_total_supply(), 100);
}

#[test]
fn test_buy_shares_success() {
    let mut s = fresh_state();
    s.players.put(5, seasoned_player(5, 20000));
    s.create_market(5, "M".to_string(), 1000, 10, CHAIN, 20).unwrap();
    s.register_player(7, None, CHAIN, 30).unwrap();
    // Buy 100 points: pay 10 base + 1 fee, receive 100; the first-buy and
    // first-sale achievements (50 points each) land immediately.
    s.buy_shares(7, 0, 100, CHAIN, 40).unwrap();
    let p = s.get_player(7).unwrap();
    assert_eq!(p.token_balance, 100 - 11 + 100 + 50 + 50);
    assert_eq!(p.total_spent, 11);
    assert!(p.achievements_earned.contains(&2));
    assert_eq!(s.markets.get(0).unwrap().total_liquidity, 900);
    assert_eq!(s.markets.get(0).unwrap().total_participants, 1);
}

#[test]
fn test_buy_shares_insufficient_balance() {
    let mut s = fresh_state();
    s.players.put(5, seasoned_player(5, 20000));
    s.create_market(5, "M".to_string(), 1000000, 10, CHAIN, 20).unwrap();
    s.register_player(7, None, CHAIN, 30).unwrap();
    let r = s.buy_shares(7, 0, 100000, CHAIN, 40);
    assert_eq!(r.err(), Some(ContractError::InsufficientBalance));
}

#[test]
fn test_buy_shares_nonexistent_market() {
    let mut s = fresh_state();
    s.register_player(7, None, CHAIN, 30).unwrap();
    let r = s.buy_shares(7, 99999, 50, CHAIN, 40);
    assert_eq!(r.err(), Some(ContractError::MarketNotFound));
}

#[test]
fn test_sell_shares_insufficient_level() {
    let mut s = fresh_state();
    s.players.put(5, seasoned_player(5, 20000));
    s.create_market(5, "M".to_string(), 1000, 10, CHAIN, 20).unwrap();
    s.register_player(7, None, CHAIN, 30).unwrap();
    let r = s.sell_shares(7, 0, 10, CHAIN, 40);
    assert_eq!(r.err(), Some(ContractError::InsufficientLevel));
}

#[test]
fn test_sell_shares_insufficient_balance() {
    let mut s = fresh_state();
    s.players.put(5, seasoned_player(5, 20000));
    s.create_market(5, "M".to_string(), 1000, 10, CHAIN, 20).unwrap();
    s.players.put(8, seasoned_player(8, 10));
    let r = s.sell_shares(8, 0, 100000, CHAIN, 40);
    assert_eq!(r.err(), Some(ContractError::InsufficientBalance));
}

#[test]
fn test_sell_shares_nonexistent_market() {
    let mut s = fresh_state();
    s.players.put(8, seasoned_player(8, 1000));
    let r = s.sell_shares(8, 99999, 10, CHAIN, 40);
    assert_eq!(r.err(), Some(ContractError::MarketNotFound));
}

#[test]
fn test_sell_shares_success() {
    let mut s = fresh_state();
    s.players.put(5, seasoned_player(5, 20000));
    s.create_market(5, "M".to_string(), 1000, 10, CHAIN, 20).unwrap();
    s.players.put(8, seasoned_player(8, 1000));
    // Sell 100: fee 10, market gains 90; the seller pays the full 100 and
    // then collects every newly qualified achievement at once (first buy
    // and sale: 50 + 50; level two, three and five: 200 + 400 + 1000).
    s.sell_shares(8, 0, 100, CHAIN, 40).unwrap();
    assert_eq!(s.get_player(8).unwrap().token_balance, 900 + 1700);
    assert_eq!(s.markets.get(0).unwrap().total_liquidity, 1090);
}

#[test]
fn test_execute_operation_dispatch() {
    let mut s = fresh_state();
    let (r, ds) = s.execute_operation(
        7,
        Operation::RegisterPlayer { display_name: Some("TestPlayer".to_string()) },
        CHAIN,
        10,
    );
    r.unwrap();
    // First use registered the local shard (no peers yet, so the shard
    // announcement and the registration fan out to nobody).
    assert!(s.subscribed_chains.get(CHAIN).is_some());
    assert_eq!(ds.len(), 2);
    assert_eq!(s.get_player(7).unwrap().token_balance, 100);
    let (r2, _ds2) = s.execute_operation(
        7,
        Operation::PredictDailyOutcome { outcome: PriceOutcome::Rise },
        CHAIN,
        20,
    );
    r2.unwrap();
    assert!(s.predictions.get(7, predictive_manager::types::PredictionPeriod::Daily, 0).is_some());
}

#[test]
fn test_zero_amounts() {
    let mut s = fresh_state();
    s.register_player(7, None, CHAIN, 10).unwrap();
    let (gid, _l, _g) = s.create_guild(7, "G".to_string(), CHAIN, 42).unwrap();
    s.contribute_to_guild(7, 0).unwrap();
    assert_eq!(s.guilds.get(gid).unwrap().shared_pool, 0);
    assert_eq!(s.get_player(7).unwrap().token_balance, 100);
    s.mint_points(ADMIN, 0).unwrap();
    assert_eq!(s.get_total_supply(), 100);
}

#[test]
fn test_maximum_values() {
    let mut s = fresh_state();
    s.mint_points(ADMIN, u128::MAX).unwrap();
    assert_eq!(s.get_total_supply(), u128::MAX);
    // Minting past the maximum saturates instead of wrapping.
    s.mint_points(ADMIN, 1).unwrap();
    assert_eq!(s.get_total_supply(), u128::MAX);
}

#[test]
fn test_empty_strings() {
    let mut s = fresh_state();
    s.register_player(7, Some(String::new()), CHAIN, 10).unwrap();
    assert_eq!(s.get_player(7).unwrap().display_name.as_deref(), Some(""));
    let (gid, _l, _g) = s.create_guild(7, String::new(), CHAIN, 42).unwrap();
    assert_eq!(s.guilds.get(gid).unwrap().name, "");
}

#[test]
fn test_long_strings() {
    let mut s = fresh_state();
    let name: String = "x".repeat(1000);
    s.register_player(7, Some(name.clone()), CHAIN, 10).unwrap();
    assert_eq!(s.get_player(7).unwrap().display_name.as_deref(), Some(name.as_str()));
}

#[test]
fn test_query_surface() {
    let mut s = fresh_state();
    s.register_player(7, Some("TestPlayer".to_string()), CHAIN, 10).unwrap();
    s.register_player(8, None, CHAIN, 11).unwrap();
    let (gid, _l, _g) = s.create_guild(7, "Test Guild".to_string(), CHAIN, 42).unwrap();
    s.join_guild(8, gid).unwrap();
    assert_eq!(s.player_total_points(7).unwrap(), 100);
    // Founder earned 100; the joiner earned 100 plus the 150 membership
    // bonus.
    assert_eq!(s.guild_total_points(gid).unwrap(), 100 + 250);
    assert_eq!(s.all_guilds().len(), 1);
    assert_eq!(s.guild_members(gid).unwrap().len(), 2);
    assert_eq!(
        s.player_total_points(99).err(),
        Some(ContractError::PlayerNotFound)
    );
    assert_eq!(
        s.guild_total_points(99).err(),
        Some(ContractError::GuildNotFound)
    );
}

/// Twenty correct daily forecasts earn 1000 experience, cross the first
/// level threshold, and trigger the level-two achievement bonus.
#[test]
fn test_leveling_progression() {
    let mut s = fresh_state();
    s.register_player(7, None, CHAIN, 1).unwrap();
    for d in 0u64..21 {
        let t = d * ONE_DAY_MICROS;
        s.update_market_price(ADMIN, 100 + d as u128, CHAIN, t + 10).unwrap();
        if d < 20 {
            s.predict_daily_outcome(7, PriceOutcome::Rise, CHAIN, t + 20).unwrap();
        }
    }
    let p = s.get_player(7).unwrap();
    assert_eq!(p.level, 2);
    assert_eq!(p.experience_points, 20 * 50 + 400);
    assert_eq!(p.token_balance, 100 + 20 * 100 + 200);
    assert!(p.achievements_earned.contains(&5));
    assert_eq!(s.get_total_supply(), 100 + 20 * 100);
}

#[test]
fn test_xp_thresholds() {
    assert_eq!(xp_threshold(1), 1000);
    assert_eq!(xp_threshold(2), 4000);
    assert_eq!(xp_threshold(3), 16000);
    assert_eq!(xp_threshold(5), 256000);
}

#[test]
fn test_leaderboard_ranking() {
    let mut s = fresh_state();
    s.register_player(1, Some("A".to_string()), CHAIN, 10).unwrap();
    s.register_player(2, Some("B".to_string()), CHAIN, 11).unwrap();
    // A correct solo forecast lifts player 2 above player 1 and rebuilds
    // the board.
    s.update_market_price(ADMIN, 100, CHAIN, 20).unwrap();
    s.predict_daily_outcome(2, PriceOutcome::Rise, CHAIN, 30).unwrap();
    s.update_market_price(ADMIN, 120, CHAIN, ONE_DAY_MICROS + 1).unwrap();
    let board = &s.leaderboard.top_traders;
    assert_eq!(board[0].player_id, 2);
    assert_eq!(board[0].total_profit, 200);
    assert_eq!(board[1].player_id, 1);
}
