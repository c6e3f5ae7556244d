//! Cross-shard delivery scenarios: duplicate and reordered messages.

use predictive_manager::types::{
    GameConfig, Message, MessageId, MessageKind,
};
use predictive_manager::PredictionMarketState;

const ADMIN: u64 = 900;

fn fresh_state() -> PredictionMarketState {
    PredictionMarketState::instantiate(GameConfig::default(), Some(ADMIN), 1)
}

fn mid(kind: MessageKind, origin: u64, time: u64, payload: u64) -> MessageId {
    MessageId { kind, origin, time, payload }
}

fn registered(player_id: u64, name: &str, origin: u64, time: u64) -> Message {
    Message::GlobalPlayerRegistered {
        player_id,
        display_name: Some(name.to_string()),
        chain_id: origin,
        message_id: mid(MessageKind::PlayerRegistered, origin, time, player_id),
    }
}

fn updated(player_id: u64, earned: u128, profit: u128, level: u32, origin: u64, time: u64)
    -> Message {
    Message::GlobalPlayerUpdated {
        player_id,
        total_earned: earned,
        total_profit: profit,
        level,
        chain_id: origin,
        timestamp: time,
        message_id: mid(MessageKind::PlayerUpdated, origin, time, player_id),
    }
}

/// Two identical registration messages (same identity) leave exactly one
/// projection entry.
#[test]
fn test_duplicate_registration_message() {
    let mut s = fresh_state();
    s.execute_message(registered(7, "TestPlayer", 2, 500), 1000);
    s.execute_message(registered(7, "TestPlayer", 2, 500), 2000);
    assert_eq!(s.global_players.len(), 1);
    let g = s.global_players.get(7).unwrap();
    assert_eq!(g.display_name.as_deref(), Some("TestPlayer"));
    assert_eq!(g.total_earned, 0);
    assert_eq!(g.level, 1);
    // A registration seed carries logical time zero, so any real score
    // fact outranks it.
    assert_eq!(g.last_updated, 0);
}

/// A duplicated score fact applies once: the projection and even the
/// idempotency log are identical after the replay.
#[test]
fn test_duplicate_update_message() {
    let mut s = fresh_state();
    s.execute_message(registered(7, "P", 2, 500), 1000);
    let m = updated(7, 400, 50, 2, 2, 1500);
    s.execute_message(m, 2000);
    let len_after_first = s.processed_messages.len();
    let (earned1, last1) = {
        let g = s.global_players.get(7).unwrap();
        (g.total_earned, g.last_updated)
    };
    let m_again = updated(7, 400, 50, 2, 2, 1500);
    s.execute_message(m_again, 3000);
    let g2 = s.global_players.get(7).unwrap();
    assert_eq!(earned1, g2.total_earned);
    assert_eq!(last1, g2.last_updated);
    assert_eq!(s.processed_messages.len(), len_after_first);
    assert_eq!(g2.total_earned, 400);
    assert_eq!(g2.last_updated, 1500);
}

/// Duplicate market, guild, price and registry messages are all absorbed.
#[test]
fn test_duplicate_messages_all_fact_types() {
    let mut s = fresh_state();
    let market = |t: u64| Message::GlobalMarketCreated {
        market_id: 5,
        creator: 7,
        title: "M".to_string(),
        chain_id: 2,
        message_id: mid(MessageKind::MarketCreated, 2, t, 5),
    };
    let guild = |t: u64| Message::GlobalGuildCreated {
        guild_id: 9,
        name: "G".to_string(),
        founder: 7,
        chain_id: 2,
        message_id: mid(MessageKind::GuildCreated, 2, t, 9),
    };
    let price = |t: u64| Message::GlobalPriceUpdate {
        price: 50000,
        timestamp: t,
        chain_id: 2,
        message_id: mid(MessageKind::PriceUpdate, 2, t, 50000),
    };
    let chain = || Message::ChainRegistered { chain_id: 4, timestamp: 77 };

    s.execute_message(market(100), 1000);
    s.execute_message(market(100), 1001);
    assert_eq!(s.global_markets.len(), 1);

    s.execute_message(guild(100), 1002);
    s.execute_message(guild(100), 1003);
    assert_eq!(s.global_guilds.len(), 1);

    s.execute_message(price(100), 1004);
    s.execute_message(price(100), 1005);
    assert_eq!(s.current_market_price.price, 50000);
    assert_eq!(s.current_market_price.timestamp, 100);

    s.execute_message(chain(), 1006);
    s.execute_message(chain(), 1007);
    assert_eq!(s.subscribed_chains.len(), 1);
    assert_eq!(s.subscribed_chains.get(4), Some(&77));
}

/// Reconciliation commutes: two facts about one player applied in either
/// order land on the fact with the greater logical time.
#[test]
fn test_reconciliation_commutes() {
    let older = updated(7, 100, 10, 1, 2, 1500);
    let newer = updated(7, 900, 90, 3, 3, 1600);
    let older_again = updated(7, 100, 10, 1, 2, 1500);
    let newer_again = updated(7, 900, 90, 3, 3, 1600);

    let mut a = fresh_state();
    a.execute_message(registered(7, "P", 2, 500), 1000);
    a.execute_message(older, 2000);
    a.execute_message(newer, 2001);

    let mut b = fresh_state();
    b.execute_message(registered(7, "P", 2, 500), 1000);
    b.execute_message(newer_again, 2000);
    b.execute_message(older_again, 2001);

    let ga = a.global_players.get(7).unwrap();
    let gb = b.global_players.get(7).unwrap();
    assert_eq!(ga.total_earned, 900);
    assert_eq!(ga.total_profit, 90);
    assert_eq!(ga.level, 3);
    assert_eq!(ga.last_updated, 1600);
    assert_eq!(gb.total_earned, ga.total_earned);
    assert_eq!(gb.total_profit, ga.total_profit);
    assert_eq!(gb.level, ga.level);
    assert_eq!(gb.last_updated, ga.last_updated);
}

/// Convergence: three facts delivered to two shards in different orders
/// and with duplicates leave both shards' projections on the fact with the
/// globally maximal logical time.
#[test]
fn test_monotonic_convergence() {
    let f1 = || updated(7, 100, 10, 1, 2, 1500);
    let f2 = || updated(7, 500, 50, 2, 3, 1600);
    let f3 = || updated(7, 800, 80, 3, 2, 1700);

    let mut a = fresh_state();
    a.execute_message(registered(7, "P", 2, 500), 1000);
    for m in [f1(), f2(), f3(), f2(), f1()] {
        a.execute_message(m, 2000);
    }

    let mut b = fresh_state();
    b.execute_message(registered(7, "P", 2, 500), 999);
    for m in [f3(), f3(), f1(), f2(), f2(), f1()] {
        b.execute_message(m, 3000);
    }

    for s in [&a, &b] {
        let g = s.global_players.get(7).unwrap();
        assert_eq!(g.total_earned, 800);
        assert_eq!(g.total_profit, 80);
        assert_eq!(g.level, 3);
        assert_eq!(g.last_updated, 1700);
    }
}

/// A score fact arriving before the player's registration seeds the
/// projection from the fact itself; the late registration and a replay of
/// the fact change nothing, so the newest fact still wins.
#[test]
fn test_update_before_registration_converges() {
    let mut s = fresh_state();
    s.execute_message(updated(7, 400, 50, 2, 2, 1500), 1000);
    let g = s.global_players.get(7).unwrap();
    assert_eq!(g.total_earned, 400);
    assert_eq!(g.last_updated, 1500);
    s.execute_message(registered(7, "P", 2, 500), 2000);
    s.execute_message(updated(7, 400, 50, 2, 2, 1500), 3000);
    let g = s.global_players.get(7).unwrap();
    assert_eq!(g.total_earned, 400);
    assert_eq!(g.last_updated, 1500);
    assert_eq!(s.global_players.len(), 1);
}

/// A stale fact (older logical time) never regresses the projection.
#[test]
fn test_stale_fact_discarded() {
    let mut s = fresh_state();
    s.execute_message(registered(7, "P", 2, 500), 1000);
    s.execute_message(updated(7, 900, 90, 3, 3, 1600), 2000);
    s.execute_message(updated(7, 100, 10, 1, 2, 1500), 2001);
    let g = s.global_players.get(7).unwrap();
    assert_eq!(g.total_earned, 900);
    assert_eq!(g.last_updated, 1600);
    // An equal-time fact is discarded too: ties keep the stored value.
    s.execute_message(updated(7, 555, 55, 2, 4, 1600), 2002);
    let g = s.global_players.get(7).unwrap();
    assert_eq!(g.total_earned, 900);
}

/// A price fact with an older logical time is discarded.
#[test]
fn test_cross_chain_price_updates() {
    let mut s = fresh_state();
    let price = |v: u128, t: u64| Message::GlobalPriceUpdate {
        price: v,
        timestamp: t,
        chain_id: 2,
        message_id: mid(MessageKind::PriceUpdate, 2, t, v as u64),
    };
    s.execute_message(price(55000, 300), 1000);
    assert_eq!(s.current_market_price.price, 55000);
    s.execute_message(price(40000, 200), 1001);
    assert_eq!(s.current_market_price.price, 55000);
    s.execute_message(price(60000, 400), 1002);
    assert_eq!(s.current_market_price.price, 60000);
}

/// The fan-out of a local operation reaches every registered peer but the
/// local shard itself, and first use announces the local shard.
#[test]
fn test_broadcast_fanout() {
    let mut s = fresh_state();
    // Two peers are known, then the local shard registers itself.
    s.execute_message(Message::ChainRegistered { chain_id: 2, timestamp: 10 }, 100);
    s.execute_message(Message::ChainRegistered { chain_id: 3, timestamp: 11 }, 101);
    let d = s.ensure_chain_registered(1, 200).unwrap();
    assert_eq!(d.targets, vec![2, 3]);
    assert!(matches!(d.message, Message::ChainRegistered { chain_id: 1, timestamp: 200 }));
    // Re-registration is a no-op.
    assert!(s.ensure_chain_registered(1, 300).is_none());
    // A registration now fans out to both peers, not to the local shard.
    let out = s.register_player(7, None, 1, 400).unwrap();
    assert_eq!(out.targets, vec![2, 3]);
}

/// The cross-shard leaderboard follows reconciled projections.
#[test]
fn test_global_leaderboard_aggregation() {
    let mut s = fresh_state();
    s.execute_message(registered(7, "TopPlayer", 2, 500), 1000);
    s.execute_message(registered(8, "MidPlayer", 2, 501), 1001);
    s.execute_message(updated(7, 0, 900, 2, 2, 1500), 2000);
    s.execute_message(updated(8, 0, 400, 2, 2, 1501), 2001);
    let board = &s.global_leaderboard.top_traders;
    assert_eq!(board.len(), 2);
    assert_eq!(board[0].player_id, 7);
    assert_eq!(board[0].total_profit, 900);
    assert_eq!(board[1].player_id, 8);
}
