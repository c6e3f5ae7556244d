//! Multi-shard runs driven through the operation entry point, with every
//! planned dispatch routed (and deliberately duplicated) between shards.

use predictive_manager::types::{GameConfig, Message, Operation, OutboundDispatch, PriceOutcome};
use predictive_manager::PredictionMarketState;

const ADMIN: u64 = 900;

struct Net {
    ids: Vec<u64>,
    states: Vec<PredictionMarketState>,
    queue: Vec<(u64, Message)>,
}

impl Net {
    fn new(ids: &[u64]) -> Net {
        Net {
            ids: ids.to_vec(),
            states: ids
                .iter()
                .map(|_| PredictionMarketState::instantiate(GameConfig::default(), Some(ADMIN), 1))
                .collect(),
            queue: Vec::new(),
        }
    }

    fn shard(&mut self, id: u64) -> &mut PredictionMarketState {
        let i = self.ids.iter().position(|x| *x == id).unwrap();
        &mut self.states[i]
    }

    fn run(&mut self, shard_id: u64, caller: u64, op: Operation, now: u64) {
        let (_r, ds) = self.shard(shard_id).execute_operation(caller, op, shard_id, now);
        self.push_dispatches(ds);
    }

    fn push_dispatches(&mut self, ds: Vec<OutboundDispatch>) {
        for d in ds {
            for t in &d.targets {
                self.queue.push((*t, d.message.clone()));
            }
        }
    }

    /// Deliver the queue, replaying every message once.
    fn deliver(&mut self, now: u64) {
        let pending = std::mem::take(&mut self.queue);
        for (target, m) in pending {
            if self.ids.contains(&target) {
                let copy = m.clone();
                self.shard(target).execute_message(m, now);
                self.shard(target).execute_message(copy, now + 1);
            }
        }
    }
}

/// Registrations and guild foundings on different shards converge into
/// every shard's global projections, despite duplicated deliveries.
#[test]
fn test_horizontal_scaling_cross_chain() {
    let mut net = Net::new(&[1, 2]);
    // Bootstrap: an operator introduces the shards to one another; from
    // then on registry growth rides on ordinary announcements.
    net.shard(1).execute_message(Message::ChainRegistered { chain_id: 2, timestamp: 50 }, 60);
    net.shard(2).execute_message(Message::ChainRegistered { chain_id: 1, timestamp: 50 }, 60);

    net.run(1, 11, Operation::RegisterPlayer { display_name: Some("Player1".to_string()) }, 100);
    net.run(2, 22, Operation::RegisterPlayer { display_name: Some("Player2".to_string()) }, 101);
    net.run(1, 11, Operation::CreateGuild { name: "Guild1".to_string() }, 300);
    net.run(2, 33, Operation::RegisterPlayer { display_name: Some("Player3".to_string()) }, 301);
    net.deliver(400);

    // Shard 2 learnt of shard 1's guild; shard 1 learnt of both remote
    // players, however often the messages were replayed.
    assert_eq!(net.shard(2).global_guilds.len(), 1);
    assert!(net.shard(2).global_guilds.get(300).is_some());
    assert_eq!(net.shard(1).global_players.get(33).unwrap().display_name.as_deref(),
        Some("Player3"));
    assert_eq!(net.shard(1).global_players.len(), 3);
    assert_eq!(net.shard(2).global_players.len(), 3);
}

/// A market created on one shard appears in the other shard's registry.
#[test]
fn test_cross_chain_market_creation() {
    let mut net = Net::new(&[1, 2]);
    net.shard(1).execute_message(Message::ChainRegistered { chain_id: 2, timestamp: 50 }, 60);
    net.shard(2).execute_message(Message::ChainRegistered { chain_id: 1, timestamp: 50 }, 60);
    net.run(1, 11, Operation::RegisterPlayer { display_name: Some("Trader1".to_string()) }, 100);
    net.run(2, 22, Operation::RegisterPlayer { display_name: Some("Trader2".to_string()) }, 101);
    net.deliver(200);
    // Hand the creator the standing a market needs, then create it.
    {
        let s = net.shard(1);
        let mut p = predictive_manager::types::Player {
            id: 11,
            display_name: Some("Trader1".to_string()),
            registration_time: 100,
            last_login: 100,
            token_balance: 20000,
            total_earned: 20000,
            total_spent: 0,
            level: 5,
            experience_points: 64000,
            reputation: 100,
            markets_participated: 0,
            markets_won: 0,
            total_profit: 0,
            win_streak: 0,
            best_win_streak: 0,
            guild_id: None,
            achievements_earned: Vec::new(),
            active_markets: Vec::new(),
        };
        p.last_login = 100;
        s.players.take(11);
        s.players.put(11, p);
    }
    net.run(1, 11, Operation::CreateMarket {
        title: "Rates".to_string(),
        amount: 1000,
        fee_percent: 5,
    }, 300);
    net.deliver(400);
    let remote = net.shard(2).global_markets.get(0).unwrap();
    assert_eq!(remote.title, "Rates");
    assert_eq!(remote.creator, 11);
    assert_eq!(remote.chain_id, 1);
}

/// One player's whole journey on a single shard, driven through the
/// operation entry point.
#[test]
fn test_complete_player_journey() {
    let mut net = Net::new(&[1]);
    net.run(1, 7, Operation::RegisterPlayer { display_name: Some("Starter".to_string()) }, 100);
    net.run(1, 7, Operation::UpdateProfile { display_name: Some("UpdatedName".to_string()) }, 200);
    net.run(1, 7, Operation::CreateGuild { name: "Solo".to_string() }, 300);
    net.run(1, ADMIN, Operation::UpdateMarketPrice { price: 100 }, 400);
    net.run(1, 7, Operation::PredictDailyOutcome { outcome: PriceOutcome::Rise }, 500);
    let day: u64 = 24 * 60 * 60 * 1_000_000;
    net.run(1, ADMIN, Operation::UpdateMarketPrice { price: 130 }, day + 1);
    net.run(1, 7, Operation::ClaimDailyReward, day + 200);

    let s = net.shard(1);
    let p = s.get_player(7).unwrap();
    assert_eq!(p.display_name.as_deref(), Some("UpdatedName"));
    // 100 initial + 100 daily tier (via the one-member guild cascade)
    // + 10 daily login reward.
    assert_eq!(p.token_balance, 210);
    assert_eq!(s.get_total_supply(), 210);
    assert!(s.leaderboard.top_traders.len() == 1);
}
