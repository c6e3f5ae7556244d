//! The shard-local state and its invariants.
//!
//! Everything a shard knows lives here: the local ledger (players, guilds,
//! markets), the forecasting state (windows, predictions, the current price
//! fact), and the cross-shard machinery (global projections, the chain
//! registry, the idempotency log). A state is well formed when every store
//! has unique keys and every guild lists each member once; every operation
//! of the library preserves `wf`.

use vstd::prelude::*;
use crate::table::{spec_find, Table};
use crate::store::{
    spec_find_pred, spec_find_window, spec_processed, PredictionStore, ProcessedStore,
    WindowStore,
};
use crate::types::{
    Achievement, AchievementId, AchievementRequirement, Amount, ChainId, ContractError,
    GameConfig, GlobalGuildInfo, GlobalMarketInfo, GlobalPlayerInfo, Guild, GuildId, Leaderboard,
    Market, MarketId, MarketPrice, OracleVoting, PeriodPriceData, Player, PlayerId,
    PlayerPrediction, PredictionPeriod, Timestamp,
};

verus! {

/// No identifier occurs twice.
pub open spec fn ids_distinct(s: Seq<u64>) -> bool {
    forall|i: int, j: int| 0 <= i < j < s.len() ==> #[trigger] s[i] != #[trigger] s[j]
}

/// The whole state of one shard.
pub struct PredictionMarketState {
    pub config: GameConfig,
    pub markets: Table<Market>,
    pub players: Table<Player>,
    pub leaderboard: Leaderboard,
    pub guilds: Table<Guild>,
    pub oracle_votes: Table<OracleVoting>,
    pub achievements: Table<Achievement>,
    pub total_supply: Amount,
    pub next_market_id: MarketId,
    pub predictions: PredictionStore,
    pub period_prices: WindowStore,
    pub current_market_price: MarketPrice,
    pub global_players: Table<GlobalPlayerInfo>,
    pub global_markets: Table<GlobalMarketInfo>,
    pub global_guilds: Table<GlobalGuildInfo>,
    pub global_leaderboard: Leaderboard,
    pub subscribed_chains: Table<Timestamp>,
    pub processed_messages: ProcessedStore,
}

impl PredictionMarketState {
    /// Every store keyed uniquely; every guild lists each member once and
    /// every market's position book is keyed uniquely.
    pub open spec fn wf(&self) -> bool {
        &&& self.markets.wf()
        &&& self.players.wf()
        &&& self.guilds.wf()
        &&& self.oracle_votes.wf()
        &&& self.achievements.wf()
        &&& self.predictions.wf()
        &&& self.period_prices.wf()
        &&& self.global_players.wf()
        &&& self.global_markets.wf()
        &&& self.global_guilds.wf()
        &&& self.subscribed_chains.wf()
        &&& forall|gid: u64|
            (#[trigger] spec_find(self.guilds@, gid)) is Some ==> ids_distinct(
                spec_find(self.guilds@, gid).unwrap().members@,
            )
        &&& forall|mid: u64|
            (#[trigger] spec_find(self.markets@, mid)) is Some ==> spec_find(
                self.markets@,
                mid,
            ).unwrap().positions.wf()
    }

    pub open spec fn spec_player(&self, pid: PlayerId) -> Option<Player> {
        spec_find(self.players@, pid)
    }

    pub open spec fn spec_guild(&self, gid: GuildId) -> Option<Guild> {
        spec_find(self.guilds@, gid)
    }

    pub open spec fn spec_market(&self, mid: MarketId) -> Option<Market> {
        spec_find(self.markets@, mid)
    }

    pub open spec fn spec_global_player(&self, pid: PlayerId) -> Option<GlobalPlayerInfo> {
        spec_find(self.global_players@, pid)
    }

    pub open spec fn spec_global_market(&self, mid: MarketId) -> Option<GlobalMarketInfo> {
        spec_find(self.global_markets@, mid)
    }

    pub open spec fn spec_global_guild(&self, gid: GuildId) -> Option<GlobalGuildInfo> {
        spec_find(self.global_guilds@, gid)
    }

    pub open spec fn spec_chain(&self, cid: ChainId) -> Option<Timestamp> {
        spec_find(self.subscribed_chains@, cid)
    }

    pub open spec fn spec_window(&self, period: PredictionPeriod, start: Timestamp) -> Option<
        PeriodPriceData,
    > {
        spec_find_window(self.period_prices@, period, start)
    }

    pub open spec fn spec_prediction(
        &self,
        pid: PlayerId,
        period: PredictionPeriod,
        start: Timestamp,
    ) -> Option<PlayerPrediction> {
        spec_find_pred(self.predictions@, pid, period, start)
    }

    pub open spec fn spec_is_processed(&self, id: crate::types::MessageId) -> bool {
        spec_processed(self.processed_messages@, id)
    }

    /// Is `caller` the configured admin?
    pub open spec fn spec_is_admin(&self, caller: PlayerId) -> bool {
        self.config.admin == Some(caller)
    }

    /// A fresh shard state: empty stores, the given configuration (with the
    /// deployer as admin when none is set), zero supply, and the standard
    /// achievement set seeded.
    pub fn instantiate(config: GameConfig, deployer: Option<PlayerId>, now: Timestamp) -> (s:
        PredictionMarketState)
        ensures
            s.wf(),
            s.config.admin == if config.admin is Some {
                config.admin
            } else {
                deployer
            },
            s.config.initial_player_tokens == config.initial_player_tokens,
            s.config.daily_login_reward == config.daily_login_reward,
            s.config.market_creation_cost == config.market_creation_cost,
            s.total_supply == 0,
            s.next_market_id == 0,
            s.players@.len() == 0,
            s.guilds@.len() == 0,
            s.markets@.len() == 0,
            s.predictions@.len() == 0,
            s.period_prices@.len() == 0,
            s.global_players@.len() == 0,
            s.global_markets@.len() == 0,
            s.global_guilds@.len() == 0,
            s.subscribed_chains@.len() == 0,
            s.processed_messages@.len() == 0,
            s.current_market_price == (MarketPrice { price: 0, timestamp: 0 }),
            s.leaderboard.top_traders@.len() == 0,
            s.leaderboard.top_guilds@.len() == 0,
            s.leaderboard.last_updated == now,
            s.achievements@.len() == 7,
            spec_achievement_is(s.achievements@, 1, 100, 200, AchievementRequirement::CreateMarket),
            spec_achievement_is(s.achievements@, 2, 50, 100, AchievementRequirement::FirstBuy),
            spec_achievement_is(s.achievements@, 3, 50, 100, AchievementRequirement::FirstSell),
            spec_achievement_is(s.achievements@, 4, 150, 300, AchievementRequirement::JoinGuild),
            spec_achievement_is(s.achievements@, 5, 200, 400, AchievementRequirement::ReachLevel(2)),
            spec_achievement_is(s.achievements@, 6, 400, 800, AchievementRequirement::ReachLevel(3)),
            spec_achievement_is(
                s.achievements@,
                7,
                1000,
                2000,
                AchievementRequirement::ReachLevel(5),
            ),
    {
        let mut config = config;
        if config.admin.is_none() {
            config.admin = deployer;
        }
        let mut achievements: Table<Achievement> = Table::new();
        initialize_achievements(&mut achievements);
        PredictionMarketState {
            config,
            markets: Table::new(),
            players: Table::new(),
            leaderboard: Leaderboard {
                top_traders: Vec::new(),
                top_guilds: Vec::new(),
                last_updated: now,
            },
            guilds: Table::new(),
            oracle_votes: Table::new(),
            achievements,
            total_supply: 0,
            next_market_id: 0,
            predictions: PredictionStore::new(),
            period_prices: WindowStore::new(),
            current_market_price: MarketPrice { price: 0, timestamp: 0 },
            global_players: Table::new(),
            global_markets: Table::new(),
            global_guilds: Table::new(),
            global_leaderboard: Leaderboard {
                top_traders: Vec::new(),
                top_guilds: Vec::new(),
                last_updated: now,
            },
            subscribed_chains: Table::new(),
            processed_messages: ProcessedStore::new(),
        }
    }

    pub fn get_player(&self, player_id: PlayerId) -> (r: Result<&Player, ContractError>)
        ensures
            match r {
                Ok(p) => self.spec_player(player_id) == Some(*p),
                Err(e) => self.spec_player(player_id) is None && e
                    == ContractError::PlayerNotFound,
            },
    {
        match self.players.get(player_id) {
            Some(p) => Ok(p),
            None => Err(ContractError::PlayerNotFound),
        }
    }

    pub fn get_market(&self, market_id: MarketId) -> (r: Result<&Market, ContractError>)
        ensures
            match r {
                Ok(m) => self.spec_market(market_id) == Some(*m),
                Err(e) => self.spec_market(market_id) is None && e
                    == ContractError::MarketNotFound,
            },
    {
        match self.markets.get(market_id) {
            Some(m) => Ok(m),
            None => Err(ContractError::MarketNotFound),
        }
    }
}

/// Does the table bind `id` to an achievement with exactly this bonus and
/// requirement?
pub open spec fn spec_achievement_is(
    s: Seq<(u64, Achievement)>,
    id: u64,
    reward_tokens: Amount,
    reward_xp: u64,
    requirement: AchievementRequirement,
) -> bool {
    match spec_find(s, id) {
        Some(a) => {
            &&& a.id == id
            &&& a.reward_tokens == reward_tokens
            &&& a.reward_xp == reward_xp
            &&& a.requirement == requirement
        },
        None => false,
    }
}

/// The standard achievement set, seeded at instantiation.
fn initialize_achievements(t: &mut Table<Achievement>)
    requires
        old(t).wf(),
        old(t)@.len() == 0,
    ensures
        final(t).wf(),
        final(t)@.len() == 7,
        forall|id: u64| 1 <= id <= 7 ==> spec_find(final(t)@, id) is Some,
        spec_achievement_is(final(t)@, 1, 100, 200, AchievementRequirement::CreateMarket),
        spec_achievement_is(final(t)@, 2, 50, 100, AchievementRequirement::FirstBuy),
        spec_achievement_is(final(t)@, 3, 50, 100, AchievementRequirement::FirstSell),
        spec_achievement_is(final(t)@, 4, 150, 300, AchievementRequirement::JoinGuild),
        spec_achievement_is(final(t)@, 5, 200, 400, AchievementRequirement::ReachLevel(2)),
        spec_achievement_is(final(t)@, 6, 400, 800, AchievementRequirement::ReachLevel(3)),
        spec_achievement_is(final(t)@, 7, 1000, 2000, AchievementRequirement::ReachLevel(5)),
{
    t.put(
        1,
        Achievement {
            id: 1,
            name: achievement_name(1),
            description: achievement_name(1),
            reward_tokens: 100,
            reward_xp: 200,
            requirement: AchievementRequirement::CreateMarket,
        },
    );
    t.put(
        2,
        Achievement {
            id: 2,
            name: achievement_name(2),
            description: achievement_name(2),
            reward_tokens: 50,
            reward_xp: 100,
            requirement: AchievementRequirement::FirstBuy,
        },
    );
    t.put(
        3,
        Achievement {
            id: 3,
            name: achievement_name(3),
            description: achievement_name(3),
            reward_tokens: 50,
            reward_xp: 100,
            requirement: AchievementRequirement::FirstSell,
        },
    );
    t.put(
        4,
        Achievement {
            id: 4,
            name: achievement_name(4),
            description: achievement_name(4),
            reward_tokens: 150,
            reward_xp: 300,
            requirement: AchievementRequirement::JoinGuild,
        },
    );
    t.put(
        5,
        Achievement {
            id: 5,
            name: achievement_name(5),
            description: achievement_name(5),
            reward_tokens: 200,
            reward_xp: 400,
            requirement: AchievementRequirement::ReachLevel(2),
        },
    );
    t.put(
        6,
        Achievement {
            id: 6,
            name: achievement_name(6),
            description: achievement_name(6),
            reward_tokens: 400,
            reward_xp: 800,
            requirement: AchievementRequirement::ReachLevel(3),
        },
    );
    t.put(
        7,
        Achievement {
            id: 7,
            name: achievement_name(7),
            description: achievement_name(7),
            reward_tokens: 1000,
            reward_xp: 2000,
            requirement: AchievementRequirement::ReachLevel(5),
        },
    );
    proof {
        assert forall|id: u64| 1 <= id <= 7 implies spec_find(final(t)@, id) is Some by {
        }
    }
}

fn achievement_name(id: AchievementId) -> (r: String)
    ensures
        id == 1 ==> r@ == "Market Creator"@,
        id == 2 ==> r@ == "First Buyer"@,
        id == 3 ==> r@ == "First Seller"@,
        id == 4 ==> r@ == "Guild Member"@,
        id == 5 ==> r@ == "Level 2 Achiever"@,
        id == 6 ==> r@ == "Level 3 Achiever"@,
        id == 7 ==> r@ == "Level 5 Achiever"@,
{
    match id {
        1 => "Market Creator".to_string(),
        2 => "First Buyer".to_string(),
        3 => "First Seller".to_string(),
        4 => "Guild Member".to_string(),
        5 => "Level 2 Achiever".to_string(),
        6 => "Level 3 Achiever".to_string(),
        7 => "Level 5 Achiever".to_string(),
        _ => "Achiever".to_string(),
    }
}

} // verus!
