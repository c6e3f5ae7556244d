//! The data model of the game, on plain values.
//!
//! A shard is identified by a `ChainId`, a player by a `PlayerId`, and every
//! logical clock reading is a `Timestamp` in microseconds. Point balances are
//! `Amount`s; all balance arithmetic saturates, so no operation can overflow
//! or drive a balance negative.

use vstd::prelude::*;
use crate::table::Table;

verus! {

pub type MarketId = u64;

pub type PlayerId = u64;

pub type OutcomeId = u32;

pub type GuildId = u64;

pub type AchievementId = u32;

pub type ChainId = u64;

/// A logical clock reading, in microseconds.
pub type Timestamp = u64;

/// A quantity of points.
pub type Amount = u128;

pub const ONE_DAY_MICROS: u64 = 24 * 60 * 60 * 1000000;

pub const ONE_WEEK_MICROS: u64 = 7 * 24 * 60 * 60 * 1000000;

pub const ONE_MONTH_MICROS: u64 = 30 * 24 * 60 * 60 * 1000000;

pub open spec fn spec_sat_add(a: Amount, b: Amount) -> Amount {
    if a + b > u128::MAX {
        u128::MAX
    } else {
        (a + b) as Amount
    }
}

pub open spec fn spec_sat_sub(a: Amount, b: Amount) -> Amount {
    if a >= b {
        (a - b) as Amount
    } else {
        0
    }
}

pub open spec fn spec_sat_add64(a: u64, b: u64) -> u64 {
    if a + b > u64::MAX {
        u64::MAX
    } else {
        (a + b) as u64
    }
}

pub fn sat_add(a: Amount, b: Amount) -> (r: Amount)
    ensures
        r == spec_sat_add(a, b),
{
    if a > u128::MAX - b {
        u128::MAX
    } else {
        a + b
    }
}

pub fn sat_sub(a: Amount, b: Amount) -> (r: Amount)
    ensures
        r == spec_sat_sub(a, b),
{
    if a >= b {
        a - b
    } else {
        0
    }
}

pub open spec fn spec_sat_mul(a: Amount, b: Amount) -> Amount {
    if a * b > u128::MAX {
        u128::MAX
    } else {
        (a * b) as Amount
    }
}

pub fn sat_mul(a: Amount, b: Amount) -> (r: Amount)
    ensures
        r == spec_sat_mul(a, b),
{
    match a.checked_mul(b) {
        Some(x) => x,
        None => u128::MAX,
    }
}

pub open spec fn spec_sat_sub64(a: u64, b: u64) -> u64 {
    if a >= b {
        (a - b) as u64
    } else {
        0
    }
}

pub fn sat_sub64(a: u64, b: u64) -> (r: u64)
    ensures
        r == spec_sat_sub64(a, b),
{
    if a >= b {
        a - b
    } else {
        0
    }
}

pub fn sat_add64(a: u64, b: u64) -> (r: u64)
    ensures
        r == spec_sat_add64(a, b),
{
    if a > u64::MAX - b {
        u64::MAX
    } else {
        a + b
    }
}

/// Game-wide parameters. The admin account is the only caller allowed to
/// mint points, change the configuration or feed oracle prices.
pub struct GameConfig {
    pub admin: Option<PlayerId>,
    pub initial_player_tokens: Amount,
    pub daily_login_reward: Amount,
    pub market_creation_cost: Amount,
    pub min_market_duration_seconds: u64,
    pub max_outcomes_per_market: usize,
    pub oracle_voting_duration_seconds: u64,
    pub min_oracle_voters: u32,
    pub market_creator_fee_percent: u8,
    pub platform_fee_percent: u8,
}

impl Default for GameConfig {
    fn default() -> (c: GameConfig)
        ensures
            c.admin is None,
            c.initial_player_tokens == 100,
            c.daily_login_reward == 10,
            c.market_creation_cost == 100,
            c.min_market_duration_seconds == 300,
            c.max_outcomes_per_market == 10,
            c.oracle_voting_duration_seconds == 3600,
            c.min_oracle_voters == 3,
            c.market_creator_fee_percent == 2,
            c.platform_fee_percent == 1,
    {
        GameConfig {
            admin: None,
            initial_player_tokens: 100,
            daily_login_reward: 10,
            market_creation_cost: 100,
            min_market_duration_seconds: 300,
            max_outcomes_per_market: 10,
            oracle_voting_duration_seconds: 3600,
            min_oracle_voters: 3,
            market_creator_fee_percent: 2,
            platform_fee_percent: 1,
        }
    }
}

#[derive(Clone, Copy, PartialEq, Eq, Structural, Debug)]
pub enum MarketStatus {
    Active,
    Closed,
    Resolved,
    Cancelled,
}

#[derive(Clone, Copy, PartialEq, Eq, Structural, Debug)]
pub enum ResolutionMethod {
    OracleVoting,
    Automated,
    CreatorDecides,
}

pub enum MarketType {
    QuickPrediction,
    TournamentMarket,
    SeasonalEvent,
    PvPChallenge { challenger: PlayerId, challenged: PlayerId },
}

pub struct Outcome {
    pub id: OutcomeId,
    pub name: String,
    pub total_shares: Amount,
    pub current_price: Amount,
}

/// A player's stake in one market; keyed by outcome identifier.
pub struct PlayerPosition {
    pub shares_by_outcome: Table<Amount>,
    pub total_invested: Amount,
    pub entry_time: Timestamp,
}

/// A point-trading market offered by a player.
pub struct Market {
    pub id: MarketId,
    pub creator: PlayerId,
    pub title: String,
    pub amount: Amount,
    pub fee_percent: u8,
    pub creation_time: Timestamp,
    pub status: MarketStatus,
    pub total_liquidity: Amount,
    pub positions: Table<PlayerPosition>,
    pub total_participants: u64,
}

/// A registered player's shard-local account.
pub struct Player {
    pub id: PlayerId,
    pub display_name: Option<String>,
    pub registration_time: Timestamp,
    pub last_login: Timestamp,
    pub token_balance: Amount,
    pub total_earned: Amount,
    pub total_spent: Amount,
    pub level: u32,
    pub experience_points: u64,
    pub reputation: u64,
    pub markets_participated: u64,
    pub markets_won: u64,
    pub total_profit: Amount,
    pub win_streak: u32,
    pub best_win_streak: u32,
    pub guild_id: Option<GuildId>,
    pub achievements_earned: Vec<AchievementId>,
    pub active_markets: Vec<MarketId>,
}

/// One ranked row of the player leaderboard.
pub struct LeaderboardEntry {
    pub player_id: PlayerId,
    pub display_name: Option<String>,
    pub total_profit: Amount,
    pub level: u32,
}

/// One ranked row of the guild leaderboard.
pub struct GuildLeaderboardEntry {
    pub guild_id: GuildId,
    pub name: String,
    pub total_profit: Amount,
    pub member_count: u32,
}

/// Ranked views over the projection stores, rebuilt in full after any event
/// that can change a rank.
pub struct Leaderboard {
    pub top_traders: Vec<LeaderboardEntry>,
    pub top_guilds: Vec<GuildLeaderboardEntry>,
    pub last_updated: Timestamp,
}

impl Default for Leaderboard {
    fn default() -> (l: Leaderboard)
        ensures
            l.top_traders@ =~= Seq::<LeaderboardEntry>::empty(),
            l.top_guilds@ =~= Seq::<GuildLeaderboardEntry>::empty(),
            l.last_updated == 0,
    {
        Leaderboard { top_traders: Vec::new(), top_guilds: Vec::new(), last_updated: 0 }
    }
}

/// A social group; a resolved prediction of any member cascades the same
/// reward or penalty to every member.
pub struct Guild {
    pub id: GuildId,
    pub name: String,
    pub founder: PlayerId,
    pub members: Vec<PlayerId>,
    pub creation_time: Timestamp,
    pub total_guild_profit: Amount,
    pub guild_level: u32,
    pub shared_pool: Amount,
}

#[derive(Clone, Copy, PartialEq, Eq, Structural, Debug)]
pub struct WeightedVotes {
    pub total_weight: u64,
    pub voter_count: u32,
}

pub struct OracleVoting {
    pub market_id: MarketId,
    pub voting_start: Timestamp,
    pub voting_end: Timestamp,
    pub votes: Table<WeightedVotes>,
    pub voters: Vec<PlayerId>,
    pub resolved: bool,
}

pub struct Achievement {
    pub id: AchievementId,
    pub name: String,
    pub description: String,
    pub reward_tokens: Amount,
    pub reward_xp: u64,
    pub requirement: AchievementRequirement,
}

#[derive(Clone, Copy, PartialEq, Eq, Structural, Debug)]
pub enum AchievementRequirement {
    CreateMarket,
    FirstBuy,
    FirstSell,
    JoinGuild,
    ReachLevel(u32),
    WinMarkets(u64),
    WinStreak(u32),
    TotalProfit(Amount),
    ParticipateInMarkets(u64),
    CreateMarkets(u64),
}

/// Direction of a forecast price movement over a window.
#[derive(Clone, Copy, PartialEq, Eq, Structural, Debug)]
pub enum PriceOutcome {
    Rise,
    Fall,
    Neutral,
}

/// The length of a forecasting window.
#[derive(Clone, Copy, PartialEq, Eq, Structural, Debug)]
pub enum PredictionPeriod {
    Daily,
    Weekly,
    Monthly,
}

/// One player's forecast for one window, keyed by
/// (player, period kind, window start). Created once; mutated exactly once,
/// at resolution, and immutable thereafter.
#[derive(Clone, Copy, PartialEq, Eq, Structural, Debug)]
pub struct PlayerPrediction {
    pub player_id: PlayerId,
    pub period: PredictionPeriod,
    pub outcome: PriceOutcome,
    pub prediction_time: Timestamp,
    pub period_start: Timestamp,
    pub resolved: bool,
    pub correct: Option<bool>,
}

/// The oracle-fed market price fact, with the logical time it carries.
#[derive(Clone, Copy, PartialEq, Eq, Structural, Debug)]
pub struct MarketPrice {
    pub price: Amount,
    pub timestamp: Timestamp,
}

impl Default for MarketPrice {
    fn default() -> (p: MarketPrice)
        ensures
            p.price == 0,
            p.timestamp == 0,
    {
        MarketPrice { price: 0, timestamp: 0 }
    }
}

/// One forecasting window, keyed by (period kind, window start). The start
/// price is captured when the window is created, the end price by the first
/// price update at or after the window's end; once `resolved` is set the
/// window never changes again.
#[derive(Clone, Copy, PartialEq, Eq, Structural, Debug)]
pub struct PeriodPriceData {
    pub period: PredictionPeriod,
    pub period_start: Timestamp,
    pub period_end: Timestamp,
    pub start_price: Option<MarketPrice>,
    pub end_price: Option<MarketPrice>,
    pub outcome: Option<PriceOutcome>,
    pub resolved: bool,
}

/// The cross-shard projection of a player, reconciled by strict
/// last-writer-wins on `last_updated`.
pub struct GlobalPlayerInfo {
    pub player_id: PlayerId,
    pub display_name: Option<String>,
    pub chain_id: ChainId,
    pub total_earned: Amount,
    pub total_profit: Amount,
    pub level: u32,
    pub last_updated: Timestamp,
}

/// The cross-shard projection of a market; insert-if-absent.
pub struct GlobalMarketInfo {
    pub market_id: MarketId,
    pub creator: PlayerId,
    pub title: String,
    pub chain_id: ChainId,
    pub status: MarketStatus,
    pub created_at: Timestamp,
}

/// The cross-shard projection of a guild; insert-if-absent.
pub struct GlobalGuildInfo {
    pub guild_id: GuildId,
    pub name: String,
    pub founder: PlayerId,
    pub chain_id: ChainId,
    pub member_count: u32,
    pub total_guild_profit: Amount,
    pub created_at: Timestamp,
}

/// What a cross-shard message announces.
#[derive(Clone, Copy, PartialEq, Eq, Structural, Debug)]
pub enum MessageKind {
    PlayerRegistered,
    MarketCreated,
    GuildCreated,
    PlayerUpdated,
    PriceUpdate,
}

/// The identity of a cross-shard message, derived deterministically from the
/// message kind, the originating shard, its logical time and the primary
/// subject of the payload. The idempotency store keys on this value.
#[derive(Clone, Copy, PartialEq, Eq, Structural, Debug)]
pub struct MessageId {
    pub kind: MessageKind,
    pub origin: ChainId,
    pub time: Timestamp,
    pub payload: u64,
}

/// A message between shards (or an event a shard sends to itself).
#[derive(Clone, Debug)]
pub enum Message {
    MarketCreated { market_id: MarketId, creator: PlayerId },
    MarketResolved { market_id: MarketId, winning_outcome: OutcomeId },
    TradeExecuted {
        player_id: PlayerId,
        market_id: MarketId,
        outcome_id: OutcomeId,
        shares: Amount,
        price: Amount,
    },
    PlayerLeveledUp { player_id: PlayerId, new_level: u32 },
    AchievementUnlocked { player_id: PlayerId, achievement_id: AchievementId },
    GuildCreated { guild_id: GuildId, name: String },
    PredictionMade { player_id: PlayerId, period: PredictionPeriod, outcome: PriceOutcome },
    PredictionResolved { player_id: PlayerId, period: PredictionPeriod, correct: bool },
    GlobalMarketCreated {
        market_id: MarketId,
        creator: PlayerId,
        title: String,
        chain_id: ChainId,
        message_id: MessageId,
    },
    GlobalPlayerRegistered {
        player_id: PlayerId,
        display_name: Option<String>,
        chain_id: ChainId,
        message_id: MessageId,
    },
    GlobalPlayerUpdated {
        player_id: PlayerId,
        total_earned: Amount,
        total_profit: Amount,
        level: u32,
        chain_id: ChainId,
        timestamp: Timestamp,
        message_id: MessageId,
    },
    GlobalGuildCreated {
        guild_id: GuildId,
        name: String,
        founder: PlayerId,
        chain_id: ChainId,
        message_id: MessageId,
    },
    GlobalLeaderboardUpdate {
        player_id: PlayerId,
        total_profit: Amount,
        level: u32,
        chain_id: ChainId,
    },
    GlobalPriceUpdate {
        price: Amount,
        timestamp: Timestamp,
        chain_id: ChainId,
        message_id: MessageId,
    },
    ChainRegistered { chain_id: ChainId, timestamp: Timestamp },
}

/// One outbound dispatch: the same message owed to each listed shard.
pub struct OutboundDispatch {
    pub targets: Vec<ChainId>,
    pub message: Message,
}

/// A caller-submitted state transition.
pub enum Operation {
    RegisterPlayer { display_name: Option<String> },
    UpdateProfile { display_name: Option<String> },
    ClaimDailyReward,
    CreateMarket { title: String, amount: Amount, fee_percent: u8 },
    BuyShares { market_id: MarketId, amount: Amount },
    SellShares { market_id: MarketId, amount: Amount },
    MintPoints { amount: Amount },
    CreateGuild { name: String },
    JoinGuild { guild_id: GuildId },
    LeaveGuild,
    ContributeToGuild { amount: Amount },
    UpdateGameConfig { config: GameConfig },
    PredictDailyOutcome { outcome: PriceOutcome },
    PredictWeeklyOutcome { outcome: PriceOutcome },
    PredictMonthlyOutcome { outcome: PriceOutcome },
    UpdateMarketPrice { price: Amount },
}

/// A named precondition failure; the triggering operation stops before any
/// state mutation and reports it.
#[derive(Clone, Copy, PartialEq, Eq, Structural, Debug)]
pub enum ContractError {
    Unauthorized,
    PlayerAlreadyExists,
    DailyRewardAlreadyClaimed,
    InvalidOutcomeCount,
    DurationTooShort,
    InsufficientBalance,
    MarketNotActive,
    MarketEnded,
    InvalidOutcome,
    SlippageExceeded,
    NoPosition,
    InsufficientShares,
    MarketNotReadyForVoting,
    InvalidResolutionMethod,
    AlreadyVoted,
    MarketNotEnded,
    PlayerNotFound,
    MarketNotFound,
    GuildNotFound,
    AlreadyInGuild,
    NotGuildMember,
    NotAdmin,
    OracleNotReady,
    NotResolved,
    NoWinnings,
    InsufficientLevel,
}

/// Marker type naming this application's interface.
pub struct PredictiveManagerAbi;

} // verus!
