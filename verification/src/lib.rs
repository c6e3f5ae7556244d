//! A points-based forecasting game replicated across independent execution
//! shards ("chains"). Each shard keeps its own state and clock; state changes
//! propagate between shards through at-least-once, out-of-order message
//! delivery. The library is the shard-local state machine: every decision is
//! a function from plain values to plain values, so a host runtime only has
//! to perform the actions (deliver the returned messages) and hand events
//! back in.
//!
//! The shard-local state converges because every cross-shard effect is gated
//! by an idempotency store (duplicate deliveries are no-ops) and merged by a
//! strict last-writer-wins rule on logical timestamps (stale or equal-time
//! facts are discarded). Time-windowed forecasts are resolved by price
//! updates: any update whose time has passed a window's end captures the end
//! price, derives the outcome and settles every prediction in that window,
//! with reward or penalty cascades over the predictor's guild.

pub mod table;
pub mod types;
pub mod rank;
pub mod store;
pub mod state;
pub mod board;
pub mod messages;
pub mod reconcile;
pub mod progress;
pub mod ops;
pub mod engine;
pub mod cascade;
pub mod markets;
pub mod queries;
pub mod dispatch;
pub mod laws;

pub use state::PredictionMarketState;
pub use types::{
    Achievement, AchievementId, AchievementRequirement, Amount, ChainId, ContractError,
    GameConfig, GlobalGuildInfo, GlobalMarketInfo, GlobalPlayerInfo, Guild, GuildId,
    GuildLeaderboardEntry, Leaderboard, LeaderboardEntry, Market, MarketId, MarketPrice,
    MarketStatus, MarketType, Message, MessageId, MessageKind, Operation, OracleVoting, Outcome,
    OutboundDispatch, OutcomeId, PeriodPriceData, Player, PlayerId, PlayerPosition,
    PlayerPrediction, PredictionPeriod, PredictiveManagerAbi, PriceOutcome, ResolutionMethod,
    Timestamp, WeightedVotes,
};
