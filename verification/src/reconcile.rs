//! The inbound side of cross-shard messaging.
//!
//! `execute_message` is the only way a foreign fact enters a shard, and its
//! whole effect is the mathematical function [`spec_apply_message`] on the
//! shard's projection: first the idempotency gate (a message identity seen
//! before has no effect at all), then per-fact reconciliation — insert-if-
//! absent for first-sight facts, strict last-writer-wins on logical time for
//! mutable facts, so stale, duplicated and reordered deliveries are all
//! absorbed as designed no-ops. A projection entry is created on the first
//! cross-shard sighting of its player, whichever fact arrives first: a
//! registration seeds it at logical time zero (so any real score fact
//! outranks the seed), and a score fact about a still-unseen player seeds
//! the entry from the fact itself.

use vstd::prelude::*;
use crate::board::spec_global_board;
use crate::state::PredictionMarketState;
use crate::store::{spec_processed, ProcessedMessageRecord};
use crate::table::{spec_delete, spec_find};
use crate::types::{
    GlobalGuildInfo, GlobalMarketInfo, GlobalPlayerInfo, GuildLeaderboardEntry,
    LeaderboardEntry, MarketPrice, MarketStatus, Message, MessageId, Timestamp,
};

verus! {

/// Everything of a shard's state that an inbound message can touch.
#[verifier::ext_equal]
pub struct ProjectionView {
    pub global_players: Seq<(u64, GlobalPlayerInfo)>,
    pub global_markets: Seq<(u64, GlobalMarketInfo)>,
    pub global_guilds: Seq<(u64, GlobalGuildInfo)>,
    pub chains: Seq<(u64, Timestamp)>,
    pub price: MarketPrice,
    pub processed: Seq<ProcessedMessageRecord>,
    pub board_traders: Seq<LeaderboardEntry>,
    pub board_guilds: Seq<GuildLeaderboardEntry>,
    pub board_time: Timestamp,
}

/// The strict last-writer-wins rule: an incoming fact replaces the stored
/// one exactly when its logical time is strictly greater; ties keep the
/// stored value, which makes the merge commutative under reordering.
pub open spec fn lww_replaces(existing_time: Timestamp, incoming_time: Timestamp) -> bool {
    incoming_time > existing_time
}

/// The identity of a gated message, if it carries one. Registry
/// announcements and local events carry none; their effects are naturally
/// idempotent.
pub open spec fn spec_message_identity(m: Message) -> Option<MessageId> {
    match m {
        Message::GlobalMarketCreated { message_id, .. } => Some(message_id),
        Message::GlobalPlayerRegistered { message_id, .. } => Some(message_id),
        Message::GlobalPlayerUpdated { message_id, .. } => Some(message_id),
        Message::GlobalGuildCreated { message_id, .. } => Some(message_id),
        Message::GlobalPriceUpdate { message_id, .. } => Some(message_id),
        _ => None,
    }
}

/// The full effect of delivering `m` to a shard whose projection is `p` at
/// local logical time `now`.
pub open spec fn spec_apply_message(p: ProjectionView, m: Message, now: Timestamp) -> ProjectionView {
    match m {
        Message::GlobalMarketCreated { market_id, creator, title, chain_id, message_id } => {
            if spec_processed(p.processed, message_id) {
                p
            } else {
                let p1 = if spec_find(p.global_markets, market_id) is None {
                    ProjectionView {
                        global_markets: p.global_markets.push(
                            (
                                market_id,
                                GlobalMarketInfo {
                                    market_id,
                                    creator,
                                    title,
                                    chain_id,
                                    status: MarketStatus::Active,
                                    created_at: now,
                                },
                            ),
                        ),
                        ..p
                    }
                } else {
                    p
                };
                ProjectionView {
                    processed: p1.processed.push(ProcessedMessageRecord { id: message_id, time: now }),
                    ..p1
                }
            }
        },
        Message::GlobalPlayerRegistered { player_id, display_name, chain_id, message_id } => {
            if spec_processed(p.processed, message_id) {
                p
            } else {
                let p1 = if spec_find(p.global_players, player_id) is None {
                    ProjectionView {
                        global_players: p.global_players.push(
                            (
                                player_id,
                                GlobalPlayerInfo {
                                    player_id,
                                    display_name,
                                    chain_id,
                                    total_earned: 0,
                                    total_profit: 0,
                                    level: 1,
                                    last_updated: 0,
                                },
                            ),
                        ),
                        ..p
                    }
                } else {
                    p
                };
                ProjectionView {
                    processed: p1.processed.push(ProcessedMessageRecord { id: message_id, time: now }),
                    ..p1
                }
            }
        },
        Message::GlobalPlayerUpdated {
            player_id,
            total_earned,
            total_profit,
            level,
            chain_id,
            timestamp,
            message_id,
        } => {
            if spec_processed(p.processed, message_id) {
                p
            } else {
                let p1 = match spec_find(p.global_players, player_id) {
                    Some(g) => if lww_replaces(g.last_updated, timestamp) {
                        let gps = spec_delete(p.global_players, player_id).push(
                            (
                                player_id,
                                GlobalPlayerInfo {
                                    player_id: g.player_id,
                                    display_name: g.display_name,
                                    chain_id,
                                    total_earned,
                                    total_profit,
                                    level,
                                    last_updated: timestamp,
                                },
                            ),
                        );
                        ProjectionView {
                            global_players: gps,
                            board_traders: spec_global_board(gps),
                            board_time: now,
                            ..p
                        }
                    } else {
                        p
                    },
                    None => {
                        let gps = p.global_players.push(
                            (
                                player_id,
                                GlobalPlayerInfo {
                                    player_id,
                                    display_name: None,
                                    chain_id,
                                    total_earned,
                                    total_profit,
                                    level,
                                    last_updated: timestamp,
                                },
                            ),
                        );
                        ProjectionView {
                            global_players: gps,
                            board_traders: spec_global_board(gps),
                            board_time: now,
                            ..p
                        }
                    },
                };
                ProjectionView {
                    processed: p1.processed.push(ProcessedMessageRecord { id: message_id, time: now }),
                    ..p1
                }
            }
        },
        Message::GlobalGuildCreated { guild_id, name, founder, chain_id, message_id } => {
            if spec_processed(p.processed, message_id) {
                p
            } else {
                let p1 = if spec_find(p.global_guilds, guild_id) is None {
                    ProjectionView {
                        global_guilds: p.global_guilds.push(
                            (
                                guild_id,
                                GlobalGuildInfo {
                                    guild_id,
                                    name,
                                    founder,
                                    chain_id,
                                    member_count: 1,
                                    total_guild_profit: 0,
                                    created_at: now,
                                },
                            ),
                        ),
                        ..p
                    }
                } else {
                    p
                };
                ProjectionView {
                    processed: p1.processed.push(ProcessedMessageRecord { id: message_id, time: now }),
                    ..p1
                }
            }
        },
        Message::GlobalLeaderboardUpdate { player_id, total_profit, level, chain_id: _ } => {
            let p1 = match spec_find(p.global_players, player_id) {
                Some(g) => if lww_replaces(g.last_updated, now) {
                    ProjectionView {
                        global_players: spec_delete(p.global_players, player_id).push(
                            (
                                player_id,
                                GlobalPlayerInfo {
                                    player_id: g.player_id,
                                    display_name: g.display_name,
                                    chain_id: g.chain_id,
                                    total_earned: g.total_earned,
                                    total_profit,
                                    level,
                                    last_updated: now,
                                },
                            ),
                        ),
                        ..p
                    }
                } else {
                    p
                },
                None => p,
            };
            ProjectionView {
                board_traders: spec_global_board(p1.global_players),
                board_time: now,
                ..p1
            }
        },
        Message::GlobalPriceUpdate { price, timestamp, chain_id: _, message_id } => {
            if spec_processed(p.processed, message_id) {
                p
            } else {
                let p1 = if lww_replaces(p.price.timestamp, timestamp) {
                    ProjectionView { price: MarketPrice { price, timestamp }, ..p }
                } else {
                    p
                };
                ProjectionView {
                    processed: p1.processed.push(ProcessedMessageRecord { id: message_id, time: now }),
                    ..p1
                }
            }
        },
        Message::ChainRegistered { chain_id, timestamp } => {
            if spec_find(p.chains, chain_id) is None {
                ProjectionView { chains: p.chains.push((chain_id, timestamp)), ..p }
            } else {
                p
            }
        },
        _ => p,
    }
}

impl PredictionMarketState {
    /// The parts of this shard's state that inbound messages can touch.
    pub open spec fn projection(&self) -> ProjectionView {
        ProjectionView {
            global_players: self.global_players@,
            global_markets: self.global_markets@,
            global_guilds: self.global_guilds@,
            chains: self.subscribed_chains@,
            price: self.current_market_price,
            processed: self.processed_messages@,
            board_traders: self.global_leaderboard.top_traders@,
            board_guilds: self.global_leaderboard.top_guilds@,
            board_time: self.global_leaderboard.last_updated,
        }
    }

    /// Deliver one inbound message. The effect on the projection is exactly
    /// `spec_apply_message`; the rest of the shard's state never changes,
    /// and a message whose identity was already processed changes nothing
    /// at all.
    pub fn execute_message(&mut self, m: Message, now: Timestamp)
        requires
            old(self).wf(),
        ensures
            final(self).wf(),
            final(self).projection() == spec_apply_message(old(self).projection(), m, now),
            *final(self) == (PredictionMarketState {
                global_players: final(self).global_players,
                global_markets: final(self).global_markets,
                global_guilds: final(self).global_guilds,
                subscribed_chains: final(self).subscribed_chains,
                current_market_price: final(self).current_market_price,
                processed_messages: final(self).processed_messages,
                global_leaderboard: final(self).global_leaderboard,
                ..*old(self)
            }),
            match spec_message_identity(m) {
                Some(id) => old(self).spec_is_processed(id) ==> *final(self) == *old(self),
                None => true,
            },
    {
        match m {
            Message::GlobalMarketCreated { market_id, creator, title, chain_id, message_id } => {
                if self.processed_messages.has_processed(message_id) {
                    return ;
                }
                if !self.global_markets.contains_key(market_id) {
                    self.global_markets.put(
                        market_id,
                        GlobalMarketInfo {
                            market_id,
                            creator,
                            title,
                            chain_id,
                            status: MarketStatus::Active,
                            created_at: now,
                        },
                    );
                }
                self.processed_messages.mark_processed(message_id, now);
                proof {
                    assert(self.projection() =~~= spec_apply_message(
                        old(self).projection(),
                        m,
                        now,
                    ));
                }
            },
            Message::GlobalPlayerRegistered { player_id, display_name, chain_id, message_id } => {
                if self.processed_messages.has_processed(message_id) {
                    return ;
                }
                if !self.global_players.contains_key(player_id) {
                    self.global_players.put(
                        player_id,
                        GlobalPlayerInfo {
                            player_id,
                            display_name,
                            chain_id,
                            total_earned: 0,
                            total_profit: 0,
                            level: 1,
                            last_updated: 0,
                        },
                    );
                }
                self.processed_messages.mark_processed(message_id, now);
                proof {
                    assert(self.projection() =~~= spec_apply_message(
                        old(self).projection(),
                        m,
                        now,
                    ));
                }
            },
            Message::GlobalPlayerUpdated {
                player_id,
                total_earned,
                total_profit,
                level,
                chain_id,
                timestamp,
                message_id,
            } => {
                if self.processed_messages.has_processed(message_id) {
                    return ;
                }
                let stored_time: Option<u64> = match self.global_players.get(player_id) {
                    Some(g) => Some(g.last_updated),
                    None => None,
                };
                match stored_time {
                    Some(t0) => {
                        if timestamp > t0 {
                            let taken = self.global_players.take(player_id);
                            match taken {
                                Some(mut g) => {
                                    g.chain_id = chain_id;
                                    g.total_earned = total_earned;
                                    g.total_profit = total_profit;
                                    g.level = level;
                                    g.last_updated = timestamp;
                                    self.global_players.put(player_id, g);
                                },
                                None => {},
                            }
                            self.update_global_leaderboard(now);
                        }
                    },
                    None => {
                        // First cross-shard sighting through a score fact:
                        // the fact itself seeds the projection.
                        self.global_players.put(
                            player_id,
                            GlobalPlayerInfo {
                                player_id,
                                display_name: None,
                                chain_id,
                                total_earned,
                                total_profit,
                                level,
                                last_updated: timestamp,
                            },
                        );
                        self.update_global_leaderboard(now);
                    },
                }
                self.processed_messages.mark_processed(message_id, now);
                proof {
                    assert(self.projection() =~~= spec_apply_message(
                        old(self).projection(),
                        m,
                        now,
                    ));
                }
            },
            Message::GlobalGuildCreated { guild_id, name, founder, chain_id, message_id } => {
                if self.processed_messages.has_processed(message_id) {
                    return ;
                }
                if !self.global_guilds.contains_key(guild_id) {
                    self.global_guilds.put(
                        guild_id,
                        GlobalGuildInfo {
                            guild_id,
                            name,
                            founder,
                            chain_id,
                            member_count: 1,
                            total_guild_profit: 0,
                            created_at: now,
                        },
                    );
                }
                self.processed_messages.mark_processed(message_id, now);
                proof {
                    assert(self.projection() =~~= spec_apply_message(
                        old(self).projection(),
                        m,
                        now,
                    ));
                }
            },
            Message::GlobalLeaderboardUpdate { player_id, total_profit, level, chain_id: _ } => {
                let newer = match self.global_players.get(player_id) {
                    Some(g) => now > g.last_updated,
                    None => false,
                };
                if newer {
                    let taken = self.global_players.take(player_id);
                    match taken {
                        Some(mut g) => {
                            g.total_profit = total_profit;
                            g.level = level;
                            g.last_updated = now;
                            self.global_players.put(player_id, g);
                        },
                        None => {},
                    }
                }
                self.update_global_leaderboard(now);
                proof {
                    assert(self.projection() =~~= spec_apply_message(
                        old(self).projection(),
                        m,
                        now,
                    ));
                }
            },
            Message::GlobalPriceUpdate { price, timestamp, chain_id: _, message_id } => {
                if self.processed_messages.has_processed(message_id) {
                    return ;
                }
                if timestamp > self.current_market_price.timestamp {
                    self.current_market_price = MarketPrice { price, timestamp };
                }
                self.processed_messages.mark_processed(message_id, now);
                proof {
                    assert(self.projection() =~~= spec_apply_message(
                        old(self).projection(),
                        m,
                        now,
                    ));
                }
            },
            Message::ChainRegistered { chain_id, timestamp } => {
                if !self.subscribed_chains.contains_key(chain_id) {
                    self.subscribed_chains.put(chain_id, timestamp);
                }
                proof {
                    assert(self.projection() =~~= spec_apply_message(
                        old(self).projection(),
                        m,
                        now,
                    ));
                }
            },
            _ => {
                proof {
                    assert(self.projection() =~~= spec_apply_message(
                        old(self).projection(),
                        m,
                        now,
                    ));
                }
            },
        }
    }
}

} // verus!
