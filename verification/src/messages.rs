//! Cross-shard messaging: fan-out and the outbound side.
//!
//! Any locally observed fact that must be globally visible is wrapped in one
//! message per known peer shard, tagged with a deterministically derived
//! message identity. The library only *plans* the sends — each helper
//! returns an [`OutboundDispatch`] naming the targets — and the host
//! runtime performs them; delivery may duplicate and reorder at will, which
//! the receiving side absorbs (see `execute_message`).

use vstd::prelude::*;
use crate::state::PredictionMarketState;
use crate::table::{spec_find, spec_upsert, Table};
use crate::types::{
    ChainId, GlobalGuildInfo, GlobalMarketInfo, GlobalPlayerInfo, MarketId, MarketStatus,
    Message, MessageId, MessageKind, OutboundDispatch, PlayerId, Timestamp,
};

verus! {

/// Every chain in the registry except `me`, in registry order.
pub open spec fn spec_fanout(chains: Seq<(u64, Timestamp)>, me: ChainId) -> Seq<ChainId>
    decreases chains.len(),
{
    if chains.len() == 0 {
        Seq::empty()
    } else if chains.last().0 == me {
        spec_fanout(chains.drop_last(), me)
    } else {
        spec_fanout(chains.drop_last(), me).push(chains.last().0)
    }
}

/// The message identity for a fact: kind, originating shard, logical time,
/// and the primary subject of the payload.
pub fn generate_message_id(kind: MessageKind, origin: ChainId, time: Timestamp, payload: u64) -> (
    id: MessageId)
    ensures
        id == (MessageId { kind, origin, time, payload }),
{
    MessageId { kind, origin, time, payload }
}

/// The broadcast target list: every registered chain but `me`.
#[verifier::loop_isolation(false)]
pub fn fanout_targets(chains: &Table<Timestamp>, me: ChainId) -> (targets: Vec<ChainId>)
    ensures
        targets@ =~= spec_fanout(chains@, me),
{
    let n: usize = chains.len();
    let mut targets: Vec<ChainId> = Vec::new();
    let mut i: usize = 0;
    proof {
        assert(chains@.take(0) =~= Seq::<(u64, Timestamp)>::empty());
    }
    while i < n
        invariant
            i <= n,
            targets@ =~= spec_fanout(chains@.take(i as int), me),
        decreases n - i,
    {
        let e = chains.at(i);
        if e.0 != me {
            targets.push(e.0);
        }
        i = i + 1;
        proof {
            assert(chains@.take(i as int).drop_last() =~= chains@.take(i as int - 1));
            assert(chains@.take(i as int).last() == chains@[i as int - 1]);
        }
    }
    proof {
        assert(chains@.take(n as int) =~= chains@);
    }
    targets
}

/// What refreshing and announcing a player's score totals leaves behind.
pub open spec fn spec_broadcast_player_updated_post(
    pre: PredictionMarketState,
    post: PredictionMarketState,
    d: OutboundDispatch,
    player_id: PlayerId,
    total_earned: u128,
    total_profit: u128,
    level: u32,
    self_chain: ChainId,
    now: Timestamp,
) -> bool {
    &&& (post.global_players@ =~= match spec_find(pre.global_players@, player_id) {
                Some(g) => if now > g.last_updated {
                    crate::table::spec_delete(pre.global_players@, player_id).push(
                        (
                            player_id,
                            GlobalPlayerInfo {
                                player_id: g.player_id,
                                display_name: g.display_name,
                                chain_id: self_chain,
                                total_earned,
                                total_profit,
                                level,
                                last_updated: now,
                            },
                        ),
                    )
                } else {
                    pre.global_players@
                },
                None => pre.global_players@,
            })
    &&& (post == (PredictionMarketState {
                global_players: post.global_players,
                ..pre
            }))
    &&& (d.targets@ =~= spec_fanout(pre.subscribed_chains@, self_chain))
    &&& (d.message == (Message::GlobalPlayerUpdated {
                player_id,
                total_earned,
                total_profit,
                level,
                chain_id: self_chain,
                timestamp: now,
                message_id: MessageId {
                    kind: MessageKind::PlayerUpdated,
                    origin: self_chain,
                    time: now,
                    payload: player_id,
                },
            }))
}

impl PredictionMarketState {
    /// Register the local shard on first use and plan the announcement that
    /// lets every peer learn of it; a shard already registered is left
    /// untouched. Registry entries are immutable once written.
    pub fn ensure_chain_registered(&mut self, self_chain: ChainId, now: Timestamp) -> (d: Option<
        OutboundDispatch,
    >)
        requires
            old(self).wf(),
        ensures
            final(self).wf(),
            old(self).spec_chain(self_chain) is Some ==> {
                &&& *final(self) == *old(self)
                &&& d is None
            },
            old(self).spec_chain(self_chain) is None ==> {
                &&& final(self).subscribed_chains@ =~= old(self).subscribed_chains@.push(
                    (self_chain, now),
                )
                &&& *final(self) == (PredictionMarketState {
                    subscribed_chains: final(self).subscribed_chains,
                    ..*old(self)
                })
                &&& match d {
                    Some(dispatch) => {
                        &&& dispatch.targets@ =~= spec_fanout(
                            old(self).subscribed_chains@,
                            self_chain,
                        )
                        &&& dispatch.message == (Message::ChainRegistered {
                            chain_id: self_chain,
                            timestamp: now,
                        })
                    },
                    None => false,
                }
            },
    {
        if self.subscribed_chains.contains_key(self_chain) {
            return None;
        }
        let targets = fanout_targets(&self.subscribed_chains, self_chain);
        self.subscribed_chains.put(self_chain, now);
        Some(
            OutboundDispatch {
                targets,
                message: Message::ChainRegistered { chain_id: self_chain, timestamp: now },
            },
        )
    }

    /// Seed the local projection of a newly registered player (first sight
    /// only, at logical time zero so that any score fact outranks the seed)
    /// and plan its announcement to every peer.
    pub fn broadcast_global_player_registered(
        &mut self,
        player_id: PlayerId,
        display_name: Option<String>,
        self_chain: ChainId,
        now: Timestamp,
    ) -> (d: OutboundDispatch)
        requires
            old(self).wf(),
        ensures
            final(self).wf(),
            final(self).global_players@ =~= if old(self).spec_global_player(player_id) is None {
                old(self).global_players@.push(
                    (
                        player_id,
                        GlobalPlayerInfo {
                            player_id,
                            display_name,
                            chain_id: self_chain,
                            total_earned: 0,
                            total_profit: 0,
                            level: 1,
                            last_updated: 0,
                        },
                    ),
                )
            } else {
                old(self).global_players@
            },
            *final(self) == (PredictionMarketState {
                global_players: final(self).global_players,
                ..*old(self)
            }),
            d.targets@ =~= spec_fanout(old(self).subscribed_chains@, self_chain),
            d.message == (Message::GlobalPlayerRegistered {
                player_id,
                display_name,
                chain_id: self_chain,
                message_id: MessageId {
                    kind: MessageKind::PlayerRegistered,
                    origin: self_chain,
                    time: now,
                    payload: player_id,
                },
            }),
    {
        let message_id = generate_message_id(
            MessageKind::PlayerRegistered,
            self_chain,
            now,
            player_id,
        );
        if !self.global_players.contains_key(player_id) {
            self.global_players.put(
                player_id,
                GlobalPlayerInfo {
                    player_id,
                    display_name: display_name.clone(),
                    chain_id: self_chain,
                    total_earned: 0,
                    total_profit: 0,
                    level: 1,
                    last_updated: 0,
                },
            );
        }
        let targets = fanout_targets(&self.subscribed_chains, self_chain);
        OutboundDispatch {
            targets,
            message: Message::GlobalPlayerRegistered {
                player_id,
                display_name,
                chain_id: self_chain,
                message_id,
            },
        }
    }

    /// Seed the local projection of a newly created market (first sight
    /// only) and plan its announcement to every peer.
    pub fn broadcast_global_market_created(
        &mut self,
        market_id: MarketId,
        creator: PlayerId,
        title: String,
        self_chain: ChainId,
        now: Timestamp,
    ) -> (d: OutboundDispatch)
        requires
            old(self).wf(),
        ensures
            final(self).wf(),
            final(self).global_markets@ =~= if old(self).spec_global_market(market_id) is None {
                old(self).global_markets@.push(
                    (
                        market_id,
                        GlobalMarketInfo {
                            market_id,
                            creator,
                            title,
                            chain_id: self_chain,
                            status: MarketStatus::Active,
                            created_at: now,
                        },
                    ),
                )
            } else {
                old(self).global_markets@
            },
            *final(self) == (PredictionMarketState {
                global_markets: final(self).global_markets,
                ..*old(self)
            }),
            d.targets@ =~= spec_fanout(old(self).subscribed_chains@, self_chain),
            d.message == (Message::GlobalMarketCreated {
                market_id,
                creator,
                title,
                chain_id: self_chain,
                message_id: MessageId {
                    kind: MessageKind::MarketCreated,
                    origin: self_chain,
                    time: now,
                    payload: market_id,
                },
            }),
    {
        let message_id = generate_message_id(MessageKind::MarketCreated, self_chain, now, market_id);
        if !self.global_markets.contains_key(market_id) {
            self.global_markets.put(
                market_id,
                GlobalMarketInfo {
                    market_id,
                    creator,
                    title: title.clone(),
                    chain_id: self_chain,
                    status: MarketStatus::Active,
                    created_at: now,
                },
            );
        }
        let targets = fanout_targets(&self.subscribed_chains, self_chain);
        OutboundDispatch {
            targets,
            message: Message::GlobalMarketCreated {
                market_id,
                creator,
                title,
                chain_id: self_chain,
                message_id,
            },
        }
    }

    /// Seed the local projection of a newly founded guild (first sight only)
    /// and plan its announcement to every peer.
    pub fn broadcast_global_guild_created(
        &mut self,
        guild_id: u64,
        name: String,
        founder: PlayerId,
        self_chain: ChainId,
        now: Timestamp,
    ) -> (d: OutboundDispatch)
        requires
            old(self).wf(),
        ensures
            final(self).wf(),
            final(self).global_guilds@ =~= if old(self).spec_global_guild(guild_id) is None {
                old(self).global_guilds@.push(
                    (
                        guild_id,
                        GlobalGuildInfo {
                            guild_id,
                            name,
                            founder,
                            chain_id: self_chain,
                            member_count: 1,
                            total_guild_profit: 0,
                            created_at: now,
                        },
                    ),
                )
            } else {
                old(self).global_guilds@
            },
            *final(self) == (PredictionMarketState {
                global_guilds: final(self).global_guilds,
                ..*old(self)
            }),
            d.targets@ =~= spec_fanout(old(self).subscribed_chains@, self_chain),
            d.message == (Message::GlobalGuildCreated {
                guild_id,
                name,
                founder,
                chain_id: self_chain,
                message_id: MessageId {
                    kind: MessageKind::GuildCreated,
                    origin: self_chain,
                    time: now,
                    payload: guild_id,
                },
            }),
    {
        let message_id = generate_message_id(MessageKind::GuildCreated, self_chain, now, guild_id);
        if !self.global_guilds.contains_key(guild_id) {
            self.global_guilds.put(
                guild_id,
                GlobalGuildInfo {
                    guild_id,
                    name: name.clone(),
                    founder,
                    chain_id: self_chain,
                    member_count: 1,
                    total_guild_profit: 0,
                    created_at: now,
                },
            );
        }
        let targets = fanout_targets(&self.subscribed_chains, self_chain);
        OutboundDispatch {
            targets,
            message: Message::GlobalGuildCreated {
                guild_id,
                name,
                founder,
                chain_id: self_chain,
                message_id,
            },
        }
    }

    /// Refresh the local projection of a player whose score changed —
    /// last-writer-wins, so an already newer projection is kept — and plan
    /// the announcement carrying the new totals and this shard's logical
    /// time.
    pub fn broadcast_global_player_updated(
        &mut self,
        player_id: PlayerId,
        total_earned: u128,
        total_profit: u128,
        level: u32,
        self_chain: ChainId,
        now: Timestamp,
    ) -> (d: OutboundDispatch)
        requires
            old(self).wf(),
        ensures
            final(self).wf(),
            spec_broadcast_player_updated_post(
                *old(self),
                *final(self),
                d,
                player_id,
                total_earned,
                total_profit,
                level,
                self_chain,
                now,
            ),
    {
        let message_id = generate_message_id(MessageKind::PlayerUpdated, self_chain, now, player_id);
        let newer = match self.global_players.get(player_id) {
            Some(g) => now > g.last_updated,
            None => false,
        };
        if newer {
            let taken = self.global_players.take(player_id);
            match taken {
                Some(mut g) => {
                    g.chain_id = self_chain;
                    g.total_earned = total_earned;
                    g.total_profit = total_profit;
                    g.level = level;
                    g.last_updated = now;
                    self.global_players.put(player_id, g);
                },
                None => {},
            }
        }
        let targets = fanout_targets(&self.subscribed_chains, self_chain);
        OutboundDispatch {
            targets,
            message: Message::GlobalPlayerUpdated {
                player_id,
                total_earned,
                total_profit,
                level,
                chain_id: self_chain,
                timestamp: now,
                message_id,
            },
        }
    }

    /// Plan the announcement of an oracle price fact to every peer; the
    /// local price fact itself is set by `update_market_price`.
    pub fn broadcast_global_price_update(
        &mut self,
        price: u128,
        timestamp: Timestamp,
        self_chain: ChainId,
    ) -> (d: OutboundDispatch)
        requires
            old(self).wf(),
        ensures
            final(self).wf(),
            *final(self) == *old(self),
            d.targets@ =~= spec_fanout(old(self).subscribed_chains@, self_chain),
            d.message == (Message::GlobalPriceUpdate {
                price,
                timestamp,
                chain_id: self_chain,
                message_id: MessageId {
                    kind: MessageKind::PriceUpdate,
                    origin: self_chain,
                    time: timestamp,
                    payload: price as u64,
                },
            }),
    {
        let message_id = generate_message_id(
            MessageKind::PriceUpdate,
            self_chain,
            timestamp,
            #[verifier::truncate] (price as u64),
        );
        let targets = fanout_targets(&self.subscribed_chains, self_chain);
        OutboundDispatch {
            targets,
            message: Message::GlobalPriceUpdate {
                price,
                timestamp,
                chain_id: self_chain,
                message_id,
            },
        }
    }
}

} // verus!
