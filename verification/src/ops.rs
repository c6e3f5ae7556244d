//! Local caller-facing operations: accounts, rewards, and guilds.
//!
//! Every operation checks its preconditions before touching anything, so a
//! rejected call leaves the shard exactly as it was; an accepted call's
//! effect is stated exactly in its contract. Operations that must be
//! globally visible also plan the cross-shard announcement and hand it back
//! for the host runtime to send.

use vstd::prelude::*;
use crate::messages::spec_fanout;
use crate::progress::check_achievements;
use crate::state::{ids_distinct, PredictionMarketState};
use crate::table::spec_find;
use crate::types::{
    sat_add, sat_sub, spec_sat_add, spec_sat_sub, Amount, ChainId, ContractError, GameConfig,
    Guild, GuildId, Message, MessageId, MessageKind, OutboundDispatch, Player, PlayerId,
    Timestamp, ONE_DAY_MICROS,
};

verus! {

/// `ids` with every occurrence of `id` removed, order kept.
pub open spec fn spec_remove_id(ids: Seq<u64>, id: u64) -> Seq<u64>
    decreases ids.len(),
{
    if ids.len() == 0 {
        ids
    } else if ids.last() == id {
        spec_remove_id(ids.drop_last(), id)
    } else {
        spec_remove_id(ids.drop_last(), id).push(ids.last())
    }
}

proof fn lemma_remove_id_distinct(ids: Seq<u64>, id: u64)
    requires
        ids_distinct(ids),
    ensures
        ids_distinct(spec_remove_id(ids, id)),
        forall|x: u64|
            spec_remove_id(ids, id).contains(x) ==> ids.contains(x) && x != id,
    decreases ids.len(),
{
    if ids.len() > 0 {
        assert(ids_distinct(ids.drop_last()));
        lemma_remove_id_distinct(ids.drop_last(), id);
        if ids.last() != id {
            let r = spec_remove_id(ids.drop_last(), id).push(ids.last());
            assert forall|i: int, j: int| 0 <= i < j < r.len() implies #[trigger] r[i]
                != #[trigger] r[j] by {
                if j < r.len() - 1 {
                    assert(r[i] == spec_remove_id(ids.drop_last(), id)[i]);
                    assert(r[j] == spec_remove_id(ids.drop_last(), id)[j]);
                } else {
                    assert(r[j] == ids.last());
                    assert(r[i] == spec_remove_id(ids.drop_last(), id)[i]);
                    assert(spec_remove_id(ids.drop_last(), id).contains(r[i]));
                    assert(ids.drop_last().contains(r[i]));
                    let w = choose|w: int|
                        0 <= w < ids.drop_last().len() && ids.drop_last()[w] == r[i];
                    assert(ids[w] == r[i]);
                    assert(ids[ids.len() - 1] == ids.last());
                }
            }
            assert forall|x: u64| r.contains(x) implies ids.contains(x) && x != id by {
                let w = choose|w: int| 0 <= w < r.len() && r[w] == x;
                if w < r.len() - 1 {
                    assert(spec_remove_id(ids.drop_last(), id)[w] == x);
                    assert(spec_remove_id(ids.drop_last(), id).contains(x));
                    assert(ids.drop_last().contains(x));
                    let v = choose|v: int|
                        0 <= v < ids.drop_last().len() && ids.drop_last()[v] == x;
                    assert(ids[v] == x);
                } else {
                    assert(x == ids.last());
                    assert(ids[ids.len() - 1] == x);
                }
            }
        } else {
            assert forall|x: u64| spec_remove_id(ids, id).contains(x) implies ids.contains(x) && x
                != id by {
                assert(ids.drop_last().contains(x));
                let v = choose|v: int| 0 <= v < ids.drop_last().len() && ids.drop_last()[v] == x;
                assert(ids[v] == x);
            }
        }
    }
}

/// Remove every occurrence of `id` from `ids`, keeping the order.
#[verifier::loop_isolation(false)]
fn remove_id(ids: &Vec<u64>, id: u64) -> (out: Vec<u64>)
    ensures
        out@ =~= spec_remove_id(ids@, id),
{
    let n: usize = ids.len();
    let mut out: Vec<u64> = Vec::new();
    let mut i: usize = 0;
    proof {
        assert(ids@.take(0) =~= Seq::<u64>::empty());
    }
    while i < n
        invariant
            i <= n,
            out@ =~= spec_remove_id(ids@.take(i as int), id),
        decreases n - i,
    {
        let x = ids[i];
        if x != id {
            out.push(x);
        }
        i = i + 1;
        proof {
            assert(ids@.take(i as int).drop_last() =~= ids@.take(i as int - 1));
            assert(ids@.take(i as int).last() == ids@[i as int - 1]);
        }
    }
    proof {
        assert(ids@.take(n as int) =~= ids@);
    }
    out
}

fn contains_u64(v: &Vec<u64>, x: u64) -> (b: bool)
    ensures
        b == v@.contains(x),
{
    let n: usize = v.len();
    let mut j: usize = 0;
    while j < n
        invariant
            j <= n,
            n == v@.len(),
            forall|i: int| 0 <= i < j ==> v@[i] != x,
        decreases n - j,
    {
        if v[j] == x {
            return true;
        }
        j = j + 1;
    }
    false
}

/// What registering a player leaves behind.
pub open spec fn spec_register_player_post(
    pre: PredictionMarketState,
    post: PredictionMarketState,
    r: Result<OutboundDispatch, ContractError>,
    player_id: PlayerId,
    display_name: Option<String>,
    self_chain: ChainId,
    now: Timestamp,
) -> bool {
    &&& (pre.spec_player(player_id) is Some ==> {
                &&& r == Err::<OutboundDispatch, _>(ContractError::PlayerAlreadyExists)
                &&& post == pre
            })
    &&& (pre.spec_player(player_id) is None ==> {
                &&& r is Ok
                &&& match post.spec_player(player_id) {
                    Some(p) => {
                        &&& p.id == player_id
                        &&& p.display_name == display_name
                        &&& p.registration_time == now
                        &&& p.last_login == now
                        &&& p.token_balance == pre.config.initial_player_tokens
                        &&& p.total_earned == pre.config.initial_player_tokens
                        &&& p.total_spent == 0
                        &&& p.level == 1
                        &&& p.experience_points == 0
                        &&& p.reputation == 100
                        &&& p.guild_id is None
                        &&& p.achievements_earned@.len() == 0
                        &&& p.active_markets@.len() == 0
                    },
                    None => false,
                }
                &&& forall|p2: PlayerId|
                    p2 != player_id ==> post.spec_player(p2) == pre.spec_player(p2)
                &&& post.players@.len() == pre.players@.len() + 1
                &&& post.total_supply == spec_sat_add(
                    pre.total_supply,
                    pre.config.initial_player_tokens,
                )
                &&& (pre.spec_global_player(player_id) is None
                    ==> match post.spec_global_player(player_id) {
                    Some(g) => {
                        &&& g.display_name == display_name
                        &&& g.chain_id == self_chain
                        &&& g.total_earned == 0
                        &&& g.level == 1
                        &&& g.last_updated == 0
                    },
                    None => false,
                })
                &&& (pre.spec_global_player(player_id) is Some ==> post
                    .global_players@ =~= pre.global_players@)
                &&& match r {
                    Ok(d) => {
                        &&& d.targets@ =~= spec_fanout(pre.subscribed_chains@, self_chain)
                        &&& d.message == (Message::GlobalPlayerRegistered {
                            player_id,
                            display_name,
                            chain_id: self_chain,
                            message_id: MessageId {
                                kind: MessageKind::PlayerRegistered,
                                origin: self_chain,
                                time: now,
                                payload: player_id,
                            },
                        })
                    },
                    Err(_) => false,
                }
                &&& post == (PredictionMarketState {
                    players: post.players,
                    total_supply: post.total_supply,
                    global_players: post.global_players,
                    ..pre
                })
            })
}

/// What a profile update leaves behind.
pub open spec fn spec_update_profile_post(
    pre: PredictionMarketState,
    post: PredictionMarketState,
    r: Result<(), ContractError>,
    player_id: PlayerId,
    display_name: Option<String>,
) -> bool {
    &&& (pre.spec_player(player_id) is None ==> {
                &&& r == Err::<(), _>(ContractError::PlayerNotFound)
                &&& post == pre
            })
    &&& (pre.spec_player(player_id) is Some ==> {
                &&& r is Ok
                &&& post.spec_player(player_id) == Some(
                    Player {
                        display_name,
                        ..pre.spec_player(player_id).unwrap()
                    },
                )
                &&& forall|p2: PlayerId|
                    p2 != player_id ==> post.spec_player(p2) == pre.spec_player(p2)
                &&& post == (PredictionMarketState {
                    players: post.players,
                    ..pre
                })
            })
}

/// What claiming the daily reward leaves behind.
pub open spec fn spec_claim_daily_reward_post(
    pre: PredictionMarketState,
    post: PredictionMarketState,
    r: Result<(), ContractError>,
    player_id: PlayerId,
    now: Timestamp,
) -> bool {
    &&& (pre.spec_player(player_id) is None ==> {
                &&& r == Err::<(), _>(ContractError::PlayerNotFound)
                &&& post == pre
            })
    &&& (match pre.spec_player(player_id) {
                Some(p) => {
                    &&& (now < p.last_login + ONE_DAY_MICROS ==> {
                        &&& r == Err::<(), _>(ContractError::DailyRewardAlreadyClaimed)
                        &&& post == pre
                    })
                    &&& (now >= p.last_login + ONE_DAY_MICROS ==> {
                        &&& r is Ok
                        &&& post.spec_player(player_id) == Some(
                            Player {
                                token_balance: spec_sat_add(
                                    p.token_balance,
                                    pre.config.daily_login_reward,
                                ),
                                total_earned: spec_sat_add(
                                    p.total_earned,
                                    pre.config.daily_login_reward,
                                ),
                                last_login: now,
                                ..p
                            },
                        )
                        &&& forall|p2: PlayerId|
                            p2 != player_id ==> post.spec_player(p2) == pre.spec_player(p2)
                        &&& post.total_supply == spec_sat_add(
                            pre.total_supply,
                            pre.config.daily_login_reward,
                        )
                        &&& post == (PredictionMarketState {
                            players: post.players,
                            total_supply: post.total_supply,
                            ..pre
                        })
                    })
                },
                None => true,
            })
}

/// What minting points leaves behind.
pub open spec fn spec_mint_points_post(
    pre: PredictionMarketState,
    post: PredictionMarketState,
    r: Result<(), ContractError>,
    caller: PlayerId,
    amount: Amount,
) -> bool {
    &&& (!pre.spec_is_admin(caller) ==> {
                &&& r == Err::<(), _>(ContractError::NotAdmin)
                &&& post == pre
            })
    &&& (pre.spec_is_admin(caller) ==> {
                &&& r is Ok
                &&& post.total_supply == spec_sat_add(pre.total_supply, amount)
                &&& post == (PredictionMarketState {
                    total_supply: post.total_supply,
                    ..pre
                })
            })
}

/// What replacing the configuration leaves behind.
pub open spec fn spec_update_config_post(
    pre: PredictionMarketState,
    post: PredictionMarketState,
    r: Result<(), ContractError>,
    caller: PlayerId,
    config: GameConfig,
) -> bool {
    &&& (!pre.spec_is_admin(caller) ==> {
                &&& r == Err::<(), _>(ContractError::NotAdmin)
                &&& post == pre
            })
    &&& (pre.spec_is_admin(caller) ==> {
                &&& r is Ok
                &&& post.config == config
                &&& post == (PredictionMarketState { config, ..pre })
            })
}

/// What founding a guild leaves behind.
pub open spec fn spec_create_guild_post(
    pre: PredictionMarketState,
    post: PredictionMarketState,
    r: Result<(GuildId, OutboundDispatch, OutboundDispatch), ContractError>,
    founder: PlayerId,
    name: String,
    self_chain: ChainId,
    now: Timestamp,
) -> bool {
    &&& (pre.spec_player(founder) is None ==> {
                &&& r == Err::<(GuildId, OutboundDispatch, OutboundDispatch), _>(
                    ContractError::PlayerNotFound,
                )
                &&& post == pre
            })
    &&& (match pre.spec_player(founder) {
                Some(p) => {
                    &&& (p.guild_id is Some ==> {
                        &&& r == Err::<(GuildId, OutboundDispatch, OutboundDispatch), _>(
                            ContractError::AlreadyInGuild,
                        )
                        &&& post == pre
                    })
                    &&& (p.guild_id is None ==> match r {
                        Ok((gid, local, global)) => {
                            &&& gid == now % 4294967296
                            &&& match post.spec_guild(gid) {
                                Some(g) => {
                                    &&& g.id == gid
                                    &&& g.name == name
                                    &&& g.founder == founder
                                    &&& g.members@ =~= seq![founder]
                                    &&& g.creation_time == now
                                    &&& g.total_guild_profit == 0
                                    &&& g.guild_level == 1
                                    &&& g.shared_pool == 0
                                },
                                None => false,
                            }
                            &&& forall|g2: GuildId|
                                g2 != gid ==> post.spec_guild(g2) == pre.spec_guild(
                                    g2,
                                )
                            &&& post.spec_player(founder) == Some(
                                Player { guild_id: Some(gid), ..p },
                            )
                            &&& forall|p2: PlayerId|
                                p2 != founder ==> post.spec_player(p2) == pre.spec_player(p2)
                            &&& local.targets@ =~= seq![self_chain]
                            &&& local.message == (Message::GuildCreated { guild_id: gid, name })
                            &&& global.targets@ =~= spec_fanout(
                                pre.subscribed_chains@,
                                self_chain,
                            )
                            &&& global.message == (Message::GlobalGuildCreated {
                                guild_id: gid,
                                name,
                                founder,
                                chain_id: self_chain,
                                message_id: MessageId {
                                    kind: MessageKind::GuildCreated,
                                    origin: self_chain,
                                    time: now,
                                    payload: gid,
                                },
                            })
                            &&& post == (PredictionMarketState {
                                players: post.players,
                                guilds: post.guilds,
                                global_guilds: post.global_guilds,
                                ..pre
                            })
                        },
                        Err(_) => false,
                    })
                },
                None => true,
            })
}

/// What joining a guild leaves behind.
pub open spec fn spec_join_guild_post(
    pre: PredictionMarketState,
    post: PredictionMarketState,
    r: Result<(), ContractError>,
    player_id: PlayerId,
    guild_id: GuildId,
) -> bool {
    &&& (pre.spec_player(player_id) is None ==> {
                &&& r == Err::<(), _>(ContractError::PlayerNotFound)
                &&& post == pre
            })
    &&& (match pre.spec_player(player_id) {
                Some(p) => {
                    &&& (p.guild_id is Some ==> {
                        &&& r == Err::<(), _>(ContractError::AlreadyInGuild)
                        &&& post == pre
                    })
                    &&& (p.guild_id is None && pre.spec_guild(guild_id) is None ==> {
                        &&& r == Err::<(), _>(ContractError::GuildNotFound)
                        &&& post == pre
                    })
                    &&& (p.guild_id is None && pre.spec_guild(guild_id) is Some ==> {
                        &&& r is Ok
                        &&& match post.spec_guild(guild_id) {
                            Some(g) => {
                                &&& g.members@ =~= if pre.spec_guild(
                                    guild_id,
                                ).unwrap().members@.contains(player_id) {
                                    pre.spec_guild(guild_id).unwrap().members@
                                } else {
                                    pre.spec_guild(guild_id).unwrap().members@.push(
                                        player_id,
                                    )
                                }
                                &&& g == (Guild {
                                    members: g.members,
                                    ..pre.spec_guild(guild_id).unwrap()
                                })
                            },
                            None => false,
                        }
                        &&& forall|g2: GuildId|
                            g2 != guild_id ==> post.spec_guild(g2) == pre.spec_guild(
                                g2,
                            )
                        &&& match post.spec_player(player_id) {
                            Some(q) => {
                                &&& q.guild_id == Some(guild_id)
                                &&& q.token_balance >= p.token_balance
                                &&& q.total_earned >= p.total_earned
                                &&& q == (Player {
                                    guild_id: Some(guild_id),
                                    token_balance: q.token_balance,
                                    total_earned: q.total_earned,
                                    experience_points: q.experience_points,
                                    achievements_earned: q.achievements_earned,
                                    ..p
                                })
                            },
                            None => false,
                        }
                        &&& forall|p2: PlayerId|
                            p2 != player_id ==> post.spec_player(p2) == pre.spec_player(p2)
                        &&& post == (PredictionMarketState {
                            players: post.players,
                            guilds: post.guilds,
                            ..pre
                        })
                    })
                },
                None => true,
            })
}

/// What leaving a guild leaves behind.
pub open spec fn spec_leave_guild_post(
    pre: PredictionMarketState,
    post: PredictionMarketState,
    r: Result<(), ContractError>,
    player_id: PlayerId,
) -> bool {
    &&& (pre.spec_player(player_id) is None ==> {
                &&& r == Err::<(), _>(ContractError::PlayerNotFound)
                &&& post == pre
            })
    &&& (match pre.spec_player(player_id) {
                Some(p) => {
                    &&& (p.guild_id is None ==> {
                        &&& r == Err::<(), _>(ContractError::NotGuildMember)
                        &&& post == pre
                    })
                    &&& (match p.guild_id {
                        Some(gid) => {
                            &&& (pre.spec_guild(gid) is None ==> {
                                &&& r == Err::<(), _>(ContractError::GuildNotFound)
                                &&& post == pre
                            })
                            &&& (pre.spec_guild(gid) is Some ==> {
                                &&& r is Ok
                                &&& match post.spec_guild(gid) {
                                    Some(g) => {
                                        &&& g.members@ =~= spec_remove_id(
                                            pre.spec_guild(gid).unwrap().members@,
                                            player_id,
                                        )
                                        &&& g == (Guild {
                                            members: g.members,
                                            ..pre.spec_guild(gid).unwrap()
                                        })
                                    },
                                    None => false,
                                }
                                &&& forall|g2: GuildId|
                                    g2 != gid ==> post.spec_guild(g2) == pre.spec_guild(g2)
                                &&& post.spec_player(player_id) == Some(
                                    Player { guild_id: None, ..p },
                                )
                                &&& forall|p2: PlayerId|
                                    p2 != player_id ==> post.spec_player(p2) == pre.spec_player(p2)
                                &&& post == (PredictionMarketState {
                                    players: post.players,
                                    guilds: post.guilds,
                                    ..pre
                                })
                            })
                        },
                        None => true,
                    })
                },
                None => true,
            })
}

/// What a contribution to the guild pool leaves behind.
pub open spec fn spec_contribute_post(
    pre: PredictionMarketState,
    post: PredictionMarketState,
    r: Result<(), ContractError>,
    player_id: PlayerId,
    amount: Amount,
) -> bool {
    &&& (pre.spec_player(player_id) is None ==> {
                &&& r == Err::<(), _>(ContractError::PlayerNotFound)
                &&& post == pre
            })
    &&& (match pre.spec_player(player_id) {
                Some(p) => {
                    &&& (p.guild_id is None ==> {
                        &&& r == Err::<(), _>(ContractError::NotGuildMember)
                        &&& post == pre
                    })
                    &&& (p.guild_id is Some && p.token_balance < amount ==> {
                        &&& r == Err::<(), _>(ContractError::InsufficientBalance)
                        &&& post == pre
                    })
                    &&& (match p.guild_id {
                        Some(gid) => p.token_balance >= amount ==> {
                            &&& (pre.spec_guild(gid) is None ==> {
                                &&& r == Err::<(), _>(ContractError::GuildNotFound)
                                &&& post == pre
                            })
                            &&& (pre.spec_guild(gid) is Some ==> {
                                &&& r is Ok
                                &&& post.spec_guild(gid) == Some(
                                    Guild {
                                        shared_pool: spec_sat_add(
                                            pre.spec_guild(gid).unwrap().shared_pool,
                                            amount,
                                        ),
                                        ..pre.spec_guild(gid).unwrap()
                                    },
                                )
                                &&& forall|g2: GuildId|
                                    g2 != gid ==> post.spec_guild(g2) == pre.spec_guild(g2)
                                &&& post.spec_player(player_id) == Some(
                                    Player {
                                        token_balance: spec_sat_sub(p.token_balance, amount),
                                        ..p
                                    },
                                )
                                &&& forall|p2: PlayerId|
                                    p2 != player_id ==> post.spec_player(p2) == pre.spec_player(p2)
                                &&& post == (PredictionMarketState {
                                    players: post.players,
                                    guilds: post.guilds,
                                    ..pre
                                })
                            })
                        },
                        None => true,
                    })
                },
                None => true,
            })
}

impl PredictionMarketState {
    /// Register a new player: a fresh account funded with the configured
    /// starting balance, minted into the shard's supply, seeded into the
    /// global projection and announced to every peer. A second registration
    /// of the same player is rejected untouched.
    pub fn register_player(
        &mut self,
        player_id: PlayerId,
        display_name: Option<String>,
        self_chain: ChainId,
        now: Timestamp,
    ) -> (r: Result<OutboundDispatch, ContractError>)
        requires
            old(self).wf(),
        ensures
            final(self).wf(),
            spec_register_player_post(*old(self), *final(self), r, player_id, display_name, self_chain, now),
    {
        if self.players.contains_key(player_id) {
            return Err(ContractError::PlayerAlreadyExists);
        }
        let initial = self.config.initial_player_tokens;
        let player = Player {
            id: player_id,
            display_name: display_name.clone(),
            registration_time: now,
            last_login: now,
            token_balance: initial,
            total_earned: initial,
            total_spent: 0,
            level: 1,
            experience_points: 0,
            reputation: 100,
            markets_participated: 0,
            markets_won: 0,
            total_profit: 0,
            win_streak: 0,
            best_win_streak: 0,
            guild_id: None,
            achievements_earned: Vec::new(),
            active_markets: Vec::new(),
        };
        self.players.put(player_id, player);
        self.total_supply = sat_add(self.total_supply, initial);
        let d = self.broadcast_global_player_registered(player_id, display_name, self_chain, now);
        proof {
            if spec_find(old(self).global_players@, player_id) is None {
                crate::table::lemma_find_none_no_hit(old(self).global_players@, player_id);
                let g = self.global_players@;
                let n = old(self).global_players@.len() as int;
                assert(g[n].0 == player_id);
                assert forall|j: int| 0 <= j < n implies (#[trigger] g[j]).0 != player_id by {
                    assert(g[j] == old(self).global_players@[j]);
                }
                crate::table::lemma_find_first(g, player_id, n);
            }
        }
        Ok(d)
    }

    /// Change a player's display name; everything else is untouched.
    pub fn update_player_profile(&mut self, player_id: PlayerId, display_name: Option<String>) -> (
        r: Result<(), ContractError>)
        requires
            old(self).wf(),
        ensures
            final(self).wf(),
            spec_update_profile_post(*old(self), *final(self), r, player_id, display_name),
    {
        if !self.players.contains_key(player_id) {
            return Err(ContractError::PlayerNotFound);
        }
        let taken = self.players.take(player_id);
        match taken {
            Some(mut p) => {
                p.display_name = display_name;
                self.players.put(player_id, p);
            },
            None => {},
        }
        Ok(())
    }

    /// Credit the daily login reward, minting it into the supply, once per
    /// day of logical time: a claim earlier than a full day after the
    /// player's last login is rejected untouched.
    pub fn claim_daily_reward(&mut self, player_id: PlayerId, now: Timestamp) -> (r: Result<
        (),
        ContractError,
    >)
        requires
            old(self).wf(),
        ensures
            final(self).wf(),
            spec_claim_daily_reward_post(*old(self), *final(self), r, player_id, now),
    {
        let eligible = match self.players.get(player_id) {
            Some(p) => now >= p.last_login && now - p.last_login >= ONE_DAY_MICROS,
            None => {
                return Err(ContractError::PlayerNotFound);
            },
        };
        if !eligible {
            return Err(ContractError::DailyRewardAlreadyClaimed);
        }
        let reward = self.config.daily_login_reward;
        let taken = self.players.take(player_id);
        match taken {
            Some(mut p) => {
                p.token_balance = sat_add(p.token_balance, reward);
                p.total_earned = sat_add(p.total_earned, reward);
                p.last_login = now;
                self.players.put(player_id, p);
            },
            None => {},
        }
        self.total_supply = sat_add(self.total_supply, reward);
        Ok(())
    }

    /// Mint points into the shard's supply; the configured admin alone may.
    pub fn mint_points(&mut self, caller: PlayerId, amount: Amount) -> (r: Result<
        (),
        ContractError,
    >)
        requires
            old(self).wf(),
        ensures
            final(self).wf(),
            spec_mint_points_post(*old(self), *final(self), r, caller, amount),
    {
        if !self.is_admin(caller) {
            return Err(ContractError::NotAdmin);
        }
        self.total_supply = sat_add(self.total_supply, amount);
        Ok(())
    }

    /// Replace the game configuration; the configured admin alone may.
    pub fn update_game_config(&mut self, caller: PlayerId, config: GameConfig) -> (r: Result<
        (),
        ContractError,
    >)
        requires
            old(self).wf(),
        ensures
            final(self).wf(),
            spec_update_config_post(*old(self), *final(self), r, caller, config),
    {
        if !self.is_admin(caller) {
            return Err(ContractError::NotAdmin);
        }
        self.config = config;
        Ok(())
    }

    /// Is `caller` the configured admin?
    pub fn is_admin(&self, caller: PlayerId) -> (b: bool)
        ensures
            b == self.spec_is_admin(caller),
    {
        match self.config.admin {
            Some(admin) => admin == caller,
            None => false,
        }
    }

    /// Found a guild: the founder must exist and be guildless. The guild id
    /// is derived from the shard's logical clock; the founding is seeded
    /// into the global projection and announced to every peer, and a local
    /// founding event is planned for this shard itself.
    pub fn create_guild(
        &mut self,
        founder: PlayerId,
        name: String,
        self_chain: ChainId,
        now: Timestamp,
    ) -> (r: Result<(GuildId, OutboundDispatch, OutboundDispatch), ContractError>)
        requires
            old(self).wf(),
        ensures
            final(self).wf(),
            spec_create_guild_post(*old(self), *final(self), r, founder, name, self_chain, now),
    {
        let guildless = match self.players.get(founder) {
            Some(p) => p.guild_id.is_none(),
            None => {
                return Err(ContractError::PlayerNotFound);
            },
        };
        if !guildless {
            return Err(ContractError::AlreadyInGuild);
        }
        let new_id: GuildId = now % 4294967296;
        let mut members: Vec<PlayerId> = Vec::new();
        members.push(founder);
        let guild = Guild {
            id: new_id,
            name: name.clone(),
            founder,
            members,
            creation_time: now,
            total_guild_profit: 0,
            guild_level: 1,
            shared_pool: 0,
        };
        self.guilds.put(new_id, guild);
        let taken = self.players.take(founder);
        match taken {
            Some(mut p) => {
                p.guild_id = Some(new_id);
                self.players.put(founder, p);
            },
            None => {},
        }
        let mut local_targets: Vec<ChainId> = Vec::new();
        local_targets.push(self_chain);
        let local = OutboundDispatch {
            targets: local_targets,
            message: Message::GuildCreated { guild_id: new_id, name: name.clone() },
        };
        let global = self.broadcast_global_guild_created(new_id, name, founder, self_chain, now);
        Ok((new_id, local, global))
    }

    /// Join an existing guild: the player must exist and be guildless. The
    /// member list gains the player (never twice) and joining may grant the
    /// guild-membership achievement, so the player's balance can only grow.
    pub fn join_guild(&mut self, player_id: PlayerId, guild_id: GuildId) -> (r: Result<
        (),
        ContractError,
    >)
        requires
            old(self).wf(),
        ensures
            final(self).wf(),
            spec_join_guild_post(*old(self), *final(self), r, player_id, guild_id),
    {
        let guildless = match self.players.get(player_id) {
            Some(p) => p.guild_id.is_none(),
            None => {
                return Err(ContractError::PlayerNotFound);
            },
        };
        if !guildless {
            return Err(ContractError::AlreadyInGuild);
        }
        if !self.guilds.contains_key(guild_id) {
            return Err(ContractError::GuildNotFound);
        }
        let taken_guild = self.guilds.take(guild_id);
        match taken_guild {
            Some(mut g) => {
                if !contains_u64(&g.members, player_id) {
                    proof {
                        lemma_push_distinct(g.members@, player_id);
                    }
                    g.members.push(player_id);
                }
                self.guilds.put(guild_id, g);
            },
            None => {},
        }
        let taken = self.players.take(player_id);
        match taken {
            Some(mut p) => {
                p.guild_id = Some(guild_id);
                let _granted = check_achievements(&mut p, &self.achievements, &self.markets);
                self.players.put(player_id, p);
            },
            None => {},
        }
        Ok(())
    }

    /// Leave the current guild: the player drops off the member list and
    /// becomes guildless.
    pub fn leave_guild(&mut self, player_id: PlayerId) -> (r: Result<(), ContractError>)
        requires
            old(self).wf(),
        ensures
            final(self).wf(),
            spec_leave_guild_post(*old(self), *final(self), r, player_id),
    {
        let gid = match self.players.get(player_id) {
            Some(p) => match p.guild_id {
                Some(gid) => gid,
                None => {
                    return Err(ContractError::NotGuildMember);
                },
            },
            None => {
                return Err(ContractError::PlayerNotFound);
            },
        };
        if !self.guilds.contains_key(gid) {
            return Err(ContractError::GuildNotFound);
        }
        let taken_guild = self.guilds.take(gid);
        match taken_guild {
            Some(mut g) => {
                proof {
                    lemma_remove_id_distinct(g.members@, player_id);
                }
                let kept = remove_id(&g.members, player_id);
                g.members = kept;
                self.guilds.put(gid, g);
            },
            None => {},
        }
        let taken = self.players.take(player_id);
        match taken {
            Some(mut p) => {
                p.guild_id = None;
                self.players.put(player_id, p);
            },
            None => {},
        }
        Ok(())
    }

    /// Move points from a member's balance into the guild's shared pool.
    pub fn contribute_to_guild(&mut self, player_id: PlayerId, amount: Amount) -> (r: Result<
        (),
        ContractError,
    >)
        requires
            old(self).wf(),
        ensures
            final(self).wf(),
            spec_contribute_post(*old(self), *final(self), r, player_id, amount),
    {
        let (gid, enough) = match self.players.get(player_id) {
            Some(p) => match p.guild_id {
                Some(gid) => (gid, p.token_balance >= amount),
                None => {
                    return Err(ContractError::NotGuildMember);
                },
            },
            None => {
                return Err(ContractError::PlayerNotFound);
            },
        };
        if !enough {
            return Err(ContractError::InsufficientBalance);
        }
        if !self.guilds.contains_key(gid) {
            return Err(ContractError::GuildNotFound);
        }
        let taken = self.players.take(player_id);
        match taken {
            Some(mut p) => {
                p.token_balance = sat_sub(p.token_balance, amount);
                self.players.put(player_id, p);
            },
            None => {},
        }
        let taken_guild = self.guilds.take(gid);
        match taken_guild {
            Some(mut g) => {
                g.shared_pool = sat_add(g.shared_pool, amount);
                self.guilds.put(gid, g);
            },
            None => {},
        }
        Ok(())
    }
}

proof fn lemma_push_distinct(ids: Seq<u64>, id: u64)
    requires
        ids_distinct(ids),
        !ids.contains(id),
    ensures
        ids_distinct(ids.push(id)),
{
    assert forall|i: int, j: int| 0 <= i < j < ids.push(id).len() implies #[trigger] ids.push(
        id,
    )[i] != #[trigger] ids.push(id)[j] by {
        if j < ids.len() {
            assert(ids.push(id)[i] == ids[i] && ids.push(id)[j] == ids[j]);
        } else {
            assert(ids.push(id)[j] == id);
            assert(ids.push(id)[i] == ids[i]);
            assert(ids.contains(ids[i]));
        }
    }
}

} // verus!
