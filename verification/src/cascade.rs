//! Reward and penalty cascades for resolved forecasts.
//!
//! A correct forecast pays the window's tier once to the predictor — or,
//! when the predictor belongs to a guild, once to every member of that
//! guild, the predictor among them, and never twice to the same account.
//! A wrong forecast deducts the same tier, clamped so no balance goes
//! negative; a member's shortfall never stops the rest of the cascade.
//! The minted (or burned) supply moves in step with the balances.

use vstd::prelude::*;
use crate::board::{spec_guild_board, spec_local_board};
use crate::messages::spec_broadcast_player_updated_post;
use crate::progress::{check_achievements, spec_threshold};
use crate::state::PredictionMarketState;
use crate::table::spec_find;
use crate::types::{
    sat_add, sat_mul, sat_sub, spec_sat_add, spec_sat_add64, spec_sat_mul, spec_sat_sub, Amount,
    ChainId, ContractError, Message, MessageId, MessageKind, OutboundDispatch, Player, PlayerId,
    PredictionPeriod, Timestamp,
};
use crate::engine::{
    reward_tier, spec_guild_xp_tier, spec_reward_tier, spec_xp_tier, guild_xp_tier, xp_tier,
};

verus! {

/// Will granting `xp` experience leave the player's level unchanged?
pub open spec fn spec_no_level_up(p: Player, xp: u64) -> bool {
    spec_sat_add64(p.experience_points, xp) < spec_threshold(p.level)
}

/// How a reward lands on one account: the tier is credited to balance and
/// lifetime earnings and the experience is added; when a level is gained,
/// achievement bonuses may add more on top, and nothing else changes.
pub open spec fn spec_reward_applied(q: Player, reward: Amount, xp: u64, q2: Player) -> bool {
    &&& q2.token_balance >= spec_sat_add(q.token_balance, reward)
    &&& q2.total_earned >= spec_sat_add(q.total_earned, reward)
    &&& q2.experience_points >= spec_sat_add64(q.experience_points, xp)
    &&& q2.level >= q.level
    &&& q2 == (Player {
        token_balance: q2.token_balance,
        total_earned: q2.total_earned,
        experience_points: q2.experience_points,
        level: q2.level,
        achievements_earned: q2.achievements_earned,
        ..q
    })
    &&& (spec_no_level_up(q, xp) ==> q2 == (Player {
        token_balance: spec_sat_add(q.token_balance, reward),
        total_earned: spec_sat_add(q.total_earned, reward),
        experience_points: spec_sat_add64(q.experience_points, xp),
        ..q
    }))
}

/// How a penalty lands on one account: the tier is deducted, clamped at
/// zero, and what was actually deducted is added to lifetime spending.
pub open spec fn spec_penalty_applied(q: Player, penalty: Amount) -> Player {
    Player {
        token_balance: spec_sat_sub(q.token_balance, penalty),
        total_spent: spec_sat_add(
            q.total_spent,
            if q.token_balance >= penalty {
                penalty
            } else {
                q.token_balance
            },
        ),
        ..q
    }
}

/// How many of the listed members have an account on this shard.
pub open spec fn spec_present_count(players: Seq<(u64, Player)>, members: Seq<u64>) -> int
    decreases members.len(),
{
    if members.len() == 0 {
        0int
    } else {
        spec_present_count(players, members.drop_last()) + (if spec_find(
            players,
            members.last(),
        ) is Some {
            1int
        } else {
            0int
        })
    }
}

proof fn lemma_present_count_bound(players: Seq<(u64, Player)>, members: Seq<u64>)
    ensures
        0 <= spec_present_count(players, members) <= members.len(),
    decreases members.len(),
{
    if members.len() > 0 {
        lemma_present_count_bound(players, members.drop_last());
    }
}

/// What paying an individual reward leaves behind.
pub open spec fn spec_award_post(
    pre: PredictionMarketState,
    post: PredictionMarketState,
    r: Result<OutboundDispatch, ContractError>,
    player_id: PlayerId,
    period: PredictionPeriod,
    self_chain: ChainId,
    now: Timestamp,
) -> bool {
    &&& (pre.spec_player(player_id) is None ==> {
                &&& r == Err::<OutboundDispatch, _>(ContractError::PlayerNotFound)
                &&& post == pre
            })
    &&& (match pre.spec_player(player_id) {
                Some(p) => {
                    &&& r is Ok
                    &&& match post.spec_player(player_id) {
                        Some(q) => spec_reward_applied(
                            p,
                            spec_reward_tier(period),
                            spec_xp_tier(period),
                            q,
                        ),
                        None => false,
                    }
                    &&& forall|p2: PlayerId|
                        p2 != player_id ==> post.spec_player(p2) == pre.spec_player(
                            p2,
                        )
                    &&& post.total_supply == spec_sat_add(
                        pre.total_supply,
                        spec_reward_tier(period),
                    )
                    &&& post.leaderboard.top_traders@ =~= spec_local_board(
                        post.players@,
                    )
                    &&& post.leaderboard.top_guilds@ =~= spec_guild_board(
                        post.players@,
                        pre.guilds@,
                    )
                    &&& match r {
                        Ok(d) => {
                            &&& d.targets@ =~= crate::messages::spec_fanout(
                                pre.subscribed_chains@,
                                self_chain,
                            )
                            &&& d.message == (Message::GlobalPlayerUpdated {
                                player_id,
                                total_earned: post.spec_player(
                                    player_id,
                                ).unwrap().total_earned,
                                total_profit: post.spec_player(
                                    player_id,
                                ).unwrap().total_profit,
                                level: post.spec_player(player_id).unwrap().level,
                                chain_id: self_chain,
                                timestamp: now,
                                message_id: MessageId {
                                    kind: MessageKind::PlayerUpdated,
                                    origin: self_chain,
                                    time: now,
                                    payload: player_id,
                                },
                            })
                        },
                        Err(_) => false,
                    }
                    &&& post == (PredictionMarketState {
                        players: post.players,
                        total_supply: post.total_supply,
                        leaderboard: post.leaderboard,
                        global_players: post.global_players,
                        ..pre
                    })
                },
                None => true,
            })
}

/// What charging an individual penalty leaves behind.
pub open spec fn spec_penalize_post(
    pre: PredictionMarketState,
    post: PredictionMarketState,
    r: Result<(), ContractError>,
    player_id: PlayerId,
    period: PredictionPeriod,
) -> bool {
    &&& (pre.spec_player(player_id) is None ==> {
                &&& r == Err::<(), _>(ContractError::PlayerNotFound)
                &&& post == pre
            })
    &&& (match pre.spec_player(player_id) {
                Some(p) => {
                    &&& r is Ok
                    &&& post.spec_player(player_id) == Some(
                        spec_penalty_applied(p, spec_reward_tier(period)),
                    )
                    &&& forall|p2: PlayerId|
                        p2 != player_id ==> post.spec_player(p2) == pre.spec_player(
                            p2,
                        )
                    &&& post.total_supply == spec_sat_sub(
                        pre.total_supply,
                        if spec_reward_tier(period) <= pre.total_supply {
                            spec_reward_tier(period)
                        } else {
                            pre.total_supply
                        },
                    )
                    &&& post == (PredictionMarketState {
                        players: post.players,
                        total_supply: post.total_supply,
                        ..pre
                    })
                },
                None => true,
            })
}

/// What the guild-wide reward cascade leaves behind.
pub open spec fn spec_guild_award_post(
    pre: PredictionMarketState,
    post: PredictionMarketState,
    r: Result<(), ContractError>,
    player_id: PlayerId,
    period: PredictionPeriod,
) -> bool {
    &&& (pre.spec_player(player_id) is None ==> {
                &&& r == Err::<(), _>(ContractError::PlayerNotFound)
                &&& post == pre
            })
    &&& (match pre.spec_player(player_id) {
                Some(p) => {
                    &&& r is Ok
                    &&& (p.guild_id is None ==> post == pre)
                    &&& match p.guild_id {
                        Some(gid) => {
                            &&& (pre.spec_guild(gid) is None ==> post == pre)
                            &&& match pre.spec_guild(gid) {
                                Some(g) => {
                                    &&& forall|p2: PlayerId|
                                        !g.members@.contains(p2) ==> post.spec_player(p2)
                                            == pre.spec_player(p2)
                                    &&& forall|p2: PlayerId|
                                        g.members@.contains(p2) ==> match pre.spec_player(
                                            p2,
                                        ) {
                                            Some(q) => match post.spec_player(p2) {
                                                Some(q2) => spec_reward_applied(
                                                    q,
                                                    spec_reward_tier(period),
                                                    spec_guild_xp_tier(period),
                                                    q2,
                                                ),
                                                None => false,
                                            },
                                            None => post.spec_player(p2) is None,
                                        }
                                    &&& post.total_supply == spec_sat_add(
                                        pre.total_supply,
                                        spec_sat_mul(
                                            spec_reward_tier(period),
                                            spec_present_count(
                                                pre.players@,
                                                g.members@,
                                            ) as Amount,
                                        ),
                                    )
                                    &&& post.leaderboard.top_traders@ =~= spec_local_board(
                                        post.players@,
                                    )
                                    &&& post.leaderboard.top_guilds@ =~= spec_guild_board(
                                        post.players@,
                                        pre.guilds@,
                                    )
                                    &&& post == (PredictionMarketState {
                                        players: post.players,
                                        total_supply: post.total_supply,
                                        leaderboard: post.leaderboard,
                                        ..pre
                                    })
                                },
                                None => true,
                            }
                        },
                        None => true,
                    }
                },
                None => true,
            })
}

/// What the guild-wide penalty cascade leaves behind.
pub open spec fn spec_guild_penalize_post(
    pre: PredictionMarketState,
    post: PredictionMarketState,
    r: Result<(), ContractError>,
    player_id: PlayerId,
    period: PredictionPeriod,
) -> bool {
    &&& (pre.spec_player(player_id) is None ==> {
                &&& r == Err::<(), _>(ContractError::PlayerNotFound)
                &&& post == pre
            })
    &&& (match pre.spec_player(player_id) {
                Some(p) => {
                    &&& r is Ok
                    &&& (p.guild_id is None ==> post == pre)
                    &&& match p.guild_id {
                        Some(gid) => {
                            &&& (pre.spec_guild(gid) is None ==> post == pre)
                            &&& match pre.spec_guild(gid) {
                                Some(g) => {
                                    &&& forall|p2: PlayerId|
                                        !g.members@.contains(p2) ==> post.spec_player(p2)
                                            == pre.spec_player(p2)
                                    &&& forall|p2: PlayerId|
                                        g.members@.contains(p2) ==> match pre.spec_player(
                                            p2,
                                        ) {
                                            Some(q) => post.spec_player(p2) == Some(
                                                spec_penalty_applied(q, spec_reward_tier(period)),
                                            ),
                                            None => post.spec_player(p2) is None,
                                        }
                                    &&& post.total_supply == spec_sat_sub(
                                        pre.total_supply,
                                        if spec_sat_mul(
                                            spec_reward_tier(period),
                                            spec_present_count(
                                                pre.players@,
                                                g.members@,
                                            ) as Amount,
                                        ) <= pre.total_supply {
                                            spec_sat_mul(
                                                spec_reward_tier(period),
                                                spec_present_count(
                                                    pre.players@,
                                                    g.members@,
                                                ) as Amount,
                                            )
                                        } else {
                                            pre.total_supply
                                        },
                                    )
                                    &&& post == (PredictionMarketState {
                                        players: post.players,
                                        total_supply: post.total_supply,
                                        ..pre
                                    })
                                },
                                None => true,
                            }
                        },
                        None => true,
                    }
                },
                None => true,
            })
}

/// The accounts a settlement for `predictor` may touch: every member of
/// the predictor's guild, or the predictor alone when guildless. An
/// unknown predictor (or a dangling guild id) touches nobody.
pub open spec fn spec_settlement_parties(
    s: PredictionMarketState,
    predictor: PlayerId,
    p2: PlayerId,
) -> bool {
    match s.spec_player(predictor) {
        Some(p) => match p.guild_id {
            Some(gid) => match s.spec_guild(gid) {
                Some(g) => g.members@.contains(p2),
                None => false,
            },
            None => p2 == predictor,
        },
        None => false,
    }
}

/// The guild reward path touches only the guild's members, and no account
/// is removed or moved between guilds.
proof fn lemma_settlement_frame_guild(
    pre: PredictionMarketState,
    mid: PredictionMarketState,
    post: PredictionMarketState,
    player_id: PlayerId,
    period: PredictionPeriod,
)
    requires
        pre.spec_player(player_id) is Some,
        pre.spec_player(player_id).unwrap().guild_id is Some,
        spec_guild_award_post(pre, mid, Ok(()), player_id, period),
        post.players == mid.players,
    ensures
        forall|p2: PlayerId|
            !spec_settlement_parties(pre, player_id, p2) ==> post.spec_player(p2)
                == pre.spec_player(p2),
        forall|p2: PlayerId|
            #![trigger post.spec_player(p2)]
            match pre.spec_player(p2) {
                Some(q) => match post.spec_player(p2) {
                    Some(q2) => q2.id == q.id && q2.guild_id == q.guild_id,
                    None => false,
                },
                None => post.spec_player(p2) is None,
            },
{
    let p = pre.spec_player(player_id).unwrap();
    let gid = p.guild_id.unwrap();
    assert forall|p2: PlayerId| true implies post.spec_player(p2) == mid.spec_player(p2) by {}
    match pre.spec_guild(gid) {
        Some(g) => {
            assert forall|p2: PlayerId|
                !spec_settlement_parties(pre, player_id, p2) implies post.spec_player(p2)
                == pre.spec_player(p2) by {
                assert(!g.members@.contains(p2));
            }
            assert forall|p2: PlayerId| #![trigger post.spec_player(p2)] true implies (match pre.spec_player(p2) {
                Some(q) => match post.spec_player(p2) {
                    Some(q2) => q2.id == q.id && q2.guild_id == q.guild_id,
                    None => false,
                },
                None => post.spec_player(p2) is None,
            }) by {
                if g.members@.contains(p2) {
                } else {
                }
            }
        },
        None => {},
    }
}

/// The individual award path touches only the predictor.
proof fn lemma_settlement_frame_individual(
    pre: PredictionMarketState,
    post: PredictionMarketState,
    player_id: PlayerId,
    period: PredictionPeriod,
    r: Result<OutboundDispatch, ContractError>,
    self_chain: ChainId,
    now: Timestamp,
)
    requires
        match pre.spec_player(player_id) {
            Some(p) => p.guild_id is None,
            None => true,
        },
        spec_award_post(pre, post, r, player_id, period, self_chain, now),
    ensures
        forall|p2: PlayerId|
            !spec_settlement_parties(pre, player_id, p2) ==> post.spec_player(p2)
                == pre.spec_player(p2),
        forall|p2: PlayerId|
            #![trigger post.spec_player(p2)]
            match pre.spec_player(p2) {
                Some(q) => match post.spec_player(p2) {
                    Some(q2) => q2.id == q.id && q2.guild_id == q.guild_id,
                    None => false,
                },
                None => post.spec_player(p2) is None,
            },
{
}

/// The guild penalty path touches only the guild's members.
proof fn lemma_settlement_frame_guild_penalty(
    pre: PredictionMarketState,
    post: PredictionMarketState,
    player_id: PlayerId,
    period: PredictionPeriod,
)
    requires
        spec_guild_penalize_post(pre, post, Ok(()), player_id, period) || pre.spec_player(
            player_id,
        ) is None,
        pre.spec_player(player_id) is Some ==> pre.spec_player(player_id).unwrap().guild_id
            is Some,
        pre.spec_player(player_id) is None ==> post == pre,
    ensures
        forall|p2: PlayerId|
            !spec_settlement_parties(pre, player_id, p2) ==> post.spec_player(p2)
                == pre.spec_player(p2),
        forall|p2: PlayerId|
            #![trigger post.spec_player(p2)]
            match pre.spec_player(p2) {
                Some(q) => match post.spec_player(p2) {
                    Some(q2) => q2.id == q.id && q2.guild_id == q.guild_id,
                    None => false,
                },
                None => post.spec_player(p2) is None,
            },
{
}

/// The individual penalty path touches only the predictor.
proof fn lemma_settlement_frame_penalty(
    pre: PredictionMarketState,
    post: PredictionMarketState,
    player_id: PlayerId,
    period: PredictionPeriod,
)
    requires
        match pre.spec_player(player_id) {
            Some(p) => p.guild_id is None,
            None => true,
        },
        spec_penalize_post(pre, post, Ok(()), player_id, period) || (pre.spec_player(player_id)
            is None && post == pre),
    ensures
        forall|p2: PlayerId|
            !spec_settlement_parties(pre, player_id, p2) ==> post.spec_player(p2)
                == pre.spec_player(p2),
        forall|p2: PlayerId|
            #![trigger post.spec_player(p2)]
            match pre.spec_player(p2) {
                Some(q) => match post.spec_player(p2) {
                    Some(q2) => q2.id == q.id && q2.guild_id == q.guild_id,
                    None => false,
                },
                None => post.spec_player(p2) is None,
            },
{
}

impl PredictionMarketState {
    /// Pay a correct forecast's tier to the predictor alone: balance and
    /// lifetime earnings grow by the tier, the tier is minted into the
    /// supply, the leaderboard is rebuilt, and the refreshed totals are
    /// announced to every peer.
    #[verifier::loop_isolation(false)]
    pub fn award_prediction_reward(
        &mut self,
        player_id: PlayerId,
        period: PredictionPeriod,
        self_chain: ChainId,
        now: Timestamp,
    ) -> (r: Result<OutboundDispatch, ContractError>)
        requires
            old(self).wf(),
        ensures
            final(self).wf(),
            spec_award_post(*old(self), *final(self), r, player_id, period, self_chain, now),
    {
        if !self.players.contains_key(player_id) {
            return Err(ContractError::PlayerNotFound);
        }
        let reward = reward_tier(period);
        let xp = xp_tier(period);
        let mut earned: Amount = 0;
        let mut profit: Amount = 0;
        let mut level: u32 = 1;
        let taken = self.players.take(player_id);
        match taken {
            Some(mut p) => {
                p.token_balance = sat_add(p.token_balance, reward);
                p.total_earned = sat_add(p.total_earned, reward);
                let leveled = p.add_experience(xp);
                if leveled {
                    let _granted = check_achievements(&mut p, &self.achievements, &self.markets);
                }
                earned = p.total_earned;
                profit = p.total_profit;
                level = p.level;
                self.players.put(player_id, p);
            },
            None => {},
        }
        self.total_supply = sat_add(self.total_supply, reward);
        self.update_enhanced_leaderboard(now);
        let d = self.broadcast_global_player_updated(
            player_id,
            earned,
            profit,
            level,
            self_chain,
            now,
        );
        Ok(d)
    }

    /// Deduct a wrong forecast's tier from the predictor alone, clamped at
    /// zero; what was deducted is burned from the supply (also clamped).
    pub fn penalize_prediction_loss(&mut self, player_id: PlayerId, period: PredictionPeriod) -> (
        r: Result<(), ContractError>)
        requires
            old(self).wf(),
        ensures
            final(self).wf(),
            spec_penalize_post(*old(self), *final(self), r, player_id, period),
    {
        if !self.players.contains_key(player_id) {
            return Err(ContractError::PlayerNotFound);
        }
        let penalty = reward_tier(period);
        let taken = self.players.take(player_id);
        match taken {
            Some(mut p) => {
                let deducted = if p.token_balance >= penalty {
                    penalty
                } else {
                    p.token_balance
                };
                p.token_balance = sat_sub(p.token_balance, penalty);
                p.total_spent = sat_add(p.total_spent, deducted);
                self.players.put(player_id, p);
            },
            None => {},
        }
        let burn = if penalty <= self.total_supply {
            penalty
        } else {
            self.total_supply
        };
        self.total_supply = sat_sub(self.total_supply, burn);
        Ok(())
    }

    /// Pay a correct forecast's tier once to every member of the
    /// predictor's guild (the predictor among them). A member without an
    /// account on this shard is skipped — one member's failure never stops
    /// the cascade — and the supply grows by tier times the members paid.
    /// A guildless predictor, or a dangling guild id, makes this a no-op.
    #[verifier::loop_isolation(false)]
    pub fn award_guild_prediction_reward(
        &mut self,
        player_id: PlayerId,
        period: PredictionPeriod,
        now: Timestamp,
    ) -> (r: Result<(), ContractError>)
        requires
            old(self).wf(),
        ensures
            final(self).wf(),
            spec_guild_award_post(*old(self), *final(self), r, player_id, period),
    {
        let gid = match self.players.get(player_id) {
            Some(p) => match p.guild_id {
                Some(gid) => gid,
                None => {
                    return Ok(());
                },
            },
            None => {
                return Err(ContractError::PlayerNotFound);
            },
        };
        let members: Vec<u64> = match self.guilds.get(gid) {
            Some(g) => g.members.clone(),
            None => {
                return Ok(());
            },
        };
        proof {
            assert(members@ =~= old(self).spec_guild(gid).unwrap().members@);
        }
        let reward = reward_tier(period);
        let gxp = guild_xp_tier(period);
        let n: usize = members.len();
        let mut k: usize = 0;
        let mut paid: u64 = 0;
        proof {
            assert(members@.take(0) =~= Seq::<u64>::empty());
        }
        while k < n
            invariant
                k <= n,
                paid == spec_present_count(old(self).players@, members@.take(k as int)),
                paid <= k,
                self.players.wf(),
                forall|p2: PlayerId|
                    !members@.take(k as int).contains(p2) ==> self.spec_player(p2) == old(
                        self,
                    ).spec_player(p2),
                forall|p2: PlayerId|
                    members@.take(k as int).contains(p2) ==> match old(self).spec_player(p2) {
                        Some(q) => match self.spec_player(p2) {
                            Some(q2) => spec_reward_applied(
                                q,
                                spec_reward_tier(period),
                                spec_guild_xp_tier(period),
                                q2,
                            ),
                            None => false,
                        },
                        None => self.spec_player(p2) is None,
                    },
                *self == (PredictionMarketState { players: self.players, ..*old(self) }),
            decreases n - k,
        {
            let m = members[k];
            let already = contains_prefix(&members, k, m);
            if !already {
                let taken = self.players.take(m);
                match taken {
                    Some(mut q) => {
                        q.token_balance = sat_add(q.token_balance, reward);
                        q.total_earned = sat_add(q.total_earned, reward);
                        let leveled = q.add_experience(gxp);
                        if leveled {
                            let _granted = check_achievements(
                                &mut q,
                                &self.achievements,
                                &self.markets,
                            );
                        }
                        self.players.put(m, q);
                        paid = paid + 1;
                    },
                    None => {},
                }
            }
            k = k + 1;
            proof {
                assert(members@.take(k as int).drop_last() =~= members@.take(k as int - 1));
                assert(members@.take(k as int).last() == members@[k as int - 1]);
                assert forall|p2: PlayerId| members@.take(k as int).contains(p2) implies (
                members@.take(k as int - 1).contains(p2) || p2 == members@[k as int - 1]) by {
                    let w = choose|w: int|
                        0 <= w < k as int && (#[trigger] members@.take(k as int)[w]) == p2;
                    if w < k as int - 1 {
                        assert(members@.take(k as int - 1)[w] == p2);
                    }
                }
                assert forall|p2: PlayerId| members@.take(k as int - 1).contains(p2) implies
                    members@.take(k as int).contains(p2) by {
                    let w = choose|w: int|
                        0 <= w < k as int - 1 && (#[trigger] members@.take(k as int - 1)[w]) == p2;
                    assert(members@.take(k as int)[w] == p2);
                }
                if already {
                    assert(members@.take(k as int - 1).contains(members@[k as int - 1]));
                    assert(old(self).spec_player(members@[k as int - 1]) is Some
                        ==> spec_find(old(self).players@, members@[k as int - 1]) is Some);
                }
            }
        }
        proof {
            assert(members@.take(n as int) =~= members@);
            lemma_present_count_bound(old(self).players@, members@);
        }
        self.total_supply = sat_add(self.total_supply, sat_mul(reward, paid as Amount));
        self.update_enhanced_leaderboard(now);
        Ok(())
    }

    /// Deduct a wrong forecast's tier once from every member of the
    /// predictor's guild, each clamped at zero; a member without an account
    /// is skipped. The supply burns tier times the members charged, clamped
    /// at the supply itself.
    #[verifier::loop_isolation(false)]
    pub fn penalize_guild_prediction_loss(
        &mut self,
        player_id: PlayerId,
        period: PredictionPeriod,
    ) -> (r: Result<(), ContractError>)
        requires
            old(self).wf(),
        ensures
            final(self).wf(),
            spec_guild_penalize_post(*old(self), *final(self), r, player_id, period),
    {
        let gid = match self.players.get(player_id) {
            Some(p) => match p.guild_id {
                Some(gid) => gid,
                None => {
                    return Ok(());
                },
            },
            None => {
                return Err(ContractError::PlayerNotFound);
            },
        };
        let members: Vec<u64> = match self.guilds.get(gid) {
            Some(g) => g.members.clone(),
            None => {
                return Ok(());
            },
        };
        proof {
            assert(members@ =~= old(self).spec_guild(gid).unwrap().members@);
        }
        let penalty = reward_tier(period);
        let n: usize = members.len();
        let mut k: usize = 0;
        let mut charged: u64 = 0;
        proof {
            assert(members@.take(0) =~= Seq::<u64>::empty());
        }
        while k < n
            invariant
                k <= n,
                charged == spec_present_count(old(self).players@, members@.take(k as int)),
                charged <= k,
                self.players.wf(),
                forall|p2: PlayerId|
                    !members@.take(k as int).contains(p2) ==> self.spec_player(p2) == old(
                        self,
                    ).spec_player(p2),
                forall|p2: PlayerId|
                    members@.take(k as int).contains(p2) ==> match old(self).spec_player(p2) {
                        Some(q) => self.spec_player(p2) == Some(
                            spec_penalty_applied(q, spec_reward_tier(period)),
                        ),
                        None => self.spec_player(p2) is None,
                    },
                *self == (PredictionMarketState { players: self.players, ..*old(self) }),
            decreases n - k,
        {
            let m = members[k];
            let already = contains_prefix(&members, k, m);
            if !already {
                let taken = self.players.take(m);
                match taken {
                    Some(mut q) => {
                        let deducted = if q.token_balance >= penalty {
                            penalty
                        } else {
                            q.token_balance
                        };
                        q.token_balance = sat_sub(q.token_balance, penalty);
                        q.total_spent = sat_add(q.total_spent, deducted);
                        self.players.put(m, q);
                        charged = charged + 1;
                    },
                    None => {},
                }
            }
            k = k + 1;
            proof {
                assert(members@.take(k as int).drop_last() =~= members@.take(k as int - 1));
                assert(members@.take(k as int).last() == members@[k as int - 1]);
                assert forall|p2: PlayerId| members@.take(k as int).contains(p2) implies (
                members@.take(k as int - 1).contains(p2) || p2 == members@[k as int - 1]) by {
                    let w = choose|w: int|
                        0 <= w < k as int && (#[trigger] members@.take(k as int)[w]) == p2;
                    if w < k as int - 1 {
                        assert(members@.take(k as int - 1)[w] == p2);
                    }
                }
                assert forall|p2: PlayerId| members@.take(k as int - 1).contains(p2) implies
                    members@.take(k as int).contains(p2) by {
                    let w = choose|w: int|
                        0 <= w < k as int - 1 && (#[trigger] members@.take(k as int - 1)[w]) == p2;
                    assert(members@.take(k as int)[w] == p2);
                }
                if already {
                    assert(members@.take(k as int - 1).contains(members@[k as int - 1]));
                }
            }
        }
        proof {
            assert(members@.take(n as int) =~= members@);
            lemma_present_count_bound(old(self).players@, members@);
        }
        let total = sat_mul(penalty, charged as Amount);
        let burn = if total <= self.total_supply {
            total
        } else {
            self.total_supply
        };
        self.total_supply = sat_sub(self.total_supply, burn);
        Ok(())
    }

    /// Settle one resolved forecast: a correct one pays the tier to the
    /// predictor's guild (every member once) or, for a guildless predictor,
    /// to the predictor alone; a wrong one deducts it likewise. The
    /// predictor's refreshed totals are announced to every peer either way.
    /// Settle one resolved forecast: a correct one pays the tier to the
    /// predictor's guild (every member once) or, for a guildless predictor,
    /// to the predictor alone, and announces the predictor's refreshed
    /// totals to every peer; a wrong one deducts the tier likewise, clamped
    /// at zero. Each case's effect is exactly the matching cascade
    /// postcondition; players outside the settlement — neither the
    /// predictor nor a member of the predictor's guild — are untouched, and
    /// no settlement ever removes an account or moves it between guilds.
    pub fn settle_prediction(
        &mut self,
        player_id: PlayerId,
        period: PredictionPeriod,
        correct: bool,
        self_chain: ChainId,
        now: Timestamp,
    ) -> (out: Vec<OutboundDispatch>)
        requires
            old(self).wf(),
        ensures
            final(self).wf(),
            *final(self) == (PredictionMarketState {
                players: final(self).players,
                total_supply: final(self).total_supply,
                leaderboard: final(self).leaderboard,
                global_players: final(self).global_players,
                ..*old(self)
            }),
            old(self).spec_player(player_id) is None ==> {
                &&& *final(self) == *old(self)
                &&& out@.len() == 0
            },
            match old(self).spec_player(player_id) {
                Some(p) => {
                    &&& (correct && p.guild_id is Some ==> exists|mid: PredictionMarketState|
                        {
                            &&& #[trigger] spec_guild_award_post(
                                *old(self),
                                mid,
                                Ok(()),
                                player_id,
                                period,
                            )
                            &&& mid.wf()
                            &&& match mid.spec_player(player_id) {
                                Some(q) => {
                                    &&& out@.len() == 1
                                    &&& spec_broadcast_player_updated_post(
                                        mid,
                                        *final(self),
                                        out@[0],
                                        player_id,
                                        q.total_earned,
                                        q.total_profit,
                                        q.level,
                                        self_chain,
                                        now,
                                    )
                                },
                                None => false,
                            }
                        })
                    &&& (correct && p.guild_id is None ==> exists|d: OutboundDispatch|
                        {
                            &&& #[trigger] spec_award_post(
                                *old(self),
                                *final(self),
                                Ok(d),
                                player_id,
                                period,
                                self_chain,
                                now,
                            )
                            &&& out@ =~= seq![d]
                        })
                    &&& (!correct && p.guild_id is Some ==> {
                        &&& spec_guild_penalize_post(
                            *old(self),
                            *final(self),
                            Ok(()),
                            player_id,
                            period,
                        )
                        &&& out@.len() == 0
                    })
                    &&& (!correct && p.guild_id is None ==> {
                        &&& spec_penalize_post(*old(self), *final(self), Ok(()), player_id, period)
                        &&& out@.len() == 0
                    })
                },
                None => true,
            },
            forall|p2: PlayerId|
                !spec_settlement_parties(*old(self), player_id, p2) ==> final(self).spec_player(
                    p2,
                ) == old(self).spec_player(p2),
            forall|p2: PlayerId|
                #![trigger final(self).spec_player(p2)]
                match old(self).spec_player(p2) {
                    Some(q) => match final(self).spec_player(p2) {
                        Some(q2) => q2.id == q.id && q2.guild_id == q.guild_id,
                        None => false,
                    },
                    None => final(self).spec_player(p2) is None,
                },
    {
        let in_guild = match self.players.get(player_id) {
            Some(p) => p.guild_id.is_some(),
            None => false,
        };
        let mut out: Vec<OutboundDispatch> = Vec::new();
        if correct {
            if in_guild {
                let ar = self.award_guild_prediction_reward(player_id, period, now);
                let ghost midstate = *self;
                proof {
                    assert(old(self).spec_player(player_id) is Some);
                    assert(ar is Ok);
                    assert(ar == Ok::<(), ContractError>(ar->Ok_0));
                    assert(ar->Ok_0 == ());
                    assert(spec_guild_award_post(
                        *old(self),
                        midstate,
                        Ok(()),
                        player_id,
                        period,
                    ));
                }
                let (earned, profit, level) = match self.players.get(player_id) {
                    Some(p) => (p.total_earned, p.total_profit, p.level),
                    None => (0, 0, 1),
                };
                let d = self.broadcast_global_player_updated(
                    player_id,
                    earned,
                    profit,
                    level,
                    self_chain,
                    now,
                );
                out.push(d);
                proof {
                    lemma_settlement_frame_guild(*old(self), midstate, *self, player_id, period);
                }
            } else {
                let r = self.award_prediction_reward(player_id, period, self_chain, now);
                let ghost gr = r;
                match r {
                    Ok(d) => {
                        out.push(d);
                    },
                    Err(_) => {},
                }
                proof {
                    if old(self).spec_player(player_id) is Some {
                        assert(gr is Ok);
                        assert(gr == Ok::<OutboundDispatch, ContractError>(gr->Ok_0));
                        assert(spec_award_post(
                            *old(self),
                            *self,
                            Ok(gr->Ok_0),
                            player_id,
                            period,
                            self_chain,
                            now,
                        ));
                        assert(out@ =~= seq![gr->Ok_0]);
                    }
                    lemma_settlement_frame_individual(*old(self), *self, player_id, period, gr, self_chain, now);
                }
            }
        } else {
            if in_guild {
                let pr = self.penalize_guild_prediction_loss(player_id, period);
                proof {
                    lemma_settlement_frame_guild_penalty(*old(self), *self, player_id, period);
                }
            } else {
                let pr = self.penalize_prediction_loss(player_id, period);
                proof {
                    lemma_settlement_frame_penalty(*old(self), *self, player_id, period);
                }
            }
        }
        out
    }
}

/// Does `m` occur among the first `k` entries of `members`?
fn contains_prefix(members: &Vec<u64>, k: usize, m: u64) -> (b: bool)
    requires
        k <= members@.len(),
    ensures
        b == members@.take(k as int).contains(m),
{
    let mut j: usize = 0;
    while j < k
        invariant
            j <= k,
            k <= members@.len(),
            forall|i: int| 0 <= i < j ==> members@[i] != m,
        decreases k - j,
    {
        if members[j] == m {
            proof {
                assert(members@.take(k as int)[j as int] == m);
            }
            return true;
        }
        j = j + 1;
    }
    proof {
        if members@.take(k as int).contains(m) {
            let w = choose|w: int| 0 <= w < k as int && (#[trigger] members@.take(k as int)[w]) == m;
            assert(members@[w] == m);
        }
    }
    false
}

} // verus!
