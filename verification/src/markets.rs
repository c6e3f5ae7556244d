//! Point-trading markets: creation, buying and selling.
//!
//! Markets are surrounding bookkeeping around the forecasting core: a
//! level-five player with enough points may offer a market, buyers pay a
//! tenth of what they receive plus the creator's fee, sellers burn points
//! into liquidity minus the fee, and the platform keeps two percent of
//! every fee. All arithmetic saturates, and a rejected call leaves the
//! shard untouched.

use vstd::prelude::*;
use crate::progress::check_achievements;
use crate::state::PredictionMarketState;
use crate::table::{spec_find, Table};
use crate::types::{
    sat_add, sat_add64, sat_mul, sat_sub, spec_sat_add, spec_sat_add64, spec_sat_mul,
    spec_sat_sub, Amount, ChainId, ContractError, Market, MarketId, MarketStatus, Message,
    MessageId, MessageKind, OutboundDispatch, Player, PlayerId, PlayerPosition, Timestamp,
};

verus! {

/// Points a market must see in a creator's balance.
pub const MARKET_CREATION_MINIMUM: Amount = 10000;

/// Points a market costs to open; they go to the platform supply.
pub const MARKET_CREATION_COST: Amount = 100;

/// The level a player needs to create markets or sell into them.
pub const MARKET_ACCESS_LEVEL: u32 = 5;

/// What the buyer pays before fees for `points` received: a tenth.
pub open spec fn spec_base_payment(points: Amount) -> Amount {
    points / 10
}

/// The creator's fee on a base payment at `fee_percent`.
pub open spec fn spec_fee_cut(base: Amount, fee_percent: u8) -> Amount {
    spec_sat_mul(base, fee_percent as Amount) / 100
}

/// The platform's share of a creator fee: two percent.
pub open spec fn spec_platform_cut(fee: Amount) -> Amount {
    spec_sat_mul(fee, 2) / 100
}

/// How one trade reshapes the trading player before the achievement pass:
/// the exact balance movement, spending, participation count and the ten
/// experience points, with the market added to the active list once.
pub open spec fn spec_traded_player(
    p: Player,
    b1: Player,
    balance_after: Amount,
    earned_after: Amount,
    spent_after: Amount,
    market_id: MarketId,
) -> bool {
    &&& b1.token_balance == balance_after
    &&& b1.total_spent == spent_after
    &&& b1.total_earned == earned_after
    &&& b1.markets_participated == spec_sat_add64(p.markets_participated, 1)
    &&& b1.experience_points == spec_sat_add64(p.experience_points, 10)
    &&& b1.level >= p.level
    &&& (spec_sat_add64(p.experience_points, 10) < crate::progress::spec_threshold(p.level)
        ==> b1.level == p.level)
    &&& b1.active_markets@ =~= (if p.active_markets@.contains(market_id) {
        p.active_markets@
    } else {
        p.active_markets@.push(market_id)
    })
    &&& b1 == (Player {
        token_balance: b1.token_balance,
        total_spent: b1.total_spent,
        total_earned: b1.total_earned,
        markets_participated: b1.markets_participated,
        experience_points: b1.experience_points,
        level: b1.level,
        active_markets: b1.active_markets,
        ..p
    })
}

/// The achievement pass a trade ends with, as a relation from the traded
/// player `b1` to the stored player `q`.
pub open spec fn spec_trade_grant_pass(
    b1: Player,
    q: Player,
    achievements: Seq<(u64, crate::types::Achievement)>,
    markets: Seq<(u64, Market)>,
) -> bool {
    &&& q.achievements_earned@ =~= b1.achievements_earned@ + crate::progress::spec_granted_upto(
        b1,
        achievements,
        markets,
        8,
    )
    &&& q.token_balance == crate::progress::spec_granted_tokens_upto(
        b1,
        achievements,
        markets,
        b1.token_balance,
        8,
    )
    &&& q.total_earned == crate::progress::spec_granted_tokens_upto(
        b1,
        achievements,
        markets,
        b1.total_earned,
        8,
    )
    &&& q.experience_points == crate::progress::spec_granted_xp_upto(
        b1,
        achievements,
        markets,
        b1.experience_points,
        8,
    )
    &&& q == (Player {
        token_balance: q.token_balance,
        total_earned: q.total_earned,
        experience_points: q.experience_points,
        achievements_earned: q.achievements_earned,
        ..b1
    })
}

/// What opening a market leaves behind.
pub open spec fn spec_create_market_post(
    pre: PredictionMarketState,
    post: PredictionMarketState,
    r: Result<Vec<OutboundDispatch>, ContractError>,
    creator: PlayerId,
    title: String,
    amount: Amount,
    fee_percent: u8,
    self_chain: ChainId,
    now: Timestamp,
) -> bool {
    &&& (pre.spec_player(creator) is None ==> {
                &&& r == Err::<Vec<OutboundDispatch>, _>(ContractError::PlayerNotFound)
                &&& post == pre
            })
    &&& (match pre.spec_player(creator) {
                Some(p) => {
                    &&& (p.level < MARKET_ACCESS_LEVEL ==> {
                        &&& r == Err::<Vec<OutboundDispatch>, _>(ContractError::InsufficientLevel)
                        &&& post == pre
                    })
                    &&& (p.level >= MARKET_ACCESS_LEVEL && p.token_balance
                        < MARKET_CREATION_MINIMUM ==> {
                        &&& r == Err::<Vec<OutboundDispatch>, _>(
                            ContractError::InsufficientBalance,
                        )
                        &&& post == pre
                    })
                    &&& (p.level >= MARKET_ACCESS_LEVEL && p.token_balance
                        >= MARKET_CREATION_MINIMUM && fee_percent > 100 ==> {
                        &&& r == Err::<Vec<OutboundDispatch>, _>(ContractError::InvalidOutcome)
                        &&& post == pre
                    })
                    &&& (p.level >= MARKET_ACCESS_LEVEL && p.token_balance
                        >= MARKET_CREATION_MINIMUM && fee_percent <= 100 ==> {
                        &&& r is Ok
                        &&& post.next_market_id == spec_sat_add64(
                            pre.next_market_id,
                            1,
                        )
                        &&& match post.spec_market(pre.next_market_id) {
                            Some(m) => {
                                &&& m.id == pre.next_market_id
                                &&& m.creator == creator
                                &&& m.title == title
                                &&& m.amount == amount
                                &&& m.fee_percent == fee_percent
                                &&& m.creation_time == now
                                &&& m.status == MarketStatus::Active
                                &&& m.total_liquidity == amount
                                &&& m.positions@.len() == 0
                                &&& m.total_participants == 0
                            },
                            None => false,
                        }
                        &&& forall|m2: MarketId|
                            m2 != pre.next_market_id ==> post.spec_market(m2) == pre.spec_market(m2)
                        &&& post.total_supply == spec_sat_add(
                            pre.total_supply,
                            MARKET_CREATION_COST,
                        )
                        &&& match post.spec_player(creator) {
                            Some(q) => {
                                &&& q.total_spent == spec_sat_add(
                                    p.total_spent,
                                    MARKET_CREATION_COST,
                                )
                                &&& q.token_balance >= spec_sat_sub(
                                    p.token_balance,
                                    MARKET_CREATION_COST,
                                )
                                &&& q.active_markets@.contains(pre.next_market_id)
                                &&& q == (Player {
                                    token_balance: q.token_balance,
                                    total_spent: q.total_spent,
                                    total_earned: q.total_earned,
                                    experience_points: q.experience_points,
                                    level: q.level,
                                    achievements_earned: q.achievements_earned,
                                    active_markets: q.active_markets,
                                    ..p
                                })
                                &&& exists|b1: Player|
                                    {
                                        &&& b1.token_balance == spec_sat_sub(
                                            p.token_balance,
                                            MARKET_CREATION_COST,
                                        )
                                        &&& b1.total_spent == spec_sat_add(
                                            p.total_spent,
                                            MARKET_CREATION_COST,
                                        )
                                        &&& b1.active_markets@ =~= (if p.active_markets@.contains(
                                            pre.next_market_id,
                                        ) {
                                            p.active_markets@
                                        } else {
                                            p.active_markets@.push(pre.next_market_id)
                                        })
                                        &&& b1 == (Player {
                                            token_balance: b1.token_balance,
                                            total_spent: b1.total_spent,
                                            active_markets: b1.active_markets,
                                            ..p
                                        })
                                        &&& #[trigger] spec_trade_grant_pass(
                                            b1,
                                            q,
                                            pre.achievements@,
                                            post.markets@,
                                        )
                                    }
                            },
                            None => false,
                        }
                        &&& forall|p2: PlayerId|
                            p2 != creator ==> post.spec_player(p2) == pre.spec_player(
                                p2,
                            )
                        &&& match r {
                            Ok(ds) => {
                                &&& ds@.len() == 2
                                &&& ds@[0].targets@ =~= seq![self_chain]
                                &&& ds@[0].message == (Message::MarketCreated {
                                    market_id: pre.next_market_id,
                                    creator,
                                })
                                &&& ds@[1].targets@ =~= crate::messages::spec_fanout(
                                    pre.subscribed_chains@,
                                    self_chain,
                                )
                                &&& ds@[1].message == (Message::GlobalMarketCreated {
                                    market_id: pre.next_market_id,
                                    creator,
                                    title,
                                    chain_id: self_chain,
                                    message_id: MessageId {
                                        kind: MessageKind::MarketCreated,
                                        origin: self_chain,
                                        time: now,
                                        payload: pre.next_market_id,
                                    },
                                })
                            },
                            Err(_) => false,
                        }
                        &&& post == (PredictionMarketState {
                            players: post.players,
                            markets: post.markets,
                            next_market_id: post.next_market_id,
                            total_supply: post.total_supply,
                            leaderboard: post.leaderboard,
                            global_markets: post.global_markets,
                            ..pre
                        })
                    })
                },
                None => true,
            })
}

/// What buying points from a market leaves behind.
pub open spec fn spec_buy_shares_post(
    pre: PredictionMarketState,
    post: PredictionMarketState,
    r: Result<OutboundDispatch, ContractError>,
    player_id: PlayerId,
    market_id: MarketId,
    amount: Amount,
    self_chain: ChainId,
    now: Timestamp,
) -> bool {
    &&& (pre.spec_player(player_id) is None ==> {
                &&& r == Err::<OutboundDispatch, _>(ContractError::PlayerNotFound)
                &&& post == pre
            })
    &&& (pre.spec_player(player_id) is Some && pre.spec_market(market_id) is None
                ==> {
                &&& r == Err::<OutboundDispatch, _>(ContractError::MarketNotFound)
                &&& post == pre
            })
    &&& (match (pre.spec_player(player_id), pre.spec_market(market_id)) {
                (Some(p), Some(m)) => {
                    &&& (m.status != MarketStatus::Active ==> {
                        &&& r == Err::<OutboundDispatch, _>(ContractError::MarketNotActive)
                        &&& post == pre
                    })
                    &&& (m.status == MarketStatus::Active ==> {
                        let points = if m.total_liquidity <= amount {
                            m.total_liquidity
                        } else {
                            amount
                        };
                        let base = spec_base_payment(points);
                        let fee = spec_fee_cut(base, m.fee_percent);
                        let actual = spec_sat_add(base, fee);
                        &&& (points == 0 ==> {
                            &&& r == Err::<OutboundDispatch, _>(
                                ContractError::InsufficientBalance,
                            )
                            &&& post == pre
                        })
                        &&& (points > 0 && p.token_balance < actual ==> {
                            &&& r == Err::<OutboundDispatch, _>(
                                ContractError::InsufficientBalance,
                            )
                            &&& post == pre
                        })
                        &&& (points > 0 && p.token_balance >= actual ==> {
                            &&& r is Ok
                            &&& match post.spec_market(market_id) {
                                Some(m2) => {
                                    &&& m2.total_liquidity == spec_sat_sub(
                                        m.total_liquidity,
                                        points,
                                    )
                                    &&& m2.id == m.id
                                    &&& m2.creator == m.creator
                                    &&& m2.fee_percent == m.fee_percent
                                    &&& m2.status == m.status
                                },
                                None => false,
                            }
                            &&& forall|m2: MarketId|
                                m2 != market_id ==> post.spec_market(m2) == pre.spec_market(m2)
                            &&& post.total_supply == spec_sat_add(
                                pre.total_supply,
                                spec_platform_cut(fee),
                            )
                            &&& match post.spec_player(player_id) {
                                Some(q) => {
                                    &&& q.total_spent == spec_sat_add(p.total_spent, actual)
                                    &&& q.markets_participated == spec_sat_add64(
                                        p.markets_participated,
                                        1,
                                    )
                                    &&& q.id == p.id
                                    &&& q.guild_id == p.guild_id
                                    &&& q.token_balance >= spec_sat_add(
                                        spec_sat_sub(p.token_balance, actual),
                                        points,
                                    )
                                    &&& q.total_earned >= spec_sat_add(p.total_earned, points)
                                    &&& (m.creator != player_id ==> exists|b1: Player|
                                        {
                                            &&& spec_traded_player(
                                                p,
                                                b1,
                                                spec_sat_add(
                                                    spec_sat_sub(p.token_balance, actual),
                                                    points,
                                                ),
                                                spec_sat_add(p.total_earned, points),
                                                spec_sat_add(p.total_spent, actual),
                                                market_id,
                                            )
                                            &&& #[trigger] spec_trade_grant_pass(
                                                b1,
                                                q,
                                                pre.achievements@,
                                                pre.markets@,
                                            )
                                        })
                                },
                                None => false,
                            }
                            &&& (m.creator != player_id ==> match (
                                pre.spec_player(m.creator),
                                post.spec_player(m.creator),
                            ) {
                                (Some(c), Some(c2)) => c2 == (Player {
                                    token_balance: spec_sat_add(
                                        c.token_balance,
                                        spec_sat_add(
                                            base,
                                            spec_sat_sub(fee, spec_platform_cut(fee)),
                                        ),
                                    ),
                                    total_earned: spec_sat_add(
                                        c.total_earned,
                                        spec_sat_add(
                                            base,
                                            spec_sat_sub(fee, spec_platform_cut(fee)),
                                        ),
                                    ),
                                    ..c
                                }),
                                (None, None) => true,
                                _ => false,
                            })
                            &&& forall|p2: PlayerId|
                                p2 != player_id && p2 != m.creator ==> post.spec_player(p2)
                                    == pre.spec_player(p2)
                            &&& match r {
                                Ok(d) => {
                                    &&& d.targets@ =~= seq![self_chain]
                                    &&& d.message == (Message::TradeExecuted {
                                        player_id,
                                        market_id,
                                        outcome_id: 0,
                                        shares: points,
                                        price: base,
                                    })
                                },
                                Err(_) => false,
                            }
                            &&& post == (PredictionMarketState {
                                players: post.players,
                                markets: post.markets,
                                total_supply: post.total_supply,
                                ..pre
                            })
                        })
                    })
                },
                _ => true,
            })
}

/// What selling points into a market leaves behind.
pub open spec fn spec_sell_shares_post(
    pre: PredictionMarketState,
    post: PredictionMarketState,
    r: Result<OutboundDispatch, ContractError>,
    player_id: PlayerId,
    market_id: MarketId,
    amount: Amount,
    self_chain: ChainId,
    now: Timestamp,
) -> bool {
    &&& (pre.spec_player(player_id) is None ==> {
                &&& r == Err::<OutboundDispatch, _>(ContractError::PlayerNotFound)
                &&& post == pre
            })
    &&& (match pre.spec_player(player_id) {
                Some(p) => {
                    &&& (p.level < MARKET_ACCESS_LEVEL ==> {
                        &&& r == Err::<OutboundDispatch, _>(ContractError::InsufficientLevel)
                        &&& post == pre
                    })
                    &&& (p.level >= MARKET_ACCESS_LEVEL && p.token_balance < amount ==> {
                        &&& r == Err::<OutboundDispatch, _>(ContractError::InsufficientBalance)
                        &&& post == pre
                    })
                    &&& (p.level >= MARKET_ACCESS_LEVEL && p.token_balance >= amount && pre.spec_market(market_id) is None ==> {
                        &&& r == Err::<OutboundDispatch, _>(ContractError::MarketNotFound)
                        &&& post == pre
                    })
                    &&& match pre.spec_market(market_id) {
                        Some(m) => p.level >= MARKET_ACCESS_LEVEL && p.token_balance >= amount
                            ==> {
                            &&& (m.status != MarketStatus::Active ==> {
                                &&& r == Err::<OutboundDispatch, _>(
                                    ContractError::MarketNotActive,
                                )
                                &&& post == pre
                            })
                            &&& (m.status == MarketStatus::Active ==> {
                                let fee = spec_fee_cut(amount, m.fee_percent);
                                let to_market = spec_sat_sub(amount, fee);
                                let supply_mid = spec_sat_add(
                                    pre.total_supply,
                                    spec_platform_cut(fee),
                                );
                                &&& r is Ok
                                &&& post.total_supply == spec_sat_sub(
                                    supply_mid,
                                    if to_market <= supply_mid {
                                        to_market
                                    } else {
                                        supply_mid
                                    },
                                )
                                &&& match post.spec_market(market_id) {
                                    Some(m2) => {
                                        &&& m2.total_liquidity == spec_sat_add(
                                            m.total_liquidity,
                                            to_market,
                                        )
                                        &&& m2.id == m.id
                                        &&& m2.creator == m.creator
                                        &&& m2.fee_percent == m.fee_percent
                                        &&& m2.status == m.status
                                    },
                                    None => false,
                                }
                                &&& forall|m2: MarketId|
                                    m2 != market_id ==> post.spec_market(m2) == pre.spec_market(m2)
                                &&& match post.spec_player(player_id) {
                                    Some(q) => {
                                        &&& q.total_spent == spec_sat_add(p.total_spent, amount)
                                        &&& q.markets_participated == spec_sat_add64(
                                            p.markets_participated,
                                            1,
                                        )
                                        &&& q.id == p.id
                                        &&& q.guild_id == p.guild_id
                                        &&& q.token_balance >= spec_sat_sub(
                                            p.token_balance,
                                            amount,
                                        )
                                        &&& (m.creator != player_id ==> exists|b1: Player|
                                            {
                                                &&& spec_traded_player(
                                                    p,
                                                    b1,
                                                    spec_sat_sub(p.token_balance, amount),
                                                    p.total_earned,
                                                    spec_sat_add(p.total_spent, amount),
                                                    market_id,
                                                )
                                                &&& #[trigger] spec_trade_grant_pass(
                                                    b1,
                                                    q,
                                                    pre.achievements@,
                                                    pre.markets@,
                                                )
                                            })
                                    },
                                    None => false,
                                }
                                &&& (m.creator != player_id ==> match (
                                    pre.spec_player(m.creator),
                                    post.spec_player(m.creator),
                                ) {
                                    (Some(c), Some(c2)) => c2 == (Player {
                                        token_balance: spec_sat_add(
                                            c.token_balance,
                                            spec_sat_sub(fee, spec_platform_cut(fee)),
                                        ),
                                        total_earned: spec_sat_add(
                                            c.total_earned,
                                            spec_sat_sub(fee, spec_platform_cut(fee)),
                                        ),
                                        ..c
                                    }),
                                    (None, None) => true,
                                    _ => false,
                                })
                                &&& forall|p2: PlayerId|
                                    p2 != player_id && p2 != m.creator ==> post.spec_player(p2) == pre.spec_player(p2)
                                &&& match r {
                                    Ok(d) => {
                                        &&& d.targets@ =~= seq![self_chain]
                                        &&& d.message == (Message::TradeExecuted {
                                            player_id,
                                            market_id,
                                            outcome_id: 0,
                                            shares: amount,
                                            price: amount,
                                        })
                                    },
                                    Err(_) => false,
                                }
                                &&& post == (PredictionMarketState {
                                    players: post.players,
                                    markets: post.markets,
                                    total_supply: post.total_supply,
                                    ..pre
                                })
                            })
                        },
                        None => true,
                    }
                },
                None => true,
            })
}

impl PredictionMarketState {
    /// Open a market: the creator must exist, be at least level five and
    /// hold ten thousand points; the fee must not pass one hundred percent.
    /// The creation cost moves from the creator into the platform supply,
    /// the market opens with the offered amount as liquidity, and the
    /// opening is announced locally and to every peer.
    pub fn create_market(
        &mut self,
        creator: PlayerId,
        title: String,
        amount: Amount,
        fee_percent: u8,
        self_chain: ChainId,
        now: Timestamp,
    ) -> (r: Result<Vec<OutboundDispatch>, ContractError>)
        requires
            old(self).wf(),
        ensures
            final(self).wf(),
            spec_create_market_post(*old(self), *final(self), r, creator, title, amount, fee_percent, self_chain, now),
    {
        let (level_ok, balance_ok) = match self.players.get(creator) {
            Some(p) => (p.level >= MARKET_ACCESS_LEVEL, p.token_balance
                >= MARKET_CREATION_MINIMUM),
            None => {
                return Err(ContractError::PlayerNotFound);
            },
        };
        if !level_ok {
            return Err(ContractError::InsufficientLevel);
        }
        if !balance_ok {
            return Err(ContractError::InsufficientBalance);
        }
        if fee_percent > 100 {
            return Err(ContractError::InvalidOutcome);
        }
        let market_id = self.next_market_id;
        self.next_market_id = sat_add64(self.next_market_id, 1);

        let taken = self.players.take(creator);
        match taken {
            Some(mut p) => {
                p.token_balance = sat_sub(p.token_balance, MARKET_CREATION_COST);
                p.total_spent = sat_add(p.total_spent, MARKET_CREATION_COST);
                self.players.put(creator, p);
            },
            None => {},
        }
        self.total_supply = sat_add(self.total_supply, MARKET_CREATION_COST);
        self.update_enhanced_leaderboard(now);

        let market = Market {
            id: market_id,
            creator,
            title: title.clone(),
            amount,
            fee_percent,
            creation_time: now,
            status: MarketStatus::Active,
            total_liquidity: amount,
            positions: Table::new(),
            total_participants: 0,
        };
        self.markets.put(market_id, market);

        let taken2 = self.players.take(creator);
        match taken2 {
            Some(mut p) => {
                if !contains_market(&p.active_markets, market_id) {
                    p.active_markets.push(market_id);
                    proof {
                        assert(p.active_markets@[p.active_markets@.len() - 1] == market_id);
                    }
                }
                proof {
                    assert(p.active_markets@.contains(market_id));
                }
                let ghost opened = p;
                let _granted = check_achievements(&mut p, &self.achievements, &self.markets);
                proof {
                    assert(spec_trade_grant_pass(
                        opened,
                        p,
                        old(self).achievements@,
                        self.markets@,
                    ));
                }
                self.players.put(creator, p);
            },
            None => {},
        }

        let mut local_targets: Vec<ChainId> = Vec::new();
        local_targets.push(self_chain);
        let local = OutboundDispatch {
            targets: local_targets,
            message: Message::MarketCreated { market_id, creator },
        };
        let global = self.broadcast_global_market_created(
            market_id,
            creator,
            title,
            self_chain,
            now,
        );
        let mut out: Vec<OutboundDispatch> = Vec::new();
        out.push(local);
        out.push(global);
        Ok(out)
    }

    /// Buy points from a market: the buyer pays a tenth of what they
    /// receive plus the creator's fee, receives the points out of the
    /// market's liquidity, and the creator collects the base payment and
    /// all of the fee but the platform's two percent.
    pub fn buy_shares(
        &mut self,
        player_id: PlayerId,
        market_id: MarketId,
        amount: Amount,
        self_chain: ChainId,
        now: Timestamp,
    ) -> (r: Result<OutboundDispatch, ContractError>)
        requires
            old(self).wf(),
        ensures
            final(self).wf(),
            spec_buy_shares_post(*old(self), *final(self), r, player_id, market_id, amount, self_chain, now),
    {
        if !self.players.contains_key(player_id) {
            return Err(ContractError::PlayerNotFound);
        }
        let (status_active, liquidity, fee_percent, market_creator) = match self.markets.get(
            market_id,
        ) {
            Some(m) => (
                matches!(m.status, MarketStatus::Active),
                m.total_liquidity,
                m.fee_percent,
                m.creator,
            ),
            None => {
                return Err(ContractError::MarketNotFound);
            },
        };
        if !status_active {
            return Err(ContractError::MarketNotActive);
        }
        let points = if liquidity <= amount {
            liquidity
        } else {
            amount
        };
        if points == 0 {
            return Err(ContractError::InsufficientBalance);
        }
        let base = points / 10;
        let fee = sat_mul(base, fee_percent as Amount) / 100;
        let actual = sat_add(base, fee);
        let enough = match self.players.get(player_id) {
            Some(p) => p.token_balance >= actual,
            None => false,
        };
        if !enough {
            return Err(ContractError::InsufficientBalance);
        }

        let taken = self.players.take(player_id);
        match taken {
            Some(mut p) => {
                p.token_balance = sat_sub(p.token_balance, actual);
                p.total_spent = sat_add(p.total_spent, actual);
                p.token_balance = sat_add(p.token_balance, points);
                p.total_earned = sat_add(p.total_earned, points);
                if !contains_market(&p.active_markets, market_id) {
                    p.active_markets.push(market_id);
                }
                p.markets_participated = sat_add64(p.markets_participated, 1);
                let _leveled = p.add_experience(10);
                let ghost traded = p;
                let _granted = check_achievements(&mut p, &self.achievements, &self.markets);
                proof {
                    assert(spec_trade_grant_pass(
                        traded,
                        p,
                        old(self).achievements@,
                        old(self).markets@,
                    ));
                }
                self.players.put(player_id, p);
            },
            None => {},
        }

        let keeps = sat_sub(fee, sat_mul(fee, 2) / 100);
        let creator_credit = sat_add(base, keeps);
        if market_creator != player_id {
            let taken_c = self.players.take(market_creator);
            match taken_c {
                Some(mut c) => {
                    c.token_balance = sat_add(c.token_balance, creator_credit);
                    c.total_earned = sat_add(c.total_earned, creator_credit);
                    self.players.put(market_creator, c);
                },
                None => {},
            }
        } else {
            let taken_c = self.players.take(player_id);
            match taken_c {
                Some(mut c) => {
                    c.token_balance = sat_add(c.token_balance, creator_credit);
                    c.total_earned = sat_add(c.total_earned, creator_credit);
                    self.players.put(player_id, c);
                },
                None => {},
            }
        }
        self.total_supply = sat_add(self.total_supply, sat_mul(fee, 2) / 100);

        let taken_m = self.markets.take(market_id);
        match taken_m {
            Some(mut m) => {
                m.total_liquidity = sat_sub(m.total_liquidity, points);
                let taken_pos = m.positions.take(player_id);
                match taken_pos {
                    Some(mut pos) => {
                        pos.total_invested = sat_add(pos.total_invested, actual);
                        m.positions.put(player_id, pos);
                    },
                    None => {
                        m.positions.put(
                            player_id,
                            PlayerPosition {
                                shares_by_outcome: Table::new(),
                                total_invested: actual,
                                entry_time: now,
                            },
                        );
                        m.total_participants = sat_add64(m.total_participants, 1);
                    },
                }
                self.markets.put(market_id, m);
            },
            None => {},
        }

        let mut targets: Vec<ChainId> = Vec::new();
        targets.push(self_chain);
        Ok(
            OutboundDispatch {
                targets,
                message: Message::TradeExecuted {
                    player_id,
                    market_id,
                    outcome_id: 0,
                    shares: points,
                    price: base,
                },
            },
        )
    }

    /// Sell points into a market: the seller must be level five and hold
    /// the amount; the points leave the seller, the creator collects the
    /// fee minus the platform's share, the rest becomes market liquidity
    /// and is burned from the supply (clamped at the supply itself).
    pub fn sell_shares(
        &mut self,
        player_id: PlayerId,
        market_id: MarketId,
        amount: Amount,
        self_chain: ChainId,
        now: Timestamp,
    ) -> (r: Result<OutboundDispatch, ContractError>)
        requires
            old(self).wf(),
        ensures
            final(self).wf(),
            spec_sell_shares_post(*old(self), *final(self), r, player_id, market_id, amount, self_chain, now),
    {
        let (level_ok, enough) = match self.players.get(player_id) {
            Some(p) => (p.level >= MARKET_ACCESS_LEVEL, p.token_balance >= amount),
            None => {
                return Err(ContractError::PlayerNotFound);
            },
        };
        if !level_ok {
            return Err(ContractError::InsufficientLevel);
        }
        if !enough {
            return Err(ContractError::InsufficientBalance);
        }
        let (status_active, fee_percent, market_creator) = match self.markets.get(market_id) {
            Some(m) => (matches!(m.status, MarketStatus::Active), m.fee_percent, m.creator),
            None => {
                return Err(ContractError::MarketNotFound);
            },
        };
        if !status_active {
            return Err(ContractError::MarketNotActive);
        }
        let fee = sat_mul(amount, fee_percent as Amount) / 100;
        let to_market = sat_sub(amount, fee);

        let taken = self.players.take(player_id);
        match taken {
            Some(mut p) => {
                p.token_balance = sat_sub(p.token_balance, amount);
                p.total_spent = sat_add(p.total_spent, amount);
                if !contains_market(&p.active_markets, market_id) {
                    p.active_markets.push(market_id);
                }
                p.markets_participated = sat_add64(p.markets_participated, 1);
                let _leveled = p.add_experience(10);
                let ghost traded = p;
                let _granted = check_achievements(&mut p, &self.achievements, &self.markets);
                proof {
                    assert(spec_trade_grant_pass(
                        traded,
                        p,
                        old(self).achievements@,
                        old(self).markets@,
                    ));
                }
                self.players.put(player_id, p);
            },
            None => {},
        }

        let keeps = sat_sub(fee, sat_mul(fee, 2) / 100);
        if market_creator != player_id {
            let taken_c = self.players.take(market_creator);
            match taken_c {
                Some(mut c) => {
                    c.token_balance = sat_add(c.token_balance, keeps);
                    c.total_earned = sat_add(c.total_earned, keeps);
                    self.players.put(market_creator, c);
                },
                None => {},
            }
        } else {
            let taken_c = self.players.take(player_id);
            match taken_c {
                Some(mut c) => {
                    c.token_balance = sat_add(c.token_balance, keeps);
                    c.total_earned = sat_add(c.total_earned, keeps);
                    self.players.put(player_id, c);
                },
                None => {},
            }
        }
        self.total_supply = sat_add(self.total_supply, sat_mul(fee, 2) / 100);
        let burn = if to_market <= self.total_supply {
            to_market
        } else {
            self.total_supply
        };
        self.total_supply = sat_sub(self.total_supply, burn);

        let taken_m = self.markets.take(market_id);
        match taken_m {
            Some(mut m) => {
                m.total_liquidity = sat_add(m.total_liquidity, to_market);
                let taken_pos = m.positions.take(player_id);
                match taken_pos {
                    Some(mut pos) => {
                        pos.total_invested = sat_add(pos.total_invested, amount);
                        m.positions.put(player_id, pos);
                    },
                    None => {
                        m.positions.put(
                            player_id,
                            PlayerPosition {
                                shares_by_outcome: Table::new(),
                                total_invested: amount,
                                entry_time: now,
                            },
                        );
                        m.total_participants = sat_add64(m.total_participants, 1);
                    },
                }
                self.markets.put(market_id, m);
            },
            None => {},
        }

        let mut targets: Vec<ChainId> = Vec::new();
        targets.push(self_chain);
        Ok(
            OutboundDispatch {
                targets,
                message: Message::TradeExecuted {
                    player_id,
                    market_id,
                    outcome_id: 0,
                    shares: amount,
                    price: amount,
                },
            },
        )
    }
}

fn contains_market(v: &Vec<MarketId>, id: MarketId) -> (b: bool)
    ensures
        b == v@.contains(id),
{
    let n: usize = v.len();
    let mut j: usize = 0;
    while j < n
        invariant
            j <= n,
            n == v@.len(),
            forall|i: int| 0 <= i < j ==> v@[i] != id,
        decreases n - j,
    {
        if v[j] == id {
            return true;
        }
        j = j + 1;
    }
    false
}

} // verus!
