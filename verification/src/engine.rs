//! The prediction period engine: windows, forecasts, and their resolution.
//!
//! A window of each kind (daily, weekly, monthly) covers a fixed span of
//! logical time aligned to its length. A player's first forecast in a
//! window creates the window and snapshots the current price as its start
//! price. Resolution is purely price-update-driven: the engine advances
//! only when a price update arrives, and any update whose time has reached
//! a window's end captures the end price, derives the outcome (rise, fall
//! or neutral) and settles every forecast in the window — however late that
//! update comes. A window that never sees such an update stays open, an
//! accepted liveness gap. Once resolved, windows and forecasts never change
//! again.

use vstd::prelude::*;
use crate::state::PredictionMarketState;
use crate::store::{spec_find_pred, spec_find_window};
use crate::messages::spec_fanout;
use crate::types::{
    sat_add64, spec_sat_add64, Amount, ChainId, ContractError, MarketPrice, Message, MessageId,
    MessageKind, OutboundDispatch, PeriodPriceData, PlayerId, PlayerPrediction, PredictionPeriod,
    PriceOutcome, Timestamp, ONE_DAY_MICROS, ONE_MONTH_MICROS, ONE_WEEK_MICROS,
};

verus! {

/// The fixed length of a window of each kind, in microseconds.
pub open spec fn spec_period_duration(period: PredictionPeriod) -> u64 {
    match period {
        PredictionPeriod::Daily => ONE_DAY_MICROS,
        PredictionPeriod::Weekly => ONE_WEEK_MICROS,
        PredictionPeriod::Monthly => ONE_MONTH_MICROS,
    }
}

pub fn period_duration(period: PredictionPeriod) -> (d: u64)
    ensures
        d == spec_period_duration(period),
        d > 0,
{
    match period {
        PredictionPeriod::Daily => ONE_DAY_MICROS,
        PredictionPeriod::Weekly => ONE_WEEK_MICROS,
        PredictionPeriod::Monthly => ONE_MONTH_MICROS,
    }
}

/// The start of the window of the given kind that covers `timestamp`:
/// the timestamp rounded down to the window length.
pub open spec fn spec_period_start(period: PredictionPeriod, timestamp: Timestamp) -> Timestamp {
    ((timestamp as int / spec_period_duration(period) as int) * spec_period_duration(
        period,
    ) as int) as Timestamp
}

/// The start of the daily window covering `timestamp`.
pub fn get_daily_period_start(timestamp: Timestamp) -> (start: Timestamp)
    ensures
        start == spec_period_start(PredictionPeriod::Daily, timestamp),
        start <= timestamp,
{
    proof {
        lemma_round_down(timestamp, ONE_DAY_MICROS);
    }
    (timestamp / ONE_DAY_MICROS) * ONE_DAY_MICROS
}

/// The start of the weekly window covering `timestamp`.
pub fn get_weekly_period_start(timestamp: Timestamp) -> (start: Timestamp)
    ensures
        start == spec_period_start(PredictionPeriod::Weekly, timestamp),
        start <= timestamp,
{
    proof {
        lemma_round_down(timestamp, ONE_WEEK_MICROS);
    }
    (timestamp / ONE_WEEK_MICROS) * ONE_WEEK_MICROS
}

/// The start of the monthly window covering `timestamp`.
pub fn get_monthly_period_start(timestamp: Timestamp) -> (start: Timestamp)
    ensures
        start == spec_period_start(PredictionPeriod::Monthly, timestamp),
        start <= timestamp,
{
    proof {
        lemma_round_down(timestamp, ONE_MONTH_MICROS);
    }
    (timestamp / ONE_MONTH_MICROS) * ONE_MONTH_MICROS
}

/// The start of the window of `period` covering `timestamp`.
pub fn period_start_of(period: PredictionPeriod, timestamp: Timestamp) -> (start: Timestamp)
    ensures
        start == spec_period_start(period, timestamp),
        start <= timestamp,
{
    match period {
        PredictionPeriod::Daily => get_daily_period_start(timestamp),
        PredictionPeriod::Weekly => get_weekly_period_start(timestamp),
        PredictionPeriod::Monthly => get_monthly_period_start(timestamp),
    }
}

proof fn lemma_round_down(t: u64, d: u64)
    requires
        d > 0,
    ensures
        0 <= (t as int / d as int) * d as int <= t,
{
    let q = t as int / d as int;
    assert(q * d as int <= t as int && q >= 0) by (nonlinear_arith)
        requires
            d > 0,
            q == t as int / d as int,
            t >= 0,
    ;
}

/// The outcome a price pair decides: end above start is a rise, below is a
/// fall, equal is neutral.
pub open spec fn spec_outcome_from_prices(initial: Amount, end: Amount) -> PriceOutcome {
    if end > initial {
        PriceOutcome::Rise
    } else if end < initial {
        PriceOutcome::Fall
    } else {
        PriceOutcome::Neutral
    }
}

/// Derive the outcome of a window from its start and end prices.
pub fn calculate_outcome_from_prices(initial_price: Amount, end_price: Amount) -> (o: PriceOutcome)
    ensures
        o == spec_outcome_from_prices(initial_price, end_price),
{
    if end_price > initial_price {
        PriceOutcome::Rise
    } else if end_price < initial_price {
        PriceOutcome::Fall
    } else {
        PriceOutcome::Neutral
    }
}

/// The reward (or penalty) tier of a window kind, in points.
pub open spec fn spec_reward_tier(period: PredictionPeriod) -> Amount {
    match period {
        PredictionPeriod::Daily => 100,
        PredictionPeriod::Weekly => 500,
        PredictionPeriod::Monthly => 1000,
    }
}

pub fn reward_tier(period: PredictionPeriod) -> (a: Amount)
    ensures
        a == spec_reward_tier(period),
{
    match period {
        PredictionPeriod::Daily => 100,
        PredictionPeriod::Weekly => 500,
        PredictionPeriod::Monthly => 1000,
    }
}

/// Experience granted to the predictor alone for a correct forecast.
pub open spec fn spec_xp_tier(period: PredictionPeriod) -> u64 {
    match period {
        PredictionPeriod::Daily => 50,
        PredictionPeriod::Weekly => 250,
        PredictionPeriod::Monthly => 500,
    }
}

pub fn xp_tier(period: PredictionPeriod) -> (x: u64)
    ensures
        x == spec_xp_tier(period),
{
    match period {
        PredictionPeriod::Daily => 50,
        PredictionPeriod::Weekly => 250,
        PredictionPeriod::Monthly => 500,
    }
}

/// Experience granted to each guild member in a reward cascade.
pub open spec fn spec_guild_xp_tier(period: PredictionPeriod) -> u64 {
    match period {
        PredictionPeriod::Daily => 25,
        PredictionPeriod::Weekly => 125,
        PredictionPeriod::Monthly => 250,
    }
}

pub fn guild_xp_tier(period: PredictionPeriod) -> (x: u64)
    ensures
        x == spec_guild_xp_tier(period),
{
    match period {
        PredictionPeriod::Daily => 25,
        PredictionPeriod::Weekly => 125,
        PredictionPeriod::Monthly => 250,
    }
}

/// What the maturity sweep does to one window at local time `now`, with
/// `price_fact` the current price: a window already resolved, or whose end
/// has not been reached, is untouched; otherwise the missing snapshots are
/// filled from the current price, the outcome is derived from the two
/// snapshots, and the window becomes resolved.
pub open spec fn spec_window_step(
    w: PeriodPriceData,
    price_fact: MarketPrice,
    now: Timestamp,
) -> PeriodPriceData {
    if !w.resolved && now >= w.period_end {
        let sp = if w.start_price is Some {
            w.start_price
        } else {
            Some(price_fact)
        };
        let ep = if w.end_price is Some {
            w.end_price
        } else {
            Some(price_fact)
        };
        PeriodPriceData {
            start_price: sp,
            end_price: ep,
            outcome: Some(spec_outcome_from_prices(sp.unwrap().price, ep.unwrap().price)),
            resolved: true,
            ..w
        }
    } else {
        w
    }
}

/// What the maturity sweep does to one forecast: one already resolved, or
/// whose window is unknown or still running, is untouched; otherwise it is
/// judged against the outcome its window resolves to and becomes resolved.
pub open spec fn spec_pred_step(
    p: PlayerPrediction,
    windows: Seq<PeriodPriceData>,
    price_fact: MarketPrice,
    now: Timestamp,
) -> PlayerPrediction {
    if p.resolved {
        p
    } else {
        match spec_find_window(windows, p.period, p.period_start) {
            Some(w) => {
                let w2 = spec_window_step(w, price_fact, now);
                if now >= w.period_end && w2.outcome is Some {
                    PlayerPrediction {
                        resolved: true,
                        correct: Some(p.outcome == w2.outcome.unwrap()),
                        ..p
                    }
                } else {
                    p
                }
            },
            None => p,
        }
    }
}


/// Does the maturity sweep settle this forecast: open before, resolved
/// after?
pub open spec fn spec_pred_settles(
    p: PlayerPrediction,
    windows: Seq<PeriodPriceData>,
    price_fact: MarketPrice,
    now: Timestamp,
) -> bool {
    !p.resolved && spec_pred_step(p, windows, price_fact, now).resolved
}

/// Looking a forecast up after the sweep finds the stepped version of what
/// was there before, and nothing else.
proof fn lemma_find_pred_stepped(
    olds: Seq<PlayerPrediction>,
    news: Seq<PlayerPrediction>,
    windows: Seq<PeriodPriceData>,
    price_fact: MarketPrice,
    now: Timestamp,
    pid: PlayerId,
    per: PredictionPeriod,
    st: Timestamp,
)
    requires
        news.len() == olds.len(),
        forall|j: int|
            0 <= j < olds.len() ==> news[j] == spec_pred_step(
                #[trigger] olds[j],
                windows,
                price_fact,
                now,
            ),
    ensures
        spec_find_pred(news, pid, per, st) == (match spec_find_pred(olds, pid, per, st) {
            Some(p) => Some(spec_pred_step(p, windows, price_fact, now)),
            None => None,
        }),
    decreases olds.len(),
{
    if olds.len() > 0 {
        assert(news[0] == spec_pred_step(olds[0], windows, price_fact, now));
        assert(crate::store::pred_keyed(news[0], pid, per, st) == crate::store::pred_keyed(
            olds[0],
            pid,
            per,
            st,
        ));
        if !crate::store::pred_keyed(olds[0], pid, per, st) {
            assert forall|j: int| 0 <= j < olds.drop_first().len() implies news.drop_first()[j]
                == spec_pred_step(#[trigger] olds.drop_first()[j], windows, price_fact, now) by {
                assert(olds.drop_first()[j] == olds[j + 1]);
                assert(news.drop_first()[j] == news[j + 1]);
            }
            lemma_find_pred_stepped(
                olds.drop_first(),
                news.drop_first(),
                windows,
                price_fact,
                now,
                pid,
                per,
                st,
            );
        }
    }
}

/// Looking a window up after the sweep finds the stepped version of what
/// was there before, and nothing else.
proof fn lemma_find_window_stepped(
    olds: Seq<PeriodPriceData>,
    news: Seq<PeriodPriceData>,
    price_fact: MarketPrice,
    now: Timestamp,
    per: PredictionPeriod,
    st: Timestamp,
)
    requires
        news.len() == olds.len(),
        forall|j: int|
            0 <= j < olds.len() ==> news[j] == spec_window_step(
                #[trigger] olds[j],
                price_fact,
                now,
            ),
    ensures
        spec_find_window(news, per, st) == (match spec_find_window(olds, per, st) {
            Some(w) => Some(spec_window_step(w, price_fact, now)),
            None => None,
        }),
    decreases olds.len(),
{
    if olds.len() > 0 {
        assert(news[0] == spec_window_step(olds[0], price_fact, now));
        assert(crate::store::window_keyed(news[0], per, st) == crate::store::window_keyed(
            olds[0],
            per,
            st,
        ));
        if !crate::store::window_keyed(olds[0], per, st) {
            assert forall|j: int| 0 <= j < olds.drop_first().len() implies news.drop_first()[j]
                == spec_window_step(#[trigger] olds.drop_first()[j], price_fact, now) by {
                assert(olds.drop_first()[j] == olds[j + 1]);
                assert(news.drop_first()[j] == news[j + 1]);
            }
            lemma_find_window_stepped(
                olds.drop_first(),
                news.drop_first(),
                price_fact,
                now,
                per,
                st,
            );
        }
    }
}

/// Structural equality on outcomes, usable in running code.
pub fn outcome_eq(a: PriceOutcome, b: PriceOutcome) -> (r: bool)
    ensures
        r == (a == b),
{
    match (a, b) {
        (PriceOutcome::Rise, PriceOutcome::Rise) => true,
        (PriceOutcome::Fall, PriceOutcome::Fall) => true,
        (PriceOutcome::Neutral, PriceOutcome::Neutral) => true,
        _ => false,
    }
}

/// Move every dispatch of `extra` to the end of `out`.
#[verifier::loop_isolation(false)]
fn push_all(out: &mut Vec<OutboundDispatch>, extra: Vec<OutboundDispatch>)
    ensures
        final(out)@ =~= old(out)@ + extra@,
{
    let ghost orig = extra@;
    let mut rest = extra;
    let total: usize = rest.len();
    proof {
        assert(orig.len() == total);
    }
    let mut k: usize = 0;
    proof {
        assert(out@ =~= old(out)@ + orig.take(0));
    }
    while rest.len() > 0
        invariant
            k <= orig.len(),
            orig.len() <= usize::MAX,
            rest@ =~= orig.skip(k as int),
            out@ =~= old(out)@ + orig.take(k as int),
        decreases rest@.len(),
    {
        let d = rest.remove(0);
        proof {
            assert(d == orig[k as int]);
            assert(orig.skip(k as int).drop_first() =~= orig.skip(k as int + 1));
            assert((old(out)@ + orig.take(k as int)).push(orig[k as int]) =~= old(out)@
                + orig.take(k as int + 1));
        }
        out.push(d);
        k = k + 1;
    }
    proof {
        assert(orig.take(k as int) =~= orig);
    }
}

/// What a forecast submission leaves behind: the recorded forecast, the
/// window it belongs to (created on first sight with the current price as
/// its start snapshot), and the local announcement event.
pub open spec fn spec_submit_post(
    pre: PredictionMarketState,
    post: PredictionMarketState,
    r: Result<OutboundDispatch, ContractError>,
    player_id: PlayerId,
    period: PredictionPeriod,
    outcome: PriceOutcome,
    self_chain: ChainId,
    now: Timestamp,
) -> bool {
    let start = spec_period_start(period, now);
    &&& (pre.spec_player(player_id) is None ==> {
        &&& r == Err::<OutboundDispatch, _>(ContractError::PlayerNotFound)
        &&& post == pre
    })
    &&& (pre.spec_player(player_id) is Some && pre.spec_prediction(player_id, period, start)
        is Some ==> {
        &&& r == Err::<OutboundDispatch, _>(ContractError::InvalidOutcome)
        &&& post == pre
    })
    &&& (pre.spec_player(player_id) is Some && pre.spec_prediction(player_id, period, start)
        is None ==> {
        &&& post.spec_prediction(player_id, period, start) == Some(
            PlayerPrediction {
                player_id,
                period,
                outcome,
                prediction_time: now,
                period_start: start,
                resolved: false,
                correct: None,
            },
        )
        &&& forall|pid2: PlayerId, per2: PredictionPeriod, st2: Timestamp|
            !(pid2 == player_id && per2 == period && st2 == start) ==> post.spec_prediction(
                pid2,
                per2,
                st2,
            ) == pre.spec_prediction(pid2, per2, st2)
        &&& post.spec_window(period, start) == Some(
            match pre.spec_window(period, start) {
                Some(w) => w,
                None => PeriodPriceData {
                    period,
                    period_start: start,
                    period_end: spec_sat_add64(start, spec_period_duration(period)),
                    start_price: Some(pre.current_market_price),
                    end_price: None,
                    outcome: None,
                    resolved: false,
                },
            },
        )
        &&& forall|per2: PredictionPeriod, st2: Timestamp|
            !(per2 == period && st2 == start) ==> post.spec_window(per2, st2) == pre.spec_window(
                per2,
                st2,
            )
        &&& match r {
            Ok(d) => {
                &&& d.targets@ =~= seq![self_chain]
                &&& d.message == (Message::PredictionMade { player_id, period, outcome })
            },
            Err(_) => false,
        }
        &&& post == (PredictionMarketState {
            predictions: post.predictions,
            period_prices: post.period_prices,
            ..pre
        })
    })
}

/// What feeding an oracle price fact leaves behind: the admin gate, the new price fact, the full maturity sweep, its cascade frame, and the planned dispatches.
pub open spec fn spec_update_market_price_post(
    pre: PredictionMarketState,
    post: PredictionMarketState,
    r: Result<Vec<OutboundDispatch>, ContractError>,
    caller: PlayerId,
    price: Amount,
    self_chain: ChainId,
    now: Timestamp,
) -> bool {
    &&& (!pre.spec_is_admin(caller) ==> {
                &&& r == Err::<Vec<OutboundDispatch>, _>(ContractError::NotAdmin)
                &&& post == pre
            })
    &&& (pre.spec_is_admin(caller) ==> {
                &&& r is Ok
                &&& post.current_market_price == (MarketPrice { price, timestamp: now })
                &&& post.period_prices@.len() == pre.period_prices@.len()
                &&& forall|j: int|
                    0 <= j < pre.period_prices@.len() ==> post.period_prices@[j]
                        == spec_window_step(
                        #[trigger] pre.period_prices@[j],
                        MarketPrice { price, timestamp: now },
                        now,
                    )
                &&& forall|per: PredictionPeriod, st: Timestamp|
                    #![trigger post.spec_window(per, st)]
                    post.spec_window(per, st) == match pre.spec_window(per, st) {
                        Some(w) => Some(
                            spec_window_step(w, MarketPrice { price, timestamp: now }, now),
                        ),
                        None => None,
                    }
                &&& post.predictions@.len() == pre.predictions@.len()
                &&& forall|j: int|
                    0 <= j < pre.predictions@.len() ==> post.predictions@[j]
                        == spec_pred_step(
                        #[trigger] pre.predictions@[j],
                        pre.period_prices@,
                        MarketPrice { price, timestamp: now },
                        now,
                    )
                &&& forall|pid: PlayerId, per: PredictionPeriod, st: Timestamp|
                    #![trigger post.spec_prediction(pid, per, st)]
                    post.spec_prediction(pid, per, st) == (match pre.spec_prediction(
                        pid,
                        per,
                        st,
                    ) {
                        Some(p) => Some(
                            spec_pred_step(
                                p,
                                pre.period_prices@,
                                MarketPrice { price, timestamp: now },
                                now,
                            ),
                        ),
                        None => None,
                    })
                &&& post == (PredictionMarketState {
                    players: post.players,
                    total_supply: post.total_supply,
                    leaderboard: post.leaderboard,
                    global_players: post.global_players,
                    predictions: post.predictions,
                    period_prices: post.period_prices,
                    current_market_price: post.current_market_price,
                    ..pre
                })
                &&& forall|p2: PlayerId|
                    #![trigger post.spec_player(p2)]
                    (forall|j: int|
                        0 <= j < pre.predictions@.len() && spec_pred_settles(
                            #[trigger] pre.predictions@[j],
                            pre.period_prices@,
                            MarketPrice { price, timestamp: now },
                            now,
                        ) ==> !crate::cascade::spec_settlement_parties(
                            pre,
                            pre.predictions@[j].player_id,
                            p2,
                        )) ==> post.spec_player(p2) == pre.spec_player(p2)
                &&& forall|p2: PlayerId|
                    #![trigger post.spec_player(p2)]
                    match pre.spec_player(p2) {
                        Some(q) => match post.spec_player(p2) {
                            Some(q2) => q2.id == q.id && q2.guild_id == q.guild_id,
                            None => false,
                        },
                        None => post.spec_player(p2) is None,
                    }
                &&& ((forall|j: int|
                    0 <= j < pre.predictions@.len() ==> !spec_pred_settles(
                        #[trigger] pre.predictions@[j],
                        pre.period_prices@,
                        MarketPrice { price, timestamp: now },
                        now,
                    )) ==> post == (PredictionMarketState {
                    period_prices: post.period_prices,
                    current_market_price: MarketPrice { price, timestamp: now },
                    ..pre
                }))
                &&& match r {
                    Ok(out) => {
                        &&& out@.len() >= 1
                        &&& out@[0].targets@ =~= spec_fanout(
                            pre.subscribed_chains@,
                            self_chain,
                        )
                        &&& out@[0].message == (Message::GlobalPriceUpdate {
                            price,
                            timestamp: now,
                            chain_id: self_chain,
                            message_id: MessageId {
                                kind: MessageKind::PriceUpdate,
                                origin: self_chain,
                                time: now,
                                payload: price as u64,
                            },
                        })
                        &&& forall|j: int|
                            0 <= j < pre.predictions@.len() && spec_pred_settles(
                                #[trigger] pre.predictions@[j],
                                pre.period_prices@,
                                MarketPrice { price, timestamp: now },
                                now,
                            ) ==> exists|i: int|
                                0 <= i < out@.len() && (#[trigger] out@[i]).targets@ =~= seq![
                                    self_chain,
                                ] && out@[i].message == (Message::PredictionResolved {
                                    player_id: pre.predictions@[j].player_id,
                                    period: pre.predictions@[j].period,
                                    correct: spec_pred_step(
                                        pre.predictions@[j],
                                        pre.period_prices@,
                                        MarketPrice { price, timestamp: now },
                                        now,
                                    ).correct.unwrap(),
                                })
                    },
                    Err(_) => false,
                }
            })
}

impl PredictionMarketState {
    /// Record a forecast for the window of `period` covering `now`. The
    /// player must exist and must not have forecast this window before;
    /// the window is created on first sight.
    pub fn submit_prediction(
        &mut self,
        player_id: PlayerId,
        period: PredictionPeriod,
        outcome: PriceOutcome,
        self_chain: ChainId,
        now: Timestamp,
    ) -> (r: Result<OutboundDispatch, ContractError>)
        requires
            old(self).wf(),
        ensures
            final(self).wf(),
            spec_submit_post(
                *old(self),
                *final(self),
                r,
                player_id,
                period,
                outcome,
                self_chain,
                now,
            ),
    {
        if !self.players.contains_key(player_id) {
            return Err(ContractError::PlayerNotFound);
        }
        let start = period_start_of(period, now);
        match self.predictions.get(player_id, period, start) {
            Some(_) => {
                return Err(ContractError::InvalidOutcome);
            },
            None => {},
        }
        let prediction = PlayerPrediction {
            player_id,
            period,
            outcome,
            prediction_time: now,
            period_start: start,
            resolved: false,
            correct: None,
        };
        self.predictions.add(prediction);
        match self.period_prices.get(period, start) {
            Some(_) => {},
            None => {
                let duration = period_duration(period);
                let window = PeriodPriceData {
                    period,
                    period_start: start,
                    period_end: sat_add64(start, duration),
                    start_price: Some(self.current_market_price),
                    end_price: None,
                    outcome: None,
                    resolved: false,
                };
                self.period_prices.add(window);
                proof {
                    assert forall|per2: PredictionPeriod, st2: Timestamp|
                        !(per2 == period && st2 == start) implies self.spec_window(per2, st2)
                        == old(self).spec_window(per2, st2) by {
                        assert(!crate::store::window_keyed(window, per2, st2));
                    }
                }
            },
        }
        proof {
            assert forall|pid2: PlayerId, per2: PredictionPeriod, st2: Timestamp|
                !(pid2 == player_id && per2 == period && st2 == start) implies self.spec_prediction(
                pid2,
                per2,
                st2,
            ) == old(self).spec_prediction(pid2, per2, st2) by {
                assert(!crate::store::pred_keyed(prediction, pid2, per2, st2));
            }
        }
        let mut targets: Vec<ChainId> = Vec::new();
        targets.push(self_chain);
        Ok(
            OutboundDispatch {
                targets,
                message: Message::PredictionMade { player_id, period, outcome },
            },
        )
    }

    /// Forecast the daily window covering `now`.
    pub fn predict_daily_outcome(
        &mut self,
        player_id: PlayerId,
        outcome: PriceOutcome,
        self_chain: ChainId,
        now: Timestamp,
    ) -> (r: Result<OutboundDispatch, ContractError>)
        requires
            old(self).wf(),
        ensures
            final(self).wf(),
            spec_submit_post(
                *old(self),
                *final(self),
                r,
                player_id,
                PredictionPeriod::Daily,
                outcome,
                self_chain,
                now,
            ),
    {
        self.submit_prediction(player_id, PredictionPeriod::Daily, outcome, self_chain, now)
    }

    /// Forecast the weekly window covering `now`.
    pub fn predict_weekly_outcome(
        &mut self,
        player_id: PlayerId,
        outcome: PriceOutcome,
        self_chain: ChainId,
        now: Timestamp,
    ) -> (r: Result<OutboundDispatch, ContractError>)
        requires
            old(self).wf(),
        ensures
            final(self).wf(),
            spec_submit_post(
                *old(self),
                *final(self),
                r,
                player_id,
                PredictionPeriod::Weekly,
                outcome,
                self_chain,
                now,
            ),
    {
        self.submit_prediction(player_id, PredictionPeriod::Weekly, outcome, self_chain, now)
    }

    /// Forecast the monthly window covering `now`.
    pub fn predict_monthly_outcome(
        &mut self,
        player_id: PlayerId,
        outcome: PriceOutcome,
        self_chain: ChainId,
        now: Timestamp,
    ) -> (r: Result<OutboundDispatch, ContractError>)
        requires
            old(self).wf(),
        ensures
            final(self).wf(),
            spec_submit_post(
                *old(self),
                *final(self),
                r,
                player_id,
                PredictionPeriod::Monthly,
                outcome,
                self_chain,
                now,
            ),
    {
        self.submit_prediction(player_id, PredictionPeriod::Monthly, outcome, self_chain, now)
    }

    /// Feed an oracle price fact into the shard: the configured admin alone
    /// may. The current price fact is replaced, the fact is announced to
    /// every peer, and the maturity sweep runs — every window whose end has
    /// been reached resolves against this price, however late it arrives.
    pub fn update_market_price(
        &mut self,
        caller: PlayerId,
        price: Amount,
        self_chain: ChainId,
        now: Timestamp,
    ) -> (r: Result<Vec<OutboundDispatch>, ContractError>)
        requires
            old(self).wf(),
        ensures
            final(self).wf(),
            spec_update_market_price_post(*old(self), *final(self), r, caller, price, self_chain, now),
    {
        if !self.is_admin(caller) {
            return Err(ContractError::NotAdmin);
        }
        self.current_market_price = MarketPrice { price, timestamp: now };
        let d = self.broadcast_global_price_update(price, now, self_chain);
        let ghost mid = *self;
        let mut out: Vec<OutboundDispatch> = Vec::new();
        out.push(d);
        let ghost head = out@;
        let settled = self.resolve_expired_predictions(self_chain, now);
        let ghost sw = settled@;
        push_all(&mut out, settled);
        proof {
            assert(mid.players == old(self).players);
            assert(mid.guilds == old(self).guilds);
            assert(mid.predictions == old(self).predictions);
            assert(mid.period_prices == old(self).period_prices);
            assert forall|pid2: PlayerId, q2: PlayerId|
                crate::cascade::spec_settlement_parties(mid, pid2, q2)
                    == crate::cascade::spec_settlement_parties(*old(self), pid2, q2) by {
                assert(mid.spec_player(pid2) == old(self).spec_player(pid2));
                assert(mid.spec_player(q2) == old(self).spec_player(q2));
            }
            assert forall|p2: PlayerId|
                #![trigger self.spec_player(p2)]
                (match old(self).spec_player(p2) {
                Some(q) => match self.spec_player(p2) {
                    Some(qq) => qq.id == q.id && qq.guild_id == q.guild_id,
                    None => false,
                },
                None => self.spec_player(p2) is None,
            }) by {
                assert(mid.spec_player(p2) == old(self).spec_player(p2));
            }
            assert forall|j: int|
                0 <= j < old(self).predictions@.len() && spec_pred_settles(
                    #[trigger] old(self).predictions@[j],
                    old(self).period_prices@,
                    MarketPrice { price, timestamp: now },
                    now,
                ) implies exists|i: int|
                0 <= i < out@.len() && (#[trigger] out@[i]).targets@ =~= seq![self_chain]
                    && out@[i].message == (Message::PredictionResolved {
                    player_id: old(self).predictions@[j].player_id,
                    period: old(self).predictions@[j].period,
                    correct: spec_pred_step(
                        old(self).predictions@[j],
                        old(self).period_prices@,
                        MarketPrice { price, timestamp: now },
                        now,
                    ).correct.unwrap(),
                }) by {
                assert(mid.predictions@ == old(self).predictions@);
                assert(spec_pred_settles(
                    mid.predictions@[j],
                    mid.period_prices@,
                    mid.current_market_price,
                    now,
                ));
                let i = choose|i: int|
                    0 <= i < sw.len() && (#[trigger] sw[i]).targets@ =~= seq![self_chain]
                        && sw[i].message == (Message::PredictionResolved {
                        player_id: mid.predictions@[j].player_id,
                        period: mid.predictions@[j].period,
                        correct: spec_pred_step(
                            mid.predictions@[j],
                            mid.period_prices@,
                            mid.current_market_price,
                            now,
                        ).correct.unwrap(),
                    });
                assert(out@[i + 1] == sw[i]);
            }
        }
        Ok(out)
    }

    /// The maturity sweep: every unresolved window whose end has been
    /// reached captures the current price fact as its end snapshot (and as
    /// its start snapshot if none was ever taken), derives its outcome and
    /// becomes immutably resolved; every open forecast in a matured window
    /// is judged against that outcome and settled through the reward or
    /// penalty cascade. Untouched: windows still running and everything
    /// already resolved.
    #[verifier::loop_isolation(false)]
    pub fn resolve_expired_predictions(&mut self, self_chain: ChainId, now: Timestamp) -> (out:
        Vec<OutboundDispatch>)
        requires
            old(self).wf(),
        ensures
            final(self).wf(),
            final(self).period_prices@.len() == old(self).period_prices@.len(),
            forall|j: int|
                0 <= j < old(self).period_prices@.len() ==> final(self).period_prices@[j]
                    == spec_window_step(
                    #[trigger] old(self).period_prices@[j],
                    old(self).current_market_price,
                    now,
                ),
            forall|per: PredictionPeriod, st: Timestamp|
                #![trigger final(self).spec_window(per, st)]
                final(self).spec_window(per, st) == match old(self).spec_window(per, st) {
                    Some(w) => Some(
                        spec_window_step(w, old(self).current_market_price, now),
                    ),
                    None => None,
                },
            final(self).predictions@.len() == old(self).predictions@.len(),
            forall|j: int|
                0 <= j < old(self).predictions@.len() ==> final(self).predictions@[j]
                    == spec_pred_step(
                    #[trigger] old(self).predictions@[j],
                    old(self).period_prices@,
                    old(self).current_market_price,
                    now,
                ),
            forall|pid: PlayerId, per: PredictionPeriod, st: Timestamp|
                #![trigger final(self).spec_prediction(pid, per, st)]
                final(self).spec_prediction(pid, per, st) == (match old(self).spec_prediction(
                    pid,
                    per,
                    st,
                ) {
                    Some(p) => Some(
                        spec_pred_step(
                            p,
                            old(self).period_prices@,
                            old(self).current_market_price,
                            now,
                        ),
                    ),
                    None => None,
                }),
            *final(self) == (PredictionMarketState {
                players: final(self).players,
                total_supply: final(self).total_supply,
                leaderboard: final(self).leaderboard,
                global_players: final(self).global_players,
                predictions: final(self).predictions,
                period_prices: final(self).period_prices,
                ..*old(self)
            }),
            forall|p2: PlayerId|
                #![trigger final(self).spec_player(p2)]
                (forall|j: int|
                    0 <= j < old(self).predictions@.len() && spec_pred_settles(
                        #[trigger] old(self).predictions@[j],
                        old(self).period_prices@,
                        old(self).current_market_price,
                        now,
                    ) ==> !crate::cascade::spec_settlement_parties(
                        *old(self),
                        old(self).predictions@[j].player_id,
                        p2,
                    )) ==> final(self).spec_player(p2) == old(self).spec_player(p2),
            forall|p2: PlayerId|
                #![trigger final(self).spec_player(p2)]
                match old(self).spec_player(p2) {
                    Some(q) => match final(self).spec_player(p2) {
                        Some(q2) => q2.id == q.id && q2.guild_id == q.guild_id,
                        None => false,
                    },
                    None => final(self).spec_player(p2) is None,
                },
            (forall|j: int|
                0 <= j < old(self).predictions@.len() ==> !spec_pred_settles(
                    #[trigger] old(self).predictions@[j],
                    old(self).period_prices@,
                    old(self).current_market_price,
                    now,
                )) ==> *final(self) == (PredictionMarketState {
                period_prices: final(self).period_prices,
                ..*old(self)
            }),
            forall|j: int|
                0 <= j < old(self).predictions@.len() && spec_pred_settles(
                    #[trigger] old(self).predictions@[j],
                    old(self).period_prices@,
                    old(self).current_market_price,
                    now,
                ) ==> exists|i: int|
                    0 <= i < out@.len() && (#[trigger] out@[i]).targets@ =~= seq![self_chain]
                        && out@[i].message == (Message::PredictionResolved {
                        player_id: old(self).predictions@[j].player_id,
                        period: old(self).predictions@[j].period,
                        correct: spec_pred_step(
                            old(self).predictions@[j],
                            old(self).period_prices@,
                            old(self).current_market_price,
                            now,
                        ).correct.unwrap(),
                    }),
    {
        let price_fact = self.current_market_price;
        let mut out: Vec<OutboundDispatch> = Vec::new();

        let wn: usize = self.period_prices.len();
        let mut i: usize = 0;
        while i < wn
            invariant
                i <= wn,
                self.wf(),
                self.period_prices@.len() == wn,
                self.period_prices.wf(),
                forall|j: int|
                    0 <= j < i ==> self.period_prices@[j] == spec_window_step(
                        #[trigger] old(self).period_prices@[j],
                        price_fact,
                        now,
                    ),
                forall|j: int|
                    i <= j < wn ==> self.period_prices@[j] == #[trigger] old(
                        self,
                    ).period_prices@[j],
                *self == (PredictionMarketState {
                    period_prices: self.period_prices,
                    ..*old(self)
                }),
            decreases wn - i,
        {
            let w = self.period_prices.at(i);
            if !w.resolved && now >= w.period_end {
                let mut w2 = w;
                if w2.start_price.is_none() {
                    w2.start_price = Some(price_fact);
                }
                if w2.end_price.is_none() {
                    w2.end_price = Some(price_fact);
                }
                let start_p = match w2.start_price {
                    Some(sp) => sp.price,
                    None => 0,
                };
                let end_p = match w2.end_price {
                    Some(ep) => ep.price,
                    None => 0,
                };
                let outcome = calculate_outcome_from_prices(start_p, end_p);
                w2.outcome = Some(outcome);
                w2.resolved = true;
                self.period_prices.set_at(i, w2);
            }
            i = i + 1;
        }
        let ghost stepped_windows = self.period_prices@;
        proof {
            assert forall|per: PredictionPeriod, st: Timestamp|
                #![trigger spec_find_window(stepped_windows, per, st)]
                spec_find_window(stepped_windows, per, st) == (match spec_find_window(
                old(self).period_prices@,
                per,
                st,
            ) {
                Some(w) => Some(spec_window_step(w, price_fact, now)),
                None => None,
            }) by {
                lemma_find_window_stepped(
                    old(self).period_prices@,
                    stepped_windows,
                    price_fact,
                    now,
                    per,
                    st,
                );
            }
        }
        let pn: usize = self.predictions.len();
        let mut k: usize = 0;
        while k < pn
            invariant
                k <= pn,
                self.wf(),
                self.predictions@.len() == pn,
                self.predictions.wf(),
                self.period_prices@ =~= stepped_windows,
                self.period_prices@.len() == old(self).period_prices@.len(),
                forall|j: int|
                    0 <= j < old(self).period_prices@.len() ==> self.period_prices@[j]
                        == spec_window_step(
                        #[trigger] old(self).period_prices@[j],
                        price_fact,
                        now,
                    ),
                forall|per: PredictionPeriod, st: Timestamp|
                    #![trigger spec_find_window(stepped_windows, per, st)]
                    spec_find_window(stepped_windows, per, st) == (match spec_find_window(
                        old(self).period_prices@,
                        per,
                        st,
                    ) {
                        Some(w) => Some(spec_window_step(w, price_fact, now)),
                        None => None,
                    }),
                forall|j: int|
                    0 <= j < k ==> self.predictions@[j] == spec_pred_step(
                        #[trigger] old(self).predictions@[j],
                        old(self).period_prices@,
                        price_fact,
                        now,
                    ),
                forall|j: int|
                    k <= j < pn ==> self.predictions@[j] == #[trigger] old(self).predictions@[j],
                *self == (PredictionMarketState {
                    players: self.players,
                    total_supply: self.total_supply,
                    leaderboard: self.leaderboard,
                    global_players: self.global_players,
                    predictions: self.predictions,
                    period_prices: self.period_prices,
                    ..*old(self)
                }),
                forall|p2: PlayerId|
                    #![trigger self.spec_player(p2)]
                    (forall|j: int|
                        0 <= j < k && spec_pred_settles(
                            #[trigger] old(self).predictions@[j],
                            old(self).period_prices@,
                            price_fact,
                            now,
                        ) ==> !crate::cascade::spec_settlement_parties(
                            *old(self),
                            old(self).predictions@[j].player_id,
                            p2,
                        )) ==> self.spec_player(p2) == old(self).spec_player(p2),
                forall|p2: PlayerId|
                    #![trigger self.spec_player(p2)]
                    match old(self).spec_player(p2) {
                        Some(q) => match self.spec_player(p2) {
                            Some(q2) => q2.id == q.id && q2.guild_id == q.guild_id,
                            None => false,
                        },
                        None => self.spec_player(p2) is None,
                    },
                (forall|j: int|
                    0 <= j < k ==> !spec_pred_settles(
                        #[trigger] old(self).predictions@[j],
                        old(self).period_prices@,
                        price_fact,
                        now,
                    )) ==> *self == (PredictionMarketState {
                    period_prices: self.period_prices,
                    ..*old(self)
                }),
                forall|j: int|
                    0 <= j < k && spec_pred_settles(
                        #[trigger] old(self).predictions@[j],
                        old(self).period_prices@,
                        price_fact,
                        now,
                    ) ==> exists|i: int|
                        0 <= i < out@.len() && (#[trigger] out@[i]).targets@ =~= seq![self_chain]
                            && out@[i].message == (Message::PredictionResolved {
                            player_id: old(self).predictions@[j].player_id,
                            period: old(self).predictions@[j].period,
                            correct: spec_pred_step(
                                old(self).predictions@[j],
                                old(self).period_prices@,
                                price_fact,
                                now,
                            ).correct.unwrap(),
                        }),
            decreases pn - k,
        {
            let ghost loop_top = *self;
            let ghost out_top = out@;
            let p = self.predictions.at(k);
            proof {
                assert(spec_find_window(stepped_windows, p.period, p.period_start) == (
                match spec_find_window(old(self).period_prices@, p.period, p.period_start) {
                    Some(w) => Some(spec_window_step(w, price_fact, now)),
                    None => None,
                }));
                assert(self.period_prices@ == stepped_windows);
            }
            if !p.resolved {
                match self.period_prices.get(p.period, p.period_start) {
                    Some(w2) => {
                        if now >= w2.period_end {
                            match w2.outcome {
                                Some(o) => {
                                    let correct = outcome_eq(p.outcome, o);
                                    let mut p2 = p;
                                    p2.resolved = true;
                                    p2.correct = Some(correct);
                                    self.predictions.set_at(k, p2);
                                    let mut event_targets: Vec<ChainId> = Vec::new();
                                    event_targets.push(self_chain);
                                    out.push(
                                        OutboundDispatch {
                                            targets: event_targets,
                                            message: Message::PredictionResolved {
                                                player_id: p.player_id,
                                                period: p.period,
                                                correct,
                                            },
                                        },
                                    );
                                    let ghost event_idx = out@.len() - 1;
                                    let ghost out_before = out@;
                                    let ghost before_settle = *self;
                                    proof {
                                        assert(spec_pred_settles(
                                            old(self).predictions@[k as int],
                                            old(self).period_prices@,
                                            price_fact,
                                            now,
                                        ));
                                        assert(before_settle.players == loop_top.players);
                                        assert(before_settle.guilds == old(self).guilds);
                                        assert forall|q2: PlayerId|
                                            crate::cascade::spec_settlement_parties(
                                                before_settle,
                                                p.player_id,
                                                q2,
                                            ) == crate::cascade::spec_settlement_parties(
                                                *old(self),
                                                p.player_id,
                                                q2,
                                            ) by {
                                            assert(before_settle.spec_player(p.player_id)
                                                == loop_top.spec_player(p.player_id));
                                            assert(loop_top.spec_player(p.player_id) is Some == (
                                            old(self).spec_player(p.player_id) is Some));
                                            assert(before_settle.spec_player(q2)
                                                == loop_top.spec_player(q2));
                                            assert(loop_top.spec_player(q2) is Some == (old(
                                                self,
                                            ).spec_player(q2) is Some));
                                        }
                                    }
                                    let settled = self.settle_prediction(
                                        p.player_id,
                                        p.period,
                                        correct,
                                        self_chain,
                                        now,
                                    );
                                    push_all(&mut out, settled);
                                    proof {
                                        assert(out@[event_idx] == out_before[event_idx]);
                                        assert forall|q2: PlayerId|
                                            #![trigger self.spec_player(q2)]
                                            (match old(self).spec_player(q2) {
                                            Some(q) => match self.spec_player(q2) {
                                                Some(qq) => qq.id == q.id && qq.guild_id
                                                    == q.guild_id,
                                                None => false,
                                            },
                                            None => self.spec_player(q2) is None,
                                        }) by {
                                            assert(before_settle.spec_player(q2) == loop_top
                                                .spec_player(q2));
                                        }
                                        assert forall|q2: PlayerId|
                                            #![trigger self.spec_player(q2)]
                                            (forall|j: int|
                                                0 <= j <= k && spec_pred_settles(
                                                    #[trigger] old(self).predictions@[j],
                                                    old(self).period_prices@,
                                                    price_fact,
                                                    now,
                                                ) ==> !crate::cascade::spec_settlement_parties(
                                                    *old(self),
                                                    old(self).predictions@[j].player_id,
                                                    q2,
                                                )) implies self.spec_player(q2) == old(
                                            self,
                                        ).spec_player(q2) by {
                                            assert(spec_pred_settles(
                                                old(self).predictions@[k as int],
                                                old(self).period_prices@,
                                                price_fact,
                                                now,
                                            ));
                                            assert(!crate::cascade::spec_settlement_parties(
                                                *old(self),
                                                p.player_id,
                                                q2,
                                            ));
                                            assert(!crate::cascade::spec_settlement_parties(
                                                before_settle,
                                                p.player_id,
                                                q2,
                                            ));
                                            assert(self.spec_player(q2) == before_settle
                                                .spec_player(q2));
                                            assert(before_settle.spec_player(q2) == loop_top
                                                .spec_player(q2));
                                        }
                                        assert(spec_pred_step(
                                            old(self).predictions@[k as int],
                                            old(self).period_prices@,
                                            price_fact,
                                            now,
                                        ).correct == Some(correct));
                                        assert(out@[event_idx].targets@ =~= seq![self_chain]);
                                        assert forall|j: int|
                                            0 <= j <= k && spec_pred_settles(
                                                #[trigger] old(self).predictions@[j],
                                                old(self).period_prices@,
                                                price_fact,
                                                now,
                                            ) implies exists|i: int|
                                            0 <= i < out@.len() && (#[trigger] out@[i]).targets@
                                                =~= seq![self_chain] && out@[i].message == (
                                            Message::PredictionResolved {
                                                player_id: old(self).predictions@[j].player_id,
                                                period: old(self).predictions@[j].period,
                                                correct: spec_pred_step(
                                                    old(self).predictions@[j],
                                                    old(self).period_prices@,
                                                    price_fact,
                                                    now,
                                                ).correct.unwrap(),
                                            }) by {
                                            if j < k as int {
                                                let i = choose|i: int|
                                                    0 <= i < out_top.len() && (
                                                    #[trigger] out_top[i]).targets@ =~= seq![
                                                        self_chain,
                                                    ] && out_top[i].message == (
                                                    Message::PredictionResolved {
                                                        player_id: old(
                                                            self,
                                                        ).predictions@[j].player_id,
                                                        period: old(self).predictions@[j].period,
                                                        correct: spec_pred_step(
                                                            old(self).predictions@[j],
                                                            old(self).period_prices@,
                                                            price_fact,
                                                            now,
                                                        ).correct.unwrap(),
                                                    });
                                                assert(out@[i] == out_top[i]);
                                            } else {
                                                assert(out@[event_idx].message == (
                                                Message::PredictionResolved {
                                                    player_id: old(
                                                        self,
                                                    ).predictions@[j].player_id,
                                                    period: old(self).predictions@[j].period,
                                                    correct: spec_pred_step(
                                                        old(self).predictions@[j],
                                                        old(self).period_prices@,
                                                        price_fact,
                                                        now,
                                                    ).correct.unwrap(),
                                                }));
                                            }
                                        }
                                    }
                                },
                                None => {},
                            }
                        }
                    },
                    None => {},
                }
            }
            k = k + 1;
            proof {
                let j = k as int - 1;
                let oldp = old(self).predictions@[j];
                assert(self.predictions@[j] == spec_pred_step(
                    oldp,
                    old(self).period_prices@,
                    price_fact,
                    now,
                ));
            }
        }
        proof {
            assert forall|pid: PlayerId, per: PredictionPeriod, st: Timestamp|
                #![trigger self.spec_prediction(pid, per, st)]
                self.spec_prediction(pid, per, st) == (match old(self).spec_prediction(
                pid,
                per,
                st,
            ) {
                Some(p) => Some(
                    spec_pred_step(p, old(self).period_prices@, price_fact, now),
                ),
                None => None,
            }) by {
                lemma_find_pred_stepped(
                    old(self).predictions@,
                    self.predictions@,
                    old(self).period_prices@,
                    price_fact,
                    now,
                    pid,
                    per,
                    st,
                );
            }
            assert(self.period_prices@ == stepped_windows);
            assert forall|per: PredictionPeriod, st: Timestamp|
                #![trigger self.spec_window(per, st)]
                self.spec_window(per, st) == (match old(self).spec_window(per, st) {
                Some(w) => Some(spec_window_step(w, price_fact, now)),
                None => None,
            }) by {
                assert(spec_find_window(stepped_windows, per, st) == (match spec_find_window(
                    old(self).period_prices@,
                    per,
                    st,
                ) {
                    Some(w) => Some(spec_window_step(w, price_fact, now)),
                    None => None,
                }));
            }
        }
        out
    }

    /// Was the player's forecast for the current window of `period` judged
    /// correct? `false` while unresolved or when no forecast exists.
    pub fn period_outcome_of(&self, player_id: PlayerId, period: PredictionPeriod, now: Timestamp)
        -> (r: Result<bool, ContractError>)
        ensures
            match r {
                Ok(b) => self.spec_player(player_id) is Some && b == (match self.spec_prediction(
                    player_id,
                    period,
                    spec_period_start(period, now),
                ) {
                    Some(p) => p.correct == Some(true),
                    None => false,
                }),
                Err(e) => self.spec_player(player_id) is None && e
                    == ContractError::PlayerNotFound,
            },
    {
        if !self.players.contains_key(player_id) {
            return Err(ContractError::PlayerNotFound);
        }
        let start = period_start_of(period, now);
        match self.predictions.get(player_id, period, start) {
            Some(p) => match p.correct {
                Some(c) => Ok(c),
                None => Ok(false),
            },
            None => Ok(false),
        }
    }

    /// Was the player's daily forecast for the window covering `now` judged
    /// correct?
    pub fn get_daily_outcome(&self, player_id: PlayerId, now: Timestamp) -> (r: Result<
        bool,
        ContractError,
    >)
        ensures
            match r {
                Ok(b) => self.spec_player(player_id) is Some && b == (match self.spec_prediction(
                    player_id,
                    PredictionPeriod::Daily,
                    spec_period_start(PredictionPeriod::Daily, now),
                ) {
                    Some(p) => p.correct == Some(true),
                    None => false,
                }),
                Err(e) => self.spec_player(player_id) is None && e
                    == ContractError::PlayerNotFound,
            },
    {
        self.period_outcome_of(player_id, PredictionPeriod::Daily, now)
    }

    /// Was the player's weekly forecast for the window covering `now`
    /// judged correct?
    pub fn get_weekly_outcome(&self, player_id: PlayerId, now: Timestamp) -> (r: Result<
        bool,
        ContractError,
    >)
        ensures
            match r {
                Ok(b) => self.spec_player(player_id) is Some && b == (match self.spec_prediction(
                    player_id,
                    PredictionPeriod::Weekly,
                    spec_period_start(PredictionPeriod::Weekly, now),
                ) {
                    Some(p) => p.correct == Some(true),
                    None => false,
                }),
                Err(e) => self.spec_player(player_id) is None && e
                    == ContractError::PlayerNotFound,
            },
    {
        self.period_outcome_of(player_id, PredictionPeriod::Weekly, now)
    }

    /// Was the player's monthly forecast for the window covering `now`
    /// judged correct?
    pub fn get_monthly_outcome(&self, player_id: PlayerId, now: Timestamp) -> (r: Result<
        bool,
        ContractError,
    >)
        ensures
            match r {
                Ok(b) => self.spec_player(player_id) is Some && b == (match self.spec_prediction(
                    player_id,
                    PredictionPeriod::Monthly,
                    spec_period_start(PredictionPeriod::Monthly, now),
                ) {
                    Some(p) => p.correct == Some(true),
                    None => false,
                }),
                Err(e) => self.spec_player(player_id) is None && e
                    == ContractError::PlayerNotFound,
            },
    {
        self.period_outcome_of(player_id, PredictionPeriod::Monthly, now)
    }
}

} // verus!
