//! The operation entry point of a shard.
//!
//! Every caller-submitted operation passes through `execute_operation`: the
//! local shard is registered on first use (and announced to the peers),
//! then exactly the handler matching the operation runs as one atomic unit
//! against this shard's state, and the dispatches it owes — cross-shard
//! announcements and local events — are handed back for the host runtime
//! to send. The entry point's contract ties its result, its final state
//! and its dispatch list to the matching handler's postcondition, so a
//! rejected operation has no effect beyond the registration. Whatever the
//! operation, windows and forecasts that were already resolved are never
//! touched again.

use vstd::prelude::*;
use crate::engine::{
    spec_submit_post, spec_update_market_price_post,
};
use crate::markets::{spec_buy_shares_post, spec_create_market_post, spec_sell_shares_post};
use crate::messages::spec_fanout;
use crate::ops::{
    spec_claim_daily_reward_post, spec_contribute_post, spec_create_guild_post,
    spec_join_guild_post, spec_leave_guild_post, spec_mint_points_post,
    spec_register_player_post, spec_update_config_post, spec_update_profile_post,
};
use crate::state::PredictionMarketState;
use crate::store::{spec_find_pred, spec_find_window};
use crate::types::{
    ChainId, ContractError, GuildId, Message, Operation, OutboundDispatch, PeriodPriceData,
    PlayerId, PlayerPrediction, PredictionPeriod, Timestamp,
};

verus! {

/// Every window resolved in `a` stands unchanged in `b`.
pub open spec fn resolved_windows_preserved(
    a: Seq<PeriodPriceData>,
    b: Seq<PeriodPriceData>,
) -> bool {
    forall|per: PredictionPeriod, st: Timestamp|
        #![trigger spec_find_window(b, per, st)]
        match spec_find_window(a, per, st) {
            Some(w) => w.resolved ==> spec_find_window(b, per, st) == Some(w),
            None => true,
        }
}

/// Every forecast resolved in `a` stands unchanged in `b`.
pub open spec fn resolved_predictions_preserved(
    a: Seq<PlayerPrediction>,
    b: Seq<PlayerPrediction>,
) -> bool {
    forall|pid: PlayerId, per: PredictionPeriod, st: Timestamp|
        #![trigger spec_find_pred(b, pid, per, st)]
        match spec_find_pred(a, pid, per, st) {
            Some(p) => p.resolved ==> spec_find_pred(b, pid, per, st) == Some(p),
            None => true,
        }
}

/// What registering the local shard on first use leaves behind: a fresh
/// registry entry when the shard was unknown, nothing otherwise.
pub open spec fn spec_registration_step(
    pre: PredictionMarketState,
    mid: PredictionMarketState,
    self_chain: ChainId,
    now: Timestamp,
) -> bool {
    &&& (pre.spec_chain(self_chain) is Some ==> mid == pre)
    &&& (pre.spec_chain(self_chain) is None ==> {
        &&& mid.subscribed_chains@ =~= pre.subscribed_chains@.push((self_chain, now))
        &&& mid == (PredictionMarketState { subscribed_chains: mid.subscribed_chains, ..pre })
    })
}

/// How the entry point's result, final state and dispatch list relate to
/// the handler matching the operation. `mid` is the state after the
/// first-use shard registration; when that registration owed an
/// announcement it stands at the head of the dispatch list, and the
/// handler's own dispatches follow it.
pub open spec fn spec_operation_post(
    pre: PredictionMarketState,
    mid: PredictionMarketState,
    post: PredictionMarketState,
    result: Result<(), ContractError>,
    ds: Seq<OutboundDispatch>,
    caller: PlayerId,
    op: Operation,
    self_chain: ChainId,
    now: Timestamp,
) -> bool {
    let base: int = if pre.spec_chain(self_chain) is None {
        1int
    } else {
        0int
    };
    &&& ds.len() >= base
    &&& (pre.spec_chain(self_chain) is None ==> {
        &&& ds[0].targets@ =~= spec_fanout(pre.subscribed_chains@, self_chain)
        &&& ds[0].message == (Message::ChainRegistered { chain_id: self_chain, timestamp: now })
    })
    &&& match op {
        Operation::RegisterPlayer { display_name } => exists|
            hr: Result<OutboundDispatch, ContractError>,
        |
            {
                &&& #[trigger] spec_register_player_post(
                    mid,
                    post,
                    hr,
                    caller,
                    display_name,
                    self_chain,
                    now,
                )
                &&& match hr {
                    Ok(d) => result is Ok && ds.len() == base + 1 && ds[base] == d,
                    Err(e) => result == Err::<(), ContractError>(e) && ds.len() == base,
                }
            },
        Operation::UpdateProfile { display_name } => {
            &&& spec_update_profile_post(mid, post, result, caller, display_name)
            &&& ds.len() == base
        },
        Operation::ClaimDailyReward => {
            &&& spec_claim_daily_reward_post(mid, post, result, caller, now)
            &&& ds.len() == base
        },
        Operation::CreateMarket { title, amount, fee_percent } => exists|
            hr: Result<Vec<OutboundDispatch>, ContractError>,
        |
            {
                &&& #[trigger] spec_create_market_post(
                    mid,
                    post,
                    hr,
                    caller,
                    title,
                    amount,
                    fee_percent,
                    self_chain,
                    now,
                )
                &&& match hr {
                    Ok(v) => result is Ok && ds.len() == base + v@.len() && ds.skip(base) =~= v@,
                    Err(e) => result == Err::<(), ContractError>(e) && ds.len() == base,
                }
            },
        Operation::BuyShares { market_id, amount } => exists|
            hr: Result<OutboundDispatch, ContractError>,
        |
            {
                &&& #[trigger] spec_buy_shares_post(
                    mid,
                    post,
                    hr,
                    caller,
                    market_id,
                    amount,
                    self_chain,
                    now,
                )
                &&& match hr {
                    Ok(d) => result is Ok && ds.len() == base + 1 && ds[base] == d,
                    Err(e) => result == Err::<(), ContractError>(e) && ds.len() == base,
                }
            },
        Operation::SellShares { market_id, amount } => exists|
            hr: Result<OutboundDispatch, ContractError>,
        |
            {
                &&& #[trigger] spec_sell_shares_post(
                    mid,
                    post,
                    hr,
                    caller,
                    market_id,
                    amount,
                    self_chain,
                    now,
                )
                &&& match hr {
                    Ok(d) => result is Ok && ds.len() == base + 1 && ds[base] == d,
                    Err(e) => result == Err::<(), ContractError>(e) && ds.len() == base,
                }
            },
        Operation::MintPoints { amount } => {
            &&& spec_mint_points_post(mid, post, result, caller, amount)
            &&& ds.len() == base
        },
        Operation::CreateGuild { name } => exists|
            hr: Result<(GuildId, OutboundDispatch, OutboundDispatch), ContractError>,
        |
            {
                &&& #[trigger] spec_create_guild_post(mid, post, hr, caller, name, self_chain, now)
                &&& match hr {
                    Ok(t) => result is Ok && ds.len() == base + 2 && ds[base] == t.1 && ds[base
                        + 1] == t.2,
                    Err(e) => result == Err::<(), ContractError>(e) && ds.len() == base,
                }
            },
        Operation::JoinGuild { guild_id } => {
            &&& spec_join_guild_post(mid, post, result, caller, guild_id)
            &&& ds.len() == base
        },
        Operation::LeaveGuild => {
            &&& spec_leave_guild_post(mid, post, result, caller)
            &&& ds.len() == base
        },
        Operation::ContributeToGuild { amount } => {
            &&& spec_contribute_post(mid, post, result, caller, amount)
            &&& ds.len() == base
        },
        Operation::UpdateGameConfig { config } => {
            &&& spec_update_config_post(mid, post, result, caller, config)
            &&& ds.len() == base
        },
        Operation::PredictDailyOutcome { outcome } => exists|
            hr: Result<OutboundDispatch, ContractError>,
        |
            {
                &&& #[trigger] spec_submit_post(
                    mid,
                    post,
                    hr,
                    caller,
                    PredictionPeriod::Daily,
                    outcome,
                    self_chain,
                    now,
                )
                &&& match hr {
                    Ok(d) => result is Ok && ds.len() == base + 1 && ds[base] == d,
                    Err(e) => result == Err::<(), ContractError>(e) && ds.len() == base,
                }
            },
        Operation::PredictWeeklyOutcome { outcome } => exists|
            hr: Result<OutboundDispatch, ContractError>,
        |
            {
                &&& #[trigger] spec_submit_post(
                    mid,
                    post,
                    hr,
                    caller,
                    PredictionPeriod::Weekly,
                    outcome,
                    self_chain,
                    now,
                )
                &&& match hr {
                    Ok(d) => result is Ok && ds.len() == base + 1 && ds[base] == d,
                    Err(e) => result == Err::<(), ContractError>(e) && ds.len() == base,
                }
            },
        Operation::PredictMonthlyOutcome { outcome } => exists|
            hr: Result<OutboundDispatch, ContractError>,
        |
            {
                &&& #[trigger] spec_submit_post(
                    mid,
                    post,
                    hr,
                    caller,
                    PredictionPeriod::Monthly,
                    outcome,
                    self_chain,
                    now,
                )
                &&& match hr {
                    Ok(d) => result is Ok && ds.len() == base + 1 && ds[base] == d,
                    Err(e) => result == Err::<(), ContractError>(e) && ds.len() == base,
                }
            },
        Operation::UpdateMarketPrice { price } => exists|
            hr: Result<Vec<OutboundDispatch>, ContractError>,
        |
            {
                &&& #[trigger] spec_update_market_price_post(
                    mid,
                    post,
                    hr,
                    caller,
                    price,
                    self_chain,
                    now,
                )
                &&& match hr {
                    Ok(v) => result is Ok && ds.len() == base + v@.len() && ds.skip(base) =~= v@,
                    Err(e) => result == Err::<(), ContractError>(e) && ds.len() == base,
                }
            },
    }
}

/// Move every dispatch of `extra` to the end of `out`.
#[verifier::loop_isolation(false)]
fn append_dispatches(out: &mut Vec<OutboundDispatch>, extra: Vec<OutboundDispatch>)
    ensures
        final(out)@ =~= old(out)@ + extra@,
{
    let ghost orig = extra@;
    let mut rest = extra;
    let total: usize = rest.len();
    proof {
        assert(orig.len() == total);
    }
    let mut k: usize = 0;
    proof {
        assert(out@ =~= old(out)@ + orig.take(0));
    }
    while rest.len() > 0
        invariant
            k <= orig.len(),
            orig.len() <= usize::MAX,
            rest@ =~= orig.skip(k as int),
            out@ =~= old(out)@ + orig.take(k as int),
        decreases rest@.len(),
    {
        let d = rest.remove(0);
        proof {
            assert(d == orig[k as int]);
            assert(orig.skip(k as int).drop_first() =~= orig.skip(k as int + 1));
            assert((old(out)@ + orig.take(k as int)).push(orig[k as int]) =~= old(out)@
                + orig.take(k as int + 1));
        }
        out.push(d);
        k = k + 1;
    }
    proof {
        assert(orig.take(k as int) =~= orig);
    }
}

impl PredictionMarketState {
    /// Run the handler matching `op` against a shard whose local chain is
    /// already registered; the handler's own dispatches are returned as
    /// the whole list.
    #[verifier::rlimit(100)]
    fn dispatch_operation(
        &mut self,
        caller: PlayerId,
        op: Operation,
        self_chain: ChainId,
        now: Timestamp,
    ) -> (res: (Result<(), ContractError>, Vec<OutboundDispatch>))
        requires
            old(self).wf(),
            old(self).spec_chain(self_chain) is Some,
        ensures
            final(self).wf(),
            final(self).subscribed_chains == old(self).subscribed_chains,
            resolved_windows_preserved(old(self).period_prices@, final(self).period_prices@),
            resolved_predictions_preserved(old(self).predictions@, final(self).predictions@),
            spec_operation_post(
                *old(self),
                *old(self),
                *final(self),
                res.0,
                res.1@,
                caller,
                op,
                self_chain,
                now,
            ),
    {
        let ghost mid = *self;
        let mut dispatches: Vec<OutboundDispatch> = Vec::new();
        let ghost base = 0int;
        let result: Result<(), ContractError> = match op {
            Operation::RegisterPlayer { display_name } => {
                match self.register_player(caller, display_name, self_chain, now) {
                    Ok(d) => {
                        dispatches.push(d);
                        Ok(())
                    },
                    Err(e) => Err(e),
                }
            },
            Operation::UpdateProfile { display_name } => {
                self.update_player_profile(caller, display_name)
            },
            Operation::ClaimDailyReward => self.claim_daily_reward(caller, now),
            Operation::CreateMarket { title, amount, fee_percent } => {
                match self.create_market(caller, title, amount, fee_percent, self_chain, now) {
                    Ok(ds) => {
                        append_dispatches(&mut dispatches, ds);
                        Ok(())
                    },
                    Err(e) => Err(e),
                }
            },
            Operation::BuyShares { market_id, amount } => {
                match self.buy_shares(caller, market_id, amount, self_chain, now) {
                    Ok(d) => {
                        dispatches.push(d);
                        Ok(())
                    },
                    Err(e) => Err(e),
                }
            },
            Operation::SellShares { market_id, amount } => {
                match self.sell_shares(caller, market_id, amount, self_chain, now) {
                    Ok(d) => {
                        dispatches.push(d);
                        Ok(())
                    },
                    Err(e) => Err(e),
                }
            },
            Operation::MintPoints { amount } => self.mint_points(caller, amount),
            Operation::CreateGuild { name } => {
                match self.create_guild(caller, name, self_chain, now) {
                    Ok((_gid, local, global)) => {
                        dispatches.push(local);
                        dispatches.push(global);
                        Ok(())
                    },
                    Err(e) => Err(e),
                }
            },
            Operation::JoinGuild { guild_id } => self.join_guild(caller, guild_id),
            Operation::LeaveGuild => self.leave_guild(caller),
            Operation::ContributeToGuild { amount } => self.contribute_to_guild(caller, amount),
            Operation::UpdateGameConfig { config } => self.update_game_config(caller, config),
            Operation::PredictDailyOutcome { outcome } => {
                match self.predict_daily_outcome(caller, outcome, self_chain, now) {
                    Ok(d) => {
                        dispatches.push(d);
                        Ok(())
                    },
                    Err(e) => Err(e),
                }
            },
            Operation::PredictWeeklyOutcome { outcome } => {
                match self.predict_weekly_outcome(caller, outcome, self_chain, now) {
                    Ok(d) => {
                        dispatches.push(d);
                        Ok(())
                    },
                    Err(e) => Err(e),
                }
            },
            Operation::PredictMonthlyOutcome { outcome } => {
                match self.predict_monthly_outcome(caller, outcome, self_chain, now) {
                    Ok(d) => {
                        dispatches.push(d);
                        Ok(())
                    },
                    Err(e) => Err(e),
                }
            },
            Operation::UpdateMarketPrice { price } => {
                match self.update_market_price(caller, price, self_chain, now) {
                    Ok(ds) => {
                        append_dispatches(&mut dispatches, ds);
                        Ok(())
                    },
                    Err(e) => Err(e),
                }
            },
        };
        proof {
            assert(self.subscribed_chains == mid.subscribed_chains);
            assert(mid.period_prices@ == old(self).period_prices@);
            assert(mid.predictions@ == old(self).predictions@);
            assert forall|per: PredictionPeriod, st: Timestamp|
                #![trigger spec_find_window(self.period_prices@, per, st)]
                (match spec_find_window(old(self).period_prices@, per, st) {
                Some(w) => w.resolved ==> spec_find_window(self.period_prices@, per, st) == Some(
                    w,
                ),
                None => true,
            }) by {
                assert(self.spec_window(per, st) == spec_find_window(
                    self.period_prices@,
                    per,
                    st,
                ));
                assert(mid.spec_window(per, st) == spec_find_window(mid.period_prices@, per, st));
            }
            assert forall|pid: PlayerId, per: PredictionPeriod, st: Timestamp|
                #![trigger spec_find_pred(self.predictions@, pid, per, st)]
                (match spec_find_pred(old(self).predictions@, pid, per, st) {
                Some(p) => p.resolved ==> spec_find_pred(self.predictions@, pid, per, st) == Some(
                    p,
                ),
                None => true,
            }) by {
                assert(self.spec_prediction(pid, per, st) == spec_find_pred(
                    self.predictions@,
                    pid,
                    per,
                    st,
                ));
                assert(mid.spec_prediction(pid, per, st) == spec_find_pred(
                    mid.predictions@,
                    pid,
                    per,
                    st,
                ));
            }
        }
        (result, dispatches)
    }

    /// Run one caller-submitted operation at local logical time `now`.
    /// The local shard joins the registry on first use; then exactly the
    /// handler matching the operation runs, and its outcome, the final
    /// state and the dispatches owed — the registration announcement
    /// first, then the handler's own — are pinned to the handler's
    /// postcondition. Resolved windows and resolved forecasts are immutable
    /// across every operation.
    #[verifier::rlimit(100)]
    pub fn execute_operation(
        &mut self,
        caller: PlayerId,
        op: Operation,
        self_chain: ChainId,
        now: Timestamp,
    ) -> (out: (Result<(), ContractError>, Vec<OutboundDispatch>))
        requires
            old(self).wf(),
        ensures
            final(self).wf(),
            final(self).spec_chain(self_chain) is Some,
            resolved_windows_preserved(old(self).period_prices@, final(self).period_prices@),
            resolved_predictions_preserved(old(self).predictions@, final(self).predictions@),
            exists|mid: PredictionMarketState|
                {
                    &&& #[trigger] spec_registration_step(*old(self), mid, self_chain, now)
                    &&& mid.wf()
                    &&& spec_operation_post(
                        *old(self),
                        mid,
                        *final(self),
                        out.0,
                        out.1@,
                        caller,
                        op,
                        self_chain,
                        now,
                    )
                },
    {
        let mut dispatches: Vec<OutboundDispatch> = Vec::new();
        match self.ensure_chain_registered(self_chain, now) {
            Some(d) => {
                dispatches.push(d);
            },
            None => {},
        }
        proof {
            if old(self).spec_chain(self_chain) is None {
                crate::table::lemma_find_none_no_hit(old(self).subscribed_chains@, self_chain);
                let cs = self.subscribed_chains@;
                let n = old(self).subscribed_chains@.len() as int;
                assert(cs[n].0 == self_chain);
                assert forall|j: int| 0 <= j < n implies (#[trigger] cs[j]).0 != self_chain by {
                    assert(cs[j] == old(self).subscribed_chains@[j]);
                }
                crate::table::lemma_find_first(cs, self_chain, n);
            }
            assert(self.spec_chain(self_chain) is Some);
        }
        let ghost mid = *self;
        let ghost base = dispatches@.len() as int;
        proof {
            assert(spec_registration_step(*old(self), mid, self_chain, now));
            if old(self).spec_chain(self_chain) is None {
                assert(base == 1);
            } else {
                assert(base == 0);
            }
        }
        let (result, handler_ds) = self.dispatch_operation(caller, op, self_chain, now);
        let ghost hds = handler_ds@;
        append_dispatches(&mut dispatches, handler_ds);
        proof {
            assert(dispatches@ =~= dispatches@.take(base) + hds);
            assert(dispatches@.skip(base) =~= hds);
            assert forall|i: int| 0 <= i < hds.len() implies #[trigger] dispatches@[base + i]
                == hds[i] by {}
            assert(mid.period_prices@ == old(self).period_prices@);
            assert(mid.predictions@ == old(self).predictions@);
            assert forall|per: PredictionPeriod, st: Timestamp|
                #![trigger spec_find_window(self.period_prices@, per, st)]
                (match spec_find_window(old(self).period_prices@, per, st) {
                Some(w) => w.resolved ==> spec_find_window(self.period_prices@, per, st) == Some(
                    w,
                ),
                None => true,
            }) by {
                assert(mid.spec_window(per, st) == spec_find_window(mid.period_prices@, per, st));
            }
            assert forall|pid: PlayerId, per: PredictionPeriod, st: Timestamp|
                #![trigger spec_find_pred(self.predictions@, pid, per, st)]
                (match spec_find_pred(old(self).predictions@, pid, per, st) {
                Some(p) => p.resolved ==> spec_find_pred(self.predictions@, pid, per, st) == Some(
                    p,
                ),
                None => true,
            }) by {
                assert(mid.spec_prediction(pid, per, st) == spec_find_pred(
                    mid.predictions@,
                    pid,
                    per,
                    st,
                ));
            }
            assert(spec_operation_post(
                *old(self),
                mid,
                *self,
                result,
                dispatches@,
                caller,
                op,
                self_chain,
                now,
            ));
        }
        (result, dispatches)
    }
}

} // verus!
