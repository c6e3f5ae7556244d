//! The convergence laws of cross-shard reconciliation.
//!
//! These public proofs state what the design guarantees of any delivery
//! schedule: a message delivered twice has the effect of one delivery, the
//! last-writer-wins merge is insensitive to delivery order, and once every
//! pending fact about a player has reached a shard — in any order, with
//! any duplication — that shard's projection of the player carries exactly
//! the fact with the greatest logical time. Alongside them stand the
//! immutability facts: the maturity sweep never touches a window or a
//! forecast that is already resolved.

use vstd::prelude::*;
use crate::engine::{spec_pred_step, spec_window_step};
use crate::reconcile::{spec_apply_message, spec_message_identity, ProjectionView};
use crate::store::{spec_processed, ProcessedMessageRecord};
use crate::table::{distinct_keys, lemma_find_refresh, spec_find};
use crate::types::{
    Amount, ChainId, GlobalPlayerInfo, MarketPrice, Message, MessageId, PeriodPriceData,
    PlayerId, PlayerPrediction, Timestamp,
};

verus! {

/// Marking one record changes no other identity's processed status.
proof fn lemma_processed_push_other(
    s: Seq<ProcessedMessageRecord>,
    rec: ProcessedMessageRecord,
    other: MessageId,
)
    requires
        other != rec.id,
    ensures
        spec_processed(s.push(rec), other) == spec_processed(s, other),
{
    if spec_processed(s, other) {
        let i = choose|i: int| 0 <= i < s.len() && (#[trigger] s[i]).id == other;
        assert(s.push(rec)[i].id == other);
    }
    if spec_processed(s.push(rec), other) {
        let i = choose|i: int| 0 <= i < s.push(rec).len() && (#[trigger] s.push(rec)[i]).id
            == other;
        assert(i < s.len());
        assert(s[i].id == other);
    }
}

/// LAW (idempotency): delivering the same identified message twice leaves
/// exactly the state of delivering it once — whatever the local times of
/// the two deliveries. The first delivery marks the identity processed;
/// the second is gated into a complete no-op.
pub proof fn lemma_message_idempotent(p: ProjectionView, m: Message, t1: Timestamp, t2: Timestamp)
    requires
        spec_message_identity(m) is Some,
    ensures
        spec_apply_message(spec_apply_message(p, m, t1), m, t2) == spec_apply_message(p, m, t1),
{
    let id = spec_message_identity(m).unwrap();
    let p1 = spec_apply_message(p, m, t1);
    if spec_processed(p.processed, id) {
        assert(p1 == p);
    } else {
        let rec = ProcessedMessageRecord { id, time: t1 };
        assert(spec_processed(p1.processed, id)) by {
            match m {
                Message::GlobalMarketCreated { message_id, .. } => {
                    assert(p1.processed.last() == rec);
                },
                Message::GlobalPlayerRegistered { message_id, .. } => {
                    assert(p1.processed.last() == rec);
                },
                Message::GlobalPlayerUpdated { message_id, .. } => {
                    assert(p1.processed.last() == rec);
                },
                Message::GlobalGuildCreated { message_id, .. } => {
                    assert(p1.processed.last() == rec);
                },
                Message::GlobalPriceUpdate { message_id, .. } => {
                    assert(p1.processed.last() == rec);
                },
                _ => {},
            }
            assert(p1.processed[p1.processed.len() - 1].id == id);
        }
        assert(spec_apply_message(p1, m, t2) == p1);
    }
}

/// LAW (idempotency of registry announcements): a shard announcement
/// carries no identity, but inserting into the registry twice equals
/// inserting once — the registry keeps the first-observed time.
pub proof fn lemma_registry_announcement_idempotent(
    p: ProjectionView,
    chain_id: ChainId,
    ts: Timestamp,
    t1: Timestamp,
    t2: Timestamp,
)
    ensures
        spec_apply_message(
            spec_apply_message(p, Message::ChainRegistered { chain_id, timestamp: ts }, t1),
            Message::ChainRegistered { chain_id, timestamp: ts },
            t2,
        ) == spec_apply_message(p, Message::ChainRegistered { chain_id, timestamp: ts }, t1),
{
    let m = Message::ChainRegistered { chain_id, timestamp: ts };
    let p1 = spec_apply_message(p, m, t1);
    if spec_find(p.chains, chain_id) is None {
        crate::table::lemma_find_push_fresh(p.chains, chain_id, ts);
        assert(spec_find(p1.chains, chain_id) == Some(ts));
    }
    assert(spec_apply_message(p1, m, t2) == p1);
}

/// Does `m` announce a score change of player `pid`?
pub open spec fn is_player_update(m: Message, pid: PlayerId) -> bool {
    m is GlobalPlayerUpdated && upd_player(m) == pid
}

pub open spec fn upd_player(m: Message) -> PlayerId {
    match m {
        Message::GlobalPlayerUpdated { player_id, .. } => player_id,
        _ => 0,
    }
}

pub open spec fn upd_earned(m: Message) -> Amount {
    match m {
        Message::GlobalPlayerUpdated { total_earned, .. } => total_earned,
        _ => 0,
    }
}

pub open spec fn upd_profit(m: Message) -> Amount {
    match m {
        Message::GlobalPlayerUpdated { total_profit, .. } => total_profit,
        _ => 0,
    }
}

pub open spec fn upd_level(m: Message) -> u32 {
    match m {
        Message::GlobalPlayerUpdated { level, .. } => level,
        _ => 0,
    }
}

pub open spec fn upd_chain(m: Message) -> ChainId {
    match m {
        Message::GlobalPlayerUpdated { chain_id, .. } => chain_id,
        _ => 0,
    }
}

pub open spec fn upd_time(m: Message) -> Timestamp {
    match m {
        Message::GlobalPlayerUpdated { timestamp, .. } => timestamp,
        _ => 0,
    }
}

pub open spec fn upd_id(m: Message) -> MessageId {
    match m {
        Message::GlobalPlayerUpdated { message_id, .. } => message_id,
        _ => MessageId {
            kind: crate::types::MessageKind::PlayerUpdated,
            origin: 0,
            time: 0,
            payload: 0,
        },
    }
}

/// The projection entry a score fact implies, given the stored entry `g`
/// whose identity fields it inherits.
pub open spec fn spec_reconciled_entry(m: Message, g: GlobalPlayerInfo) -> GlobalPlayerInfo {
    GlobalPlayerInfo {
        player_id: g.player_id,
        display_name: g.display_name,
        chain_id: upd_chain(m),
        total_earned: upd_earned(m),
        total_profit: upd_profit(m),
        level: upd_level(m),
        last_updated: upd_time(m),
    }
}

/// LAW (commutativity of reconciliation): two facts about the same player
/// with logical times `t1 < t2`, delivered in either order, leave the
/// player's projection at the state implied by the `t2` fact.
pub proof fn lemma_reconcile_commutes(
    p: ProjectionView,
    m1: Message,
    m2: Message,
    na: Timestamp,
    nb: Timestamp,
    nc: Timestamp,
    nd: Timestamp,
)
    requires
        distinct_keys(p.global_players),
        m1 is GlobalPlayerUpdated,
        m2 is GlobalPlayerUpdated,
        upd_player(m1) == upd_player(m2),
        upd_id(m1) != upd_id(m2),
        upd_time(m1) < upd_time(m2),
        !spec_processed(p.processed, upd_id(m1)),
        !spec_processed(p.processed, upd_id(m2)),
        match spec_find(p.global_players, upd_player(m1)) {
            Some(g) => g.last_updated < upd_time(m1),
            None => false,
        },
    ensures
        spec_find(
            spec_apply_message(spec_apply_message(p, m1, na), m2, nb).global_players,
            upd_player(m1),
        ) == Some(
            spec_reconciled_entry(m2, spec_find(p.global_players, upd_player(m1)).unwrap()),
        ),
        spec_find(
            spec_apply_message(spec_apply_message(p, m2, nc), m1, nd).global_players,
            upd_player(m1),
        ) == Some(
            spec_reconciled_entry(m2, spec_find(p.global_players, upd_player(m1)).unwrap()),
        ),
{
    let pid = upd_player(m1);
    let g = spec_find(p.global_players, pid).unwrap();

    // Order (t1, t2): the first fact lands, the second overwrites it.
    let pa = spec_apply_message(p, m1, na);
    lemma_find_refresh(p.global_players, pid, spec_reconciled_entry(m1, g));
    assert(spec_find(pa.global_players, pid) == Some(spec_reconciled_entry(m1, g)));
    lemma_processed_push_other(
        p.processed,
        ProcessedMessageRecord { id: upd_id(m1), time: na },
        upd_id(m2),
    );
    assert(!spec_processed(pa.processed, upd_id(m2)));
    let e1 = spec_reconciled_entry(m1, g);
    lemma_find_refresh(pa.global_players, pid, spec_reconciled_entry(m2, e1));
    let pb = spec_apply_message(pa, m2, nb);
    assert(spec_find(pb.global_players, pid) == Some(spec_reconciled_entry(m2, e1)));
    assert(spec_reconciled_entry(m2, e1) == spec_reconciled_entry(m2, g));

    // Order (t2, t1): the newer fact lands, the older one is discarded.
    let pc = spec_apply_message(p, m2, nc);
    lemma_find_refresh(p.global_players, pid, spec_reconciled_entry(m2, g));
    assert(spec_find(pc.global_players, pid) == Some(spec_reconciled_entry(m2, g)));
    lemma_processed_push_other(
        p.processed,
        ProcessedMessageRecord { id: upd_id(m2), time: nc },
        upd_id(m1),
    );
    assert(!spec_processed(pc.processed, upd_id(m1)));
    let pd = spec_apply_message(pc, m1, nd);
    assert(spec_find(pd.global_players, pid) == Some(spec_reconciled_entry(m2, g)));
}

pub open spec fn price_val(m: Message) -> Amount {
    match m {
        Message::GlobalPriceUpdate { price, .. } => price,
        _ => 0,
    }
}

pub open spec fn price_time(m: Message) -> Timestamp {
    match m {
        Message::GlobalPriceUpdate { timestamp, .. } => timestamp,
        _ => 0,
    }
}

pub open spec fn price_id(m: Message) -> MessageId {
    match m {
        Message::GlobalPriceUpdate { message_id, .. } => message_id,
        _ => MessageId {
            kind: crate::types::MessageKind::PriceUpdate,
            origin: 0,
            time: 0,
            payload: 0,
        },
    }
}

/// LAW (commutativity of price reconciliation): two price facts with
/// logical times `t1 < t2`, delivered in either order, leave the shard's
/// price fact at the newer of the stored fact and the `t2` fact — the
/// older fact never shows through.
pub proof fn lemma_price_reconcile_commutes(
    p: ProjectionView,
    m1: Message,
    m2: Message,
    na: Timestamp,
    nb: Timestamp,
    nc: Timestamp,
    nd: Timestamp,
)
    requires
        m1 is GlobalPriceUpdate,
        m2 is GlobalPriceUpdate,
        price_id(m1) != price_id(m2),
        price_time(m1) < price_time(m2),
        !spec_processed(p.processed, price_id(m1)),
        !spec_processed(p.processed, price_id(m2)),
    ensures
        spec_apply_message(spec_apply_message(p, m1, na), m2, nb).price == spec_apply_message(
            spec_apply_message(p, m2, nc),
            m1,
            nd,
        ).price,
        price_time(m2) > p.price.timestamp ==> spec_apply_message(
            spec_apply_message(p, m1, na),
            m2,
            nb,
        ).price == (MarketPrice { price: price_val(m2), timestamp: price_time(m2) }),
        price_time(m2) <= p.price.timestamp ==> spec_apply_message(
            spec_apply_message(p, m1, na),
            m2,
            nb,
        ).price == p.price,
{
    lemma_processed_push_other(
        p.processed,
        ProcessedMessageRecord { id: price_id(m1), time: na },
        price_id(m2),
    );
    lemma_processed_push_other(
        p.processed,
        ProcessedMessageRecord { id: price_id(m2), time: nc },
        price_id(m1),
    );
}

/// The projection after a whole delivery schedule has run, message by
/// message.
pub open spec fn spec_fold_deliver(p: ProjectionView, ds: Seq<(Message, Timestamp)>)
    -> ProjectionView
    decreases ds.len(),
{
    if ds.len() == 0 {
        p
    } else {
        spec_apply_message(spec_fold_deliver(p, ds.drop_last()), ds.last().0, ds.last().1)
    }
}

/// Does the schedule deliver `m` at least once?
pub open spec fn delivered(ds: Seq<(Message, Timestamp)>, m: Message) -> bool {
    exists|k: int| 0 <= k < ds.len() && (#[trigger] ds[k]).0 == m
}

/// What score facts about `pid` reconcile against: the stored projection
/// entry if the shard has one, else the first-sighting base — player id,
/// no display name, and logical time zero, which any real fact outranks.
pub open spec fn spec_projection_base(p0: ProjectionView, pid: PlayerId) -> GlobalPlayerInfo {
    match spec_find(p0.global_players, pid) {
        Some(g0) => g0,
        None => GlobalPlayerInfo {
            player_id: pid,
            display_name: None,
            chain_id: 0,
            total_earned: 0,
            total_profit: 0,
            level: 1,
            last_updated: 0,
        },
    }
}

/// The state a shard can be in after any prefix of deliveries drawn from a
/// fixed set of score facts about one player: the projection carries the
/// newest fact delivered so far (or the base — the stored entry or the
/// first-sighting seed), and exactly the delivered facts are marked
/// processed.
#[verifier::rlimit(100)]
proof fn lemma_deliver_invariant(
    p0: ProjectionView,
    facts: Seq<Message>,
    ds: Seq<(Message, Timestamp)>,
    pid: PlayerId,
    g0: GlobalPlayerInfo,
)
    requires
        distinct_keys(p0.global_players),
        g0 == spec_projection_base(p0, pid),
        forall|i: int| 0 <= i < facts.len() ==> is_player_update(#[trigger] facts[i], pid),
        forall|i: int|
            0 <= i < facts.len() ==> upd_time(#[trigger] facts[i]) > g0.last_updated,
        forall|i: int, j: int|
            0 <= i < j < facts.len() ==> upd_id(#[trigger] facts[i]) != upd_id(
                #[trigger] facts[j],
            ),
        forall|i: int, j: int|
            0 <= i < j < facts.len() ==> upd_time(#[trigger] facts[i]) != upd_time(
                #[trigger] facts[j],
            ),
        forall|i: int|
            0 <= i < facts.len() ==> !spec_processed(p0.processed, upd_id(#[trigger] facts[i])),
        forall|k: int|
            0 <= k < ds.len() ==> exists|i: int|
                0 <= i < facts.len() && (#[trigger] ds[k]).0 == facts[i],
    ensures
        distinct_keys(spec_fold_deliver(p0, ds).global_players),
        (forall|i: int| 0 <= i < facts.len() ==> !delivered(ds, #[trigger] facts[i]))
            ==> spec_find(spec_fold_deliver(p0, ds).global_players, pid) == spec_find(
            p0.global_players,
            pid,
        ),
        forall|i: int|
            0 <= i < facts.len() && delivered(ds, #[trigger] facts[i]) ==> spec_processed(
                spec_fold_deliver(p0, ds).processed,
                upd_id(facts[i]),
            ),
        forall|i: int|
            0 <= i < facts.len() && !delivered(ds, #[trigger] facts[i]) ==> !spec_processed(
                spec_fold_deliver(p0, ds).processed,
                upd_id(facts[i]),
            ),
        (exists|i: int| 0 <= i < facts.len() && delivered(ds, #[trigger] facts[i])) ==> exists|
            w: int,
        |
            0 <= w < facts.len() && delivered(ds, #[trigger] facts[w]) && spec_find(
                spec_fold_deliver(p0, ds).global_players,
                pid,
            ) == Some(spec_reconciled_entry(facts[w], g0)) && (forall|i: int|
                0 <= i < facts.len() && delivered(ds, #[trigger] facts[i]) ==> upd_time(facts[i])
                    <= upd_time(facts[w])),
    decreases ds.len(),
{
    // Two distinct facts are distinct messages: their identities differ.
    assert forall|i: int, j: int| 0 <= i < facts.len() && 0 <= j < facts.len() && i != j implies
        #[trigger] facts[i] != #[trigger] facts[j] by {
        if i < j {
            assert(upd_id(facts[i]) != upd_id(facts[j]));
        } else {
            assert(upd_id(facts[j]) != upd_id(facts[i]));
        }
    }
    if ds.len() == 0 {
        assert forall|i: int| 0 <= i < facts.len() implies !delivered(
            ds,
            #[trigger] facts[i],
        ) by {}
    } else {
        let prior = ds.drop_last();
        let m = ds.last().0;
        let t = ds.last().1;
        assert forall|k: int| 0 <= k < prior.len() implies exists|i: int|
            0 <= i < facts.len() && (#[trigger] prior[k]).0 == facts[i] by {
            assert(ds[k].0 == prior[k].0);
            let i = choose|i: int| 0 <= i < facts.len() && ds[k].0 == facts[i];
            assert(prior[k].0 == facts[i]);
        }
        lemma_deliver_invariant(p0, facts, prior, pid, g0);
        let q0 = spec_fold_deliver(p0, prior);
        let q1 = spec_fold_deliver(p0, ds);
        assert(q1 == spec_apply_message(q0, m, t));
        let i0 = choose|i: int| 0 <= i < facts.len() && (#[trigger] ds[ds.len() - 1]).0 == facts[i];
        assert(m == facts[i0]);

        // How delivery in the full schedule relates to the prefix.
        assert forall|i: int| 0 <= i < facts.len() implies delivered(ds, #[trigger] facts[i]) == (
        delivered(prior, facts[i]) || i == i0) by {
            if delivered(prior, facts[i]) {
                let k = choose|k: int| 0 <= k < prior.len() && (#[trigger] prior[k]).0 == facts[i];
                assert(ds[k].0 == facts[i]);
            }
            if i == i0 {
                assert(ds[ds.len() - 1].0 == facts[i]);
            }
            if delivered(ds, facts[i]) && !delivered(prior, facts[i]) {
                let k = choose|k: int| 0 <= k < ds.len() && (#[trigger] ds[k]).0 == facts[i];
                if k < ds.len() - 1 {
                    assert(prior[k].0 == facts[i]);
                }
                assert(facts[i] == m);
                assert(i == i0);
            }
        }

        let id0 = upd_id(facts[i0]);
        assert(m == (Message::GlobalPlayerUpdated {
            player_id: pid,
            total_earned: upd_earned(m),
            total_profit: upd_profit(m),
            level: upd_level(m),
            chain_id: upd_chain(m),
            timestamp: upd_time(m),
            message_id: id0,
        }));

        if spec_processed(q0.processed, id0) {
            // The identity was seen before: the delivery is a complete no-op.
            assert(delivered(prior, facts[i0]));
            assert(q1 == q0);
            assert forall|i: int| 0 <= i < facts.len() implies delivered(ds, #[trigger] facts[i])
                == delivered(prior, facts[i]) by {}
            if exists|i: int| 0 <= i < facts.len() && delivered(ds, #[trigger] facts[i]) {
                let w = choose|w: int|
                    0 <= w < facts.len() && delivered(prior, #[trigger] facts[w]) && spec_find(
                        q0.global_players,
                        pid,
                    ) == Some(spec_reconciled_entry(facts[w], g0)) && (forall|i: int|
                        0 <= i < facts.len() && delivered(prior, #[trigger] facts[i]) ==> upd_time(
                            facts[i],
                        ) <= upd_time(facts[w]));
                assert(delivered(ds, facts[w]));
            }
        } else {
            // First delivery of this identity: LWW decides, the identity is
            // marked either way.
            assert(!delivered(prior, facts[i0]));
            let rec = ProcessedMessageRecord { id: id0, time: t };
            assert(q1.processed == q0.processed.push(rec));
            assert(spec_processed(q1.processed, id0)) by {
                assert(q1.processed[q1.processed.len() - 1].id == id0);
            }
            assert forall|i: int|
                0 <= i < facts.len() && delivered(prior, #[trigger] facts[i]) implies
                spec_processed(q1.processed, upd_id(facts[i])) by {
                let k = choose|k: int|
                    0 <= k < q0.processed.len() && (#[trigger] q0.processed[k]).id == upd_id(
                        facts[i],
                    );
                assert(q1.processed[k].id == upd_id(facts[i]));
            }
            assert forall|i: int|
                0 <= i < facts.len() && !delivered(ds, #[trigger] facts[i]) implies
                !spec_processed(q1.processed, upd_id(facts[i])) by {
                assert(i != i0);
                if i < i0 {
                    assert(upd_id(facts[i]) != upd_id(facts[i0]));
                } else {
                    assert(upd_id(facts[i0]) != upd_id(facts[i]));
                }
                lemma_processed_push_other(q0.processed, rec, upd_id(facts[i]));
            }

            if forall|i: int| 0 <= i < facts.len() ==> !delivered(prior, #[trigger] facts[i]) {
                // Nothing was delivered before: the base stands — the
                // stored entry, or no entry at all — and this fact is
                // strictly newer than it.
                assert(spec_find(q0.global_players, pid) == spec_find(p0.global_players, pid));
                assert(upd_time(m) > g0.last_updated);
                let e0 = spec_reconciled_entry(m, g0);
                match spec_find(p0.global_players, pid) {
                    Some(_) => {
                        lemma_find_refresh(q0.global_players, pid, e0);
                    },
                    None => {
                        crate::table::lemma_push_fresh(q0.global_players, pid, e0);
                        assert(q1.global_players == q0.global_players.push((pid, e0)));
                    },
                }
                assert(spec_find(q1.global_players, pid) == Some(e0));
                assert(delivered(ds, facts[i0]));
                assert forall|i: int|
                    0 <= i < facts.len() && delivered(ds, #[trigger] facts[i]) implies upd_time(
                    facts[i],
                ) <= upd_time(facts[i0]) by {}
            } else {
                let d = choose|d: int|
                    0 <= d < facts.len() && delivered(prior, #[trigger] facts[d]);
                let w = choose|w: int|
                    0 <= w < facts.len() && delivered(prior, #[trigger] facts[w]) && spec_find(
                        q0.global_players,
                        pid,
                    ) == Some(spec_reconciled_entry(facts[w], g0)) && (forall|i: int|
                        0 <= i < facts.len() && delivered(prior, #[trigger] facts[i]) ==> upd_time(
                            facts[i],
                        ) <= upd_time(facts[w]));
                let ew = spec_reconciled_entry(facts[w], g0);
                assert(i0 != w);
                assert(upd_time(facts[i0]) != upd_time(facts[w])) by {
                    if i0 < w {
                        assert(upd_time(facts[i0]) != upd_time(facts[w]));
                    } else {
                        assert(upd_time(facts[w]) != upd_time(facts[i0]));
                    }
                }
                if upd_time(m) > ew.last_updated {
                    let e1 = spec_reconciled_entry(m, ew);
                    lemma_find_refresh(q0.global_players, pid, e1);
                    assert(spec_find(q1.global_players, pid) == Some(e1));
                    assert(e1 == spec_reconciled_entry(facts[i0], g0));
                    assert(delivered(ds, facts[i0]));
                    assert forall|i: int|
                        0 <= i < facts.len() && delivered(ds, #[trigger] facts[i]) implies
                        upd_time(facts[i]) <= upd_time(facts[i0]) by {
                        if delivered(prior, facts[i]) {
                            assert(upd_time(facts[i]) <= upd_time(facts[w]));
                        }
                    }
                } else {
                    assert(q1.global_players == q0.global_players);
                    assert(spec_find(q1.global_players, pid) == Some(ew));
                    assert(delivered(ds, facts[w]));
                    assert forall|i: int|
                        0 <= i < facts.len() && delivered(ds, #[trigger] facts[i]) implies
                        upd_time(facts[i]) <= upd_time(facts[w]) by {
                        if !delivered(prior, facts[i]) {
                            assert(i == i0);
                            assert(upd_time(facts[i0]) < upd_time(facts[w]));
                        }
                    }
                }
            }
        }
    }
}

/// LAW (monotonic convergence): fix a set of score facts about one player,
/// each strictly newer than the shard's stored projection entry (or newer
/// than logical time zero, when the shard has never sighted the player)
/// and pairwise distinct in identity and logical time. Deliver all of them
/// — in any order, each at least once, with arbitrary duplication,
/// interleaved at any local times. The shard's projection of the player
/// then carries exactly the fact with the greatest logical time.
pub proof fn lemma_monotonic_convergence(
    p0: ProjectionView,
    facts: Seq<Message>,
    ds: Seq<(Message, Timestamp)>,
    pid: PlayerId,
    g0: GlobalPlayerInfo,
    hi: int,
)
    requires
        distinct_keys(p0.global_players),
        g0 == spec_projection_base(p0, pid),
        forall|i: int| 0 <= i < facts.len() ==> is_player_update(#[trigger] facts[i], pid),
        forall|i: int|
            0 <= i < facts.len() ==> upd_time(#[trigger] facts[i]) > g0.last_updated,
        forall|i: int, j: int|
            0 <= i < j < facts.len() ==> upd_id(#[trigger] facts[i]) != upd_id(
                #[trigger] facts[j],
            ),
        forall|i: int, j: int|
            0 <= i < j < facts.len() ==> upd_time(#[trigger] facts[i]) != upd_time(
                #[trigger] facts[j],
            ),
        forall|i: int|
            0 <= i < facts.len() ==> !spec_processed(p0.processed, upd_id(#[trigger] facts[i])),
        forall|k: int|
            0 <= k < ds.len() ==> exists|i: int|
                0 <= i < facts.len() && (#[trigger] ds[k]).0 == facts[i],
        forall|i: int| 0 <= i < facts.len() ==> delivered(ds, #[trigger] facts[i]),
        0 <= hi < facts.len(),
        forall|i: int|
            0 <= i < facts.len() && i != hi ==> upd_time(#[trigger] facts[i]) < upd_time(
                facts[hi],
            ),
    ensures
        spec_find(spec_fold_deliver(p0, ds).global_players, pid) == Some(
            spec_reconciled_entry(facts[hi], g0),
        ),
{
    lemma_deliver_invariant(p0, facts, ds, pid, g0);
    assert(delivered(ds, facts[hi]));
    let w = choose|w: int|
        0 <= w < facts.len() && delivered(ds, #[trigger] facts[w]) && spec_find(
            spec_fold_deliver(p0, ds).global_players,
            pid,
        ) == Some(spec_reconciled_entry(facts[w], g0)) && (forall|i: int|
            0 <= i < facts.len() && delivered(ds, #[trigger] facts[i]) ==> upd_time(facts[i])
                <= upd_time(facts[w]));
    assert(upd_time(facts[hi]) <= upd_time(facts[w]));
    assert(w == hi);
}

/// LAW (monotone reconciliation time): no delivery ever removes a player's
/// projection or moves its last-reconciled time backwards.
pub proof fn lemma_reconciled_time_monotonic(
    p: ProjectionView,
    m: Message,
    now: Timestamp,
    pid: PlayerId,
)
    requires
        distinct_keys(p.global_players),
    ensures
        match spec_find(p.global_players, pid) {
            Some(g) => match spec_find(
                spec_apply_message(p, m, now).global_players,
                pid,
            ) {
                Some(g2) => g2.last_updated >= g.last_updated,
                None => false,
            },
            None => true,
        },
{
    if spec_find(p.global_players, pid) is Some {
        let g = spec_find(p.global_players, pid).unwrap();
        match m {
            Message::GlobalPlayerRegistered { player_id, display_name, chain_id, message_id } => {
                if !spec_processed(p.processed, message_id) && spec_find(
                    p.global_players,
                    player_id,
                ) is None {
                    assert(player_id != pid);
                    crate::table::lemma_find_push_other(
                        p.global_players,
                        player_id,
                        GlobalPlayerInfo {
                            player_id,
                            display_name,
                            chain_id,
                            total_earned: 0,
                            total_profit: 0,
                            level: 1,
                            last_updated: 0,
                        },
                        pid,
                    );
                }
            },
            Message::GlobalPlayerUpdated {
                player_id,
                total_earned,
                total_profit,
                level,
                chain_id,
                timestamp,
                message_id,
            } => {
                if !spec_processed(p.processed, message_id) {
                    match spec_find(p.global_players, player_id) {
                        Some(g0) => {
                            if timestamp > g0.last_updated {
                                lemma_find_refresh(
                                    p.global_players,
                                    player_id,
                                    spec_reconciled_entry(m, g0),
                                );
                            }
                        },
                        None => {
                            assert(player_id != pid);
                            crate::table::lemma_find_push_other(
                                p.global_players,
                                player_id,
                                GlobalPlayerInfo {
                                    player_id,
                                    display_name: None,
                                    chain_id,
                                    total_earned,
                                    total_profit,
                                    level,
                                    last_updated: timestamp,
                                },
                                pid,
                            );
                        },
                    }
                }
            },
            Message::GlobalLeaderboardUpdate { player_id, total_profit, level, .. } => {
                if spec_find(p.global_players, player_id) is Some {
                    let g0 = spec_find(p.global_players, player_id).unwrap();
                    if now > g0.last_updated {
                        lemma_find_refresh(
                            p.global_players,
                            player_id,
                            GlobalPlayerInfo {
                                player_id: g0.player_id,
                                display_name: g0.display_name,
                                chain_id: g0.chain_id,
                                total_earned: g0.total_earned,
                                total_profit,
                                level,
                                last_updated: now,
                            },
                        );
                    }
                }
            },
            _ => {},
        }
    }
}

/// LAW (window immutability): the maturity sweep maps a resolved window to
/// itself, so no later price update changes its outcome or its snapshots.
pub proof fn lemma_resolved_window_immutable(
    w: PeriodPriceData,
    price_fact: MarketPrice,
    now: Timestamp,
)
    requires
        w.resolved,
    ensures
        spec_window_step(w, price_fact, now) == w,
{
}

/// LAW (forecast immutability): the maturity sweep maps a resolved
/// forecast to itself, so its judgment never changes.
pub proof fn lemma_resolved_prediction_immutable(
    p: PlayerPrediction,
    windows: Seq<PeriodPriceData>,
    price_fact: MarketPrice,
    now: Timestamp,
)
    requires
        p.resolved,
    ensures
        spec_pred_step(p, windows, price_fact, now) == p,
{
}

} // verus!
