//! Stores keyed by composite keys.
//!
//! Predictions are keyed by (player, period kind, window start), windows by
//! (period kind, window start), and the idempotency log by message identity.
//! All three are append-only: an entry is added once; a prediction or a
//! window is later changed only in place, under the same key, and an
//! idempotency record never changes at all.

use vstd::prelude::*;
use crate::types::{MessageId, MessageKind, PeriodPriceData, PlayerId, PlayerPrediction, PredictionPeriod, Timestamp};

verus! {

// ---------------------------------------------------------------------------
// Predictions
// ---------------------------------------------------------------------------

/// Does `p` carry the key (`pid`, `period`, `start`)?
pub open spec fn pred_keyed(
    p: PlayerPrediction,
    pid: PlayerId,
    period: PredictionPeriod,
    start: Timestamp,
) -> bool {
    p.player_id == pid && p.period == period && p.period_start == start
}

/// First prediction with the given key, scanning left to right.
pub open spec fn spec_find_pred(
    s: Seq<PlayerPrediction>,
    pid: PlayerId,
    period: PredictionPeriod,
    start: Timestamp,
) -> Option<PlayerPrediction>
    decreases s.len(),
{
    if s.len() == 0 {
        None
    } else if pred_keyed(s[0], pid, period, start) {
        Some(s[0])
    } else {
        spec_find_pred(s.drop_first(), pid, period, start)
    }
}

/// No two predictions share a key.
pub open spec fn pred_distinct(s: Seq<PlayerPrediction>) -> bool {
    forall|i: int, j: int|
        0 <= i < j < s.len() ==> !pred_keyed(
            #[trigger] s[j],
            (#[trigger] s[i]).player_id,
            s[i].period,
            s[i].period_start,
        )
}

pub proof fn lemma_pred_find_first(
    s: Seq<PlayerPrediction>,
    pid: PlayerId,
    period: PredictionPeriod,
    start: Timestamp,
    i: int,
)
    requires
        0 <= i < s.len(),
        pred_keyed(s[i], pid, period, start),
        forall|j: int| 0 <= j < i ==> !pred_keyed(#[trigger] s[j], pid, period, start),
    ensures
        spec_find_pred(s, pid, period, start) == Some(s[i]),
    decreases i,
{
    if i > 0 {
        lemma_pred_find_first(s.drop_first(), pid, period, start, i - 1);
    }
}

pub proof fn lemma_pred_find_absent(
    s: Seq<PlayerPrediction>,
    pid: PlayerId,
    period: PredictionPeriod,
    start: Timestamp,
)
    requires
        forall|j: int| 0 <= j < s.len() ==> !pred_keyed(#[trigger] s[j], pid, period, start),
    ensures
        spec_find_pred(s, pid, period, start) is None,
    decreases s.len(),
{
    if s.len() > 0 {
        lemma_pred_find_absent(s.drop_first(), pid, period, start);
    }
}

/// The forecasts submitted on this shard.
pub struct PredictionStore {
    items: Vec<PlayerPrediction>,
}

impl PredictionStore {
    pub closed spec fn view(&self) -> Seq<PlayerPrediction> {
        self.items@
    }

    pub open spec fn wf(&self) -> bool {
        pred_distinct(self@)
    }

    pub open spec fn spec_get(
        &self,
        pid: PlayerId,
        period: PredictionPeriod,
        start: Timestamp,
    ) -> Option<PlayerPrediction> {
        spec_find_pred(self@, pid, period, start)
    }

    pub fn new() -> (s: PredictionStore)
        ensures
            s@ =~= Seq::<PlayerPrediction>::empty(),
            s.wf(),
    {
        PredictionStore { items: Vec::new() }
    }

    pub fn len(&self) -> (n: usize)
        ensures
            n == self@.len(),
    {
        self.items.len()
    }

    pub fn at(&self, i: usize) -> (p: PlayerPrediction)
        requires
            i < self@.len(),
        ensures
            p == self@[i as int],
    {
        self.items[i]
    }

    #[verifier::loop_isolation(false)]
    pub fn get(&self, pid: PlayerId, period: PredictionPeriod, start: Timestamp) -> (r: Option<
        PlayerPrediction,
    >)
        ensures
            r == self.spec_get(pid, period, start),
    {
        let n: usize = self.items.len();
        let mut i: usize = 0;
        while i < n
            invariant
                i <= n,
                forall|j: int| 0 <= j < i ==> !pred_keyed(#[trigger] self@[j], pid, period, start),
            decreases n - i,
        {
            let p = self.items[i];
            if p.player_id == pid && period_eq(p.period, period) && p.period_start == start {
                proof {
                    lemma_pred_find_first(self@, pid, period, start, i as int);
                }
                return Some(p);
            }
            i = i + 1;
        }
        proof {
            lemma_pred_find_absent(self@, pid, period, start);
        }
        None
    }

    /// Record a fresh forecast; its key must be unused.
    pub fn add(&mut self, p: PlayerPrediction)
        requires
            old(self).wf(),
            old(self).spec_get(p.player_id, p.period, p.period_start) is None,
        ensures
            final(self)@ =~= old(self)@.push(p),
            final(self).wf(),
            final(self).spec_get(p.player_id, p.period, p.period_start) == Some(p),
            forall|pid: PlayerId, per: PredictionPeriod, st: Timestamp|
                !pred_keyed(p, pid, per, st) ==> final(self).spec_get(pid, per, st) == old(
                    self,
                ).spec_get(pid, per, st),
    {
        proof {
            if exists|j: int|
                0 <= j < self@.len() && pred_keyed(
                    #[trigger] self@[j],
                    p.player_id,
                    p.period,
                    p.period_start,
                ) {
                let j = choose|j: int|
                    0 <= j < self@.len() && pred_keyed(
                        #[trigger] self@[j],
                        p.player_id,
                        p.period,
                        p.period_start,
                    );
                lemma_pred_find_first_exists(self@, p.player_id, p.period, p.period_start);
            }
            lemma_pred_push(self@, p);
        }
        self.items.push(p);
    }

    /// Replace the prediction at `i` by one with the same key.
    pub fn set_at(&mut self, i: usize, p: PlayerPrediction)
        requires
            old(self).wf(),
            i < old(self)@.len(),
            pred_keyed(
                p,
                old(self)@[i as int].player_id,
                old(self)@[i as int].period,
                old(self)@[i as int].period_start,
            ),
        ensures
            final(self)@ =~= old(self)@.update(i as int, p),
            final(self).wf(),
            final(self).spec_get(p.player_id, p.period, p.period_start) == Some(p),
            forall|pid: PlayerId, per: PredictionPeriod, st: Timestamp|
                !pred_keyed(p, pid, per, st) ==> final(self).spec_get(pid, per, st) == old(
                    self,
                ).spec_get(pid, per, st),
    {
        proof {
            lemma_pred_update(self@, i as int, p);
        }
        self.items.set(i, p);
    }
}

/// A present key has a first occurrence, and `spec_find_pred` returns it.
proof fn lemma_pred_find_first_exists(
    s: Seq<PlayerPrediction>,
    pid: PlayerId,
    period: PredictionPeriod,
    start: Timestamp,
)
    requires
        exists|j: int| 0 <= j < s.len() && pred_keyed(#[trigger] s[j], pid, period, start),
    ensures
        spec_find_pred(s, pid, period, start) is Some,
    decreases s.len(),
{
    if !pred_keyed(s[0], pid, period, start) {
        let j = choose|j: int| 0 <= j < s.len() && pred_keyed(#[trigger] s[j], pid, period, start);
        assert(pred_keyed(s.drop_first()[j - 1], pid, period, start));
        lemma_pred_find_first_exists(s.drop_first(), pid, period, start);
    }
}

/// How appending a fresh key changes every lookup.
proof fn lemma_pred_push(s: Seq<PlayerPrediction>, p: PlayerPrediction)
    requires
        pred_distinct(s),
        spec_find_pred(s, p.player_id, p.period, p.period_start) is None,
    ensures
        pred_distinct(s.push(p)),
        spec_find_pred(s.push(p), p.player_id, p.period, p.period_start) == Some(p),
        forall|pid: PlayerId, per: PredictionPeriod, st: Timestamp|
            !pred_keyed(p, pid, per, st) ==> spec_find_pred(s.push(p), pid, per, st)
                == spec_find_pred(s, pid, per, st),
{
    lemma_pred_no_hit_when_none(s, p.player_id, p.period, p.period_start);
    assert forall|i: int, j: int| 0 <= i < j < s.push(p).len() implies !pred_keyed(
        #[trigger] s.push(p)[j],
        (#[trigger] s.push(p)[i]).player_id,
        s.push(p)[i].period,
        s.push(p)[i].period_start,
    ) by {
        if j < s.len() {
            assert(s.push(p)[i] == s[i] && s.push(p)[j] == s[j]);
        } else {
            assert(s.push(p)[i] == s[i] && s.push(p)[j] == p);
        }
    }
    assert forall|j: int| 0 <= j < s.len() implies !pred_keyed(
        #[trigger] s.push(p)[j],
        p.player_id,
        p.period,
        p.period_start,
    ) by {
        assert(s.push(p)[j] == s[j]);
    }
    lemma_pred_find_first(s.push(p), p.player_id, p.period, p.period_start, s.len() as int);
    assert forall|pid: PlayerId, per: PredictionPeriod, st: Timestamp|
        !pred_keyed(p, pid, per, st) implies spec_find_pred(s.push(p), pid, per, st)
        == spec_find_pred(s, pid, per, st) by {
        lemma_pred_push_other(s, p, pid, per, st);
    }
}

proof fn lemma_pred_no_hit_when_none(
    s: Seq<PlayerPrediction>,
    pid: PlayerId,
    period: PredictionPeriod,
    start: Timestamp,
)
    requires
        spec_find_pred(s, pid, period, start) is None,
    ensures
        forall|j: int| 0 <= j < s.len() ==> !pred_keyed(#[trigger] s[j], pid, period, start),
    decreases s.len(),
{
    if s.len() > 0 {
        lemma_pred_no_hit_when_none(s.drop_first(), pid, period, start);
        assert forall|j: int| 0 <= j < s.len() implies !pred_keyed(
            #[trigger] s[j],
            pid,
            period,
            start,
        ) by {
            if j > 0 {
                assert(s.drop_first()[j - 1] == s[j]);
            }
        }
    }
}

proof fn lemma_pred_push_other(
    s: Seq<PlayerPrediction>,
    p: PlayerPrediction,
    pid: PlayerId,
    per: PredictionPeriod,
    st: Timestamp,
)
    requires
        !pred_keyed(p, pid, per, st),
    ensures
        spec_find_pred(s.push(p), pid, per, st) == spec_find_pred(s, pid, per, st),
    decreases s.len(),
{
    let t = s.push(p);
    if s.len() == 0 {
        assert(t[0] == p);
        assert(!pred_keyed(t[0], pid, per, st));
        assert(t.drop_first() =~= Seq::<PlayerPrediction>::empty());
        assert(spec_find_pred(t, pid, per, st) == spec_find_pred(t.drop_first(), pid, per, st));
        assert(spec_find_pred(t.drop_first(), pid, per, st) is None);
    } else {
        lemma_pred_push_other(s.drop_first(), p, pid, per, st);
        assert(t[0] == s[0]);
        assert(t.drop_first() =~= s.drop_first().push(p));
        if pred_keyed(s[0], pid, per, st) {
            assert(spec_find_pred(t, pid, per, st) == Some(t[0]));
            assert(spec_find_pred(s, pid, per, st) == Some(s[0]));
        } else {
            assert(spec_find_pred(t, pid, per, st) == spec_find_pred(
                t.drop_first(),
                pid,
                per,
                st,
            ));
            assert(spec_find_pred(s, pid, per, st) == spec_find_pred(
                s.drop_first(),
                pid,
                per,
                st,
            ));
        }
    }
}

/// How replacing index `i` under the same key changes every lookup.
proof fn lemma_pred_update(s: Seq<PlayerPrediction>, i: int, p: PlayerPrediction)
    requires
        pred_distinct(s),
        0 <= i < s.len(),
        pred_keyed(p, s[i].player_id, s[i].period, s[i].period_start),
    ensures
        pred_distinct(s.update(i, p)),
        spec_find_pred(s.update(i, p), p.player_id, p.period, p.period_start) == Some(p),
        forall|pid: PlayerId, per: PredictionPeriod, st: Timestamp|
            !pred_keyed(p, pid, per, st) ==> spec_find_pred(s.update(i, p), pid, per, st)
                == spec_find_pred(s, pid, per, st),
{
    let t = s.update(i, p);
    assert forall|a: int, b: int| 0 <= a < b < t.len() implies !pred_keyed(
        #[trigger] t[b],
        (#[trigger] t[a]).player_id,
        t[a].period,
        t[a].period_start,
    ) by {
        assert(t[a] == if a == i {
            p
        } else {
            s[a]
        });
        assert(t[b] == if b == i {
            p
        } else {
            s[b]
        });
    }
    assert forall|j: int| 0 <= j < i implies !pred_keyed(
        #[trigger] t[j],
        p.player_id,
        p.period,
        p.period_start,
    ) by {
        assert(t[j] == s[j]);
    }
    lemma_pred_find_first(t, p.player_id, p.period, p.period_start, i);
    assert forall|pid: PlayerId, per: PredictionPeriod, st: Timestamp|
        !pred_keyed(p, pid, per, st) implies spec_find_pred(t, pid, per, st) == spec_find_pred(
        s,
        pid,
        per,
        st,
    ) by {
        lemma_pred_update_other(s, i, p, pid, per, st);
    }
}

proof fn lemma_pred_update_other(
    s: Seq<PlayerPrediction>,
    i: int,
    p: PlayerPrediction,
    pid: PlayerId,
    per: PredictionPeriod,
    st: Timestamp,
)
    requires
        0 <= i < s.len(),
        pred_keyed(p, s[i].player_id, s[i].period, s[i].period_start),
        !pred_keyed(p, pid, per, st),
    ensures
        spec_find_pred(s.update(i, p), pid, per, st) == spec_find_pred(s, pid, per, st),
    decreases s.len(),
{
    let t = s.update(i, p);
    if i == 0 {
        assert(t[0] == p);
        assert(!pred_keyed(s[0], pid, per, st));
        assert(t.drop_first() =~= s.drop_first());
    } else {
        assert(t[0] == s[0]);
        assert(t.drop_first() =~= s.drop_first().update(i - 1, p));
        lemma_pred_update_other(s.drop_first(), i - 1, p, pid, per, st);
    }
}

/// Structural equality on period kinds, usable in running code.
pub fn period_eq(a: PredictionPeriod, b: PredictionPeriod) -> (r: bool)
    ensures
        r == (a == b),
{
    match (a, b) {
        (PredictionPeriod::Daily, PredictionPeriod::Daily) => true,
        (PredictionPeriod::Weekly, PredictionPeriod::Weekly) => true,
        (PredictionPeriod::Monthly, PredictionPeriod::Monthly) => true,
        _ => false,
    }
}

// ---------------------------------------------------------------------------
// Forecasting windows
// ---------------------------------------------------------------------------

/// Does window `w` carry the key (`period`, `start`)?
pub open spec fn window_keyed(
    w: PeriodPriceData,
    period: PredictionPeriod,
    start: Timestamp,
) -> bool {
    w.period == period && w.period_start == start
}

/// First window with the given key, scanning left to right.
pub open spec fn spec_find_window(
    s: Seq<PeriodPriceData>,
    period: PredictionPeriod,
    start: Timestamp,
) -> Option<PeriodPriceData>
    decreases s.len(),
{
    if s.len() == 0 {
        None
    } else if window_keyed(s[0], period, start) {
        Some(s[0])
    } else {
        spec_find_window(s.drop_first(), period, start)
    }
}

/// No two windows share a key.
pub open spec fn window_distinct(s: Seq<PeriodPriceData>) -> bool {
    forall|i: int, j: int|
        0 <= i < j < s.len() ==> !window_keyed(
            #[trigger] s[j],
            (#[trigger] s[i]).period,
            s[i].period_start,
        )
}

pub proof fn lemma_window_find_first(
    s: Seq<PeriodPriceData>,
    period: PredictionPeriod,
    start: Timestamp,
    i: int,
)
    requires
        0 <= i < s.len(),
        window_keyed(s[i], period, start),
        forall|j: int| 0 <= j < i ==> !window_keyed(#[trigger] s[j], period, start),
    ensures
        spec_find_window(s, period, start) == Some(s[i]),
    decreases i,
{
    if i > 0 {
        lemma_window_find_first(s.drop_first(), period, start, i - 1);
    }
}

pub proof fn lemma_window_find_absent(
    s: Seq<PeriodPriceData>,
    period: PredictionPeriod,
    start: Timestamp,
)
    requires
        forall|j: int| 0 <= j < s.len() ==> !window_keyed(#[trigger] s[j], period, start),
    ensures
        spec_find_window(s, period, start) is None,
    decreases s.len(),
{
    if s.len() > 0 {
        lemma_window_find_absent(s.drop_first(), period, start);
    }
}

proof fn lemma_window_no_hit_when_none(
    s: Seq<PeriodPriceData>,
    period: PredictionPeriod,
    start: Timestamp,
)
    requires
        spec_find_window(s, period, start) is None,
    ensures
        forall|j: int| 0 <= j < s.len() ==> !window_keyed(#[trigger] s[j], period, start),
    decreases s.len(),
{
    if s.len() > 0 {
        lemma_window_no_hit_when_none(s.drop_first(), period, start);
        assert forall|j: int| 0 <= j < s.len() implies !window_keyed(
            #[trigger] s[j],
            period,
            start,
        ) by {
            if j > 0 {
                assert(s.drop_first()[j - 1] == s[j]);
            }
        }
    }
}

proof fn lemma_window_push_other(
    s: Seq<PeriodPriceData>,
    w: PeriodPriceData,
    period: PredictionPeriod,
    start: Timestamp,
)
    requires
        !window_keyed(w, period, start),
    ensures
        spec_find_window(s.push(w), period, start) == spec_find_window(s, period, start),
    decreases s.len(),
{
    let t = s.push(w);
    if s.len() == 0 {
        assert(t[0] == w);
        assert(t.drop_first() =~= Seq::<PeriodPriceData>::empty());
        assert(spec_find_window(t, period, start) == spec_find_window(
            t.drop_first(),
            period,
            start,
        ));
    } else {
        lemma_window_push_other(s.drop_first(), w, period, start);
        assert(t[0] == s[0]);
        assert(t.drop_first() =~= s.drop_first().push(w));
        if window_keyed(s[0], period, start) {
            assert(spec_find_window(t, period, start) == Some(t[0]));
            assert(spec_find_window(s, period, start) == Some(s[0]));
        } else {
            assert(spec_find_window(t, period, start) == spec_find_window(
                t.drop_first(),
                period,
                start,
            ));
            assert(spec_find_window(s, period, start) == spec_find_window(
                s.drop_first(),
                period,
                start,
            ));
        }
    }
}

proof fn lemma_window_push(s: Seq<PeriodPriceData>, w: PeriodPriceData)
    requires
        window_distinct(s),
        spec_find_window(s, w.period, w.period_start) is None,
    ensures
        window_distinct(s.push(w)),
        spec_find_window(s.push(w), w.period, w.period_start) == Some(w),
        forall|per: PredictionPeriod, st: Timestamp|
            !window_keyed(w, per, st) ==> spec_find_window(s.push(w), per, st)
                == spec_find_window(s, per, st),
{
    lemma_window_no_hit_when_none(s, w.period, w.period_start);
    assert forall|i: int, j: int| 0 <= i < j < s.push(w).len() implies !window_keyed(
        #[trigger] s.push(w)[j],
        (#[trigger] s.push(w)[i]).period,
        s.push(w)[i].period_start,
    ) by {
        if j < s.len() {
            assert(s.push(w)[i] == s[i] && s.push(w)[j] == s[j]);
        } else {
            assert(s.push(w)[i] == s[i] && s.push(w)[j] == w);
        }
    }
    assert forall|j: int| 0 <= j < s.len() implies !window_keyed(
        #[trigger] s.push(w)[j],
        w.period,
        w.period_start,
    ) by {
        assert(s.push(w)[j] == s[j]);
    }
    lemma_window_find_first(s.push(w), w.period, w.period_start, s.len() as int);
    assert forall|per: PredictionPeriod, st: Timestamp| !window_keyed(w, per, st) implies
        spec_find_window(s.push(w), per, st) == spec_find_window(s, per, st) by {
        lemma_window_push_other(s, w, per, st);
    }
}

proof fn lemma_window_update_other(
    s: Seq<PeriodPriceData>,
    i: int,
    w: PeriodPriceData,
    per: PredictionPeriod,
    st: Timestamp,
)
    requires
        0 <= i < s.len(),
        window_keyed(w, s[i].period, s[i].period_start),
        !window_keyed(w, per, st),
    ensures
        spec_find_window(s.update(i, w), per, st) == spec_find_window(s, per, st),
    decreases s.len(),
{
    let t = s.update(i, w);
    if i == 0 {
        assert(t[0] == w);
        assert(!window_keyed(s[0], per, st));
        assert(t.drop_first() =~= s.drop_first());
    } else {
        assert(t[0] == s[0]);
        assert(t.drop_first() =~= s.drop_first().update(i - 1, w));
        lemma_window_update_other(s.drop_first(), i - 1, w, per, st);
    }
}

proof fn lemma_window_update(s: Seq<PeriodPriceData>, i: int, w: PeriodPriceData)
    requires
        window_distinct(s),
        0 <= i < s.len(),
        window_keyed(w, s[i].period, s[i].period_start),
    ensures
        window_distinct(s.update(i, w)),
        spec_find_window(s.update(i, w), w.period, w.period_start) == Some(w),
        forall|per: PredictionPeriod, st: Timestamp|
            !window_keyed(w, per, st) ==> spec_find_window(s.update(i, w), per, st)
                == spec_find_window(s, per, st),
{
    let t = s.update(i, w);
    assert forall|a: int, b: int| 0 <= a < b < t.len() implies !window_keyed(
        #[trigger] t[b],
        (#[trigger] t[a]).period,
        t[a].period_start,
    ) by {
        assert(t[a] == if a == i {
            w
        } else {
            s[a]
        });
        assert(t[b] == if b == i {
            w
        } else {
            s[b]
        });
    }
    assert forall|j: int| 0 <= j < i implies !window_keyed(
        #[trigger] t[j],
        w.period,
        w.period_start,
    ) by {
        assert(t[j] == s[j]);
    }
    lemma_window_find_first(t, w.period, w.period_start, i);
    assert forall|per: PredictionPeriod, st: Timestamp| !window_keyed(w, per, st) implies
        spec_find_window(t, per, st) == spec_find_window(s, per, st) by {
        lemma_window_update_other(s, i, w, per, st);
    }
}

/// The forecasting windows known to this shard.
pub struct WindowStore {
    items: Vec<PeriodPriceData>,
}

impl WindowStore {
    pub closed spec fn view(&self) -> Seq<PeriodPriceData> {
        self.items@
    }

    pub open spec fn wf(&self) -> bool {
        window_distinct(self@)
    }

    pub open spec fn spec_get(&self, period: PredictionPeriod, start: Timestamp) -> Option<
        PeriodPriceData,
    > {
        spec_find_window(self@, period, start)
    }

    pub fn new() -> (s: WindowStore)
        ensures
            s@ =~= Seq::<PeriodPriceData>::empty(),
            s.wf(),
    {
        WindowStore { items: Vec::new() }
    }

    pub fn len(&self) -> (n: usize)
        ensures
            n == self@.len(),
    {
        self.items.len()
    }

    pub fn at(&self, i: usize) -> (w: PeriodPriceData)
        requires
            i < self@.len(),
        ensures
            w == self@[i as int],
    {
        self.items[i]
    }

    #[verifier::loop_isolation(false)]
    pub fn get(&self, period: PredictionPeriod, start: Timestamp) -> (r: Option<PeriodPriceData>)
        ensures
            r == self.spec_get(period, start),
    {
        let n: usize = self.items.len();
        let mut i: usize = 0;
        while i < n
            invariant
                i <= n,
                forall|j: int| 0 <= j < i ==> !window_keyed(#[trigger] self@[j], period, start),
            decreases n - i,
        {
            let w = self.items[i];
            if period_eq(w.period, period) && w.period_start == start {
                proof {
                    lemma_window_find_first(self@, period, start, i as int);
                }
                return Some(w);
            }
            i = i + 1;
        }
        proof {
            lemma_window_find_absent(self@, period, start);
        }
        None
    }

    /// Record a fresh window; its key must be unused.
    pub fn add(&mut self, w: PeriodPriceData)
        requires
            old(self).wf(),
            old(self).spec_get(w.period, w.period_start) is None,
        ensures
            final(self)@ =~= old(self)@.push(w),
            final(self).wf(),
            final(self).spec_get(w.period, w.period_start) == Some(w),
            forall|per: PredictionPeriod, st: Timestamp|
                !window_keyed(w, per, st) ==> final(self).spec_get(per, st) == old(self).spec_get(
                    per,
                    st,
                ),
    {
        proof {
            lemma_window_push(self@, w);
        }
        self.items.push(w);
    }

    /// Replace the window at `i` by one with the same key.
    pub fn set_at(&mut self, i: usize, w: PeriodPriceData)
        requires
            old(self).wf(),
            i < old(self)@.len(),
            window_keyed(w, old(self)@[i as int].period, old(self)@[i as int].period_start),
        ensures
            final(self)@ =~= old(self)@.update(i as int, w),
            final(self).wf(),
            final(self).spec_get(w.period, w.period_start) == Some(w),
            forall|per: PredictionPeriod, st: Timestamp|
                !window_keyed(w, per, st) ==> final(self).spec_get(per, st) == old(self).spec_get(
                    per,
                    st,
                ),
    {
        proof {
            lemma_window_update(self@, i as int, w);
        }
        self.items.set(i, w);
    }
}

// ---------------------------------------------------------------------------
// The idempotency log
// ---------------------------------------------------------------------------

/// The first-processing record of one inbound message. Write-once: records
/// are never updated and never deleted, and the record's presence alone
/// decides whether a message's effect may be applied.
#[derive(Clone, Copy, PartialEq, Eq, Structural, Debug)]
pub struct ProcessedMessageRecord {
    pub id: MessageId,
    pub time: Timestamp,
}

/// Is any record for `id` present?
pub open spec fn spec_processed(s: Seq<ProcessedMessageRecord>, id: MessageId) -> bool {
    exists|i: int| 0 <= i < s.len() && (#[trigger] s[i]).id == id
}

/// The idempotency store: one record per message identity ever processed.
pub struct ProcessedStore {
    records: Vec<ProcessedMessageRecord>,
}

impl ProcessedStore {
    pub closed spec fn view(&self) -> Seq<ProcessedMessageRecord> {
        self.records@
    }

    pub fn new() -> (s: ProcessedStore)
        ensures
            s@ =~= Seq::<ProcessedMessageRecord>::empty(),
    {
        ProcessedStore { records: Vec::new() }
    }

    pub fn len(&self) -> (n: usize)
        ensures
            n == self@.len(),
    {
        self.records.len()
    }

    /// The sole gate against duplicate delivery: has this identity been seen?
    #[verifier::loop_isolation(false)]
    pub fn has_processed(&self, id: MessageId) -> (b: bool)
        ensures
            b == spec_processed(self@, id),
    {
        let n: usize = self.records.len();
        let mut i: usize = 0;
        while i < n
            invariant
                i <= n,
                forall|j: int| 0 <= j < i ==> (#[trigger] self@[j]).id != id,
            decreases n - i,
        {
            if message_id_eq(self.records[i].id, id) {
                return true;
            }
            i = i + 1;
        }
        false
    }

    /// Record `id` as processed at `time`. A second call for the same
    /// identity leaves the store unchanged: records are write-once.
    pub fn mark_processed(&mut self, id: MessageId, time: Timestamp)
        ensures
            spec_processed(old(self)@, id) ==> final(self)@ =~= old(self)@,
            !spec_processed(old(self)@, id) ==> final(self)@ =~= old(self)@.push(
                ProcessedMessageRecord { id, time },
            ),
            spec_processed(final(self)@, id),
            forall|other: MessageId|
                other != id ==> spec_processed(final(self)@, other) == spec_processed(
                    old(self)@,
                    other,
                ),
    {
        if self.has_processed(id) {
            return ;
        }
        let ghost before = self@;
        self.records.push(ProcessedMessageRecord { id, time });
        proof {
            assert(self@[before.len() as int].id == id);
            assert forall|other: MessageId| other != id implies spec_processed(self@, other)
                == spec_processed(before, other) by {
                if spec_processed(before, other) {
                    let i = choose|i: int| 0 <= i < before.len() && (#[trigger] before[i]).id
                        == other;
                    assert(self@[i].id == other);
                }
                if spec_processed(self@, other) {
                    let i = choose|i: int| 0 <= i < self@.len() && (#[trigger] self@[i]).id
                        == other;
                    assert(i < before.len());
                    assert(before[i].id == other);
                }
            }
        }
    }
}

/// Structural equality on message identities, usable in running code.
pub fn message_id_eq(a: MessageId, b: MessageId) -> (r: bool)
    ensures
        r == (a == b),
{
    let kinds_match = match (a.kind, b.kind) {
        (MessageKind::PlayerRegistered, MessageKind::PlayerRegistered) => true,
        (MessageKind::MarketCreated, MessageKind::MarketCreated) => true,
        (MessageKind::GuildCreated, MessageKind::GuildCreated) => true,
        (MessageKind::PlayerUpdated, MessageKind::PlayerUpdated) => true,
        (MessageKind::PriceUpdate, MessageKind::PriceUpdate) => true,
        _ => false,
    };
    kinds_match && a.origin == b.origin && a.time == b.time && a.payload == b.payload
}

} // verus!
