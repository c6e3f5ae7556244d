//! An insertion-ordered association table with `u64` keys.
//!
//! Every shard-local store of the game (players, guilds, markets, the global
//! projections, the chain registry) is such a table. Entries are kept in the
//! order they were first inserted, which gives the leaderboard a stable,
//! deterministic iteration order; lookups and updates are specified against
//! the sequence of entries through the `spec_find` family below.

use vstd::prelude::*;

verus! {

/// First value bound to `k` in `s`, scanning left to right.
pub open spec fn spec_find<V>(s: Seq<(u64, V)>, k: u64) -> Option<V>
    decreases s.len(),
{
    if s.len() == 0 {
        None
    } else if s[0].0 == k {
        Some(s[0].1)
    } else {
        spec_find(s.drop_first(), k)
    }
}

/// `s` with `k` bound to `v`: the first entry for `k` is replaced in place,
/// or a fresh entry is appended when `k` is absent.
pub open spec fn spec_upsert<V>(s: Seq<(u64, V)>, k: u64, v: V) -> Seq<(u64, V)>
    decreases s.len(),
{
    if s.len() == 0 {
        seq![(k, v)]
    } else if s[0].0 == k {
        seq![(k, v)] + s.drop_first()
    } else {
        seq![s[0]] + spec_upsert(s.drop_first(), k, v)
    }
}

/// `s` with the first entry for `k` removed.
pub open spec fn spec_delete<V>(s: Seq<(u64, V)>, k: u64) -> Seq<(u64, V)>
    decreases s.len(),
{
    if s.len() == 0 {
        s
    } else if s[0].0 == k {
        s.drop_first()
    } else {
        seq![s[0]] + spec_delete(s.drop_first(), k)
    }
}

/// No key occurs twice.
pub open spec fn distinct_keys<V>(s: Seq<(u64, V)>) -> bool {
    forall|i: int, j: int| 0 <= i < j < s.len() ==> (#[trigger] s[i]).0 != (#[trigger] s[j]).0
}

pub proof fn lemma_find_first<V>(s: Seq<(u64, V)>, k: u64, i: int)
    requires
        0 <= i < s.len(),
        s[i].0 == k,
        forall|j: int| 0 <= j < i ==> (#[trigger] s[j]).0 != k,
    ensures
        #[trigger] spec_find(s, k) == Some(s[i].1),
    decreases i,
{
    if i > 0 {
        lemma_find_first(s.drop_first(), k, i - 1);
    }
}

pub proof fn lemma_find_absent<V>(s: Seq<(u64, V)>, k: u64)
    requires
        forall|j: int| 0 <= j < s.len() ==> (#[trigger] s[j]).0 != k,
    ensures
        #[trigger] spec_find(s, k) == None::<V>,
    decreases s.len(),
{
    if s.len() > 0 {
        lemma_find_absent(s.drop_first(), k);
    }
}

/// When the first entry for `k` stands at `i`, upserting `k` is a point
/// update of the sequence.
proof fn lemma_upsert_is_update<V>(s: Seq<(u64, V)>, k: u64, v: V, i: int)
    requires
        0 <= i < s.len(),
        s[i].0 == k,
        forall|j: int| 0 <= j < i ==> (#[trigger] s[j]).0 != k,
    ensures
        spec_upsert(s, k, v) =~= s.update(i, (k, v)),
    decreases i,
{
    if i == 0 {
        assert(spec_upsert(s, k, v) =~= seq![(k, v)] + s.drop_first());
    } else {
        lemma_upsert_is_update(s.drop_first(), k, v, i - 1);
        assert(spec_upsert(s, k, v) =~= seq![s[0]] + spec_upsert(s.drop_first(), k, v));
        assert(seq![s[0]] + s.drop_first().update(i - 1, (k, v)) =~= s.update(i, (k, v)));
    }
}

/// When `k` is absent, upserting `k` appends a fresh entry.
proof fn lemma_upsert_is_push<V>(s: Seq<(u64, V)>, k: u64, v: V)
    requires
        forall|j: int| 0 <= j < s.len() ==> (#[trigger] s[j]).0 != k,
    ensures
        spec_upsert(s, k, v) =~= s.push((k, v)),
    decreases s.len(),
{
    if s.len() > 0 {
        lemma_upsert_is_push(s.drop_first(), k, v);
        assert(seq![s[0]] + s.drop_first().push((k, v)) =~= s.push((k, v)));
    }
}

pub proof fn lemma_find_upsert_same<V>(s: Seq<(u64, V)>, k: u64, v: V)
    ensures
        #[trigger] spec_find(spec_upsert(s, k, v), k) == Some(v),
    decreases s.len(),
{
    if s.len() > 0 && s[0].0 != k {
        lemma_find_upsert_same(s.drop_first(), k, v);
        assert((seq![s[0]] + spec_upsert(s.drop_first(), k, v)).drop_first() =~= spec_upsert(
            s.drop_first(),
            k,
            v,
        ));
    }
}

pub proof fn lemma_find_upsert_other<V>(s: Seq<(u64, V)>, k: u64, v: V, k2: u64)
    requires
        k2 != k,
    ensures
        #[trigger] spec_find(spec_upsert(s, k, v), k2) == spec_find(s, k2),
    decreases s.len(),
{
    if s.len() == 0 {
    } else if s[0].0 == k {
        let t = seq![(k, v)] + s.drop_first();
        assert(spec_upsert(s, k, v) == t);
        assert(t[0] == (k, v));
        assert(t.drop_first() =~= s.drop_first());
        assert(spec_find(t, k2) == spec_find(s.drop_first(), k2));
    } else {
        lemma_find_upsert_other(s.drop_first(), k, v, k2);
        let t = seq![s[0]] + spec_upsert(s.drop_first(), k, v);
        assert(spec_upsert(s, k, v) == t);
        assert(t[0] == s[0]);
        assert(t.drop_first() =~= spec_upsert(s.drop_first(), k, v));
        if s[0].0 == k2 {
            assert(spec_find(t, k2) == Some(t[0].1));
            assert(spec_find(s, k2) == Some(s[0].1));
        } else {
            assert(spec_find(t, k2) == spec_find(spec_upsert(s.drop_first(), k, v), k2));
        }
    }
}

pub proof fn lemma_find_delete_same<V>(s: Seq<(u64, V)>, k: u64)
    requires
        distinct_keys(s),
    ensures
        #[trigger] spec_find(spec_delete(s, k), k) == None::<V>,
    decreases s.len(),
{
    if s.len() == 0 {
    } else if s[0].0 == k {
        assert(forall|j: int|
            0 <= j < s.drop_first().len() ==> (#[trigger] s.drop_first()[j]).0 != k);
        lemma_find_absent(s.drop_first(), k);
    } else {
        lemma_find_delete_same(s.drop_first(), k);
        assert((seq![s[0]] + spec_delete(s.drop_first(), k)).drop_first() =~= spec_delete(
            s.drop_first(),
            k,
        ));
    }
}

pub proof fn lemma_find_delete_other<V>(s: Seq<(u64, V)>, k: u64, k2: u64)
    requires
        k2 != k,
    ensures
        #[trigger] spec_find(spec_delete(s, k), k2) == spec_find(s, k2),
    decreases s.len(),
{
    if s.len() == 0 {
    } else if s[0].0 == k {
    } else {
        lemma_find_delete_other(s.drop_first(), k, k2);
        assert((seq![s[0]] + spec_delete(s.drop_first(), k)).drop_first() =~= spec_delete(
            s.drop_first(),
            k,
        ));
    }
}

pub proof fn lemma_upsert_distinct<V>(s: Seq<(u64, V)>, k: u64, v: V)
    requires
        distinct_keys(s),
    ensures
        distinct_keys(#[trigger] spec_upsert(s, k, v)),
{
    if exists|i: int| 0 <= i < s.len() && (#[trigger] s[i]).0 == k {
        lemma_first_hit(s, k);
        lemma_upsert_is_update(s, k, v, first_hit(s, k));
    } else {
        assert(forall|j: int| 0 <= j < s.len() ==> (#[trigger] s[j]).0 != k);
        lemma_upsert_is_push(s, k, v);
    }
}

/// An absent key has no entry at all.
pub proof fn lemma_find_none_no_hit<V>(s: Seq<(u64, V)>, k: u64)
    requires
        spec_find(s, k) is None,
    ensures
        forall|j: int| 0 <= j < s.len() ==> (#[trigger] s[j]).0 != k,
    decreases s.len(),
{
    if s.len() > 0 {
        lemma_find_none_no_hit(s.drop_first(), k);
        assert forall|j: int| 0 <= j < s.len() implies (#[trigger] s[j]).0 != k by {
            if j > 0 {
                assert(s.drop_first()[j - 1] == s[j]);
            }
        }
    }
}

/// A present key has an entry.
pub proof fn lemma_find_some_has_hit<V>(s: Seq<(u64, V)>, k: u64)
    requires
        spec_find(s, k) is Some,
    ensures
        exists|i: int| 0 <= i < s.len() && (#[trigger] s[i]).0 == k,
        exists|i: int|
            0 <= i < s.len() && #[trigger] s[i] == (k, spec_find(s, k).unwrap()),
    decreases s.len(),
{
    if s.len() > 0 && s[0].0 != k {
        lemma_find_some_has_hit(s.drop_first(), k);
        let i = choose|i: int|
            0 <= i < s.drop_first().len() && #[trigger] s.drop_first()[i] == (
                k,
                spec_find(s.drop_first(), k).unwrap(),
            );
        assert(s[i + 1] == s.drop_first()[i]);
    }
}

/// Index of the first entry for `k`, assuming one exists.
spec fn first_hit<V>(s: Seq<(u64, V)>, k: u64) -> int
    decreases s.len(),
{
    if s.len() == 0 {
        0
    } else if s[0].0 == k {
        0
    } else {
        1 + first_hit(s.drop_first(), k)
    }
}

proof fn lemma_first_hit<V>(s: Seq<(u64, V)>, k: u64)
    requires
        exists|i: int| 0 <= i < s.len() && (#[trigger] s[i]).0 == k,
    ensures
        0 <= first_hit(s, k) < s.len(),
        s[first_hit(s, k)].0 == k,
        forall|j: int| 0 <= j < first_hit(s, k) ==> (#[trigger] s[j]).0 != k,
    decreases s.len(),
{
    if s.len() > 0 && s[0].0 != k {
        let i = choose|i: int| 0 <= i < s.len() && (#[trigger] s[i]).0 == k;
        assert(s.drop_first()[i - 1].0 == k);
        lemma_first_hit(s.drop_first(), k);
        assert(s[first_hit(s, k)] == s.drop_first()[first_hit(s.drop_first(), k)]);
        assert forall|j: int| 0 <= j < first_hit(s, k) implies (#[trigger] s[j]).0 != k by {
            if j > 0 {
                assert(s.drop_first()[j - 1] == s[j]);
            }
        }
    }
}

pub proof fn lemma_delete_distinct<V>(s: Seq<(u64, V)>, k: u64)
    requires
        distinct_keys(s),
    ensures
        distinct_keys(#[trigger] spec_delete(s, k)),
    decreases s.len(),
{
    if s.len() == 0 {
    } else if s[0].0 == k {
    } else {
        lemma_delete_distinct(s.drop_first(), k);
        let t = seq![s[0]] + spec_delete(s.drop_first(), k);
        assert(spec_delete(s, k) == t);
        assert forall|i: int, j: int| 0 <= i < j < t.len() implies (#[trigger] t[i]).0 != (
        #[trigger] t[j]).0 by {
            lemma_delete_members(s.drop_first(), k);
            if i == 0 {
                let d = spec_delete(s.drop_first(), k);
                assert(t[j] == d[j - 1]);
                let w = choose|w: int| 0 <= w < s.drop_first().len() && s.drop_first()[w] == d[j - 1];
                assert(s[w + 1] == d[j - 1]);
            } else {
                assert(t[i] == spec_delete(s.drop_first(), k)[i - 1]);
                assert(t[j] == spec_delete(s.drop_first(), k)[j - 1]);
            }
        }
    }
}

/// Every entry of a deletion result is an entry of the original sequence.
pub proof fn lemma_delete_members<V>(s: Seq<(u64, V)>, k: u64)
    ensures
        forall|i: int|
            0 <= i < spec_delete(s, k).len() ==> exists|j: int|
                0 <= j < s.len() && s[j] == (#[trigger] spec_delete(s, k)[i]),
    decreases s.len(),
{
    if s.len() == 0 {
    } else if s[0].0 == k {
        assert forall|i: int| 0 <= i < spec_delete(s, k).len() implies exists|j: int|
            0 <= j < s.len() && s[j] == (#[trigger] spec_delete(s, k)[i]) by {
            assert(s[i + 1] == spec_delete(s, k)[i]);
        }
    } else {
        lemma_delete_members(s.drop_first(), k);
        let t = seq![s[0]] + spec_delete(s.drop_first(), k);
        assert(spec_delete(s, k) == t);
        assert forall|i: int| 0 <= i < t.len() implies exists|j: int|
            0 <= j < s.len() && s[j] == (#[trigger] t[i]) by {
            if i == 0 {
                assert(s[0] == t[0]);
            } else {
                let d = spec_delete(s.drop_first(), k);
                assert(t[i] == d[i - 1]);
                let w = choose|w: int| 0 <= w < s.drop_first().len() && s.drop_first()[w] == d[i - 1];
                assert(s[w + 1] == t[i]);
            }
        }
    }
}

/// Appending a fresh key leaves every other lookup unchanged.
pub proof fn lemma_find_push_other<V>(s: Seq<(u64, V)>, k: u64, v: V, k2: u64)
    requires
        k2 != k,
    ensures
        spec_find(s.push((k, v)), k2) == spec_find(s, k2),
    decreases s.len(),
{
    let t = s.push((k, v));
    if s.len() == 0 {
        assert(t[0] == (k, v));
        assert(t.drop_first() =~= Seq::<(u64, V)>::empty());
        assert(spec_find(t, k2) == spec_find(t.drop_first(), k2));
    } else {
        lemma_find_push_other(s.drop_first(), k, v, k2);
        assert(t[0] == s[0]);
        assert(t.drop_first() =~= s.drop_first().push((k, v)));
        if s[0].0 == k2 {
            assert(spec_find(t, k2) == Some(t[0].1));
            assert(spec_find(s, k2) == Some(s[0].1));
        } else {
            assert(spec_find(t, k2) == spec_find(t.drop_first(), k2));
            assert(spec_find(s, k2) == spec_find(s.drop_first(), k2));
        }
    }
}

/// Appending a key that is absent makes it found.
pub proof fn lemma_find_push_fresh<V>(s: Seq<(u64, V)>, k: u64, v: V)
    requires
        spec_find(s, k) is None,
    ensures
        spec_find(s.push((k, v)), k) == Some(v),
{
    lemma_find_none_no_hit(s, k);
    let t = s.push((k, v));
    assert(t[s.len() as int] == (k, v));
    assert forall|j: int| 0 <= j < s.len() implies (#[trigger] t[j]).0 != k by {
        assert(t[j] == s[j]);
    }
    lemma_find_first(t, k, s.len() as int);
}

/// Appending a binding for an absent key: the key maps to the new value,
/// every other key is untouched, and the keys stay unique.
pub proof fn lemma_push_fresh<V>(s: Seq<(u64, V)>, k: u64, v: V)
    requires
        distinct_keys(s),
        spec_find(s, k) is None,
    ensures
        spec_find(s.push((k, v)), k) == Some(v),
        forall|k2: u64|
            k2 != k ==> #[trigger] spec_find(s.push((k, v)), k2) == spec_find(s, k2),
        distinct_keys(s.push((k, v))),
{
    lemma_find_push_fresh(s, k, v);
    assert forall|k2: u64| k2 != k implies #[trigger] spec_find(s.push((k, v)), k2) == spec_find(
        s,
        k2,
    ) by {
        lemma_find_push_other(s, k, v, k2);
    }
    lemma_find_none_no_hit(s, k);
    let t = s.push((k, v));
    assert forall|i: int, j: int| 0 <= i < j < t.len() implies (#[trigger] t[i]).0 != (
    #[trigger] t[j]).0 by {
        if j < s.len() {
            assert(t[i] == s[i] && t[j] == s[j]);
        } else {
            assert(t[i] == s[i] && t[j] == (k, v));
        }
    }
}

/// Replacing a binding by delete-then-append: the key maps to the new
/// value, every other key is untouched, and the keys stay unique.
pub proof fn lemma_find_refresh<V>(s: Seq<(u64, V)>, k: u64, v: V)
    requires
        distinct_keys(s),
    ensures
        spec_find(spec_delete(s, k).push((k, v)), k) == Some(v),
        forall|k2: u64|
            k2 != k ==> #[trigger] spec_find(spec_delete(s, k).push((k, v)), k2) == spec_find(
                s,
                k2,
            ),
        distinct_keys(spec_delete(s, k).push((k, v))),
{
    lemma_find_delete_same(s, k);
    lemma_delete_distinct(s, k);
    lemma_find_push_fresh(spec_delete(s, k), k, v);
    assert forall|k2: u64| k2 != k implies #[trigger] spec_find(
        spec_delete(s, k).push((k, v)),
        k2,
    ) == spec_find(s, k2) by {
        lemma_find_push_other(spec_delete(s, k), k, v, k2);
        lemma_find_delete_other(s, k, k2);
    }
    let d = spec_delete(s, k);
    lemma_find_none_no_hit(d, k);
    let t = d.push((k, v));
    assert forall|i: int, j: int| 0 <= i < j < t.len() implies (#[trigger] t[i]).0 != (
    #[trigger] t[j]).0 by {
        if j < d.len() {
            assert(t[i] == d[i] && t[j] == d[j]);
        } else {
            assert(t[i] == d[i] && t[j] == (k, v));
        }
    }
}

/// An insertion-ordered store of `(key, value)` entries with unique keys.
pub struct Table<V> {
    entries: Vec<(u64, V)>,
}

impl<V> Table<V> {
    /// The entries in iteration order.
    pub closed spec fn view(&self) -> Seq<(u64, V)> {
        self.entries@
    }

    /// Keys never repeat.
    pub open spec fn wf(&self) -> bool {
        distinct_keys(self@)
    }

    pub open spec fn spec_index(&self, k: u64) -> Option<V> {
        spec_find(self@, k)
    }

    pub fn new() -> (t: Table<V>)
        ensures
            t@ =~= Seq::<(u64, V)>::empty(),
            t.wf(),
    {
        Table { entries: Vec::new() }
    }

    pub fn len(&self) -> (n: usize)
        ensures
            n == self@.len(),
    {
        self.entries.len()
    }

    /// Entry at position `i` in iteration order.
    pub fn at(&self, i: usize) -> (e: &(u64, V))
        requires
            i < self@.len(),
        ensures
            *e == self@[i as int],
    {
        &self.entries[i]
    }

    #[verifier::loop_isolation(false)]
    pub fn contains_key(&self, k: u64) -> (b: bool)
        ensures
            b == (spec_find(self@, k) is Some),
    {
        let n: usize = self.entries.len();
        let mut i: usize = 0;
        while i < n
            invariant
                i <= n,
                n == self@.len(),
                forall|j: int| 0 <= j < i ==> (#[trigger] self@[j]).0 != k,
            decreases n - i,
        {
            if self.entries[i].0 == k {
                proof {
                    lemma_find_first(self@, k, i as int);
                }
                return true;
            }
            i = i + 1;
        }
        proof {
            lemma_find_absent(self@, k);
        }
        false
    }

    #[verifier::loop_isolation(false)]
    pub fn get(&self, k: u64) -> (r: Option<&V>)
        ensures
            match r {
                Some(v) => spec_find(self@, k) == Some(*v),
                None => spec_find(self@, k) is None,
            },
    {
        let n: usize = self.entries.len();
        let mut i: usize = 0;
        while i < n
            invariant
                i <= n,
                n == self@.len(),
                forall|j: int| 0 <= j < i ==> (#[trigger] self@[j]).0 != k,
            decreases n - i,
        {
            if self.entries[i].0 == k {
                proof {
                    lemma_find_first(self@, k, i as int);
                }
                return Some(&self.entries[i].1);
            }
            i = i + 1;
        }
        proof {
            lemma_find_absent(self@, k);
        }
        None
    }

    /// Bind `k` to `v`, replacing the previous binding in place or appending
    /// a fresh entry.
    #[verifier::loop_isolation(false)]
    pub fn put(&mut self, k: u64, v: V)
        requires
            old(self).wf(),
        ensures
            final(self)@ =~= spec_upsert(old(self)@, k, v),
            final(self).wf(),
            spec_find(final(self)@, k) == Some(v),
            forall|k2: u64| k2 != k ==> spec_find(final(self)@, k2) == spec_find(old(self)@, k2),
            spec_find(old(self)@, k) is None ==> final(self)@ =~= old(self)@.push((k, v)),
            spec_find(old(self)@, k) is Some ==> final(self)@.len() == old(self)@.len(),
    {
        proof {
            if spec_find(old(self)@, k) is None {
                lemma_find_none_no_hit(old(self)@, k);
                lemma_upsert_is_push(old(self)@, k, v);
            } else {
                lemma_find_some_has_hit(old(self)@, k);
                lemma_first_hit(old(self)@, k);
                lemma_upsert_is_update(old(self)@, k, v, first_hit(old(self)@, k));
            }
            lemma_upsert_distinct(old(self)@, k, v);
            lemma_find_upsert_same(old(self)@, k, v);
            assert(forall|k2: u64|
                k2 != k ==> spec_find(#[trigger] spec_upsert(old(self)@, k, v), k2) == spec_find(
                    old(self)@,
                    k2,
                )) by {
                assert forall|k2: u64| k2 != k implies spec_find(
                    spec_upsert(old(self)@, k, v),
                    k2,
                ) == spec_find(old(self)@, k2) by {
                    lemma_find_upsert_other(old(self)@, k, v, k2);
                }
            }
        }
        let n: usize = self.entries.len();
        let mut i: usize = 0;
        while i < n
            invariant
                i <= n,
                n == self@.len(),
                self@ == old(self)@,
                forall|j: int| 0 <= j < i ==> (#[trigger] self@[j]).0 != k,
            decreases n - i,
        {
            if self.entries[i].0 == k {
                proof {
                    lemma_upsert_is_update(self@, k, v, i as int);
                }
                self.entries.set(i, (k, v));
                return ;
            }
            i = i + 1;
        }
        proof {
            lemma_upsert_is_push(self@, k, v);
        }
        self.entries.push((k, v));
    }

    /// Remove and return the value bound to `k`.
    #[verifier::loop_isolation(false)]
    pub fn take(&mut self, k: u64) -> (r: Option<V>)
        requires
            old(self).wf(),
        ensures
            r == spec_find(old(self)@, k),
            final(self)@ =~= spec_delete(old(self)@, k),
            final(self).wf(),
            spec_find(final(self)@, k) is None,
            forall|k2: u64| k2 != k ==> spec_find(final(self)@, k2) == spec_find(old(self)@, k2),
    {
        proof {
            lemma_delete_distinct(old(self)@, k);
            lemma_find_delete_same(old(self)@, k);
            assert forall|k2: u64| k2 != k implies spec_find(
                spec_delete(old(self)@, k),
                k2,
            ) == spec_find(old(self)@, k2) by {
                lemma_find_delete_other(old(self)@, k, k2);
            }
        }
        let n: usize = self.entries.len();
        let mut i: usize = 0;
        while i < n
            invariant
                i <= n,
                n == self@.len(),
                self@ == old(self)@,
                forall|j: int| 0 <= j < i ==> (#[trigger] self@[j]).0 != k,
            decreases n - i,
        {
            if self.entries[i].0 == k {
                proof {
                    lemma_find_first(self@, k, i as int);
                    lemma_delete_is_remove(self@, k, i as int);
                }
                let v = self.entries.remove(i);
                return Some(v.1);
            }
            i = i + 1;
        }
        proof {
            lemma_find_absent(self@, k);
            lemma_delete_absent(self@, k);
        }
        None
    }
}

/// When the first entry for `k` stands at `i`, deleting `k` removes index `i`.
proof fn lemma_delete_is_remove<V>(s: Seq<(u64, V)>, k: u64, i: int)
    requires
        0 <= i < s.len(),
        s[i].0 == k,
        forall|j: int| 0 <= j < i ==> (#[trigger] s[j]).0 != k,
    ensures
        spec_delete(s, k) =~= s.remove(i),
    decreases i,
{
    if i == 0 {
        assert(s.drop_first() =~= s.remove(0));
    } else {
        lemma_delete_is_remove(s.drop_first(), k, i - 1);
        assert(seq![s[0]] + s.drop_first().remove(i - 1) =~= s.remove(i));
    }
}

proof fn lemma_delete_absent<V>(s: Seq<(u64, V)>, k: u64)
    requires
        forall|j: int| 0 <= j < s.len() ==> (#[trigger] s[j]).0 != k,
    ensures
        spec_delete(s, k) =~= s,
    decreases s.len(),
{
    if s.len() > 0 {
        lemma_delete_absent(s.drop_first(), k);
        assert(seq![s[0]] + s.drop_first() =~= s);
    }
}

} // verus!
