//! Stable descending ranking.
//!
//! Leaderboards rank rows by a priority pair (score, then a secondary score),
//! highest first, with ties kept in their original order. The ranking is a
//! function of the input sequence — `spec_rank` — so a leaderboard rebuild
//! has an exact contract: the recomputed rows equal `spec_rank` of the rows
//! scanned from the projection store, cut to the board's capacity.

use vstd::prelude::*;

verus! {

/// A row awaiting ranking: a priority pair and the payload it ranks.
pub struct Ranked<T> {
    pub score: u128,
    pub tiebreak: u64,
    pub row: T,
}

/// Strictly higher priority: later rows overtake earlier ones only here, so
/// equal priorities keep their original order.
pub open spec fn spec_outranks<T>(a: Ranked<T>, b: Ranked<T>) -> bool {
    a.score > b.score || (a.score == b.score && a.tiebreak > b.tiebreak)
}

/// Insert `e` behind every settled row of equal or higher priority.
pub open spec fn spec_place<T>(s: Seq<Ranked<T>>, e: Ranked<T>) -> Seq<Ranked<T>>
    decreases s.len(),
{
    if s.len() == 0 {
        seq![e]
    } else if spec_outranks(e, s[0]) {
        seq![e] + s
    } else {
        seq![s[0]] + spec_place(s.drop_first(), e)
    }
}

/// The rows of `s` in descending priority order, stable.
pub open spec fn spec_rank<T>(s: Seq<Ranked<T>>) -> Seq<Ranked<T>>
    decreases s.len(),
{
    if s.len() == 0 {
        Seq::empty()
    } else {
        spec_place(spec_rank(s.drop_last()), s.last())
    }
}

/// The payloads of the highest-ranked rows, at most `n` of them.
pub open spec fn spec_top<T>(s: Seq<Ranked<T>>, n: int) -> Seq<T> {
    if spec_rank(s).len() <= n {
        spec_rank(s).map_values(|e: Ranked<T>| e.row)
    } else {
        spec_rank(s).take(n).map_values(|e: Ranked<T>| e.row)
    }
}

proof fn lemma_place_at<T>(s: Seq<Ranked<T>>, e: Ranked<T>, i: int)
    requires
        0 <= i <= s.len(),
        forall|j: int| 0 <= j < i ==> !spec_outranks(e, #[trigger] s[j]),
        i < s.len() ==> spec_outranks(e, s[i]),
    ensures
        spec_place(s, e) =~= s.insert(i, e),
    decreases i,
{
    if s.len() == 0 {
        assert(spec_place(s, e) =~= s.insert(0, e));
    } else if i == 0 {
        assert(spec_place(s, e) =~= seq![e] + s);
        assert(seq![e] + s =~= s.insert(0, e));
    } else {
        assert(!spec_outranks(e, s[0]));
        assert forall|j: int| 0 <= j < i - 1 implies !spec_outranks(
            e,
            #[trigger] s.drop_first()[j],
        ) by {
            assert(s.drop_first()[j] == s[j + 1]);
        }
        lemma_place_at(s.drop_first(), e, i - 1);
        assert(seq![s[0]] + s.drop_first().insert(i - 1, e) =~= s.insert(i, e));
    }
}

fn outranks<T>(a: &Ranked<T>, b: &Ranked<T>) -> (r: bool)
    ensures
        r == spec_outranks(*a, *b),
{
    a.score > b.score || (a.score == b.score && a.tiebreak > b.tiebreak)
}

/// Insert one row into an already ranked vector, keeping it ranked.
#[verifier::loop_isolation(false)]
fn place<T>(acc: &mut Vec<Ranked<T>>, e: Ranked<T>)
    ensures
        final(acc)@ =~= spec_place(old(acc)@, e),
{
    let n: usize = acc.len();
    let mut i: usize = 0;
    while i < n
        invariant
            i <= n,
            acc@ == old(acc)@,
            forall|j: int| 0 <= j < i ==> !spec_outranks(e, #[trigger] acc@[j]),
        decreases n - i,
    {
        if outranks(&e, &acc[i]) {
            proof {
                lemma_place_at(acc@, e, i as int);
            }
            acc.insert(i, e);
            return ;
        }
        i = i + 1;
    }
    proof {
        lemma_place_at(acc@, e, n as int);
    }
    acc.insert(n, e);
}

/// Rank every row of `items`, consuming it.
#[verifier::loop_isolation(false)]
pub fn rank_rows<T>(items: Vec<Ranked<T>>) -> (out: Vec<Ranked<T>>)
    ensures
        out@ =~= spec_rank(items@),
{
    let ghost orig = items@;
    let mut rest = items;
    let total: usize = rest.len();
    proof {
        assert(orig.len() == total);
    }
    let mut out: Vec<Ranked<T>> = Vec::new();
    let mut k: usize = 0;
    proof {
        assert(orig.take(0) =~= Seq::empty());
    }
    while rest.len() > 0
        invariant
            k <= orig.len(),
            orig.len() <= usize::MAX,
            rest@ =~= orig.skip(k as int),
            out@ =~= spec_rank(orig.take(k as int)),
        decreases rest@.len(),
    {
        let e = rest.remove(0);
        proof {
            assert(e == orig[k as int]);
            assert(orig.skip(k as int).drop_first() =~= orig.skip(k as int + 1));
        }
        place(&mut out, e);
        k = k + 1;
        proof {
            assert(orig.take(k as int).drop_last() =~= orig.take(k as int - 1));
            assert(orig.take(k as int).last() == orig[k as int - 1]);
        }
    }
    proof {
        assert(orig.take(k as int) =~= orig);
    }
    out
}

/// The payloads of the best `n` rows of `items`, in rank order.
#[verifier::loop_isolation(false)]
pub fn top_rows<T>(items: Vec<Ranked<T>>, n: usize) -> (out: Vec<T>)
    ensures
        out@ =~= spec_top(items@, n as int),
        out@.len() <= n,
{
    let ghost orig = items@;
    let mut ranked = rank_rows(items);
    if ranked.len() > n {
        ranked.truncate(n);
        proof {
            assert(ranked@ =~= spec_rank(orig).take(n as int));
        }
    }
    let ghost kept = ranked@;
    let kn: usize = ranked.len();
    proof {
        assert(kept.len() == kn);
    }
    let mut out: Vec<T> = Vec::new();
    let mut rest = ranked;
    let mut k: usize = 0;
    while rest.len() > 0
        invariant
            k <= kept.len(),
            kept.len() <= usize::MAX,
            rest@ =~= kept.skip(k as int),
            out@ =~= kept.take(k as int).map_values(|e: Ranked<T>| e.row),
        decreases rest@.len(),
    {
        let e = rest.remove(0);
        proof {
            assert(e == kept[k as int]);
            assert(kept.skip(k as int).drop_first() =~= kept.skip(k as int + 1));
            assert(kept.take(k as int + 1).map_values(|x: Ranked<T>| x.row) =~= kept.take(
                k as int,
            ).map_values(|x: Ranked<T>| x.row).push(kept[k as int].row));
        }
        out.push(e.row);
        k = k + 1;
    }
    proof {
        assert(kept.take(k as int) =~= kept);
    }
    out
}

} // verus!
