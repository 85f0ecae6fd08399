//! Facts about sequences that the derivations share.

use vstd::prelude::*;

verus! {

/// The least position of `s` at which `p` holds, or the length of `s` where it holds
/// nowhere.
pub open spec fn first_where<A>(s: Seq<A>, p: spec_fn(A) -> bool) -> int
    decreases s.len(),
{
    if s.len() == 0 {
        0
    } else {
        let before = first_where(s.drop_last(), p);
        if before < s.len() - 1 {
            before
        } else if p(s.last()) {
            s.len() - 1
        } else {
            s.len() as int
        }
    }
}

/// `first_where` is a position at which `p` holds with none before it, or the length.
pub proof fn lemma_first_where<A>(s: Seq<A>, p: spec_fn(A) -> bool)
    ensures
        0 <= first_where(s, p) <= s.len(),
        first_where(s, p) < s.len() ==> p(s[first_where(s, p)]),
        forall|j: int| 0 <= j < first_where(s, p) ==> !p(#[trigger] s[j]),
    decreases s.len(),
{
    if s.len() > 0 {
        lemma_first_where(s.drop_last(), p);
        assert(forall|j: int| 0 <= j < s.len() - 1 ==> s.drop_last()[j] == s[j]);
    }
}

/// A position at which `p` holds and before which it does not is the first.
pub proof fn lemma_first_where_at<A>(s: Seq<A>, p: spec_fn(A) -> bool, k: int)
    requires
        0 <= k < s.len(),
        p(s[k]),
        forall|j: int| 0 <= j < k ==> !p(#[trigger] s[j]),
    ensures
        first_where(s, p) == k,
{
    lemma_first_where(s, p);
}

/// Where `p` holds nowhere, there is no first position.
pub proof fn lemma_first_where_none<A>(s: Seq<A>, p: spec_fn(A) -> bool)
    requires
        forall|j: int| 0 <= j < s.len() ==> !p(#[trigger] s[j]),
    ensures
        first_where(s, p) == s.len(),
{
    lemma_first_where(s, p);
}

/// The items of `items` whose flag in `flags` holds, in order. An item without a flag is
/// left out.
pub open spec fn kept<A>(items: Seq<A>, flags: Seq<bool>) -> Seq<A>
    decreases items.len(),
{
    if items.len() == 0 {
        Seq::empty()
    } else {
        let before = kept(items.drop_last(), flags);
        if items.len() <= flags.len() && flags[items.len() - 1] {
            before.push(items.last())
        } else {
            before
        }
    }
}

/// How many items are kept depends on the flags alone.
pub proof fn lemma_kept_len<A, B>(a: Seq<A>, b: Seq<B>, flags: Seq<bool>)
    requires
        a.len() == b.len(),
    ensures
        kept(a, flags).len() == kept(b, flags).len(),
    decreases a.len(),
{
    if a.len() > 0 {
        lemma_kept_len(a.drop_last(), b.drop_last(), flags);
    }
}

/// With every flag set, everything is kept.
pub proof fn lemma_kept_all<A>(items: Seq<A>, flags: Seq<bool>)
    requires
        flags.len() == items.len(),
        forall|i: int| 0 <= i < flags.len() ==> flags[i],
    ensures
        kept(items, flags) == items,
    decreases items.len(),
{
    if items.len() > 0 {
        lemma_kept_all(items.drop_last(), flags.drop_last());
        lemma_kept_flags_prefix(items.drop_last(), flags, flags.drop_last());
        assert(kept(items, flags) =~= items);
    } else {
        assert(kept(items, flags) =~= items);
    }
}

/// Only the flags at the positions of the items matter.
pub proof fn lemma_kept_flags_prefix<A>(items: Seq<A>, f: Seq<bool>, g: Seq<bool>)
    requires
        items.len() <= f.len(),
        items.len() <= g.len(),
        forall|i: int| 0 <= i < items.len() ==> f[i] == g[i],
    ensures
        kept(items, f) == kept(items, g),
    decreases items.len(),
{
    if items.len() > 0 {
        lemma_kept_flags_prefix(items.drop_last(), f, g);
    }
}

/// The items of `s` without repetition, each at the place of its first occurrence.
pub open spec fn distinct<A>(s: Seq<A>) -> Seq<A>
    decreases s.len(),
{
    if s.len() == 0 {
        Seq::empty()
    } else {
        let before = distinct(s.drop_last());
        if before.contains(s.last()) {
            before
        } else {
            before.push(s.last())
        }
    }
}

/// `distinct` holds each item of `s` exactly once, and nothing else.
pub proof fn lemma_distinct<A>(s: Seq<A>)
    ensures
        forall|x: A| distinct(s).contains(x) <==> s.contains(x),
        forall|i: int, j: int|
            0 <= i < j < distinct(s).len() ==> distinct(s)[i] != distinct(s)[j],
        distinct(s).len() <= s.len(),
    decreases s.len(),
{
    if s.len() > 0 {
        let before = distinct(s.drop_last());
        lemma_distinct(s.drop_last());
        assert forall|x: A| distinct(s).contains(x) <==> s.contains(x) by {
            if s.contains(x) {
                let i = choose|i: int| 0 <= i < s.len() && s[i] == x;
                if i < s.len() - 1 {
                    assert(s.drop_last()[i] == x);
                    assert(s.drop_last().contains(x));
                    assert(before.contains(x));
                    let k = choose|k: int| 0 <= k < before.len() && before[k] == x;
                    assert(distinct(s)[k] == x);
                } else if before.contains(x) {
                } else {
                    assert(distinct(s)[before.len() as int] == x);
                }
            }
            if distinct(s).contains(x) {
                let k = choose|k: int| 0 <= k < distinct(s).len() && distinct(s)[k] == x;
                if k < before.len() {
                    assert(before[k] == x);
                    assert(before.contains(x));
                    assert(s.drop_last().contains(x));
                    let i = choose|i: int| 0 <= i < s.drop_last().len() && s.drop_last()[i] == x;
                    assert(s[i] == x);
                } else {
                    assert(s[s.len() - 1] == x);
                }
            }
        }
    }
}

/// The items of `items` that `p` holds of, in order.
pub open spec fn chosen<A>(items: Seq<A>, p: spec_fn(A) -> bool) -> Seq<A>
    decreases items.len(),
{
    if items.len() == 0 {
        Seq::empty()
    } else {
        let before = chosen(items.drop_last(), p);
        if p(items.last()) {
            before.push(items.last())
        } else {
            before
        }
    }
}

/// `chosen` holds exactly the items of which `p` holds.
pub proof fn lemma_chosen<A>(items: Seq<A>, p: spec_fn(A) -> bool)
    ensures
        forall|x: A| chosen(items, p).contains(x) <==> items.contains(x) && p(x),
        chosen(items, p).len() <= items.len(),
    decreases items.len(),
{
    if items.len() > 0 {
        let before = chosen(items.drop_last(), p);
        lemma_chosen(items.drop_last(), p);
        assert forall|x: A| chosen(items, p).contains(x) <==> items.contains(x) && p(x) by {
            if items.contains(x) && p(x) {
                let i = choose|i: int| 0 <= i < items.len() && items[i] == x;
                if i < items.len() - 1 {
                    assert(items.drop_last()[i] == x);
                    assert(items.drop_last().contains(x));
                    assert(before.contains(x));
                    let k = choose|k: int| 0 <= k < before.len() && before[k] == x;
                    assert(chosen(items, p)[k] == x);
                } else {
                    assert(chosen(items, p)[before.len() as int] == x);
                }
            }
            if chosen(items, p).contains(x) {
                let k = choose|k: int| 0 <= k < chosen(items, p).len() && chosen(items, p)[k] == x;
                if k < before.len() {
                    assert(before[k] == x);
                    assert(before.contains(x));
                    assert(items.drop_last().contains(x));
                    let i = choose|i: int|
                        0 <= i < items.drop_last().len() && items.drop_last()[i] == x;
                    assert(items[i] == x);
                } else {
                    assert(items[items.len() - 1] == x);
                }
            }
        }
    }
}

/// An item is kept exactly where it stands at a position whose flag holds.
pub proof fn lemma_kept<A>(items: Seq<A>, flags: Seq<bool>)
    requires
        flags.len() == items.len(),
    ensures
        forall|x: A|
            kept(items, flags).contains(x) <==> exists|i: int|
                0 <= i < items.len() && flags[i] && #[trigger] items[i] == x,
        kept(items, flags).len() <= items.len(),
    decreases items.len(),
{
    if items.len() > 0 {
        let before = kept(items.drop_last(), flags);
        lemma_kept_flags_prefix(items.drop_last(), flags, flags.drop_last());
        lemma_kept(items.drop_last(), flags.drop_last());
        assert forall|x: A|
            kept(items, flags).contains(x) <==> exists|i: int|
                0 <= i < items.len() && flags[i] && #[trigger] items[i] == x by {
            if kept(items, flags).contains(x) {
                let k = choose|k: int| 0 <= k < kept(items, flags).len() && kept(items, flags)[k] == x;
                if k < before.len() {
                    assert(before[k] == x);
                    assert(before.contains(x));
                    let i = choose|i: int|
                        0 <= i < items.drop_last().len() && flags.drop_last()[i]
                            && #[trigger] items.drop_last()[i] == x;
                    assert(flags[i] && items[i] == x);
                } else {
                    assert(flags[items.len() - 1] && items[items.len() - 1] == x);
                }
            }
            if exists|i: int| 0 <= i < items.len() && flags[i] && #[trigger] items[i] == x {
                let i = choose|i: int| 0 <= i < items.len() && flags[i] && #[trigger] items[i] == x;
                if i < items.len() - 1 {
                    assert(flags.drop_last()[i] && items.drop_last()[i] == x);
                    assert(before.contains(x));
                    let k = choose|k: int| 0 <= k < before.len() && before[k] == x;
                    assert(kept(items, flags)[k] == x);
                } else {
                    assert(kept(items, flags)[before.len() as int] == x);
                }
            }
        }
    }
}

/// Where the flag holds at one position alone, the item there is all that is kept.
pub proof fn lemma_kept_single<A>(items: Seq<A>, flags: Seq<bool>, k: int)
    requires
        flags.len() == items.len(),
        0 <= k < items.len(),
        forall|i: int| 0 <= i < flags.len() ==> (flags[i] <==> i == k),
    ensures
        kept(items, flags) == seq![items[k]],
{
    lemma_kept_upto(items, flags, k, items.len() as int);
    assert(items.take(items.len() as int) =~= items);
}

/// With the flag at position `k` alone: what is kept of the first `n` items.
proof fn lemma_kept_upto<A>(items: Seq<A>, flags: Seq<bool>, k: int, n: int)
    requires
        flags.len() == items.len(),
        0 <= k < items.len(),
        0 <= n <= items.len(),
        forall|i: int| 0 <= i < flags.len() ==> (flags[i] <==> i == k),
    ensures
        kept(items.take(n), flags) == (if n <= k {
            Seq::<A>::empty()
        } else {
            seq![items[k]]
        }),
    decreases n,
{
    if n > 0 {
        lemma_kept_upto(items, flags, k, n - 1);
        assert(items.take(n).drop_last() =~= items.take(n - 1));
        assert(kept(items.take(n), flags) =~= (if n <= k {
            Seq::<A>::empty()
        } else {
            seq![items[k]]
        }));
    } else {
        assert(kept(items.take(n), flags) =~= Seq::<A>::empty());
    }
}

} // verus!
