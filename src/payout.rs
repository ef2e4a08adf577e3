//! What every game shares: a catalog of bet kinds is scanned and the kinds
//! that win are kept together with their ratio.
//!
//! Ratios are integers in hundredths: 195 stands for a payout of 1.95 per
//! unit staked (the stake included).
use vstd::prelude::*;

verus! {

/// The entries of `bets` that `pay` gives a ratio for, in catalog order, each
/// as its key and its ratio.
pub open spec fn winners<B, K>(
    bets: Seq<B>,
    key: spec_fn(B) -> K,
    pay: spec_fn(B) -> Option<u32>,
) -> Seq<(K, u32)>
    decreases bets.len(),
{
    if bets.len() == 0 {
        Seq::empty()
    } else {
        let prev = winners(bets.drop_last(), key, pay);
        match pay(bets.last()) {
            Some(r) => prev.push((key(bets.last()), r)),
            None => prev,
        }
    }
}

/// The entries of `bets` that satisfy `p`, in order.
pub open spec fn keep<B>(bets: Seq<B>, p: spec_fn(B) -> bool) -> Seq<B>
    decreases bets.len(),
{
    if bets.len() == 0 {
        Seq::empty()
    } else {
        let prev = keep(bets.drop_last(), p);
        if p(bets.last()) {
            prev.push(bets.last())
        } else {
            prev
        }
    }
}

/// Scanning one more entry of the catalog.
pub proof fn lemma_winners_step<B, K>(
    bets: Seq<B>,
    i: int,
    key: spec_fn(B) -> K,
    pay: spec_fn(B) -> Option<u32>,
)
    requires
        0 <= i < bets.len(),
    ensures
        winners(bets.subrange(0, i + 1), key, pay) == match pay(bets[i]) {
            Some(r) => winners(bets.subrange(0, i), key, pay).push((key(bets[i]), r)),
            None => winners(bets.subrange(0, i), key, pay),
        },
{
    assert(bets.subrange(0, i + 1).drop_last() =~= bets.subrange(0, i));
}

/// Scanning one more entry of a list being filtered.
pub proof fn lemma_keep_step<B>(bets: Seq<B>, i: int, p: spec_fn(B) -> bool)
    requires
        0 <= i < bets.len(),
    ensures
        keep(bets.subrange(0, i + 1), p) == if p(bets[i]) {
            keep(bets.subrange(0, i), p).push(bets[i])
        } else {
            keep(bets.subrange(0, i), p)
        },
{
    assert(bets.subrange(0, i + 1).drop_last() =~= bets.subrange(0, i));
}

/// An entry is kept exactly when it is in the list and satisfies the filter.
pub proof fn lemma_keep_contains<B>(bets: Seq<B>, p: spec_fn(B) -> bool, b: B)
    ensures
        keep(bets, p).contains(b) <==> (bets.contains(b) && p(b)),
    decreases bets.len(),
{
    if bets.len() > 0 {
        let prev = bets.drop_last();
        lemma_keep_contains(prev, p, b);
        assert(bets =~= prev.push(bets.last()));
        if keep(bets, p).contains(b) {
            if p(bets.last()) {
                let k = keep(prev, p);
                let j = choose|j: int| 0 <= j < k.push(bets.last()).len() && k.push(bets.last())[j]
                    == b;
                if j < k.len() {
                    assert(k[j] == b);
                    assert(k.contains(b));
                }
            }
            let w = choose|j: int| 0 <= j < prev.len() && prev[j] == b;
            if prev.contains(b) {
                assert(bets[w] == b);
            } else {
                assert(bets[bets.len() - 1] == b);
            }
        }
        if bets.contains(b) && p(b) {
            let j = choose|j: int| 0 <= j < bets.len() && bets[j] == b;
            if j < bets.len() - 1 {
                assert(prev[j] == b);
                let k = keep(prev, p);
                let m = choose|m: int| 0 <= m < k.len() && k[m] == b;
                if p(bets.last()) {
                    assert(k.push(bets.last())[m] == b);
                }
            } else {
                let k = keep(prev, p);
                assert(k.push(bets.last())[k.len() as int] == b);
            }
        }
    }
}

} // verus!
