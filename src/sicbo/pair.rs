//! Pair bets: two named faces both showing, paying 5.
use vstd::prelude::*;
use super::{valid_bet, Bets};

verus! {

/// The fifteen pairs of faces `(a, c)` with `a < c`, in increasing order.
pub open spec fn family() -> Seq<Bets> {
    seq![
        Bets::Pair(1, 2),
        Bets::Pair(1, 3),
        Bets::Pair(1, 4),
        Bets::Pair(1, 5),
        Bets::Pair(1, 6),
        Bets::Pair(2, 3),
        Bets::Pair(2, 4),
        Bets::Pair(2, 5),
        Bets::Pair(2, 6),
        Bets::Pair(3, 4),
        Bets::Pair(3, 5),
        Bets::Pair(3, 6),
        Bets::Pair(4, 5),
        Bets::Pair(4, 6),
        Bets::Pair(5, 6),
    ]
}

pub proof fn lemma_valid()
    ensures
        forall|j: int| 0 <= j < family().len() ==> valid_bet(#[trigger] family()[j]),
{
}

pub fn all_bets(bets: &mut Vec<Bets>)
    ensures
        final(bets)@ == old(bets)@ + family(),
{
    let ghost start = bets@;
    bets.push(Bets::Pair(1, 2));
    bets.push(Bets::Pair(1, 3));
    bets.push(Bets::Pair(1, 4));
    bets.push(Bets::Pair(1, 5));
    bets.push(Bets::Pair(1, 6));
    bets.push(Bets::Pair(2, 3));
    bets.push(Bets::Pair(2, 4));
    bets.push(Bets::Pair(2, 5));
    bets.push(Bets::Pair(2, 6));
    bets.push(Bets::Pair(3, 4));
    bets.push(Bets::Pair(3, 5));
    bets.push(Bets::Pair(3, 6));
    bets.push(Bets::Pair(4, 5));
    bets.push(Bets::Pair(4, 6));
    bets.push(Bets::Pair(5, 6));
    assert(bets@ =~= start + family());
}

} // verus!
