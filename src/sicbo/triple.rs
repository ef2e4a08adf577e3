//! Triple bets: all three dice showing one face, paying 150; and any triple, paying 24.
use vstd::prelude::*;
use super::{valid_bet, Bets};

verus! {

/// The bet on each face, in order.
pub open spec fn faces() -> Seq<Bets> {
    Seq::new(6, |k: int| Bets::Triple((k + 1) as u8))
}

pub open spec fn family() -> Seq<Bets> {
    faces().push(Bets::AnyTriple)
}

pub proof fn lemma_valid()
    ensures
        forall|j: int| 0 <= j < family().len() ==> valid_bet(#[trigger] family()[j]),
{
}

pub fn all_bets(bets: &mut Vec<Bets>)
    ensures
        final(bets)@ == old(bets)@ + family(),
{
    let ghost start = bets@;
    let mut n: u8 = 1;
    while n <= 6
        invariant
            1 <= n <= 7,
            bets@ == start + faces().take(n - 1),
        decreases 7 - n,
    {
        bets.push(Bets::Triple(n));
        assert(faces().take(n as int) =~= faces().take(n - 1).push(faces()[n - 1]));
        n = n + 1;
    }
    assert(faces().take(6) =~= faces());
    bets.push(Bets::AnyTriple);
    assert(bets@ =~= start + family());
}

} // verus!
