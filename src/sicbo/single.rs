//! Single bets: one face, paying 1 for each die that shows it.
use vstd::prelude::*;
use super::{valid_bet, Bets};

verus! {

/// The bet on each face, in order.
pub open spec fn faces() -> Seq<Bets> {
    Seq::new(6, |k: int| Bets::Single((k + 1) as u8))
}

pub open spec fn family() -> Seq<Bets> {
    faces()
}

pub proof fn lemma_valid()
    ensures
        forall|j: int| 0 <= j < family().len() ==> valid_bet(#[trigger] family()[j]),
{
}

pub fn all_bets(bets: &mut Vec<Bets>)
    ensures
        final(bets)@ == old(bets)@ + family(),
{
    let ghost start = bets@;
    let mut n: u8 = 1;
    while n <= 6
        invariant
            1 <= n <= 7,
            bets@ == start + faces().take(n - 1),
        decreases 7 - n,
    {
        bets.push(Bets::Single(n));
        assert(faces().take(n as int) =~= faces().take(n - 1).push(faces()[n - 1]));
        n = n + 1;
    }
    assert(faces().take(6) =~= faces());
}

} // verus!
