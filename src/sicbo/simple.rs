//! Big, Small, Odd and Even, paying 1; a triple voids them.
use vstd::prelude::*;
use super::{valid_bet, Bets};

verus! {

pub open spec fn family() -> Seq<Bets> {
    seq![Bets::Big, Bets::Small, Bets::Odd, Bets::Even]
}

pub proof fn lemma_valid()
    ensures
        forall|j: int| 0 <= j < family().len() ==> valid_bet(#[trigger] family()[j]),
{
}

pub fn all_bets(bets: &mut Vec<Bets>)
    ensures
        final(bets)@ == old(bets)@ + family(),
{
    let ghost start = bets@;
    bets.push(Bets::Big);
    bets.push(Bets::Small);
    bets.push(Bets::Odd);
    bets.push(Bets::Even);
    assert(bets@ =~= start + family());
}

} // verus!
