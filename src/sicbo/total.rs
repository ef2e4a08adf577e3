//! Total bets: the sum of the dice, from 4 to 17.
use vstd::prelude::*;
use super::{valid_bet, Bets};

verus! {

/// The bet on each total from 4 to 17, in order.
pub open spec fn family() -> Seq<Bets> {
    Seq::new(14, |k: int| Bets::Total((k + 4) as u8))
}

pub proof fn lemma_valid()
    ensures
        forall|j: int| 0 <= j < family().len() ==> valid_bet(#[trigger] family()[j]),
{
}

pub fn all_bets(bets: &mut Vec<Bets>)
    ensures
        final(bets)@ == old(bets)@ + family(),
{
    let ghost start = bets@;
    let mut n: u8 = 4;
    while n <= 17
        invariant
            4 <= n <= 18,
            bets@ == start + family().take(n - 4),
        decreases 18 - n,
    {
        bets.push(Bets::Total(n));
        assert(family().take(n - 3) =~= family().take(n - 4).push(family()[n - 4]));
        n = n + 1;
    }
    assert(family().take(14) =~= family());
}

} // verus!
