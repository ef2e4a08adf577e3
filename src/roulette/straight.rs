//! Straight bets: one number each, paying 35.
use vstd::prelude::*;
use super::{add_bet, views, BetKind, Entry};

verus! {

/// Number `n` is bet `100 + n`.
pub open spec fn family() -> Seq<Entry> {
    Seq::new(37, |n: int| ((100 + n) as u16, seq![n as u8], 35u32))
}

pub fn all_bets(bets: &mut Vec<BetKind>)
    ensures
        views(final(bets)@) == views(old(bets)@) + family(),
{
    let ghost start = views(bets@);
    let mut n: u8 = 0;
    while n < 37
        invariant
            n <= 37,
            views(bets@) == start + family().take(n as int),
        decreases 37 - n,
    {
        let mut numbers: Vec<u8> = Vec::new();
        numbers.push(n);
        assert(numbers@ =~= seq![n]);
        add_bet(bets, 100 + n as u16, numbers, 35);
        assert(family().take(n + 1) =~= family().take(n as int).push(family()[n as int]));
        assert(views(bets@) =~= start + family().take(n + 1));
        n = n + 1;
    }
    assert(family().take(37) =~= family());
}

} // verus!
