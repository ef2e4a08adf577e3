//! Six-line bets: two adjacent rows, paying 5.
use vstd::prelude::*;
use super::{add_bet, views, BetKind, Entry};

verus! {

/// Numbers of line `600 + k`: the six numbers from `3 * k + 1` on.
pub open spec fn line_numbers(k: int) -> Seq<u8> {
    Seq::new(6, |j: int| (3 * k + 1 + j) as u8)
}

pub open spec fn family() -> Seq<Entry> {
    Seq::new(11, |k: int| ((600 + k) as u16, line_numbers(k), 5u32))
}

pub fn all_bets(bets: &mut Vec<BetKind>)
    ensures
        views(final(bets)@) == views(old(bets)@) + family(),
{
    let ghost start = views(bets@);
    let mut k: u8 = 0;
    while k < 11
        invariant
            k <= 11,
            views(bets@) == start + family().take(k as int),
        decreases 11 - k,
    {
        let mut numbers: Vec<u8> = Vec::new();
        let mut j: u8 = 0;
        while j < 6
            invariant
                k < 11,
                j <= 6,
                numbers@ =~= line_numbers(k as int).take(j as int),
            decreases 6 - j,
        {
            numbers.push(3 * k + 1 + j);
            j = j + 1;
        }
        assert(numbers@ =~= line_numbers(k as int));
        add_bet(bets, 600 + k as u16, numbers, 5);
        assert(family().take(k + 1) =~= family().take(k as int).push(family()[k as int]));
        assert(views(bets@) =~= start + family().take(k + 1));
        k = k + 1;
    }
    assert(family().take(11) =~= family());
}

} // verus!
