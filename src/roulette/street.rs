//! Street bets: three numbers each, paying 11.
use vstd::prelude::*;
use super::{add_bet, views, BetKind, Entry};

verus! {

/// Numbers of street `300 + k`: zero with 1 and 2, zero with 2 and 3, then
/// each row of the layout.
pub open spec fn street_numbers(k: int) -> Seq<u8> {
    if k == 0 {
        seq![0u8, 1u8, 2u8]
    } else if k == 1 {
        seq![0u8, 2u8, 3u8]
    } else {
        let s = 3 * (k - 2) + 1;
        seq![s as u8, (s + 1) as u8, (s + 2) as u8]
    }
}

pub open spec fn family() -> Seq<Entry> {
    Seq::new(14, |k: int| ((300 + k) as u16, street_numbers(k), 11u32))
}

pub fn all_bets(bets: &mut Vec<BetKind>)
    ensures
        views(final(bets)@) == views(old(bets)@) + family(),
{
    let ghost start = views(bets@);
    let mut k: u8 = 0;
    while k < 14
        invariant
            k <= 14,
            views(bets@) == start + family().take(k as int),
        decreases 14 - k,
    {
        let (a, b, c) = if k == 0 {
            (0u8, 1u8, 2u8)
        } else if k == 1 {
            (0u8, 2u8, 3u8)
        } else {
            let s = 3 * (k - 2) + 1;
            (s, s + 1, s + 2)
        };
        let mut numbers: Vec<u8> = Vec::new();
        numbers.push(a);
        numbers.push(b);
        numbers.push(c);
        assert(numbers@ =~= street_numbers(k as int));
        add_bet(bets, 300 + k as u16, numbers, 11);
        assert(family().take(k + 1) =~= family().take(k as int).push(family()[k as int]));
        assert(views(bets@) =~= start + family().take(k + 1));
        k = k + 1;
    }
    assert(family().take(14) =~= family());
}

} // verus!
