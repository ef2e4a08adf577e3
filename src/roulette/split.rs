//! Split bets: two adjacent numbers each, paying 17.
use vstd::prelude::*;
use super::{add_bet, views, BetKind, Entry};

verus! {

/// Numbers of split `200 + k`: zero with 1, 2 or 3; then each number with
/// the one below it on the layout; then each number with its right-hand
/// neighbour in its row.
pub open spec fn split_numbers(k: int) -> Seq<u8> {
    if k < 3 {
        seq![0u8, (k + 1) as u8]
    } else if k < 36 {
        seq![(k - 2) as u8, (k + 1) as u8]
    } else {
        let h = k - 36;
        seq![(3 * (h / 2) + 1 + h % 2) as u8, (3 * (h / 2) + 2 + h % 2) as u8]
    }
}

pub open spec fn family() -> Seq<Entry> {
    Seq::new(60, |k: int| ((200 + k) as u16, split_numbers(k), 17u32))
}

pub fn all_bets(bets: &mut Vec<BetKind>)
    ensures
        views(final(bets)@) == views(old(bets)@) + family(),
{
    let ghost start = views(bets@);
    let mut k: u8 = 0;
    while k < 60
        invariant
            k <= 60,
            views(bets@) == start + family().take(k as int),
        decreases 60 - k,
    {
        let (a, b) = if k < 3 {
            (0u8, k + 1)
        } else if k < 36 {
            (k - 2, k + 1)
        } else {
            let h = k - 36;
            (3 * (h / 2) + 1 + h % 2, 3 * (h / 2) + 2 + h % 2)
        };
        let mut numbers: Vec<u8> = Vec::new();
        numbers.push(a);
        numbers.push(b);
        assert(numbers@ =~= split_numbers(k as int));
        add_bet(bets, 200 + k as u16, numbers, 17);
        assert(family().take(k + 1) =~= family().take(k as int).push(family()[k as int]));
        assert(views(bets@) =~= start + family().take(k + 1));
        k = k + 1;
    }
    assert(family().take(60) =~= family());
}

} // verus!
