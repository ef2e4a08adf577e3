//! Corner bets: four numbers meeting at a corner, paying 8.
use vstd::prelude::*;
use super::{add_bet, views, BetKind, Entry};

verus! {

/// Numbers of corner `400 + k`: the square whose top-left number is in row
/// `k / 2`, column `k % 2`; the last one is 0, 1, 2 and 3.
pub open spec fn corner_numbers(k: int) -> Seq<u8> {
    if k == 22 {
        seq![0u8, 1u8, 2u8, 3u8]
    } else {
        let a = 3 * (k / 2) + 1 + k % 2;
        seq![a as u8, (a + 1) as u8, (a + 3) as u8, (a + 4) as u8]
    }
}

pub open spec fn family() -> Seq<Entry> {
    Seq::new(23, |k: int| ((400 + k) as u16, corner_numbers(k), 8u32))
}

pub fn all_bets(bets: &mut Vec<BetKind>)
    ensures
        views(final(bets)@) == views(old(bets)@) + family(),
{
    let ghost start = views(bets@);
    let mut k: u8 = 0;
    while k < 23
        invariant
            k <= 23,
            views(bets@) == start + family().take(k as int),
        decreases 23 - k,
    {
        let mut numbers: Vec<u8> = Vec::new();
        if k == 22 {
            numbers.push(0);
            numbers.push(1);
            numbers.push(2);
            numbers.push(3);
        } else {
            let a = 3 * (k / 2) + 1 + k % 2;
            numbers.push(a);
            numbers.push(a + 1);
            numbers.push(a + 3);
            numbers.push(a + 4);
        }
        assert(numbers@ =~= corner_numbers(k as int));
        add_bet(bets, 400 + k as u16, numbers, 8);
        assert(family().take(k + 1) =~= family().take(k as int).push(family()[k as int]));
        assert(views(bets@) =~= start + family().take(k + 1));
        k = k + 1;
    }
    assert(family().take(23) =~= family());
}

} // verus!
