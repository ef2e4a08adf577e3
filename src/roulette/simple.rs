//! Even-money and two-to-one bets: colours, parity, halves (18 numbers,
//! paying 1), dozens and columns (12 numbers, paying 2).
use vstd::prelude::*;
use super::{add_bet, views, BetKind, Entry};

verus! {

pub open spec fn family() -> Seq<Entry> {
    seq![
        (1u16, seq![1u8, 3, 5, 7, 9, 12, 14, 16, 18, 19, 21, 23, 25, 27, 30, 32, 34, 36], 1u32),
        (2u16, seq![2u8, 4, 6, 8, 10, 11, 13, 15, 17, 20, 22, 24, 26, 28, 29, 31, 33, 35], 1u32),
        (3u16, seq![1u8, 3, 5, 7, 9, 11, 13, 15, 17, 19, 21, 23, 25, 27, 29, 31, 33, 35], 1u32),
        (4u16, seq![2u8, 4, 6, 8, 10, 12, 14, 16, 18, 20, 22, 24, 26, 28, 30, 32, 34, 36], 1u32),
        (5u16, seq![19u8, 20, 21, 22, 23, 24, 25, 26, 27, 28, 29, 30, 31, 32, 33, 34, 35, 36], 1u32),
        (6u16, seq![1u8, 2, 3, 4, 5, 6, 7, 8, 9, 10, 11, 12, 13, 14, 15, 16, 17, 18], 1u32),
        (7u16, seq![1u8, 2, 3, 4, 5, 6, 7, 8, 9, 10, 11, 12], 2u32),
        (8u16, seq![13u8, 14, 15, 16, 17, 18, 19, 20, 21, 22, 23, 24], 2u32),
        (9u16, seq![25u8, 26, 27, 28, 29, 30, 31, 32, 33, 34, 35, 36], 2u32),
        (10u16, seq![1u8, 4, 7, 10, 13, 16, 19, 22, 25, 28, 31, 34], 2u32),
        (11u16, seq![2u8, 5, 8, 11, 14, 17, 20, 23, 26, 29, 32, 35], 2u32),
        (12u16, seq![3u8, 6, 9, 12, 15, 18, 21, 24, 27, 30, 33, 36], 2u32),
    ]
}

pub proof fn lemma_ratios()
    ensures
        forall|j: int| 0 <= j < family().len() ==> (#[trigger] family()[j]).2 <= 2,
{
}

pub fn all_bets(bets: &mut Vec<BetKind>)
    ensures
        views(final(bets)@) == views(old(bets)@) + family(),
{
    let ghost start = views(bets@);
    // red
    add_bet(bets, 1, vec![1, 3, 5, 7, 9, 12, 14, 16, 18, 19, 21, 23, 25, 27, 30, 32, 34, 36], 1);
    // black
    add_bet(bets, 2, vec![2, 4, 6, 8, 10, 11, 13, 15, 17, 20, 22, 24, 26, 28, 29, 31, 33, 35], 1);
    // odd
    add_bet(bets, 3, vec![1, 3, 5, 7, 9, 11, 13, 15, 17, 19, 21, 23, 25, 27, 29, 31, 33, 35], 1);
    // even
    add_bet(bets, 4, vec![2, 4, 6, 8, 10, 12, 14, 16, 18, 20, 22, 24, 26, 28, 30, 32, 34, 36], 1);
    // high
    add_bet(bets, 5, vec![19, 20, 21, 22, 23, 24, 25, 26, 27, 28, 29, 30, 31, 32, 33, 34, 35, 36], 1);
    // low
    add_bet(bets, 6, vec![1, 2, 3, 4, 5, 6, 7, 8, 9, 10, 11, 12, 13, 14, 15, 16, 17, 18], 1);
    // dozens
    add_bet(bets, 7, vec![1, 2, 3, 4, 5, 6, 7, 8, 9, 10, 11, 12], 2);
    add_bet(bets, 8, vec![13, 14, 15, 16, 17, 18, 19, 20, 21, 22, 23, 24], 2);
    add_bet(bets, 9, vec![25, 26, 27, 28, 29, 30, 31, 32, 33, 34, 35, 36], 2);
    // columns
    add_bet(bets, 10, vec![1, 4, 7, 10, 13, 16, 19, 22, 25, 28, 31, 34], 2);
    add_bet(bets, 11, vec![2, 5, 8, 11, 14, 17, 20, 23, 26, 29, 32, 35], 2);
    add_bet(bets, 12, vec![3, 6, 9, 12, 15, 18, 21, 24, 27, 30, 33, 36], 2);
    assert(views(bets@) =~= start + family());
}

} // verus!
