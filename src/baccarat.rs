//! Baccarat: card values, the dealing state machine, the finalized hand and
//! the payout rules of each variant.
use vstd::prelude::*;
use crate::card::{Card, Rank};

pub mod dealer;
pub mod common;
pub mod classical_baccarat;
pub mod commission_baccarat;
pub mod noncommission_baccarat;
pub mod fabulous_baccarat;
pub mod sevenup_baccarat;
pub mod lucky_baccarat;

verus! {

/// Baccarat value of a rank: Ace..Nine count 1..9, tens and faces count 0.
pub open spec fn rank_value(r: Rank) -> nat {
    match r {
        Rank::Ace => 1,
        Rank::Two => 2,
        Rank::Three => 3,
        Rank::Four => 4,
        Rank::Five => 5,
        Rank::Six => 6,
        Rank::Seven => 7,
        Rank::Eight => 8,
        Rank::Nine => 9,
        _ => 0,
    }
}

/// Sum of the Baccarat values of a hand.
pub open spec fn hand_sum(cards: Seq<Card>) -> nat
    decreases cards.len(),
{
    if cards.len() == 0 {
        0
    } else {
        hand_sum(cards.drop_last()) + rank_value(cards.last().rank)
    }
}

/// Points of a hand: its sum modulo ten.
pub open spec fn hand_points(cards: Seq<Card>) -> nat {
    hand_sum(cards) % 10
}

pub fn value_of_card(card: &Card) -> (v: u8)
    ensures
        v as nat == rank_value(card.rank),
        v <= 9,
{
    match card.rank {
        Rank::Ace => 1,
        Rank::Two => 2,
        Rank::Three => 3,
        Rank::Four => 4,
        Rank::Five => 5,
        Rank::Six => 6,
        Rank::Seven => 7,
        Rank::Eight => 8,
        Rank::Nine => 9,
        Rank::Ten => 0,
        Rank::Jack => 0,
        Rank::Queen => 0,
        Rank::King => 0,
    }
}

/// Points of a hand, between 0 and 9.
pub fn total_points(cards: &Vec<Card>) -> (t: u8)
    ensures
        t as nat == hand_points(cards@),
        t <= 9,
{
    let mut acc: u8 = 0;
    let mut i: usize = 0;
    while i < cards.len()
        invariant
            i <= cards.len(),
            acc < 10,
            acc as nat == hand_sum(cards@.subrange(0, i as int)) % 10,
        decreases cards.len() - i,
    {
        let v = value_of_card(&cards[i]);
        proof {
            let pre = cards@.subrange(0, i as int);
            let next = cards@.subrange(0, i + 1);
            assert(next.drop_last() =~= pre);
            assert(hand_sum(next) == hand_sum(pre) + v);
            vstd::arithmetic::div_mod::lemma_add_mod_noop(hand_sum(pre) as int, v as int, 10);
            vstd::arithmetic::div_mod::lemma_small_mod((v as nat) % 10, 10);
        }
        acc = (acc + v) % 10;
        i = i + 1;
    }
    assert(cards@.subrange(0, cards.len() as int) =~= cards@);
    acc
}

} // verus!
