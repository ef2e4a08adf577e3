//! Sevenup Baccarat: sevens pay more, and the Super7 bet counts the sevens
//! dealt on both sides.
use vstd::prelude::*;
use crate::card::Card;
use crate::games::BetSerde;
use crate::payout::{keep, lemma_keep_contains, lemma_keep_step, lemma_winners_step, winners};
use super::common::{count_value, hand_result, Baccarat, Result};

verus! {

#[derive(Clone, Copy, Hash, PartialEq, Eq, Debug, Structural)]
pub enum Bets {
    Banker,
    Player,
    Tie,
    Super7,
}

/// Every bet of the game, in declaration order.
pub open spec fn catalog() -> Seq<Bets> {
    seq![Bets::Banker, Bets::Player, Bets::Tie, Bets::Super7]
}

pub open spec fn bet_id(b: Bets) -> u16 {
    match b {
        Bets::Banker => 1,
        Bets::Player => 2,
        Bets::Tie => 3,
        Bets::Super7 => 4,
    }
}

pub open spec fn bet_of_id(id: u16) -> Option<Bets> {
    match id {
        1 => Some(Bets::Banker),
        2 => Some(Bets::Player),
        3 => Some(Bets::Tie),
        4 => Some(Bets::Super7),
        _ => None,
    }
}

impl BetSerde for Bets {
    open spec fn is_bet(&self) -> bool {
        true
    }

    open spec fn wire_id(&self) -> u16 {
        bet_id(*self)
    }

    open spec fn decode(id: u16) -> Option<Bets> {
        bet_of_id(id)
    }

    fn to_u16(&self) -> (r: u16) {
        match *self {
            Bets::Banker => 1,
            Bets::Player => 2,
            Bets::Tie => 3,
            Bets::Super7 => 4,
        }
    }

    fn from_u16(id: u16) -> (r: Option<Bets>) {
        match id {
            1 => Some(Bets::Banker),
            2 => Some(Bets::Player),
            3 => Some(Bets::Tie),
            4 => Some(Bets::Super7),
            _ => None,
        }
    }

    proof fn lemma_round_trip(b: Bets) {
    }

    proof fn lemma_decode_is_bet(id: u16) {
    }
}

/// Every bet of the game.
pub fn all_bets() -> (r: Vec<Bets>)
    ensures
        r@ == catalog(),
{
    let r = vec![Bets::Banker, Bets::Player, Bets::Tie, Bets::Super7];
    assert(r@ =~= catalog());
    r
}

/// The tier a shoe is in after `hands` hands: up to 40, beyond.
pub open spec fn tier(hands: int) -> nat {
    if hands <= 40 {
        0
    } else {
        1
    }
}

/// Super7 is withdrawn after the first tier.
pub open spec fn offered_in_tier(t: nat, b: Bets) -> bool {
    match b {
        Bets::Super7 => t == 0,
        _ => true,
    }
}

/// The bets offered in a tier, in catalog order.
pub open spec fn tier_bets(t: nat) -> Seq<Bets> {
    keep(catalog(), |b: Bets| offered_in_tier(t, b))
}

fn bets_in_tier(t: u8) -> (r: Vec<Bets>)
    ensures
        r@ == tier_bets(t as nat),
{
    let all = all_bets();
    let ghost p = |b: Bets| offered_in_tier(t as nat, b);
    let mut r: Vec<Bets> = Vec::new();
    let mut i: usize = 0;
    while i < all.len()
        invariant
            i <= all.len(),
            all@ == catalog(),
            p == (|b: Bets| offered_in_tier(t as nat, b)),
            r@ == keep(all@.subrange(0, i as int), p),
        decreases all.len() - i,
    {
        proof {
            lemma_keep_step(all@, i as int, p);
        }
        let b = all[i];
        let offered = match b {
            Bets::Super7 => t == 0,
            _ => true,
        };
        if offered {
            r.push(b);
        }
        i = i + 1;
    }
    assert(all@.subrange(0, all.len() as int) =~= all@);
    r
}

/// As the shoe goes on, bets are only withdrawn.
pub proof fn lemma_tiers_shrink(n1: int, n2: int, b: Bets)
    requires
        n1 <= n2,
        tier_bets(tier(n2)).contains(b),
    ensures
        tier_bets(tier(n1)).contains(b),
{
    lemma_keep_contains(catalog(), |x: Bets| offered_in_tier(tier(n2), x), b);
    lemma_keep_contains(catalog(), |x: Bets| offered_in_tier(tier(n1), x), b);
}

pub struct SevenupBaccaratGame;

/// The bets that may be placed once `hands` hands were dealt from the shoe.
pub fn valid_bets(hands: usize) -> (r: Vec<Bets>)
    ensures
        r@ == tier_bets(tier(hands as int)),
{
    if hands <= 40 {
        bets_in_tier(0)
    } else {
        bets_in_tier(1)
    }
}

/// Ratio of a bet decided by the outcome: a tie pays 10 on seven and 8
/// otherwise and returns the Banker and Player stakes; the banker pays 2.5
/// on seven, the player 1.5 on seven; other wins pay 2.
pub open spec fn outcome_ratio(res: Result, b: Bets) -> Option<u32> {
    match b {
        Bets::Banker => match res {
            Result::Tie(_) => Some(100),
            Result::Banker(n) => Some(
                if n == 7 {
                    250
                } else {
                    200
                },
            ),
            Result::Player(_) => None,
        },
        Bets::Player => match res {
            Result::Tie(_) => Some(100),
            Result::Player(n) => Some(
                if n == 7 {
                    150
                } else {
                    200
                },
            ),
            Result::Banker(_) => None,
        },
        Bets::Tie => match res {
            Result::Tie(n) => Some(
                if n == 7 {
                    1000
                } else {
                    800
                },
            ),
            _ => None,
        },
        Bets::Super7 => None,
    }
}

/// Ratio of Super7 by the number of sevens dealt.
pub open spec fn sevens_ratio(n7: nat) -> Option<u32> {
    if n7 == 6 {
        Some(77800)
    } else if n7 == 5 {
        Some(7800)
    } else if n7 == 4 {
        Some(1600)
    } else if n7 == 3 {
        Some(700)
    } else if n7 == 2 {
        Some(250)
    } else {
        None
    }
}

/// Ratio of a bet on a complete hand.
pub open spec fn hand_ratio(h: (Seq<Card>, Seq<Card>), b: Bets) -> Option<u32> {
    match b {
        Bets::Super7 => sevens_ratio(count_value(h.0, 7) + count_value(h.1, 7)),
        _ => outcome_ratio(hand_result(h), b),
    }
}

fn result_ratio(res: Result, b: Bets) -> (r: Option<u32>)
    ensures
        r == outcome_ratio(res, b),
{
    match b {
        Bets::Banker => match res {
            Result::Tie(_) => Some(100),
            Result::Banker(n) => Some(
                if n == 7 {
                    250
                } else {
                    200
                },
            ),
            Result::Player(_) => None,
        },
        Bets::Player => match res {
            Result::Tie(_) => Some(100),
            Result::Player(n) => Some(
                if n == 7 {
                    150
                } else {
                    200
                },
            ),
            Result::Banker(_) => None,
        },
        Bets::Tie => match res {
            Result::Tie(n) => Some(
                if n == 7 {
                    1000
                } else {
                    800
                },
            ),
            _ => None,
        },
        Bets::Super7 => None,
    }
}

/// Ratio of Super7 when `n7` sevens were dealt.
pub fn ratio7(n7: usize) -> (r: Option<u32>)
    ensures
        r == sevens_ratio(n7 as nat),
{
    match n7 {
        6 => Some(77800),
        5 => Some(7800),
        4 => Some(1600),
        3 => Some(700),
        2 => Some(250),
        _ => None,
    }
}

/// Payouts of the bets decided by the outcome alone, in catalog order.
pub fn result_payout_map(result: Result) -> (r: Vec<(Bets, u32)>)
    ensures
        r@ == winners(catalog(), |x: Bets| x, |x: Bets| outcome_ratio(result, x)),
{
    let all = all_bets();
    let ghost key = |b: Bets| b;
    let ghost pay = |b: Bets| outcome_ratio(result, b);
    let mut r: Vec<(Bets, u32)> = Vec::new();
    let mut i: usize = 0;
    while i < all.len()
        invariant
            i <= all.len(),
            all@ == catalog(),
            key == (|b: Bets| b),
            pay == (|b: Bets| outcome_ratio(result, b)),
            r@ == winners(all@.subrange(0, i as int), key, pay),
        decreases all.len() - i,
    {
        proof {
            lemma_winners_step(all@, i as int, key, pay);
        }
        let b = all[i];
        if let Some(x) = result_ratio(result, b) {
            r.push((b, x));
        }
        i = i + 1;
    }
    assert(all@.subrange(0, all.len() as int) =~= all@);
    r
}

/// Payouts of a hand, in catalog order.
pub fn payout_map(h: &Baccarat) -> (r: Vec<(Bets, u32)>)
    ensures
        r@ == winners(catalog(), |x: Bets| x, |x: Bets| hand_ratio(h@, x)),
{
    let res = h.result();
    let n7 = h.count_cards(7);
    let all = all_bets();
    let ghost key = |b: Bets| b;
    let ghost pay = |b: Bets| hand_ratio(h@, b);
    let mut r: Vec<(Bets, u32)> = Vec::new();
    let mut i: usize = 0;
    while i < all.len()
        invariant
            i <= all.len(),
            all@ == catalog(),
            key == (|b: Bets| b),
            pay == (|b: Bets| hand_ratio(h@, b)),
            res == hand_result(h@),
            n7 == count_value(h@.0, 7) + count_value(h@.1, 7),
            r@ == winners(all@.subrange(0, i as int), key, pay),
        decreases all.len() - i,
    {
        proof {
            lemma_winners_step(all@, i as int, key, pay);
        }
        let b = all[i];
        let ratio = match b {
            Bets::Super7 => ratio7(n7),
            _ => result_ratio(res, b),
        };
        if let Some(x) = ratio {
            r.push((b, x));
        }
        i = i + 1;
    }
    assert(all@.subrange(0, all.len() as int) =~= all@);
    r
}

} // verus!
