//! Dragon Tiger: one card each for Dragon and Tiger, compared by rank
//! (Ace low, King high), with odd/even side bets on each card.
use vstd::prelude::*;
use crate::card::{Card, Rank};
use crate::payout::{keep, lemma_keep_contains, lemma_keep_step, lemma_winners_step, winners};

verus! {

#[derive(Clone, Copy, Hash, PartialEq, Eq, Debug, Structural)]
pub enum Bets {
    Dragon,
    Tiger,
    Tie,
    DragonOdd,
    DragonEven,
    TigerOdd,
    TigerEven,
}

/// Every bet of the game, in declaration order.
pub open spec fn catalog() -> Seq<Bets> {
    seq![
        Bets::Dragon,
        Bets::Tiger,
        Bets::Tie,
        Bets::DragonOdd,
        Bets::DragonEven,
        Bets::TigerOdd,
        Bets::TigerEven,
    ]
}

/// Every bet of the game.
pub fn all_bets() -> (r: Vec<Bets>)
    ensures
        r@ == catalog(),
{
    let r = vec![
        Bets::Dragon,
        Bets::Tiger,
        Bets::Tie,
        Bets::DragonOdd,
        Bets::DragonEven,
        Bets::TigerOdd,
        Bets::TigerEven,
    ];
    assert(r@ =~= catalog());
    r
}

/// The tier a shoe is in after `hands` hands: up to 60, beyond.
pub open spec fn tier(hands: int) -> nat {
    if hands <= 60 {
        0
    } else {
        1
    }
}

/// The odd/even bets are withdrawn after the first tier.
pub open spec fn offered_in_tier(t: nat, b: Bets) -> bool {
    match b {
        Bets::Dragon | Bets::Tiger | Bets::Tie => true,
        _ => t == 0,
    }
}

/// The bets offered in a tier, in catalog order.
pub open spec fn tier_bets(t: nat) -> Seq<Bets> {
    keep(catalog(), |b: Bets| offered_in_tier(t, b))
}

fn bets_in_tier(t: u8) -> (r: Vec<Bets>)
    ensures
        r@ == tier_bets(t as nat),
{
    let all = all_bets();
    let ghost p = |b: Bets| offered_in_tier(t as nat, b);
    let mut r: Vec<Bets> = Vec::new();
    let mut i: usize = 0;
    while i < all.len()
        invariant
            i <= all.len(),
            all@ == catalog(),
            p == (|b: Bets| offered_in_tier(t as nat, b)),
            r@ == keep(all@.subrange(0, i as int), p),
        decreases all.len() - i,
    {
        proof {
            lemma_keep_step(all@, i as int, p);
        }
        let b = all[i];
        let offered = match b {
            Bets::Dragon | Bets::Tiger | Bets::Tie => true,
            _ => t == 0,
        };
        if offered {
            r.push(b);
        }
        i = i + 1;
    }
    assert(all@.subrange(0, all.len() as int) =~= all@);
    r
}

/// As the shoe goes on, bets are only withdrawn.
pub proof fn lemma_tiers_shrink(n1: int, n2: int, b: Bets)
    requires
        n1 <= n2,
        tier_bets(tier(n2)).contains(b),
    ensures
        tier_bets(tier(n1)).contains(b),
{
    lemma_keep_contains(catalog(), |x: Bets| offered_in_tier(tier(n2), x), b);
    lemma_keep_contains(catalog(), |x: Bets| offered_in_tier(tier(n1), x), b);
}

/// The bets offered as the shoe goes on.
pub struct DragonTigerGame {
    all_bets: Vec<Bets>,
    bets_after60: Vec<Bets>,
}

impl DragonTigerGame {
    #[verifier::type_invariant]
    spec fn tiers_inv(&self) -> bool {
        &&& self.all_bets@ == tier_bets(0)
        &&& self.bets_after60@ == tier_bets(1)
    }

    /// The bets that may be placed once `hands` hands were dealt from the shoe.
    pub fn valid_bets(&self, hands: u8) -> (r: &Vec<Bets>)
        ensures
            r@ == tier_bets(tier(hands as int)),
    {
        proof {
            use_type_invariant(self);
        }
        if hands <= 60 {
            &self.all_bets
        } else {
            &self.bets_after60
        }
    }

    pub fn new() -> (g: DragonTigerGame) {
        DragonTigerGame { all_bets: bets_in_tier(0), bets_after60: bets_in_tier(1) }
    }
}

/// Dragon Tiger value of a rank: Ace 1 up to King 13.
pub open spec fn rank_value(r: Rank) -> nat {
    match r {
        Rank::Ace => 1,
        Rank::Two => 2,
        Rank::Three => 3,
        Rank::Four => 4,
        Rank::Five => 5,
        Rank::Six => 6,
        Rank::Seven => 7,
        Rank::Eight => 8,
        Rank::Nine => 9,
        Rank::Ten => 10,
        Rank::Jack => 11,
        Rank::Queen => 12,
        Rank::King => 13,
    }
}

pub fn value_of_card(card: &Card) -> (v: u8)
    ensures
        v as nat == rank_value(card.rank),
        1 <= v <= 13,
{
    match card.rank {
        Rank::Ace => 1,
        Rank::Two => 2,
        Rank::Three => 3,
        Rank::Four => 4,
        Rank::Five => 5,
        Rank::Six => 6,
        Rank::Seven => 7,
        Rank::Eight => 8,
        Rank::Nine => 9,
        Rank::Ten => 10,
        Rank::Jack => 11,
        Rank::Queen => 12,
        Rank::King => 13,
    }
}

/// The side that wins a round.
#[derive(Clone, Copy, PartialEq, Eq, Debug, Structural)]
pub enum Result {
    Dragon,
    Tiger,
    Tie,
}

/// Parity of a card value for the odd/even bets; a seven is neither.
#[derive(Clone, Copy, PartialEq, Eq, Debug, Structural)]
pub enum Parity {
    Odd,
    Even,
    Void,
}

pub open spec fn parity_of(n: nat) -> Parity {
    if n % 2 == 0 {
        Parity::Even
    } else if n == 7 {
        Parity::Void
    } else {
        Parity::Odd
    }
}

pub fn parity(t: u8) -> (p: Parity)
    ensures
        p == parity_of(t as nat),
{
    if t % 2 == 0 {
        Parity::Even
    } else {
        if t == 7 {
            Parity::Void
        } else {
            Parity::Odd
        }
    }
}

/// One round: the Dragon's card and the Tiger's card.
#[derive(Debug)]
pub struct DragonTiger {
    dragon_card: Card,
    tiger_card: Card,
}

/// The winner of a round whose Dragon card is worth `d` and Tiger card `t`.
pub open spec fn winner_of(d: nat, t: nat) -> Result {
    if d > t {
        Result::Dragon
    } else if d < t {
        Result::Tiger
    } else {
        Result::Tie
    }
}

/// Ratio of a bet on a round: the winning side pays 2; a tie pays 9 and
/// returns the Dragon and Tiger stakes; an odd or even card pays 2 on its
/// parity bet, and a seven on neither.
pub open spec fn round_ratio(dragon: Card, tiger: Card, b: Bets) -> Option<u32> {
    value_ratio(rank_value(dragon.rank), rank_value(tiger.rank), b)
}

impl DragonTiger {
    pub fn new(dragon_card: Card, tiger_card: Card) -> (r: DragonTiger)
        ensures
            r.dragon() == dragon_card,
            r.tiger() == tiger_card,
    {
        DragonTiger { dragon_card, tiger_card }
    }

    pub closed spec fn dragon(&self) -> Card {
        self.dragon_card
    }

    pub closed spec fn tiger(&self) -> Card {
        self.tiger_card
    }

    /// The winner, with the values of the Dragon card and the Tiger card.
    pub fn result(&self) -> (r: (Result, u8, u8))
        ensures
            r.1 as nat == rank_value(self.dragon().rank),
            r.2 as nat == rank_value(self.tiger().rank),
            r.0 == winner_of(r.1 as nat, r.2 as nat),
    {
        let d = value_of_card(&self.dragon_card);
        let t = value_of_card(&self.tiger_card);
        let r = if d > t {
            Result::Dragon
        } else if d < t {
            Result::Tiger
        } else {
            Result::Tie
        };
        (r, d, t)
    }
}

fn bet_ratio(r: Result, d: u8, t: u8, b: Bets) -> (ratio: Option<u32>)
    requires
        r == winner_of(d as nat, t as nat),
    ensures
        ratio == value_ratio(d as nat, t as nat, b),
{
    match b {
        Bets::Dragon => match r {
            Result::Dragon => Some(200),
            Result::Tie => Some(100),
            Result::Tiger => None,
        },
        Bets::Tiger => match r {
            Result::Tiger => Some(200),
            Result::Tie => Some(100),
            Result::Dragon => None,
        },
        Bets::Tie => match r {
            Result::Tie => Some(900),
            _ => None,
        },
        Bets::DragonOdd => match parity(d) {
            Parity::Odd => Some(200),
            _ => None,
        },
        Bets::DragonEven => match parity(d) {
            Parity::Even => Some(200),
            _ => None,
        },
        Bets::TigerOdd => match parity(t) {
            Parity::Odd => Some(200),
            _ => None,
        },
        Bets::TigerEven => match parity(t) {
            Parity::Even => Some(200),
            _ => None,
        },
    }
}

/// Ratio of a bet on a round whose Dragon card is worth `d` and Tiger card `t`.
pub open spec fn value_ratio(d: nat, t: nat, b: Bets) -> Option<u32> {
    match b {
        Bets::Dragon => match winner_of(d, t) {
            Result::Dragon => Some(200),
            Result::Tie => Some(100),
            Result::Tiger => None,
        },
        Bets::Tiger => match winner_of(d, t) {
            Result::Tiger => Some(200),
            Result::Tie => Some(100),
            Result::Dragon => None,
        },
        Bets::Tie => if winner_of(d, t) == Result::Tie {
            Some(900)
        } else {
            None
        },
        Bets::DragonOdd => if parity_of(d) == Parity::Odd {
            Some(200)
        } else {
            None
        },
        Bets::DragonEven => if parity_of(d) == Parity::Even {
            Some(200)
        } else {
            None
        },
        Bets::TigerOdd => if parity_of(t) == Parity::Odd {
            Some(200)
        } else {
            None
        },
        Bets::TigerEven => if parity_of(t) == Parity::Even {
            Some(200)
        } else {
            None
        },
    }
}

/// Payouts of a round, in catalog order.
pub fn payout_map(b: &DragonTiger) -> (r: Vec<(Bets, u32)>)
    ensures
        r@ == winners(
            catalog(),
            |x: Bets| x,
            |x: Bets| round_ratio(b.dragon(), b.tiger(), x),
        ),
{
    let (res, d, t) = b.result();
    let all = all_bets();
    let ghost key = |x: Bets| x;
    let ghost pay = |x: Bets| round_ratio(b.dragon(), b.tiger(), x);
    let mut r: Vec<(Bets, u32)> = Vec::new();
    let mut i: usize = 0;
    while i < all.len()
        invariant
            i <= all.len(),
            all@ == catalog(),
            key == (|x: Bets| x),
            pay == (|x: Bets| round_ratio(b.dragon(), b.tiger(), x)),
            d as nat == rank_value(b.dragon().rank),
            t as nat == rank_value(b.tiger().rank),
            res == winner_of(d as nat, t as nat),
            r@ == winners(all@.subrange(0, i as int), key, pay),
        decreases all.len() - i,
    {
        proof {
            lemma_winners_step(all@, i as int, key, pay);
        }
        let x = all[i];
        if let Some(v) = bet_ratio(res, d, t, x) {
            r.push((x, v));
        }
        i = i + 1;
    }
    assert(all@.subrange(0, all.len() as int) =~= all@);
    r
}

} // verus!
