//! Fabulous Baccarat: ratios keyed to the winning total, the "Super Four"
//! bets and the fabulous pairs of the first two cards.
use vstd::prelude::*;
use crate::card::Card;
use crate::games::BetSerde;
use crate::payout::{keep, lemma_keep_contains, lemma_keep_step, lemma_winners_step, winners};
use super::common::{hand_result, Baccarat, Result};

verus! {

#[derive(Clone, Copy, Hash, PartialEq, Eq, Debug, Structural)]
pub enum Bets {
    Banker,
    Player,
    Tie,
    BankerFPair,
    PlayerFPair,
    BankerF4,
    PlayerF4,
}

/// Every bet of the game, in declaration order.
pub open spec fn catalog() -> Seq<Bets> {
    seq![
        Bets::Banker,
        Bets::Player,
        Bets::Tie,
        Bets::BankerFPair,
        Bets::PlayerFPair,
        Bets::BankerF4,
        Bets::PlayerF4,
    ]
}

pub open spec fn bet_id(b: Bets) -> u16 {
    match b {
        Bets::Banker => 1,
        Bets::Player => 2,
        Bets::Tie => 3,
        Bets::BankerFPair => 4,
        Bets::PlayerFPair => 5,
        Bets::BankerF4 => 6,
        Bets::PlayerF4 => 7,
    }
}

pub open spec fn bet_of_id(id: u16) -> Option<Bets> {
    match id {
        1 => Some(Bets::Banker),
        2 => Some(Bets::Player),
        3 => Some(Bets::Tie),
        4 => Some(Bets::BankerFPair),
        5 => Some(Bets::PlayerFPair),
        6 => Some(Bets::BankerF4),
        7 => Some(Bets::PlayerF4),
        _ => None,
    }
}

impl BetSerde for Bets {
    open spec fn is_bet(&self) -> bool {
        true
    }

    open spec fn wire_id(&self) -> u16 {
        bet_id(*self)
    }

    open spec fn decode(id: u16) -> Option<Bets> {
        bet_of_id(id)
    }

    fn to_u16(&self) -> (r: u16) {
        match *self {
            Bets::Banker => 1,
            Bets::Player => 2,
            Bets::Tie => 3,
            Bets::BankerFPair => 4,
            Bets::PlayerFPair => 5,
            Bets::BankerF4 => 6,
            Bets::PlayerF4 => 7,
        }
    }

    fn from_u16(id: u16) -> (r: Option<Bets>) {
        match id {
            1 => Some(Bets::Banker),
            2 => Some(Bets::Player),
            3 => Some(Bets::Tie),
            4 => Some(Bets::BankerFPair),
            5 => Some(Bets::PlayerFPair),
            6 => Some(Bets::BankerF4),
            7 => Some(Bets::PlayerF4),
            _ => None,
        }
    }

    proof fn lemma_round_trip(b: Bets) {
    }

    proof fn lemma_decode_is_bet(id: u16) {
    }
}

/// Every bet of the game.
pub fn all_bets() -> (r: Vec<Bets>)
    ensures
        r@ == catalog(),
{
    let r = vec![
        Bets::Banker,
        Bets::Player,
        Bets::Tie,
        Bets::BankerFPair,
        Bets::PlayerFPair,
        Bets::BankerF4,
        Bets::PlayerF4,
    ];
    assert(r@ =~= catalog());
    r
}

/// The tier a shoe is in after `hands` hands: up to 70, beyond.
pub open spec fn tier(hands: int) -> nat {
    if hands <= 70 {
        0
    } else {
        1
    }
}

/// The fabulous pairs are withdrawn after the first tier.
pub open spec fn offered_in_tier(t: nat, b: Bets) -> bool {
    match b {
        Bets::BankerFPair | Bets::PlayerFPair => t == 0,
        _ => true,
    }
}

/// The bets offered in a tier, in catalog order.
pub open spec fn tier_bets(t: nat) -> Seq<Bets> {
    keep(catalog(), |b: Bets| offered_in_tier(t, b))
}

fn is_offered(t: u8, b: Bets) -> (r: bool)
    ensures
        r == offered_in_tier(t as nat, b),
{
    match b {
        Bets::BankerFPair | Bets::PlayerFPair => t == 0,
        _ => true,
    }
}

fn bets_in_tier(t: u8) -> (r: Vec<Bets>)
    ensures
        r@ == tier_bets(t as nat),
{
    let all = all_bets();
    let ghost p = |b: Bets| offered_in_tier(t as nat, b);
    let mut r: Vec<Bets> = Vec::new();
    let mut i: usize = 0;
    while i < all.len()
        invariant
            i <= all.len(),
            all@ == catalog(),
            p == (|b: Bets| offered_in_tier(t as nat, b)),
            r@ == keep(all@.subrange(0, i as int), p),
        decreases all.len() - i,
    {
        proof {
            lemma_keep_step(all@, i as int, p);
        }
        if is_offered(t, all[i]) {
            r.push(all[i]);
        }
        i = i + 1;
    }
    assert(all@.subrange(0, all.len() as int) =~= all@);
    r
}

/// As the shoe goes on, bets are only withdrawn.
pub proof fn lemma_tiers_shrink(n1: int, n2: int, b: Bets)
    requires
        n1 <= n2,
        tier_bets(tier(n2)).contains(b),
    ensures
        tier_bets(tier(n1)).contains(b),
{
    lemma_keep_contains(catalog(), |x: Bets| offered_in_tier(tier(n2), x), b);
    lemma_keep_contains(catalog(), |x: Bets| offered_in_tier(tier(n1), x), b);
}

/// The bets offered as the shoe goes on.
pub struct FabulousBaccaratGame {
    all_bets: Vec<Bets>,
    bets_after70: Vec<Bets>,
}

impl FabulousBaccaratGame {
    #[verifier::type_invariant]
    spec fn tiers_inv(&self) -> bool {
        &&& self.all_bets@ == tier_bets(0)
        &&& self.bets_after70@ == tier_bets(1)
    }

    pub fn new() -> (g: FabulousBaccaratGame) {
        FabulousBaccaratGame { all_bets: bets_in_tier(0), bets_after70: bets_in_tier(1) }
    }

    /// The bets that may be placed once `hands` hands were dealt from the shoe.
    pub fn valid_bets(&self, hands: usize) -> (r: &Vec<Bets>)
        ensures
            r@ == tier_bets(tier(hands as int)),
    {
        proof {
            use_type_invariant(self);
        }
        if hands <= 70 {
            &self.all_bets
        } else {
            &self.bets_after70
        }
    }
}

/// Ratio of a bet decided by the outcome: a tie returns the Banker and Player
/// stakes; a win on four pays the Super Four bet (21 banker, 41 player) and
/// lowers the side bet (1 banker, 1.5 player); a win on one pays 3; any
/// other win pays 2.
pub open spec fn outcome_ratio(res: Result, b: Bets) -> Option<u32> {
    match b {
        Bets::Banker => match res {
            Result::Tie(_) => Some(100),
            Result::Banker(n) => Some(
                if n == 4 {
                    100
                } else if n == 1 {
                    300
                } else {
                    200
                },
            ),
            Result::Player(_) => None,
        },
        Bets::Player => match res {
            Result::Tie(_) => Some(100),
            Result::Player(n) => Some(
                if n == 4 {
                    150
                } else if n == 1 {
                    300
                } else {
                    200
                },
            ),
            Result::Banker(_) => None,
        },
        Bets::Tie => if res matches Result::Tie(_) {
            Some(900)
        } else {
            None
        },
        Bets::BankerF4 => if res == Result::Banker(4) {
            Some(2100)
        } else {
            None
        },
        Bets::PlayerF4 => if res == Result::Player(4) {
            Some(4100)
        } else {
            None
        },
        _ => None,
    }
}

/// Ratio of a fabulous pair: same rank and suit 8, same rank 5, same suit 2.
pub open spec fn pair_ratio(c1: Card, c2: Card) -> Option<u32> {
    if c1.rank == c2.rank && c1.suit == c2.suit {
        Some(800)
    } else if c1.rank == c2.rank {
        Some(500)
    } else if c1.suit == c2.suit {
        Some(200)
    } else {
        None
    }
}

/// Ratio of a bet on a complete hand.
pub open spec fn hand_ratio(h: (Seq<Card>, Seq<Card>), b: Bets) -> Option<u32> {
    match b {
        Bets::BankerFPair => pair_ratio(h.0[0], h.0[1]),
        Bets::PlayerFPair => pair_ratio(h.1[0], h.1[1]),
        _ => outcome_ratio(hand_result(h), b),
    }
}

fn result_ratio(res: Result, b: Bets) -> (r: Option<u32>)
    ensures
        r == outcome_ratio(res, b),
{
    match b {
        Bets::Banker => match res {
            Result::Tie(_) => Some(100),
            Result::Banker(n) => Some(
                if n == 4 {
                    100
                } else if n == 1 {
                    300
                } else {
                    200
                },
            ),
            Result::Player(_) => None,
        },
        Bets::Player => match res {
            Result::Tie(_) => Some(100),
            Result::Player(n) => Some(
                if n == 4 {
                    150
                } else if n == 1 {
                    300
                } else {
                    200
                },
            ),
            Result::Banker(_) => None,
        },
        Bets::Tie => match res {
            Result::Tie(_) => Some(900),
            _ => None,
        },
        Bets::BankerF4 => if res == Result::Banker(4) {
            Some(2100)
        } else {
            None
        },
        Bets::PlayerF4 => if res == Result::Player(4) {
            Some(4100)
        } else {
            None
        },
        _ => None,
    }
}

fn fabulous_pair(first2: (Card, Card)) -> (r: Option<u32>)
    ensures
        r == pair_ratio(first2.0, first2.1),
{
    let (c1, c2) = first2;
    let bsr = c1.is_same_rank(&c2);
    let bss = c1.is_same_suit(&c2);
    if bsr && bss {
        Some(800)
    } else if bsr {
        Some(500)
    } else if bss {
        Some(200)
    } else {
        None
    }
}

/// Payouts of the bets decided by the outcome alone, in catalog order.
pub fn result_payout_map(result: Result) -> (r: Vec<(Bets, u32)>)
    ensures
        r@ == winners(catalog(), |x: Bets| x, |x: Bets| outcome_ratio(result, x)),
{
    let all = all_bets();
    let ghost key = |b: Bets| b;
    let ghost pay = |b: Bets| outcome_ratio(result, b);
    let mut r: Vec<(Bets, u32)> = Vec::new();
    let mut i: usize = 0;
    while i < all.len()
        invariant
            i <= all.len(),
            all@ == catalog(),
            key == (|b: Bets| b),
            pay == (|b: Bets| outcome_ratio(result, b)),
            r@ == winners(all@.subrange(0, i as int), key, pay),
        decreases all.len() - i,
    {
        proof {
            lemma_winners_step(all@, i as int, key, pay);
        }
        let b = all[i];
        if let Some(x) = result_ratio(result, b) {
            r.push((b, x));
        }
        i = i + 1;
    }
    assert(all@.subrange(0, all.len() as int) =~= all@);
    r
}

/// Payouts of a hand, in catalog order.
pub fn payout_map(h: &Baccarat) -> (r: Vec<(Bets, u32)>)
    ensures
        r@ == winners(catalog(), |x: Bets| x, |x: Bets| hand_ratio(h@, x)),
{
    let res = h.result();
    let banker2 = h.banker_first2();
    let player2 = h.player_first2();
    let all = all_bets();
    let ghost key = |b: Bets| b;
    let ghost pay = |b: Bets| hand_ratio(h@, b);
    let mut r: Vec<(Bets, u32)> = Vec::new();
    let mut i: usize = 0;
    while i < all.len()
        invariant
            i <= all.len(),
            all@ == catalog(),
            key == (|b: Bets| b),
            pay == (|b: Bets| hand_ratio(h@, b)),
            res == hand_result(h@),
            banker2 == (h@.0[0], h@.0[1]),
            player2 == (h@.1[0], h@.1[1]),
            r@ == winners(all@.subrange(0, i as int), key, pay),
        decreases all.len() - i,
    {
        proof {
            lemma_winners_step(all@, i as int, key, pay);
        }
        let b = all[i];
        let ratio = match b {
            Bets::BankerFPair => fabulous_pair(banker2),
            Bets::PlayerFPair => fabulous_pair(player2),
            _ => result_ratio(res, b),
        };
        if let Some(x) = ratio {
            r.push((b, x));
        }
        i = i + 1;
    }
    assert(all@.subrange(0, all.len() as int) =~= all@);
    r
}

} // verus!
