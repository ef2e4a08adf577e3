//! Lucky Baccarat: colour and lucky-pair side bets on the first two cards of
//! each side, Lucky6, and bets on the band of the winning total.
use vstd::prelude::*;
use crate::card::{suit_is_red, Card, Rank, Suit};
use crate::games::BetSerde;
use crate::payout::{keep, lemma_keep_contains, lemma_keep_step, lemma_winners_step, winners};
use super::common::{hand_result, result_points, Baccarat, Result};

verus! {

#[derive(Clone, Copy, Hash, PartialEq, Eq, Debug, Structural)]
pub enum Bets {
    Banker,
    Player,
    Tie,
    BankerBlack,
    BankerRed,
    BankerLuckyPair,
    PlayerBlack,
    PlayerRed,
    PlayerLuckyPair,
    Lucky6,
    BankerWinsOn123,
    BankerWinsOn456,
    BankerWinsOn789,
    PlayerWinsOn123,
    PlayerWinsOn456,
    PlayerWinsOn789,
    TieOn0123,
    TieOn456,
    TieOn789,
}

/// Every bet of the game, in declaration order.
pub open spec fn catalog() -> Seq<Bets> {
    seq![
        Bets::Banker,
        Bets::Player,
        Bets::Tie,
        Bets::BankerBlack,
        Bets::BankerRed,
        Bets::BankerLuckyPair,
        Bets::PlayerBlack,
        Bets::PlayerRed,
        Bets::PlayerLuckyPair,
        Bets::Lucky6,
        Bets::BankerWinsOn123,
        Bets::BankerWinsOn456,
        Bets::BankerWinsOn789,
        Bets::PlayerWinsOn123,
        Bets::PlayerWinsOn456,
        Bets::PlayerWinsOn789,
        Bets::TieOn0123,
        Bets::TieOn456,
        Bets::TieOn789,
    ]
}

pub open spec fn bet_id(b: Bets) -> u16 {
    match b {
        Bets::Banker => 1,
        Bets::Player => 2,
        Bets::Tie => 3,
        Bets::BankerBlack => 4,
        Bets::BankerRed => 5,
        Bets::BankerLuckyPair => 6,
        Bets::PlayerBlack => 7,
        Bets::PlayerRed => 8,
        Bets::PlayerLuckyPair => 9,
        Bets::Lucky6 => 10,
        Bets::BankerWinsOn123 => 11,
        Bets::BankerWinsOn456 => 12,
        Bets::BankerWinsOn789 => 13,
        Bets::PlayerWinsOn123 => 14,
        Bets::PlayerWinsOn456 => 15,
        Bets::PlayerWinsOn789 => 16,
        Bets::TieOn0123 => 17,
        Bets::TieOn456 => 18,
        Bets::TieOn789 => 19,
    }
}

pub open spec fn bet_of_id(id: u16) -> Option<Bets> {
    match id {
        1 => Some(Bets::Banker),
        2 => Some(Bets::Player),
        3 => Some(Bets::Tie),
        4 => Some(Bets::BankerBlack),
        5 => Some(Bets::BankerRed),
        6 => Some(Bets::BankerLuckyPair),
        7 => Some(Bets::PlayerBlack),
        8 => Some(Bets::PlayerRed),
        9 => Some(Bets::PlayerLuckyPair),
        10 => Some(Bets::Lucky6),
        11 => Some(Bets::BankerWinsOn123),
        12 => Some(Bets::BankerWinsOn456),
        13 => Some(Bets::BankerWinsOn789),
        14 => Some(Bets::PlayerWinsOn123),
        15 => Some(Bets::PlayerWinsOn456),
        16 => Some(Bets::PlayerWinsOn789),
        17 => Some(Bets::TieOn0123),
        18 => Some(Bets::TieOn456),
        19 => Some(Bets::TieOn789),
        _ => None,
    }
}

impl BetSerde for Bets {
    open spec fn is_bet(&self) -> bool {
        true
    }

    open spec fn wire_id(&self) -> u16 {
        bet_id(*self)
    }

    open spec fn decode(id: u16) -> Option<Bets> {
        bet_of_id(id)
    }

    fn to_u16(&self) -> (r: u16) {
        match *self {
            Bets::Banker => 1,
            Bets::Player => 2,
            Bets::Tie => 3,
            Bets::BankerBlack => 4,
            Bets::BankerRed => 5,
            Bets::BankerLuckyPair => 6,
            Bets::PlayerBlack => 7,
            Bets::PlayerRed => 8,
            Bets::PlayerLuckyPair => 9,
            Bets::Lucky6 => 10,
            Bets::BankerWinsOn123 => 11,
            Bets::BankerWinsOn456 => 12,
            Bets::BankerWinsOn789 => 13,
            Bets::PlayerWinsOn123 => 14,
            Bets::PlayerWinsOn456 => 15,
            Bets::PlayerWinsOn789 => 16,
            Bets::TieOn0123 => 17,
            Bets::TieOn456 => 18,
            Bets::TieOn789 => 19,
        }
    }

    fn from_u16(id: u16) -> (r: Option<Bets>) {
        match id {
            1 => Some(Bets::Banker),
            2 => Some(Bets::Player),
            3 => Some(Bets::Tie),
            4 => Some(Bets::BankerBlack),
            5 => Some(Bets::BankerRed),
            6 => Some(Bets::BankerLuckyPair),
            7 => Some(Bets::PlayerBlack),
            8 => Some(Bets::PlayerRed),
            9 => Some(Bets::PlayerLuckyPair),
            10 => Some(Bets::Lucky6),
            11 => Some(Bets::BankerWinsOn123),
            12 => Some(Bets::BankerWinsOn456),
            13 => Some(Bets::BankerWinsOn789),
            14 => Some(Bets::PlayerWinsOn123),
            15 => Some(Bets::PlayerWinsOn456),
            16 => Some(Bets::PlayerWinsOn789),
            17 => Some(Bets::TieOn0123),
            18 => Some(Bets::TieOn456),
            19 => Some(Bets::TieOn789),
            _ => None,
        }
    }

    proof fn lemma_round_trip(b: Bets) {
    }

    proof fn lemma_decode_is_bet(id: u16) {
    }
}

/// Every bet of the game.
pub fn all_bets() -> (r: Vec<Bets>)
    ensures
        r@ == catalog(),
{
    let r = vec![
        Bets::Banker,
        Bets::Player,
        Bets::Tie,
        Bets::BankerBlack,
        Bets::BankerRed,
        Bets::BankerLuckyPair,
        Bets::PlayerBlack,
        Bets::PlayerRed,
        Bets::PlayerLuckyPair,
        Bets::Lucky6,
        Bets::BankerWinsOn123,
        Bets::BankerWinsOn456,
        Bets::BankerWinsOn789,
        Bets::PlayerWinsOn123,
        Bets::PlayerWinsOn456,
        Bets::PlayerWinsOn789,
        Bets::TieOn0123,
        Bets::TieOn456,
        Bets::TieOn789,
    ];
    assert(r@ =~= catalog());
    r
}

/// The tier a shoe is in after `hands` hands: up to 40, up to 60, beyond.
pub open spec fn tier(hands: int) -> nat {
    if hands <= 40 {
        0
    } else if hands <= 60 {
        1
    } else {
        2
    }
}

/// Lucky6 and the bets on the band of the total go after the first tier; the
/// colour and lucky-pair bets after the second.
pub open spec fn offered_in_tier(t: nat, b: Bets) -> bool {
    match b {
        Bets::Banker | Bets::Player | Bets::Tie => true,
        Bets::BankerBlack | Bets::BankerRed | Bets::BankerLuckyPair | Bets::PlayerBlack
        | Bets::PlayerRed | Bets::PlayerLuckyPair => t <= 1,
        _ => t == 0,
    }
}

/// The bets offered in a tier, in catalog order.
pub open spec fn tier_bets(t: nat) -> Seq<Bets> {
    keep(catalog(), |b: Bets| offered_in_tier(t, b))
}

fn bets_in_tier(t: u8) -> (r: Vec<Bets>)
    ensures
        r@ == tier_bets(t as nat),
{
    let all = all_bets();
    let ghost p = |b: Bets| offered_in_tier(t as nat, b);
    let mut r: Vec<Bets> = Vec::new();
    let mut i: usize = 0;
    while i < all.len()
        invariant
            i <= all.len(),
            all@ == catalog(),
            p == (|b: Bets| offered_in_tier(t as nat, b)),
            r@ == keep(all@.subrange(0, i as int), p),
        decreases all.len() - i,
    {
        proof {
            lemma_keep_step(all@, i as int, p);
        }
        let b = all[i];
        let offered = match b {
            Bets::Banker | Bets::Player | Bets::Tie => true,
            Bets::BankerBlack | Bets::BankerRed | Bets::BankerLuckyPair | Bets::PlayerBlack
            | Bets::PlayerRed | Bets::PlayerLuckyPair => t <= 1,
            _ => t == 0,
        };
        if offered {
            r.push(b);
        }
        i = i + 1;
    }
    assert(all@.subrange(0, all.len() as int) =~= all@);
    r
}

/// The bets offered after the 40th hand of a shoe.
pub fn bets_after40() -> (r: Vec<Bets>)
    ensures
        r@ == tier_bets(1),
{
    bets_in_tier(1)
}

/// The bets offered after the 60th hand of a shoe.
pub fn bets_after60() -> (r: Vec<Bets>)
    ensures
        r@ == tier_bets(2),
{
    bets_in_tier(2)
}

/// As the shoe goes on, bets are only withdrawn.
pub proof fn lemma_tiers_shrink(n1: int, n2: int, b: Bets)
    requires
        n1 <= n2,
        tier_bets(tier(n2)).contains(b),
    ensures
        tier_bets(tier(n1)).contains(b),
{
    lemma_keep_contains(catalog(), |x: Bets| offered_in_tier(tier(n2), x), b);
    lemma_keep_contains(catalog(), |x: Bets| offered_in_tier(tier(n1), x), b);
}

/// The bets offered as the shoe goes on.
pub struct LuckyBaccarat {
    all_bets: Vec<Bets>,
    bets_after40: Vec<Bets>,
    bets_after60: Vec<Bets>,
}

impl LuckyBaccarat {
    #[verifier::type_invariant]
    spec fn tiers_inv(&self) -> bool {
        &&& self.all_bets@ == tier_bets(0)
        &&& self.bets_after40@ == tier_bets(1)
        &&& self.bets_after60@ == tier_bets(2)
    }

    pub fn new() -> (g: LuckyBaccarat) {
        LuckyBaccarat {
            all_bets: bets_in_tier(0),
            bets_after40: bets_in_tier(1),
            bets_after60: bets_in_tier(2),
        }
    }

    /// The bets that may be placed once `hands` hands were dealt from the shoe.
    pub fn valid_bets(&self, hands: usize) -> (r: &Vec<Bets>)
        ensures
            r@ == tier_bets(tier(hands as int)),
    {
        proof {
            use_type_invariant(self);
        }
        if hands <= 40 {
            &self.all_bets
        } else if hands <= 60 {
            &self.bets_after40
        } else {
            &self.bets_after60
        }
    }
}

/// The band bet that an outcome wins, with its ratio: a banker win on 1-3
/// pays 32, on 4-6 pays 7, else 3; a player win on 1-3 pays 32, on 4-6
/// pays 9, else 3; a tie on 0-3 pays 46, on 4-6 pays 25, else 20.
pub open spec fn band_bet(res: Result) -> (Bets, u32) {
    match res {
        Result::Banker(n) => if 1 <= n <= 3 {
            (Bets::BankerWinsOn123, 3200)
        } else if 4 <= n <= 6 {
            (Bets::BankerWinsOn456, 700)
        } else {
            (Bets::BankerWinsOn789, 300)
        },
        Result::Player(n) => if 1 <= n <= 3 {
            (Bets::PlayerWinsOn123, 3200)
        } else if 4 <= n <= 6 {
            (Bets::PlayerWinsOn456, 900)
        } else {
            (Bets::PlayerWinsOn789, 300)
        },
        Result::Tie(n) => if n <= 3 {
            (Bets::TieOn0123, 4600)
        } else if 4 <= n <= 6 {
            (Bets::TieOn456, 2500)
        } else {
            (Bets::TieOn789, 2000)
        },
    }
}

/// Ratio of a bet decided by the outcome: Lucky6 pays 7 on any six; a tie
/// pays 9 and returns the Banker and Player stakes; the banker pays 1.5 on
/// six and 2 otherwise; the player pays 2; the band bet won pays its ratio.
pub open spec fn outcome_ratio(res: Result, b: Bets) -> Option<u32> {
    match b {
        Bets::Lucky6 => if result_points(res) == 6 {
            Some(700)
        } else {
            None
        },
        Bets::Banker => match res {
            Result::Tie(_) => Some(100),
            Result::Banker(n) => Some(
                if n == 6 {
                    150
                } else {
                    200
                },
            ),
            Result::Player(_) => None,
        },
        Bets::Player => match res {
            Result::Tie(_) => Some(100),
            Result::Player(_) => Some(200),
            Result::Banker(_) => None,
        },
        Bets::Tie => if res matches Result::Tie(_) {
            Some(900)
        } else {
            None
        },
        Bets::BankerWinsOn123 | Bets::BankerWinsOn456 | Bets::BankerWinsOn789
        | Bets::PlayerWinsOn123 | Bets::PlayerWinsOn456 | Bets::PlayerWinsOn789
        | Bets::TieOn0123 | Bets::TieOn456 | Bets::TieOn789 => if band_bet(res).0 == b {
            Some(band_bet(res).1)
        } else {
            None
        },
        _ => None,
    }
}

/// Ratio of a lucky pair (same rank): two fours of diamonds 31, two fours
/// 16, two diamonds 13, any other pair 10.
pub open spec fn lucky_pair_ratio(c1: Card, c2: Card) -> Option<u32> {
    if c1.rank == c2.rank {
        let is_diamond = c1.suit == Suit::Diamond && c1.suit == c2.suit;
        let is_four = c1.rank == Rank::Four;
        if is_diamond && is_four {
            Some(3100)
        } else if is_four {
            Some(1600)
        } else if is_diamond {
            Some(1300)
        } else {
            Some(1000)
        }
    } else {
        None
    }
}

/// Ratio of a colour bet: both cards black, or both red, pay 3.
pub open spec fn colour_ratio(c1: Card, c2: Card, red: bool) -> Option<u32> {
    if suit_is_red(c1.suit) == red && suit_is_red(c2.suit) == red {
        Some(300)
    } else {
        None
    }
}

/// Ratio of a bet on a complete hand.
pub open spec fn hand_ratio(h: (Seq<Card>, Seq<Card>), b: Bets) -> Option<u32> {
    match b {
        Bets::BankerBlack => colour_ratio(h.0[0], h.0[1], false),
        Bets::BankerRed => colour_ratio(h.0[0], h.0[1], true),
        Bets::BankerLuckyPair => lucky_pair_ratio(h.0[0], h.0[1]),
        Bets::PlayerBlack => colour_ratio(h.1[0], h.1[1], false),
        Bets::PlayerRed => colour_ratio(h.1[0], h.1[1], true),
        Bets::PlayerLuckyPair => lucky_pair_ratio(h.1[0], h.1[1]),
        _ => outcome_ratio(hand_result(h), b),
    }
}

/// The band bet that an outcome wins, with its ratio.
pub fn wins_on(result: Result) -> (r: (Bets, u32))
    ensures
        r == band_bet(result),
{
    match result {
        Result::Banker(n) => if 1 <= n && n <= 3 {
            (Bets::BankerWinsOn123, 3200)
        } else if 4 <= n && n <= 6 {
            (Bets::BankerWinsOn456, 700)
        } else {
            (Bets::BankerWinsOn789, 300)
        },
        Result::Player(n) => if 1 <= n && n <= 3 {
            (Bets::PlayerWinsOn123, 3200)
        } else if 4 <= n && n <= 6 {
            (Bets::PlayerWinsOn456, 900)
        } else {
            (Bets::PlayerWinsOn789, 300)
        },
        Result::Tie(n) => if n <= 3 {
            (Bets::TieOn0123, 4600)
        } else if 4 <= n && n <= 6 {
            (Bets::TieOn456, 2500)
        } else {
            (Bets::TieOn789, 2000)
        },
    }
}

fn result_ratio(res: Result, b: Bets) -> (r: Option<u32>)
    ensures
        r == outcome_ratio(res, b),
{
    match b {
        Bets::Lucky6 => if res.total_points() == 6 {
            Some(700)
        } else {
            None
        },
        Bets::Banker => match res {
            Result::Tie(_) => Some(100),
            Result::Banker(n) => Some(
                if n == 6 {
                    150
                } else {
                    200
                },
            ),
            Result::Player(_) => None,
        },
        Bets::Player => match res {
            Result::Tie(_) => Some(100),
            Result::Player(_) => Some(200),
            Result::Banker(_) => None,
        },
        Bets::Tie => match res {
            Result::Tie(_) => Some(900),
            _ => None,
        },
        Bets::BankerWinsOn123 | Bets::BankerWinsOn456 | Bets::BankerWinsOn789
        | Bets::PlayerWinsOn123 | Bets::PlayerWinsOn456 | Bets::PlayerWinsOn789
        | Bets::TieOn0123 | Bets::TieOn456 | Bets::TieOn789 => {
            let (won, ratio) = wins_on(res);
            if won == b {
                Some(ratio)
            } else {
                None
            }
        },
        _ => None,
    }
}

/// Ratio of a lucky pair made of `c1` and `c2`, if they are one.
pub fn ratio_of_lucky_pair(c1: &Card, c2: &Card) -> (r: Option<u32>)
    ensures
        r == lucky_pair_ratio(*c1, *c2),
{
    if c1.is_same_rank(c2) {
        let is_diamond = c1.is_diamond() && c1.is_same_suit(c2);
        let is_four = c1.rank == Rank::Four;
        if is_diamond && is_four {
            return Some(3100);
        }
        if is_four {
            return Some(1600);
        }
        if is_diamond {
            return Some(1300);
        }
        return Some(1000);
    }
    None
}

fn colour_bet(pair: (Card, Card), red: bool) -> (r: Option<u32>)
    ensures
        r == colour_ratio(pair.0, pair.1, red),
{
    let (c1, c2) = pair;
    if c1.is_red() == red && c2.is_red() == red {
        Some(300)
    } else {
        None
    }
}

/// Payouts of the bets decided by the outcome alone, in catalog order.
pub fn result_payout_map(result: Result) -> (r: Vec<(Bets, u32)>)
    ensures
        r@ == winners(catalog(), |x: Bets| x, |x: Bets| outcome_ratio(result, x)),
{
    let all = all_bets();
    let ghost key = |b: Bets| b;
    let ghost pay = |b: Bets| outcome_ratio(result, b);
    let mut r: Vec<(Bets, u32)> = Vec::new();
    let mut i: usize = 0;
    while i < all.len()
        invariant
            i <= all.len(),
            all@ == catalog(),
            key == (|b: Bets| b),
            pay == (|b: Bets| outcome_ratio(result, b)),
            r@ == winners(all@.subrange(0, i as int), key, pay),
        decreases all.len() - i,
    {
        proof {
            lemma_winners_step(all@, i as int, key, pay);
        }
        let b = all[i];
        if let Some(x) = result_ratio(result, b) {
            r.push((b, x));
        }
        i = i + 1;
    }
    assert(all@.subrange(0, all.len() as int) =~= all@);
    r
}

/// Payouts of a hand, in catalog order.
pub fn payout_map(h: &Baccarat) -> (r: Vec<(Bets, u32)>)
    ensures
        r@ == winners(catalog(), |x: Bets| x, |x: Bets| hand_ratio(h@, x)),
{
    let res = h.result();
    let banker2 = h.banker_first2();
    let player2 = h.player_first2();
    let all = all_bets();
    let ghost key = |b: Bets| b;
    let ghost pay = |b: Bets| hand_ratio(h@, b);
    let mut r: Vec<(Bets, u32)> = Vec::new();
    let mut i: usize = 0;
    while i < all.len()
        invariant
            i <= all.len(),
            all@ == catalog(),
            key == (|b: Bets| b),
            pay == (|b: Bets| hand_ratio(h@, b)),
            res == hand_result(h@),
            banker2 == (h@.0[0], h@.0[1]),
            player2 == (h@.1[0], h@.1[1]),
            r@ == winners(all@.subrange(0, i as int), key, pay),
        decreases all.len() - i,
    {
        proof {
            lemma_winners_step(all@, i as int, key, pay);
        }
        let b = all[i];
        let ratio = match b {
            Bets::BankerBlack => colour_bet(banker2, false),
            Bets::BankerRed => colour_bet(banker2, true),
            Bets::BankerLuckyPair => ratio_of_lucky_pair(&banker2.0, &banker2.1),
            Bets::PlayerBlack => colour_bet(player2, false),
            Bets::PlayerRed => colour_bet(player2, true),
            Bets::PlayerLuckyPair => ratio_of_lucky_pair(&player2.0, &player2.1),
            _ => result_ratio(res, b),
        };
        if let Some(x) = ratio {
            r.push((b, x));
        }
        i = i + 1;
    }
    assert(all@.subrange(0, all.len() as int) =~= all@);
    r
}

} // verus!
