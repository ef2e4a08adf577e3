//! Classical Baccarat: commission and non-commission payouts over one
//! catalog of twelve bets.
use vstd::prelude::*;
use crate::games::BetSerde;
use crate::payout::{keep, lemma_keep_contains, lemma_keep_step, lemma_winners_step, winners};
use crate::card::Card;
use super::common::{hand_result, Baccarat, Result};

verus! {

#[derive(Clone, Copy, Hash, PartialEq, Eq, Debug, Structural)]
pub enum Bets {
    Banker,
    Player,
    Tie,
    BankerPair,
    PlayerPair,
    BankerN8,
    BankerN9,
    PlayerN8,
    PlayerN9,
    Super6,
    Big,
    Small,
}

/// Every bet of the game, in declaration order.
pub open spec fn catalog() -> Seq<Bets> {
    seq![
        Bets::Banker,
        Bets::Player,
        Bets::Tie,
        Bets::BankerPair,
        Bets::PlayerPair,
        Bets::BankerN8,
        Bets::BankerN9,
        Bets::PlayerN8,
        Bets::PlayerN9,
        Bets::Super6,
        Bets::Big,
        Bets::Small,
    ]
}

/// The short name of a bet.
pub open spec fn bet_name(b: Bets) -> Seq<char> {
    match b {
        Bets::Banker => seq!['B'],
        Bets::Player => seq!['P'],
        Bets::Tie => seq!['T'],
        Bets::BankerPair => seq!['B', 'P'],
        Bets::PlayerPair => seq!['P', 'P'],
        Bets::BankerN8 => seq!['B', '8'],
        Bets::BankerN9 => seq!['B', '9'],
        Bets::PlayerN8 => seq!['P', '8'],
        Bets::PlayerN9 => seq!['P', '9'],
        Bets::Super6 => seq!['S', '6'],
        Bets::Big => seq!['D'],
        Bets::Small => seq!['X'],
    }
}

/// The bet whose short name is `s`, if any.
pub open spec fn bet_of_name(s: Seq<char>) -> Option<Bets> {
    if s.len() == 1 {
        match s[0] {
            'B' => Some(Bets::Banker),
            'P' => Some(Bets::Player),
            'T' => Some(Bets::Tie),
            'D' => Some(Bets::Big),
            'X' => Some(Bets::Small),
            _ => None,
        }
    } else if s.len() == 2 {
        match (s[0], s[1]) {
            ('B', 'P') => Some(Bets::BankerPair),
            ('P', 'P') => Some(Bets::PlayerPair),
            ('B', '8') => Some(Bets::BankerN8),
            ('B', '9') => Some(Bets::BankerN9),
            ('P', '8') => Some(Bets::PlayerN8),
            ('P', '9') => Some(Bets::PlayerN9),
            ('S', '6') => Some(Bets::Super6),
            _ => None,
        }
    } else {
        None
    }
}

/// Reading back the short name of a bet gives the bet.
pub proof fn lemma_name_round_trip(b: Bets)
    ensures
        bet_of_name(bet_name(b)) == Some(b),
{
}

pub fn from_str_to_bets(name: &str) -> (r: Option<Bets>)
    ensures
        r == bet_of_name(name@),
{
    let n = name.unicode_len();
    if n == 1 {
        match name.get_char(0) {
            'B' => Some(Bets::Banker),
            'P' => Some(Bets::Player),
            'T' => Some(Bets::Tie),
            'D' => Some(Bets::Big),
            'X' => Some(Bets::Small),
            _ => None,
        }
    } else if n == 2 {
        match (name.get_char(0), name.get_char(1)) {
            ('B', 'P') => Some(Bets::BankerPair),
            ('P', 'P') => Some(Bets::PlayerPair),
            ('B', '8') => Some(Bets::BankerN8),
            ('B', '9') => Some(Bets::BankerN9),
            ('P', '8') => Some(Bets::PlayerN8),
            ('P', '9') => Some(Bets::PlayerN9),
            ('S', '6') => Some(Bets::Super6),
            _ => None,
        }
    } else {
        None
    }
}

/// The short name of a bet, as text.
pub fn from_bets_to_str(bet: &Bets) -> (s: &'static str)
    ensures
        s@ == bet_name(*bet),
{
    match *bet {
        Bets::Banker => {
            proof {
                reveal_strlit("B");
            }
            "B"
        },
        Bets::Player => {
            proof {
                reveal_strlit("P");
            }
            "P"
        },
        Bets::Tie => {
            proof {
                reveal_strlit("T");
            }
            "T"
        },
        Bets::BankerPair => {
            proof {
                reveal_strlit("BP");
            }
            "BP"
        },
        Bets::PlayerPair => {
            proof {
                reveal_strlit("PP");
            }
            "PP"
        },
        Bets::BankerN8 => {
            proof {
                reveal_strlit("B8");
            }
            "B8"
        },
        Bets::BankerN9 => {
            proof {
                reveal_strlit("B9");
            }
            "B9"
        },
        Bets::PlayerN8 => {
            proof {
                reveal_strlit("P8");
            }
            "P8"
        },
        Bets::PlayerN9 => {
            proof {
                reveal_strlit("P9");
            }
            "P9"
        },
        Bets::Super6 => {
            proof {
                reveal_strlit("S6");
            }
            "S6"
        },
        Bets::Big => {
            proof {
                reveal_strlit("D");
            }
            "D"
        },
        Bets::Small => {
            proof {
                reveal_strlit("X");
            }
            "X"
        },
    }
}

impl Bets {
    /// The short name of the bet (`B`, `PP`, `S6`, ...).
    pub fn to_string(&self) -> (s: String)
        ensures
            s@ == bet_name(*self),
    {
        String::from_str(from_bets_to_str(self))
    }
}

pub open spec fn bet_id(b: Bets) -> u16 {
    match b {
        Bets::Banker => 1,
        Bets::Player => 2,
        Bets::Tie => 3,
        Bets::BankerPair => 4,
        Bets::PlayerPair => 5,
        Bets::BankerN8 => 6,
        Bets::BankerN9 => 7,
        Bets::PlayerN8 => 8,
        Bets::PlayerN9 => 9,
        Bets::Super6 => 10,
        Bets::Big => 11,
        Bets::Small => 12,
    }
}

pub open spec fn bet_of_id(id: u16) -> Option<Bets> {
    match id {
        1 => Some(Bets::Banker),
        2 => Some(Bets::Player),
        3 => Some(Bets::Tie),
        4 => Some(Bets::BankerPair),
        5 => Some(Bets::PlayerPair),
        6 => Some(Bets::BankerN8),
        7 => Some(Bets::BankerN9),
        8 => Some(Bets::PlayerN8),
        9 => Some(Bets::PlayerN9),
        10 => Some(Bets::Super6),
        11 => Some(Bets::Big),
        12 => Some(Bets::Small),
        _ => None,
    }
}

impl BetSerde for Bets {
    open spec fn is_bet(&self) -> bool {
        true
    }

    open spec fn wire_id(&self) -> u16 {
        bet_id(*self)
    }

    open spec fn decode(id: u16) -> Option<Bets> {
        bet_of_id(id)
    }

    fn to_u16(&self) -> (r: u16) {
        match *self {
            Bets::Banker => 1,
            Bets::Player => 2,
            Bets::Tie => 3,
            Bets::BankerPair => 4,
            Bets::PlayerPair => 5,
            Bets::BankerN8 => 6,
            Bets::BankerN9 => 7,
            Bets::PlayerN8 => 8,
            Bets::PlayerN9 => 9,
            Bets::Super6 => 10,
            Bets::Big => 11,
            Bets::Small => 12,
        }
    }

    fn from_u16(id: u16) -> (r: Option<Bets>) {
        match id {
            1 => Some(Bets::Banker),
            2 => Some(Bets::Player),
            3 => Some(Bets::Tie),
            4 => Some(Bets::BankerPair),
            5 => Some(Bets::PlayerPair),
            6 => Some(Bets::BankerN8),
            7 => Some(Bets::BankerN9),
            8 => Some(Bets::PlayerN8),
            9 => Some(Bets::PlayerN9),
            10 => Some(Bets::Super6),
            11 => Some(Bets::Big),
            12 => Some(Bets::Small),
            _ => None,
        }
    }

    proof fn lemma_round_trip(b: Bets) {
    }

    proof fn lemma_decode_is_bet(id: u16) {
    }
}

/// The tier a shoe is in after `hands` hands: up to 40, up to 70, beyond.
pub open spec fn tier(hands: int) -> nat {
    if hands <= 40 {
        0
    } else if hands <= 70 {
        1
    } else {
        2
    }
}

/// Whether a bet is still offered in a tier: Big and Small go after the
/// first tier, the pair bets after the second.
pub open spec fn offered_in_tier(t: nat, b: Bets) -> bool {
    match b {
        Bets::Big | Bets::Small => t == 0,
        Bets::BankerPair | Bets::PlayerPair => t <= 1,
        _ => true,
    }
}

/// The bets offered in a tier, in catalog order.
pub open spec fn tier_bets(t: nat) -> Seq<Bets> {
    keep(catalog(), |b: Bets| offered_in_tier(t, b))
}

fn is_offered(t: u8, b: Bets) -> (r: bool)
    ensures
        r == offered_in_tier(t as nat, b),
{
    match b {
        Bets::Big | Bets::Small => t == 0,
        Bets::BankerPair | Bets::PlayerPair => t <= 1,
        _ => true,
    }
}

pub(crate) fn bets_in_tier(t: u8) -> (r: Vec<Bets>)
    ensures
        r@ == tier_bets(t as nat),
{
    let all = all_bets();
    let ghost p = |b: Bets| offered_in_tier(t as nat, b);
    let mut r: Vec<Bets> = Vec::new();
    let mut i: usize = 0;
    while i < all.len()
        invariant
            i <= all.len(),
            all@ == catalog(),
            p == (|b: Bets| offered_in_tier(t as nat, b)),
            r@ == keep(all@.subrange(0, i as int), p),
        decreases all.len() - i,
    {
        proof {
            lemma_keep_step(all@, i as int, p);
        }
        if is_offered(t, all[i]) {
            r.push(all[i]);
        }
        i = i + 1;
    }
    assert(all@.subrange(0, all.len() as int) =~= all@);
    r
}

/// Every bet of the game.
pub fn all_bets() -> (r: Vec<Bets>)
    ensures
        r@ == catalog(),
{
    let r = vec![
        Bets::Banker,
        Bets::Player,
        Bets::Tie,
        Bets::BankerPair,
        Bets::PlayerPair,
        Bets::BankerN8,
        Bets::BankerN9,
        Bets::PlayerN8,
        Bets::PlayerN9,
        Bets::Super6,
        Bets::Big,
        Bets::Small,
    ];
    assert(r@ =~= catalog());
    r
}

/// The bets offered after the 40th hand of a shoe.
pub fn bets_after40() -> (r: Vec<Bets>)
    ensures
        r@ == tier_bets(1),
{
    bets_in_tier(1)
}

/// The bets offered after the 70th hand of a shoe.
pub fn bets_after70() -> (r: Vec<Bets>)
    ensures
        r@ == tier_bets(2),
{
    bets_in_tier(2)
}

/// The bets offered as the shoe goes on.
pub struct CommissionBaccarat {
    all_bets: Vec<Bets>,
    bets_after40: Vec<Bets>,
    bets_after70: Vec<Bets>,
}

impl CommissionBaccarat {
    #[verifier::type_invariant]
    spec fn tiers_inv(&self) -> bool {
        &&& self.all_bets@ == tier_bets(0)
        &&& self.bets_after40@ == tier_bets(1)
        &&& self.bets_after70@ == tier_bets(2)
    }

    pub fn new() -> (g: CommissionBaccarat) {
        CommissionBaccarat {
            all_bets: bets_in_tier(0),
            bets_after40: bets_in_tier(1),
            bets_after70: bets_in_tier(2),
        }
    }

    /// The bets that may be placed once `hands` hands were dealt from the shoe.
    pub fn valid_bets(&self, hands: usize) -> (r: &Vec<Bets>)
        ensures
            r@ == tier_bets(tier(hands as int)),
    {
        proof {
            use_type_invariant(self);
        }
        if hands <= 40 {
            &self.all_bets
        } else if hands <= 70 {
            &self.bets_after40
        } else {
            &self.bets_after70
        }
    }
}

/// Ratio of a bet decided by the outcome alone (Banker, Player, Tie and the
/// naturals): a tie returns the Banker and Player stakes; with commission the
/// banker pays 1.95, without it 1.5 on a six and 2 otherwise.
pub open spec fn outcome_ratio(res: Result, commission: bool, b: Bets) -> Option<u32> {
    match b {
        Bets::Banker => match res {
            Result::Tie(_) => Some(100),
            Result::Banker(n) => Some(
                if commission {
                    195
                } else if n == 6 {
                    150
                } else {
                    200
                },
            ),
            Result::Player(_) => None,
        },
        Bets::Player => match res {
            Result::Tie(_) => Some(100),
            Result::Player(_) => Some(200),
            Result::Banker(_) => None,
        },
        Bets::Tie => if res matches Result::Tie(_) {
            Some(900)
        } else {
            None
        },
        Bets::BankerN8 => if res == Result::Banker(8) {
            Some(900)
        } else {
            None
        },
        Bets::BankerN9 => if res == Result::Banker(9) {
            Some(900)
        } else {
            None
        },
        Bets::PlayerN8 => if res == Result::Player(8) {
            Some(900)
        } else {
            None
        },
        Bets::PlayerN9 => if res == Result::Player(9) {
            Some(900)
        } else {
            None
        },
        _ => None,
    }
}

/// Ratio of a side bet: Super6 on a banker win on six (19 with three banker
/// cards, 13 with two), Big (more than four cards) and Small where offered,
/// and the pairs of the first two cards of each side.
pub open spec fn side_ratio(
    res: Result,
    banker_cards: nat,
    total_cards: nat,
    banker_pair: bool,
    player_pair: bool,
    big_small: bool,
    b: Bets,
) -> Option<u32> {
    match b {
        Bets::Super6 => if res == Result::Banker(6) {
            Some(
                if banker_cards == 3 {
                    1900
                } else {
                    1300
                },
            )
        } else {
            None
        },
        Bets::Big => if big_small && total_cards > 4 {
            Some(150)
        } else {
            None
        },
        Bets::Small => if big_small && total_cards <= 4 {
            Some(250)
        } else {
            None
        },
        Bets::BankerPair => if banker_pair {
            Some(1200)
        } else {
            None
        },
        Bets::PlayerPair => if player_pair {
            Some(1200)
        } else {
            None
        },
        _ => None,
    }
}

/// The bets decided by the outcome alone.
pub open spec fn is_outcome_bet(b: Bets) -> bool {
    match b {
        Bets::Banker | Bets::Player | Bets::Tie | Bets::BankerN8 | Bets::BankerN9
        | Bets::PlayerN8 | Bets::PlayerN9 => true,
        _ => false,
    }
}

/// Ratio of a bet on a complete hand.
pub open spec fn hand_ratio(
    h: (Seq<Card>, Seq<Card>),
    commission: bool,
    big_small: bool,
    b: Bets,
) -> Option<u32> {
    if is_outcome_bet(b) {
        outcome_ratio(hand_result(h), commission, b)
    } else {
        side_ratio(
            hand_result(h),
            h.0.len(),
            h.0.len() + h.1.len(),
            h.0[0].rank == h.0[1].rank,
            h.1[0].rank == h.1[1].rank,
            big_small,
            b,
        )
    }
}

pub fn result_ratio(res: Result, commission: bool, b: Bets) -> (r: Option<u32>)
    ensures
        r == outcome_ratio(res, commission, b),
{
    match b {
        Bets::Banker => match res {
            Result::Tie(_) => Some(100),
            Result::Banker(n) => Some(
                if commission {
                    195
                } else if n == 6 {
                    150
                } else {
                    200
                },
            ),
            Result::Player(_) => None,
        },
        Bets::Player => match res {
            Result::Tie(_) => Some(100),
            Result::Player(_) => Some(200),
            Result::Banker(_) => None,
        },
        Bets::Tie => match res {
            Result::Tie(_) => Some(900),
            _ => None,
        },
        Bets::BankerN8 => if res == Result::Banker(8) {
            Some(900)
        } else {
            None
        },
        Bets::BankerN9 => if res == Result::Banker(9) {
            Some(900)
        } else {
            None
        },
        Bets::PlayerN8 => if res == Result::Player(8) {
            Some(900)
        } else {
            None
        },
        Bets::PlayerN9 => if res == Result::Player(9) {
            Some(900)
        } else {
            None
        },
        _ => None,
    }
}

fn side_bet_ratio(
    res: Result,
    banker_cards: usize,
    total_cards: usize,
    banker_pair: bool,
    player_pair: bool,
    big_small: bool,
    b: Bets,
) -> (r: Option<u32>)
    ensures
        r == side_ratio(
            res,
            banker_cards as nat,
            total_cards as nat,
            banker_pair,
            player_pair,
            big_small,
            b,
        ),
{
    match b {
        Bets::Super6 => if res == Result::Banker(6) {
            Some(
                if banker_cards == 3 {
                    1900
                } else {
                    1300
                },
            )
        } else {
            None
        },
        Bets::Big => if big_small && total_cards > 4 {
            Some(150)
        } else {
            None
        },
        Bets::Small => if big_small && total_cards <= 4 {
            Some(250)
        } else {
            None
        },
        Bets::BankerPair => if banker_pair {
            Some(1200)
        } else {
            None
        },
        Bets::PlayerPair => if player_pair {
            Some(1200)
        } else {
            None
        },
        _ => None,
    }
}

fn is_outcome_bet_exec(b: Bets) -> (r: bool)
    ensures
        r == is_outcome_bet(b),
{
    match b {
        Bets::Banker | Bets::Player | Bets::Tie | Bets::BankerN8 | Bets::BankerN9
        | Bets::PlayerN8 | Bets::PlayerN9 => true,
        _ => false,
    }
}

/// Payout map of a complete hand, in catalog order.
pub(crate) fn payout_map_with(h: &Baccarat, commission: bool, big_small: bool) -> (r: Vec<
    (Bets, u32),
>)
    ensures
        r@ == winners(
            catalog(),
            |b: Bets| b,
            |b: Bets| hand_ratio(h@, commission, big_small, b),
        ),
{
    let res = h.result();
    let banker_cards = h.banker_total_cards();
    let total_cards = h.total_cards();
    let banker_pair = h.is_banker_pair();
    let player_pair = h.is_player_pair();
    let all = all_bets();
    let ghost key = |b: Bets| b;
    let ghost pay = |b: Bets| hand_ratio(h@, commission, big_small, b);
    let mut r: Vec<(Bets, u32)> = Vec::new();
    let mut i: usize = 0;
    while i < all.len()
        invariant
            i <= all.len(),
            all@ == catalog(),
            key == (|b: Bets| b),
            pay == (|b: Bets| hand_ratio(h@, commission, big_small, b)),
            res == hand_result(h@),
            banker_cards == h@.0.len(),
            total_cards == h@.0.len() + h@.1.len(),
            banker_pair == (h@.0[0].rank == h@.0[1].rank),
            player_pair == (h@.1[0].rank == h@.1[1].rank),
            r@ == winners(all@.subrange(0, i as int), key, pay),
        decreases all.len() - i,
    {
        proof {
            lemma_winners_step(all@, i as int, key, pay);
        }
        let b = all[i];
        let ratio = if is_outcome_bet_exec(b) {
            result_ratio(res, commission, b)
        } else {
            side_bet_ratio(res, banker_cards, total_cards, banker_pair, player_pair, big_small, b)
        };
        if let Some(x) = ratio {
            r.push((b, x));
        }
        i = i + 1;
    }
    assert(all@.subrange(0, all.len() as int) =~= all@);
    r
}

/// Payout map of the bets decided by the outcome alone, in catalog order.
pub(crate) fn result_map_with(res: Result, commission: bool) -> (r: Vec<(Bets, u32)>)
    ensures
        r@ == winners(catalog(), |b: Bets| b, |b: Bets| outcome_ratio(res, commission, b)),
{
    let all = all_bets();
    let ghost key = |b: Bets| b;
    let ghost pay = |b: Bets| outcome_ratio(res, commission, b);
    let mut r: Vec<(Bets, u32)> = Vec::new();
    let mut i: usize = 0;
    while i < all.len()
        invariant
            i <= all.len(),
            all@ == catalog(),
            key == (|b: Bets| b),
            pay == (|b: Bets| outcome_ratio(res, commission, b)),
            r@ == winners(all@.subrange(0, i as int), key, pay),
        decreases all.len() - i,
    {
        proof {
            lemma_winners_step(all@, i as int, key, pay);
        }
        let b = all[i];
        if let Some(x) = result_ratio(res, commission, b) {
            r.push((b, x));
        }
        i = i + 1;
    }
    assert(all@.subrange(0, all.len() as int) =~= all@);
    r
}

/// Payouts of a hand with commission: the banker pays 1.95.
pub fn payout_map_commission(b: &Baccarat) -> (r: Vec<(Bets, u32)>)
    ensures
        r@ == winners(catalog(), |x: Bets| x, |x: Bets| hand_ratio(b@, true, false, x)),
{
    payout_map_with(b, true, false)
}

/// Payouts of a hand without commission: the banker pays 1.5 on a six, else 2.
pub fn payout_map_noncommission(b: &Baccarat) -> (r: Vec<(Bets, u32)>)
    ensures
        r@ == winners(catalog(), |x: Bets| x, |x: Bets| hand_ratio(b@, false, false, x)),
{
    payout_map_with(b, false, false)
}

/// With commission, a banker win on nine whose first two cards on each side
/// are no pair pays exactly the Banker bet (1.95) and the banker natural nine
/// (9), nothing else.
pub proof fn lemma_commission_banker_nine(h: (Seq<Card>, Seq<Card>))
    requires
        hand_result(h) == Result::Banker(9),
        h.0[0].rank != h.0[1].rank,
        h.1[0].rank != h.1[1].rank,
    ensures
        winners(catalog(), |x: Bets| x, |x: Bets| hand_ratio(h, true, false, x)) == seq![
            (Bets::Banker, 195u32),
            (Bets::BankerN9, 900u32),
        ],
{
    reveal_with_fuel(winners, 13);
    assert(winners(catalog(), |x: Bets| x, |x: Bets| hand_ratio(h, true, false, x)) =~= seq![
        (Bets::Banker, 195u32),
        (Bets::BankerN9, 900u32),
    ]);
}

/// As the shoe goes on, bets are only withdrawn: a bet offered after `n2`
/// hands was offered after any `n1 <= n2` hands.
pub proof fn lemma_tiers_shrink(n1: int, n2: int, b: Bets)
    requires
        n1 <= n2,
        tier_bets(tier(n2)).contains(b),
    ensures
        tier_bets(tier(n1)).contains(b),
{
    lemma_keep_contains(catalog(), |x: Bets| offered_in_tier(tier(n2), x), b);
    lemma_keep_contains(catalog(), |x: Bets| offered_in_tier(tier(n1), x), b);
}

} // verus!
