//! Sic Bo: three six-sided dice; each bet of the catalog counts how many
//! times the roll matches it and pays its ratio that many times.
use vstd::prelude::*;
use crate::games::BetSerde;
use crate::payout::{lemma_winners_step, winners};

pub mod simple;
pub mod single;
pub mod double;
pub mod triple;
pub mod pair;
pub mod total;

verus! {

/// A roll of three dice.
pub struct Result {
    d1: u8,
    d2: u8,
    d3: u8,
}

impl Result {
    pub closed spec fn dice(&self) -> (u8, u8, u8) {
        (self.d1, self.d2, self.d3)
    }

    pub fn new(d1: u8, d2: u8, d3: u8) -> (r: Result)
        ensures
            r.dice() == (d1, d2, d3),
    {
        Result { d1, d2, d3 }
    }
}

#[derive(Hash, PartialEq, Eq, Debug, Copy, Clone, Structural)]
pub enum Bets {
    Big,
    Small,
    Odd,
    Even,
    Single(u8),
    Double(u8),
    Triple(u8),
    AnyTriple,
    Total(u8),
    Pair(u8, u8),
}

/// The values of `Bets` that stand for a bet of the game: faces between 1
/// and 6, totals between 4 and 17, pairs of two faces in increasing order.
pub open spec fn valid_bet(b: Bets) -> bool {
    match b {
        Bets::Single(n) | Bets::Double(n) | Bets::Triple(n) => 1 <= n <= 6,
        Bets::Total(n) => 4 <= n <= 17,
        Bets::Pair(a, c) => 1 <= a < c <= 6,
        _ => true,
    }
}

pub open spec fn bet_id(b: Bets) -> u16 {
    match b {
        Bets::Big => 1,
        Bets::Small => 2,
        Bets::Odd => 3,
        Bets::Even => 4,
        Bets::Single(n) => (10 + n) as u16,
        Bets::Double(n) => (20 + n) as u16,
        Bets::Triple(n) => (30 + n) as u16,
        Bets::AnyTriple => 37,
        Bets::Total(n) => (100 + n) as u16,
        Bets::Pair(a, c) => (200 + 10 * a + c) as u16,
    }
}

pub open spec fn bet_of_id(id: u16) -> Option<Bets> {
    if id == 1 {
        Some(Bets::Big)
    } else if id == 2 {
        Some(Bets::Small)
    } else if id == 3 {
        Some(Bets::Odd)
    } else if id == 4 {
        Some(Bets::Even)
    } else if 11 <= id <= 16 {
        Some(Bets::Single((id - 10) as u8))
    } else if 21 <= id <= 26 {
        Some(Bets::Double((id - 20) as u8))
    } else if 31 <= id <= 36 {
        Some(Bets::Triple((id - 30) as u8))
    } else if id == 37 {
        Some(Bets::AnyTriple)
    } else if 104 <= id <= 117 {
        Some(Bets::Total((id - 100) as u8))
    } else if 212 <= id <= 256 && 1 <= (id - 200) / 10 < (id - 200) % 10 <= 6 {
        Some(Bets::Pair(((id - 200) / 10) as u8, ((id - 200) % 10) as u8))
    } else {
        None
    }
}

impl BetSerde for Bets {
    open spec fn is_bet(&self) -> bool {
        valid_bet(*self)
    }

    open spec fn wire_id(&self) -> u16 {
        bet_id(*self)
    }

    open spec fn decode(id: u16) -> Option<Bets> {
        bet_of_id(id)
    }

    fn to_u16(&self) -> (r: u16) {
        match *self {
            Bets::Big => 1,
            Bets::Small => 2,
            Bets::Odd => 3,
            Bets::Even => 4,
            Bets::Single(n) => 10 + n as u16,
            Bets::Double(n) => 20 + n as u16,
            Bets::Triple(n) => 30 + n as u16,
            Bets::AnyTriple => 37,
            Bets::Total(n) => 100 + n as u16,
            Bets::Pair(a, c) => 200 + 10 * (a as u16) + c as u16,
        }
    }

    fn from_u16(id: u16) -> (r: Option<Bets>) {
        if id == 1 {
            Some(Bets::Big)
        } else if id == 2 {
            Some(Bets::Small)
        } else if id == 3 {
            Some(Bets::Odd)
        } else if id == 4 {
            Some(Bets::Even)
        } else if 11 <= id && id <= 16 {
            Some(Bets::Single((id - 10) as u8))
        } else if 21 <= id && id <= 26 {
            Some(Bets::Double((id - 20) as u8))
        } else if 31 <= id && id <= 36 {
            Some(Bets::Triple((id - 30) as u8))
        } else if id == 37 {
            Some(Bets::AnyTriple)
        } else if 104 <= id && id <= 117 {
            Some(Bets::Total((id - 100) as u8))
        } else if 212 <= id && id <= 256 {
            let a = (id - 200) / 10;
            let c = (id - 200) % 10;
            if 1 <= a && a < c && c <= 6 {
                Some(Bets::Pair(a as u8, c as u8))
            } else {
                None
            }
        } else {
            None
        }
    }

    proof fn lemma_round_trip(b: Bets) {
        if let Bets::Pair(a, c) = b {
            let id = bet_id(b);
            assert((id - 200) / 10 == a && (id - 200) % 10 == c);
        }
    }

    proof fn lemma_decode_is_bet(id: u16) {
        if 212 <= id <= 256 && 1 <= (id - 200) / 10 < (id - 200) % 10 <= 6 {
            let a = (id - 200) / 10;
            let c = (id - 200) % 10;
            assert(200 + 10 * a + c == id);
        }
    }
}

/// Ratio of a total bet: 50 on 4 or 17 down to 6 on 9 to 12.
pub open spec fn total_ratio(n: u8) -> u32 {
    if n == 4 || n == 17 {
        50
    } else if n == 5 || n == 16 {
        18
    } else if n == 6 || n == 15 {
        14
    } else if n == 7 || n == 14 {
        12
    } else if n == 8 || n == 13 {
        8
    } else {
        6
    }
}

/// Ratio of a bet, the stake not included.
pub open spec fn bet_ratio(b: Bets) -> u32 {
    match b {
        Bets::Big | Bets::Small | Bets::Odd | Bets::Even | Bets::Single(_) => 1,
        Bets::Double(_) => 8,
        Bets::Triple(_) => 150,
        Bets::AnyTriple => 24,
        Bets::Total(n) => total_ratio(n),
        Bets::Pair(_, _) => 5,
    }
}

pub open spec fn one_if(c: bool) -> u8 {
    if c {
        1
    } else {
        0
    }
}

/// How many times a roll matches a bet: the Single bet counts the dice
/// showing its face; every other bet matches once or not at all. A triple
/// voids Big, Small, Odd and Even.
pub open spec fn matches(b: Bets, d: (u8, u8, u8)) -> u8 {
    let (d1, d2, d3) = d;
    let sum = d1 + d2 + d3;
    let is_triple = d1 == d2 && d2 == d3;
    match b {
        Bets::Big => one_if(!is_triple && 11 <= sum <= 17),
        Bets::Small => one_if(!is_triple && 4 <= sum <= 10),
        Bets::Odd => one_if(!is_triple && sum % 2 != 0),
        Bets::Even => one_if(!is_triple && sum % 2 == 0),
        Bets::Single(n) => (one_if(d1 == n) + one_if(d2 == n) + one_if(d3 == n)) as u8,
        Bets::Double(n) => one_if((d1 == n && d2 == n) || (d2 == n && d3 == n) || (d1 == n && d3
            == n)),
        Bets::Triple(n) => one_if(is_triple && d1 == n),
        Bets::AnyTriple => one_if(is_triple),
        Bets::Total(n) => one_if(n == sum),
        Bets::Pair(a, c) => one_if((d1 == a || d2 == a || d3 == a) && (d1 == c || d2 == c || d3
            == c)),
    }
}

/// Payout of a bet on a roll, in hundredths: its ratio times the number of
/// matches, plus the stake; nothing when it does not match.
pub open spec fn bet_payout(b: Bets, d: (u8, u8, u8)) -> Option<u32> {
    if matches(b, d) > 0 {
        Some(((bet_ratio(b) * matches(b, d) + 1) * 100) as u32)
    } else {
        None
    }
}

fn count(b: bool) -> (r: u8)
    ensures
        r == one_if(b),
{
    if b {
        1
    } else {
        0
    }
}

/// Ratio of the total bet on `n`.
pub fn ratio_impl(n: u8) -> (r: u32)
    requires
        4 <= n <= 17,
    ensures
        r == total_ratio(n),
{
    match n {
        4 | 17 => 50,
        5 | 16 => 18,
        6 | 15 => 14,
        7 | 14 => 12,
        8 | 13 => 8,
        _ => 6,
    }
}

impl Bets {
    /// Ratio of the bet, the stake not included.
    pub fn ratio(&self) -> (r: u32)
        requires
            valid_bet(*self),
        ensures
            r == bet_ratio(*self),
            r <= 150,
    {
        match *self {
            Bets::Big | Bets::Small | Bets::Odd | Bets::Even | Bets::Single(_) => 1,
            Bets::Double(_) => 8,
            Bets::Triple(_) => 150,
            Bets::AnyTriple => 24,
            Bets::Total(n) => ratio_impl(n),
            Bets::Pair(_, _) => 5,
        }
    }

    /// How many times the roll matches the bet.
    pub fn bingo(&self, r: &Result) -> (n: u8)
        ensures
            n == matches(*self, r.dice()),
            n <= 3,
    {
        let (d1, d2, d3) = (r.d1, r.d2, r.d3);
        let sum: u16 = d1 as u16 + d2 as u16 + d3 as u16;
        let is_triple = d1 == d2 && d2 == d3;
        match *self {
            Bets::Big => count(!is_triple && 11 <= sum && sum <= 17),
            Bets::Small => count(!is_triple && 4 <= sum && sum <= 10),
            Bets::Odd => count(!is_triple && sum % 2 != 0),
            Bets::Even => count(!is_triple && sum % 2 == 0),
            Bets::Single(n) => count(d1 == n) + count(d2 == n) + count(d3 == n),
            Bets::Double(n) => count((d1 == n && d2 == n) || (d2 == n && d3 == n) || (d1 == n
                && d3 == n)),
            Bets::Triple(n) => count(is_triple && d1 == n),
            Bets::AnyTriple => count(is_triple),
            Bets::Total(n) => count(n as u16 == sum),
            Bets::Pair(a, c) => count((d1 == a || d2 == a || d3 == a) && (d1 == c || d2 == c
                || d3 == c)),
        }
    }
}

/// The whole catalog: simple bets, singles, doubles, triples, pairs, totals.
pub open spec fn catalog() -> Seq<Bets> {
    simple::family() + single::family() + double::family() + triple::family() + pair::family()
        + total::family()
}

pub struct Sicbo {
    all_bets: Vec<Bets>,
}

impl Sicbo {
    #[verifier::type_invariant]
    spec fn catalog_inv(&self) -> bool {
        self.all_bets@ == catalog()
    }

    pub fn new() -> (g: Sicbo) {
        let mut bets: Vec<Bets> = Vec::new();
        simple::all_bets(&mut bets);
        single::all_bets(&mut bets);
        double::all_bets(&mut bets);
        triple::all_bets(&mut bets);
        pair::all_bets(&mut bets);
        total::all_bets(&mut bets);
        assert(Seq::<Bets>::empty() + simple::family() =~= simple::family());
        Sicbo { all_bets: bets }
    }

    /// A bet with identifier `bet_id` is in the catalog.
    pub fn valid_bets(&self, id: u16) -> (r: bool)
        ensures
            r == exists|i: int|
                0 <= i < catalog().len() && bet_id(#[trigger] catalog()[i]) == id,
    {
        proof {
            use_type_invariant(self);
            lemma_catalog_valid();
        }
        let mut i: usize = 0;
        while i < self.all_bets.len()
            invariant
                i <= self.all_bets.len(),
                self.all_bets@ == catalog(),
                forall|j: int| 0 <= j < catalog().len() ==> valid_bet(#[trigger] catalog()[j]),
                forall|j: int| 0 <= j < i ==> bet_id(#[trigger] catalog()[j]) != id,
            decreases self.all_bets.len() - i,
        {
            if self.all_bets[i].to_u16() == id {
                return true;
            }
            i = i + 1;
        }
        false
    }

    /// Payouts of a roll: each bet that matches, with its ratio times the
    /// number of matches plus the stake, in catalog order.
    pub fn payout_map(&self, d1: u8, d2: u8, d3: u8) -> (r: Vec<(u16, u32)>)
        ensures
            r@ == winners(catalog(), |b: Bets| bet_id(b), |b: Bets| bet_payout(b, (d1, d2, d3))),
    {
        proof {
            use_type_invariant(self);
            lemma_catalog_valid();
        }
        let roll = Result::new(d1, d2, d3);
        let ghost key = |b: Bets| bet_id(b);
        let ghost pay = |b: Bets| bet_payout(b, (d1, d2, d3));
        let mut r: Vec<(u16, u32)> = Vec::new();
        let mut i: usize = 0;
        while i < self.all_bets.len()
            invariant
                i <= self.all_bets.len(),
                self.all_bets@ == catalog(),
                forall|j: int| 0 <= j < catalog().len() ==> valid_bet(#[trigger] catalog()[j]),
                roll.dice() == (d1, d2, d3),
                key == (|b: Bets| bet_id(b)),
                pay == (|b: Bets| bet_payout(b, (d1, d2, d3))),
                r@ == winners(catalog().subrange(0, i as int), key, pay),
            decreases self.all_bets.len() - i,
        {
            proof {
                lemma_winners_step(catalog(), i as int, key, pay);
            }
            let b = self.all_bets[i];
            let c = b.bingo(&roll);
            if c > 0 {
                let ratio = b.ratio();
                proof {
                    vstd::arithmetic::mul::lemma_mul_upper_bound(
                        ratio as int,
                        150,
                        c as int,
                        3,
                    );
                }
                r.push((b.to_u16(), (ratio * c as u32 + 1) * 100));
            }
            i = i + 1;
        }
        assert(catalog().subrange(0, catalog().len() as int) =~= catalog());
        r
    }
}

/// Every entry of the catalog is a bet of the game.
pub proof fn lemma_catalog_valid()
    ensures
        forall|j: int| 0 <= j < catalog().len() ==> valid_bet(#[trigger] catalog()[j]),
{
    simple::lemma_valid();
    single::lemma_valid();
    double::lemma_valid();
    triple::lemma_valid();
    pair::lemma_valid();
    total::lemma_valid();
    assert forall|j: int| 0 <= j < catalog().len() implies valid_bet(#[trigger] catalog()[j]) by {
        let s1 = simple::family();
        let s2 = s1 + single::family();
        let s3 = s2 + double::family();
        let s4 = s3 + triple::family();
        let s5 = s4 + pair::family();
        if j < s1.len() {
            assert(valid_bet(s1[j]));
        } else if j < s2.len() {
            assert(valid_bet(single::family()[j - s1.len()]));
        } else if j < s3.len() {
            assert(valid_bet(double::family()[j - s2.len()]));
        } else if j < s4.len() {
            assert(valid_bet(triple::family()[j - s3.len()]));
        } else if j < s5.len() {
            assert(valid_bet(pair::family()[j - s4.len()]));
        } else {
            assert(valid_bet(total::family()[j - s5.len()]));
        }
    }
}

} // verus!
