//! Roulette: a catalog of bets, each an identifier, the numbers it covers
//! and its ratio; the ball number (0 to 36) wins every bet that covers it.
use vstd::prelude::*;
use crate::payout::{lemma_winners_step, winners};

pub mod straight;
pub mod split;
pub mod street;
pub mod corner;
pub mod line;
pub mod simple;

verus! {

/// A catalog entry as a value: identifier, numbers covered, ratio (the
/// winnings per unit staked, the stake not included).
pub type Entry = (u16, Seq<u8>, u32);

/// One bet of the catalog.
pub struct BetKind {
    pub id: u16,
    pub numbers: Vec<u8>,
    pub ratio: u32,
}

impl View for BetKind {
    type V = Entry;

    open spec fn view(&self) -> Entry {
        (self.id, self.numbers@, self.ratio)
    }
}

/// The entries of a list of bets.
pub open spec fn views(s: Seq<BetKind>) -> Seq<Entry> {
    s.map_values(|b: BetKind| b@)
}

impl BetKind {
    /// The ball number `num` wins this bet.
    pub fn bingo(&self, num: u8) -> (r: bool)
        ensures
            r == self.numbers@.contains(num),
    {
        let mut i: usize = 0;
        while i < self.numbers.len()
            invariant
                i <= self.numbers.len(),
                forall|j: int| 0 <= j < i ==> self.numbers@[j] != num,
            decreases self.numbers.len() - i,
        {
            if self.numbers[i] == num {
                return true;
            }
            i = i + 1;
        }
        false
    }
}

/// Appends a bet to the catalog under construction.
pub(crate) fn add_bet(bets: &mut Vec<BetKind>, id: u16, numbers: Vec<u8>, ratio: u32)
    ensures
        views(final(bets)@) == views(old(bets)@).push((id, numbers@, ratio)),
{
    let ghost before = views(bets@);
    bets.push(BetKind { id, numbers, ratio });
    assert(views(bets@) =~= before.push((id, numbers@, ratio)));
}

/// The whole catalog: simple bets, straights, splits, streets, corners, lines.
pub open spec fn catalog() -> Seq<Entry> {
    simple::family() + straight::family() + split::family() + street::family()
        + corner::family() + line::family()
}

/// Payout of an entry for a ball: ratio plus the stake, in hundredths.
pub open spec fn entry_payout(e: Entry, ball: u8) -> Option<u32> {
    if e.1.contains(ball) {
        Some(((e.2 + 1) * 100) as u32)
    } else {
        None
    }
}

pub struct Roulette {
    all_bets: Vec<BetKind>,
}

impl Roulette {
    #[verifier::type_invariant]
    spec fn catalog_inv(&self) -> bool {
        views(self.all_bets@) == catalog()
    }

    pub fn new() -> (g: Roulette) {
        let mut bets: Vec<BetKind> = Vec::new();
        assert(views(bets@) =~= Seq::<Entry>::empty());
        simple::all_bets(&mut bets);
        straight::all_bets(&mut bets);
        split::all_bets(&mut bets);
        street::all_bets(&mut bets);
        corner::all_bets(&mut bets);
        line::all_bets(&mut bets);
        assert(Seq::<Entry>::empty() + simple::family() =~= simple::family());
        Roulette { all_bets: bets }
    }

    /// A bet with identifier `bet_id` is in the catalog.
    pub fn valid_bets(&self, bet_id: u16) -> (r: bool)
        ensures
            r == exists|i: int| 0 <= i < catalog().len() && (#[trigger] catalog()[i]).0 == bet_id,
    {
        proof {
            use_type_invariant(self);
        }
        let mut i: usize = 0;
        while i < self.all_bets.len()
            invariant
                i <= self.all_bets.len(),
                views(self.all_bets@) == catalog(),
                forall|j: int| 0 <= j < i ==> (#[trigger] catalog()[j]).0 != bet_id,
            decreases self.all_bets.len() - i,
        {
            assert(catalog()[i as int] == self.all_bets@[i as int]@);
            if self.all_bets[i].id == bet_id {
                return true;
            }
            i = i + 1;
        }
        false
    }

    /// Payouts for the ball number `ball`: each bet that covers it, with its
    /// ratio plus the stake, in catalog order.
    pub fn payout_map(&self, ball: u8) -> (r: Vec<(u16, u32)>)
        ensures
            r@ == winners(catalog(), |e: Entry| e.0, |e: Entry| entry_payout(e, ball)),
    {
        proof {
            use_type_invariant(self);
            lemma_catalog_ratios();
        }
        let ghost key = |e: Entry| e.0;
        let ghost pay = |e: Entry| entry_payout(e, ball);
        let mut r: Vec<(u16, u32)> = Vec::new();
        let mut i: usize = 0;
        while i < self.all_bets.len()
            invariant
                i <= self.all_bets.len(),
                views(self.all_bets@) == catalog(),
                forall|j: int| 0 <= j < catalog().len() ==> (#[trigger] catalog()[j]).2 <= 35,
                key == (|e: Entry| e.0),
                pay == (|e: Entry| entry_payout(e, ball)),
                r@ == winners(catalog().subrange(0, i as int), key, pay),
            decreases self.all_bets.len() - i,
        {
            proof {
                lemma_winners_step(catalog(), i as int, key, pay);
            }
            let b = &self.all_bets[i];
            assert(catalog()[i as int] == b@);
            if b.bingo(ball) {
                r.push((b.id, (b.ratio + 1) * 100));
            }
            i = i + 1;
        }
        assert(catalog().subrange(0, catalog().len() as int) =~= catalog());
        r
    }
}

/// No bet of the catalog pays more than 35 to one.
pub proof fn lemma_catalog_ratios()
    ensures
        forall|j: int| 0 <= j < catalog().len() ==> (#[trigger] catalog()[j]).2 <= 35,
{
    simple::lemma_ratios();
    assert forall|j: int| 0 <= j < catalog().len() implies (#[trigger] catalog()[j]).2 <= 35 by {
        let s1 = simple::family();
        let s2 = s1 + straight::family();
        let s3 = s2 + split::family();
        let s4 = s3 + street::family();
        let s5 = s4 + corner::family();
        if j < s1.len() {
            assert(s1[j].2 <= 35);
        } else if j < s2.len() {
        } else if j < s3.len() {
        } else if j < s4.len() {
        } else if j < s5.len() {
        } else {
        }
    }
}

} // verus!
