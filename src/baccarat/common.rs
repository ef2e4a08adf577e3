//! A finalized Baccarat hand and its outcome.
use vstd::prelude::*;
use crate::card::Card;
use super::{hand_points, rank_value, total_points, value_of_card};
use super::dealer::{
    deals_complete_hand, init_baccarat_dealer, initial_state, lemma_run_keeps_shape, run,
    BaccaratStatus,
};

verus! {

/// The outcome of a hand: the winning side with its points, or a tie with the
/// points of both sides.
#[derive(PartialEq, Eq, Clone, Copy, Debug, Structural)]
pub enum Result {
    Player(u8),
    Banker(u8),
    Tie(u8),
}

/// The outcome of a hand whose banker holds `tb` points and whose player holds `tp`.
pub open spec fn outcome_of(tb: nat, tp: nat) -> Result {
    if tb > tp {
        Result::Banker(tb as u8)
    } else if tb < tp {
        Result::Player(tp as u8)
    } else {
        Result::Tie(tb as u8)
    }
}

pub open spec fn result_points(r: Result) -> u8 {
    match r {
        Result::Player(n) => n,
        Result::Banker(n) => n,
        Result::Tie(n) => n,
    }
}

impl Result {
    pub fn total_points(&self) -> (n: u8)
        ensures
            n == result_points(*self),
    {
        match *self {
            Result::Player(n) => n,
            Result::Banker(n) => n,
            Result::Tie(n) => n,
        }
    }
}

/// Number of cards of a hand whose Baccarat value is `v`.
pub open spec fn count_value(cards: Seq<Card>, v: nat) -> nat
    decreases cards.len(),
{
    if cards.len() == 0 {
        0
    } else {
        count_value(cards.drop_last(), v) + if rank_value(cards.last().rank) == v {
            1nat
        } else {
            0nat
        }
    }
}

/// A complete hand: banker cards and player cards, two or three on each side.
#[derive(Debug)]
pub struct Baccarat {
    pub(crate) banker_cards: Vec<Card>,
    pub(crate) player_cards: Vec<Card>,
}

impl View for Baccarat {
    type V = (Seq<Card>, Seq<Card>);

    closed spec fn view(&self) -> (Seq<Card>, Seq<Card>) {
        (self.banker_cards@, self.player_cards@)
    }
}

/// Points of the banker's hand.
pub open spec fn banker_points(h: (Seq<Card>, Seq<Card>)) -> nat {
    hand_points(h.0)
}

/// Points of the player's hand.
pub open spec fn player_points(h: (Seq<Card>, Seq<Card>)) -> nat {
    hand_points(h.1)
}

/// The outcome of a complete hand.
pub open spec fn hand_result(h: (Seq<Card>, Seq<Card>)) -> Result {
    outcome_of(banker_points(h), player_points(h))
}

/// Both sides hold two or three cards.
pub open spec fn complete_shape(h: (Seq<Card>, Seq<Card>)) -> bool {
    2 <= h.0.len() <= 3 && 2 <= h.1.len() <= 3
}

fn first2(cards: &Vec<Card>) -> (r: (Card, Card))
    requires
        cards.len() >= 2,
    ensures
        r == (cards@[0], cards@[1]),
{
    (cards[0], cards[1])
}

fn count(cards: &Vec<Card>, v: u8) -> (n: usize)
    requires
        cards.len() <= 3,
    ensures
        n as nat == count_value(cards@, v as nat),
        n <= cards.len(),
{
    let mut n: usize = 0;
    let mut i: usize = 0;
    while i < cards.len()
        invariant
            i <= cards.len() <= 3,
            n <= i,
            n as nat == count_value(cards@.subrange(0, i as int), v as nat),
        decreases cards.len() - i,
    {
        assert(cards@.subrange(0, i + 1).drop_last() =~= cards@.subrange(0, i as int));
        if value_of_card(&cards[i]) == v {
            n = n + 1;
        }
        i = i + 1;
    }
    assert(cards@.subrange(0, cards.len() as int) =~= cards@);
    n
}

impl Baccarat {
    #[verifier::type_invariant]
    spec fn shape_inv(&self) -> bool {
        complete_shape(self@)
    }

    pub fn result(&self) -> (r: Result)
        ensures
            r == hand_result(self@),
            r matches Result::Banker(n) ==> n as nat == banker_points(self@) && banker_points(
                self@,
            ) > player_points(self@),
            r matches Result::Player(n) ==> n as nat == player_points(self@) && player_points(
                self@,
            ) > banker_points(self@),
            r matches Result::Tie(n) ==> n as nat == banker_points(self@) && banker_points(self@)
                == player_points(self@),
            result_points(r) <= 9,
    {
        let tb = total_points(&self.banker_cards);
        let tp = total_points(&self.player_cards);
        if tb > tp {
            Result::Banker(tb)
        } else if tb < tp {
            Result::Player(tp)
        } else {
            Result::Tie(tb)
        }
    }

    /// Points of the banker's hand, between 0 and 9.
    pub fn banker_total_points(&self) -> (t: u8)
        ensures
            t as nat == banker_points(self@),
            t <= 9,
    {
        total_points(&self.banker_cards)
    }

    /// Points of the player's hand, between 0 and 9.
    pub fn player_total_points(&self) -> (t: u8)
        ensures
            t as nat == player_points(self@),
            t <= 9,
    {
        total_points(&self.player_cards)
    }

    pub fn banker_first2(&self) -> (r: (Card, Card))
        ensures
            r == (self@.0[0], self@.0[1]),
    {
        proof {
            use_type_invariant(self);
        }
        first2(&self.banker_cards)
    }

    pub fn player_first2(&self) -> (r: (Card, Card))
        ensures
            r == (self@.1[0], self@.1[1]),
    {
        proof {
            use_type_invariant(self);
        }
        first2(&self.player_cards)
    }

    /// The banker's first two cards are of the same rank.
    pub fn is_banker_pair(&self) -> (r: bool)
        ensures
            r == (self@.0[0].rank == self@.0[1].rank),
    {
        let (c1, c2) = self.banker_first2();
        c1.is_same_rank(&c2)
    }

    /// The player's first two cards are of the same rank.
    pub fn is_player_pair(&self) -> (r: bool)
        ensures
            r == (self@.1[0].rank == self@.1[1].rank),
    {
        let (c1, c2) = self.player_first2();
        c1.is_same_rank(&c2)
    }

    pub fn banker_total_cards(&self) -> (n: usize)
        ensures
            n == self@.0.len(),
    {
        self.banker_cards.len()
    }

    pub fn total_cards(&self) -> (n: usize)
        ensures
            n == self@.0.len() + self@.1.len(),
            complete_shape(self@),
    {
        proof {
            use_type_invariant(self);
        }
        self.banker_total_cards() + self.player_cards.len()
    }

    /// Number of cards, on both sides, whose Baccarat value is `v`.
    pub fn count_cards(&self, v: u8) -> (n: usize)
        ensures
            n == count_value(self@.0, v as nat) + count_value(self@.1, v as nat),
    {
        proof {
            use_type_invariant(self);
        }
        count(&self.banker_cards, v) + count(&self.player_cards, v)
    }

    /// Deals `cards` from a fresh hand; the finished hand, or `None` when a card
    /// is refused or the hand is still incomplete after the last card.
    pub fn from(cards: &Vec<Card>) -> (r: Option<Baccarat>)
        ensures
            r.is_some() == deals_complete_hand(cards@),
            r matches Some(b) ==> run(initial_state(), cards@) == Some(
                (b@.0, b@.1, BaccaratStatus::Done),
            ),
    {
        let mut init = init_baccarat_dealer();
        let mut i: usize = 0;
        assert(cards@.subrange(0, cards.len() as int) =~= cards@);
        while i < cards.len()
            invariant
                i <= cards.len(),
                run(init@, cards@.subrange(i as int, cards.len() as int)) == run(
                    initial_state(),
                    cards@,
                ),
            decreases cards.len() - i,
        {
            let ghost rest = cards@.subrange(i as int, cards.len() as int);
            assert(rest.subrange(1, rest.len() as int) =~= cards@.subrange(
                i + 1,
                cards.len() as int,
            ));
            let result = init.deal(cards[i]);
            if !result {
                return None;
            }
            i = i + 1;
        }
        assert(cards@.subrange(cards.len() as int, cards.len() as int) =~= Seq::<Card>::empty());
        if init.is_done() {
            proof {
                lemma_run_keeps_shape(initial_state(), cards@);
            }
            return Some(Baccarat { banker_cards: init.banker_cards, player_cards: init.player_cards });
        }
        None
    }
}

} // verus!
