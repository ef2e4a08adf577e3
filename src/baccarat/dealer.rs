//! The Baccarat dealing state machine: it takes cards one at a time and
//! applies the draw/stand ("third card") rules until the hand is complete.
use vstd::prelude::*;
use crate::card::{Card, Rank, Suit};
use super::{hand_points, rank_value, total_points, value_of_card};

verus! {

#[derive(Copy, Clone, PartialEq, Eq, Debug, Structural)]
pub enum BaccaratStatus {
    ExpectPlayer,
    ExpectBanker,
    Done,
}

/// Banker cards, player cards and status of a hand under construction.
pub type DealState = (Seq<Card>, Seq<Card>, BaccaratStatus);

pub struct BaccaratDealer {
    pub banker_cards: Vec<Card>,
    pub player_cards: Vec<Card>,
    pub status: BaccaratStatus,
}

impl View for BaccaratDealer {
    type V = DealState;

    open spec fn view(&self) -> DealState {
        (self.banker_cards@, self.player_cards@, self.status)
    }
}

/// With two cards on `tb` points, the banker stands after the player drew a
/// third card worth `cv`.
pub open spec fn banker_stands(tb: nat, cv: nat) -> bool {
    let stand3 = cv == 8;
    let stand4 = stand3 || cv == 0 || cv == 1 || cv == 9;
    let stand5 = stand4 || cv == 2 || cv == 3;
    let stand6 = stand5 || cv == 4 || cv == 5;
    tb == 7 || (stand3 && tb == 3) || (stand4 && tb == 4) || (stand5 && tb == 5) || (stand6
        && tb == 6)
}

/// Status once a card was added to the player's hand (`player` includes it).
pub open spec fn status_after_player(banker: Seq<Card>, player: Seq<Card>) -> BaccaratStatus {
    if player.len() <= 2 {
        BaccaratStatus::ExpectBanker
    } else if banker_stands(hand_points(banker), rank_value(player.last().rank)) {
        BaccaratStatus::Done
    } else {
        BaccaratStatus::ExpectBanker
    }
}

/// Status once a card was added to the banker's hand (`banker` includes it).
pub open spec fn status_after_banker(banker: Seq<Card>, player: Seq<Card>) -> BaccaratStatus {
    let tp = hand_points(player);
    let tb = hand_points(banker);
    if banker.len() == 1 {
        BaccaratStatus::ExpectPlayer
    } else if banker.len() == 2 {
        if tp == 8 || tp == 9 || tb == 8 || tb == 9 {
            BaccaratStatus::Done
        } else if tp <= 5 {
            BaccaratStatus::ExpectPlayer
        } else if tb <= 5 {
            BaccaratStatus::ExpectBanker
        } else {
            BaccaratStatus::Done
        }
    } else {
        BaccaratStatus::Done
    }
}

/// One card dealt: the next state, or `None` when the card is refused (the
/// hand is complete, or the side expected already holds three cards).
pub open spec fn step(s: DealState, c: Card) -> Option<DealState> {
    let (banker, player, status) = s;
    match status {
        BaccaratStatus::Done => None,
        BaccaratStatus::ExpectPlayer => if player.len() >= 3 {
            None
        } else {
            Some((banker, player.push(c), status_after_player(banker, player.push(c))))
        },
        BaccaratStatus::ExpectBanker => if banker.len() >= 3 {
            None
        } else {
            Some((banker.push(c), player, status_after_banker(banker.push(c), player)))
        },
    }
}

/// Deals `cards` in order from `s`: the final state, or `None` if a card was refused.
pub open spec fn run(s: DealState, cards: Seq<Card>) -> Option<DealState>
    decreases cards.len(),
{
    if cards.len() == 0 {
        Some(s)
    } else {
        match step(s, cards[0]) {
            Some(t) => run(t, cards.subrange(1, cards.len() as int)),
            None => None,
        }
    }
}

/// The state in which every hand starts: no cards, the player's card expected.
pub open spec fn initial_state() -> DealState {
    (Seq::empty(), Seq::empty(), BaccaratStatus::ExpectPlayer)
}

/// `cards` deal a complete hand from the start.
pub open spec fn deals_complete_hand(cards: Seq<Card>) -> bool {
    run(initial_state(), cards) matches Some(s) && s.2 == BaccaratStatus::Done
}

/// The states that dealing from a fresh hand can reach.
pub open spec fn reachable_shape(s: DealState) -> bool {
    let (b, p) = (s.0.len(), s.1.len());
    match s.2 {
        BaccaratStatus::ExpectPlayer => p == b && p <= 2,
        BaccaratStatus::ExpectBanker => b <= 2 && (p == b + 1 || (p == 2 && b == 2)),
        BaccaratStatus::Done => 2 <= p <= 3 && 2 <= b <= 3,
    }
}

/// Runs the dealer over `cards`; true when every card is taken and the hand is complete.
pub fn test_baccarat_cards(cards: &Vec<Card>) -> (r: bool)
    ensures
        r == deals_complete_hand(cards@),
{
    let mut init = init_baccarat_dealer();
    let mut i: usize = 0;
    assert(cards@.subrange(0, cards.len() as int) =~= cards@);
    while i < cards.len()
        invariant
            i <= cards.len(),
            run(init@, cards@.subrange(i as int, cards.len() as int)) == run(
                initial_state(),
                cards@,
            ),
        decreases cards.len() - i,
    {
        let ghost rest = cards@.subrange(i as int, cards.len() as int);
        assert(rest.subrange(1, rest.len() as int) =~= cards@.subrange(i + 1, cards.len() as int));
        let result = init.deal(cards[i]);
        if !result {
            return false;
        }
        i = i + 1;
    }
    init.status == BaccaratStatus::Done
}

pub fn init_baccarat_dealer() -> (d: BaccaratDealer)
    ensures
        d@ == initial_state(),
{
    let d = BaccaratDealer {
        banker_cards: Vec::new(),
        player_cards: Vec::new(),
        status: BaccaratStatus::ExpectPlayer,
    };
    assert(d@.0 =~= Seq::<Card>::empty());
    assert(d@.1 =~= Seq::<Card>::empty());
    d
}

/// A dealer for Sevenup Baccarat: the player's first card is the seven of diamonds.
pub fn init_sevenup_dealer() -> (d: BaccaratDealer)
    ensures
        d@ == (Seq::<Card>::empty(), seq![Card { suit: Suit::Diamond, rank: Rank::Seven }],
            BaccaratStatus::ExpectBanker),
        d@ == step(initial_state(), Card { suit: Suit::Diamond, rank: Rank::Seven }).unwrap(),
{
    let mut player_cards = Vec::new();
    player_cards.push(Card { suit: Suit::Diamond, rank: Rank::Seven });
    let d = BaccaratDealer {
        banker_cards: Vec::new(),
        player_cards,
        status: BaccaratStatus::ExpectBanker,
    };
    assert(d@.0 =~= Seq::<Card>::empty());
    assert(d@.1 =~= seq![Card { suit: Suit::Diamond, rank: Rank::Seven }]);
    assert(Seq::<Card>::empty().push(Card { suit: Suit::Diamond, rank: Rank::Seven })
        =~= d@.1);
    d
}

impl BaccaratDealer {
    pub fn is_done(&self) -> (r: bool)
        ensures
            r == (self.status == BaccaratStatus::Done),
    {
        self.status == BaccaratStatus::Done
    }

    /// Deals one card. Returns false, changing nothing, when the card is refused.
    pub fn deal(&mut self, card: Card) -> (accepted: bool)
        ensures
            accepted == step(old(self)@, card).is_some(),
            accepted ==> final(self)@ == step(old(self)@, card).unwrap(),
            !accepted ==> final(self)@ == old(self)@,
    {
        match self.status {
            BaccaratStatus::Done => false,
            BaccaratStatus::ExpectPlayer => {
                if self.player_cards.len() >= 3 {
                    return false;
                }
                self.player_cards.push(card);
                if self.player_cards.len() <= 2 {
                    self.status = BaccaratStatus::ExpectBanker;
                } else {
                    let tb = total_points(&self.banker_cards);
                    let cv = value_of_card(&card);
                    let stand3 = cv == 8;
                    let stand4 = stand3 || cv == 0 || cv == 1 || cv == 9;
                    let stand5 = stand4 || cv == 2 || cv == 3;
                    let stand6 = stand5 || cv == 4 || cv == 5;
                    if (stand3 && tb == 3) || (stand4 && tb == 4) || (stand5 && tb == 5) || (stand6
                        && tb == 6) || tb == 7 {
                        self.status = BaccaratStatus::Done;
                    } else {
                        self.status = BaccaratStatus::ExpectBanker;
                    }
                }
                true
            },
            BaccaratStatus::ExpectBanker => {
                if self.banker_cards.len() >= 3 {
                    return false;
                }
                self.banker_cards.push(card);
                if self.banker_cards.len() == 1 {
                    self.status = BaccaratStatus::ExpectPlayer;
                } else if self.banker_cards.len() == 2 {
                    let tp = total_points(&self.player_cards);
                    let tb = total_points(&self.banker_cards);
                    if tp == 8 || tp == 9 || tb == 8 || tb == 9 {
                        self.status = BaccaratStatus::Done;
                    } else if tp <= 5 {
                        self.status = BaccaratStatus::ExpectPlayer;
                    } else if tb <= 5 {
                        self.status = BaccaratStatus::ExpectBanker;
                    } else {
                        self.status = BaccaratStatus::Done;
                    }
                } else {
                    self.status = BaccaratStatus::Done;
                }
                true
            },
        }
    }
}

/// Dealing keeps a hand within the reachable shapes, and a complete hand
/// refuses every further card.
pub proof fn lemma_step_keeps_shape(s: DealState, c: Card)
    requires
        reachable_shape(s),
    ensures
        s.2 == BaccaratStatus::Done <==> step(s, c).is_none(),
        step(s, c) matches Some(t) ==> reachable_shape(t) && t.0.len() + t.1.len() == s.0.len()
            + s.1.len() + 1,
{
}

/// Dealing from a fresh hand terminates and has the right shape: every card
/// taken adds one card to a hand; while the hand is incomplete fewer than six
/// cards were dealt; a complete hand holds two or three cards on each side
/// and refuses every further card.
pub proof fn lemma_dealing_terminates(cards: Seq<Card>, extra: Card)
    ensures
        run(initial_state(), cards) matches Some(s) ==> {
            &&& s.0.len() + s.1.len() == cards.len()
            &&& s.2 != BaccaratStatus::Done ==> cards.len() < 6
            &&& s.2 == BaccaratStatus::Done ==> {
                &&& 2 <= s.0.len() <= 3
                &&& 2 <= s.1.len() <= 3
                &&& step(s, extra).is_none()
            }
        },
{
    lemma_run_keeps_shape(initial_state(), cards);
}

/// Dealing any cards from a reachable state stays within the reachable
/// states, one card more in the hands for each card dealt.
pub proof fn lemma_run_keeps_shape(s: DealState, cards: Seq<Card>)
    requires
        reachable_shape(s),
    ensures
        run(s, cards) matches Some(t) ==> reachable_shape(t) && t.0.len() + t.1.len() == s.0.len()
            + s.1.len() + cards.len(),
    decreases cards.len(),
{
    if cards.len() > 0 {
        lemma_step_keeps_shape(s, cards[0]);
        if let Some(t) = step(s, cards[0]) {
            lemma_run_keeps_shape(t, cards.subrange(1, cards.len() as int));
        }
    }
}

} // verus!
