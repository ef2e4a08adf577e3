use vstd::prelude::*;

verus! {

#[derive(Clone, Copy, PartialEq, Eq, Debug, Hash, Structural)]
pub enum Suit {
    Diamond,
    Club,
    Heart,
    Spade,
}

#[derive(Clone, Copy, PartialEq, Eq, Debug, Hash, Structural)]
pub enum Rank {
    Ace,
    Two,
    Three,
    Four,
    Five,
    Six,
    Seven,
    Eight,
    Nine,
    Ten,
    Jack,
    Queen,
    King,
}

/// A playing card: a plain value, copied freely.
#[derive(Clone, Copy, PartialEq, Eq, Debug, Hash, Structural)]
pub struct Card {
    pub suit: Suit,
    pub rank: Rank,
}

/// Diamonds and hearts are red; clubs and spades are black.
pub open spec fn suit_is_red(s: Suit) -> bool {
    s == Suit::Heart || s == Suit::Diamond
}

impl Card {
    pub fn is_same_rank(&self, c: &Card) -> (r: bool)
        ensures
            r == (self.rank == c.rank),
    {
        self.rank == c.rank
    }

    pub fn is_same_suit(&self, c: &Card) -> (r: bool)
        ensures
            r == (self.suit == c.suit),
    {
        self.suit == c.suit
    }

    pub fn is_diamond(&self) -> (r: bool)
        ensures
            r == (self.suit == Suit::Diamond),
    {
        self.suit == Suit::Diamond
    }

    pub fn is_red(&self) -> (r: bool)
        ensures
            r == suit_is_red(self.suit),
    {
        self.suit == Suit::Heart || self.suit == Suit::Diamond
    }

    pub fn is_black(&self) -> (r: bool)
        ensures
            r == !suit_is_red(self.suit),
    {
        !self.is_red()
    }
}

} // verus!
