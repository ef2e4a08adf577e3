//! Two-character wire notation of cards: a suit letter followed by a rank letter.
use vstd::prelude::*;
use crate::card::{Card, Rank, Suit};

verus! {

pub open spec fn suit_char(s: Suit) -> char {
    match s {
        Suit::Diamond => 'D',
        Suit::Club => 'C',
        Suit::Heart => 'H',
        Suit::Spade => 'S',
    }
}

pub open spec fn rank_char(r: Rank) -> char {
    match r {
        Rank::Ace => 'A',
        Rank::Two => '2',
        Rank::Three => '3',
        Rank::Four => '4',
        Rank::Five => '5',
        Rank::Six => '6',
        Rank::Seven => '7',
        Rank::Eight => '8',
        Rank::Nine => '9',
        Rank::Ten => 'T',
        Rank::Jack => 'J',
        Rank::Queen => 'Q',
        Rank::King => 'K',
    }
}

/// The suit whose letter is `c`, if any.
pub open spec fn parse_suit(c: char) -> Option<Suit> {
    match c {
        'D' => Some(Suit::Diamond),
        'C' => Some(Suit::Club),
        'H' => Some(Suit::Heart),
        'S' => Some(Suit::Spade),
        _ => None,
    }
}

/// The rank whose letter is `c`, if any.
pub open spec fn parse_rank(c: char) -> Option<Rank> {
    match c {
        'A' => Some(Rank::Ace),
        '2' => Some(Rank::Two),
        '3' => Some(Rank::Three),
        '4' => Some(Rank::Four),
        '5' => Some(Rank::Five),
        '6' => Some(Rank::Six),
        '7' => Some(Rank::Seven),
        '8' => Some(Rank::Eight),
        '9' => Some(Rank::Nine),
        'T' => Some(Rank::Ten),
        'J' => Some(Rank::Jack),
        'Q' => Some(Rank::Queen),
        'K' => Some(Rank::King),
        _ => None,
    }
}

/// The card written as the two letters `sc`, `rc`, if both are letters of the notation.
pub open spec fn parse_card(sc: char, rc: char) -> Option<Card> {
    match (parse_suit(sc), parse_rank(rc)) {
        (Some(suit), Some(rank)) => Some(Card { suit, rank }),
        _ => None,
    }
}

/// The notation of a card: its suit letter, then its rank letter.
pub open spec fn card_text(c: Card) -> Seq<char> {
    seq![suit_char(c.suit), rank_char(c.rank)]
}

pub fn char_to_suit(c: char) -> (r: Option<Suit>)
    ensures
        r == parse_suit(c),
        r matches Some(s) ==> suit_char(s) == c,
{
    match c {
        'D' => Some(Suit::Diamond),
        'C' => Some(Suit::Club),
        'H' => Some(Suit::Heart),
        'S' => Some(Suit::Spade),
        _ => None,
    }
}

pub fn suit_to_char(suit: Suit) -> (c: char)
    ensures
        c == suit_char(suit),
{
    match suit {
        Suit::Diamond => 'D',
        Suit::Club => 'C',
        Suit::Heart => 'H',
        Suit::Spade => 'S',
    }
}

pub fn rank_to_char(rank: Rank) -> (c: char)
    ensures
        c == rank_char(rank),
{
    match rank {
        Rank::Ace => 'A',
        Rank::Two => '2',
        Rank::Three => '3',
        Rank::Four => '4',
        Rank::Five => '5',
        Rank::Six => '6',
        Rank::Seven => '7',
        Rank::Eight => '8',
        Rank::Nine => '9',
        Rank::Ten => 'T',
        Rank::Jack => 'J',
        Rank::Queen => 'Q',
        Rank::King => 'K',
    }
}

pub fn char_to_rank(c: char) -> (r: Option<Rank>)
    ensures
        r == parse_rank(c),
        r matches Some(k) ==> rank_char(k) == c,
{
    match c {
        'A' => Some(Rank::Ace),
        '2' => Some(Rank::Two),
        '3' => Some(Rank::Three),
        '4' => Some(Rank::Four),
        '5' => Some(Rank::Five),
        '6' => Some(Rank::Six),
        '7' => Some(Rank::Seven),
        '8' => Some(Rank::Eight),
        '9' => Some(Rank::Nine),
        'T' => Some(Rank::Ten),
        'J' => Some(Rank::Jack),
        'Q' => Some(Rank::Queen),
        'K' => Some(Rank::King),
        _ => None,
    }
}

/// Reads a card from its two-letter notation; anything else gives `None`.
pub fn str_to_card(s: &str) -> (r: Option<Card>)
    ensures
        r == (if s@.len() == 2 { parse_card(s@[0], s@[1]) } else { None }),
{
    if s.unicode_len() == 2 {
        let sc = s.get_char(0);
        let rc = s.get_char(1);
        return two_char_to_card(sc, rc);
    }
    None
}

pub fn two_char_to_card(sc: char, rc: char) -> (r: Option<Card>)
    ensures
        r == parse_card(sc, rc),
{
    match char_to_suit(sc) {
        Some(suit) => match char_to_rank(rc) {
            Some(rank) => Some(Card { suit, rank }),
            None => None,
        },
        None => None,
    }
}

/// Relies on `String::push`, which appends one character at the end of the string.
#[verifier::external_body]
fn push_char(s: &mut String, c: char)
    ensures
        final(s)@ == old(s)@.push(c),
{
    s.push(c)
}

pub fn card_to_str(c: Card) -> (s: String)
    ensures
        s@ == card_text(c),
{
    let mut s = String::new();
    push_char(&mut s, suit_to_char(c.suit));
    push_char(&mut s, rank_to_char(c.rank));
    assert(s@ =~= card_text(c));
    s
}

/// Writing a card down and reading it back gives the same card.
pub proof fn lemma_card_text_round_trip(c: Card)
    ensures
        parse_card(card_text(c)[0], card_text(c)[1]) == Some(c),
{
}

} // verus!
