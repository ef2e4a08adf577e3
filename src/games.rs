//! Wire identifiers of bets, shared by every game.
use vstd::prelude::*;

verus! {

/// A bijection between a game's bets and their `u16` wire identifiers.
pub trait BetSerde: Sized {
    /// The values of the type that stand for a bet of the game.
    spec fn is_bet(&self) -> bool;

    /// The wire identifier of a bet.
    spec fn wire_id(&self) -> u16;

    /// The bet an identifier stands for, if any.
    spec fn decode(id: u16) -> Option<Self>;

    fn from_u16(id: u16) -> (r: Option<Self>)
        ensures
            r == Self::decode(id),
    ;

    fn to_u16(&self) -> (r: u16)
        requires
            self.is_bet(),
        ensures
            r == self.wire_id(),
    ;

    /// Reading back the identifier of a bet gives the bet.
    proof fn lemma_round_trip(b: Self)
        requires
            b.is_bet(),
        ensures
            Self::decode(b.wire_id()) == Some(b),
    ;

    /// An identifier that reads as a bet is that bet's identifier.
    proof fn lemma_decode_is_bet(id: u16)
        ensures
            Self::decode(id) matches Some(b) ==> b.is_bet() && b.wire_id() == id,
    ;
}

/// Two bets of a game with the same identifier are the same bet.
pub proof fn lemma_wire_id_injective<B: BetSerde>(a: B, b: B)
    requires
        a.is_bet(),
        b.is_bet(),
        a.wire_id() == b.wire_id(),
    ensures
        a == b,
{
    B::lemma_round_trip(a);
    B::lemma_round_trip(b);
}

/// Every identifier of the batch reads as a bet.
pub open spec fn all_known<B: BetSerde, A>(bets: Seq<(u16, A)>) -> bool {
    forall|i: int| 0 <= i < bets.len() ==> B::decode(#[trigger] bets[i].0).is_some()
}

/// Reads a batch of placed bets, identifier and amount, as the game's
/// bets. The batch is refused whole when one identifier is unknown.
pub fn from_raw_bets<B: BetSerde, A: Copy>(bets: &Vec<(u16, A)>) -> (r: Option<Vec<(B, A)>>)
    ensures
        r.is_some() == all_known::<B, A>(bets@),
        r matches Some(v) ==> v@.len() == bets@.len() && forall|i: int|
            0 <= i < bets@.len() ==> #[trigger] v@[i] == (
                B::decode(bets@[i].0).unwrap(),
                bets@[i].1,
            ),
{
    let mut m: Vec<(B, A)> = Vec::new();
    let mut i: usize = 0;
    while i < bets.len()
        invariant
            i <= bets.len(),
            m@.len() == i,
            forall|j: int| 0 <= j < i ==> B::decode(#[trigger] bets@[j].0).is_some(),
            forall|j: int|
                0 <= j < i ==> #[trigger] m@[j] == (B::decode(bets@[j].0).unwrap(), bets@[j].1),
        decreases bets.len() - i,
    {
        let (k, v) = bets[i];
        match B::from_u16(k) {
            Some(b) => {
                m.push((b, v));
            },
            None => {
                return None;
            },
        }
        i = i + 1;
    }
    Some(m)
}

} // verus!
