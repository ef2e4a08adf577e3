//! Non-commission Baccarat: the banker pays 1.5 on a six and 2 otherwise;
//! Big and Small are offered.
use vstd::prelude::*;
use crate::payout::winners;
use super::common::{Baccarat, Result};
use super::classical_baccarat::{
    bets_in_tier, catalog, hand_ratio, outcome_ratio, payout_map_with, result_map_with, tier,
    tier_bets,
};

pub use super::classical_baccarat::Bets;

verus! {

pub struct NonCommissionBaccaratGame;

/// The bets that may be placed once `hands` hands were dealt from the shoe.
pub fn valid_bets(hands: usize) -> (r: Vec<Bets>)
    ensures
        r@ == tier_bets(tier(hands as int)),
{
    if hands <= 40 {
        bets_in_tier(0)
    } else if hands <= 70 {
        bets_in_tier(1)
    } else {
        bets_in_tier(2)
    }
}

/// Payouts of a hand, in catalog order.
pub fn payout_map(b: &Baccarat) -> (r: Vec<(Bets, u32)>)
    ensures
        r@ == winners(catalog(), |x: Bets| x, |x: Bets| hand_ratio(b@, false, true, x)),
{
    payout_map_with(b, false, true)
}

/// Payouts of the bets decided by the outcome alone, in catalog order.
pub fn result_payout_map(result: Result) -> (r: Vec<(Bets, u32)>)
    ensures
        r@ == winners(catalog(), |x: Bets| x, |x: Bets| outcome_ratio(result, false, x)),
{
    result_map_with(result, false)
}

} // verus!
