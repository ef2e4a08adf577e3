//! Commission Baccarat: the banker pays 1.95; Big and Small are offered.
use vstd::prelude::*;
use crate::payout::winners;
use super::common::{Baccarat, Result};
use super::classical_baccarat::{catalog, hand_ratio, outcome_ratio, payout_map_with, result_map_with};

pub use super::classical_baccarat::{all_bets, bets_after40, bets_after70, Bets, CommissionBaccarat};

verus! {

/// Payouts of a hand, in catalog order.
pub fn payout_map(b: &Baccarat) -> (r: Vec<(Bets, u32)>)
    ensures
        r@ == winners(catalog(), |x: Bets| x, |x: Bets| hand_ratio(b@, true, true, x)),
{
    payout_map_with(b, true, true)
}

/// Payouts of the bets decided by the outcome alone, in catalog order.
pub fn result_payout_map(result: Result) -> (r: Vec<(Bets, u32)>)
    ensures
        r@ == winners(catalog(), |x: Bets| x, |x: Bets| outcome_ratio(result, true, x)),
{
    result_map_with(result, true)
}

} // verus!
