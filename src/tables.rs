//! Bookkeeping of a table's rounds.
use vstd::prelude::*;

verus! {

/// One round of a table: its identifier, the hand number in the shoe, and
/// when betting opened and closed.
pub struct Round {
    pub id: u64,
    pub hand: u8,
    pub start_time: u64,
    pub end_time: u64,
}

} // verus!
