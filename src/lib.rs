//! Outcome resolution and payout computation for casino table games:
//! Baccarat (several rule sets), Dragon Tiger, Roulette and Sic Bo.
pub mod card;
pub mod notation;
pub mod baccarat;
pub mod payout;
pub mod games;
pub mod dragontiger;
pub mod roulette;
pub mod sicbo;
pub mod tables;
