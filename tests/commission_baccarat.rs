use std::collections::{HashMap, HashSet};

use casino::baccarat::common::{Baccarat, Result};
use casino::card::Card;
use casino::notation::str_to_card;
use casino::baccarat::commission_baccarat::{result_payout_map, Bets, CommissionBaccarat};

fn card(s: &str) -> Card {
    str_to_card(s).unwrap()
}

fn expect(pairs: &[(Bets, f64)]) -> HashMap<Bets, f64> {
    pairs.iter().cloned().collect()
}

fn ratios(v: &[(Bets, u32)]) -> HashMap<Bets, f64> {
    v.iter().map(|&(k, r)| (k, r as f64 / 100.0)).collect()
}

#[test]
fn commission_baccarat_test_valid_bets() {
        let b = CommissionBaccarat::new();
        let r = b.valid_bets(1);
        assert_eq!(12, r.len());
        let r = b.valid_bets(41);
        assert_eq!(10, r.len());
        let r = b.valid_bets(71);
        assert_eq!(8, r.len())
    }

#[test]
fn commission_baccarat_test_result_payout_map_tie() {
        let expected = expect(&[(Bets::Tie, 9.0), (Bets::Player, 1.0), (Bets::Banker, 1.0)]);
        assert_eq!(ratios(&result_payout_map(Result::Tie(0))), expected);
        assert_eq!(ratios(&result_payout_map(Result::Tie(1))), expected);
        assert_eq!(ratios(&result_payout_map(Result::Tie(2))), expected);
        assert_eq!(ratios(&result_payout_map(Result::Tie(3))), expected);
        assert_eq!(ratios(&result_payout_map(Result::Tie(4))), expected);
        assert_eq!(ratios(&result_payout_map(Result::Tie(5))), expected);
        assert_eq!(ratios(&result_payout_map(Result::Tie(6))), expected);
        assert_eq!(ratios(&result_payout_map(Result::Tie(7))), expected);
        assert_eq!(ratios(&result_payout_map(Result::Tie(8))), expected);
        assert_eq!(ratios(&result_payout_map(Result::Tie(9))), expected);
    }

#[test]
fn commission_baccarat_test_result_payout_map_banker() {
        let expected = expect(&[(Bets::Banker, 1.95)]);
        assert_eq!(ratios(&result_payout_map(Result::Banker(1))), expected);
        assert_eq!(ratios(&result_payout_map(Result::Banker(2))), expected);
        assert_eq!(ratios(&result_payout_map(Result::Banker(3))), expected);
        assert_eq!(ratios(&result_payout_map(Result::Banker(4))), expected);
        assert_eq!(ratios(&result_payout_map(Result::Banker(5))), expected);
        assert_eq!(ratios(&result_payout_map(Result::Banker(6))), expected);
        assert_eq!(ratios(&result_payout_map(Result::Banker(7))), expected);
        assert_eq!(ratios(&result_payout_map(Result::Banker(8))), expect(&[(Bets::Banker, 1.95), (Bets::BankerN8, 9.0)])
        );
        assert_eq!(ratios(&result_payout_map(Result::Banker(9))), expect(&[(Bets::Banker, 1.95), (Bets::BankerN9, 9.0)])
        );
    }

#[test]
fn commission_baccarat_test_result_payout_map_player() {
        let expected = expect(&[(Bets::Player, 2.0)]);
        assert_eq!(ratios(&result_payout_map(Result::Player(1))), expected);
        assert_eq!(ratios(&result_payout_map(Result::Player(2))), expected);
        assert_eq!(ratios(&result_payout_map(Result::Player(3))), expected);
        assert_eq!(ratios(&result_payout_map(Result::Player(4))), expected);
        assert_eq!(ratios(&result_payout_map(Result::Player(5))), expected);
        assert_eq!(ratios(&result_payout_map(Result::Player(6))), expected);
        assert_eq!(ratios(&result_payout_map(Result::Player(7))), expected);
        assert_eq!(ratios(&result_payout_map(Result::Player(8))), expect(&[(Bets::Player, 2.0), (Bets::PlayerN8, 9.0)])
        );
        assert_eq!(ratios(&result_payout_map(Result::Player(9))), expect(&[(Bets::Player, 2.0), (Bets::PlayerN9, 9.0)])
        );
    }

