use std::collections::{HashMap, HashSet};

use casino::baccarat::common::{Baccarat, Result};
use casino::card::Card;
use casino::notation::str_to_card;
use casino::baccarat::sevenup_baccarat::{payout_map, ratio7, valid_bets, Bets};

fn card(s: &str) -> Card {
    str_to_card(s).unwrap()
}

fn expect(pairs: &[(Bets, f64)]) -> HashMap<Bets, f64> {
    pairs.iter().cloned().collect()
}

fn ratios(v: &[(Bets, u32)]) -> HashMap<Bets, f64> {
    v.iter().map(|&(k, r)| (k, r as f64 / 100.0)).collect()
}

#[test]
fn test_payout_1() {
        let cards = vec![card("D7"), card("C2"), card("CJ"), card("CA"), card("HJ")];
        let b = Baccarat::from(&cards).unwrap();
        assert_eq!(3, b.banker_total_cards());
        assert_eq!(Result::Player(7), b.result());
        let m = payout_map(&b);
        assert_eq!(ratios(&m), expect(&[(Bets::Player, 1.5)]));
    }

#[test]
fn test_payout_2() {
        let cards = vec![card("D7"), card("S4"), card("SA"), card("CJ")];
        let b = Baccarat::from(&cards).unwrap();
        assert_eq!(2, b.banker_total_cards());
        assert_eq!(Result::Player(8), b.result());
        let m = payout_map(&b);
        assert_eq!(ratios(&m), expect(&[(Bets::Player, 2.0)]));
    }

#[test]
fn test_payout_3() {
        let cards = vec![
            card("D7"),
            card("D5"),
            card("D7"),
            card("H6"),
            card("CT"),
            card("S6"),
        ];
        let b = Baccarat::from(&cards).unwrap();
        assert_eq!(3, b.banker_total_cards());
        assert_eq!(Result::Banker(7), b.result());
        let m = payout_map(&b);
        assert_eq!(ratios(&m), expect(&[(Bets::Banker, 2.5), (Bets::Super7, 2.5)]));
    }

#[test]
fn test_payout_4() {
        let cards = vec![card("D7"), card("H8"), card("D5"), card("ST")];
        let b = Baccarat::from(&cards).unwrap();
        assert_eq!(2, b.banker_total_cards());
        assert_eq!(Result::Banker(8), b.result());
        let m = payout_map(&b);
        assert_eq!(ratios(&m), expect(&[(Bets::Banker, 2.0)]));
    }

#[test]
fn test_payout_5() {
        let cards = vec![card("D7"), card("H9"), card("HQ"), card("H8")];
        let b = Baccarat::from(&cards).unwrap();
        assert_eq!(2, b.banker_total_cards());
        assert_eq!(Result::Tie(7), b.result());
        let m = payout_map(&b);
        assert_eq!(ratios(&m), expect(&[(Bets::Banker, 1.0), (Bets::Player, 1.0), (Bets::Tie, 10.0)]));
    }

#[test]
fn test_payout_6() {
        let cards = vec![card("D7"), card("H8"), card("SA"), card("CK")];
        let b = Baccarat::from(&cards).unwrap();
        assert_eq!(2, b.banker_total_cards());
        assert_eq!(Result::Tie(8), b.result());
        let m = payout_map(&b);
        assert_eq!(ratios(&m), expect(&[(Bets::Banker, 1.0), (Bets::Player, 1.0), (Bets::Tie, 8.0)]));
    }

#[test]
fn test_payout_7() {
        let cards = vec![
            card("D7"),
            card("H4"),
            card("H7"),
            card("D7"),
            card("S6"),
            card("HK"),
        ];
        let b = Baccarat::from(&cards).unwrap();
        assert_eq!(3, b.banker_total_cards());
        assert_eq!(Result::Banker(1), b.result());
        let m = payout_map(&b);
        assert_eq!(ratios(&m), expect(&[(Bets::Banker, 2.0), (Bets::Super7, 7.0)]));
    }

#[test]
fn test_ratio7() {
        assert_eq!(Some(77800), ratio7(6));
        assert_eq!(Some(7800), ratio7(5));
        assert_eq!(Some(1600), ratio7(4));
        assert_eq!(Some(700), ratio7(3));
        assert_eq!(Some(250), ratio7(2));
        assert_eq!(None, ratio7(1));
    }

#[test]
fn sevenup_baccarat_test_valid_bets() {
        let s1 = valid_bets(40);
        assert_eq!(4, s1.len());
        assert_eq!([Bets::Banker,Bets::Player,Bets::Tie,Bets::Super7].iter().cloned().collect::<HashSet<Bets>>(), s1.iter().cloned().collect::<HashSet<Bets>>());
        let s1 = valid_bets(41);
        assert_eq!(3, s1.len());
        assert_eq!([Bets::Banker,Bets::Player,Bets::Tie].iter().cloned().collect::<HashSet<Bets>>(), s1.iter().cloned().collect::<HashSet<Bets>>());
    }

