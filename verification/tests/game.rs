use std::borrow::Cow;
use std::cmp::Ordering;

use esp_playground::decimal::to_decimal;
use esp_playground::guess::GuessingGame;
use esp_playground::ordinal::nth;

#[test]
fn nth_words_up_to_nine() {
    assert_eq!(nth(0), "zeroth");
    assert_eq!(nth(1), "first");
    assert_eq!(nth(2), "second");
    assert_eq!(nth(3), "third");
    assert_eq!(nth(5), "fifth");
    assert_eq!(nth(9), "ninth");
}

#[test]
fn nth_ten_to_thirteen_end_in_th() {
    assert_eq!(nth(10), "10th");
    assert_eq!(nth(11), "11th");
    assert_eq!(nth(12), "12th");
    assert_eq!(nth(13), "13th");
}

#[test]
fn nth_above_thirteen_follows_last_digit_outside_teens() {
    assert_eq!(nth(14), "14th");
    assert_eq!(nth(21), "21st");
    assert_eq!(nth(22), "22nd");
    assert_eq!(nth(23), "23rd");
    assert_eq!(nth(100), "100th");
    assert_eq!(nth(101), "101st");
    assert_eq!(nth(102), "102nd");
    assert_eq!(nth(103), "103rd");
    assert_eq!(nth(4294967295), "4294967295th");
}

#[test]
fn decimal_text() {
    assert_eq!(to_decimal(0), "0");
    assert_eq!(to_decimal(7), "7");
    assert_eq!(to_decimal(1234567890), "1234567890");
    assert_eq!(to_decimal(u128::MAX), u128::MAX.to_string());
}

#[test]
fn parse_guess_accepts_numbers_in_range() {
    assert_eq!(GuessingGame::parse_guess("50"), Some(50));
    assert_eq!(GuessingGame::parse_guess("1"), Some(1));
    assert_eq!(GuessingGame::parse_guess("100"), Some(100));
    assert_eq!(GuessingGame::parse_guess("+5"), Some(5));
    assert_eq!(GuessingGame::parse_guess("007"), Some(7));
}

#[test]
fn parse_guess_trims_controls_and_white_space() {
    assert_eq!(GuessingGame::parse_guess(" 7\r\n"), Some(7));
    assert_eq!(GuessingGame::parse_guess("42\0\0\0\0\0\0"), Some(42));
    assert_eq!(GuessingGame::parse_guess("\x1b\t 33 \x7f"), Some(33));
    assert_eq!(GuessingGame::parse_guess("\u{3000}9\u{a0}"), Some(9));
}

#[test]
fn parse_guess_refuses_other_text() {
    assert_eq!(GuessingGame::parse_guess("0"), None);
    assert_eq!(GuessingGame::parse_guess("101"), None);
    assert_eq!(GuessingGame::parse_guess("abc"), None);
    assert_eq!(GuessingGame::parse_guess(""), None);
    assert_eq!(GuessingGame::parse_guess("   "), None);
    assert_eq!(GuessingGame::parse_guess("+"), None);
    assert_eq!(GuessingGame::parse_guess("-5"), None);
    assert_eq!(GuessingGame::parse_guess("4 2"), None);
    assert_eq!(GuessingGame::parse_guess("++4"), None);
    assert_eq!(GuessingGame::parse_guess("99999999999"), None);
    assert_eq!(GuessingGame::parse_guess("٣"), None);
}

#[test]
fn decimal_guesses_read_back() {
    for n in 1..=100u32 {
        assert_eq!(GuessingGame::parse_guess(&to_decimal(n as u128)), Some(n));
    }
}

#[test]
fn new_game_has_no_guess() {
    let g = GuessingGame::new(42);
    assert_eq!(g.guesses, 0);
    assert_eq!(g.secret, 42);
    assert!(!g.done);
}

#[test]
fn guesses_are_counted_and_compared() {
    let mut g = GuessingGame::new(42);
    assert_eq!(g.guess(50), (Ordering::Greater, 1));
    assert_eq!(g.guess(10), (Ordering::Less, 2));
    assert!(!g.done);
    assert_eq!(g.guess(42), (Ordering::Equal, 3));
    assert!(g.done);
}

#[test]
fn finished_game_stays_finished() {
    let mut g = GuessingGame::new(7);
    assert_eq!(g.guess(7), (Ordering::Equal, 1));
    assert_eq!(g.guess(3), (Ordering::Equal, 1));
    assert_eq!(g.guess(90), (Ordering::Equal, 1));
    assert_eq!(g.guesses, 1);
    assert!(g.done);
}

#[test]
fn nth_teens_above_a_hundred_end_in_th() {
    assert_eq!(nth(111), "111th");
    assert_eq!(nth(112), "112th");
    assert_eq!(nth(113), "113th");
    assert_eq!(nth(1011), "1011th");
    assert_eq!(nth(1012), "1012th");
    assert_eq!(nth(213), "213th");
    assert_eq!(nth(4294967211), "4294967211th");
    assert_eq!(nth(121), "121st");
}

#[test]
fn nth_values_are_distinct() {
    let all: Vec<Cow<'static, str>> = (0..2000u32).map(nth).collect();
    for i in 0..all.len() {
        for j in (i + 1)..all.len() {
            assert_ne!(all[i], all[j]);
        }
    }
}

#[test]
fn padding_does_not_change_guess() {
    for s in ["42", "abc", "", "+7", "101", "4 2", " 9 "] {
        let padded = format!("\u{3000}\t\0{}\r\n\x7f\u{2028}", s);
        assert_eq!(GuessingGame::parse_guess(&padded), GuessingGame::parse_guess(s));
    }
}

#[test]
fn nth_allocates_only_above_thirteen() {
    for n in 0..=13u32 {
        assert!(matches!(nth(n), Cow::Borrowed(_)));
    }
    for n in [14u32, 21, 111, 4294967295] {
        assert!(matches!(nth(n), Cow::Owned(_)));
    }
}
