use coin_counter::coin::{Coin, UsState};
use coin_counter::purse::{
    as_currency_string, coin_counter_lines, fill_purse, purse_from_draws, purse_report, summary_line,
    total_purse,
};

#[test]
fn currency_formats() {
    assert_eq!(as_currency_string(0), "$0.00");
    assert_eq!(as_currency_string(137), "$1.37");
    assert_eq!(as_currency_string(5), "$0.05");
    assert_eq!(as_currency_string(41), "$0.41");
    assert_eq!(as_currency_string(100), "$1.00");
    assert_eq!(as_currency_string(123456), "$1234.56");
    assert_eq!(as_currency_string(u64::MAX), "$184467440737095516.15");
}

#[test]
fn summary_line_text() {
    assert_eq!(summary_line(4, 41), "The 4 coins in your purse are worth $0.41");
    assert_eq!(summary_line(0, 0), "The 0 coins in your purse are worth $0.00");
    assert_eq!(summary_line(12, 210), "The 12 coins in your purse are worth $2.10");
}

#[test]
fn forced_draws_purse() {
    let purse = purse_from_draws(&vec![(0, 7), (1, 7), (2, 7), (3, 7)]);
    assert_eq!(
        purse,
        vec![Coin::Penny, Coin::Nickel, Coin::Dime, Coin::Quarter(UsState::Delaware)]
    );
    let (total, msgs) = total_purse(&purse);
    assert_eq!(total, 41);
    assert_eq!(msgs, vec!["State quarter from Delaware!".to_string()]);
    assert_eq!(as_currency_string(total), "$0.41");
    assert_eq!(
        purse_report(&purse),
        vec![
            "State quarter from Delaware!".to_string(),
            "The 4 coins in your purse are worth $0.41".to_string(),
        ]
    );
}

#[test]
fn empty_purse() {
    let purse = purse_from_draws(&vec![]);
    assert!(purse.is_empty());
    assert!(fill_purse(0).is_empty());
    let (total, msgs) = total_purse(&purse);
    assert_eq!(total, 0);
    assert!(msgs.is_empty());
    assert_eq!(
        purse_report(&purse),
        vec!["The 0 coins in your purse are worth $0.00".to_string()]
    );
    assert_eq!(
        coin_counter_lines(0),
        vec!["The 0 coins in your purse are worth $0.00".to_string()]
    );
}

#[test]
fn messages_keep_purse_order() {
    let purse = vec![
        Coin::Quarter(UsState::Texas),
        Coin::Dime,
        Coin::Quarter(UsState::Alaska),
        Coin::Quarter(UsState::Texas),
    ];
    let (total, msgs) = total_purse(&purse);
    assert_eq!(total, 85);
    assert_eq!(
        msgs,
        vec![
            "State quarter from Texas!".to_string(),
            "State quarter from Alaska!".to_string(),
            "State quarter from Texas!".to_string(),
        ]
    );
}

#[test]
fn fill_purse_draws_real_coins() {
    let purse = fill_purse(500);
    assert_eq!(purse.len(), 500);
    assert!(purse.iter().all(|c| *c != Coin::Quarter(UsState::NoState)));
    let kinds = [Coin::Penny, Coin::Nickel, Coin::Dime];
    assert!(purse.iter().any(|c| kinds.contains(c)));
    assert!(purse.iter().any(|c| matches!(c, Coin::Quarter(_))));
}

#[test]
fn coin_counter_lines_report() {
    let lines = coin_counter_lines(10);
    let summary = lines.last().unwrap();
    assert!(summary.starts_with("The 10 coins in your purse are worth $"));
    for line in &lines[..lines.len() - 1] {
        assert!(line.starts_with("State quarter from "));
    }
    assert!(lines.len() <= 11);
}
