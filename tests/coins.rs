use coin_counter::coin::{coin_gen, draw_coin, state_gen, value_in_cents, Coin, UsState};

#[test]
fn penny_nickel_dime_values() {
    assert_eq!(value_in_cents(Coin::Penny), (1, String::new()));
    assert_eq!(value_in_cents(Coin::Nickel), (5, String::new()));
    assert_eq!(value_in_cents(Coin::Dime), (10, String::new()));
}

#[test]
fn quarter_value_and_message() {
    let (cents, msg) = value_in_cents(Coin::Quarter(UsState::Delaware));
    assert_eq!(cents, 25);
    assert_eq!(msg, "State quarter from Delaware!");
}

#[test]
fn quarter_message_holds_state_name() {
    for i in 0..50u8 {
        let s = state_gen(i);
        let (cents, msg) = value_in_cents(Coin::Quarter(s));
        assert_eq!(cents, 25);
        assert!(!msg.is_empty());
        assert!(msg.contains(s.name()));
    }
    let (_, msg) = value_in_cents(Coin::Quarter(UsState::NewHampshire));
    assert_eq!(msg, "State quarter from NewHampshire!");
}

#[test]
fn every_coin_is_a_known_denomination() {
    for idx in 0..=255u8 {
        let (cents, _) = value_in_cents(draw_coin(idx, idx));
        assert!([1u8, 5, 10, 25].contains(&cents));
    }
}

#[test]
fn draw_coin_by_index() {
    assert_eq!(draw_coin(0, 7), Coin::Penny);
    assert_eq!(draw_coin(1, 7), Coin::Nickel);
    assert_eq!(draw_coin(2, 7), Coin::Dime);
    assert_eq!(draw_coin(3, 7), Coin::Quarter(UsState::Delaware));
    assert_eq!(draw_coin(200, 0), Coin::Quarter(UsState::Alabama));
    assert_eq!(draw_coin(255, 49), Coin::Quarter(UsState::Wyoming));
}

#[test]
fn state_gen_first_last_and_out_of_range() {
    assert_eq!(state_gen(0), UsState::Alabama);
    assert_eq!(state_gen(7), UsState::Delaware);
    assert_eq!(state_gen(49), UsState::Wyoming);
    assert_eq!(state_gen(50), UsState::NoState);
    assert_eq!(state_gen(255), UsState::NoState);
}

#[test]
fn state_gen_is_distinct_and_stable() {
    let mut seen: Vec<UsState> = Vec::new();
    for i in 0..50u8 {
        let s = state_gen(i);
        assert_ne!(s, UsState::NoState);
        assert_eq!(s, state_gen(i));
        assert!(!seen.contains(&s));
        seen.push(s);
    }
    assert_eq!(seen.len(), 50);
}

#[test]
fn coin_gen_kinds() {
    for _ in 0..50 {
        assert_eq!(coin_gen(0), Coin::Penny);
        assert_eq!(coin_gen(1), Coin::Nickel);
        assert_eq!(coin_gen(2), Coin::Dime);
        match coin_gen(3) {
            Coin::Quarter(s) => assert_ne!(s, UsState::NoState),
            other => panic!("expected a quarter, got {:?}", other),
        }
    }
}
