use rust_basics::branches::{countdown, first_divisor};
use rust_basics::enums::{odd_digit_name, plus_one, value_in_cents, Coin, UsState};
use rust_basics::error_handling::{after_open, panic_examples, NextStep, OpenOutcome};
use rust_basics::functions::expression_example;

#[test]
fn coin_values() {
    assert_eq!(value_in_cents(Coin::Penny), 1);
    assert_eq!(value_in_cents(Coin::Nickel), 5);
    assert_eq!(value_in_cents(Coin::Dime), 10);
    assert_eq!(value_in_cents(Coin::Quarter(UsState::Alabama)), 25);
}

#[test]
fn plus_one_keeps_none() {
    assert_eq!(plus_one(Some(5)), Some(6));
    assert_eq!(plus_one(None), None);
    assert_eq!(plus_one(Some(-1)), Some(0));
}

#[test]
fn odd_digit_names() {
    assert_eq!(odd_digit_name(3), Some(String::from("three")));
    assert_eq!(odd_digit_name(7), Some(String::from("seven")));
    assert_eq!(odd_digit_name(0), None);
    assert_eq!(odd_digit_name(2), None);
}

#[test]
fn six_is_divisible_by_three() {
    assert_eq!(first_divisor(6), Some(3));
    assert_eq!(first_divisor(8), Some(4));
    assert_eq!(first_divisor(10), Some(2));
    assert_eq!(first_divisor(7), None);
    assert_eq!(first_divisor(0), Some(4));
    assert_eq!(first_divisor(-9), Some(3));
}

#[test]
fn countdown_to_one() {
    assert_eq!(countdown(3), vec![3, 2, 1]);
    assert!(countdown(0).is_empty());
}

#[test]
fn block_value_is_six() {
    assert_eq!(expression_example(), 6);
}

#[test]
fn open_outcomes_decide_next_step() {
    panic_examples();
    assert_eq!(after_open(OpenOutcome::Opened), NextStep::Use);
    assert_eq!(after_open(OpenOutcome::NotFound), NextStep::Create);
    assert_eq!(after_open(OpenOutcome::Failed), NextStep::Halt);
}
