use rust_basics::back_of_house::{Appetizer, Breakfast};
use rust_basics::hosting::add_to_waitlist;

#[test]
fn it_works() {
    assert_eq!(2 + 2, 4);
}

#[test]
fn summer_breakfast_keeps_the_chosen_toast() {
    add_to_waitlist();
    let mut meal = Breakfast::summer("Rye");
    assert_eq!(meal.toast, "Rye");
    meal.toast = String::from("Wheat");
    assert_eq!(meal.toast, "Wheat");
    let order = Appetizer::Soup;
    assert!(matches!(order, Appetizer::Soup));
    assert!(matches!(Appetizer::Salad, Appetizer::Salad));
}
