use vstd::prelude::*;

verus! {

/// The two families of IP address.
#[derive(Debug, Clone, Copy, PartialEq, Eq, Structural)]
pub enum IpAddrKind {
    V4,
    V6,
}

/// An IP address with its data carried by the variant.
#[derive(Debug)]
pub enum IpAddr {
    V4(u8, u8, u8, u8),
    V6(String),
}

/// A message with a differently shaped payload for each variant.
#[derive(Debug)]
pub enum Message {
    Quit,
    Move { x: i32, y: i32 },
    Write(String),
    ChangeColor(i32, i32, i32),
}

/// A state on the back of a quarter.
#[derive(Debug, Clone, Copy, PartialEq, Eq, Structural)]
pub enum UsState {
    Alabama,
    Alaska,
    California,
    Colorado,
    Delaware,
    Georgia,
    Idaho,
    Kentucky,
}

/// A US coin; a quarter names its state.
#[derive(Debug, Clone, Copy, PartialEq, Eq, Structural)]
pub enum Coin {
    Penny,
    Nickel,
    Dime,
    Quarter(UsState),
}

/// The worth of a coin in cents.
pub open spec fn cents(coin: Coin) -> u8 {
    match coin {
        Coin::Penny => 1,
        Coin::Nickel => 5,
        Coin::Dime => 10,
        Coin::Quarter(_) => 25,
    }
}

/// The worth of `coin` in cents.
pub fn value_in_cents(coin: Coin) -> (r: u8)
    ensures
        r == cents(coin),
{
    match coin {
        Coin::Penny => 1,
        Coin::Nickel => 5,
        Coin::Dime => 10,
        Coin::Quarter(_) => 25,
    }
}

/// Adds one to a present value and keeps an absent one absent.
pub fn plus_one(x: Option<i32>) -> (r: Option<i32>)
    requires
        x != Some(i32::MAX),
    ensures
        r == match x {
            None => None,
            Some(i) => Some((i + 1) as i32),
        },
{
    match x {
        None => None,
        Some(i) => Some(i + 1),
    }
}

/// The English word for `n` when it is one of 1, 3, 5 and 7.
pub fn odd_digit_name(n: u8) -> (r: Option<String>)
    ensures
        n == 1 ==> (r matches Some(s) && s@ == "one"@),
        n == 3 ==> (r matches Some(s) && s@ == "three"@),
        n == 5 ==> (r matches Some(s) && s@ == "five"@),
        n == 7 ==> (r matches Some(s) && s@ == "seven"@),
        n != 1 && n != 3 && n != 5 && n != 7 ==> r is None,
{
    match n {
        1 => Some(String::from_str("one")),
        3 => Some(String::from_str("three")),
        5 => Some(String::from_str("five")),
        7 => Some(String::from_str("seven")),
        _ => None,
    }
}

} // verus!
