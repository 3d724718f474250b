//! IP address kinds, coins, and option arithmetic: enums and pattern matching.

use vstd::prelude::*;

verus! {

/// Which kind of IP address a record holds.
#[derive(Debug)]
pub enum IpAddrKind {
    V4,
    V6(String),
    V8(u8, u8, u8, u8),
}

/// An address together with its kind.
#[derive(Debug)]
pub struct IpAddr {
    pub kind: IpAddrKind,
    pub address: String,
}

impl IpAddrKind {
    /// Wraps an address string as a version-six kind.
    pub fn new_v6(address: String) -> (kind: IpAddrKind)
        ensures
            kind == IpAddrKind::V6(address),
    {
        let kind = IpAddrKind::V6(address);
        kind
    }
}

/// The states a dime can come from.
#[derive(Debug)]
pub enum UsState {
    NewYork,
    California,
    Alaska,
}

/// American coins, where a dime remembers its state.
#[derive(Debug)]
pub enum Coin {
    Penny,
    Nickel,
    Dime(UsState),
}

/// A coin's worth in cents.
pub fn value_in_cents(coin: Coin) -> (cents: u8)
    ensures
        cents == match coin {
            Coin::Penny => 1u8,
            Coin::Nickel => 5u8,
            Coin::Dime(_) => 10u8,
        },
{
    match coin {
        Coin::Penny => 1,
        Coin::Nickel => 5,
        Coin::Dime(_state) => 10,
    }
}

/// One more than the given number, or zero where there was none.
pub fn plus_one(x: Option<i32>) -> (r: Option<i32>)
    requires
        x matches Some(i) ==> i < i32::MAX,
    ensures
        match x {
            Some(i) => r == Some((i + 1) as i32),
            None => r == Some(0i32),
        },
{
    match x {
        Some(i) => Some(i + 1),
        _ => Some(0),
    }
}

} // verus!
