//! FizzBuzz, with the decimal numerals it falls back on.

use vstd::prelude::*;
use vstd::string::StringExecFns;

verus! {

/// The numeral of a single digit.
pub open spec fn digit(d: nat) -> Seq<char>
    recommends
        d < 10,
{
    if d == 0 {
        "0"@
    } else if d == 1 {
        "1"@
    } else if d == 2 {
        "2"@
    } else if d == 3 {
        "3"@
    } else if d == 4 {
        "4"@
    } else if d == 5 {
        "5"@
    } else if d == 6 {
        "6"@
    } else if d == 7 {
        "7"@
    } else if d == 8 {
        "8"@
    } else {
        "9"@
    }
}

/// The decimal numeral of `n`, without leading zeros.
pub open spec fn decimal(n: nat) -> Seq<char>
    decreases n,
{
    if n < 10 {
        digit(n)
    } else {
        decimal(n / 10) + digit(n % 10)
    }
}

/// What FizzBuzz says for `i`.
pub open spec fn fizz_buzz_spec(i: nat) -> Seq<char> {
    if i % 15 == 0 {
        "FizzBuzz"@
    } else if i % 3 == 0 {
        "Fizz"@
    } else if i % 5 == 0 {
        "Buzz"@
    } else {
        decimal(i)
    }
}

/// The numeral of the digit `d`.
pub fn digit_str(d: u32) -> (s: &'static str)
    requires
        d < 10,
    ensures
        s@ == digit(d as nat),
{
    if d == 0 {
        "0"
    } else if d == 1 {
        "1"
    } else if d == 2 {
        "2"
    } else if d == 3 {
        "3"
    } else if d == 4 {
        "4"
    } else if d == 5 {
        "5"
    } else if d == 6 {
        "6"
    } else if d == 7 {
        "7"
    } else if d == 8 {
        "8"
    } else {
        "9"
    }
}

/// The decimal numeral of `n`.
pub fn to_decimal(n: u32) -> (s: String)
    ensures
        s@ == decimal(n as nat),
    decreases n,
{
    if n < 10 {
        digit_str(n).to_owned()
    } else {
        let mut s = to_decimal(n / 10);
        s.append(digit_str(n % 10));
        s
    }
}

/// Very naive implementation of FizzBuzz
pub fn fizz_buzz(i: u32) -> (s: String)
    ensures
        s@ == fizz_buzz_spec(i as nat),
{
    if i % 15 == 0 {
        "FizzBuzz".to_owned()
    } else if i % 3 == 0 {
        "Fizz".to_owned()
    } else if i % 5 == 0 {
        "Buzz".to_owned()
    } else {
        to_decimal(i)
    }
}

} // verus!
