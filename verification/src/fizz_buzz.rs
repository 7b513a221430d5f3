//! The fizz buzz counting game.

use vstd::prelude::*;
use vstd::string::*;
use crate::text::{spec_decimal, u8_to_decimal};

verus! {

/// What the game says for `number`: "fizz" for multiples of three,
/// "buzz" for multiples of five, "fizzbuzz" for multiples of both, and
/// the decimal numeral itself for everything else.
pub open spec fn spec_fizz_buzz(number: u8) -> Seq<char> {
    if number % 3 == 0 && number % 5 == 0 {
        "fizzbuzz"@
    } else if number % 3 == 0 {
        "fizz"@
    } else if number % 5 == 0 {
        "buzz"@
    } else {
        spec_decimal(number as nat)
    }
}

/// Plays one turn of the game.
pub fn fizz_buzzer(number: u8) -> (text: String)
    ensures
        text@ == spec_fizz_buzz(number),
{
    match (number % 3, number % 5) {
        (0, 0) => String::from_str("fizzbuzz"),
        (0, _) => String::from_str("fizz"),
        (_, 0) => String::from_str("buzz"),
        (_, _) => u8_to_decimal(number),
    }
}

} // verus!
