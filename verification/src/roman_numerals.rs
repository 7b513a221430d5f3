//! Roman numerals, written greedily from the largest value down.

use vstd::prelude::*;
use vstd::string::*;

verus! {

/// The Roman numeral of `number`, built by always taking the largest
/// value whose letters still fit; zero is written as the empty string.
pub open spec fn spec_roman(number: nat) -> Seq<char>
    decreases number,
{
    if number >= 1000 {
        "M"@ + spec_roman((number - 1000) as nat)
    } else if number >= 900 {
        "CM"@ + spec_roman((number - 900) as nat)
    } else if number >= 500 {
        "D"@ + spec_roman((number - 500) as nat)
    } else if number >= 400 {
        "CD"@ + spec_roman((number - 400) as nat)
    } else if number >= 100 {
        "C"@ + spec_roman((number - 100) as nat)
    } else if number >= 90 {
        "XC"@ + spec_roman((number - 90) as nat)
    } else if number >= 50 {
        "L"@ + spec_roman((number - 50) as nat)
    } else if number >= 40 {
        "XL"@ + spec_roman((number - 40) as nat)
    } else if number >= 10 {
        "X"@ + spec_roman((number - 10) as nat)
    } else if number >= 9 {
        "IX"@ + spec_roman((number - 9) as nat)
    } else if number >= 5 {
        "V"@ + spec_roman((number - 5) as nat)
    } else if number >= 4 {
        "IV"@ + spec_roman((number - 4) as nat)
    } else if number >= 1 {
        "I"@ + spec_roman((number - 1) as nat)
    } else {
        Seq::empty()
    }
}

/// Writes `number` as a Roman numeral.
pub fn to_roman_numeral(number: u16) -> (numeral: String)
    ensures
        numeral@ == spec_roman(number as nat),
    decreases number,
{
    if number >= 1000 {
        String::from_str("M").concat(to_roman_numeral(number - 1000).as_str())
    } else if number >= 900 {
        String::from_str("CM").concat(to_roman_numeral(number - 900).as_str())
    } else if number >= 500 {
        String::from_str("D").concat(to_roman_numeral(number - 500).as_str())
    } else if number >= 400 {
        String::from_str("CD").concat(to_roman_numeral(number - 400).as_str())
    } else if number >= 100 {
        String::from_str("C").concat(to_roman_numeral(number - 100).as_str())
    } else if number >= 90 {
        String::from_str("XC").concat(to_roman_numeral(number - 90).as_str())
    } else if number >= 50 {
        String::from_str("L").concat(to_roman_numeral(number - 50).as_str())
    } else if number >= 40 {
        String::from_str("XL").concat(to_roman_numeral(number - 40).as_str())
    } else if number >= 10 {
        String::from_str("X").concat(to_roman_numeral(number - 10).as_str())
    } else if number >= 9 {
        String::from_str("IX").concat(to_roman_numeral(number - 9).as_str())
    } else if number >= 5 {
        String::from_str("V").concat(to_roman_numeral(number - 5).as_str())
    } else if number >= 4 {
        String::from_str("IV").concat(to_roman_numeral(number - 4).as_str())
    } else if number >= 1 {
        String::from_str("I").concat(to_roman_numeral(number - 1).as_str())
    } else {
        String::new()
    }
}

} // verus!
