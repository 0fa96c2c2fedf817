//! Numbers as the display writes them.

use vstd::prelude::*;
use vstd::string::StringExecFns;

verus! {

/// The text of one decimal digit.
pub open spec fn digit_text(digit: int) -> Seq<char>
    recommends
        0 <= digit < 10,
{
    if digit == 0 {
        "0"@
    } else if digit == 1 {
        "1"@
    } else if digit == 2 {
        "2"@
    } else if digit == 3 {
        "3"@
    } else if digit == 4 {
        "4"@
    } else if digit == 5 {
        "5"@
    } else if digit == 6 {
        "6"@
    } else if digit == 7 {
        "7"@
    } else if digit == 8 {
        "8"@
    } else {
        "9"@
    }
}

/// A natural number in decimal, without leading zeros.
pub open spec fn spec_decimal(value: nat) -> Seq<char>
    decreases value,
{
    if value < 10 {
        digit_text(value as int)
    } else {
        spec_decimal(value / 10) + digit_text((value % 10) as int)
    }
}

/// An integer in decimal, with a minus sign where it is negative.
pub open spec fn spec_signed_decimal(value: int) -> Seq<char> {
    if value < 0 {
        "-"@ + spec_decimal((-value) as nat)
    } else {
        spec_decimal(value as nat)
    }
}

/// A number of hundredths as a decimal number with two decimals.
pub open spec fn spec_two_decimals(hundredths: nat) -> Seq<char> {
    spec_decimal(hundredths / 100) + "."@ + digit_text(((hundredths / 10) % 10) as int)
        + digit_text((hundredths % 10) as int)
}

/// The text of one decimal digit.
fn digit(value: u64) -> (text: &'static str)
    requires
        value < 10,
    ensures
        text@ == digit_text(value as int),
{
    let digits: [&'static str; 10] = ["0", "1", "2", "3", "4", "5", "6", "7", "8", "9"];
    digits[value as usize]
}

/// Writes a natural number in decimal.
pub fn decimal_text(value: u64) -> (text: String)
    ensures
        text@ == spec_decimal(value as nat),
    decreases value,
{
    if value < 10 {
        digit(value).to_owned()
    } else {
        let mut text: String = decimal_text(value / 10);
        text.append(digit(value % 10));
        text
    }
}

/// Writes an integer in decimal.
pub fn signed_decimal_text(value: i32) -> (text: String)
    ensures
        text@ == spec_signed_decimal(value as int),
{
    if value < 0 {
        let magnitude: u64 = (-(value as i64)) as u64;
        let digits: String = decimal_text(magnitude);
        let mut text: String = "-".to_owned();
        text.append(digits.as_str());
        text
    } else {
        decimal_text(value as u64)
    }
}

/// Writes a number of hundredths with two decimals.
pub fn two_decimals_text(hundredths: u64) -> (text: String)
    ensures
        text@ == spec_two_decimals(hundredths as nat),
{
    let mut text: String = decimal_text(hundredths / 100);
    text.append(".");
    text.append(digit((hundredths / 10) % 10));
    text.append(digit(hundredths % 10));
    text
}

} // verus!
