//! Numbers as text, for the readable forms of configurations, generators and
//! errors.

use vstd::prelude::*;
use vstd::string::{StrSliceExecFns, StringExecFns};

verus! {

/// The digit for a value below sixteen.
pub open spec fn digit(value: nat) -> char {
    "0123456789abcdef"@[value as int]
}

/// A number written in a base from two to sixteen, most significant digit
/// first, with no leading zero but for zero itself.
pub open spec fn numeral(number: nat, base: nat) -> Seq<char>
    decreases number,
    via numeral_shortens
{
    if base < 2 || number < base {
        seq![digit(number)]
    } else {
        numeral(number / base, base).push(digit(number % base))
    }
}

#[via_fn]
proof fn numeral_shortens(number: nat, base: nat) {
    if 2 <= base <= number {
        lemma_quotient_is_smaller(number, base);
    }
}

/// Dividing a number by a base of two or more, where the number is not below
/// the base, gives a smaller one.
proof fn lemma_quotient_is_smaller(number: nat, base: nat)
    requires
        2 <= base <= number,
    ensures
        number / base < number,
{
    assert(number / base < number) by (nonlinear_arith)
        requires
            2 <= base <= number,
    ;
}

/// The value a signed byte is written as in hexadecimal: itself where it is
/// not negative, its two's complement where it is.
pub open spec fn byte_value(byte: i8) -> nat {
    if byte >= 0 {
        byte as nat
    } else {
        (byte + 256) as nat
    }
}

fn digit_text(value: u64) -> (text: &'static str)
    requires
        value < 16,
    ensures
        text@ == seq![digit(value as nat)],
{
    proof {
        reveal_strlit("0123456789abcdef");
    }
    let from: usize = value as usize;
    let text = "0123456789abcdef".substring_ascii(from, from + 1);
    assert(text@ =~= seq![digit(value as nat)]);
    text
}

fn numeral_text(number: u64, base: u64) -> (text: String)
    requires
        2 <= base <= 16,
    ensures
        text@ == numeral(number as nat, base as nat),
    decreases number,
{
    if number < base {
        String::from_str(digit_text(number))
    } else {
        proof {
            lemma_quotient_is_smaller(number as nat, base as nat);
        }
        let mut text = numeral_text(number / base, base);
        text.append(digit_text(number % base));
        assert(text@ =~= numeral(number as nat, base as nat));
        text
    }
}

/// Writes a number in decimal.
pub fn decimal(number: u64) -> (text: String)
    ensures
        text@ == numeral(number as nat, 10),
{
    numeral_text(number, 10)
}

/// Writes a number in hexadecimal, with lowercase letters.
pub fn hexadecimal(number: u64) -> (text: String)
    ensures
        text@ == numeral(number as nat, 16),
{
    numeral_text(number, 16)
}

/// Writes a signed byte in hexadecimal, a negative one as its two's
/// complement.
pub fn hexadecimal_byte(byte: i8) -> (text: String)
    ensures
        text@ == numeral(byte_value(byte), 16),
{
    if byte >= 0 {
        numeral_text(byte as u64, 16)
    } else {
        let lifted: i16 = byte as i16 + 256;
        numeral_text(lifted as u64, 16)
    }
}

} // verus!
