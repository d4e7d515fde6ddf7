//! Words and signed amounts as text.
//!
//! Two encodings are in use: hexadecimal with a leading `0x`, and plain decimal. A
//! negative number has a leading `-` in both, and zero never has one.

use crate::word::{limbs_value, U256};
use vstd::prelude::*;
use vstd::string::*;

verus! {

/// The character of one digit, in bases up to sixteen.
pub open spec fn digit_char(digit: nat) -> char {
    seq!['0', '1', '2', '3', '4', '5', '6', '7', '8', '9', 'a', 'b', 'c', 'd', 'e', 'f'][digit as int]
}

/// The digits of a number in a base, the most significant first, without leading zeros.
pub open spec fn digits(number: nat, base: nat) -> Seq<char>
    decreases number,
{
    if base < 2 || number < base {
        seq![digit_char(number)]
    } else {
        proof {
            vstd::arithmetic::div_mod::lemma_div_decreases(number as int, base as int);
        }
        digits(number / base, base).push(digit_char(number % base))
    }
}

/// A number in hexadecimal with its `0x`.
pub open spec fn hex_text(number: nat) -> Seq<char> {
    seq!['0', 'x'] + digits(number, 16)
}

/// A number in decimal.
pub open spec fn decimal_text(number: nat) -> Seq<char> {
    digits(number, 10)
}

/// A signed number in hexadecimal: the sign, if it is negative, before the `0x`.
pub open spec fn signed_hex_text(number: int) -> Seq<char> {
    if number < 0 {
        seq!['-'] + hex_text((-number) as nat)
    } else {
        hex_text(number as nat)
    }
}

/// A signed number in decimal.
pub open spec fn signed_decimal_text(number: int) -> Seq<char> {
    if number < 0 {
        seq!['-'] + decimal_text((-number) as nat)
    } else {
        decimal_text(number as nat)
    }
}

/// The number with a sign and a magnitude.
pub open spec fn signed_value(negative: bool, magnitude: nat) -> int {
    if negative {
        -magnitude
    } else {
        magnitude as int
    }
}

/// `LowerHex` of `U256` of `alloy_primitives`, in a plain `{:x}`: the lower-case
/// hexadecimal digits of the number, without a prefix or leading zeros.
#[verifier::external_body]
fn limbs_to_hex_digits(limbs: [u64; 4]) -> (text: String)
    ensures
        text@ == digits(limbs_value(limbs@), 16),
{
    format!("{:x}", alloy_primitives::U256::from_limbs(limbs))
}

/// `Display` of `U256` of `alloy_primitives`, in a plain `{}`: the decimal digits of
/// the number, without leading zeros.
#[verifier::external_body]
fn limbs_to_decimal_digits(limbs: [u64; 4]) -> (text: String)
    ensures
        text@ == digits(limbs_value(limbs@), 10),
{
    format!("{}", alloy_primitives::U256::from_limbs(limbs))
}

/// A word in hexadecimal with its `0x`.
pub fn u256_to_hex(value: U256) -> (text: String)
    ensures
        text@ == hex_text(value@),
{
    proof {
        reveal_strlit("0x");
    }
    let mut text = "0x".to_owned();
    let body = limbs_to_hex_digits(value.limbs);
    text.append(body.as_str());
    assert(text@ =~= hex_text(value@));
    text
}

/// A word in decimal.
pub fn u256_to_decimal(value: U256) -> (text: String)
    ensures
        text@ == decimal_text(value@),
{
    limbs_to_decimal_digits(value.limbs)
}

/// A sign and a magnitude in hexadecimal. Zero is `0x0`, whatever the sign.
pub fn signed_u256_to_hex(negative: bool, magnitude: U256) -> (text: String)
    ensures
        text@ == signed_hex_text(signed_value(negative, magnitude@)),
{
    if negative && !magnitude.is_zero() {
        proof {
            reveal_strlit("-");
        }
        let mut text = "-".to_owned();
        let body = u256_to_hex(magnitude);
        text.append(body.as_str());
        assert(text@ =~= seq!['-'] + hex_text(magnitude@));
        text
    } else {
        u256_to_hex(magnitude)
    }
}

/// A sign and a magnitude in decimal. Zero is `0`, whatever the sign.
pub fn signed_u256_to_decimal(negative: bool, magnitude: U256) -> (text: String)
    ensures
        text@ == signed_decimal_text(signed_value(negative, magnitude@)),
{
    if negative && !magnitude.is_zero() {
        proof {
            reveal_strlit("-");
        }
        let mut text = "-".to_owned();
        let body = u256_to_decimal(magnitude);
        text.append(body.as_str());
        assert(text@ =~= seq!['-'] + decimal_text(magnitude@));
        text
    } else {
        u256_to_decimal(magnitude)
    }
}

/// What a balance changed by, in decimal.
pub fn signed_balance_delta(before: U256, after: U256) -> (text: String)
    ensures
        text@ == signed_decimal_text(after@ - before@),
{
    proof {
        crate::word::word_is_bounded(before);
        crate::word::word_is_bounded(after);
    }
    if before.exceeds(&after) {
        signed_u256_to_decimal(true, before.minus(after))
    } else {
        signed_u256_to_decimal(false, after.minus(before))
    }
}

/// The value of one digit, in bases up to sixteen.
pub open spec fn digit_value(digit: char) -> nat {
    if '0' <= digit <= '9' {
        (digit as int - '0' as int) as nat
    } else {
        (digit as int - 'a' as int + 10) as nat
    }
}

/// The number that digits in a base stand for, the most significant first.
pub open spec fn digits_value(text: Seq<char>, base: nat) -> nat
    decreases text.len(),
{
    if text.len() == 0 {
        0
    } else {
        digits_value(text.drop_last(), base) * base + digit_value(text.last())
    }
}

/// The number that a text in hexadecimal with an optional sign stands for.
pub open spec fn signed_hex_value(text: Seq<char>) -> int {
    if text.len() > 0 && text[0] == '-' {
        -(digits_value(text.skip(3), 16) as int)
    } else {
        digits_value(text.skip(2), 16) as int
    }
}

/// The number that a text in decimal with an optional sign stands for.
pub open spec fn signed_decimal_value(text: Seq<char>) -> int {
    if text.len() > 0 && text[0] == '-' {
        -(digits_value(text.skip(1), 10) as int)
    } else {
        digits_value(text, 10) as int
    }
}

/// Reading the digits of a number gives the number back. They are all digits of the
/// base, and the first is zero only if the number is.
pub proof fn digits_read_back(number: nat, base: nat)
    requires
        2 <= base <= 16,
    ensures
        digits_value(digits(number, base), base) == number,
        digits(number, base).len() > 0,
        digits(number, base)[0] == '0' <==> number == 0,
        forall|i: int|
            0 <= i < digits(number, base).len() ==> exists|digit: nat|
                digit < base && #[trigger] digits(number, base)[i] == #[trigger] digit_char(digit),
    decreases number,
{
    let text = digits(number, base);
    if number < base {
        assert(text.drop_last() =~= Seq::empty());
        assert(digits_value(text.drop_last(), base) == 0);
        assert(0 * base == 0) by (nonlinear_arith);
        assert(text.last() == digit_char(number));
        assert forall|i: int| 0 <= i < text.len() implies exists|digit: nat|
            digit < base && #[trigger] text[i] == #[trigger] digit_char(digit) by {
            assert(text[i] == digit_char(number));
        }
    } else {
        vstd::arithmetic::div_mod::lemma_div_decreases(number as int, base as int);
        vstd::arithmetic::div_mod::lemma_fundamental_div_mod(number as int, base as int);
        vstd::arithmetic::div_mod::lemma_mod_bound(number as int, base as int);
        assert(number / base >= 1) by (nonlinear_arith)
            requires
                number >= base,
                base >= 2,
        ;
        let rest = digits(number / base, base);
        digits_read_back(number / base, base);
        assert(text.drop_last() =~= rest);
        assert(text.last() == digit_char(number % base));
        assert((number / base) * base == base * (number / base)) by (nonlinear_arith);
        assert(text[0] == rest[0]);
        assert forall|i: int| 0 <= i < text.len() implies exists|digit: nat|
            digit < base && #[trigger] text[i] == #[trigger] digit_char(digit) by {
            if i < rest.len() {
                assert(text[i] == rest[i]);
            } else {
                assert(text[i] == digit_char(number % base));
            }
        }
    }
}

/// Reading a signed hexadecimal text gives the number back.
pub proof fn signed_hex_reads_back(number: int)
    ensures
        signed_hex_value(signed_hex_text(number)) == number,
{
    let text = signed_hex_text(number);
    if number < 0 {
        digits_read_back((-number) as nat, 16);
        assert(text.skip(3) =~= digits((-number) as nat, 16));
    } else {
        digits_read_back(number as nat, 16);
        assert(text.skip(2) =~= digits(number as nat, 16));
    }
}

/// Reading a signed decimal text gives the number back.
pub proof fn signed_decimal_reads_back(number: int)
    ensures
        signed_decimal_value(signed_decimal_text(number)) == number,
{
    let text = signed_decimal_text(number);
    if number < 0 {
        digits_read_back((-number) as nat, 10);
        assert(text.skip(1) =~= decimal_text((-number) as nat));
    } else {
        digits_read_back(number as nat, 10);
        assert(exists|digit: nat| digit < 10 && #[trigger] text[0] == #[trigger] digit_char(digit));
    }
}

/// The text of what a balance changed by leads from the balance before to the balance
/// after.
pub proof fn delta_leads_to_after(before: U256, after: U256)
    ensures
        before@ + signed_decimal_value(signed_decimal_text(after@ - before@)) == after@,
{
    signed_decimal_reads_back(after@ - before@);
}

/// Different numbers have different texts, in both encodings.
pub proof fn signed_texts_differ(left: int, right: int)
    requires
        left != right,
    ensures
        signed_hex_text(left) != signed_hex_text(right),
        signed_decimal_text(left) != signed_decimal_text(right),
{
    signed_hex_reads_back(left);
    signed_hex_reads_back(right);
    signed_decimal_reads_back(left);
    signed_decimal_reads_back(right);
}

} // verus!
