//! 256-bit unsigned words.
//!
//! A [`U256`] holds the four limbs of a word as plain integers. Its arithmetic is
//! done by `alloy_primitives`, one small function for each operation.

use vstd::prelude::*;

verus! {

/// The number of values that a 256-bit word can take.
pub open spec fn word_limit() -> nat {
    0x1_0000000000000000_0000000000000000_0000000000000000_0000000000000000nat
}

/// The number that four 64-bit limbs stand for, the least significant limb first.
pub open spec fn limbs_value(limbs: Seq<u64>) -> nat {
    (limbs[0] + 0x1_0000000000000000 * limbs[1] + 0x1_0000000000000000_0000000000000000 * limbs[2]
        + 0x1_0000000000000000_0000000000000000_0000000000000000 * limbs[3]) as nat
}

/// The number that a sequence of bytes stands for, the most significant byte first.
pub open spec fn be_value(bytes: Seq<u8>) -> nat
    decreases bytes.len(),
{
    if bytes.len() == 0 {
        0
    } else {
        be_value(bytes.drop_last()) * 256 + bytes.last() as nat
    }
}

/// A 256-bit unsigned integer.
#[derive(Clone, Copy, Debug, PartialEq, Eq, Hash)]
pub struct U256 {
    /// The limbs, least significant first.
    pub limbs: [u64; 4],
}

impl View for U256 {
    type V = nat;

    open spec fn view(&self) -> nat {
        limbs_value(self.limbs@)
    }
}

/// `U256::from_be_bytes` of `alloy_primitives`: the number that 32 bytes stand for
/// in big-endian order.
#[verifier::external_body]
fn limbs_from_be_bytes(bytes: [u8; 32]) -> (limbs: [u64; 4])
    ensures
        limbs_value(limbs@) == be_value(bytes@),
{
    alloy_primitives::U256::from_be_bytes(bytes).into_limbs()
}

/// `+` on `U256` of `alloy_primitives`: the sum, reduced to 256 bits when it is larger.
#[verifier::external_body]
fn limbs_plus(left: [u64; 4], right: [u64; 4]) -> (limbs: [u64; 4])
    ensures
        limbs_value(limbs@) == (limbs_value(left@) + limbs_value(right@)) % word_limit(),
{
    (alloy_primitives::U256::from_limbs(left) + alloy_primitives::U256::from_limbs(right)).into_limbs()
}

/// `-` on `U256` of `alloy_primitives`: the difference, wrapped round to 256 bits when
/// it is negative.
#[verifier::external_body]
fn limbs_minus(left: [u64; 4], right: [u64; 4]) -> (limbs: [u64; 4])
    ensures
        limbs_value(limbs@) == (limbs_value(left@) - limbs_value(right@)) % word_limit() as int,
{
    (alloy_primitives::U256::from_limbs(left) - alloy_primitives::U256::from_limbs(right)).into_limbs()
}

/// `>` on `U256` of `alloy_primitives`: the order of the numbers.
#[verifier::external_body]
fn limbs_exceed(left: [u64; 4], right: [u64; 4]) -> (greater: bool)
    ensures
        greater == (limbs_value(left@) > limbs_value(right@)),
{
    alloy_primitives::U256::from_limbs(left) > alloy_primitives::U256::from_limbs(right)
}

/// `usize::try_from` on `U256` of `alloy_primitives`: the number itself, where a
/// `usize` can hold it.
#[verifier::external_body]
fn limbs_to_usize(limbs: [u64; 4]) -> (number: Option<usize>)
    ensures
        match number {
            Some(n) => n == limbs_value(limbs@),
            None => limbs_value(limbs@) > usize::MAX,
        },
{
    usize::try_from(alloy_primitives::U256::from_limbs(limbs)).ok()
}

/// `U256::saturating_to::<u64>` of `alloy_primitives`: the number itself, or the
/// largest `u64` where it is larger than that.
#[verifier::external_body]
fn limbs_saturating_to_u64(limbs: [u64; 4]) -> (number: u64)
    ensures
        number == if limbs_value(limbs@) <= u64::MAX { limbs_value(limbs@) } else { u64::MAX as nat },
{
    alloy_primitives::U256::from_limbs(limbs).saturating_to::<u64>()
}

impl U256 {
    /// The word with the value of `number`.
    pub open spec fn of_u64(number: u64) -> U256 {
        U256 { limbs: [number, 0, 0, 0] }
    }

    /// Zero.
    pub fn zero() -> (word: U256)
        ensures
            word@ == 0,
    {
        U256 { limbs: [0, 0, 0, 0] }
    }

    /// The word with the value of `number`.
    pub fn from_u64(number: u64) -> (word: U256)
        ensures
            word == U256::of_u64(number),
            word@ == number,
    {
        U256 { limbs: [number, 0, 0, 0] }
    }

    /// The word that 32 bytes hold in big-endian order.
    pub fn from_be_bytes(bytes: [u8; 32]) -> (word: U256)
        ensures
            word@ == be_value(bytes@),
    {
        U256 { limbs: limbs_from_be_bytes(bytes) }
    }

    /// Whether the word is zero.
    pub fn is_zero(&self) -> (zero: bool)
        ensures
            zero == (self@ == 0),
    {
        self.limbs[0] == 0 && self.limbs[1] == 0 && self.limbs[2] == 0 && self.limbs[3] == 0
    }

    /// Whether two words have the same value.
    pub fn same(&self, other: &U256) -> (equal: bool)
        ensures
            equal == (self@ == other@),
    {
        proof {
            if self@ == other@ {
                word_value_is_unique(*self, *other);
            }
        }
        self.limbs[0] == other.limbs[0] && self.limbs[1] == other.limbs[1] && self.limbs[2]
            == other.limbs[2] && self.limbs[3] == other.limbs[3]
    }

    /// Whether this word is larger than another.
    pub fn exceeds(&self, other: &U256) -> (greater: bool)
        ensures
            greater == (self@ > other@),
    {
        limbs_exceed(self.limbs, other.limbs)
    }

    /// The sum, modulo 2^256.
    pub fn plus(self, other: U256) -> (sum: U256)
        ensures
            sum@ == (self@ + other@) % word_limit(),
    {
        U256 { limbs: limbs_plus(self.limbs, other.limbs) }
    }

    /// The difference, modulo 2^256.
    pub fn minus(self, other: U256) -> (difference: U256)
        ensures
            difference@ == (self@ - other@) % word_limit() as int,
    {
        U256 { limbs: limbs_minus(self.limbs, other.limbs) }
    }

    /// The word as a `usize`, if it fits.
    pub fn to_usize(self) -> (number: Option<usize>)
        ensures
            match number {
                Some(n) => n == self@,
                None => self@ > usize::MAX,
            },
    {
        limbs_to_usize(self.limbs)
    }

    /// The word as a `u64`, or the largest `u64` where the word is larger.
    pub fn saturating_to_u64(self) -> (number: u64)
        ensures
            number == if self@ <= u64::MAX { self@ } else { u64::MAX as nat },
    {
        limbs_saturating_to_u64(self.limbs)
    }
}

/// Every word is smaller than 2^256.
pub proof fn word_is_bounded(word: U256)
    ensures
        word@ < word_limit(),
{
}

/// Words with the same value have the same limbs.
pub proof fn word_value_is_unique(left: U256, right: U256)
    requires
        left@ == right@,
    ensures
        left.limbs@ == right.limbs@,
{
    let (a, b) = (left.limbs@, right.limbs@);
    let low_a = a[0] + 0x1_0000000000000000 * a[1];
    let low_b = b[0] + 0x1_0000000000000000 * b[1];
    let high_a = a[2] + 0x1_0000000000000000 * a[3];
    let high_b = b[2] + 0x1_0000000000000000 * b[3];
    assert(low_a < 0x1_0000000000000000_0000000000000000);
    assert(low_b < 0x1_0000000000000000_0000000000000000);
    assert(left@ == low_a + 0x1_0000000000000000_0000000000000000 * high_a);
    assert(right@ == low_b + 0x1_0000000000000000_0000000000000000 * high_b);
    assert(high_a == high_b);
    assert(low_a == low_b);
    assert(a[3] == b[3] && a[1] == b[1]);
    assert(a =~= b);
}

} // verus!
