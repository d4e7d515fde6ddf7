//! Signed amounts: a sign and a 256-bit magnitude.

use crate::text::{signed_decimal_text, signed_hex_text, signed_u256_to_decimal, signed_u256_to_hex, signed_value};
use crate::word::{word_is_bounded, word_limit, U256};
use vstd::prelude::*;

verus! {

/// A signed amount, built up from changes in both directions.
#[derive(Clone, Copy, Debug, PartialEq, Eq)]
pub struct SignedAmount {
    /// Whether the amount is below zero.
    pub negative: bool,
    /// How far the amount is from zero.
    pub magnitude: U256,
}

/// A sign and a magnitude.
pub struct Signed {
    pub negative: bool,
    pub magnitude: nat,
}

impl Signed {
    /// Nothing gained, nothing lost.
    pub open spec fn zero() -> Signed {
        Signed { negative: false, magnitude: 0 }
    }

    /// The number that sign and magnitude stand for.
    pub open spec fn value(self) -> int {
        signed_value(self.negative, self.magnitude)
    }

    /// The amount after a change. The sign is that of the true sum; a magnitude too
    /// large for a word is reduced to 256 bits.
    pub open spec fn moved_by(self, change: int) -> Signed {
        let sum = self.value() + change;
        if change == 0 {
            self
        } else {
            Signed {
                negative: sum < 0,
                magnitude: (if sum < 0 { -sum } else { sum }) as nat % word_limit(),
            }
        }
    }
}

impl View for SignedAmount {
    type V = Signed;

    open spec fn view(&self) -> Signed {
        Signed { negative: self.negative, magnitude: self.magnitude@ }
    }
}

impl DeepView for SignedAmount {
    type V = Signed;

    open spec fn deep_view(&self) -> Signed {
        self@
    }
}

impl Default for SignedAmount {
    fn default() -> (amount: SignedAmount)
        ensures
            amount@ == Signed::zero(),
    {
        SignedAmount { negative: false, magnitude: U256::zero() }
    }
}

impl SignedAmount {
    /// Adds a gain.
    pub fn add_positive(&mut self, amount: U256)
        ensures
            final(self)@ == old(self)@.moved_by(amount@ as int),
    {
        proof {
            word_is_bounded(self.magnitude);
            word_is_bounded(amount);
        }
        if amount.is_zero() {
            return;
        }
        if self.negative {
            if self.magnitude.exceeds(&amount) {
                self.magnitude = self.magnitude.minus(amount);
                return;
            }
            if self.magnitude.same(&amount) {
                self.negative = false;
                self.magnitude = U256::zero();
                return;
            }
            self.negative = false;
            self.magnitude = amount.minus(self.magnitude);
            return;
        }
        self.magnitude = self.magnitude.plus(amount);
    }

    /// Adds a loss.
    pub fn add_negative(&mut self, amount: U256)
        ensures
            final(self)@ == old(self)@.moved_by(-(amount@ as int)),
    {
        proof {
            word_is_bounded(self.magnitude);
            word_is_bounded(amount);
        }
        if amount.is_zero() {
            return;
        }
        if self.negative {
            self.magnitude = self.magnitude.plus(amount);
            return;
        }
        if self.magnitude.exceeds(&amount) {
            self.magnitude = self.magnitude.minus(amount);
            return;
        }
        if self.magnitude.same(&amount) {
            self.magnitude = U256::zero();
            return;
        }
        self.negative = true;
        self.magnitude = amount.minus(self.magnitude);
    }

    /// The amount in hexadecimal.
    pub fn as_string(self) -> (text: String)
        ensures
            text@ == signed_hex_text(self@.value()),
    {
        signed_u256_to_hex(self.negative, self.magnitude)
    }

    /// The amount in decimal.
    pub fn as_decimal_string(self) -> (text: String)
        ensures
            text@ == signed_decimal_text(self@.value()),
    {
        signed_u256_to_decimal(self.negative, self.magnitude)
    }

    /// Whether nothing was gained or lost.
    pub fn is_zero(self) -> (zero: bool)
        ensures
            zero == (self@.magnitude == 0),
    {
        self.magnitude.is_zero()
    }
}

/// The sum of a sequence of changes.
pub open spec fn sum_of(changes: Seq<int>) -> int
    decreases changes.len(),
{
    if changes.len() == 0 {
        0
    } else {
        sum_of(changes.drop_last()) + changes.last()
    }
}

/// The amount that a sequence of changes adds up to.
pub open spec fn settled(changes: Seq<int>) -> Signed
    decreases changes.len(),
{
    if changes.len() == 0 {
        Signed::zero()
    } else {
        settled(changes.drop_last()).moved_by(changes.last())
    }
}

/// A change adds to the value of an amount, as long as a word can hold the sum.
pub proof fn change_adds(amount: Signed, change: int)
    requires
        -word_limit() < amount.value() + change < word_limit(),
    ensures
        amount.moved_by(change).value() == amount.value() + change,
{
}

/// A gain and a loss of the same size cancel, as long as a word can hold what is
/// between.
pub proof fn change_and_return(amount: Signed, change: int)
    requires
        -word_limit() < amount.value() < word_limit(),
        -word_limit() < amount.value() + change < word_limit(),
    ensures
        amount.moved_by(change).moved_by(-change).value() == amount.value(),
{
    change_adds(amount, change);
    change_adds(amount.moved_by(change), -change);
}

/// Changes add up to their sum, as long as a word can hold every sum on the way.
pub proof fn settled_is_sum(changes: Seq<int>)
    requires
        forall|n: int| 0 <= n <= changes.len() ==> -word_limit() < #[trigger] sum_of(changes.take(n)) < word_limit(),
    ensures
        settled(changes).value() == sum_of(changes),
    decreases changes.len(),
{
    if changes.len() > 0 {
        let earlier = changes.drop_last();
        assert forall|n: int| 0 <= n <= earlier.len() implies -word_limit() < #[trigger] sum_of(earlier.take(n))
            < word_limit() by {
            assert(earlier.take(n) =~= changes.take(n));
        }
        settled_is_sum(earlier);
        assert(changes.take(changes.len() as int) =~= changes);
        assert(sum_of(changes.take(changes.len() as int)) == sum_of(changes));
        change_adds(settled(earlier), changes.last());
    }
}

} // verus!
