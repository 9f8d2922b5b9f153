//! Match scores: single-precision numbers held as bit patterns.

use vstd::prelude::*;

verus! {

/// The bit pattern of +1.0.
pub const ONE_BITS: u32 = 0x3F80_0000;

/// The bit pattern of +infinity; every larger magnitude is not a number.
pub const INFINITY_BITS: u32 = 0x7F80_0000;

/// The sign bit of a pattern.
pub const SIGN_BIT: u32 = 0x8000_0000;

/// A similarity score: an IEEE-754 single-precision number, held as its bit
/// pattern.
///
/// Two scores are equal (`==`) when their patterns are; the order of the
/// numbers they stand for is given by [`Score::gt`] and [`Score::lt`].
#[derive(Clone, Copy, Debug, PartialEq, Eq, Structural)]
pub struct Score {
    pub bits: u32,
}

impl Score {
    /// The pattern without its sign bit.
    pub open spec fn magnitude(self) -> int {
        if self.bits >= SIGN_BIT {
            self.bits - SIGN_BIT
        } else {
            self.bits as int
        }
    }

    /// Whether the pattern stands for no number.
    pub open spec fn is_nan(self) -> bool {
        self.magnitude() > INFINITY_BITS
    }

    /// The place of the number in the order of all numbers: patterns of
    /// non-negative numbers grow with the number, those of negative numbers
    /// with its distance from zero, and both zeros share place 0.
    pub open spec fn rank(self) -> int {
        if self.bits >= SIGN_BIT {
            -self.magnitude()
        } else {
            self.magnitude()
        }
    }

    /// `self > other` as numbers: false as soon as one of them is no number.
    pub open spec fn gt(self, other: Score) -> bool {
        !self.is_nan() && !other.is_nan() && self.rank() > other.rank()
    }

    /// `self < other` as numbers: false as soon as one of them is no number.
    pub open spec fn lt(self, other: Score) -> bool {
        !self.is_nan() && !other.is_nan() && self.rank() < other.rank()
    }

    /// `self >= other` as numbers: false as soon as one of them is no number.
    pub open spec fn ge(self, other: Score) -> bool {
        !self.is_nan() && !other.is_nan() && self.rank() >= other.rank()
    }

    /// Whether the number lies between 0.0 and 1.0, both included.
    pub open spec fn in_unit_range(self) -> bool {
        !self.is_nan() && 0 <= self.rank() <= ONE_BITS
    }

    /// The score with the given bit pattern.
    pub fn from_bits(bits: u32) -> (score: Score)
        ensures
            score.bits == bits,
    {
        Score { bits }
    }

    /// The bit pattern of the score.
    pub fn to_bits(&self) -> (bits: u32)
        ensures
            bits == self.bits,
    {
        self.bits
    }

    /// Whether the score stands for no number.
    pub fn not_a_number(&self) -> (nan: bool)
        ensures
            nan == self.is_nan(),
    {
        if self.bits >= SIGN_BIT {
            self.bits - SIGN_BIT > INFINITY_BITS
        } else {
            self.bits > INFINITY_BITS
        }
    }

    /// The place of the score in the order of all numbers.
    pub fn place(&self) -> (place: i64)
        ensures
            place == self.rank(),
    {
        if self.bits >= SIGN_BIT {
            let magnitude: u32 = self.bits - SIGN_BIT;
            -(magnitude as i64)
        } else {
            self.bits as i64
        }
    }

    /// Whether this score is greater than `other`.
    pub fn exceeds(&self, other: &Score) -> (greater: bool)
        ensures
            greater == self.gt(*other),
    {
        !self.not_a_number() && !other.not_a_number() && self.place() > other.place()
    }

    /// Whether this score is less than `other`.
    pub fn below(&self, other: &Score) -> (less: bool)
        ensures
            less == self.lt(*other),
    {
        !self.not_a_number() && !other.not_a_number() && self.place() < other.place()
    }

    /// Whether the score lies between 0.0 and 1.0, both included.
    pub fn within_unit_range(&self) -> (within: bool)
        ensures
            within == self.in_unit_range(),
    {
        self.bits <= ONE_BITS || self.bits == SIGN_BIT
    }
}

/// `<` and `>` mirror each other.
pub proof fn lemma_order_mirrors(a: Score, b: Score)
    ensures
        a.gt(b) <==> b.lt(a),
{
}

/// A score that exceeds one that is not less than a third exceeds the third.
pub proof fn lemma_order_is_transitive(a: Score, b: Score, c: Score)
    requires
        a.gt(b),
        b.ge(c),
    ensures
        a.gt(c),
{
}

/// No score is at once less and greater than another, and none is less or
/// greater than itself.
pub proof fn lemma_order_is_strict(a: Score, b: Score)
    ensures
        !(a.gt(b) && a.lt(b)),
        !(a.gt(b) && b.gt(a)),
        !a.gt(a),
        !a.lt(a),
{
}

/// Between 0.0 and 1.0 the order of the numbers is the order of their
/// patterns, once negative zero is set apart.
pub proof fn lemma_unit_range_order(a: Score, b: Score)
    requires
        a.in_unit_range(),
        b.in_unit_range(),
        a.bits != SIGN_BIT,
        b.bits != SIGN_BIT,
    ensures
        a.gt(b) <==> a.bits > b.bits,
        a.lt(b) <==> a.bits < b.bits,
{
}

} // verus!
