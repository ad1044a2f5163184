//! IEEE 754 numbers held by their bit patterns.
//!
//! A value of [`Double`] is the 64 bits of a binary64 number, a value of
//! [`Single`] the 32 bits of a binary32 number. Everything here is integer
//! work on those bits: sign, class, order against zero, negation, and the
//! approximate equality that path geometry uses for coincident points.

use vstd::prelude::*;

verus! {

/// The sign bit of a binary64 number.
pub const DOUBLE_SIGN: u64 = 0x8000_0000_0000_0000;

/// The bits of positive infinity in binary64; every larger magnitude is a NaN.
pub const DOUBLE_INFINITY: u64 = 0x7ff0_0000_0000_0000;

/// The bits of one in binary64.
pub const DOUBLE_ONE: u64 = 0x3ff0_0000_0000_0000;

/// The bits of three in binary64.
pub const DOUBLE_THREE: u64 = 0x4008_0000_0000_0000;

/// The bits of four in binary64.
pub const DOUBLE_FOUR: u64 = 0x4010_0000_0000_0000;

/// The bits of twelve in binary64.
pub const DOUBLE_TWELVE: u64 = 0x4028_0000_0000_0000;

/// The bits of ninety-six in binary64.
pub const DOUBLE_NINETY_SIX: u64 = 0x4058_0000_0000_0000;

/// How many representable steps apart two numbers may lie and still count as equal.
pub const FUZZY_STEPS: u64 = 4;

/// The sign bit of a binary32 number.
pub const SINGLE_SIGN: u32 = 0x8000_0000;

/// The bits of positive infinity in binary32.
pub const SINGLE_INFINITY: u32 = 0x7f80_0000;

/// A binary64 number, held by its bit pattern.
///
/// `==` on this type compares bit patterns, so it tells `0` from `-0` and one
/// NaN from another; [`Double::num_eq`] is the numeric comparison.
#[derive(Clone, Copy, Debug, PartialEq, Eq, Structural)]
pub struct Double {
    pub bits: u64,
}

impl Double {
    /// The bit pattern with the sign bit cleared.
    pub open spec fn magnitude(self) -> u64 {
        if self.bits >= DOUBLE_SIGN {
            (self.bits - DOUBLE_SIGN) as u64
        } else {
            self.bits
        }
    }

    /// The sign bit is set. Holds of `-0` and of NaNs with the bit set.
    pub open spec fn sign_negative(self) -> bool {
        self.bits >= DOUBLE_SIGN
    }

    /// Not a number.
    pub open spec fn nan(self) -> bool {
        self.magnitude() > DOUBLE_INFINITY
    }

    /// Positive or negative zero.
    pub open spec fn zero(self) -> bool {
        self.magnitude() == 0
    }

    /// Strictly greater than zero: positive sign, not zero, not a NaN.
    /// Positive infinity counts.
    pub open spec fn positive(self) -> bool {
        0 < self.bits <= DOUBLE_INFINITY
    }

    /// Zero or above. A NaN is neither.
    pub open spec fn non_negative(self) -> bool {
        self.bits <= DOUBLE_INFINITY || self.bits == DOUBLE_SIGN
    }

    /// Numeric equality: no NaN on either side, and the same bits or two zeros.
    pub open spec fn num_eq(self, other: Double) -> bool {
        &&& !self.nan()
        &&& !other.nan()
        &&& (self.bits == other.bits || (self.zero() && other.zero()))
    }

    /// The place of a number on the number line, as an integer that grows
    /// with the number: the magnitude bits, negated under a negative sign.
    /// Both zeros have place 0. It orders all numbers but the NaNs.
    pub open spec fn place(self) -> int {
        if self.sign_negative() {
            -(self.magnitude() as int)
        } else {
            self.magnitude() as int
        }
    }

    /// Numerically less: no NaN on either side, and a smaller place.
    pub open spec fn num_lt(self, other: Double) -> bool {
        &&& !self.nan()
        &&& !other.nan()
        &&& self.place() < other.place()
    }

    /// Approximate equality: numerically equal, or of one sign and at most
    /// [`FUZZY_STEPS`] representable values apart.
    ///
    /// Two NaNs of one sign whose bit patterns are that close count as equal,
    /// and so does the largest finite number and infinity.
    pub open spec fn fuzzy_eq(self, other: Double) -> bool {
        ||| self.num_eq(other)
        ||| {
            &&& self.sign_negative() == other.sign_negative()
            &&& self.bits - other.bits <= FUZZY_STEPS
            &&& other.bits - self.bits <= FUZZY_STEPS
        }
    }

    /// Approximately equal to positive zero.
    pub open spec fn fuzzy_zero(self) -> bool {
        self.fuzzy_eq(Double { bits: 0 })
    }

    /// The number with its sign flipped.
    pub open spec fn negated(self) -> Double {
        if self.bits >= DOUBLE_SIGN {
            Double { bits: (self.bits - DOUBLE_SIGN) as u64 }
        } else {
            Double { bits: (self.bits + DOUBLE_SIGN) as u64 }
        }
    }

    /// The number with the given bit pattern.
    pub fn from_bits(bits: u64) -> (d: Double)
        ensures
            d.bits == bits,
    {
        Double { bits }
    }

    /// The bit pattern of the number.
    pub fn to_bits(&self) -> (bits: u64)
        ensures
            bits == self.bits,
    {
        self.bits
    }

    /// Positive zero.
    pub fn new_zero() -> (d: Double)
        ensures
            d.bits == 0,
    {
        Double { bits: 0 }
    }

    /// One.
    pub fn new_one() -> (d: Double)
        ensures
            d.bits == DOUBLE_ONE,
    {
        Double { bits: DOUBLE_ONE }
    }

    /// Whether the sign bit is set.
    pub fn is_sign_negative(&self) -> (r: bool)
        ensures
            r == self.sign_negative(),
    {
        self.bits >= DOUBLE_SIGN
    }

    /// Whether the value is a NaN.
    pub fn is_nan(&self) -> (r: bool)
        ensures
            r == self.nan(),
    {
        if self.bits >= DOUBLE_SIGN {
            self.bits - DOUBLE_SIGN > DOUBLE_INFINITY
        } else {
            self.bits > DOUBLE_INFINITY
        }
    }

    /// Whether the value is positive or negative zero.
    pub fn is_zero(&self) -> (r: bool)
        ensures
            r == self.zero(),
    {
        self.bits == 0 || self.bits == DOUBLE_SIGN
    }

    /// Whether the value is strictly greater than zero.
    pub fn is_positive(&self) -> (r: bool)
        ensures
            r == self.positive(),
    {
        0 < self.bits && self.bits <= DOUBLE_INFINITY
    }

    /// Whether the value is zero or above.
    pub fn is_non_negative(&self) -> (r: bool)
        ensures
            r == self.non_negative(),
            r == (self.positive() || self.zero()),
    {
        self.bits <= DOUBLE_INFINITY || self.bits == DOUBLE_SIGN
    }

    /// Numeric equality of two values.
    pub fn is_num_eq(&self, other: &Double) -> (r: bool)
        ensures
            r == self.num_eq(*other),
    {
        if self.is_nan() || other.is_nan() {
            false
        } else {
            self.bits == other.bits || (self.is_zero() && other.is_zero())
        }
    }

    /// Whether the value is numerically less than `other`.
    pub fn is_num_lt(&self, other: &Double) -> (r: bool)
        ensures
            r == self.num_lt(*other),
    {
        if self.is_nan() || other.is_nan() {
            false
        } else if self.bits >= DOUBLE_SIGN {
            if other.bits >= DOUBLE_SIGN {
                self.bits > other.bits
            } else {
                self.bits > DOUBLE_SIGN || other.bits > 0
            }
        } else {
            other.bits < DOUBLE_SIGN && self.bits < other.bits
        }
    }

    /// Approximate equality of two values.
    pub fn is_fuzzy_eq(&self, other: &Double) -> (r: bool)
        ensures
            r == self.fuzzy_eq(*other),
    {
        if self.is_num_eq(other) {
            true
        } else if self.is_sign_negative() != other.is_sign_negative() {
            false
        } else if self.bits >= other.bits {
            self.bits - other.bits <= FUZZY_STEPS
        } else {
            other.bits - self.bits <= FUZZY_STEPS
        }
    }

    /// Whether the value is approximately zero.
    pub fn is_fuzzy_zero(&self) -> (r: bool)
        ensures
            r == self.fuzzy_zero(),
            r == (self.bits <= FUZZY_STEPS || self.bits == DOUBLE_SIGN),
    {
        let zero = Double { bits: 0 };
        self.is_fuzzy_eq(&zero)
    }

    /// The value with its sign flipped.
    pub fn neg(&self) -> (d: Double)
        ensures
            d == self.negated(),
    {
        if self.bits >= DOUBLE_SIGN {
            Double { bits: self.bits - DOUBLE_SIGN }
        } else {
            Double { bits: self.bits + DOUBLE_SIGN }
        }
    }
}

/// Approximate equality is reflexive, NaNs included.
pub proof fn lemma_fuzzy_eq_reflexive(a: Double)
    ensures
        a.fuzzy_eq(a),
{
}

/// Approximate equality is symmetric.
pub proof fn lemma_fuzzy_eq_symmetric(a: Double, b: Double)
    ensures
        a.fuzzy_eq(b) == b.fuzzy_eq(a),
{
}

/// Of two numbers that are no NaNs exactly one holds: the first is less,
/// the two are equal, or the second is less.
pub proof fn lemma_num_lt_trichotomy(a: Double, b: Double)
    requires
        !a.nan(),
        !b.nan(),
    ensures
        a.num_lt(b) || a.num_eq(b) || b.num_lt(a),
        !(a.num_lt(b) && a.num_eq(b)),
        !(a.num_lt(b) && b.num_lt(a)),
        !(b.num_lt(a) && a.num_eq(b)),
        a.positive() == (Double { bits: 0 }).num_lt(a),
{
}

/// Flipping the sign twice gives the value back, and flips the sign once.
pub proof fn lemma_negated_involution(a: Double)
    ensures
        a.negated().negated() == a,
        a.negated().sign_negative() != a.sign_negative(),
        a.negated().magnitude() == a.magnitude(),
{
}

/// A binary32 number, held by its bit pattern.
#[derive(Clone, Copy, Debug, PartialEq, Eq, Structural)]
pub struct Single {
    pub bits: u32,
}

impl Single {
    /// Strictly greater than zero: positive sign, not zero, not a NaN.
    pub open spec fn positive(self) -> bool {
        0 < self.bits <= SINGLE_INFINITY
    }

    /// The number with the given bit pattern.
    pub fn from_bits(bits: u32) -> (s: Single)
        ensures
            s.bits == bits,
    {
        Single { bits }
    }

    /// The bit pattern of the number.
    pub fn to_bits(&self) -> (bits: u32)
        ensures
            bits == self.bits,
    {
        self.bits
    }

    /// Whether the value is strictly greater than zero.
    pub fn is_positive(&self) -> (r: bool)
        ensures
            r == self.positive(),
    {
        0 < self.bits && self.bits <= SINGLE_INFINITY
    }
}

/// An opacity: a number from zero to one.
#[derive(Clone, Copy, Debug, PartialEq, Eq, Structural)]
pub struct Opacity {
    value: Double,
}

impl Opacity {
    /// From zero to one, both included; negative zero counts as zero.
    pub open spec fn in_range(value: Double) -> bool {
        value.bits <= DOUBLE_ONE || value.bits == DOUBLE_SIGN
    }

    /// The number that the value holds.
    pub closed spec fn number(self) -> Double {
        self.value
    }

    #[verifier::type_invariant]
    spec fn well_formed(self) -> bool {
        Self::in_range(self.value)
    }

    /// The value that holds `value`, if `value` is in range.
    pub fn new(value: Double) -> (r: Option<Opacity>)
        ensures
            r is Some == Self::in_range(value),
            r is Some ==> r.unwrap().number() == value,
    {
        if value.bits <= DOUBLE_ONE || value.bits == DOUBLE_SIGN {
            Some(Opacity { value })
        } else {
            None
        }
    }

    /// The number that the value holds. It is in range.
    pub fn value(&self) -> (v: Double)
        ensures
            v == self.number(),
            Self::in_range(v),
    {
        proof {
            use_type_invariant(self);
        }
        self.value
    }
}

impl Default for Opacity {
    /// Fully opaque: one.
    fn default() -> (r: Opacity)
        ensures
            r.number() == (Double { bits: DOUBLE_ONE }),
    {
        Opacity { value: Double { bits: DOUBLE_ONE } }
    }
}

/// The width of a stroke: a number above zero.
#[derive(Clone, Copy, Debug, PartialEq, Eq, Structural)]
pub struct StrokeWidth {
    value: Double,
}

impl StrokeWidth {
    /// Strictly greater than zero.
    pub open spec fn in_range(value: Double) -> bool {
        value.positive()
    }

    /// The number that the value holds.
    pub closed spec fn number(self) -> Double {
        self.value
    }

    #[verifier::type_invariant]
    spec fn well_formed(self) -> bool {
        Self::in_range(self.value)
    }

    /// The value that holds `value`, if `value` is in range.
    pub fn new(value: Double) -> (r: Option<StrokeWidth>)
        ensures
            r is Some == Self::in_range(value),
            r is Some ==> r.unwrap().number() == value,
    {
        if value.is_positive() {
            Some(StrokeWidth { value })
        } else {
            None
        }
    }

    /// The number that the value holds. It is in range.
    pub fn value(&self) -> (v: Double)
        ensures
            v == self.number(),
            Self::in_range(v),
    {
        proof {
            use_type_invariant(self);
        }
        self.value
    }
}

impl Default for StrokeWidth {
    /// One.
    fn default() -> (r: StrokeWidth)
        ensures
            r.number() == (Double { bits: DOUBLE_ONE }),
    {
        StrokeWidth { value: Double { bits: DOUBLE_ONE } }
    }
}

/// The miter limit of a stroke: a number above zero.
#[derive(Clone, Copy, Debug, PartialEq, Eq, Structural)]
pub struct StrokeMiterlimit {
    value: Double,
}

impl StrokeMiterlimit {
    /// Strictly greater than zero.
    pub open spec fn in_range(value: Double) -> bool {
        value.positive()
    }

    /// The number that the value holds.
    pub closed spec fn number(self) -> Double {
        self.value
    }

    #[verifier::type_invariant]
    spec fn well_formed(self) -> bool {
        Self::in_range(self.value)
    }

    /// The value that holds `value`, if `value` is in range.
    pub fn new(value: Double) -> (r: Option<StrokeMiterlimit>)
        ensures
            r is Some == Self::in_range(value),
            r is Some ==> r.unwrap().number() == value,
    {
        if value.is_positive() {
            Some(StrokeMiterlimit { value })
        } else {
            None
        }
    }

    /// The number that the value holds. It is in range.
    pub fn value(&self) -> (v: Double)
        ensures
            v == self.number(),
            Self::in_range(v),
    {
        proof {
            use_type_invariant(self);
        }
        self.value
    }
}

impl Default for StrokeMiterlimit {
    /// Four.
    fn default() -> (r: StrokeMiterlimit)
        ensures
            r.number() == (Double { bits: DOUBLE_FOUR }),
    {
        StrokeMiterlimit { value: Double { bits: DOUBLE_FOUR } }
    }
}

/// The size of a font: a number above zero.
#[derive(Clone, Copy, Debug, PartialEq, Eq, Structural)]
pub struct FontSize {
    value: Double,
}

impl FontSize {
    /// Strictly greater than zero.
    pub open spec fn in_range(value: Double) -> bool {
        value.positive()
    }

    /// The number that the value holds.
    pub closed spec fn number(self) -> Double {
        self.value
    }

    #[verifier::type_invariant]
    spec fn well_formed(self) -> bool {
        Self::in_range(self.value)
    }

    /// The value that holds `value`, if `value` is in range.
    pub fn new(value: Double) -> (r: Option<FontSize>)
        ensures
            r is Some == Self::in_range(value),
            r is Some ==> r.unwrap().number() == value,
    {
        if value.is_positive() {
            Some(FontSize { value })
        } else {
            None
        }
    }

    /// The number that the value holds. It is in range.
    pub fn value(&self) -> (v: Double)
        ensures
            v == self.number(),
            Self::in_range(v),
    {
        proof {
            use_type_invariant(self);
        }
        self.value
    }
}

impl Default for FontSize {
    /// Twelve.
    fn default() -> (r: FontSize)
        ensures
            r.number() == (Double { bits: DOUBLE_TWELVE }),
    {
        FontSize { value: Double { bits: DOUBLE_TWELVE } }
    }
}

} // verus!
