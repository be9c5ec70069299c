use vstd::prelude::*;

verus! {

/// Ten to the power `n`.
pub open spec fn pow10(n: nat) -> int
    decreases n,
{
    if n == 0 {
        1
    } else {
        10 * pow10((n - 1) as nat)
    }
}

/// A power of ten is positive.
pub proof fn lemma_pow10_positive(n: nat)
    ensures
        pow10(n) > 0,
    decreases n,
{
    if n > 0 {
        lemma_pow10_positive((n - 1) as nat);
    }
}

/// A double-precision float, held as its IEEE 754 bit pattern.
#[derive(Clone, Copy, Debug)]
pub struct SqlFloat {
    pub bits: u64,
}

impl SqlFloat {
    /// The bit pattern without its sign bit.
    pub open spec fn magnitude(&self) -> int {
        self.bits as int % 0x8000_0000_0000_0000
    }

    /// Not a number: all exponent bits set and a mantissa that is not zero.
    pub open spec fn is_nan(&self) -> bool {
        self.magnitude() > 0x7ff0_0000_0000_0000
    }

    /// Positive or negative zero.
    pub open spec fn is_zero(&self) -> bool {
        self.magnitude() == 0
    }

    /// Equality of the two numbers as IEEE 754 defines it: a NaN equals
    /// nothing, the two zeros equal each other, and every other number equals
    /// only its own bit pattern.
    pub open spec fn same_number(&self, other: &SqlFloat) -> bool {
        &&& !self.is_nan()
        &&& !other.is_nan()
        &&& (self.bits == other.bits || (self.is_zero() && other.is_zero()))
    }

    /// The float with the bit pattern `bits`.
    pub fn from_bits(bits: u64) -> (float: SqlFloat)
        ensures
            float.bits == bits,
    {
        SqlFloat { bits }
    }

    /// The bit pattern of the float.
    pub fn to_bits(&self) -> (bits: u64)
        ensures
            bits == self.bits,
    {
        self.bits
    }
}

impl PartialEq for SqlFloat {
    fn eq(&self, other: &SqlFloat) -> (r: bool) {
        let a: u64 = self.bits % 0x8000_0000_0000_0000;
        let b: u64 = other.bits % 0x8000_0000_0000_0000;
        a <= 0x7ff0_0000_0000_0000 && b <= 0x7ff0_0000_0000_0000 && (self.bits == other.bits || (a
            == 0 && b == 0))
    }
}

impl vstd::std_specs::cmp::PartialEqSpecImpl for SqlFloat {
    open spec fn obeys_eq_spec() -> bool {
        true
    }

    open spec fn eq_spec(&self, other: &SqlFloat) -> bool {
        self.same_number(other)
    }
}

/// The largest magnitude of a decimal's mantissa: `2^96 - 1`.
pub const MAX_DECIMAL_MANTISSA: i128 = 0xffff_ffff_ffff_ffff_ffff_ffff;

/// The largest scale of a decimal.
pub const MAX_DECIMAL_SCALE: u32 = 28;

/// Whether a decimal can hold `mantissa` with `scale` digits behind the point.
pub open spec fn decimal_in_range(mantissa: int, scale: int) -> bool {
    &&& -MAX_DECIMAL_MANTISSA <= mantissa <= MAX_DECIMAL_MANTISSA
    &&& 0 <= scale <= MAX_DECIMAL_SCALE
}

/// Whether `mantissa_a / 10^scale_a` and `mantissa_b / 10^scale_b` are the
/// same number.
pub open spec fn same_decimal(mantissa_a: int, scale_a: nat, mantissa_b: int, scale_b: nat) -> bool {
    mantissa_a * pow10(scale_b) == mantissa_b * pow10(scale_a)
}

/// `rust_decimal::Decimal::try_from_i128_with_scale`, read back through
/// `mantissa` and `scale`. The decimal is made when the scale is at most 28
/// and the mantissa fits in 96 bits, and then it holds exactly the mantissa
/// and the scale it was made from.
#[verifier::external_body]
fn decimal_parts(mantissa: i128, scale: u32) -> (parts: Option<(i128, u32)>)
    ensures
        parts == if decimal_in_range(mantissa as int, scale as int) {
            Some((mantissa, scale))
        } else {
            None
        },
{
    match rust_decimal::Decimal::try_from_i128_with_scale(mantissa, scale) {
        Ok(decimal) => Some((decimal.mantissa(), decimal.scale())),
        Err(_) => None,
    }
}

/// `==` of `rust_decimal::Decimal` on the two decimals made by
/// `from_i128_with_scale`: they are equal when they are the same number,
/// whatever their scales.
#[verifier::external_body]
fn decimal_eq(mantissa_a: i128, scale_a: u32, mantissa_b: i128, scale_b: u32) -> (equal: bool)
    requires
        decimal_in_range(mantissa_a as int, scale_a as int),
        decimal_in_range(mantissa_b as int, scale_b as int),
    ensures
        equal == same_decimal(mantissa_a as int, scale_a as nat, mantissa_b as int, scale_b as nat),
{
    let a = rust_decimal::Decimal::from_i128_with_scale(mantissa_a, scale_a);
    let b = rust_decimal::Decimal::from_i128_with_scale(mantissa_b, scale_b);
    a == b
}

/// A fixed-point number: `mantissa / 10^scale`, with a mantissa of at most 96
/// bits and a scale of at most 28.
#[derive(Clone, Copy, Debug)]
pub struct SqlDecimal {
    mantissa: i128,
    scale: u32,
}

impl SqlDecimal {
    #[verifier::type_invariant]
    spec fn in_range(&self) -> bool {
        decimal_in_range(self.mantissa as int, self.scale as int)
    }

    /// The mantissa: the number without its decimal point.
    pub closed spec fn spec_mantissa(&self) -> int {
        self.mantissa as int
    }

    /// The scale: how many digits stand behind the decimal point.
    pub closed spec fn spec_scale(&self) -> nat {
        self.scale as nat
    }

    /// The decimal `mantissa / 10^scale`, or `None` when it cannot be held.
    pub fn new(mantissa: i128, scale: u32) -> (made: Option<SqlDecimal>)
        ensures
            made is Some <==> decimal_in_range(mantissa as int, scale as int),
            made matches Some(decimal) ==> decimal.spec_mantissa() == mantissa
                && decimal.spec_scale() == scale,
    {
        match decimal_parts(mantissa, scale) {
            Some((mantissa, scale)) => Some(SqlDecimal { mantissa, scale }),
            None => None,
        }
    }

    /// The mantissa: the number without its decimal point.
    pub fn mantissa(&self) -> (mantissa: i128)
        ensures
            mantissa == self.spec_mantissa(),
            decimal_in_range(mantissa as int, self.spec_scale() as int),
    {
        proof {
            use_type_invariant(self);
        }
        self.mantissa
    }

    /// The scale: how many digits stand behind the decimal point.
    pub fn scale(&self) -> (scale: u32)
        ensures
            scale == self.spec_scale(),
            decimal_in_range(self.spec_mantissa(), scale as int),
    {
        proof {
            use_type_invariant(self);
        }
        self.scale
    }
}

impl PartialEq for SqlDecimal {
    fn eq(&self, other: &SqlDecimal) -> (r: bool) {
        proof {
            use_type_invariant(self);
            use_type_invariant(other);
        }
        decimal_eq(self.mantissa, self.scale, other.mantissa, other.scale)
    }
}

impl vstd::std_specs::cmp::PartialEqSpecImpl for SqlDecimal {
    open spec fn obeys_eq_spec() -> bool {
        true
    }

    open spec fn eq_spec(&self, other: &SqlDecimal) -> bool {
        same_decimal(
            self.spec_mantissa(),
            self.spec_scale(),
            other.spec_mantissa(),
            other.spec_scale(),
        )
    }
}

/// A globally unique identifier: its sixteen bytes read as one big-endian
/// number.
#[derive(Clone, Copy, Debug, PartialEq, Eq, Structural)]
pub struct SqlGuid {
    pub bits: u128,
}

/// A calendar date: the number of its day in the proleptic Gregorian
/// calendar, where day 1 is January 1 of the year 1.
#[derive(Clone, Copy, Debug, PartialEq, Eq, Structural)]
pub struct SqlDate {
    pub days_from_ce: i32,
}

/// A time of day: whole seconds since midnight and the nanoseconds of the
/// second that has begun.
#[derive(Clone, Copy, Debug, PartialEq, Eq, Structural)]
pub struct SqlTime {
    pub seconds: u32,
    pub nanoseconds: u32,
}

/// A date and a time of day, with no time zone.
#[derive(Clone, Copy, Debug, PartialEq, Eq, Structural)]
pub struct SqlDateTime {
    pub date: SqlDate,
    pub time: SqlTime,
}

/// An instant, held as its date and time in UTC, and the offset from UTC, in
/// seconds, of the zone in which it was written.
#[derive(Clone, Copy, Debug)]
pub struct SqlDateTimeOffset {
    pub utc: SqlDateTime,
    pub offset_seconds: i32,
}

impl PartialEq for SqlDateTimeOffset {
    fn eq(&self, other: &SqlDateTimeOffset) -> (r: bool) {
        self.utc == other.utc
    }
}

impl vstd::std_specs::cmp::PartialEqSpecImpl for SqlDateTimeOffset {
    open spec fn obeys_eq_spec() -> bool {
        true
    }

    /// Two values are equal when they are the same instant, whatever their
    /// offsets.
    open spec fn eq_spec(&self, other: &SqlDateTimeOffset) -> bool {
        self.utc == other.utc
    }
}

} // verus!
