//! A double-precision-safe integer.
//!
//! [`DoubleInt`] wraps a signed 64-bit integer and restricts it to the
//! interval `[-(2^53) + 1, 2^53 - 1]`, the largest symmetric range of
//! integers that an IEEE 754 double-precision float represents exactly.
//! A field of this type can therefore be exchanged with consumers whose
//! native numeric type is a double without any loss of precision.
//!
//! The type offers infallible widening construction from every integer
//! type of at most 32 bits, fallible range-checked construction from
//! `i64` (the decoding entry point for any wire format whose integer
//! fields arrive as signed 64-bit values), equality against every
//! standard fixed-width integer type, and access to the stored value as
//! a plain `i64` (the encoding exit point).

use vstd::prelude::*;

mod eq;

verus! {

/// Smallest value a [`DoubleInt`] can hold: `-(2^53) + 1`.
pub const MIN: i64 = -9007199254740991;

/// Largest value a [`DoubleInt`] can hold: `2^53 - 1`.
pub const MAX: i64 = 9007199254740991;

/// Largest value a [`DoubleInt`] can hold, as an unsigned value.
///
/// Numerically equal to [`MAX`]; used when comparing against unsigned
/// types, which have no negative values to reason about.
pub const UMAX: u64 = 9007199254740991;

/// Holds exactly when `v` lies in the double-precision-safe range
/// `[MIN, MAX]`.
pub open spec fn in_range(v: int) -> bool {
    MIN as int <= v && v <= MAX as int
}

/// An integer restricted to the range representable exactly by an
/// IEEE 754 double-precision float.
///
/// The stored value always lies in `[MIN, MAX]`; the mathematical value
/// is the view `self@`.
#[derive(Debug, Clone, Copy)]
pub struct DoubleInt(i64);

impl View for DoubleInt {
    type V = int;

    closed spec fn view(&self) -> int {
        self.0 as int
    }
}

impl DoubleInt {
    #[verifier::type_invariant]
    spec fn wf(self) -> bool {
        in_range(self.0 as int)
    }

    /// The value holding `v`, as a specification-level constructor.
    ///
    /// For in-range `v` its view is `v` (see [`lemma_spec_from`]).
    pub closed spec fn spec_from(v: int) -> DoubleInt {
        DoubleInt(v as i64)
    }

    /// What fallible construction returns for the mathematical input `v`:
    /// the value itself when `v` is in range, and otherwise the error
    /// naming the violated bound and the rejected value.
    pub open spec fn spec_try_from(v: int) -> Result<DoubleInt, OutOfRange> {
        if v < MIN as int {
            Err(OutOfRange::TooSmall { value: v as i64 })
        } else if v > MAX as int {
            Err(OutOfRange::TooLarge { value: v as i64 })
        } else {
            Ok(DoubleInt::spec_from(v))
        }
    }

    /// Attempts to construct a [`DoubleInt`] holding `val`.
    ///
    /// Succeeds exactly when `val` lies in `[MIN, MAX]`, and then holds
    /// `val` itself; otherwise reports which bound was violated. This is
    /// the validation step of decoding.
    pub fn try_from_i64(val: i64) -> (r: Result<DoubleInt, OutOfRange>)
        ensures
            r == DoubleInt::spec_try_from(val as int),
            r is Ok <==> in_range(val as int),
            r matches Ok(d) ==> d@ == val as int,
            r matches Err(e) ==> e.spec_value() == val,
    {
        if val < MIN {
            Err(OutOfRange::TooSmall { value: val })
        } else if val > MAX {
            Err(OutOfRange::TooLarge { value: val })
        } else {
            Ok(DoubleInt(val))
        }
    }

    /// Returns the stored value as a standard type.
    ///
    /// This is also the encoded form: serialization emits exactly this
    /// signed 64-bit integer, with no re-validation needed, since the
    /// result is always in `[MIN, MAX]`.
    pub fn as_i64(self) -> (r: i64)
        ensures
            r as int == self@,
            in_range(r as int),
    {
        proof {
            use_type_invariant(self);
        }
        self.0
    }
}

impl TryFrom<i64> for DoubleInt {
    type Error = OutOfRange;

    /// Attempts to construct a [`DoubleInt`] holding `v`; equivalent to
    /// [`DoubleInt::try_from_i64`].
    fn try_from(v: i64) -> Result<Self, OutOfRange> {
        DoubleInt::try_from_i64(v)
    }
}

impl vstd::std_specs::convert::TryFromSpecImpl<i64> for DoubleInt {
    open spec fn obeys_try_from_spec() -> bool {
        true
    }

    open spec fn try_from_spec(v: i64) -> Result<DoubleInt, OutOfRange> {
        DoubleInt::spec_try_from(v as int)
    }
}

impl Default for DoubleInt {
    /// The zero value.
    fn default() -> (r: Self)
        ensures
            r@ == 0,
    {
        DoubleInt(0)
    }
}

impl From<u8> for DoubleInt {
    /// Widens `v`; always in range, since every `u8` fits in `[MIN, MAX]`.
    fn from(v: u8) -> Self {
        DoubleInt(v as i64)
    }
}

impl vstd::std_specs::convert::FromSpecImpl<u8> for DoubleInt {
    open spec fn obeys_from_spec() -> bool {
        true
    }

    open spec fn from_spec(v: u8) -> DoubleInt {
        DoubleInt::spec_from(v as int)
    }
}

impl From<u16> for DoubleInt {
    /// Widens `v`; always in range, since every `u16` fits in `[MIN, MAX]`.
    fn from(v: u16) -> Self {
        DoubleInt(v as i64)
    }
}

impl vstd::std_specs::convert::FromSpecImpl<u16> for DoubleInt {
    open spec fn obeys_from_spec() -> bool {
        true
    }

    open spec fn from_spec(v: u16) -> DoubleInt {
        DoubleInt::spec_from(v as int)
    }
}

impl From<u32> for DoubleInt {
    /// Widens `v`; always in range, since every `u32` fits in `[MIN, MAX]`.
    fn from(v: u32) -> Self {
        DoubleInt(v as i64)
    }
}

impl vstd::std_specs::convert::FromSpecImpl<u32> for DoubleInt {
    open spec fn obeys_from_spec() -> bool {
        true
    }

    open spec fn from_spec(v: u32) -> DoubleInt {
        DoubleInt::spec_from(v as int)
    }
}

impl From<i8> for DoubleInt {
    /// Widens `v`; always in range, since every `i8` fits in `[MIN, MAX]`.
    fn from(v: i8) -> Self {
        DoubleInt(v as i64)
    }
}

impl vstd::std_specs::convert::FromSpecImpl<i8> for DoubleInt {
    open spec fn obeys_from_spec() -> bool {
        true
    }

    open spec fn from_spec(v: i8) -> DoubleInt {
        DoubleInt::spec_from(v as int)
    }
}

impl From<i16> for DoubleInt {
    /// Widens `v`; always in range, since every `i16` fits in `[MIN, MAX]`.
    fn from(v: i16) -> Self {
        DoubleInt(v as i64)
    }
}

impl vstd::std_specs::convert::FromSpecImpl<i16> for DoubleInt {
    open spec fn obeys_from_spec() -> bool {
        true
    }

    open spec fn from_spec(v: i16) -> DoubleInt {
        DoubleInt::spec_from(v as int)
    }
}

impl From<i32> for DoubleInt {
    /// Widens `v`; always in range, since every `i32` fits in `[MIN, MAX]`.
    fn from(v: i32) -> Self {
        DoubleInt(v as i64)
    }
}

impl vstd::std_specs::convert::FromSpecImpl<i32> for DoubleInt {
    open spec fn obeys_from_spec() -> bool {
        true
    }

    open spec fn from_spec(v: i32) -> DoubleInt {
        DoubleInt::spec_from(v as int)
    }
}

/// Rejection of a 64-bit integer that lies outside `[MIN, MAX]`.
///
/// Carries the offending value; [`OutOfRange::expected_message`] gives a
/// human-readable description of the violated bound.
#[derive(Debug, Clone, Copy, PartialEq, Eq, Structural)]
pub enum OutOfRange {
    /// The value was below [`MIN`].
    TooSmall { value: i64 },
    /// The value was above [`MAX`].
    TooLarge { value: i64 },
}

impl OutOfRange {
    /// The rejected value.
    pub open spec fn spec_value(self) -> i64 {
        match self {
            OutOfRange::TooSmall { value } => value,
            OutOfRange::TooLarge { value } => value,
        }
    }

    /// Returns the rejected value.
    pub fn value(&self) -> (r: i64)
        ensures
            r == self.spec_value(),
    {
        match self {
            OutOfRange::TooSmall { value } => *value,
            OutOfRange::TooLarge { value } => *value,
        }
    }

    /// Returns a human-readable description of the expected range, naming
    /// the bound that the rejected value violated.
    pub fn expected_message(&self) -> (r: &'static str)
        ensures
            self is TooSmall ==> r@ == "integer larger than -9007199254740991 / -(2^53) + 1"@,
            self is TooLarge ==> r@ == "integer smaller than 9007199254740991 / (2^53) - 1"@,
    {
        match self {
            OutOfRange::TooSmall { .. } => "integer larger than -9007199254740991 / -(2^53) + 1",
            OutOfRange::TooLarge { .. } => "integer smaller than 9007199254740991 / (2^53) - 1",
        }
    }
}

/// The specification-level constructor keeps in-range values: for any `v`
/// in `[MIN, MAX]`, the value built from `v` has view `v`.
pub proof fn lemma_spec_from(v: int)
    requires
        in_range(v),
    ensures
        DoubleInt::spec_from(v)@ == v,
{
}

/// Round trip: re-validating the stored 64-bit form of any in-range value
/// succeeds and yields the value itself. Together with the contracts of
/// [`DoubleInt::as_i64`] and [`DoubleInt::try_from_i64`], encoding a
/// [`DoubleInt`] and decoding the result gives back an equal value.
pub proof fn lemma_round_trip(d: DoubleInt)
    requires
        in_range(d@),
    ensures
        DoubleInt::spec_try_from(d@) == Ok::<DoubleInt, OutOfRange>(d),
{
    assert(DoubleInt::spec_from(d@) == d);
}

} // verus!
