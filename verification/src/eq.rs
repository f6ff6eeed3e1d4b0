//! Equality between [`DoubleInt`] and every standard fixed-width integer
//! type, in both directions, with the semantics of mathematical equality.

use vstd::prelude::*;

use crate::DoubleInt;
use crate::MAX;
use crate::MIN;
use crate::UMAX;
use crate::in_range;
use crate::lemma_spec_from;
use vstd::std_specs::cmp::PartialEqSpec;
use vstd::std_specs::convert::FromSpec;

verus! {

impl PartialEq for DoubleInt {
    /// Two values are equal exactly when they hold the same integer.
    fn eq(&self, other: &DoubleInt) -> bool {
        self.0 == other.0
    }
}

impl vstd::std_specs::cmp::PartialEqSpecImpl for DoubleInt {
    open spec fn obeys_eq_spec() -> bool {
        true
    }

    open spec fn eq_spec(&self, other: &DoubleInt) -> bool {
        self@ == other@
    }
}

impl Eq for DoubleInt {

}

impl PartialEq<u8> for DoubleInt {
    /// Equal exactly when the stored value is `*other`; the target's whole
    /// range fits in the internal width, so a direct cast is sound.
    fn eq(&self, other: &u8) -> bool {
        self.0 == *other as i64
    }
}

impl vstd::std_specs::cmp::PartialEqSpecImpl<u8> for DoubleInt {
    open spec fn obeys_eq_spec() -> bool {
        true
    }

    open spec fn eq_spec(&self, other: &u8) -> bool {
        self@ == *other as int
    }
}

impl PartialEq<u16> for DoubleInt {
    /// Equal exactly when the stored value is `*other`; the target's whole
    /// range fits in the internal width, so a direct cast is sound.
    fn eq(&self, other: &u16) -> bool {
        self.0 == *other as i64
    }
}

impl vstd::std_specs::cmp::PartialEqSpecImpl<u16> for DoubleInt {
    open spec fn obeys_eq_spec() -> bool {
        true
    }

    open spec fn eq_spec(&self, other: &u16) -> bool {
        self@ == *other as int
    }
}

impl PartialEq<u32> for DoubleInt {
    /// Equal exactly when the stored value is `*other`; the target's whole
    /// range fits in the internal width, so a direct cast is sound.
    fn eq(&self, other: &u32) -> bool {
        self.0 == *other as i64
    }
}

impl vstd::std_specs::cmp::PartialEqSpecImpl<u32> for DoubleInt {
    open spec fn obeys_eq_spec() -> bool {
        true
    }

    open spec fn eq_spec(&self, other: &u32) -> bool {
        self@ == *other as int
    }
}

impl PartialEq<i8> for DoubleInt {
    /// Equal exactly when the stored value is `*other`; the target's whole
    /// range fits in the internal width, so a direct cast is sound.
    fn eq(&self, other: &i8) -> bool {
        self.0 == *other as i64
    }
}

impl vstd::std_specs::cmp::PartialEqSpecImpl<i8> for DoubleInt {
    open spec fn obeys_eq_spec() -> bool {
        true
    }

    open spec fn eq_spec(&self, other: &i8) -> bool {
        self@ == *other as int
    }
}

impl PartialEq<i16> for DoubleInt {
    /// Equal exactly when the stored value is `*other`; the target's whole
    /// range fits in the internal width, so a direct cast is sound.
    fn eq(&self, other: &i16) -> bool {
        self.0 == *other as i64
    }
}

impl vstd::std_specs::cmp::PartialEqSpecImpl<i16> for DoubleInt {
    open spec fn obeys_eq_spec() -> bool {
        true
    }

    open spec fn eq_spec(&self, other: &i16) -> bool {
        self@ == *other as int
    }
}

impl PartialEq<i32> for DoubleInt {
    /// Equal exactly when the stored value is `*other`; the target's whole
    /// range fits in the internal width, so a direct cast is sound.
    fn eq(&self, other: &i32) -> bool {
        self.0 == *other as i64
    }
}

impl vstd::std_specs::cmp::PartialEqSpecImpl<i32> for DoubleInt {
    open spec fn obeys_eq_spec() -> bool {
        true
    }

    open spec fn eq_spec(&self, other: &i32) -> bool {
        self@ == *other as int
    }
}

impl PartialEq<i64> for DoubleInt {
    /// Equal exactly when the stored value is `*other`; both sides share
    /// the internal width, so no cast is needed.
    fn eq(&self, other: &i64) -> bool {
        self.0 == *other
    }
}

impl vstd::std_specs::cmp::PartialEqSpecImpl<i64> for DoubleInt {
    open spec fn obeys_eq_spec() -> bool {
        true
    }

    open spec fn eq_spec(&self, other: &i64) -> bool {
        self@ == *other as int
    }
}

impl PartialEq<u64> for DoubleInt {
    /// Equal exactly when the stored value is `*other`. A target above
    /// `UMAX` can never be equal, since the stored value is at most `MAX`;
    /// guarding on that first makes the narrowing cast below exact.
    fn eq(&self, other: &u64) -> bool {
        proof {
            use_type_invariant(&*self);
        }
        if *other > UMAX {
            false
        } else {
            self.0 == *other as i64
        }
    }
}

impl vstd::std_specs::cmp::PartialEqSpecImpl<u64> for DoubleInt {
    open spec fn obeys_eq_spec() -> bool {
        true
    }

    open spec fn eq_spec(&self, other: &u64) -> bool {
        self@ == *other as int
    }
}

impl PartialEq<u128> for DoubleInt {
    /// Equal exactly when the stored value is `*other`. A target above
    /// `UMAX` can never be equal, since the stored value is at most `MAX`;
    /// guarding on that first makes the narrowing cast below exact.
    fn eq(&self, other: &u128) -> bool {
        proof {
            use_type_invariant(&*self);
        }
        if *other > UMAX as u128 {
            false
        } else {
            self.0 == *other as i64
        }
    }
}

impl vstd::std_specs::cmp::PartialEqSpecImpl<u128> for DoubleInt {
    open spec fn obeys_eq_spec() -> bool {
        true
    }

    open spec fn eq_spec(&self, other: &u128) -> bool {
        self@ == *other as int
    }
}

impl PartialEq<i128> for DoubleInt {
    /// Equal exactly when the stored value is `*other`. A target outside
    /// `[MIN, MAX]` can never be equal, since the stored value lies in
    /// that interval; guarding on both bounds first makes the narrowing
    /// cast below exact.
    fn eq(&self, other: &i128) -> bool {
        proof {
            use_type_invariant(&*self);
        }
        if *other < MIN as i128 || *other > MAX as i128 {
            false
        } else {
            self.0 == *other as i64
        }
    }
}

impl vstd::std_specs::cmp::PartialEqSpecImpl<i128> for DoubleInt {
    open spec fn obeys_eq_spec() -> bool {
        true
    }

    open spec fn eq_spec(&self, other: &i128) -> bool {
        self@ == *other as int
    }
}

impl PartialEq<DoubleInt> for u8 {
    /// The mirror of `DoubleInt == u8`, with identical results.
    fn eq(&self, other: &DoubleInt) -> bool {
        other.0 == *self as i64
    }
}

impl vstd::std_specs::cmp::PartialEqSpecImpl<DoubleInt> for u8 {
    open spec fn obeys_eq_spec() -> bool {
        true
    }

    open spec fn eq_spec(&self, other: &DoubleInt) -> bool {
        *self as int == other@
    }
}

impl PartialEq<DoubleInt> for u16 {
    /// The mirror of `DoubleInt == u16`, with identical results.
    fn eq(&self, other: &DoubleInt) -> bool {
        other.0 == *self as i64
    }
}

impl vstd::std_specs::cmp::PartialEqSpecImpl<DoubleInt> for u16 {
    open spec fn obeys_eq_spec() -> bool {
        true
    }

    open spec fn eq_spec(&self, other: &DoubleInt) -> bool {
        *self as int == other@
    }
}

impl PartialEq<DoubleInt> for u32 {
    /// The mirror of `DoubleInt == u32`, with identical results.
    fn eq(&self, other: &DoubleInt) -> bool {
        other.0 == *self as i64
    }
}

impl vstd::std_specs::cmp::PartialEqSpecImpl<DoubleInt> for u32 {
    open spec fn obeys_eq_spec() -> bool {
        true
    }

    open spec fn eq_spec(&self, other: &DoubleInt) -> bool {
        *self as int == other@
    }
}

impl PartialEq<DoubleInt> for i8 {
    /// The mirror of `DoubleInt == i8`, with identical results.
    fn eq(&self, other: &DoubleInt) -> bool {
        other.0 == *self as i64
    }
}

impl vstd::std_specs::cmp::PartialEqSpecImpl<DoubleInt> for i8 {
    open spec fn obeys_eq_spec() -> bool {
        true
    }

    open spec fn eq_spec(&self, other: &DoubleInt) -> bool {
        *self as int == other@
    }
}

impl PartialEq<DoubleInt> for i16 {
    /// The mirror of `DoubleInt == i16`, with identical results.
    fn eq(&self, other: &DoubleInt) -> bool {
        other.0 == *self as i64
    }
}

impl vstd::std_specs::cmp::PartialEqSpecImpl<DoubleInt> for i16 {
    open spec fn obeys_eq_spec() -> bool {
        true
    }

    open spec fn eq_spec(&self, other: &DoubleInt) -> bool {
        *self as int == other@
    }
}

impl PartialEq<DoubleInt> for i32 {
    /// The mirror of `DoubleInt == i32`, with identical results.
    fn eq(&self, other: &DoubleInt) -> bool {
        other.0 == *self as i64
    }
}

impl vstd::std_specs::cmp::PartialEqSpecImpl<DoubleInt> for i32 {
    open spec fn obeys_eq_spec() -> bool {
        true
    }

    open spec fn eq_spec(&self, other: &DoubleInt) -> bool {
        *self as int == other@
    }
}

impl PartialEq<DoubleInt> for i64 {
    /// The mirror of `DoubleInt == i64`, with identical results.
    fn eq(&self, other: &DoubleInt) -> bool {
        other.0 == *self
    }
}

impl vstd::std_specs::cmp::PartialEqSpecImpl<DoubleInt> for i64 {
    open spec fn obeys_eq_spec() -> bool {
        true
    }

    open spec fn eq_spec(&self, other: &DoubleInt) -> bool {
        *self as int == other@
    }
}

impl PartialEq<DoubleInt> for u64 {
    /// The mirror of `DoubleInt == u64`, with identical results.
    fn eq(&self, other: &DoubleInt) -> bool {
        proof {
            use_type_invariant(&*other);
        }
        if *self > UMAX {
            false
        } else {
            other.0 == *self as i64
        }
    }
}

impl vstd::std_specs::cmp::PartialEqSpecImpl<DoubleInt> for u64 {
    open spec fn obeys_eq_spec() -> bool {
        true
    }

    open spec fn eq_spec(&self, other: &DoubleInt) -> bool {
        *self as int == other@
    }
}

impl PartialEq<DoubleInt> for u128 {
    /// The mirror of `DoubleInt == u128`, with identical results.
    fn eq(&self, other: &DoubleInt) -> bool {
        proof {
            use_type_invariant(&*other);
        }
        if *self > UMAX as u128 {
            false
        } else {
            other.0 == *self as i64
        }
    }
}

impl vstd::std_specs::cmp::PartialEqSpecImpl<DoubleInt> for u128 {
    open spec fn obeys_eq_spec() -> bool {
        true
    }

    open spec fn eq_spec(&self, other: &DoubleInt) -> bool {
        *self as int == other@
    }
}

impl PartialEq<DoubleInt> for i128 {
    /// The mirror of `DoubleInt == i128`, with identical results.
    fn eq(&self, other: &DoubleInt) -> bool {
        proof {
            use_type_invariant(&*other);
        }
        if *self < MIN as i128 || *self > MAX as i128 {
            false
        } else {
            other.0 == *self as i64
        }
    }
}

impl vstd::std_specs::cmp::PartialEqSpecImpl<DoubleInt> for i128 {
    open spec fn obeys_eq_spec() -> bool {
        true
    }

    open spec fn eq_spec(&self, other: &DoubleInt) -> bool {
        *self as int == other@
    }
}

/// Cross-type equality agrees with mathematical equality: a value built
/// from an in-range `x` compares equal to a `u8`, in either direction,
/// exactly when `x` and the target are the same integer.
pub proof fn lemma_eq_consistent_u8(x: i64, t: u8)
    requires
        in_range(x as int),
    ensures
        <DoubleInt as PartialEqSpec<u8>>::eq_spec(&DoubleInt::spec_from(x as int), &t)
            <==> x as int == t as int,
        <u8 as PartialEqSpec<DoubleInt>>::eq_spec(&t, &DoubleInt::spec_from(x as int))
            <==> x as int == t as int,
{
    lemma_spec_from(x as int);
}

/// Cross-type equality agrees with mathematical equality: a value built
/// from an in-range `x` compares equal to a `u16`, in either direction,
/// exactly when `x` and the target are the same integer.
pub proof fn lemma_eq_consistent_u16(x: i64, t: u16)
    requires
        in_range(x as int),
    ensures
        <DoubleInt as PartialEqSpec<u16>>::eq_spec(&DoubleInt::spec_from(x as int), &t)
            <==> x as int == t as int,
        <u16 as PartialEqSpec<DoubleInt>>::eq_spec(&t, &DoubleInt::spec_from(x as int))
            <==> x as int == t as int,
{
    lemma_spec_from(x as int);
}

/// Cross-type equality agrees with mathematical equality: a value built
/// from an in-range `x` compares equal to a `u32`, in either direction,
/// exactly when `x` and the target are the same integer.
pub proof fn lemma_eq_consistent_u32(x: i64, t: u32)
    requires
        in_range(x as int),
    ensures
        <DoubleInt as PartialEqSpec<u32>>::eq_spec(&DoubleInt::spec_from(x as int), &t)
            <==> x as int == t as int,
        <u32 as PartialEqSpec<DoubleInt>>::eq_spec(&t, &DoubleInt::spec_from(x as int))
            <==> x as int == t as int,
{
    lemma_spec_from(x as int);
}

/// Cross-type equality agrees with mathematical equality: a value built
/// from an in-range `x` compares equal to a `u64`, in either direction,
/// exactly when `x` and the target are the same integer.
pub proof fn lemma_eq_consistent_u64(x: i64, t: u64)
    requires
        in_range(x as int),
    ensures
        <DoubleInt as PartialEqSpec<u64>>::eq_spec(&DoubleInt::spec_from(x as int), &t)
            <==> x as int == t as int,
        <u64 as PartialEqSpec<DoubleInt>>::eq_spec(&t, &DoubleInt::spec_from(x as int))
            <==> x as int == t as int,
{
    lemma_spec_from(x as int);
}

/// Cross-type equality agrees with mathematical equality: a value built
/// from an in-range `x` compares equal to a `u128`, in either direction,
/// exactly when `x` and the target are the same integer.
pub proof fn lemma_eq_consistent_u128(x: i64, t: u128)
    requires
        in_range(x as int),
    ensures
        <DoubleInt as PartialEqSpec<u128>>::eq_spec(&DoubleInt::spec_from(x as int), &t)
            <==> x as int == t as int,
        <u128 as PartialEqSpec<DoubleInt>>::eq_spec(&t, &DoubleInt::spec_from(x as int))
            <==> x as int == t as int,
{
    lemma_spec_from(x as int);
}

/// Cross-type equality agrees with mathematical equality: a value built
/// from an in-range `x` compares equal to an `i8`, in either direction,
/// exactly when `x` and the target are the same integer.
pub proof fn lemma_eq_consistent_i8(x: i64, t: i8)
    requires
        in_range(x as int),
    ensures
        <DoubleInt as PartialEqSpec<i8>>::eq_spec(&DoubleInt::spec_from(x as int), &t)
            <==> x as int == t as int,
        <i8 as PartialEqSpec<DoubleInt>>::eq_spec(&t, &DoubleInt::spec_from(x as int))
            <==> x as int == t as int,
{
    lemma_spec_from(x as int);
}

/// Cross-type equality agrees with mathematical equality: a value built
/// from an in-range `x` compares equal to an `i16`, in either direction,
/// exactly when `x` and the target are the same integer.
pub proof fn lemma_eq_consistent_i16(x: i64, t: i16)
    requires
        in_range(x as int),
    ensures
        <DoubleInt as PartialEqSpec<i16>>::eq_spec(&DoubleInt::spec_from(x as int), &t)
            <==> x as int == t as int,
        <i16 as PartialEqSpec<DoubleInt>>::eq_spec(&t, &DoubleInt::spec_from(x as int))
            <==> x as int == t as int,
{
    lemma_spec_from(x as int);
}

/// Cross-type equality agrees with mathematical equality: a value built
/// from an in-range `x` compares equal to an `i32`, in either direction,
/// exactly when `x` and the target are the same integer.
pub proof fn lemma_eq_consistent_i32(x: i64, t: i32)
    requires
        in_range(x as int),
    ensures
        <DoubleInt as PartialEqSpec<i32>>::eq_spec(&DoubleInt::spec_from(x as int), &t)
            <==> x as int == t as int,
        <i32 as PartialEqSpec<DoubleInt>>::eq_spec(&t, &DoubleInt::spec_from(x as int))
            <==> x as int == t as int,
{
    lemma_spec_from(x as int);
}

/// Cross-type equality agrees with mathematical equality: a value built
/// from an in-range `x` compares equal to an `i64`, in either direction,
/// exactly when `x` and the target are the same integer.
pub proof fn lemma_eq_consistent_i64(x: i64, t: i64)
    requires
        in_range(x as int),
    ensures
        <DoubleInt as PartialEqSpec<i64>>::eq_spec(&DoubleInt::spec_from(x as int), &t)
            <==> x as int == t as int,
        <i64 as PartialEqSpec<DoubleInt>>::eq_spec(&t, &DoubleInt::spec_from(x as int))
            <==> x as int == t as int,
{
    lemma_spec_from(x as int);
}

/// Cross-type equality agrees with mathematical equality: a value built
/// from an in-range `x` compares equal to an `i128`, in either direction,
/// exactly when `x` and the target are the same integer.
pub proof fn lemma_eq_consistent_i128(x: i64, t: i128)
    requires
        in_range(x as int),
    ensures
        <DoubleInt as PartialEqSpec<i128>>::eq_spec(&DoubleInt::spec_from(x as int), &t)
            <==> x as int == t as int,
        <i128 as PartialEqSpec<DoubleInt>>::eq_spec(&t, &DoubleInt::spec_from(x as int))
            <==> x as int == t as int,
{
    lemma_spec_from(x as int);
}

/// Infallible widening construction keeps the value: the `DoubleInt`
/// built from any `u8` holds it exactly and compares equal to it.
pub proof fn lemma_from_eq_u8(n: u8)
    ensures
        <DoubleInt as FromSpec<u8>>::from_spec(n)@ == n as int,
        <DoubleInt as PartialEqSpec<u8>>::eq_spec(&<DoubleInt as FromSpec<u8>>::from_spec(n), &n),
{
    lemma_spec_from(n as int);
}

/// Infallible widening construction keeps the value: the `DoubleInt`
/// built from any `u16` holds it exactly and compares equal to it.
pub proof fn lemma_from_eq_u16(n: u16)
    ensures
        <DoubleInt as FromSpec<u16>>::from_spec(n)@ == n as int,
        <DoubleInt as PartialEqSpec<u16>>::eq_spec(&<DoubleInt as FromSpec<u16>>::from_spec(n), &n),
{
    lemma_spec_from(n as int);
}

/// Infallible widening construction keeps the value: the `DoubleInt`
/// built from any `u32` holds it exactly and compares equal to it.
pub proof fn lemma_from_eq_u32(n: u32)
    ensures
        <DoubleInt as FromSpec<u32>>::from_spec(n)@ == n as int,
        <DoubleInt as PartialEqSpec<u32>>::eq_spec(&<DoubleInt as FromSpec<u32>>::from_spec(n), &n),
{
    lemma_spec_from(n as int);
}

/// Infallible widening construction keeps the value: the `DoubleInt`
/// built from any `i8` holds it exactly and compares equal to it.
pub proof fn lemma_from_eq_i8(n: i8)
    ensures
        <DoubleInt as FromSpec<i8>>::from_spec(n)@ == n as int,
        <DoubleInt as PartialEqSpec<i8>>::eq_spec(&<DoubleInt as FromSpec<i8>>::from_spec(n), &n),
{
    lemma_spec_from(n as int);
}

/// Infallible widening construction keeps the value: the `DoubleInt`
/// built from any `i16` holds it exactly and compares equal to it.
pub proof fn lemma_from_eq_i16(n: i16)
    ensures
        <DoubleInt as FromSpec<i16>>::from_spec(n)@ == n as int,
        <DoubleInt as PartialEqSpec<i16>>::eq_spec(&<DoubleInt as FromSpec<i16>>::from_spec(n), &n),
{
    lemma_spec_from(n as int);
}

/// Infallible widening construction keeps the value: the `DoubleInt`
/// built from any `i32` holds it exactly and compares equal to it.
pub proof fn lemma_from_eq_i32(n: i32)
    ensures
        <DoubleInt as FromSpec<i32>>::from_spec(n)@ == n as int,
        <DoubleInt as PartialEqSpec<i32>>::eq_spec(&<DoubleInt as FromSpec<i32>>::from_spec(n), &n),
{
    lemma_spec_from(n as int);
}

} // verus!
