//! Scalars: the additive identity of a numeric type, and the integer model
//! of the fixed-width integer types.

use vstd::prelude::*;
use vstd::std_specs::ops::AddSpec;
use vstd::std_specs::ops::SubSpec;
use vstd::std_specs::ops::MulSpec;
use vstd::std_specs::ops::NegSpec;
use core::ops::Add;
use core::ops::Sub;
use core::ops::Mul;
use core::ops::Neg;

verus! {

/// A scalar type with a designated zero. There is no generic zero: every
/// scalar type supplies its own, and shows that it is neutral for the type's
/// addition on either side and can always be added.
pub trait Zero: Sized + Add<Output = Self> {
    /// The additive identity of the type.
    spec fn zero_spec() -> Self;

    /// Returns the additive identity.
    fn zero() -> (z: Self)
        ensures
            z == Self::zero_spec(),
    ;

    /// `zero + x == x` and `x + zero == x` for every `x`, and neither sum
    /// leaves the type.
    proof fn zero_is_neutral(x: Self)
        ensures
            Self::obeys_add_spec(),
            Self::zero_spec().add_req(x),
            x.add_req(Self::zero_spec()),
            Self::zero_spec().add_spec(x) == x,
            x.add_spec(Self::zero_spec()) == x,
    ;
}

/// A scalar type whose values are integers of a bounded range and whose
/// operators compute the integer sum, difference and product whenever the
/// result is in that range, and are not permitted otherwise.
pub trait IntegerScalar: Zero + Copy + Sub<Output = Self> + Mul<Output = Self> {
    /// The integer that a scalar denotes.
    spec fn value(self) -> int;

    /// Whether the type has a scalar that denotes `v`.
    spec fn representable(v: int) -> bool;

    /// The operators of the type agree with integer arithmetic.
    proof fn arithmetic_is_integer(a: Self, b: Self)
        ensures
            Self::obeys_add_spec(),
            Self::obeys_sub_spec(),
            Self::obeys_mul_spec(),
            Self::representable(a.value()),
            Self::representable(0),
            a.value() == b.value() ==> a == b,
            Self::zero_spec().value() == 0,
            a.add_req(b) <==> Self::representable(a.value() + b.value()),
            a.add_req(b) ==> a.add_spec(b).value() == a.value() + b.value(),
            a.sub_req(b) <==> Self::representable(a.value() - b.value()),
            a.sub_req(b) ==> a.sub_spec(b).value() == a.value() - b.value(),
            a.mul_req(b) <==> Self::representable(a.value() * b.value()),
            a.mul_req(b) ==> a.mul_spec(b).value() == a.value() * b.value(),
    ;
}

/// An integer scalar with negation.
pub trait SignedScalar: IntegerScalar + Neg<Output = Self> {
    /// Negation agrees with integer negation, and is permitted exactly when
    /// the negated integer is in the range of the type.
    proof fn negation_is_integer(a: Self)
        ensures
            Self::obeys_neg_spec(),
            a.neg_req() <==> Self::representable(-a.value()),
            a.neg_req() ==> a.neg_spec().value() == -a.value(),
    ;
}

impl Zero for usize {
    open spec fn zero_spec() -> usize {
        0usize
    }

    fn zero() -> (z: usize) {
        0usize
    }

    proof fn zero_is_neutral(x: usize) {
    }
}

impl IntegerScalar for usize {
    open spec fn value(self) -> int {
        self as int
    }

    open spec fn representable(v: int) -> bool {
        usize::MIN <= v <= usize::MAX
    }

    proof fn arithmetic_is_integer(a: usize, b: usize) {
    }
}

impl Zero for u8 {
    open spec fn zero_spec() -> u8 {
        0u8
    }

    fn zero() -> (z: u8) {
        0u8
    }

    proof fn zero_is_neutral(x: u8) {
    }
}

impl IntegerScalar for u8 {
    open spec fn value(self) -> int {
        self as int
    }

    open spec fn representable(v: int) -> bool {
        u8::MIN <= v <= u8::MAX
    }

    proof fn arithmetic_is_integer(a: u8, b: u8) {
    }
}

impl Zero for u16 {
    open spec fn zero_spec() -> u16 {
        0u16
    }

    fn zero() -> (z: u16) {
        0u16
    }

    proof fn zero_is_neutral(x: u16) {
    }
}

impl IntegerScalar for u16 {
    open spec fn value(self) -> int {
        self as int
    }

    open spec fn representable(v: int) -> bool {
        u16::MIN <= v <= u16::MAX
    }

    proof fn arithmetic_is_integer(a: u16, b: u16) {
    }
}

impl Zero for u32 {
    open spec fn zero_spec() -> u32 {
        0u32
    }

    fn zero() -> (z: u32) {
        0u32
    }

    proof fn zero_is_neutral(x: u32) {
    }
}

impl IntegerScalar for u32 {
    open spec fn value(self) -> int {
        self as int
    }

    open spec fn representable(v: int) -> bool {
        u32::MIN <= v <= u32::MAX
    }

    proof fn arithmetic_is_integer(a: u32, b: u32) {
    }
}

impl Zero for u64 {
    open spec fn zero_spec() -> u64 {
        0u64
    }

    fn zero() -> (z: u64) {
        0u64
    }

    proof fn zero_is_neutral(x: u64) {
    }
}

impl IntegerScalar for u64 {
    open spec fn value(self) -> int {
        self as int
    }

    open spec fn representable(v: int) -> bool {
        u64::MIN <= v <= u64::MAX
    }

    proof fn arithmetic_is_integer(a: u64, b: u64) {
    }
}

impl Zero for u128 {
    open spec fn zero_spec() -> u128 {
        0u128
    }

    fn zero() -> (z: u128) {
        0u128
    }

    proof fn zero_is_neutral(x: u128) {
    }
}

impl IntegerScalar for u128 {
    open spec fn value(self) -> int {
        self as int
    }

    open spec fn representable(v: int) -> bool {
        u128::MIN <= v <= u128::MAX
    }

    proof fn arithmetic_is_integer(a: u128, b: u128) {
    }
}

impl Zero for isize {
    open spec fn zero_spec() -> isize {
        0isize
    }

    fn zero() -> (z: isize) {
        0isize
    }

    proof fn zero_is_neutral(x: isize) {
    }
}

impl IntegerScalar for isize {
    open spec fn value(self) -> int {
        self as int
    }

    open spec fn representable(v: int) -> bool {
        isize::MIN <= v <= isize::MAX
    }

    proof fn arithmetic_is_integer(a: isize, b: isize) {
    }
}

impl Zero for i8 {
    open spec fn zero_spec() -> i8 {
        0i8
    }

    fn zero() -> (z: i8) {
        0i8
    }

    proof fn zero_is_neutral(x: i8) {
    }
}

impl IntegerScalar for i8 {
    open spec fn value(self) -> int {
        self as int
    }

    open spec fn representable(v: int) -> bool {
        i8::MIN <= v <= i8::MAX
    }

    proof fn arithmetic_is_integer(a: i8, b: i8) {
    }
}

impl Zero for i16 {
    open spec fn zero_spec() -> i16 {
        0i16
    }

    fn zero() -> (z: i16) {
        0i16
    }

    proof fn zero_is_neutral(x: i16) {
    }
}

impl IntegerScalar for i16 {
    open spec fn value(self) -> int {
        self as int
    }

    open spec fn representable(v: int) -> bool {
        i16::MIN <= v <= i16::MAX
    }

    proof fn arithmetic_is_integer(a: i16, b: i16) {
    }
}

impl Zero for i32 {
    open spec fn zero_spec() -> i32 {
        0i32
    }

    fn zero() -> (z: i32) {
        0i32
    }

    proof fn zero_is_neutral(x: i32) {
    }
}

impl IntegerScalar for i32 {
    open spec fn value(self) -> int {
        self as int
    }

    open spec fn representable(v: int) -> bool {
        i32::MIN <= v <= i32::MAX
    }

    proof fn arithmetic_is_integer(a: i32, b: i32) {
    }
}

impl Zero for i64 {
    open spec fn zero_spec() -> i64 {
        0i64
    }

    fn zero() -> (z: i64) {
        0i64
    }

    proof fn zero_is_neutral(x: i64) {
    }
}

impl IntegerScalar for i64 {
    open spec fn value(self) -> int {
        self as int
    }

    open spec fn representable(v: int) -> bool {
        i64::MIN <= v <= i64::MAX
    }

    proof fn arithmetic_is_integer(a: i64, b: i64) {
    }
}

impl Zero for i128 {
    open spec fn zero_spec() -> i128 {
        0i128
    }

    fn zero() -> (z: i128) {
        0i128
    }

    proof fn zero_is_neutral(x: i128) {
    }
}

impl IntegerScalar for i128 {
    open spec fn value(self) -> int {
        self as int
    }

    open spec fn representable(v: int) -> bool {
        i128::MIN <= v <= i128::MAX
    }

    proof fn arithmetic_is_integer(a: i128, b: i128) {
    }
}

impl SignedScalar for isize {
    proof fn negation_is_integer(a: isize) {
    }
}

impl SignedScalar for i8 {
    proof fn negation_is_integer(a: i8) {
    }
}

impl SignedScalar for i16 {
    proof fn negation_is_integer(a: i16) {
    }
}

impl SignedScalar for i32 {
    proof fn negation_is_integer(a: i32) {
    }
}

impl SignedScalar for i64 {
    proof fn negation_is_integer(a: i64) {
    }
}

impl SignedScalar for i128 {
    proof fn negation_is_integer(a: i128) {
    }
}

} // verus!
