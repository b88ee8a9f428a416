//! Complex numbers with components of a generic scalar type.
//!
//! The operators take their operands by value and return a new value. What
//! they compute is stated over the scalar type's own operators; for scalars
//! with the arithmetic of the integers it is restated over the integers.

use vstd::prelude::*;
use vstd::std_specs::ops::AddSpec;
use vstd::std_specs::ops::SubSpec;
use vstd::std_specs::ops::MulSpec;
use vstd::std_specs::ops::NegSpec;
use vstd::std_specs::convert::FromSpec;
use core::ops::Add;
use core::ops::Sub;
use core::ops::Mul;
use core::ops::Neg;
use crate::scalar::Zero;
use crate::scalar::IntegerScalar;
use crate::scalar::SignedScalar;

verus! {

/// The number `real + imag * i`.
#[derive(Clone, Copy, Debug)]
pub struct Complex<T> {
    pub real: T,
    pub imag: T,
}

impl<T: Copy + Add<Output = T>> vstd::std_specs::ops::AddSpecImpl for Complex<T> {
    open spec fn obeys_add_spec() -> bool {
        T::obeys_add_spec()
    }

    open spec fn add_req(self, other: Complex<T>) -> bool {
        self.real.add_req(other.real) && self.imag.add_req(other.imag)
    }

    open spec fn add_spec(self, other: Complex<T>) -> Complex<T> {
        Complex { real: self.real.add_spec(other.real), imag: self.imag.add_spec(other.imag) }
    }
}

impl<T: Copy + Add<Output = T>> Add for Complex<T> {
    type Output = Complex<T>;

    /// The component-wise sum.
    fn add(self, other: Complex<T>) -> Complex<T> {
        Complex { real: self.real + other.real, imag: self.imag + other.imag }
    }
}

impl<T: Copy + Add<Output = T> + Sub<Output = T> + Mul<Output = T>> vstd::std_specs::ops::MulSpecImpl for Complex<T> {
    open spec fn obeys_mul_spec() -> bool {
        T::obeys_mul_spec() && T::obeys_sub_spec() && T::obeys_add_spec()
    }

    /// The four scalar products, their difference and their sum are all
    /// permitted.
    open spec fn mul_req(self, other: Complex<T>) -> bool {
        &&& T::obeys_mul_spec()
        &&& self.real.mul_req(other.real)
        &&& self.imag.mul_req(other.imag)
        &&& self.real.mul_req(other.imag)
        &&& self.imag.mul_req(other.real)
        &&& self.real.mul_spec(other.real).sub_req(self.imag.mul_spec(other.imag))
        &&& self.real.mul_spec(other.imag).add_req(self.imag.mul_spec(other.real))
    }

    open spec fn mul_spec(self, other: Complex<T>) -> Complex<T> {
        Complex {
            real: self.real.mul_spec(other.real).sub_spec(self.imag.mul_spec(other.imag)),
            imag: self.real.mul_spec(other.imag).add_spec(self.imag.mul_spec(other.real)),
        }
    }
}

impl<T: Copy + Add<Output = T> + Sub<Output = T> + Mul<Output = T>> Mul for Complex<T> {
    type Output = Complex<T>;

    /// The complex product.
    fn mul(self, other: Complex<T>) -> Complex<T> {
        Complex {
            real: self.real * other.real - self.imag * other.imag,
            imag: self.real * other.imag + self.imag * other.real,
        }
    }
}

impl<T: Copy + Mul<Output = T>> vstd::std_specs::ops::MulSpecImpl<T> for Complex<T> {
    open spec fn obeys_mul_spec() -> bool {
        T::obeys_mul_spec()
    }

    open spec fn mul_req(self, other: T) -> bool {
        self.real.mul_req(other) && self.imag.mul_req(other)
    }

    open spec fn mul_spec(self, other: T) -> Complex<T> {
        Complex { real: self.real.mul_spec(other), imag: self.imag.mul_spec(other) }
    }
}

impl<T: Copy + Mul<Output = T>> Mul<T> for Complex<T> {
    type Output = Complex<T>;

    /// Both components scaled by a scalar on the right.
    fn mul(self, other: T) -> Complex<T> {
        Complex { real: self.real * other, imag: self.imag * other }
    }
}

impl<T: Zero> vstd::std_specs::convert::FromSpecImpl<T> for Complex<T> {
    open spec fn obeys_from_spec() -> bool {
        true
    }

    open spec fn from_spec(orig: T) -> Complex<T> {
        Complex { real: orig, imag: T::zero_spec() }
    }
}

impl<T: Zero> From<T> for Complex<T> {
    /// The scalar as a complex number with no imaginary part.
    fn from(orig: T) -> Complex<T> {
        Complex { real: orig, imag: T::zero() }
    }
}

impl<T> Complex<T> {
    /// The complex number with the given components.
    pub fn new(re: T, im: T) -> (z: Complex<T>)
        ensures
            z == (Complex { real: re, imag: im }),
    {
        Complex { real: re, imag: im }
    }
}

impl<T: Copy + Neg<Output = T>> Complex<T> {
    /// The conjugate: the imaginary part negated, the real part kept.
    pub open spec fn conjugate_spec(self) -> Complex<T> {
        Complex { real: self.real, imag: self.imag.neg_spec() }
    }

    /// Returns the conjugate.
    pub fn conjugate(self) -> (z: Complex<T>)
        requires
            self.imag.neg_req(),
        ensures
            z.real == self.real,
            T::obeys_neg_spec() ==> z == self.conjugate_spec(),
    {
        Complex { real: self.real, imag: self.imag.neg() }
    }
}

impl<T: Copy + Neg<Output = T> + Add<Output = T> + Sub<Output = T> + Mul<Output = T>> Complex<T> {
    /// The real part of the product of a number with its conjugate. This is
    /// the square of the magnitude; no square root is taken.
    pub open spec fn abs_spec(self) -> T {
        self.mul_spec(self.conjugate_spec()).real
    }

    /// Whether `abs` is permitted: the negation and the product are.
    pub open spec fn abs_req(self) -> bool {
        &&& T::obeys_neg_spec()
        &&& self.imag.neg_req()
        &&& self.mul_req(self.conjugate_spec())
    }

    /// Returns the squared magnitude.
    pub fn abs(self) -> (m: T)
        requires
            self.abs_req(),
        ensures
            <Complex<T> as MulSpec<Complex<T>>>::obeys_mul_spec() ==> m == self.abs_spec(),
    {
        (self * self.conjugate()).real
    }
}

} // verus!
