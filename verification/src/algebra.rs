//! Complex arithmetic over scalars with the arithmetic of the integers:
//! what the operators compute, stated over the integers, and the algebraic
//! facts that follow.

use vstd::prelude::*;
use vstd::std_specs::ops::AddSpec;
use vstd::std_specs::ops::SubSpec;
use vstd::std_specs::ops::MulSpec;
use vstd::std_specs::ops::NegSpec;
use vstd::std_specs::convert::FromSpec;
use crate::scalar::Zero;
use crate::scalar::IntegerScalar;
use crate::scalar::SignedScalar;
use crate::complex::Complex;

verus! {

/// The pair of integers that a complex number over integer scalars denotes:
/// the real part first.
pub open spec fn gaussian<T: IntegerScalar>(z: Complex<T>) -> (int, int) {
    (z.real.value(), z.imag.value())
}

/// Two complex numbers that denote the same pair of integers are equal.
pub proof fn gaussian_is_injective<T: IntegerScalar>(a: Complex<T>, b: Complex<T>)
    requires
        gaussian(a) == gaussian(b),
    ensures
        a == b,
{
    T::arithmetic_is_integer(a.real, b.real);
    T::arithmetic_is_integer(a.imag, b.imag);
}

/// A sum is permitted exactly when both component sums are in range, and
/// is then the component-wise integer sum.
pub proof fn sum_is_componentwise<T: IntegerScalar>(a: Complex<T>, b: Complex<T>)
    ensures
        a.add_req(b) <==> T::representable(a.real.value() + b.real.value()) && T::representable(
            a.imag.value() + b.imag.value(),
        ),
        a.add_req(b) ==> gaussian(a.add_spec(b)) == (
            a.real.value() + b.real.value(),
            a.imag.value() + b.imag.value(),
        ),
{
    T::arithmetic_is_integer(a.real, b.real);
    T::arithmetic_is_integer(a.imag, b.imag);
}

/// A product is permitted exactly when the four scalar products, the
/// difference of the first two and the sum of the last two are in range, and
/// is then `(ar*br - ai*bi) + (ar*bi + ai*br) i` over the integers.
pub proof fn product_is_complex_product<T: IntegerScalar>(a: Complex<T>, b: Complex<T>)
    ensures
        a.mul_req(b) <==> {
            &&& T::representable(a.real.value() * b.real.value())
            &&& T::representable(a.imag.value() * b.imag.value())
            &&& T::representable(a.real.value() * b.imag.value())
            &&& T::representable(a.imag.value() * b.real.value())
            &&& T::representable(a.real.value() * b.real.value() - a.imag.value() * b.imag.value())
            &&& T::representable(a.real.value() * b.imag.value() + a.imag.value() * b.real.value())
        },
        a.mul_req(b) ==> gaussian(a.mul_spec(b)) == (
            a.real.value() * b.real.value() - a.imag.value() * b.imag.value(),
            a.real.value() * b.imag.value() + a.imag.value() * b.real.value(),
        ),
{
    T::arithmetic_is_integer(a.real, b.real);
    T::arithmetic_is_integer(a.imag, b.imag);
    T::arithmetic_is_integer(a.real, b.imag);
    T::arithmetic_is_integer(a.imag, b.real);
    T::arithmetic_is_integer(a.real.mul_spec(b.real), a.imag.mul_spec(b.imag));
    T::arithmetic_is_integer(a.real.mul_spec(b.imag), a.imag.mul_spec(b.real));
}

/// Scaling is permitted exactly when both scaled components are in range,
/// and then multiplies each component by the scalar.
pub proof fn scaling_is_componentwise<T: IntegerScalar>(a: Complex<T>, s: T)
    ensures
        a.mul_req(s) <==> T::representable(a.real.value() * s.value()) && T::representable(
            a.imag.value() * s.value(),
        ),
        a.mul_req(s) ==> gaussian(a.mul_spec(s)) == (
            a.real.value() * s.value(),
            a.imag.value() * s.value(),
        ),
{
    T::arithmetic_is_integer(a.real, s);
    T::arithmetic_is_integer(a.imag, s);
}

/// A scalar lifted to a complex number denotes that scalar and zero.
pub proof fn lift_has_no_imaginary_part<T: IntegerScalar>(s: T)
    ensures
        gaussian(Complex::<T>::from_spec(s)) == (s.value(), 0int),
{
    T::arithmetic_is_integer(s, s);
}

/// A conjugate can be taken exactly when the negated imaginary part is in
/// range, and then negates the imaginary part.
pub proof fn conjugate_negates_imaginary_part<T: SignedScalar>(z: Complex<T>)
    ensures
        z.imag.neg_req() <==> T::representable(-z.imag.value()),
        z.imag.neg_req() ==> gaussian(z.conjugate_spec()) == (z.real.value(), -z.imag.value()),
{
    T::negation_is_integer(z.imag);
}

/// Conjugating twice gives the number back: wherever the conjugate of `z`
/// can be taken, so can the conjugate of the conjugate, and it is `z`.
pub proof fn conjugate_is_involution<T: SignedScalar>(z: Complex<T>)
    requires
        z.imag.neg_req(),
    ensures
        z.conjugate_spec().imag.neg_req(),
        z.conjugate_spec().conjugate_spec() == z,
{
    let c = z.conjugate_spec();
    T::negation_is_integer(z.imag);
    T::negation_is_integer(c.imag);
    T::arithmetic_is_integer(z.imag, c.imag);
    T::arithmetic_is_integer(c.conjugate_spec().imag, z.imag);
}

/// The magnitude measure is the sum of the squares of the two components,
/// and so is never negative.
pub proof fn magnitude_is_sum_of_squares<T: SignedScalar>(z: Complex<T>)
    requires
        z.abs_req(),
    ensures
        z.abs_spec().value() == z.real.value() * z.real.value() + z.imag.value() * z.imag.value(),
        z.abs_spec().value() >= 0,
{
    let c = z.conjugate_spec();
    let re = z.real.value();
    let im = z.imag.value();
    T::negation_is_integer(z.imag);
    product_is_complex_product(z, c);
    assert(im * (-im) == -(im * im)) by (nonlinear_arith);
    assert(re * re >= 0) by (nonlinear_arith);
    assert(im * im >= 0) by (nonlinear_arith);
}

/// Lifting preserves products: wherever `s * t` is permitted, so is the
/// product of the lifted scalars, and it is the lifted `s * t`.
pub proof fn lift_preserves_product<T: IntegerScalar>(s: T, t: T)
    requires
        s.mul_req(t),
    ensures
        Complex::<T>::from_spec(s).mul_req(Complex::<T>::from_spec(t)),
        Complex::<T>::from_spec(s).mul_spec(Complex::<T>::from_spec(t)) == Complex::<T>::from_spec(
            s.mul_spec(t),
        ),
{
    let a = Complex::<T>::from_spec(s);
    let b = Complex::<T>::from_spec(t);
    let sv = s.value();
    let tv = t.value();
    T::arithmetic_is_integer(s, t);
    lift_has_no_imaginary_part(s);
    lift_has_no_imaginary_part(t);
    lift_has_no_imaginary_part(s.mul_spec(t));
    assert(sv * 0 == 0) by (nonlinear_arith);
    assert(0 * tv == 0) by (nonlinear_arith);
    assert(0int * 0int == 0);
    product_is_complex_product(a, b);
    gaussian_is_injective(a.mul_spec(b), Complex::<T>::from_spec(s.mul_spec(t)));
}

} // verus!
