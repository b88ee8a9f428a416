//! The classical fourth-order Runge-Kutta method with a fixed step.
//!
//! A stepper owns a differential system and its current state. Each advance
//! evaluates the derivative four times, combines the slopes with the weights
//! 1 : 2 : 2 : 1 and moves state and time forward by one step. Nothing of
//! the past is kept, and an advance never ends the sequence.

use vstd::prelude::*;
use vstd::std_specs::ops::AddSpec;
use vstd::std_specs::ops::MulSpec;
use vstd::std_specs::ops::DivSpec;
use vstd::std_specs::convert::FromSpec;
use core::ops::Add;
use core::ops::Mul;
use core::ops::Div;
use crate::scalar::IntegerScalar;

verus! {

/// An ordinary differential equation: the rule that gives the rate of change
/// of a state. There is no generic rule; every system supplies its own.
pub trait ODE {
    /// The real factors by which states are scaled, and in which time is
    /// counted. Small whole numbers convert to it, so that the method's
    /// weights can be formed as quotients.
    type Time: Copy + Add<Output = Self::Time> + Mul<Output = Self::Time> + Div<
        Output = Self::Time,
    > + From<u8>;

    /// The states: values that can be added and scaled by a real factor.
    type State: Copy + Add<Output = Self::State> + Mul<Self::Time, Output = Self::State>;

    /// The derivative of a state.
    spec fn diff_spec(&self, state: &Self::State) -> Self::State;

    /// Returns the derivative of a state: a function of the system and the
    /// state alone.
    fn diff(&self, state: &Self::State) -> (d: Self::State)
        ensures
            d == self.diff_spec(state),
    ;
}

/// The quotient `num / den` in a type that small whole numbers convert to.
pub open spec fn fraction<R: From<u8> + Div<Output = R>>(num: u8, den: u8) -> R {
    R::from_spec(num).div_spec(R::from_spec(den))
}

/// Whether the quotient `num / den` may be formed.
pub open spec fn fraction_req<R: From<u8> + Div<Output = R>>(num: u8, den: u8) -> bool {
    R::from_spec(num).div_req(R::from_spec(den))
}

/// A fixed-step integrator at time `t`, with the system it integrates and
/// the state of that system at `t`.
pub struct RK4<S: ODE> {
    pub t: S::Time,
    pub delta_t: S::Time,
    pub system: S,
    pub state: S::State,
}

impl<S: ODE> RK4<S> {
    /// The operators of the time and state types compute what their
    /// specifications say.
    pub open spec fn arithmetic_is_specified() -> bool {
        &&& <S::Time as FromSpec<u8>>::obeys_from_spec()
        &&& <S::Time as DivSpec<S::Time>>::obeys_div_spec()
        &&& <S::Time as MulSpec<S::Time>>::obeys_mul_spec()
        &&& <S::Time as AddSpec<S::Time>>::obeys_add_spec()
        &&& <S::State as MulSpec<S::Time>>::obeys_mul_spec()
        &&& <S::State as AddSpec<S::State>>::obeys_add_spec()
    }

    /// Half a step: `1/2 * delta_t`.
    pub open spec fn half_step(&self) -> S::Time {
        fraction::<S::Time>(1, 2).mul_spec(self.delta_t)
    }

    /// The state moved along `slope` for the time `h`.
    pub open spec fn moved(&self, slope: S::State, h: S::Time) -> S::State {
        self.state.add_spec(slope.mul_spec(h))
    }

    /// Whether `moved` may be computed.
    pub open spec fn move_req(&self, slope: S::State, h: S::Time) -> bool {
        slope.mul_req(h) && self.state.add_req(slope.mul_spec(h))
    }

    /// The slope at the current state.
    pub open spec fn k1(&self) -> S::State {
        self.system.diff_spec(&self.state)
    }

    /// The slope half a step along the first slope.
    pub open spec fn k2(&self) -> S::State {
        self.system.diff_spec(&self.moved(self.k1(), self.half_step()))
    }

    /// The slope half a step along the second slope.
    pub open spec fn k3(&self) -> S::State {
        self.system.diff_spec(&self.moved(self.k2(), self.half_step()))
    }

    /// The slope a full step along the third slope.
    pub open spec fn k4(&self) -> S::State {
        self.system.diff_spec(&self.moved(self.k3(), self.delta_t))
    }

    /// The weighted slope `k1 * 1/6 + k2 * 2/6 + k3 * 2/6 + k4 * 1/6`, summed
    /// from the left.
    pub open spec fn combined(&self) -> S::State {
        self.k1().mul_spec(fraction::<S::Time>(1, 6)).add_spec(
            self.k2().mul_spec(fraction::<S::Time>(2, 6)),
        ).add_spec(self.k3().mul_spec(fraction::<S::Time>(2, 6))).add_spec(
            self.k4().mul_spec(fraction::<S::Time>(1, 6)),
        )
    }

    /// The state after one advance.
    pub open spec fn next_state(&self) -> S::State {
        self.moved(self.combined(), self.delta_t)
    }

    /// The time after one advance.
    pub open spec fn next_time(&self) -> S::Time {
        self.t.add_spec(self.delta_t)
    }

    /// Whether the stepper can advance: every quotient, product and sum of
    /// the update is permitted by the time and state types.
    pub open spec fn can_advance(&self) -> bool {
        let sixth = fraction::<S::Time>(1, 6);
        let third = fraction::<S::Time>(2, 6);
        let w1 = self.k1().mul_spec(sixth);
        let w2 = self.k2().mul_spec(third);
        let w3 = self.k3().mul_spec(third);
        let w4 = self.k4().mul_spec(sixth);
        &&& Self::arithmetic_is_specified()
        &&& fraction_req::<S::Time>(1, 2)
        &&& fraction_req::<S::Time>(1, 6)
        &&& fraction_req::<S::Time>(2, 6)
        &&& fraction::<S::Time>(1, 2).mul_req(self.delta_t)
        &&& self.move_req(self.k1(), self.half_step())
        &&& self.move_req(self.k2(), self.half_step())
        &&& self.move_req(self.k3(), self.delta_t)
        &&& self.k1().mul_req(sixth)
        &&& self.k2().mul_req(third)
        &&& self.k3().mul_req(third)
        &&& self.k4().mul_req(sixth)
        &&& w1.add_req(w2)
        &&& w1.add_spec(w2).add_req(w3)
        &&& w1.add_spec(w2).add_spec(w3).add_req(w4)
        &&& self.move_req(self.combined(), self.delta_t)
        &&& self.t.add_req(self.delta_t)
    }

    /// Advances by one step and returns the new time and state. The step
    /// and the system stay as they are, and there is always a next sample.
    pub fn next(&mut self) -> (sample: Option<(S::Time, S::State)>)
        requires
            old(self).can_advance(),
        ensures
            final(self).t == old(self).next_time(),
            final(self).state == old(self).next_state(),
            final(self).delta_t == old(self).delta_t,
            final(self).system == old(self).system,
            sample == Some((final(self).t, final(self).state)),
    {
        let half = S::Time::from(1u8) / S::Time::from(2u8);
        let sixth = S::Time::from(1u8) / S::Time::from(6u8);
        let third = S::Time::from(2u8) / S::Time::from(6u8);

        let df1 = self.system.diff(&self.state);
        let df2 = self.system.diff(&(self.state + df1 * (half * self.delta_t)));
        let df3 = self.system.diff(&(self.state + df2 * (half * self.delta_t)));
        let df4 = self.system.diff(&(self.state + df3 * self.delta_t));

        let df = df1 * sixth + df2 * third + df3 * third + df4 * sixth;
        self.state = self.state + df * self.delta_t;
        self.t = self.t + self.delta_t;

        Some((self.t, self.state))
    }
}

/// The time reached from `t0` by adding the step `delta_t` to it `n` times.
pub open spec fn time_after<R: Add<Output = R>>(t0: R, delta_t: R, n: nat) -> R
    decreases n,
{
    if n == 0 {
        t0
    } else {
        time_after(t0, delta_t, (n - 1) as nat).add_spec(delta_t)
    }
}

/// A stepper that has advanced `n` times from `t0` reports, after one more
/// advance, the time of `n + 1` steps from `t0`.
pub proof fn advance_counts_one_step<S: ODE>(stepper: RK4<S>, t0: S::Time, n: nat)
    requires
        stepper.t == time_after(t0, stepper.delta_t, n),
    ensures
        stepper.next_time() == time_after(t0, stepper.delta_t, n + 1),
{
    assert(time_after(t0, stepper.delta_t, n + 1) == time_after(
        t0,
        stepper.delta_t,
        ((n + 1) - 1) as nat,
    ).add_spec(stepper.delta_t));
}

/// Where time is counted in integers and every time up to the `n`-th is in
/// range, each of the `n` additions is permitted and the time after `n`
/// steps is exactly `t0 + n * delta_t`.
pub proof fn time_after_is_linear<R: IntegerScalar>(t0: R, delta_t: R, n: nat)
    requires
        forall|k: nat| k <= n ==> R::representable(#[trigger] (t0.value() + k * delta_t.value())),
    ensures
        time_after(t0, delta_t, n).value() == t0.value() + n * delta_t.value(),
        forall|k: nat| k < n ==> (#[trigger] time_after(t0, delta_t, k)).add_req(delta_t),
    decreases n,
{
    if n > 0 {
        let m = (n - 1) as nat;
        assert forall|k: nat| k <= m implies R::representable(
            #[trigger] (t0.value() + k * delta_t.value()),
        ) by {
            assert(k <= n);
        }
        time_after_is_linear(t0, delta_t, m);
        let before = time_after(t0, delta_t, m);
        R::arithmetic_is_integer(before, delta_t);
        assert(t0.value() + m * delta_t.value() + delta_t.value() == t0.value() + n
            * delta_t.value()) by (nonlinear_arith)
            requires
                m + 1 == n,
        ;
        assert(R::representable(t0.value() + n * delta_t.value()));
        assert forall|k: nat| k < n implies (#[trigger] time_after(t0, delta_t, k)).add_req(
            delta_t,
        ) by {
            if k == m {
                assert(before.add_req(delta_t));
            }
        }
    } else {
        assert(0 * delta_t.value() == 0) by (nonlinear_arith);
    }
}

} // verus!
