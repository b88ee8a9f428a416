use rk4::complex::Complex;
use rk4::stepper::ODE;
use rk4::stepper::RK4;
use std::time::Duration;

/// Rotation in the complex plane: the derivative of `z` is `z * i`.
struct SimpleDGL {}

impl ODE for SimpleDGL {
    type Time = f64;
    type State = Complex<f64>;

    fn diff(&self, state: &Complex<f64>) -> Complex<f64> {
        *state * Complex::new(0.0, 1.0)
    }

    fn diff_spec(&self, state: &Complex<f64>) -> Complex<f64> {
        self.diff(state)
    }
}

/// Exponential growth of a real state: the derivative of `y` is `y`.
struct Growth {}

impl ODE for Growth {
    type Time = f64;
    type State = f64;

    fn diff(&self, state: &f64) -> f64 {
        *state
    }

    fn diff_spec(&self, state: &f64) -> f64 {
        self.diff(state)
    }
}

/// A constant slope.
struct Ramp {
    slope: f64,
}

impl ODE for Ramp {
    type Time = f64;
    type State = f64;

    fn diff(&self, _state: &f64) -> f64 {
        self.slope
    }

    fn diff_spec(&self, state: &f64) -> f64 {
        self.diff(state)
    }
}

/// A system over whole numbers, where every weight of the method is zero.
struct Swap {}

impl ODE for Swap {
    type Time = u64;
    type State = Complex<u64>;

    fn diff(&self, state: &Complex<u64>) -> Complex<u64> {
        Complex::new(state.imag, state.real)
    }

    fn diff_spec(&self, state: &Complex<u64>) -> Complex<u64> {
        self.diff(state)
    }
}

fn rotation(delta_t: f64) -> RK4<SimpleDGL> {
    RK4 { t: 0.0, delta_t, system: SimpleDGL {}, state: Complex::new(1.0, 0.0) }
}

#[test]
fn name() {
    assert!(Duration::from_millis(1).checked_sub(Duration::from_millis(2)).is_none());
}

#[test]
fn one_step_of_the_rotation() {
    let mut rk = rotation(0.01);
    let (t, z) = rk.next().unwrap();
    assert!((t - 0.01).abs() < 1e-15);
    assert!((z.real - 0.99995).abs() < 1e-8);
    assert!((z.imag - 0.01).abs() < 1e-6);
    assert!((z.abs() - 1.0).abs() < 1e-4);
}

#[test]
fn one_step_matches_the_fourth_order_expansion() {
    let h = 0.01f64;
    let mut rk = rotation(h);
    let (_, z) = rk.next().unwrap();
    let re = 1.0 - h * h / 2.0 + h * h * h * h / 24.0;
    let im = h - h * h * h / 6.0;
    assert!((z.real - re).abs() < 1e-14);
    assert!((z.imag - im).abs() < 1e-14);
}

#[test]
fn the_sample_is_the_new_time_and_state() {
    let mut rk = rotation(0.01);
    let (t, z) = rk.next().unwrap();
    assert_eq!(t, rk.t);
    assert_eq!(z.real, rk.state.real);
    assert_eq!(z.imag, rk.state.imag);
    assert_eq!(rk.delta_t, 0.01);
}

#[test]
fn rotation_stays_on_the_unit_circle() {
    let mut rk = rotation(0.01);
    for _ in 0..10000 {
        let (_, z) = rk.next().unwrap();
        assert!((z.abs() - 1.0).abs() < 1e-9);
    }
}

#[test]
fn rotation_follows_the_exact_solution() {
    let mut rk = rotation(0.01);
    for _ in 0..1000 {
        let (t, z) = rk.next().unwrap();
        assert!((z.real - t.cos()).abs() < 1e-9);
        assert!((z.imag - t.sin()).abs() < 1e-9);
    }
}

#[test]
fn time_grows_by_one_step_per_advance() {
    let mut rk = RK4 { t: 2.5, delta_t: 0.01, system: SimpleDGL {}, state: Complex::new(1.0, 0.0) };
    let mut last = 2.5f64;
    for n in 1..=500u32 {
        let (t, _) = rk.next().unwrap();
        assert!(t > last);
        assert!((t - (2.5 + f64::from(n) * 0.01)).abs() < 1e-9);
        last = t;
    }
}

#[test]
fn time_in_whole_numbers_is_exact() {
    let mut rk = RK4 { t: 10u64, delta_t: 6u64, system: Swap {}, state: Complex::new(6u64, 0u64) };
    for n in 1..=20u64 {
        let (t, z) = rk.next().unwrap();
        assert_eq!(t, 10 + n * 6);
        assert_eq!((z.real, z.imag), (6, 0));
    }
}

#[test]
fn one_step_of_growth() {
    let mut rk = RK4 { t: 0.0, delta_t: 1.0, system: Growth {}, state: 1.0 };
    let (t, y) = rk.next().unwrap();
    assert_eq!(t, 1.0);
    // k1 = 1, k2 = 1.5, k3 = 1.75, k4 = 2.75; (1 + 3 + 3.5 + 2.75) / 6 = 41/24
    assert!((y - (1.0 + 41.0 / 24.0)).abs() < 1e-14);
}

#[test]
fn constant_slope_is_integrated_exactly() {
    let mut rk = RK4 { t: 0.0, delta_t: 0.5, system: Ramp { slope: 6.0 }, state: 1.0 };
    let (t, y) = rk.next().unwrap();
    assert_eq!(t, 0.5);
    assert!((y - 4.0).abs() < 1e-14);
    let (t, y) = rk.next().unwrap();
    assert_eq!(t, 1.0);
    assert!((y - 7.0).abs() < 1e-14);
}

#[test]
fn every_advance_yields_a_sample() {
    let mut rk = rotation(0.25);
    for _ in 0..100 {
        assert!(rk.next().is_some());
    }
}
