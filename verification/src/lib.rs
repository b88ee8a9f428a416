//! Complex numbers over a generic scalar, and a fixed-step classical
//! Runge-Kutta integrator for ordinary differential equations.

pub mod scalar;
pub mod complex;
pub mod algebra;
pub mod stepper;
