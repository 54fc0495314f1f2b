//! Generic fixed-step fourth-order Runge-Kutta integration.
//!
//! The integrator knows nothing about the planet or the force model: it works
//! on any state type that can produce a derivative of itself and shift itself
//! by a derivative scaled with a rational fraction of the step. The state,
//! derivative and step types are the implementor's own; the integrator only
//! fixes the staging and the classical (1, 2, 2, 1)/6 weights, and its
//! contract pins the result to exactly that composition of the implementor's
//! operations.

use vstd::prelude::*;

verus! {

/// A state of an ordinary differential equation, as the integrator sees it:
/// it yields a derivative, and it can be shifted by a derivative scaled with
/// `num / den` of a step. Implementors describe both operations with the two
/// specification functions, which the executable methods must match.
pub trait OdeState: Sized {
    /// The derivative values produced for this state type.
    type Deriv;

    /// The step-size values this state type is integrated over.
    type Time;

    /// What `deriv` returns. An implementor that leaves the default in place
    /// states nothing usable about its derivative.
    open spec fn spec_deriv(&self) -> Self::Deriv {
        vstd::pervasive::arbitrary()
    }

    /// What `shifted` returns. An implementor that leaves the default in
    /// place states nothing usable about its shift.
    open spec fn spec_shifted(&self, dir: Self::Deriv, dt: Self::Time, num: u64, den: u64) -> Self {
        vstd::pervasive::arbitrary()
    }

    /// The derivative of the state.
    fn deriv(&self) -> (d: Self::Deriv)
        ensures
            d == self.spec_deriv(),
    ;

    /// This state shifted by `dir` scaled with `num / den` of the step `dt`.
    fn shifted(&self, dir: &Self::Deriv, dt: &Self::Time, num: u64, den: u64) -> (r: Self)
        ensures
            r == self.spec_shifted(*dir, *dt, num, den),
    ;
}

/// One fourth-order Runge-Kutta step from `s` over `dt`, written with the
/// implementor's own specification-level operations: derivatives are taken at
/// the start, at two half-step trial states and at a full-step trial state,
/// and the result shifts the original state by the four derivatives with
/// weights 1/6, 1/3, 1/3 and 1/6.
pub open spec fn rk4_next<S: OdeState>(s: S, dt: S::Time) -> S {
    let k1 = s.spec_deriv();
    let k2 = s.spec_shifted(k1, dt, 1, 2).spec_deriv();
    let k3 = s.spec_shifted(k2, dt, 1, 2).spec_deriv();
    let k4 = s.spec_shifted(k3, dt, 1, 1).spec_deriv();
    s.spec_shifted(k1, dt, 1, 6).spec_shifted(k2, dt, 1, 3).spec_shifted(k3, dt, 1, 3).spec_shifted(
        k4,
        dt,
        1,
        6,
    )
}

/// One fourth-order Runge-Kutta step from `s` over the step `dt`.
pub fn rk4_step<S: OdeState>(s: &S, dt: &S::Time) -> (r: S)
    ensures
        r == rk4_next(*s, *dt),
{
    let k1 = s.deriv();
    let trial_half = s.shifted(&k1, dt, 1, 2);
    let k2 = trial_half.deriv();
    let trial_half_again = s.shifted(&k2, dt, 1, 2);
    let k3 = trial_half_again.deriv();
    let trial_full = s.shifted(&k3, dt, 1, 1);
    let k4 = trial_full.deriv();
    let r = s.shifted(&k1, dt, 1, 6);
    let r = r.shifted(&k2, dt, 1, 3);
    let r = r.shifted(&k3, dt, 1, 3);
    r.shifted(&k4, dt, 1, 6)
}

} // verus!
