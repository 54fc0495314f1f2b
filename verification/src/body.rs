//! A simulated body: its current state, its bounded trajectory history and
//! its flight state, tied to the integrator and the surface-contact machine.
//!
//! The state type `S` is the caller's own (position, velocity and time in
//! whatever scalar representation it evaluates forces in); this module fixes
//! what a step does with it: record the pre-step state on the bounded
//! history, replace the current state with one fourth-order Runge-Kutta step,
//! then run the surface check and apply its verdict.

use vstd::prelude::*;
use crate::flight::FlightState;
use crate::flight::SurfaceSnap;
use crate::flight::spec_flight_transition;
use crate::flight::flight_transition;
use crate::history::History;
use crate::integrate::OdeState;
use crate::integrate::rk4_next;
use crate::integrate::rk4_step;

verus! {

/// A simulated body, generic over the caller's state scalar types: `S` is the
/// full kinematic state handed to the integrator, `A` the scalar altitudes
/// are measured in.
#[derive(Clone)]
pub struct Body<S, A> {
    current: S,
    path: History<S>,
    flight: FlightState<A>,
    counteract_coriolis: bool,
}

impl<S, A> Body<S, A> {
    /// The current kinematic state.
    pub closed spec fn spec_current(&self) -> S {
        self.current
    }

    /// The trajectory history.
    pub closed spec fn spec_path(&self) -> History<S> {
        self.path
    }

    /// The flight state.
    pub closed spec fn spec_flight(&self) -> FlightState<A> {
        self.flight
    }

    /// Whether the force model is asked to cancel the horizontal part of the
    /// Coriolis acceleration.
    pub closed spec fn spec_counteract(&self) -> bool {
        self.counteract_coriolis
    }

    /// The trajectory history is well-formed.
    pub open spec fn wf(&self) -> bool {
        self.spec_path().wf()
    }
}

impl<S: Copy, A: Copy> Body<S, A> {
    /// A body in free flight at the given initial state, with an empty
    /// trajectory history.
    pub fn new(initial: S) -> (b: Self)
        ensures
            b.wf(),
            b.spec_current() == initial,
            b.spec_path().log() == Seq::<S>::empty(),
            b.spec_flight() is FreeFlight,
            !b.spec_counteract(),
    {
        Body {
            current: initial,
            path: History::new(),
            flight: FlightState::FreeFlight,
            counteract_coriolis: false,
        }
    }

    /// The same body, constrained to the given constant altitude from the
    /// start.
    pub fn with_const_alt(self, alt: A) -> (b: Self)
        ensures
            b.spec_flight() == FlightState::ConstantAltitude(alt),
            b.spec_current() == self.spec_current(),
            b.spec_path() == self.spec_path(),
            b.spec_counteract() == self.spec_counteract(),
    {
        Body { flight: FlightState::ConstantAltitude(alt), ..self }
    }

    /// The same body, with the Coriolis counteraction flag set as given.
    pub fn counteract_coriolis(self, counteract_coriolis: bool) -> (b: Self)
        ensures
            b.spec_counteract() == counteract_coriolis,
            b.spec_current() == self.spec_current(),
            b.spec_path() == self.spec_path(),
            b.spec_flight() == self.spec_flight(),
    {
        Body { counteract_coriolis, ..self }
    }

    /// The current kinematic state.
    pub fn current(&self) -> (r: &S)
        ensures
            *r == self.spec_current(),
    {
        &self.current
    }

    /// The flight state.
    pub fn flight(&self) -> (r: FlightState<A>)
        ensures
            r == self.spec_flight(),
    {
        self.flight
    }

    /// Whether the Coriolis counteraction is active.
    pub fn counteracts(&self) -> (r: bool)
        ensures
            r == self.spec_counteract(),
    {
        self.counteract_coriolis
    }

    /// Number of recorded past states.
    pub fn path_len(&self) -> (n: usize)
        ensures
            n == self.spec_path()@.len(),
    {
        self.path.len()
    }

    /// The `i`-th recorded past state, oldest first.
    pub fn path_at(&self, i: usize) -> (r: &S)
        requires
            i < self.spec_path()@.len(),
        ensures
            *r == self.spec_path()@[i as int],
    {
        self.path.get(i)
    }

    /// Replace the current state with a corrected one. The surface snap
    /// demanded by `surface_check` is computed by the caller in its own
    /// scalar representation and written back through here.
    pub fn correct_current(&mut self, s: S)
        ensures
            final(self).spec_current() == s,
            final(self).spec_path() == old(self).spec_path(),
            final(self).spec_flight() == old(self).spec_flight(),
            final(self).spec_counteract() == old(self).spec_counteract(),
    {
        self.current = s;
    }

    /// Run the surface check: feed the caller's measurement of whether the
    /// body has sunk below the surface to the surface-contact machine, adopt
    /// the flight state it decides, and hand back the snap it demands.
    pub fn surface_check(&mut self, below_surface: bool, ground: A) -> (snap: SurfaceSnap<A>)
        ensures
            final(self).spec_flight() == spec_flight_transition(
                old(self).spec_flight(),
                below_surface,
                ground,
            ).0,
            snap == spec_flight_transition(old(self).spec_flight(), below_surface, ground).1,
            final(self).spec_current() == old(self).spec_current(),
            final(self).spec_path() == old(self).spec_path(),
            final(self).spec_counteract() == old(self).spec_counteract(),
    {
        let (next, snap) = flight_transition(&self.flight, below_surface, ground);
        self.flight = next;
        snap
    }
}

impl<S: OdeState + Copy, A: Copy> Body<S, A> {
    /// The dynamic part of one simulation step: push the pre-step state onto
    /// the bounded history, then replace the current state with one
    /// fourth-order Runge-Kutta step over `dt`. The surface check follows
    /// separately, once the caller has measured the new radius.
    pub fn step_dynamics(&mut self, dt: &S::Time)
        requires
            old(self).wf(),
        ensures
            final(self).wf(),
            final(self).spec_path().log() == old(self).spec_path().log().push(
                old(self).spec_current(),
            ),
            final(self).spec_current() == rk4_next(old(self).spec_current(), *dt),
            final(self).spec_flight() == old(self).spec_flight(),
            final(self).spec_counteract() == old(self).spec_counteract(),
    {
        self.path.push(self.current);
        let next = rk4_step(&self.current, dt);
        self.current = next;
    }
}

} // verus!
