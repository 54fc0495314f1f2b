//! The surface-contact state machine.
//!
//! An object is either in free flight or constrained to move along a surface
//! at a fixed altitude above the reference ellipsoid. After every integration
//! step the caller measures, in the planet's own rotating frame, whether the
//! object's radial distance has fallen below the local surface radius, and
//! reports the outcome here; the machine decides the next flight state and
//! whether the object must be snapped back onto its constraint surface.
//! Ground contact is permanently capturing: there is no transition back from
//! constrained motion to free flight.

use vstd::prelude::*;

verus! {

/// The flight state of a simulated object: ballistic free flight, or motion
/// constrained to a surface offset from the reference ellipsoid by the given
/// altitude.
#[derive(Debug, Clone, Copy)]
pub enum FlightState<A> {
    FreeFlight,
    ConstantAltitude(A),
}

/// What the caller must do to the object's position and velocity after a
/// surface check: nothing, or snap the object onto the surface at the given
/// altitude and cancel any inward normal velocity.
#[derive(Debug, Clone, Copy)]
pub enum SurfaceSnap<A> {
    NoSnap,
    SnapTo(A),
}

/// The surface-contact transition. A free-flying object that has sunk below
/// the surface is captured at ground altitude; a constrained object is
/// re-snapped to its own altitude on every step; a free-flying object above
/// the surface is left alone.
pub open spec fn spec_flight_transition<A>(
    state: FlightState<A>,
    below_surface: bool,
    ground: A,
) -> (FlightState<A>, SurfaceSnap<A>) {
    match state {
        FlightState::FreeFlight => if below_surface {
            (FlightState::ConstantAltitude(ground), SurfaceSnap::SnapTo(ground))
        } else {
            (FlightState::FreeFlight, SurfaceSnap::NoSnap)
        },
        FlightState::ConstantAltitude(alt) => (
            FlightState::ConstantAltitude(alt),
            SurfaceSnap::SnapTo(alt),
        ),
    }
}

/// Decide the flight state after one surface check. `below_surface` says
/// whether the object's radius has fallen below the local surface radius, and
/// `ground` is the altitude of the surface itself, in whatever scalar type
/// the caller measures altitudes.
pub fn flight_transition<A: Copy>(
    state: &FlightState<A>,
    below_surface: bool,
    ground: A,
) -> (r: (FlightState<A>, SurfaceSnap<A>))
    ensures
        r == spec_flight_transition(*state, below_surface, ground),
{
    match state {
        FlightState::FreeFlight => if below_surface {
            (FlightState::ConstantAltitude(ground), SurfaceSnap::SnapTo(ground))
        } else {
            (FlightState::FreeFlight, SurfaceSnap::NoSnap)
        },
        FlightState::ConstantAltitude(alt) => (
            FlightState::ConstantAltitude(*alt),
            SurfaceSnap::SnapTo(*alt),
        ),
    }
}

/// Ground contact is capturing. The surface check leaves an object in free
/// flight exactly when it was in free flight and still above the surface; in
/// particular an object in constrained motion never returns to free flight,
/// and keeps its altitude unchanged.
pub proof fn lemma_capture_permanent<A>(state: FlightState<A>, below_surface: bool, ground: A)
    ensures
        spec_flight_transition(state, below_surface, ground).0 is FreeFlight <==> (state
            is FreeFlight && !below_surface),
        state matches FlightState::ConstantAltitude(alt) ==> spec_flight_transition(
            state,
            below_surface,
            ground,
        ) == (FlightState::ConstantAltitude(alt), SurfaceSnap::SnapTo(alt)),
{
}

} // verus!
