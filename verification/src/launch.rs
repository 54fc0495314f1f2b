//! Launch plans: what the scene editor's descriptions denote.
//!
//! A launch plan fixes, in exact values, where an object starts, with what
//! initial velocity, and what attraction force it carries. Group constructors
//! build the plans of a cyclone (particles on a circle around a center, with
//! tangential velocities and a center-seeking force) and of an anticyclone
//! (particles at the center with outward velocities). Angles that arise from
//! spacing `n` particles evenly are kept as exact fractions of a full turn;
//! the caller evaluates them (and the great-circle offsets) in its own
//! floating-point arithmetic when it realizes a plan.

use vstd::prelude::*;
use crate::numbers::Decimal;

verus! {

/// A geodetic point: latitude and longitude in degrees, elevation in meters
/// above the reference ellipsoid.
#[derive(Clone, Copy, Debug, PartialEq, Eq, Structural)]
pub struct GeoPosition {
    pub lat: Decimal,
    pub lon: Decimal,
    pub elev: Decimal,
}

/// An exact fraction `index / count` of a full turn.
#[derive(Clone, Copy, Debug, PartialEq, Eq, Structural)]
pub struct TurnFraction {
    pub index: usize,
    pub count: usize,
}

/// An azimuth, measured from north toward east.
#[derive(Clone, Copy, Debug, PartialEq, Eq, Structural)]
pub enum Azimuth {
    /// An exact fraction of a full turn.
    Turns(TurnFraction),
    /// Degrees, as entered in a text field.
    Degrees(Decimal),
}

/// The initial velocity of a launched object, in meters per second.
#[derive(Clone, Copy, Debug, PartialEq, Eq, Structural)]
pub enum LaunchVelocity {
    /// Components along the local east, north and up directions.
    EastNorthUp { east: Decimal, north: Decimal, up: Decimal },
    /// `speed` along the azimuth direction (north turned by the azimuth
    /// toward east) — against it if `reversed` — plus an upward component.
    Azimuthal { azimuth: Azimuth, speed: Decimal, reversed: bool, up: Decimal },
}

/// Where a launched object starts.
#[derive(Clone, Copy, Debug, PartialEq, Eq, Structural)]
pub enum LaunchPosition {
    /// At the point itself.
    At(GeoPosition),
    /// Offset from `center` by the great-circle distance `distance` (meters)
    /// toward `azimuth`, at the center's elevation.
    Offset { center: GeoPosition, azimuth: Azimuth, distance: Decimal },
}

/// The attraction force a launched object carries.
#[derive(Clone, Copy, Debug, PartialEq, Eq, Structural)]
pub enum ForcePlan {
    NoForce,
    /// A restoring force `coeff * (anchor - pos)` whose anchor is the launch
    /// position itself.
    Pendulum { coeff: Decimal },
    /// An inverse-distance force of strength `coeff` seeking `center`.
    CenterSeeking { center: GeoPosition, coeff: Decimal },
}

/// One object to launch.
#[derive(Clone, Copy, Debug, PartialEq, Eq, Structural)]
pub struct Launch {
    pub position: LaunchPosition,
    pub velocity: LaunchVelocity,
    pub force: ForcePlan,
}

/// The `i`-th of the `count` particles of a cyclone around `center`: it
/// starts `radius` meters from the center at azimuth `i / count` of a turn,
/// moves with `vel` against that azimuth direction (plus `vel_up` upward),
/// and seeks the center with strength `attractor_coeff`.
pub open spec fn cyclone_launch(
    center: GeoPosition,
    radius: Decimal,
    attractor_coeff: Decimal,
    vel: Decimal,
    vel_up: Decimal,
    count: int,
    i: int,
) -> Launch {
    let azimuth = Azimuth::Turns(TurnFraction { index: i as usize, count: count as usize });
    Launch {
        position: LaunchPosition::Offset { center, azimuth, distance: radius },
        velocity: LaunchVelocity::Azimuthal { azimuth, speed: vel, reversed: true, up: vel_up },
        force: ForcePlan::CenterSeeking { center, coeff: attractor_coeff },
    }
}

/// The `i`-th of the `count` particles of an anticyclone at `center`: it
/// starts at the center itself and moves with `vel` along the azimuth
/// `i / count` of a turn (plus `vel_up` upward), with no attraction force.
pub open spec fn anticyclone_launch(
    center: GeoPosition,
    vel: Decimal,
    vel_up: Decimal,
    count: int,
    i: int,
) -> Launch {
    let azimuth = Azimuth::Turns(TurnFraction { index: i as usize, count: count as usize });
    Launch {
        position: LaunchPosition::At(center),
        velocity: LaunchVelocity::Azimuthal { azimuth, speed: vel, reversed: false, up: vel_up },
        force: ForcePlan::NoForce,
    }
}

/// Plan a cyclone: `num_objects` particles evenly spaced on the circle of
/// great-circle radius `radius` (meters) around `center`, each with
/// tangential speed `vel` against its azimuth, an upward component `vel_up`,
/// and a center-seeking force of strength `attractor_coeff`.
pub fn cyclone(
    center: GeoPosition,
    radius: Decimal,
    attractor_coeff: Decimal,
    vel: Decimal,
    vel_up: Decimal,
    num_objects: usize,
) -> (r: Vec<Launch>)
    ensures
        r@.len() == num_objects,
        forall|i: int|
            0 <= i < num_objects ==> r@[i] == cyclone_launch(
                center,
                radius,
                attractor_coeff,
                vel,
                vel_up,
                num_objects as int,
                i,
            ),
{
    let mut r: Vec<Launch> = Vec::new();
    let mut index: usize = 0;
    while index < num_objects
        invariant
            0 <= index <= num_objects,
            r@.len() == index,
            forall|i: int|
                0 <= i < index ==> r@[i] == cyclone_launch(
                    center,
                    radius,
                    attractor_coeff,
                    vel,
                    vel_up,
                    num_objects as int,
                    i,
                ),
        decreases num_objects - index,
    {
        let azimuth = Azimuth::Turns(TurnFraction { index, count: num_objects });
        r.push(
            Launch {
                position: LaunchPosition::Offset { center, azimuth, distance: radius },
                velocity: LaunchVelocity::Azimuthal {
                    azimuth,
                    speed: vel,
                    reversed: true,
                    up: vel_up,
                },
                force: ForcePlan::CenterSeeking { center, coeff: attractor_coeff },
            },
        );
        index += 1;
    }
    r
}

/// Plan an anticyclone: `num_objects` particles at `center`, each moving with
/// speed `vel` along its own azimuth — the azimuths evenly spaced over a full
/// turn — plus an upward component `vel_up`, with no attraction force.
pub fn anticyclone(
    center: GeoPosition,
    vel: Decimal,
    vel_up: Decimal,
    num_objects: usize,
) -> (r: Vec<Launch>)
    ensures
        r@.len() == num_objects,
        forall|i: int|
            0 <= i < num_objects ==> r@[i] == anticyclone_launch(
                center,
                vel,
                vel_up,
                num_objects as int,
                i,
            ),
{
    let mut r: Vec<Launch> = Vec::new();
    let mut index: usize = 0;
    while index < num_objects
        invariant
            0 <= index <= num_objects,
            r@.len() == index,
            forall|i: int|
                0 <= i < index ==> r@[i] == anticyclone_launch(
                    center,
                    vel,
                    vel_up,
                    num_objects as int,
                    i,
                ),
        decreases num_objects - index,
    {
        let azimuth = Azimuth::Turns(TurnFraction { index, count: num_objects });
        r.push(
            Launch {
                position: LaunchPosition::At(center),
                velocity: LaunchVelocity::Azimuthal {
                    azimuth,
                    speed: vel,
                    reversed: false,
                    up: vel_up,
                },
                force: ForcePlan::NoForce,
            },
        );
        index += 1;
    }
    r
}

} // verus!
