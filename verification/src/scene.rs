//! Scene descriptions: the editable object definitions behind the scene.
//!
//! A scene is edited as a list of object descriptions whose numeric
//! parameters are text fields; a description denotes one object, or a whole
//! group (a cyclone's or anticyclone's particles). This module turns a
//! description into its exact launch plans — parsing every field with the
//! zero fallback — and carries the camera-mode tags of the running scene.

use vstd::prelude::*;
use crate::launch::Azimuth;
use crate::launch::ForcePlan;
use crate::launch::GeoPosition;
use crate::launch::Launch;
use crate::launch::LaunchPosition;
use crate::launch::LaunchVelocity;
use crate::launch::anticyclone;
use crate::launch::anticyclone_launch;
use crate::launch::cyclone;
use crate::launch::cyclone_launch;
use crate::numbers::Decimal;
use crate::numbers::count_or_zero;
use crate::numbers::decimal_or_zero;
use crate::numbers::parse_count_or_zero;
use crate::numbers::parse_decimal_or_zero;
use crate::numbers::spec_kilo;
use crate::numbers::kilo;
use crate::numbers::text_bytes;

verus! {

/// The kind of object a description stands for.
#[derive(Debug, Clone, PartialEq, Eq, Structural)]
pub enum ObjectKindTag {
    Free,
    Cyclone,
    Anticyclone,
    Foucault,
}

impl ObjectKindTag {
    /// The label the kind selector shows for this tag.
    pub fn label(&self) -> (r: String)
        ensures
            self is Free ==> r@ == "Free"@,
            self is Cyclone ==> r@ == "Cyclone"@,
            self is Anticyclone ==> r@ == "Anticyclone"@,
            self is Foucault ==> r@ == "Foucault Pendulum"@,
    {
        match self {
            ObjectKindTag::Free => "Free".to_owned(),
            ObjectKindTag::Cyclone => "Cyclone".to_owned(),
            ObjectKindTag::Anticyclone => "Anticyclone".to_owned(),
            ObjectKindTag::Foucault => "Foucault Pendulum".to_owned(),
        }
    }
}

/// The kind-specific parameters of an object description, as entered: text
/// fields holding numbers.
#[derive(Clone)]
pub enum ObjectKind {
    /// A single free object with an east/north/up initial velocity.
    Free { vel_n: String, vel_e: String, vel_u: String },
    /// `n_particles` objects on a circle of `radius` kilometers, each moving
    /// with `vel` meters per second against its azimuth.
    Cyclone { n_particles: String, radius: String, vel: String },
    /// `n_particles` objects at the point itself, each moving with `vel`
    /// meters per second along its own azimuth.
    Anticyclone { n_particles: String, vel: String },
    /// A pendulum launched with `vel` meters per second toward the azimuth
    /// `azim` (degrees).
    Foucault { vel: String, azim: String },
}

impl ObjectKind {
    /// The tag of this kind.
    pub open spec fn spec_tag(&self) -> ObjectKindTag {
        match self {
            ObjectKind::Free { .. } => ObjectKindTag::Free,
            ObjectKind::Cyclone { .. } => ObjectKindTag::Cyclone,
            ObjectKind::Anticyclone { .. } => ObjectKindTag::Anticyclone,
            ObjectKind::Foucault { .. } => ObjectKindTag::Foucault,
        }
    }

    /// A free object at rest.
    pub fn default_free() -> (k: Self)
        ensures
            (k matches ObjectKind::Free { vel_n, vel_e, vel_u } && vel_n@ == "0"@ && vel_e@
                == "0"@ && vel_u@ == "0"@),
    {
        ObjectKind::Free {
            vel_n: "0".to_owned(),
            vel_e: "0".to_owned(),
            vel_u: "0".to_owned(),
        }
    }

    /// A cyclone of eight particles, a thousand kilometers wide, at a hundred
    /// meters per second.
    pub fn default_cyclone() -> (k: Self)
        ensures
            (k matches ObjectKind::Cyclone { n_particles, radius, vel } && n_particles@ == "8"@
                && radius@ == "1000"@ && vel@ == "100"@),
    {
        ObjectKind::Cyclone {
            n_particles: "8".to_owned(),
            radius: "1000".to_owned(),
            vel: "100".to_owned(),
        }
    }

    /// An anticyclone of eight particles at a hundred meters per second.
    pub fn default_anticyclone() -> (k: Self)
        ensures
            (k matches ObjectKind::Anticyclone { n_particles, vel } && n_particles@ == "8"@
                && vel@ == "100"@),
    {
        ObjectKind::Anticyclone { n_particles: "8".to_owned(), vel: "100".to_owned() }
    }

    /// A pendulum launched northward at two thousand meters per second.
    pub fn default_foucault() -> (k: Self)
        ensures
            (k matches ObjectKind::Foucault { vel, azim } && vel@ == "2000"@ && azim@ == "0"@),
    {
        ObjectKind::Foucault { vel: "2000".to_owned(), azim: "0".to_owned() }
    }

    /// The tag of this kind.
    pub fn as_tag(&self) -> (t: ObjectKindTag)
        ensures
            t == self.spec_tag(),
    {
        match self {
            ObjectKind::Free { .. } => ObjectKindTag::Free,
            ObjectKind::Cyclone { .. } => ObjectKindTag::Cyclone,
            ObjectKind::Anticyclone { .. } => ObjectKindTag::Anticyclone,
            ObjectKind::Foucault { .. } => ObjectKindTag::Foucault,
        }
    }
}

/// Strength of the restoring force that anchors a pendulum to its launch
/// point, per second squared.
pub open spec fn spec_pendulum_coeff() -> Decimal {
    Decimal { negative: false, mantissa: 2, exponent: -6i32 }
}

/// Strength of the center-seeking force given to cyclone particles.
pub open spec fn spec_cyclone_attraction() -> Decimal {
    Decimal { negative: false, mantissa: 2, exponent: 4 }
}

/// The launch a free-object description denotes: the point itself, an
/// east/north/up velocity read from the text fields, no force.
pub open spec fn free_launch(
    geo: GeoPosition,
    vel_e: Seq<char>,
    vel_n: Seq<char>,
    vel_u: Seq<char>,
) -> Launch {
    Launch {
        position: LaunchPosition::At(geo),
        velocity: LaunchVelocity::EastNorthUp {
            east: decimal_or_zero(text_bytes(vel_e)),
            north: decimal_or_zero(text_bytes(vel_n)),
            up: decimal_or_zero(text_bytes(vel_u)),
        },
        force: ForcePlan::NoForce,
    }
}

/// The launch a pendulum description denotes: the point itself, the speed
/// read from `vel` toward the azimuth read from `azim` (degrees), and the
/// restoring force anchored at the launch point.
pub open spec fn foucault_launch(geo: GeoPosition, vel: Seq<char>, azim: Seq<char>) -> Launch {
    Launch {
        position: LaunchPosition::At(geo),
        velocity: LaunchVelocity::Azimuthal {
            azimuth: Azimuth::Degrees(decimal_or_zero(text_bytes(azim))),
            speed: decimal_or_zero(text_bytes(vel)),
            reversed: false,
            up: Decimal::spec_zero(),
        },
        force: ForcePlan::Pendulum { coeff: spec_pendulum_coeff() },
    }
}

/// One editable object description: a geodetic launch point and the
/// kind-specific parameters, all as entered.
#[derive(Clone)]
pub struct ObjectDescription {
    pub lat: String,
    pub lon: String,
    pub elev: String,
    pub kind: ObjectKind,
}

impl Default for ObjectDescription {
    /// A free object at rest at latitude 0, longitude 0, elevation 0.
    fn default() -> (d: Self)
        ensures
            d.lat@ == "0"@,
            d.lon@ == "0"@,
            d.elev@ == "0"@,
            (d.kind matches ObjectKind::Free { vel_n, vel_e, vel_u } && vel_n@ == "0"@ && vel_e@
                == "0"@ && vel_u@ == "0"@),
    {
        ObjectDescription {
            lat: "0".to_owned(),
            lon: "0".to_owned(),
            elev: "0".to_owned(),
            kind: ObjectKind::default_free(),
        }
    }
}

impl ObjectDescription {
    /// The geodetic launch point the three position fields denote, with the
    /// zero fallback for unparsable fields.
    pub open spec fn spec_geo(&self) -> GeoPosition {
        GeoPosition {
            lat: decimal_or_zero(text_bytes(self.lat@)),
            lon: decimal_or_zero(text_bytes(self.lon@)),
            elev: decimal_or_zero(text_bytes(self.elev@)),
        }
    }

    /// The geodetic launch point the three position fields denote.
    pub fn geo(&self) -> (g: GeoPosition)
        ensures
            g == self.spec_geo(),
    {
        GeoPosition {
            lat: parse_decimal_or_zero(self.lat.as_str()),
            lon: parse_decimal_or_zero(self.lon.as_str()),
            elev: parse_decimal_or_zero(self.elev.as_str()),
        }
    }

    /// The launch plans this description denotes: one object for the free
    /// and pendulum kinds, a whole evenly spaced group for the cyclone and
    /// anticyclone kinds, with every numeric field read under the zero
    /// fallback and the cyclone radius read as kilometers.
    pub fn launches(&self) -> (r: Vec<Launch>)
        ensures
            self.kind matches ObjectKind::Free { vel_n, vel_e, vel_u } ==> r@.len() == 1 && r@[0]
                == free_launch(self.spec_geo(), vel_e@, vel_n@, vel_u@),
            self.kind matches ObjectKind::Foucault { vel, azim } ==> r@.len() == 1 && r@[0]
                == foucault_launch(self.spec_geo(), vel@, azim@),
            self.kind matches ObjectKind::Cyclone { n_particles, radius, vel } ==> {
                let count = count_or_zero(text_bytes(n_particles@));
                r@.len() == count && forall|i: int|
                    0 <= i < count ==> r@[i] == cyclone_launch(
                        self.spec_geo(),
                        spec_kilo(decimal_or_zero(text_bytes(radius@))),
                        spec_cyclone_attraction(),
                        decimal_or_zero(text_bytes(vel@)),
                        Decimal::spec_zero(),
                        count,
                        i,
                    )
            },
            self.kind matches ObjectKind::Anticyclone { n_particles, vel } ==> {
                let count = count_or_zero(text_bytes(n_particles@));
                r@.len() == count && forall|i: int|
                    0 <= i < count ==> r@[i] == anticyclone_launch(
                        self.spec_geo(),
                        decimal_or_zero(text_bytes(vel@)),
                        Decimal::spec_zero(),
                        count,
                        i,
                    )
            },
    {
        let geo = self.geo();
        match &self.kind {
            ObjectKind::Free { vel_n, vel_e, vel_u } => {
                let east = parse_decimal_or_zero(vel_e.as_str());
                let north = parse_decimal_or_zero(vel_n.as_str());
                let up = parse_decimal_or_zero(vel_u.as_str());
                let mut r: Vec<Launch> = Vec::new();
                r.push(
                    Launch {
                        position: LaunchPosition::At(geo),
                        velocity: LaunchVelocity::EastNorthUp { east, north, up },
                        force: ForcePlan::NoForce,
                    },
                );
                r
            },
            ObjectKind::Cyclone { n_particles, radius, vel } => {
                let count = parse_count_or_zero(n_particles.as_str());
                let radius_km = parse_decimal_or_zero(radius.as_str());
                let radius_m = kilo(radius_km);
                let vel = parse_decimal_or_zero(vel.as_str());
                let attraction = Decimal { negative: false, mantissa: 2, exponent: 4 };
                cyclone(geo, radius_m, attraction, vel, Decimal::zero(), count)
            },
            ObjectKind::Anticyclone { n_particles, vel } => {
                let count = parse_count_or_zero(n_particles.as_str());
                let vel = parse_decimal_or_zero(vel.as_str());
                anticyclone(geo, vel, Decimal::zero(), count)
            },
            ObjectKind::Foucault { vel, azim } => {
                let speed = parse_decimal_or_zero(vel.as_str());
                let azimuth = parse_decimal_or_zero(azim.as_str());
                let mut r: Vec<Launch> = Vec::new();
                r.push(
                    Launch {
                        position: LaunchPosition::At(geo),
                        velocity: LaunchVelocity::Azimuthal {
                            azimuth: Azimuth::Degrees(azimuth),
                            speed,
                            reversed: false,
                            up: Decimal::zero(),
                        },
                        force: ForcePlan::Pendulum {
                            coeff: Decimal { negative: false, mantissa: 2, exponent: -6 },
                        },
                    },
                );
                r
            },
        }
    }
}

/// The whole editable scene definition: the kind selected for the next
/// object to add, and the object descriptions.
#[derive(Clone)]
pub struct InitialStateDefinition {
    pub selected_kind: ObjectKindTag,
    pub objects: Vec<ObjectDescription>,
}

impl Default for InitialStateDefinition {
    /// An empty scene with the free kind selected.
    fn default() -> (d: Self)
        ensures
            d.selected_kind is Free,
            d.objects@ == Seq::<ObjectDescription>::empty(),
    {
        InitialStateDefinition { selected_kind: ObjectKindTag::Free, objects: Vec::new() }
    }
}

/// Which object the camera follows.
#[derive(Debug, Clone, Copy)]
pub struct FollowingState {
    pub obj: usize,
}

/// Whether the camera stands outside the scene or follows an object.
#[derive(Debug, Clone, Copy, PartialEq, Eq, Structural)]
pub enum StateTag {
    External,
    Following,
}

} // verus!
