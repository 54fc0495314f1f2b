//! Frame-aware kinematics for point objects near a rotating, oblate planet.
//!
//! The crate holds the parts of such a simulation that are exact: the bounded
//! trajectory history, the generic fourth-order Runge-Kutta integrator, the
//! surface-contact state machine, the numeric text fields of the scene editor
//! with their fallback defaults, and the construction plans for the scene's
//! object groups (single bodies, cyclones, anticyclones, pendulums). The
//! floating-point evaluation of forces and coordinates is left to the caller,
//! which drives it through the generic interfaces defined here.

mod body;
mod flight;
mod history;
mod integrate;
mod launch;
mod numbers;
mod scene;

pub use body::Body;
pub use flight::FlightState;
pub use flight::SurfaceSnap;
pub use flight::flight_transition;
pub use flight::lemma_capture_permanent;
pub use flight::spec_flight_transition;
pub use history::History;
pub use history::MAX_PATH_LEN;
pub use integrate::OdeState;
pub use integrate::rk4_next;
pub use integrate::rk4_step;
pub use launch::Azimuth;
pub use launch::ForcePlan;
pub use launch::GeoPosition;
pub use launch::Launch;
pub use launch::LaunchPosition;
pub use launch::LaunchVelocity;
pub use launch::TurnFraction;
pub use launch::anticyclone;
pub use launch::anticyclone_launch;
pub use launch::cyclone;
pub use launch::cyclone_launch;
pub use numbers::Decimal;
pub use numbers::count_or_zero;
pub use numbers::decimal_or_zero;
pub use numbers::kilo;
pub use numbers::parse_count;
pub use numbers::parse_count_or_zero;
pub use numbers::parse_decimal;
pub use numbers::parse_decimal_or_zero;
pub use numbers::spec_kilo;
pub use numbers::text_bytes;
pub use scene::FollowingState;
pub use scene::InitialStateDefinition;
pub use scene::ObjectDescription;
pub use scene::ObjectKind;
pub use scene::ObjectKindTag;
pub use scene::StateTag;
pub use scene::foucault_launch;
pub use scene::free_launch;
pub use scene::spec_cyclone_attraction;
pub use scene::spec_pendulum_coeff;
