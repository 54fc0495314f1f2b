use coriolis::Azimuth;
use coriolis::Decimal;
use coriolis::FollowingState;
use coriolis::ForcePlan;
use coriolis::GeoPosition;
use coriolis::InitialStateDefinition;
use coriolis::LaunchPosition;
use coriolis::LaunchVelocity;
use coriolis::ObjectDescription;
use coriolis::ObjectKind;
use coriolis::ObjectKindTag;
use coriolis::StateTag;
use coriolis::TurnFraction;
use coriolis::anticyclone;
use coriolis::cyclone;

fn dec(negative: bool, mantissa: u64, exponent: i32) -> Decimal {
    Decimal { negative, mantissa, exponent }
}

fn zero() -> Decimal {
    dec(false, 0, 0)
}

fn origin() -> GeoPosition {
    GeoPosition { lat: zero(), lon: zero(), elev: zero() }
}

#[test]
fn the_default_kinds_carry_the_documented_fields() {
    match ObjectKind::default_free() {
        ObjectKind::Free { vel_n, vel_e, vel_u } => {
            assert_eq!(vel_n, "0");
            assert_eq!(vel_e, "0");
            assert_eq!(vel_u, "0");
        },
        _ => panic!("wrong kind"),
    }
    match ObjectKind::default_cyclone() {
        ObjectKind::Cyclone { n_particles, radius, vel } => {
            assert_eq!(n_particles, "8");
            assert_eq!(radius, "1000");
            assert_eq!(vel, "100");
        },
        _ => panic!("wrong kind"),
    }
    match ObjectKind::default_anticyclone() {
        ObjectKind::Anticyclone { n_particles, vel } => {
            assert_eq!(n_particles, "8");
            assert_eq!(vel, "100");
        },
        _ => panic!("wrong kind"),
    }
    match ObjectKind::default_foucault() {
        ObjectKind::Foucault { vel, azim } => {
            assert_eq!(vel, "2000");
            assert_eq!(azim, "0");
        },
        _ => panic!("wrong kind"),
    }
}

#[test]
fn as_tag_names_each_kind() {
    assert_eq!(ObjectKind::default_free().as_tag(), ObjectKindTag::Free);
    assert_eq!(ObjectKind::default_cyclone().as_tag(), ObjectKindTag::Cyclone);
    assert_eq!(
        ObjectKind::default_anticyclone().as_tag(),
        ObjectKindTag::Anticyclone
    );
    assert_eq!(ObjectKind::default_foucault().as_tag(), ObjectKindTag::Foucault);
}

#[test]
fn tags_have_labels() {
    assert_eq!(ObjectKindTag::Free.label(), "Free");
    assert_eq!(ObjectKindTag::Cyclone.label(), "Cyclone");
    assert_eq!(ObjectKindTag::Anticyclone.label(), "Anticyclone");
    assert_eq!(ObjectKindTag::Foucault.label(), "Foucault Pendulum");
}

#[test]
fn the_default_description_launches_one_resting_object() {
    let d = ObjectDescription::default();
    let launches = d.launches();
    assert_eq!(launches.len(), 1);
    let launch = &launches[0];
    assert!(matches!(launch.position, LaunchPosition::At(g) if g == origin()));
    assert!(matches!(
        launch.velocity,
        LaunchVelocity::EastNorthUp { east, north, up }
            if east == zero() && north == zero() && up == zero()
    ));
    assert!(matches!(launch.force, ForcePlan::NoForce));
}

#[test]
fn the_geodetic_fields_parse_with_zero_fallbacks() {
    let mut d = ObjectDescription::default();
    d.lat = "45.5".to_string();
    d.lon = "-120".to_string();
    d.elev = "not a number".to_string();
    let launches = d.launches();
    let expected = GeoPosition { lat: dec(false, 455, -1), lon: dec(true, 120, 0), elev: zero() };
    assert!(matches!(launches[0].position, LaunchPosition::At(g) if g == expected));
}

#[test]
fn a_cyclone_launches_evenly_spaced_inward_spinning_particles() {
    let d = ObjectDescription {
        lat: "0".to_string(),
        lon: "0".to_string(),
        elev: "0".to_string(),
        kind: ObjectKind::Cyclone {
            n_particles: "8".to_string(),
            radius: "1000".to_string(),
            vel: "100".to_string(),
        },
    };
    let launches = d.launches();
    assert_eq!(launches.len(), 8);
    for (i, launch) in launches.iter().enumerate() {
        // each particle sits 1000 km from the center, at azimuth i/8 of a
        // full turn: 45 degree increments
        match launch.position {
            LaunchPosition::Offset { center, azimuth, distance } => {
                assert_eq!(center, origin());
                assert_eq!(azimuth, Azimuth::Turns(TurnFraction { index: i, count: 8 }));
                assert_eq!(distance, dec(false, 1000, 3));
            },
            _ => panic!("cyclone particles start offset from the center"),
        }
        match launch.velocity {
            LaunchVelocity::Azimuthal { azimuth, speed, reversed, up } => {
                assert_eq!(azimuth, Azimuth::Turns(TurnFraction { index: i, count: 8 }));
                assert_eq!(speed, dec(false, 100, 0));
                assert!(reversed);
                assert_eq!(up, zero());
            },
            _ => panic!("cyclone particles move tangentially"),
        }
        match launch.force {
            ForcePlan::CenterSeeking { center, coeff } => {
                assert_eq!(center, origin());
                assert_eq!(coeff, dec(false, 2, 4));
            },
            _ => panic!("cyclone particles seek the center"),
        }
    }
}

#[test]
fn an_anticyclone_launches_outward_moving_particles_at_the_center() {
    let d = ObjectDescription {
        lat: "10".to_string(),
        lon: "20".to_string(),
        elev: "0".to_string(),
        kind: ObjectKind::Anticyclone { n_particles: "4".to_string(), vel: "100".to_string() },
    };
    let launches = d.launches();
    assert_eq!(launches.len(), 4);
    let center = GeoPosition { lat: dec(false, 10, 0), lon: dec(false, 20, 0), elev: zero() };
    for (i, launch) in launches.iter().enumerate() {
        assert!(matches!(launch.position, LaunchPosition::At(g) if g == center));
        match launch.velocity {
            LaunchVelocity::Azimuthal { azimuth, speed, reversed, up } => {
                assert_eq!(azimuth, Azimuth::Turns(TurnFraction { index: i, count: 4 }));
                assert_eq!(speed, dec(false, 100, 0));
                assert!(!reversed);
                assert_eq!(up, zero());
            },
            _ => panic!("anticyclone particles move along their azimuth"),
        }
        assert!(matches!(launch.force, ForcePlan::NoForce));
    }
}

#[test]
fn a_pendulum_launch_is_anchored_with_the_documented_coefficient() {
    let d = ObjectDescription {
        lat: "48".to_string(),
        lon: "2".to_string(),
        elev: "100".to_string(),
        kind: ObjectKind::Foucault { vel: "2000".to_string(), azim: "90".to_string() },
    };
    let launches = d.launches();
    assert_eq!(launches.len(), 1);
    let launch = &launches[0];
    match launch.velocity {
        LaunchVelocity::Azimuthal { azimuth, speed, reversed, up } => {
            assert_eq!(azimuth, Azimuth::Degrees(dec(false, 90, 0)));
            assert_eq!(speed, dec(false, 2000, 0));
            assert!(!reversed);
            assert_eq!(up, zero());
        },
        _ => panic!("a pendulum is launched toward its azimuth"),
    }
    assert!(matches!(
        launch.force,
        ForcePlan::Pendulum { coeff } if coeff == dec(false, 2, -6)
    ));
}

#[test]
fn an_unparsable_particle_count_launches_nothing() {
    let d = ObjectDescription {
        lat: "0".to_string(),
        lon: "0".to_string(),
        elev: "0".to_string(),
        kind: ObjectKind::Cyclone {
            n_particles: "x".to_string(),
            radius: "1000".to_string(),
            vel: "100".to_string(),
        },
    };
    assert_eq!(d.launches().len(), 0);
}

#[test]
fn group_constructors_take_the_particle_count_literally() {
    let c = cyclone(origin(), dec(false, 1, 6), dec(false, 2, 4), dec(false, 100, 0), zero(), 3);
    assert_eq!(c.len(), 3);
    let a = anticyclone(origin(), dec(false, 100, 0), zero(), 0);
    assert_eq!(a.len(), 0);
}

#[test]
fn the_default_scene_definition_is_empty() {
    let d = InitialStateDefinition::default();
    assert_eq!(d.selected_kind, ObjectKindTag::Free);
    assert!(d.objects.is_empty());
    let f = FollowingState { obj: 2 };
    assert_eq!(f.obj, 2);
    assert_ne!(StateTag::External, StateTag::Following);
}
