use adsb_decoder::error::AdsbError;
use adsb_decoder::frame::RawFrame;
use adsb_decoder::message::airborne_position::{Altitude, Cpr, Feet, Meters};
use adsb_decoder::message::airborne_velocity::{
    AirSpeed, EastWestVelocity, GeometricAltitudeDelta, MagneticHeading, NorthSouthVelocity,
    Velocity, VerticalRate,
};
use adsb_decoder::message::aircraft_identification::AircraftCategory;
use adsb_decoder::message::Message;

#[test]
#[allow(clippy::unwrap_used, clippy::panic)]
fn decode_aircraft_identification() {
    let frame = RawFrame::from_hex("8D4840D6202CC371C32CE0576098").unwrap();
    let message = Message::try_from(&frame).unwrap();

    let Message::AircraftIdentification(msg) = message else {
        panic!("expected Aircraft Identification ADS-B frame");
    };

    assert_eq!(msg.icao, 0x48_40D6);
    assert_eq!(msg.callsign, "KLM1023");
    assert!(matches!(msg.category, AircraftCategory::NoCategoryInformation));
}

#[test]
#[allow(clippy::unwrap_used, clippy::panic)]
fn decode_ground_velocity() {
    let frame = RawFrame::from_hex("8D485020994409940838175B284F").unwrap();
    let message = Message::try_from(&frame).unwrap();

    let Message::AirborneVelocity(msg) = message else {
        panic!("expected Airborne Velocity ADS-B frame");
    };

    let Velocity::GroundSpeed {
        east_west,
        north_south,
    } = msg.velocity
    else {
        panic!("expected Ground Speed encoded message");
    };

    assert_eq!(
        (east_west, north_south),
        (EastWestVelocity::West(8), NorthSouthVelocity::South(159))
    );
    assert_eq!(msg.vertical_rate, VerticalRate::Descending(832));
    assert_eq!(msg.geo_minus_baro, GeometricAltitudeDelta::Above(550));
}

#[test]
#[allow(clippy::unwrap_used, clippy::panic)]
fn decode_air_velocity() {
    let frame = RawFrame::from_hex("8DA05F219B06B6AF189400CBC33F").unwrap();
    let message = Message::try_from(&frame).unwrap();

    let Message::AirborneVelocity(msg) = message else {
        panic!("expected Airborne Velocity ADS-B frame");
    };

    let Velocity::AirSpeed { heading, airspeed } = msg.velocity else {
        panic!("expected Air Speed encoded message");
    };

    // The heading is held in units of 360/1024 degrees.
    let MagneticHeading::Available(units) = heading else {
        panic!("expected an available heading");
    };
    assert_eq!(f32::from(units) * (360.0 / 1024.0), 243.984_375);
    assert_eq!(airspeed, AirSpeed::TrueAirSpeed(375));
    assert_eq!(msg.vertical_rate, VerticalRate::Descending(2304));
    assert_eq!(msg.geo_minus_baro, GeometricAltitudeDelta::Unavailable);
}

#[test]
fn decode_qbit_altitude_and_cpr() {
    let frame = RawFrame::from_hex("8D40621D58C382D690C8AC2863A7").unwrap();
    let Ok(Message::AirbornePosition(altitude, cpr)) = Message::decode_at(&frame, 5_000) else {
        panic!("expected an airborne position");
    };
    assert_eq!(altitude.icao, 0x40621D);
    let Altitude::Barometric(feet) = altitude.altitude else {
        panic!("expected a barometric altitude");
    };
    assert_eq!(feet.value(), 38_000);
    let Cpr::Even(even) = cpr else {
        panic!("expected an even CPR message");
    };
    assert_eq!((even.lat_cpr(), even.lon_cpr(), even.time()), (93_000, 51_372, 5_000));
}

#[test]
fn decode_odd_cpr() {
    let frame = RawFrame::from_hex("8D40621D58C386435CC412692AD6").unwrap();
    let Ok(Cpr::Odd(odd)) = Cpr::try_from((&frame, 7)) else {
        panic!("expected an odd CPR message");
    };
    assert_eq!((odd.lat_cpr(), odd.lon_cpr(), odd.time()), (74_158, 50_194, 7));
}

#[test]
fn decode_gillham_altitude() {
    let frame = RawFrame::from_hex("8D40621D580022D690C8AC2863A7").unwrap();
    let Ok(Altitude::Barometric(feet)) = Altitude::try_from(&frame) else {
        panic!("expected a barometric altitude");
    };
    assert_eq!(feet.value(), 100);
}

#[test]
fn invalid_gillham_code_is_rejected() {
    let frame = RawFrame::from_hex("8D40621D580032D690C8AC2863A7").unwrap();
    assert!(matches!(Altitude::try_from(&frame), Err(AdsbError::InvalidGillhamCode)));
    assert!(matches!(Message::decode_at(&frame, 0), Err(AdsbError::InvalidGillhamCode)));
}

#[test]
fn geometric_and_unavailable_altitude() {
    let geometric = RawFrame::from_hex("8D40621DA04D22D690C8AC2863A7").unwrap();
    let Ok(Altitude::Geometric(meters)) = Altitude::try_from(&geometric) else {
        panic!("expected a geometric altitude");
    };
    assert_eq!(meters.value(), 1234);
    let unavailable = RawFrame::from_hex("8D40621D580002D690C8AC2863A7").unwrap();
    assert!(matches!(Altitude::try_from(&unavailable), Ok(Altitude::Unavailable)));
}

#[test]
fn unsupported_type_code_is_rejected() {
    let frame = RawFrame::from_hex("8D40621D00C382D690C8AC2863A7").unwrap();
    assert!(matches!(Message::try_from(&frame), Err(AdsbError::UnsupportedTypeCode(0))));
    assert!(matches!(Altitude::try_from(&frame), Err(AdsbError::UnsupportedTypeCode(0))));
}

#[test]
fn invalid_velocity_subtype_is_rejected() {
    let frame = RawFrame::from_hex("8D485020984409940838175B284F").unwrap();
    assert!(matches!(Message::try_from(&frame), Err(AdsbError::InvalidVelocitySubType(0))));
}

#[test]
fn supersonic_speeds_are_scaled_by_four() {
    let frame = RawFrame::from_hex("8D4850209A4409940838175B284F").unwrap();
    let Ok(Velocity::GroundSpeed { east_west, north_south }) = Velocity::try_from(&frame) else {
        panic!("expected a ground speed");
    };
    assert_eq!(east_west, EastWestVelocity::West(32));
    assert_eq!(north_south, NorthSouthVelocity::South(636));
    assert_eq!(east_west.value(), Some(32));
    assert_eq!(EastWestVelocity::Unavailable.value(), None);
}

#[test]
fn display_texts() {
    assert_eq!(EastWestVelocity::West(8).to_string(), "-8");
    assert_eq!(EastWestVelocity::East(120).to_string(), "120");
    assert_eq!(NorthSouthVelocity::South(159).to_string(), "-159");
    assert_eq!(NorthSouthVelocity::Unavailable.to_string(), "Unavailable");
    assert_eq!(AirSpeed::TrueAirSpeed(375).to_string(), "375 (TAS)");
    assert_eq!(AirSpeed::IndicatedAirSpeed(0).to_string(), "0 (IAS)");
    assert_eq!(VerticalRate::Descending(2304).to_string(), "-2304");
    assert_eq!(GeometricAltitudeDelta::Above(550).to_string(), "550");
    assert_eq!(GeometricAltitudeDelta::Below(-25).to_string(), "--25");
}

#[test]
fn heading_text_matches_float_formatting() {
    for units in 0..=u16::MAX {
        let degrees = f32::from(units) * (360.0 / 1024.0);
        assert_eq!(
            MagneticHeading::Available(units).to_string(),
            format!("{degrees:.2} degrees"),
            "units {units}"
        );
    }
    assert_eq!(MagneticHeading::Unavailable.to_string(), "Unavailable");
    assert_eq!(MagneticHeading::Available(694).to_string(), "243.98 degrees");
}

#[test]
fn feet_and_meters_are_stored_unscaled() {
    for v in [i32::MIN, -1_000, 0, 1, 38_000, i32::MAX] {
        assert_eq!(Feet::new(v).value(), v);
        assert_eq!(Meters::new(v).value(), v);
    }
}

#[test]
fn gray_code_round_trip() {
    for b in 0..256 {
        assert_eq!(Altitude::gray_to_binary(b ^ (b >> 1)), b);
    }
    for g in 0..256 {
        let r = Altitude::gray_to_binary(g);
        assert!((0..256).contains(&r));
        assert_eq!(r ^ (r >> 1), g);
    }
    assert_eq!(Altitude::gray_to_binary(0b110), 0b100);
}

#[test]
fn gillham_reordering_drops_the_q_bit() {
    for code in 0..4096 {
        let (g5, g1) = Altitude::reorder_gillham_bits(code);
        assert!((0..256).contains(&g5));
        assert!((0..8).contains(&g1));
        assert_eq!((g5, g1), Altitude::reorder_gillham_bits(code & 0xFEF));
    }
    // C1 A1 C2 A2 C4 A4 B1 D1 B2 D2 B4 D4 with only D2 and C1 set.
    assert_eq!(Altitude::reorder_gillham_bits(0b1000_0000_0100), (0b1000_0000, 0b100));
}

#[test]
fn ground_vector_of_a_ground_speed() {
    let frame = RawFrame::from_hex("8D485020994409940838175B284F").unwrap();
    let Message::AirborneVelocity(msg) = Message::try_from(&frame).unwrap() else {
        panic!("expected Airborne Velocity ADS-B frame");
    };
    assert_eq!(msg.velocity.ground_vector(), Some((-8, -159)));
    let missing = Velocity::GroundSpeed {
        east_west: EastWestVelocity::Unavailable,
        north_south: NorthSouthVelocity::North(3),
    };
    assert_eq!(missing.ground_vector(), None);
}

#[test]
fn ground_vector_of_an_air_speed_is_none() {
    let frame = RawFrame::from_hex("8DA05F219B06B6AF189400CBC33F").unwrap();
    let Message::AirborneVelocity(msg) = Message::try_from(&frame).unwrap() else {
        panic!("expected Airborne Velocity ADS-B frame");
    };
    assert_eq!(msg.velocity.ground_vector(), None);
}
