use adsb_decoder::error::AdsbError;
use adsb_decoder::frame::RawFrame;
use adsb_decoder::message::airborne_position::{
    check_same_latitude_zone, latitude_zone_index, longitude_zone_index, select_most_recent, Cpr,
    Even, Odd,
};
use adsb_decoder::message::Message;
use adsb_decoder::source::SourceError;
use adsb_decoder::tracker::aircraft_state::AircraftState;
use adsb_decoder::tracker::AircraftTracker;

/// A stand-in for global position decoding: the encoded fields of the pair.
fn pair_fields(even: &Even, odd: &Odd) -> Result<(u32, u32, u32, u32), AdsbError> {
    Ok((even.lat_cpr(), even.lon_cpr(), odd.lat_cpr(), odd.lon_cpr()))
}

fn mismatched(_: &Even, _: &Odd) -> Result<(u32, u32, u32, u32), AdsbError> {
    Err(AdsbError::MismatchedLatitude)
}

const EVEN: &str = "8D40621D58C382D690C8AC2863A7";
const ODD: &str = "8D40621D58C386435CC412692AD6";

#[test]
#[allow(clippy::unwrap_used)]
fn update_creates_aircraft_state() {
    let frame = RawFrame::from_hex("8D4840D6202CC371C32CE0576098").unwrap();
    let message = Message::try_from(&frame).unwrap();

    let mut tracker = AircraftTracker::new();

    tracker.update(message, pair_fields).unwrap();

    assert_eq!(tracker.aircraft.len(), 1);
    assert!(tracker.aircraft.contains_key(&frame.icao()));
}

#[test]
#[allow(clippy::unwrap_used)]
fn update_accumulates_state_for_same_aircraft() {
    let even_frame = RawFrame::from_hex(EVEN).unwrap();
    let odd_frame = RawFrame::from_hex(ODD).unwrap();

    let even = Message::try_from(&even_frame).unwrap();
    let odd = Message::try_from(&odd_frame).unwrap();

    let mut tracker = AircraftTracker::new();

    tracker.update(even, latitude_longitude).unwrap();
    tracker.update(odd, latitude_longitude).unwrap();

    assert_eq!(tracker.aircraft.len(), 1);

    let aircraft = tracker.aircraft.get(&even_frame.icao()).unwrap();

    assert!(aircraft.cpr_even.is_some());
    assert!(aircraft.cpr_odd.is_some());
    assert!(aircraft.airborne_position.is_some());
}

#[test]
#[allow(clippy::unwrap_used)]
fn update_accumulates_aircraft_information() {
    let identification_frame = RawFrame::from_hex("8D4840D6202CC371C32CE0576098").unwrap();
    let velocity_frame = RawFrame::from_hex("8D485020994409940838175B284F").unwrap();

    let identification_msg = Message::try_from(&identification_frame).unwrap();
    let velocity_msg = Message::try_from(&velocity_frame).unwrap();

    let mut state: AircraftState<(u32, u32, u32, u32)> = AircraftState::default();

    state.update(identification_msg, pair_fields).unwrap();
    state.update(velocity_msg, pair_fields).unwrap();

    assert!(state.identification.is_some());
    assert!(state.velocity.is_some());
}

#[test]
fn cpr_pair_within_window_is_decoded() {
    let even = Message::decode_at(&RawFrame::from_hex(EVEN).unwrap(), 1_000).unwrap();
    let odd = Message::decode_at(&RawFrame::from_hex(ODD).unwrap(), 11_000).unwrap();
    let mut state = AircraftState::new(0);
    state.update_at(even, 1_000, pair_fields).unwrap();
    assert!(state.position().is_none());
    state.update_at(odd, 11_000, pair_fields).unwrap();
    assert_eq!(state.position(), Some(&(93_000, 51_372, 74_158, 50_194)));
    assert_eq!(state.last_seen(), 11_000);
}

#[test]
fn cpr_pair_outside_window_is_not_decoded() {
    let even = Message::decode_at(&RawFrame::from_hex(EVEN).unwrap(), 1_000).unwrap();
    let odd = Message::decode_at(&RawFrame::from_hex(ODD).unwrap(), 11_001).unwrap();
    let mut state = AircraftState::new(0);
    state.update_at(even, 1_000, pair_fields).unwrap();
    state.update_at(odd, 11_001, pair_fields).unwrap();
    assert!(state.cpr_even.is_some() && state.cpr_odd.is_some());
    assert!(state.position().is_none());
}

#[test]
fn failed_decoding_is_reported_and_refreshes_last_seen() {
    let even = Message::decode_at(&RawFrame::from_hex(EVEN).unwrap(), 1_000).unwrap();
    let odd = Message::decode_at(&RawFrame::from_hex(ODD).unwrap(), 2_000).unwrap();
    let mut state = AircraftState::new(0);
    state.update_at(even, 1_000, mismatched).unwrap();
    let r = state.update_at(odd, 2_000, mismatched);
    assert!(matches!(r, Err(AdsbError::MismatchedLatitude)));
    assert!(state.cpr_odd.is_some());
    assert!(state.position().is_none());
    assert_eq!(state.last_seen(), 2_000);
}

#[test]
fn prune_removes_only_stale_aircraft() {
    let identification = RawFrame::from_hex("8D4840D6202CC371C32CE0576098").unwrap();
    let velocity = RawFrame::from_hex("8D485020994409940838175B284F").unwrap();
    let mut tracker = AircraftTracker::new();
    tracker.update_at(Message::decode_at(&identification, 0).unwrap(), 0, pair_fields).unwrap();
    tracker.update_at(Message::decode_at(&velocity, 30_000).unwrap(), 30_000, pair_fields).unwrap();
    tracker.prune_at(60_000);
    assert_eq!(tracker.aircraft.len(), 2);
    tracker.prune_at(60_001);
    assert_eq!(tracker.aircraft.len(), 1);
    assert!(tracker.get(0x48_40D6).is_none());
    assert!(tracker.get(0x48_5020).is_some());
    tracker.prune_at(60_001);
    assert_eq!(tracker.aircraft.len(), 1);
    assert_eq!(tracker.iter().count(), 1);
}

#[test]
fn zone_indices_of_the_example_pair() {
    let Ok(Cpr::Even(even)) = Cpr::try_from((&RawFrame::from_hex(EVEN).unwrap(), 0)) else {
        panic!("expected an even message");
    };
    let Ok(Cpr::Odd(odd)) = Cpr::try_from((&RawFrame::from_hex(ODD).unwrap(), 0)) else {
        panic!("expected an odd message");
    };
    assert_eq!(latitude_zone_index(&even, &odd), 8);
    // 36 longitude zones at the decoded latitude of about 52.26 degrees.
    assert_eq!(longitude_zone_index(&even, &odd, 36), 0);
    assert_eq!(longitude_zone_index(&even, &odd, 1000), 9);
}

#[test]
fn source_lines_are_parsed() {
    assert!(matches!(SourceError::parse_line("", 0), Ok(None)));
    let Ok(Some(frame)) = SourceError::parse_line("*8D4840D6202CC371C32CE0576098;\n", 31) else {
        panic!("expected a frame");
    };
    assert_eq!(frame.icao(), 0x48_40D6);
    assert!(matches!(
        SourceError::parse_line("8D48\n", 5),
        Err(SourceError::Adsb(AdsbError::InvalidLength(4)))
    ));
}

/// The number of longitude zones at latitude `lat` (the CPR `NL` function).
fn nl(lat: f64) -> i32 {
    let nz = 15.0;
    let numerator = 1.0 - f64::cos(std::f64::consts::PI / (2.0 * nz));
    let denominator = f64::cos(std::f64::consts::PI / 180.0 * lat).powi(2);
    f64::floor(2.0 * std::f64::consts::PI / f64::acos(1.0 - numerator / denominator)) as i32
}

/// Global decoding of the pair from the library's zone indices and selection.
fn latitude_longitude(even: &Even, odd: &Odd) -> Result<(f64, f64), AdsbError> {
    let j = latitude_zone_index(even, odd);
    let lat_even = 6.0 * (f64::from(j % 60) + f64::from(even.lat_cpr()) / 131_072.0);
    let lat_odd = 360.0 / 59.0 * (f64::from(j % 59) + f64::from(odd.lat_cpr()) / 131_072.0);
    check_same_latitude_zone(nl(lat_even), nl(lat_odd))?;
    let lat = select_most_recent(lat_even, lat_odd, even.time(), odd.time());
    let zones = nl(lat);
    let m = longitude_zone_index(even, odd, zones);
    let lon_even = 360.0 / f64::from(zones)
        * (f64::from(m.rem_euclid(zones)) + f64::from(even.lon_cpr()) / 131_072.0);
    let lon_odd = 360.0 / f64::from(zones - 1)
        * (f64::from(m.rem_euclid(zones - 1)) + f64::from(odd.lon_cpr()) / 131_072.0);
    Ok((lat, select_most_recent(lon_even, lon_odd, even.time(), odd.time())))
}

#[test]
#[allow(clippy::unwrap_used, clippy::panic)]
fn update_decodes_position_from_recent_cpr_pair() {
    let even_frame = RawFrame::from_hex(EVEN).unwrap();
    let odd_frame = RawFrame::from_hex(ODD).unwrap();

    let odd = Message::try_from(&odd_frame).unwrap();
    let even = Message::try_from(&even_frame).unwrap();

    let mut state = AircraftState::default();

    state.update(even, latitude_longitude).unwrap();
    state.update(odd, latitude_longitude).unwrap();

    let position = state
        .airborne_position
        .expect("expected global decoded position");

    assert!((position.0 - 52.257_202_148_437_5).abs() < 0.000_000_1);
    assert!((position.1 - 3.919_372_558_593_75).abs() < 0.000_000_1);
}

#[test]
fn most_recent_message_is_selected() {
    assert_eq!(select_most_recent("even", "odd", 10, 9), "even");
    assert_eq!(select_most_recent("even", "odd", 10, 10), "even");
    assert_eq!(select_most_recent("even", "odd", 9, 10), "odd");
}

#[test]
fn latitude_zone_mismatch_is_rejected() {
    assert!(check_same_latitude_zone(36, 36).is_ok());
    assert!(matches!(check_same_latitude_zone(36, 35), Err(AdsbError::MismatchedLatitude)));
}

#[test]
fn other_messages_keep_the_position() {
    let even = Message::decode_at(&RawFrame::from_hex(EVEN).unwrap(), 1_000).unwrap();
    let odd = Message::decode_at(&RawFrame::from_hex(ODD).unwrap(), 2_000).unwrap();
    let identification =
        Message::decode_at(&RawFrame::from_hex("8D4840D6202CC371C32CE0576098").unwrap(), 3_000)
            .unwrap();
    let mut state = AircraftState::new(0);
    state.update_at(even, 1_000, pair_fields).unwrap();
    state.update_at(odd, 2_000, pair_fields).unwrap();
    state.update_at(identification, 3_000, pair_fields).unwrap();
    assert_eq!(state.position(), Some(&(93_000, 51_372, 74_158, 50_194)));
    assert!(state.identification.is_some());
    assert_eq!(state.last_seen(), 3_000);
}

#[test]
fn update_keeps_other_aircraft() {
    let identification = RawFrame::from_hex("8D4840D6202CC371C32CE0576098").unwrap();
    let velocity = RawFrame::from_hex("8D485020994409940838175B284F").unwrap();
    let mut tracker = AircraftTracker::new();
    tracker.update_at(Message::decode_at(&identification, 0).unwrap(), 0, pair_fields).unwrap();
    tracker.update_at(Message::decode_at(&velocity, 5).unwrap(), 5, pair_fields).unwrap();
    let first = tracker.get(0x48_40D6).unwrap();
    assert_eq!(first.last_seen(), 0);
    assert!(first.identification.is_some() && first.velocity.is_none());
    let second = tracker.get(0x48_5020).unwrap();
    assert_eq!(second.last_seen(), 5);
    assert!(second.velocity.is_some() && second.identification.is_none());
}

#[test]
fn source_errors_convert() {
    let io = std::io::Error::other("read failed");
    assert!(matches!(SourceError::from(io), SourceError::IO(e) if e.to_string() == "read failed"));
    let adsb = SourceError::from(AdsbError::NotAdsb(5));
    assert!(matches!(adsb, SourceError::Adsb(AdsbError::NotAdsb(5))));
}
