//! The ADS-B messages that frames carry, by type code.
pub mod airborne_position;
pub mod airborne_velocity;
pub mod aircraft_identification;

use crate::clock::now_millis;
use crate::error::AdsbError;
use crate::frame::{field, RawFrame};
use airborne_position::{decodes_altitude, is_cpr_of, AircraftAltitude, Cpr};
use airborne_velocity::{spec_airborne_velocity, AirborneVelocity};
use aircraft_identification::{is_identification_of, AircraftIdentification};
use vstd::prelude::*;

verus! {

/// Whether `r` is what decoding the frame `frame`, received at `time`
/// (milliseconds), gives: the message type follows from the type code.
pub open spec fn decodes_message(frame: int, time: int, r: Result<Message, AdsbError>) -> bool {
    let tc = field(frame, 33, 37);
    if 1 <= tc <= 4 {
        r matches Ok(Message::AircraftIdentification(id)) && is_identification_of(frame, id)
    } else if (9 <= tc <= 18) || (20 <= tc <= 22) {
        match r {
            Ok(Message::AirbornePosition(altitude, cpr)) => altitude.icao == field(frame, 9, 32)
                && decodes_altitude(frame, Ok(altitude.altitude)) && is_cpr_of(frame, time, cpr),
            Ok(_) => false,
            Err(e) => decodes_altitude(frame, Err(e)),
        }
    } else if tc == 19 {
        match (r, spec_airborne_velocity(frame)) {
            (Ok(Message::AirborneVelocity(v)), Ok(w)) => v == w,
            (Err(e), Err(f)) => e == f,
            _ => false,
        }
    } else {
        r matches Err(AdsbError::UnsupportedTypeCode(t)) && t == tc
    }
}

/// The ICAO address of the aircraft that sent a message.
pub open spec fn message_icao(msg: Message) -> u32 {
    match msg {
        Message::AircraftIdentification(id) => id.icao,
        Message::AirborneVelocity(v) => v.icao,
        Message::AirbornePosition(altitude, _) => altitude.icao,
    }
}

/// Every message that a frame decodes to names the aircraft of the frame's
/// address field (bits 9 to 32), whatever its type.
pub proof fn lemma_message_sender(frame: int, time: int, msg: Message)
    requires
        crate::frame::is_adsb_frame(frame),
        decodes_message(frame, time, Ok(msg)),
    ensures
        message_icao(msg) == field(frame, 9, 32),
{
    vstd::arithmetic::power2::lemma2_to64();
    if field(frame, 33, 37) == 19 {
        assert(spec_airborne_velocity(frame) is Ok);
        assert(0 <= field(frame, 9, 32) < 0x100_0000);
    }
}

/// The type code (bits 33 to 37) decides the kind of message: 1 to 4 an
/// identification, 19 a velocity, 9 to 18 and 20 to 22 a position; any other
/// type code is refused as unsupported.
pub proof fn lemma_type_code_decides_kind(frame: int, time: int, r: Result<Message, AdsbError>)
    requires
        decodes_message(frame, time, r),
    ensures
        r matches Ok(Message::AircraftIdentification(_)) ==> 1 <= field(frame, 33, 37) <= 4,
        r matches Ok(Message::AirborneVelocity(_)) ==> field(frame, 33, 37) == 19,
        r matches Ok(Message::AirbornePosition(_, _)) ==> 9 <= field(frame, 33, 37) <= 18 || 20
            <= field(frame, 33, 37) <= 22,
        1 <= field(frame, 33, 37) <= 4 ==> r is Ok,
        !(1 <= field(frame, 33, 37) <= 22) || field(frame, 33, 37) == 5 || field(frame, 33, 37)
            == 6 || field(frame, 33, 37) == 7 || field(frame, 33, 37) == 8 ==> r
            == Err::<Message, AdsbError>(AdsbError::UnsupportedTypeCode(field(frame, 33, 37) as u8)),
{
}

/// A decoded ADS-B message.
///
/// Each variant holds the typed form of one kind of message, as its type
/// code (TC) tells.
#[derive(Debug)]
pub enum Message {
    /// Aircraft Identification and Category (type codes 1 to 4).
    AircraftIdentification(AircraftIdentification),
    /// Airborne Velocity (type code 19).
    AirborneVelocity(AirborneVelocity),
    /// Airborne Position (type codes 9 to 18 and 20 to 22).
    AirbornePosition(AircraftAltitude, Cpr),
}

impl Message {
    /// Decodes a frame received at `time` (milliseconds) into its message.
    ///
    /// Returns [`AdsbError::UnsupportedTypeCode`] for a type code that is not
    /// decoded yet, and the error of the message's own decoding otherwise.
    pub fn decode_at(frame: &RawFrame, time: u64) -> (r: Result<Self, AdsbError>)
        ensures
            decodes_message(frame@, time as int, r),
    {
        let tc = frame.type_code();
        if 1 <= tc && tc <= 4 {
            Ok(Self::AircraftIdentification(AircraftIdentification::try_from(frame)?))
        } else if (9 <= tc && tc <= 18) || (20 <= tc && tc <= 22) {
            let altitude = AircraftAltitude::try_from(frame)?;
            let cpr = Cpr::try_from((frame, time))?;
            Ok(Self::AirbornePosition(altitude, cpr))
        } else if tc == 19 {
            Ok(Self::AirborneVelocity(AirborneVelocity::try_from(frame)?))
        } else {
            Err(AdsbError::UnsupportedTypeCode(tc))
        }
    }

    /// Decodes a frame received now into its message; a position message
    /// takes the current time as its reception time.
    pub fn try_from(frame: &RawFrame) -> (r: Result<Self, AdsbError>)
        ensures
            exists|time: u64| decodes_message(frame@, time as int, r),
    {
        let time = now_millis();
        Self::decode_at(frame, time)
    }
}

} // verus!
