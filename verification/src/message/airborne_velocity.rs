//! Decodes ADS-B Airborne Velocity messages (type code 19).
//!
//! Airborne Velocity messages encode either an aircraft's ground velocity, as
//! independent east-west and north-south components, or its airspeed with
//! its magnetic heading (when available), depending on the velocity subtype.
use crate::error::AdsbError;
use crate::frame::{field, RawFrame};
use crate::text::{decimal_digits, decimal_text, digit_char, push_decimal, push_digits};
use vstd::string::StringExecFns;
use vstd::arithmetic::power2::lemma2_to64;
use vstd::prelude::*;

verus! {

/// Feet per minute per step of the vertical rate.
pub const FEET_PER_LSB: i16 = 64;

/// Feet per step of the difference between geometric and barometric altitude.
pub const GEO_ALTITUDE_DELTA_STEPS: i16 = 25;

/// The velocity subtype field (bits 38 to 40).
pub open spec fn subtype_field(frame: int) -> int {
    field(frame, 38, 40)
}

/// The subtype that the subtype field `st` names, or the error for it.
pub open spec fn spec_subtype(st: int) -> Result<SubType, AdsbError> {
    if st == 1 {
        Ok(SubType::GroundSubSonic)
    } else if st == 2 {
        Ok(SubType::GroundSuperSonic)
    } else if st == 3 {
        Ok(SubType::AirSubSonic)
    } else if st == 4 {
        Ok(SubType::AirSuperSonic)
    } else {
        Err(AdsbError::InvalidVelocitySubType(st as u8))
    }
}

/// The scaling of speeds: 1 for subsonic subtypes, 4 for supersonic ones.
pub open spec fn spec_multiplier(st: SubType) -> int {
    match st {
        SubType::GroundSubSonic | SubType::AirSubSonic => 1,
        SubType::GroundSuperSonic | SubType::AirSuperSonic => 4,
    }
}

/// A speed field value `v` (not zero) scaled by `multiplier`: `multiplier (v - 1)`.
pub open spec fn decoded_speed(v: int, multiplier: int) -> int {
    multiplier * (v - 1)
}

/// The east-west component of a ground velocity frame.
pub open spec fn spec_east_west(frame: int, multiplier: int) -> EastWestVelocity {
    let v = field(frame, 47, 56);
    if v == 0 {
        EastWestVelocity::Unavailable
    } else if field(frame, 46, 46) == 0 {
        EastWestVelocity::East(decoded_speed(v, multiplier) as i16)
    } else {
        EastWestVelocity::West(decoded_speed(v, multiplier) as i16)
    }
}

/// The north-south component of a ground velocity frame.
pub open spec fn spec_north_south(frame: int, multiplier: int) -> NorthSouthVelocity {
    let v = field(frame, 58, 67);
    if v == 0 {
        NorthSouthVelocity::Unavailable
    } else if field(frame, 57, 57) == 0 {
        NorthSouthVelocity::North(decoded_speed(v, multiplier) as i16)
    } else {
        NorthSouthVelocity::South(decoded_speed(v, multiplier) as i16)
    }
}

/// The magnetic heading of an airspeed frame, in units of 360/1024 degrees.
pub open spec fn spec_heading(frame: int) -> MagneticHeading {
    if field(frame, 46, 46) == 0 {
        MagneticHeading::Unavailable
    } else {
        MagneticHeading::Available(field(frame, 47, 56) as u16)
    }
}

/// The airspeed of an airspeed frame.
pub open spec fn spec_airspeed(frame: int, multiplier: int) -> AirSpeed {
    let v = field(frame, 58, 67);
    if v == 0 {
        AirSpeed::Unavailable
    } else if field(frame, 57, 57) == 0 {
        AirSpeed::IndicatedAirSpeed(decoded_speed(v, multiplier) as i16)
    } else {
        AirSpeed::TrueAirSpeed(decoded_speed(v, multiplier) as i16)
    }
}

/// The velocity of an airborne velocity frame, or the error for its subtype.
pub open spec fn spec_velocity(frame: int) -> Result<Velocity, AdsbError> {
    match spec_subtype(subtype_field(frame)) {
        Ok(st) => {
            let multiplier = spec_multiplier(st);
            match st {
                SubType::GroundSubSonic | SubType::GroundSuperSonic => Ok(
                    Velocity::GroundSpeed {
                        east_west: spec_east_west(frame, multiplier),
                        north_south: spec_north_south(frame, multiplier),
                    },
                ),
                SubType::AirSubSonic | SubType::AirSuperSonic => Ok(
                    Velocity::AirSpeed {
                        heading: spec_heading(frame),
                        airspeed: spec_airspeed(frame, multiplier),
                    },
                ),
            }
        },
        Err(e) => Err(e),
    }
}

/// The vertical rate of an airborne velocity frame, in feet per minute.
pub open spec fn spec_vertical_rate(frame: int) -> VerticalRate {
    let v = field(frame, 70, 78);
    if v == 0 {
        VerticalRate::Unavailable
    } else if field(frame, 69, 69) == 0 {
        VerticalRate::Ascending((64 * (v - 1)) as i16)
    } else {
        VerticalRate::Descending((64 * (v - 1)) as i16)
    }
}

/// The difference between geometric and barometric altitude of an airborne
/// velocity frame, in feet.
pub open spec fn spec_geo_minus_baro(frame: int) -> GeometricAltitudeDelta {
    let v = field(frame, 82, 88);
    if v == 0 {
        GeometricAltitudeDelta::Unavailable
    } else if field(frame, 81, 81) == 0 {
        GeometricAltitudeDelta::Above(((v - 1) * 25) as i16)
    } else {
        GeometricAltitudeDelta::Below(((v - 1) * 25) as i16)
    }
}

/// The airborne velocity message of the frame `frame`, or the error for its
/// velocity subtype.
pub open spec fn spec_airborne_velocity(frame: int) -> Result<AirborneVelocity, AdsbError> {
    match spec_velocity(frame) {
        Ok(velocity) => Ok(
            AirborneVelocity {
                icao: field(frame, 9, 32) as u32,
                intent_change: field(frame, 41, 41) == 1,
                ifr_capability: field(frame, 42, 42) == 1,
                velocity,
                vertical_rate: spec_vertical_rate(frame),
                geo_minus_baro: spec_geo_minus_baro(frame),
            },
        ),
        Err(e) => Err(e),
    }
}

/// The velocity of a frame, read from its bits. The subtype (bits 38 to 40)
/// must be 1 to 4; subtypes 1 and 3 count speeds in knots, 2 and 4 in steps
/// of 4 knots, and a speed field `v` other than 0 stands for `v - 1` steps.
/// Subtypes 1 and 2 give a ground speed: the east-west speed in bits 47 to 56,
/// toward the west when bit 46 is set, and the north-south speed in bits 58
/// to 67, toward the south when bit 57 is set. Subtypes 3 and 4 give an
/// airspeed: the heading in bits 47 to 56 when bit 46 is set, and the airspeed
/// in bits 58 to 67, a true airspeed when bit 57 is set.
pub proof fn lemma_velocity_reads_fields(frame: int)
    requires
        0 <= frame,
    ensures
        ({
            let st = field(frame, 38, 40);
            let steps = if st == 1 || st == 3 {
                1int
            } else {
                4int
            };
            let ew = field(frame, 47, 56);
            let ns = field(frame, 58, 67);
            &&& spec_velocity(frame) is Err <==> !(1 <= st <= 4)
            &&& !(1 <= st <= 4) ==> spec_velocity(frame) == Err::<Velocity, AdsbError>(
                AdsbError::InvalidVelocitySubType(st as u8),
            )
            &&& (st == 1 || st == 2) ==> (spec_velocity(frame) matches Ok(
                Velocity::GroundSpeed { east_west, north_south },
            ) && (ew == 0 ==> east_west == EastWestVelocity::Unavailable) && (ew != 0 && field(
                frame,
                46,
                46,
            ) == 0 ==> east_west == EastWestVelocity::East((steps * (ew - 1)) as i16)) && (ew != 0
                && field(frame, 46, 46) == 1 ==> east_west == EastWestVelocity::West(
                (steps * (ew - 1)) as i16,
            )) && (ns == 0 ==> north_south == NorthSouthVelocity::Unavailable) && (ns != 0 && field(
                frame,
                57,
                57,
            ) == 0 ==> north_south == NorthSouthVelocity::North((steps * (ns - 1)) as i16)) && (ns
                != 0 && field(frame, 57, 57) == 1 ==> north_south == NorthSouthVelocity::South(
                (steps * (ns - 1)) as i16,
            )))
            &&& (st == 3 || st == 4) ==> (spec_velocity(frame) matches Ok(
                Velocity::AirSpeed { heading, airspeed },
            ) && (field(frame, 46, 46) == 0 ==> heading == MagneticHeading::Unavailable) && (field(
                frame,
                46,
                46,
            ) == 1 ==> heading == MagneticHeading::Available(ew as u16)) && (ns == 0 ==> airspeed
                == AirSpeed::Unavailable) && (ns != 0 && field(frame, 57, 57) == 0 ==> airspeed
                == AirSpeed::IndicatedAirSpeed((steps * (ns - 1)) as i16)) && (ns != 0 && field(
                frame,
                57,
                57,
            ) == 1 ==> airspeed == AirSpeed::TrueAirSpeed((steps * (ns - 1)) as i16)))
        }),
{
    vstd::arithmetic::power2::lemma2_to64();
    assert(0 <= field(frame, 46, 46) < 2);
    assert(0 <= field(frame, 57, 57) < 2);
}

/// The vertical rate and the altitude difference of a frame, read from its
/// bits: the rate is 64 ft/min times one less than bits 70 to 78, downward
/// when bit 69 is set; the difference is 25 ft times one less than bits 82 to
/// 88, below when bit 81 is set; a zero field means that none was sent.
pub proof fn lemma_rates_read_fields(frame: int)
    requires
        0 <= frame,
    ensures
        ({
            let vr = field(frame, 70, 78);
            let gd = field(frame, 82, 88);
            &&& vr == 0 ==> spec_vertical_rate(frame) == VerticalRate::Unavailable
            &&& vr != 0 && field(frame, 69, 69) == 0 ==> spec_vertical_rate(frame)
                == VerticalRate::Ascending((64 * vr - 64) as i16)
            &&& vr != 0 && field(frame, 69, 69) == 1 ==> spec_vertical_rate(frame)
                == VerticalRate::Descending((64 * vr - 64) as i16)
            &&& gd == 0 ==> spec_geo_minus_baro(frame) == GeometricAltitudeDelta::Unavailable
            &&& gd != 0 && field(frame, 81, 81) == 0 ==> spec_geo_minus_baro(frame)
                == GeometricAltitudeDelta::Above((25 * gd - 25) as i16)
            &&& gd != 0 && field(frame, 81, 81) == 1 ==> spec_geo_minus_baro(frame)
                == GeometricAltitudeDelta::Below((25 * gd - 25) as i16)
        }),
{
    vstd::arithmetic::power2::lemma2_to64();
    assert(0 <= field(frame, 69, 69) < 2);
    assert(0 <= field(frame, 81, 81) < 2);
}

/// An airborne velocity message reads its address from bits 9 to 32, the
/// intent change flag from bit 41 and the IFR capability flag from bit 42,
/// and fails exactly when its velocity does.
pub proof fn lemma_airborne_velocity_reads_fields(frame: int)
    requires
        0 <= frame,
    ensures
        spec_airborne_velocity(frame) is Err <==> spec_velocity(frame) is Err,
        spec_airborne_velocity(frame) matches Ok(v) ==> v.icao == field(frame, 9, 32) && v.intent_change
            == (field(frame, 41, 41) == 1) && v.ifr_capability == (field(frame, 42, 42) == 1)
            && Ok::<Velocity, AdsbError>(v.velocity) == spec_velocity(frame),
{
    vstd::arithmetic::power2::lemma2_to64();
    assert(0 <= field(frame, 9, 32) < 0x100_0000);
}

/// The text of the speed `v`, with a `-` before it when `negative`.
pub open spec fn speed_text(v: i16, negative: bool) -> Seq<char> {
    if negative {
        seq!['-'] + decimal_text(v as int)
    } else {
        decimal_text(v as int)
    }
}

/// Builds the text of the speed `v`, with a `-` before it when `negative`.
fn speed_string(v: i16, negative: bool) -> (s: String)
    ensures
        s@ == speed_text(v, negative),
{
    let mut s = String::new();
    if negative {
        s.push('-');
    }
    push_decimal(&mut s, v);
    assert(s@ =~= speed_text(v, negative));
    s
}

/// Builds the text `Unavailable`.
fn unavailable_string() -> (s: String)
    ensures
        s@ == "Unavailable"@,
{
    proof {
        reveal_strlit("Unavailable");
    }
    String::from_str("Unavailable")
}

/// The eastward speed of an east-west component: negative toward the west.
pub open spec fn eastward(v: EastWestVelocity) -> Option<i32> {
    match v {
        EastWestVelocity::East(s) => Some(s as i32),
        EastWestVelocity::West(s) => Some((-(s as int)) as i32),
        EastWestVelocity::Unavailable => None,
    }
}

/// The northward speed of a north-south component: negative toward the south.
pub open spec fn northward(v: NorthSouthVelocity) -> Option<i32> {
    match v {
        NorthSouthVelocity::North(s) => Some(s as i32),
        NorthSouthVelocity::South(s) => Some((-(s as int)) as i32),
        NorthSouthVelocity::Unavailable => None,
    }
}

/// The ground velocity vector of a velocity: its eastward and northward
/// speeds, when it is a ground speed with both components available.
pub open spec fn ground_vector_of(v: Velocity) -> Option<(i32, i32)> {
    match v {
        Velocity::GroundSpeed { east_west, north_south } => match (
            eastward(east_west),
            northward(north_south),
        ) {
            (Some(e), Some(n)) => Some((e, n)),
            _ => None,
        },
        Velocity::AirSpeed { .. } => None,
    }
}

/// Whether `h` hundredths of a degree is a heading of `units` (each 360/1024
/// degrees) rounded to the nearest hundredth, a tie to the even one, as `{:.2}`
/// rounds: `h` differs from the exact `units * 36000 / 1024` by less than a
/// half, or by exactly a half with `h` even. (`err` is that difference times
/// 128.)
pub open spec fn rounds_to_hundredths(units: int, h: int) -> bool {
    let err = h * 128 - units * 4500;
    ||| -64 < err < 64
    ||| (err == 64 || err == -64) && h % 2 == 0
}

/// A heading of `units` in hundredths of a degree, rounded as `{:.2}` rounds.
pub open spec fn heading_hundredths(units: int) -> int {
    choose|h: int| rounds_to_hundredths(units, h)
}

/// The rounding to hundredths has one result.
pub proof fn lemma_hundredths_unique(units: int, h1: int, h2: int)
    requires
        rounds_to_hundredths(units, h1),
        rounds_to_hundredths(units, h2),
    ensures
        h1 == h2,
{
    let e1 = h1 * 128 - units * 4500;
    let e2 = h2 * 128 - units * 4500;
    assert(e1 - e2 == 128 * (h1 - h2));
    if h1 > h2 {
        assert(h1 == h2 + 1);
        assert(e1 == 64 && e2 == -64);
    } else if h1 < h2 {
        assert(h2 == h1 + 1);
        assert(e2 == 64 && e1 == -64);
    }
}

/// A heading of `units` (each 360/1024 degrees) in hundredths of a degree is
/// the nearest whole number of hundredths to `units * 36000 / 1024`, an exact
/// half going to the even one.
pub proof fn lemma_heading_rounds_to_nearest(units: int)
    requires
        0 <= units,
    ensures
        -512 <= heading_hundredths(units) * 1024 - units * 36000 <= 512,
        heading_hundredths(units) * 1024 - units * 36000 == 512 ==> heading_hundredths(units) % 2
            == 0,
        heading_hundredths(units) * 1024 - units * 36000 == -512 ==> heading_hundredths(units) % 2
            == 0,
{
    lemma_hundredths_by_division(units);
}

/// The heading in hundredths by division: `units * 4500 / 128`, rounded up
/// when the remainder is over a half, or a half with an odd quotient.
proof fn lemma_hundredths_by_division(units: int)
    requires
        0 <= units,
    ensures
        ({
            let q = (units * 4500) / 128;
            let rem = (units * 4500) % 128;
            &&& rounds_to_hundredths(units, heading_hundredths(units))
            &&& heading_hundredths(units) == if rem > 64 || (rem == 64 && q % 2 == 1) {
                q + 1
            } else {
                q
            }
        }),
{
    let n = units * 4500;
    let q = n / 128;
    let rem = n % 128;
    let h = if rem > 64 || (rem == 64 && q % 2 == 1) {
        q + 1
    } else {
        q
    };
    assert(n == q * 128 + rem && 0 <= rem < 128);
    assert(rounds_to_hundredths(units, h));
    lemma_hundredths_unique(units, h, heading_hundredths(units));
}

/// The text of a heading of `units`, as `{:.2} degrees` formats it.
pub open spec fn heading_text(units: int) -> Seq<char> {
    let h = heading_hundredths(units);
    decimal_digits((h / 100) as nat) + seq!['.', digit_char((h % 100) / 10), digit_char(h % 10)]
        + " degrees"@
}

/// Velocity subtype (`ST`) encoded in bits 38 to 40.
///
/// Determines whether the message contains ground speed or airspeed
/// information, and whether the encoded values use subsonic or supersonic
/// scaling.
#[derive(Debug, Clone, Copy, PartialEq, Eq, Structural)]
pub enum SubType {
    GroundSubSonic,
    GroundSuperSonic,
    AirSubSonic,
    AirSuperSonic,
}

impl SubType {
    /// Reads the velocity subtype of a frame: 1 to 4, anything else is an error.
    pub fn try_from(frame: &RawFrame) -> (r: Result<Self, AdsbError>)
        ensures
            r == spec_subtype(subtype_field(frame@)),
    {
        proof {
            lemma2_to64();
        }
        let st = frame.extract(38, 40) as u8;
        match st {
            1 => Ok(Self::GroundSubSonic),
            2 => Ok(Self::GroundSuperSonic),
            3 => Ok(Self::AirSubSonic),
            4 => Ok(Self::AirSuperSonic),
            st => Err(AdsbError::InvalidVelocitySubType(st)),
        }
    }

    /// The scaling factor of speed magnitudes: the specification defines
    /// supersonic speeds as 4 times the encoded magnitude.
    fn multiplier(self) -> (r: i16)
        ensures
            r == spec_multiplier(self),
    {
        match self {
            Self::GroundSubSonic | Self::AirSubSonic => 1,
            Self::GroundSuperSonic | Self::AirSuperSonic => 4,
        }
    }
}

/// East-west component of an aircraft's ground velocity.
///
/// `East` is motion toward the east, `West` toward the west. `Unavailable`
/// means that the component is not available (all encoded bits are zero).
#[derive(Debug, Clone, Copy, PartialEq, Eq, Structural)]
pub enum EastWestVelocity {
    East(i16),
    West(i16),
    Unavailable,
}

impl EastWestVelocity {
    /// The text of the component, as its `Display` formats it: the speed,
    /// negative toward the west, or `Unavailable`.
    pub fn to_string(&self) -> (s: String)
        ensures
            s@ == match *self {
                EastWestVelocity::East(v) => speed_text(v, false),
                EastWestVelocity::West(v) => speed_text(v, true),
                EastWestVelocity::Unavailable => "Unavailable"@,
            },
    {
        match self {
            Self::East(v) => speed_string(*v, false),
            Self::West(v) => speed_string(*v, true),
            Self::Unavailable => unavailable_string(),
        }
    }

    /// The speed, whatever its direction; `None` when unavailable.
    pub fn value(&self) -> (r: Option<i16>)
        ensures
            r == match *self {
                EastWestVelocity::East(v) | EastWestVelocity::West(v) => Some(v),
                EastWestVelocity::Unavailable => None::<i16>,
            },
    {
        match self {
            Self::East(value) | Self::West(value) => Some(*value),
            Self::Unavailable => None,
        }
    }
}

/// North-south component of an aircraft's ground velocity.
///
/// `North` is motion toward the north, `South` toward the south.
/// `Unavailable` means that the component is not available (all encoded bits
/// are zero).
#[derive(Debug, Clone, Copy, PartialEq, Eq, Structural)]
pub enum NorthSouthVelocity {
    North(i16),
    South(i16),
    Unavailable,
}

impl NorthSouthVelocity {
    /// The text of the component, as its `Display` formats it: the speed,
    /// negative toward the south, or `Unavailable`.
    pub fn to_string(&self) -> (s: String)
        ensures
            s@ == match *self {
                NorthSouthVelocity::North(v) => speed_text(v, false),
                NorthSouthVelocity::South(v) => speed_text(v, true),
                NorthSouthVelocity::Unavailable => "Unavailable"@,
            },
    {
        match self {
            Self::North(v) => speed_string(*v, false),
            Self::South(v) => speed_string(*v, true),
            Self::Unavailable => unavailable_string(),
        }
    }

    /// The speed, whatever its direction; `None` when unavailable.
    pub fn value(&self) -> (r: Option<i16>)
        ensures
            r == match *self {
                NorthSouthVelocity::North(v) | NorthSouthVelocity::South(v) => Some(v),
                NorthSouthVelocity::Unavailable => None::<i16>,
            },
    {
        match self {
            Self::North(value) | Self::South(value) => Some(*value),
            Self::Unavailable => None,
        }
    }
}

/// Aircraft magnetic heading.
///
/// `Available` holds the encoded heading, in units of 360/1024 degrees
/// (0 to 1023). `Unavailable` means that the transmitter did not provide it.
#[derive(Debug, Clone, Copy, PartialEq, Eq, Structural)]
pub enum MagneticHeading {
    Available(u16),
    Unavailable,
}

impl MagneticHeading {
    /// The text of the heading, as its `Display` formats it: the heading in
    /// degrees with two decimals followed by ` degrees`, or `Unavailable`.
    pub fn to_string(&self) -> (s: String)
        ensures
            s@ == match *self {
                MagneticHeading::Available(units) => heading_text(units as int),
                MagneticHeading::Unavailable => "Unavailable"@,
            },
    {
        match self {
            Self::Available(units) => {
                let n: u32 = (*units as u32) * 4500;
                let q = n / 128;
                let rem = n % 128;
                let h = if rem > 64 || (rem == 64 && q % 2 == 1) {
                    q + 1
                } else {
                    q
                };
                proof {
                    lemma_hundredths_by_division(*units as int);
                }
                let mut s = String::new();
                push_digits(&mut s, h / 100);
                s.push('.');
                s.push((((h % 100) / 10) as u8 + 48u8) as char);
                s.push(((h % 10) as u8 + 48u8) as char);
                proof {
                    reveal_strlit(" degrees");
                }
                s.append(" degrees");
                assert(s@ =~= heading_text(*units as int));
                s
            },
            Self::Unavailable => unavailable_string(),
        }
    }
}

/// Airspeed, broadcast (subtypes 3 and 4) when the ground speed cannot be
/// obtained: indicated or true airspeed. `Unavailable` means that all 10 bits
/// of the field are zero.
#[derive(Debug, Clone, Copy, PartialEq, Eq, Structural)]
pub enum AirSpeed {
    IndicatedAirSpeed(i16),
    TrueAirSpeed(i16),
    Unavailable,
}

impl AirSpeed {
    /// The text of the airspeed, as its `Display` formats it: the speed
    /// followed by ` (IAS)` or ` (TAS)`, or `Unavailable`.
    pub fn to_string(&self) -> (s: String)
        ensures
            s@ == match *self {
                AirSpeed::IndicatedAirSpeed(v) => decimal_text(v as int) + " (IAS)"@,
                AirSpeed::TrueAirSpeed(v) => decimal_text(v as int) + " (TAS)"@,
                AirSpeed::Unavailable => "Unavailable"@,
            },
    {
        match self {
            Self::IndicatedAirSpeed(v) => {
                let mut s = speed_string(*v, false);
                proof {
                    reveal_strlit(" (IAS)");
                }
                s.append(" (IAS)");
                s
            },
            Self::TrueAirSpeed(v) => {
                let mut s = speed_string(*v, false);
                proof {
                    reveal_strlit(" (TAS)");
                }
                s.append(" (TAS)");
                s
            },
            Self::Unavailable => unavailable_string(),
        }
    }

    /// The airspeed, whatever its kind; `None` when unavailable.
    pub fn value(&self) -> (r: Option<i16>)
        ensures
            r == match *self {
                AirSpeed::IndicatedAirSpeed(v) | AirSpeed::TrueAirSpeed(v) => Some(v),
                AirSpeed::Unavailable => None::<i16>,
            },
    {
        match self {
            Self::IndicatedAirSpeed(value) | Self::TrueAirSpeed(value) => Some(*value),
            Self::Unavailable => None,
        }
    }
}

/// The velocity of an Airborne Velocity message: ground speed as east-west
/// and north-south components, or airspeed with the magnetic heading.
#[derive(Debug, Clone, Copy, PartialEq, Eq, Structural)]
pub enum Velocity {
    GroundSpeed { east_west: EastWestVelocity, north_south: NorthSouthVelocity },
    AirSpeed { heading: MagneticHeading, airspeed: AirSpeed },
}

impl Velocity {
    /// The ground velocity as eastward and northward speeds (west and south
    /// negative), when this is a ground speed with both components
    /// available; `None` for an airspeed or a missing component. The speed
    /// and track of the aircraft follow from this vector.
    pub fn ground_vector(&self) -> (r: Option<(i32, i32)>)
        ensures
            r == ground_vector_of(*self),
    {
        match self {
            Self::GroundSpeed { east_west, north_south } => {
                let east = match east_west {
                    EastWestVelocity::East(s) => *s as i32,
                    EastWestVelocity::West(s) => -(*s as i32),
                    EastWestVelocity::Unavailable => return None,
                };
                let north = match north_south {
                    NorthSouthVelocity::North(s) => *s as i32,
                    NorthSouthVelocity::South(s) => -(*s as i32),
                    NorthSouthVelocity::Unavailable => return None,
                };
                Some((east, north))
            },
            Self::AirSpeed { .. } => None,
        }
    }

    /// A speed field value `value` (1 to 1023) scaled by `multiplier` (1 or 4).
    fn decode_speed_value(value: i16, multiplier: i16) -> (r: i16)
        requires
            1 <= value < 1024,
            multiplier == 1 || multiplier == 4,
        ensures
            r == decoded_speed(value as int, multiplier as int),
    {
        multiplier * (value - 1)
    }

    /// Decodes the velocity of an airborne velocity frame.
    pub fn try_from(frame: &RawFrame) -> (r: Result<Self, AdsbError>)
        ensures
            r == spec_velocity(frame@),
    {
        let st = SubType::try_from(frame)?;
        proof {
            lemma2_to64();
        }
        match st {
            SubType::GroundSubSonic | SubType::GroundSuperSonic => {
                let multiplier = st.multiplier();
                let east_west_vector = frame.extract(47, 56) as i16;
                let east_west_speed = if east_west_vector == 0 {
                    EastWestVelocity::Unavailable
                } else if frame.extract(46, 46) == 0 {
                    EastWestVelocity::East(Self::decode_speed_value(east_west_vector, multiplier))
                } else {
                    EastWestVelocity::West(Self::decode_speed_value(east_west_vector, multiplier))
                };
                let north_south_vector = frame.extract(58, 67) as i16;
                let north_south_speed = if north_south_vector == 0 {
                    NorthSouthVelocity::Unavailable
                } else if frame.extract(57, 57) == 0 {
                    NorthSouthVelocity::North(
                        Self::decode_speed_value(north_south_vector, multiplier),
                    )
                } else {
                    NorthSouthVelocity::South(
                        Self::decode_speed_value(north_south_vector, multiplier),
                    )
                };
                Ok(Self::GroundSpeed { east_west: east_west_speed, north_south: north_south_speed })
            },
            SubType::AirSubSonic | SubType::AirSuperSonic => {
                let multiplier = st.multiplier();
                let heading = if frame.extract(46, 46) == 0 {
                    MagneticHeading::Unavailable
                } else {
                    MagneticHeading::Available(frame.extract(47, 56) as u16)
                };
                let airspeed = frame.extract(58, 67) as i16;
                let airspeed = if airspeed == 0 {
                    AirSpeed::Unavailable
                } else if frame.extract(57, 57) == 0 {
                    AirSpeed::IndicatedAirSpeed(Self::decode_speed_value(airspeed, multiplier))
                } else {
                    AirSpeed::TrueAirSpeed(Self::decode_speed_value(airspeed, multiplier))
                };
                Ok(Self::AirSpeed { heading, airspeed })
            },
        }
    }
}

/// Aircraft vertical rate in feet per minute.
///
/// `Ascending` and `Descending` hold the climb or descent rate;
/// `Unavailable` means that no vertical rate was transmitted.
#[derive(Debug, Clone, Copy, PartialEq, Eq, Structural)]
pub enum VerticalRate {
    Ascending(i16),
    Descending(i16),
    Unavailable,
}

impl VerticalRate {
    /// The text of the rate, as its `Display` formats it: the rate, negative
    /// when descending, or `Unavailable`.
    pub fn to_string(&self) -> (s: String)
        ensures
            s@ == match *self {
                VerticalRate::Ascending(v) => speed_text(v, false),
                VerticalRate::Descending(v) => speed_text(v, true),
                VerticalRate::Unavailable => "Unavailable"@,
            },
    {
        match self {
            Self::Ascending(v) => speed_string(*v, false),
            Self::Descending(v) => speed_string(*v, true),
            Self::Unavailable => unavailable_string(),
        }
    }

    /// Decodes the vertical rate (sign bit 69, magnitude bits 70 to 78).
    pub fn try_from(frame: &RawFrame) -> (r: Result<Self, AdsbError>)
        ensures
            r == Ok::<VerticalRate, AdsbError>(spec_vertical_rate(frame@)),
    {
        proof {
            lemma2_to64();
        }
        let vertical_rate = frame.extract(70, 78) as i16;
        if vertical_rate == 0 {
            Ok(Self::Unavailable)
        } else if frame.extract(69, 69) == 0 {
            Ok(Self::Ascending(Self::decode_rate(vertical_rate)))
        } else {
            Ok(Self::Descending(Self::decode_rate(vertical_rate)))
        }
    }

    /// `vertical_rate` (1 to 511) steps of 64 ft/min, less one.
    fn decode_rate(vertical_rate: i16) -> (r: i16)
        requires
            1 <= vertical_rate < 512,
        ensures
            r == 64 * (vertical_rate - 1),
    {
        FEET_PER_LSB * (vertical_rate - 1)
    }
}

/// Difference between geometric (GNSS) and barometric altitude, in feet.
///
/// `Above` means that the geometric altitude is above the barometric one,
/// `Below` that it is below; `Unavailable` that no difference was transmitted.
#[derive(Debug, Clone, Copy, PartialEq, Eq, Structural)]
pub enum GeometricAltitudeDelta {
    Above(i16),
    Below(i16),
    Unavailable,
}

impl GeometricAltitudeDelta {
    /// The text of the difference, as its `Display` formats it: the
    /// difference, negative below, or `Unavailable`.
    pub fn to_string(&self) -> (s: String)
        ensures
            s@ == match *self {
                GeometricAltitudeDelta::Above(v) => speed_text(v, false),
                GeometricAltitudeDelta::Below(v) => speed_text(v, true),
                GeometricAltitudeDelta::Unavailable => "Unavailable"@,
            },
    {
        match self {
            Self::Above(v) => speed_string(*v, false),
            Self::Below(v) => speed_string(*v, true),
            Self::Unavailable => unavailable_string(),
        }
    }

    /// Decodes the altitude difference (sign bit 81, magnitude bits 82 to 88).
    pub fn try_from(frame: &RawFrame) -> (r: Result<Self, AdsbError>)
        ensures
            r == Ok::<GeometricAltitudeDelta, AdsbError>(spec_geo_minus_baro(frame@)),
    {
        proof {
            lemma2_to64();
        }
        let geo_altitude_delta = frame.extract(82, 88) as i16;
        if geo_altitude_delta == 0 {
            Ok(Self::Unavailable)
        } else if frame.extract(81, 81) == 0 {
            Ok(Self::Above(Self::decode_altitude_delta(geo_altitude_delta)))
        } else {
            Ok(Self::Below(Self::decode_altitude_delta(geo_altitude_delta)))
        }
    }

    /// `value` (1 to 127) steps of 25 ft, less one.
    fn decode_altitude_delta(value: i16) -> (r: i16)
        requires
            1 <= value < 128,
        ensures
            r == (value - 1) * 25,
    {
        (value - 1) * GEO_ALTITUDE_DELTA_STEPS
    }
}

/// Decoded ADS-B Airborne Velocity message (type code 19): the aircraft's
/// ICAO address with its velocity, vertical rate, and the difference between
/// geometric and barometric altitude.
#[derive(Debug, Clone, Copy, PartialEq, Eq, Structural)]
pub struct AirborneVelocity {
    /// Aircraft ICAO address.
    pub icao: u32,
    /// Intent Change flag.
    pub intent_change: bool,
    /// IFR Capability flag.
    pub ifr_capability: bool,
    /// Aircraft velocity.
    pub velocity: Velocity,
    /// Aircraft climb/descent rate.
    pub vertical_rate: VerticalRate,
    /// Difference between geometric and barometric altitude.
    pub geo_minus_baro: GeometricAltitudeDelta,
}

impl AirborneVelocity {
    /// Decodes an airborne velocity frame.
    pub fn try_from(frame: &RawFrame) -> (r: Result<Self, AdsbError>)
        ensures
            r == spec_airborne_velocity(frame@),
    {
        let intent_change = frame.extract(41, 41) == 1;
        let ifr_capability = frame.extract(42, 42) == 1;
        let velocity = Velocity::try_from(frame)?;
        let vertical_rate = VerticalRate::try_from(frame)?;
        let geo_minus_baro = GeometricAltitudeDelta::try_from(frame)?;
        Ok(Self {
            icao: frame.icao(),
            intent_change,
            ifr_capability,
            velocity,
            vertical_rate,
            geo_minus_baro,
        })
    }
}

} // verus!
