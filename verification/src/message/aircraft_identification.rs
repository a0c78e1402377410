//! Decodes ADS-B Aircraft Identification and Category messages (type codes
//! 1 to 4): the callsign and the wake vortex category of an aircraft.
use crate::error::AdsbError;
use crate::frame::{field, RawFrame};
use crate::text::trim_trailing_char;
use vstd::arithmetic::power2::lemma2_to64;
use vstd::prelude::*;

verus! {

/// The number of characters of a callsign field.
pub const CALLSIGN_LENGTH: u8 = 8;

/// The character that the 6-bit code `index` stands for in a callsign: `A` to
/// `Z` for 1 to 26, a space for 32, `0` to `9` for 48 to 57, and `#` for the
/// codes that stand for no character.
pub open spec fn callsign_char(index: int) -> char {
    if 1 <= index <= 26 {
        ((index - 1) + 65) as char
    } else if index == 32 {
        ' '
    } else if 48 <= index <= 57 {
        index as char
    } else {
        '#'
    }
}

/// The callsign character table: the character of each 6-bit code is the
/// one at that position of
/// `#ABCDEFGHIJKLMNOPQRSTUVWXYZ##### ###############0123456789######`.
pub proof fn lemma_callsign_char_table(index: int)
    requires
        0 <= index < 64,
    ensures
        callsign_char(index)
            == "#ABCDEFGHIJKLMNOPQRSTUVWXYZ##### ###############0123456789######"@[index],
{
    reveal_strlit("#ABCDEFGHIJKLMNOPQRSTUVWXYZ##### ###############0123456789######");
}

/// The eight characters of the callsign field, the `k`-th from bits
/// `41 + 6k` to `46 + 6k`.
pub open spec fn callsign_chars(frame: int) -> Seq<char> {
    Seq::new(8, |k: int| callsign_char(field(frame, 41 + 6 * k, 46 + 6 * k)))
}

/// The callsign field is bits 41 to 88, eight 6-bit codes in order: bits 41
/// to 46 give the first character, 47 to 52 the second, and so on to bits 83
/// to 88 for the eighth.
pub proof fn lemma_callsign_char_positions(frame: int)
    ensures
        callsign_chars(frame).len() == 8,
        callsign_chars(frame)[0] == callsign_char(field(frame, 41, 46)),
        callsign_chars(frame)[1] == callsign_char(field(frame, 47, 52)),
        callsign_chars(frame)[2] == callsign_char(field(frame, 53, 58)),
        callsign_chars(frame)[3] == callsign_char(field(frame, 59, 64)),
        callsign_chars(frame)[4] == callsign_char(field(frame, 65, 70)),
        callsign_chars(frame)[5] == callsign_char(field(frame, 71, 76)),
        callsign_chars(frame)[6] == callsign_char(field(frame, 77, 82)),
        callsign_chars(frame)[7] == callsign_char(field(frame, 83, 88)),
{
}

/// The callsign of an identification frame: its eight characters without
/// trailing spaces.
pub open spec fn spec_callsign(frame: int) -> Seq<char> {
    trim_trailing_char(callsign_chars(frame), ' ')
}

/// `trim_trailing_char(s, c)` is a prefix of `s` that does not end with `c`.
proof fn lemma_trim_trailing_char(s: Seq<char>, c: char)
    ensures
        trim_trailing_char(s, c).len() <= s.len(),
        trim_trailing_char(s, c) == s.take(trim_trailing_char(s, c).len() as int),
        trim_trailing_char(s, c).len() > 0 ==> trim_trailing_char(s, c).last() != c,
        forall|i: int| trim_trailing_char(s, c).len() <= i < s.len() ==> #[trigger] s[i] == c,
    decreases s.len(),
{
    if s.len() > 0 && s.last() == c {
        lemma_trim_trailing_char(s.drop_last(), c);
        let t = trim_trailing_char(s.drop_last(), c);
        assert(s.drop_last().take(t.len() as int) =~= s.take(t.len() as int));
        assert forall|i: int| t.len() <= i < s.len() implies #[trigger] s[i] == c by {
            if i < s.len() - 1 {
                assert(s[i] == s.drop_last()[i]);
            }
        }
    } else {
        assert(s.take(s.len() as int) =~= s);
    }
}

/// A callsign has at most eight characters, taken in order from the
/// callsign field, and never ends with a space; the characters of the field
/// after it are all spaces.
pub proof fn lemma_callsign_shape(frame: int)
    ensures
        spec_callsign(frame).len() <= 8,
        spec_callsign(frame) == callsign_chars(frame).take(spec_callsign(frame).len() as int),
        spec_callsign(frame).len() > 0 ==> spec_callsign(frame).last() != ' ',
        forall|i: int|
            spec_callsign(frame).len() <= i < 8 ==> #[trigger] callsign_chars(frame)[i] == ' ',
{
    lemma_trim_trailing_char(callsign_chars(frame), ' ');
}

/// The category that the type code `tc` (1 to 4) and category field `ca` of an
/// identification message give.
pub open spec fn spec_category(tc: int, ca: int) -> AircraftCategory {
    let code = AircraftCategoryCode { type_code: tc as u8, category: ca as u8 };
    if tc == 1 {
        AircraftCategory::Reserved(code)
    } else if ca == 0 {
        AircraftCategory::NoCategoryInformation
    } else if tc == 2 {
        if ca == 1 {
            AircraftCategory::SurfaceEmergencyVehicle
        } else if ca == 3 {
            AircraftCategory::SurfaceServiceVehicle
        } else if ca >= 4 {
            AircraftCategory::GroundObstruction
        } else {
            AircraftCategory::UnknownCategory(code)
        }
    } else if tc == 3 {
        if ca == 1 {
            AircraftCategory::Glider
        } else if ca == 2 {
            AircraftCategory::LighterThanAir
        } else if ca == 3 {
            AircraftCategory::Parachutist
        } else if ca == 4 {
            AircraftCategory::Ultralight
        } else if ca == 5 {
            AircraftCategory::Reserved(code)
        } else if ca == 6 {
            AircraftCategory::UnmannedAerialVehicle
        } else {
            AircraftCategory::SpaceVehicle
        }
    } else if tc == 4 {
        if ca == 1 {
            AircraftCategory::Light
        } else if ca == 2 {
            AircraftCategory::Medium1
        } else if ca == 3 {
            AircraftCategory::Medium2
        } else if ca == 4 {
            AircraftCategory::HighVortex
        } else if ca == 5 {
            AircraftCategory::Heavy
        } else if ca == 6 {
            AircraftCategory::HighPerformance
        } else {
            AircraftCategory::Rotorcraft
        }
    } else {
        AircraftCategory::UnknownCategory(code)
    }
}

/// The category table, by type code, indexed by the category field (0 to 7):
/// type code 1 is reserved whatever the field; a field of 0 on type codes 2
/// to 4 carries no category information.
pub proof fn lemma_category_table(tc: int, ca: int)
    requires
        1 <= tc <= 4,
        0 <= ca < 8,
    ensures
        ({
            let code = AircraftCategoryCode { type_code: tc as u8, category: ca as u8 };
            let table = if tc == 1 {
                Seq::new(8, |i: int| AircraftCategory::Reserved(code))
            } else if tc == 2 {
                seq![
                    AircraftCategory::NoCategoryInformation,
                    AircraftCategory::SurfaceEmergencyVehicle,
                    AircraftCategory::UnknownCategory(code),
                    AircraftCategory::SurfaceServiceVehicle,
                    AircraftCategory::GroundObstruction,
                    AircraftCategory::GroundObstruction,
                    AircraftCategory::GroundObstruction,
                    AircraftCategory::GroundObstruction,
                ]
            } else if tc == 3 {
                seq![
                    AircraftCategory::NoCategoryInformation,
                    AircraftCategory::Glider,
                    AircraftCategory::LighterThanAir,
                    AircraftCategory::Parachutist,
                    AircraftCategory::Ultralight,
                    AircraftCategory::Reserved(code),
                    AircraftCategory::UnmannedAerialVehicle,
                    AircraftCategory::SpaceVehicle,
                ]
            } else {
                seq![
                    AircraftCategory::NoCategoryInformation,
                    AircraftCategory::Light,
                    AircraftCategory::Medium1,
                    AircraftCategory::Medium2,
                    AircraftCategory::HighVortex,
                    AircraftCategory::Heavy,
                    AircraftCategory::HighPerformance,
                    AircraftCategory::Rotorcraft,
                ]
            };
            spec_category(tc, ca) == table[ca]
        }),
{
}

/// Whether `id` is the identification that the frame `frame` (of type code 1
/// to 4) carries.
pub open spec fn is_identification_of(frame: int, id: AircraftIdentification) -> bool {
    &&& id.icao == field(frame, 9, 32)
    &&& id.callsign@ == spec_callsign(frame)
    &&& id.category == spec_category(field(frame, 33, 37), field(frame, 38, 40))
}

/// The raw type code and category field of an aircraft category.
#[derive(Debug, Clone, Copy, PartialEq, Eq, Structural)]
pub struct AircraftCategoryCode {
    /// The type code (1 to 4).
    pub type_code: u8,
    /// The category field (bits 38 to 40).
    pub category: u8,
}

/// The wake vortex category of an aircraft, by type code and category field.
#[derive(Debug, Clone, Copy, PartialEq, Eq, Structural)]
pub enum AircraftCategory {
    Reserved(AircraftCategoryCode),
    UnknownCategory(AircraftCategoryCode),
    NoCategoryInformation,
    // type code 2
    SurfaceEmergencyVehicle,
    SurfaceServiceVehicle,
    GroundObstruction,
    // type code 3
    Glider,
    LighterThanAir,
    Parachutist,
    Ultralight,
    UnmannedAerialVehicle,
    SpaceVehicle,
    // type code 4
    Light,
    Medium1,
    Medium2,
    HighVortex,
    Heavy,
    HighPerformance,
    Rotorcraft,
}

impl AircraftCategory {
    /// The category of type code `tc` and category field `ca`.
    fn decode(tc: u8, ca: u8) -> (r: Self)
        ensures
            r == spec_category(tc as int, ca as int),
    {
        let code = AircraftCategoryCode { type_code: tc, category: ca };
        if tc == 1 {
            Self::Reserved(code)
        } else if ca == 0 {
            Self::NoCategoryInformation
        } else if tc == 2 {
            if ca == 1 {
                Self::SurfaceEmergencyVehicle
            } else if ca == 3 {
                Self::SurfaceServiceVehicle
            } else if ca >= 4 {
                Self::GroundObstruction
            } else {
                Self::UnknownCategory(code)
            }
        } else if tc == 3 {
            match ca {
                1 => Self::Glider,
                2 => Self::LighterThanAir,
                3 => Self::Parachutist,
                4 => Self::Ultralight,
                5 => Self::Reserved(code),
                6 => Self::UnmannedAerialVehicle,
                _ => Self::SpaceVehicle,
            }
        } else if tc == 4 {
            match ca {
                1 => Self::Light,
                2 => Self::Medium1,
                3 => Self::Medium2,
                4 => Self::HighVortex,
                5 => Self::Heavy,
                6 => Self::HighPerformance,
                _ => Self::Rotorcraft,
            }
        } else {
            Self::UnknownCategory(code)
        }
    }
}

/// The character of the 6-bit callsign code `index`.
fn decode_callsign_char(index: u8) -> (c: char)
    requires
        index < 64,
    ensures
        c == callsign_char(index as int),
{
    if 1 <= index && index <= 26 {
        ((index - 1) + 65u8) as char
    } else if index == 32 {
        ' '
    } else if 48 <= index && index <= 57 {
        index as char
    } else {
        '#'
    }
}

/// Decodes the callsign of an identification frame, without trailing spaces.
fn decode_callsign(frame: &RawFrame) -> (s: String)
    ensures
        s@ == spec_callsign(frame@),
{
    let mut chars: Vec<char> = Vec::new();
    let mut k: u8 = 0;
    while k < CALLSIGN_LENGTH
        invariant
            k <= 8,
            chars@ == callsign_chars(frame@).take(k as int),
        decreases 8 - k,
    {
        proof {
            lemma2_to64();
        }
        let index = frame.extract(41 + 6 * k, 46 + 6 * k) as u8;
        chars.push(decode_callsign_char(index));
        k = k + 1;
        assert(chars@ =~= callsign_chars(frame@).take(k as int));
    }
    assert(chars@ =~= callsign_chars(frame@));
    let mut len = chars.len();
    while len > 0 && chars[len - 1] == ' '
        invariant
            len <= chars@.len(),
            trim_trailing_char(chars@.take(len as int), ' ') == spec_callsign(frame@),
        decreases len,
    {
        assert(chars@.take(len as int).drop_last() =~= chars@.take(len - 1));
        len = len - 1;
    }
    let mut callsign = String::new();
    let mut i: usize = 0;
    while i < len
        invariant
            i <= len <= chars@.len(),
            callsign@ == chars@.take(i as int),
        decreases len - i,
    {
        callsign.push(chars[i]);
        i = i + 1;
        assert(callsign@ =~= chars@.take(i as int));
    }
    assert(callsign@ =~= chars@.take(len as int));
    callsign
}

/// Decoded ADS-B Aircraft Identification message: the aircraft's ICAO
/// address, callsign and category.
#[derive(Debug)]
pub struct AircraftIdentification {
    /// Aircraft ICAO address.
    pub icao: u32,
    /// Callsign, without trailing spaces.
    pub callsign: String,
    /// Wake vortex category.
    pub category: AircraftCategory,
}

impl AircraftIdentification {
    /// Decodes an identification frame (type codes 1 to 4).
    pub fn try_from(frame: &RawFrame) -> (r: Result<Self, AdsbError>)
        ensures
            ({
                let tc = field(frame@, 33, 37);
                if 1 <= tc <= 4 {
                    r matches Ok(id) && is_identification_of(frame@, id)
                } else {
                    r matches Err(AdsbError::UnsupportedTypeCode(t)) && t == tc
                }
            }),
    {
        let tc = frame.type_code();
        if tc < 1 || tc > 4 {
            return Err(AdsbError::UnsupportedTypeCode(tc));
        }
        proof {
            lemma2_to64();
        }
        let ca = frame.extract(38, 40) as u8;
        Ok(Self {
            icao: frame.icao(),
            callsign: decode_callsign(frame),
            category: AircraftCategory::decode(tc, ca),
        })
    }
}

} // verus!
