//! Decoding of ADS-B airborne position messages: barometric and geometric
//! altitude, and the Compact Position Reporting (CPR) fields.
//!
//! Global CPR decoding pairs an even and an odd message of one aircraft; the
//! zone indices of that decoding are computed here, exactly, in integers. The
//! reception time of each message, in milliseconds, selects the position of
//! the most recent one.
use crate::error::AdsbError;
use crate::frame::{field, RawFrame};
use vstd::arithmetic::power2::lemma2_to64;
use vstd::prelude::*;

verus! {

/// Feet per step of a Q-bit barometric altitude.
pub const BAROMETRIC_ALTITUDE_STEP: i32 = 25;

/// Feet per step of the coarse (500 ft) Gillham altitude.
pub const COARSE_ALTITUDE_STEP: i32 = 500;

/// The altitude, in feet, that a Q-bit code of zero steps stands for, negated.
pub const ALTITUDE_OFFSET_FT: i32 = 1000;

/// Whether a type code is that of an airborne position with barometric altitude.
pub open spec fn is_barometric_type_code(tc: int) -> bool {
    9 <= tc <= 18
}

/// Whether a type code is that of an airborne position with geometric altitude.
pub open spec fn is_geometric_type_code(tc: int) -> bool {
    20 <= tc <= 22
}

/// The altitude in feet of a Q-bit code: the 11 bits left when bit 4 (the Q
/// bit) is dropped, in 25 ft steps above -1000 ft.
pub open spec fn qbit_altitude(code: int) -> int {
    25 * ((code / 32) % 128 * 16 + code % 16) - 1000
}

/// The 500 ft part of a Gillham code, still Gray coded: the bits
/// `D2 D4 A1 A2 A4 B1 B2 B4` of the 12-bit field
/// `C1 A1 C2 A2 C4 A4 B1 D1 B2 D2 B4 D4` (most significant first).
pub open spec fn gillham_gray500(code: i32) -> i32 {
    ((code >> 2) & 1) << 7 | (code & 1) << 6 | ((code >> 10) & 1) << 5 | ((code >> 8) & 1) << 4
        | ((code >> 6) & 1) << 3 | ((code >> 5) & 1) << 2 | ((code >> 3) & 1) << 1 | ((code
        >> 1) & 1)
}

/// The 100 ft part of a Gillham code: the bits `C1 C2 C4`.
pub open spec fn gillham_code100(code: i32) -> i32 {
    ((code >> 11) & 1) << 2 | ((code >> 9) & 1) << 1 | ((code >> 7) & 1)
}

/// The Gray code of `b`.
pub open spec fn gray_encode(b: i32) -> i32 {
    b ^ (b >> 1)
}

/// The number whose 8-bit Gray code is `g`: each bit is the exclusive or of the
/// bits of `g` at and above it.
pub open spec fn gray_decode(g: i32) -> i32 {
    g ^ (g >> 1) ^ (g >> 2) ^ (g >> 3) ^ (g >> 4) ^ (g >> 5) ^ (g >> 6) ^ (g >> 7)
}

/// The 100 ft adjustment that the `C` bits add, given the parity of the
/// decoded 500 ft count.
pub open spec fn fine_adjustment(parity: int, c: int) -> Option<int> {
    if parity == 0 && c == 1 {
        Some(100)
    } else if parity == 0 && c == 3 {
        Some(300)
    } else if parity == 0 && c == 5 {
        Some(500)
    } else if parity == 1 && c == 0 {
        Some(600)
    } else if parity == 1 && c == 2 {
        Some(0)
    } else if parity == 1 && c == 4 {
        Some(200)
    } else if parity == 1 && c == 6 {
        Some(400)
    } else {
        None
    }
}

/// The altitude in feet of the 12-bit Gillham code `code`, if it is a valid one.
pub open spec fn gillham_altitude(code: i32) -> Option<int> {
    let b500 = gray_decode(gillham_gray500(code));
    match fine_adjustment((b500 as int) % 2, gillham_code100(code) as int) {
        Some(fine) => Some((b500 - 2) * 500 + fine),
        None => None,
    }
}

/// Whether `r` is what decoding the altitude of the frame `frame` gives: type
/// codes 9 to 18 carry a barometric altitude (a Q-bit or a Gillham code), 20 to
/// 22 a geometric one; a zero altitude field means that none is available.
pub open spec fn decodes_altitude(frame: int, r: Result<Altitude, AdsbError>) -> bool {
    let tc = field(frame, 33, 37);
    let code = field(frame, 41, 52);
    if is_barometric_type_code(tc) {
        if code == 0 {
            r matches Ok(Altitude::Unavailable)
        } else if field(frame, 48, 48) == 1 {
            r matches Ok(Altitude::Barometric(ft)) && ft@ == qbit_altitude(code)
        } else {
            match gillham_altitude(code as i32) {
                Some(alt) => r matches Ok(Altitude::Barometric(ft)) && ft@ == alt,
                None => r matches Err(AdsbError::InvalidGillhamCode),
            }
        }
    } else if is_geometric_type_code(tc) {
        if code == 0 {
            r matches Ok(Altitude::Unavailable)
        } else {
            r matches Ok(Altitude::Geometric(m)) && m@ == code
        }
    } else {
        r matches Err(AdsbError::UnsupportedTypeCode(t)) && t == tc
    }
}

/// Gray coding is undone by Gray decoding, both ways, on 8-bit values.
pub proof fn lemma_gray_code_round_trip(x: i32)
    requires
        0 <= x < 256,
    ensures
        0 <= gray_decode(x) < 256,
        gray_encode(gray_decode(x)) == x,
        gray_decode(gray_encode(x)) == x,
{
    assert(0 <= gray_decode(x) < 256 && gray_encode(gray_decode(x)) == x && gray_decode(
        gray_encode(x),
    ) == x) by (bit_vector)
        requires
            0 <= x < 256,
    ;
}

/// Gray decoding inverts the reflected Gray code `b ^ (b >> 1)` on 8 bits:
/// the decoded value, coded again, gives back the code, and the code of any
/// 8-bit value decodes to it.
pub proof fn lemma_gray_decode_inverts_xor_shift(g: i32, b: i32)
    requires
        0 <= g < 256,
        0 <= b < 256,
    ensures
        0 <= gray_decode(g) < 256,
        gray_decode(g) ^ (gray_decode(g) >> 1) == g,
        gray_decode(b ^ (b >> 1)) == b,
{
    assert(0 <= gray_decode(g) < 256 && gray_decode(g) ^ (gray_decode(g) >> 1) == g) by (bit_vector)
        requires
            0 <= g < 256,
    ;
    assert(gray_decode(b ^ (b >> 1)) == b) by (bit_vector)
        requires
            0 <= b < 256,
    ;
}

/// Where each bit of the 12-bit altitude field
/// `C1 A1 C2 A2 C4 A4 B1 D1 B2 D2 B4 D4` (bit 11 first) goes: the 500 ft code
/// is, from its bit 7 down to its bit 0, the field's bits 2, 0, 10, 8, 6, 5,
/// 3, 1 (`D2 D4 A1 A2 A4 B1 B2 B4`), and the 100 ft code, from its bit 2 down,
/// the field's bits 11, 9, 7 (`C1 C2 C4`). No other bit of the field is used.
pub proof fn lemma_gillham_bit_positions(code: i32)
    requires
        0 <= code < 4096,
    ensures
        0 <= gillham_gray500(code) < 256,
        0 <= gillham_code100(code) < 8,
        (gillham_gray500(code) >> 7) & 1 == (code >> 2) & 1,
        (gillham_gray500(code) >> 6) & 1 == code & 1,
        (gillham_gray500(code) >> 5) & 1 == (code >> 10) & 1,
        (gillham_gray500(code) >> 4) & 1 == (code >> 8) & 1,
        (gillham_gray500(code) >> 3) & 1 == (code >> 6) & 1,
        (gillham_gray500(code) >> 2) & 1 == (code >> 5) & 1,
        (gillham_gray500(code) >> 1) & 1 == (code >> 3) & 1,
        gillham_gray500(code) & 1 == (code >> 1) & 1,
        (gillham_code100(code) >> 2) & 1 == (code >> 11) & 1,
        (gillham_code100(code) >> 1) & 1 == (code >> 9) & 1,
        gillham_code100(code) & 1 == (code >> 7) & 1,
{
    let g = gillham_gray500(code);
    let c = gillham_code100(code);
    assert(0 <= g < 256 && (g >> 7) & 1 == (code >> 2) & 1 && (g >> 6) & 1 == code & 1 && (g >> 5)
        & 1 == (code >> 10) & 1 && (g >> 4) & 1 == (code >> 8) & 1 && (g >> 3) & 1 == (code >> 6)
        & 1 && (g >> 2) & 1 == (code >> 5) & 1 && (g >> 1) & 1 == (code >> 3) & 1 && g & 1 == (
    code >> 1) & 1) by (bit_vector)
        requires
            0 <= code < 4096,
            g == ((code >> 2) & 1) << 7 | (code & 1) << 6 | ((code >> 10) & 1) << 5 | ((code >> 8)
                & 1) << 4 | ((code >> 6) & 1) << 3 | ((code >> 5) & 1) << 2 | ((code >> 3) & 1) << 1
                | ((code >> 1) & 1),
    ;
    assert(0 <= c < 8 && (c >> 2) & 1 == (code >> 11) & 1 && (c >> 1) & 1 == (code >> 9) & 1 && c
        & 1 == (code >> 7) & 1) by (bit_vector)
        requires
            0 <= code < 4096,
            c == ((code >> 11) & 1) << 2 | ((code >> 9) & 1) << 1 | ((code >> 7) & 1),
    ;
}

/// The 100 ft adjustment: with an even 500 ft count, the odd codes 1, 3, 5
/// add 100 times the code; with an odd count, the even codes 0, 2, 4, 6 add
/// `100 c + 600` modulo 800 (600, 0, 200, 400). No other pair is valid.
pub proof fn lemma_fine_adjustment_values(parity: int, c: int)
    requires
        0 <= parity < 2,
        0 <= c < 8,
    ensures
        fine_adjustment(parity, c) is Some <==> (parity == 0 && c % 2 == 1 && c <= 5) || (parity
            == 1 && c % 2 == 0),
        parity == 0 && fine_adjustment(parity, c) is Some ==> fine_adjustment(parity, c)->0 == 100
            * c,
        parity == 1 && fine_adjustment(parity, c) is Some ==> fine_adjustment(parity, c)->0 == (100
            * c + 600) % 800,
{
}

/// A Q-bit altitude is 25 ft times the 11-bit number that the field's bits
/// other than the Q bit (bit 4) make, taken in order, less 1000 ft.
pub proof fn lemma_qbit_altitude_value(high: int, q: int, low: int)
    requires
        0 <= high < 128,
        0 <= q < 2,
        0 <= low < 16,
    ensures
        qbit_altitude(high * 32 + q * 16 + low) == 25 * (high * 16 + low) - 1000,
{
    let code = high * 32 + q * 16 + low;
    vstd::arithmetic::div_mod::lemma_fundamental_div_mod_converse(code, 32, high, q * 16 + low);
    vstd::arithmetic::div_mod::lemma_small_mod(high as nat, 128);
    vstd::arithmetic::div_mod::lemma_fundamental_div_mod_converse(code, 16, high * 2 + q, low);
}

/// A Gillham altitude is 500 ft times the number `b` whose Gray code is the
/// 500 ft code, less 1000 ft, plus the 100 ft adjustment that the `C` bits
/// and the parity of `b` give; it is valid exactly when that adjustment is.
pub proof fn lemma_gillham_altitude_value(code: i32, b: i32)
    requires
        0 <= code < 4096,
        0 <= b < 256,
        b ^ (b >> 1) == gillham_gray500(code),
    ensures
        gillham_altitude(code) is Some <==> fine_adjustment((b as int) % 2, gillham_code100(code) as int) is Some,
        gillham_altitude(code) is Some ==> gillham_altitude(code)->0 == 500 * b - 1000
            + fine_adjustment((b as int) % 2, gillham_code100(code) as int)->0,
{
    lemma_gillham_bit_positions(code);
    lemma_gray_decode_inverts_xor_shift(gillham_gray500(code), b);
}

/// The altitude of a frame, read from its bits: type codes 9 to 18 carry a
/// barometric altitude in feet, 20 to 22 a geometric one in meters, both in
/// the 12-bit field of bits 41 to 52, where zero means none. With the Q bit
/// (bit 48) set, the altitude is 25 ft times the number that bits 41 to 47
/// and 49 to 52 make, less 1000 ft; a geometric altitude is the field itself.
pub proof fn lemma_altitude_reads_fields(frame: int, r: Result<Altitude, AdsbError>)
    requires
        0 <= frame,
        decodes_altitude(frame, r),
    ensures
        r is Err <==> (!(9 <= field(frame, 33, 37) <= 18) && !(20 <= field(frame, 33, 37) <= 22))
            || (9 <= field(frame, 33, 37) <= 18 && field(frame, 41, 52) != 0 && field(frame, 48, 48)
            == 0 && gillham_altitude(field(frame, 41, 52) as i32) is None),
        r is Ok && field(frame, 41, 52) == 0 ==> r == Ok::<Altitude, AdsbError>(Altitude::Unavailable),
        9 <= field(frame, 33, 37) <= 18 && field(frame, 41, 52) != 0 && field(frame, 48, 48) == 1
            ==> (r matches Ok(Altitude::Barometric(ft)) && ft@ == 25 * (field(frame, 41, 47) * 16
            + field(frame, 49, 52)) - 1000),
        20 <= field(frame, 33, 37) <= 22 && field(frame, 41, 52) != 0 ==> (r matches Ok(
            Altitude::Geometric(m),
        ) && m@ == field(frame, 41, 52)),
{
    vstd::arithmetic::power2::lemma2_to64();
    crate::frame::lemma_fields_concatenate(frame, 41, 47, 52);
    crate::frame::lemma_fields_concatenate(frame, 48, 48, 52);
    let high = field(frame, 41, 47);
    let q = field(frame, 48, 48);
    let low = field(frame, 49, 52);
    assert(0 <= high < 128 && 0 <= q < 2 && 0 <= low < 16);
    assert(field(frame, 41, 52) == high * 32 + q * 16 + low);
    lemma_qbit_altitude_value(high, q, low);
}

/// A Q-bit altitude is a whole number of 25 ft steps, from -1000 ft to
/// 50175 ft.
pub proof fn lemma_qbit_altitude_steps(code: int)
    requires
        0 <= code < 4096,
    ensures
        qbit_altitude(code) % 25 == 0,
        -1000 <= qbit_altitude(code) <= 50175,
{
}

/// A valid Gillham altitude is a whole number of 100 ft steps (500 ft coarse
/// steps with a 100 ft fine adjustment), from -1000 ft to 127100 ft.
pub proof fn lemma_gillham_altitude_steps(code: i32)
    requires
        0 <= code < 4096,
        gillham_altitude(code) is Some,
    ensures
        gillham_altitude(code)->0 % 100 == 0,
        -1000 <= gillham_altitude(code)->0 <= 127100,
{
    let g = gillham_gray500(code);
    assert(0 <= g < 256) by (bit_vector)
        requires
            0 <= code < 4096,
            g == gillham_gray500(code),
    ;
    lemma_gray_code_round_trip(g);
}

/// An altitude in feet is stored as given, unscaled: its value is the
/// number it was made of.
pub proof fn lemma_feet_unscaled(value: i32)
    ensures
        Feet::of(value)@ == value,
{
}

/// An altitude in meters is stored as given, unscaled: its value is the
/// number it was made of.
pub proof fn lemma_meters_unscaled(value: i32)
    ensures
        Meters::of(value)@ == value,
{
}

/// The Gillham reordering drops the Q bit (bit 4, `D1`): codes that differ
/// only there give the same 500 ft code and the same 100 ft code, which fit
/// in 8 and 3 bits.
pub proof fn lemma_gillham_ignores_qbit(code: i32)
    requires
        0 <= code < 4096,
    ensures
        gillham_gray500(code) == gillham_gray500(code & 0xFEF),
        gillham_code100(code) == gillham_code100(code & 0xFEF),
        0 <= gillham_gray500(code) < 256,
        0 <= gillham_code100(code) < 8,
{
    assert(gillham_gray500(code) == gillham_gray500(code & 0xFEF) && gillham_code100(code)
        == gillham_code100(code & 0xFEF) && 0 <= gillham_gray500(code) < 256 && 0
        <= gillham_code100(code) < 8) by (bit_vector)
        requires
            0 <= code < 4096,
    ;
}

/// Altitude expressed in feet.
#[derive(Debug)]
pub struct Feet(i32);

impl View for Feet {
    type V = int;

    closed spec fn view(&self) -> int {
        self.0 as int
    }
}

impl Feet {
    /// The altitude of `value` feet.
    pub closed spec fn of(value: i32) -> Feet {
        Feet(value)
    }

    /// An altitude of `value` feet.
    pub fn new(value: i32) -> (r: Self)
        ensures
            r == Feet::of(value),
    {
        Self(value)
    }

    /// Returns the altitude in feet.
    pub fn value(self) -> (r: i32)
        ensures
            r == self@,
    {
        self.0
    }
}

/// Altitude expressed in meters.
#[derive(Debug)]
pub struct Meters(i32);

impl View for Meters {
    type V = int;

    closed spec fn view(&self) -> int {
        self.0 as int
    }
}

impl Meters {
    /// The altitude of `value` meters.
    pub closed spec fn of(value: i32) -> Meters {
        Meters(value)
    }

    /// An altitude of `value` meters.
    pub fn new(value: i32) -> (r: Self)
        ensures
            r == Meters::of(value),
    {
        Self(value)
    }

    /// Returns the altitude in meters.
    pub fn value(self) -> (r: i32)
        ensures
            r == self@,
    {
        self.0
    }
}

/// Altitude decoded from an ADS-B airborne position message.
///
/// Barometric altitude is reported in feet, geometric altitude in meters.
/// `Unavailable` means that the encoded altitude field holds no value.
#[derive(Debug)]
pub enum Altitude {
    /// Barometric altitude, from the Q-bit representation or a Gillham code.
    Barometric(Feet),
    /// Geometric altitude reported by the GNSS-related message types.
    Geometric(Meters),
    /// The message does not contain a usable altitude.
    Unavailable,
}

impl Altitude {
    /// `value` steps of 25 ft above -1000 ft.
    fn decode_barometric_altitude(value: i32) -> (r: Feet)
        requires
            0 <= value < 2048,
        ensures
            r@ == value * 25 - 1000,
    {
        Feet::new(value * BAROMETRIC_ALTITUDE_STEP - ALTITUDE_OFFSET_FT)
    }

    /// Drops the Q bit (bit 4) of the 12-bit altitude code.
    fn remove_qbit(value: i32) -> (r: i32)
        requires
            0 <= value < 4096,
        ensures
            r == (value / 32) % 128 * 16 + value % 16,
            0 <= r < 2048,
    {
        let right_bits = value & 0x0F;
        let left_bits = (value >> 5) & 0x7F;
        proof {
            assert(right_bits == value % 16) by (bit_vector)
                requires
                    right_bits == value & 0x0F,
                    0 <= value < 4096,
            ;
            assert(left_bits == (value / 32) % 128) by (bit_vector)
                requires
                    left_bits == (value >> 5) & 0x7F,
                    0 <= value < 4096,
            ;
            assert((left_bits << 4) | right_bits == left_bits * 16 + right_bits) by (bit_vector)
                requires
                    0 <= left_bits < 128,
                    0 <= right_bits < 16,
            ;
        }
        (left_bits << 4) | (right_bits)
    }

    /// Reorders the 12-bit altitude code
    /// `C1 A1 C2 A2 C4 A4 B1 D1 B2 D2 B4 D4` into the Gillham bits
    /// `D2 D4 A1 A2 A4 B1 B2 B4` (the 500 ft code) and `C1 C2 C4` (the 100 ft
    /// code). The Q bit `D1` is dropped.
    pub fn reorder_gillham_bits(bits: i32) -> (r: (i32, i32))
        requires
            0 <= bits < 4096,
        ensures
            r.0 == gillham_gray500(bits),
            r.1 == gillham_code100(bits),
            0 <= r.0 < 256,
            0 <= r.1 < 8,
    {
        let reordered = bits >> 7 & 0x01  // C4
         | bits >> 8 & 0x02  // C2
         | bits >> 9 & 0x04  // C1
         | bits << 2 & 0x08  // B4
         | bits << 1 & 0x10  // B2
         | bits & 0x20  // B1
         | bits & 0x40  // A4
         | bits >> 1 & 0x80  // A2
         | bits >> 2 & 0x100  // A1
         | bits << 9 & 0x200  // D4
         | bits << 8 & 0x400;  // D2
        let (gc500, gc100) = ((reordered >> 3) & 0xFF, reordered & 0x07);
        proof {
            assert(gc500 == gillham_gray500(bits) && gc100 == gillham_code100(bits) && 0 <= gc500
                < 256 && 0 <= gc100 < 8) by (bit_vector)
                requires
                    0 <= bits < 4096,
                    reordered == bits >> 7 & 0x01 | bits >> 8 & 0x02 | bits >> 9 & 0x04 | bits << 2
                        & 0x08 | bits << 1 & 0x10 | bits & 0x20 | bits & 0x40 | bits >> 1 & 0x80
                        | bits >> 2 & 0x100 | bits << 9 & 0x200 | bits << 8 & 0x400,
                    gc500 == (reordered >> 3) & 0xFF,
                    gc100 == reordered & 0x07,
            ;
        }
        (gc500, gc100)
    }

    /// Decodes an 8-bit Gray code.
    pub fn gray_to_binary(value: i32) -> (r: i32)
        requires
            0 <= value < 256,
        ensures
            r == gray_decode(value),
            gray_encode(r) == value,
            0 <= r < 256,
    {
        let mut value = value;
        let ghost g = value;
        value ^= value >> 1;
        value ^= value >> 2;
        value ^= value >> 4;
        proof {
            let v1 = g ^ (g >> 1);
            let v2 = v1 ^ (v1 >> 2);
            assert(value == v2 ^ (v2 >> 4));
            assert(v2 ^ (v2 >> 4) == gray_decode(g) && gray_encode(gray_decode(g)) == g && 0
                <= gray_decode(g) < 256) by (bit_vector)
                requires
                    0 <= g < 256,
                    v1 == g ^ (g >> 1),
                    v2 == v1 ^ (v1 >> 2),
            ;
        }
        value
    }

    /// The coarse altitude of the decoded 500 ft count.
    fn decode_coarse_altitude(b500: i32) -> (r: i32)
        requires
            0 <= b500 < 256,
        ensures
            r == (b500 - 2) * 500,
    {
        (b500 - 2) * COARSE_ALTITUDE_STEP
    }

    /// The 100 ft adjustment of the `C` bits, by the parity of the 500 ft count.
    fn decode_fine_adjustment(b500: i32, gc100: i32) -> (r: Result<i32, AdsbError>)
        ensures
            match fine_adjustment((b500 as int) % 2, gc100 as int) {
                Some(f) => r == Ok::<i32, AdsbError>(f as i32),
                None => r == Err::<i32, AdsbError>(AdsbError::InvalidGillhamCode),
            },
    {
        let parity = b500 & 1;
        proof {
            assert(parity == b500 % 2) by (bit_vector)
                requires
                    parity == b500 & 1,
            ;
        }
        match (parity, gc100) {
            (0, 0b001) => Ok(100),
            (0, 0b011) => Ok(300),
            (0, 0b101) => Ok(500),
            (1, 0b000) => Ok(600),
            (1, 0b010) => Ok(0),
            (1, 0b100) => Ok(200),
            (1, 0b110) => Ok(400),
            _ => Err(AdsbError::InvalidGillhamCode),
        }
    }

    /// Decodes the altitude of an airborne position frame.
    ///
    /// Type codes 9 to 18 carry a barometric altitude, 20 to 22 a geometric
    /// one; a zero altitude field means that none is available.
    pub fn try_from(frame: &RawFrame) -> (r: Result<Self, AdsbError>)
        ensures
            decodes_altitude(frame@, r),
    {
        let tc = frame.type_code();
        proof {
            lemma2_to64();
        }
        if 9 <= tc && tc <= 18 {
            let encoded_altitude = frame.extract(41, 52) as i32;
            if encoded_altitude == 0 {
                Ok(Self::Unavailable)
            } else if frame.extract(48, 48) == 1 {
                let n = Self::remove_qbit(encoded_altitude);
                Ok(Self::Barometric(Self::decode_barometric_altitude(n)))
            } else {
                let (gc500, gc100) = Self::reorder_gillham_bits(encoded_altitude);
                let b500 = Self::gray_to_binary(gc500);
                let coarse_altitude = Self::decode_coarse_altitude(b500);
                let fine_adjustment = Self::decode_fine_adjustment(b500, gc100)?;
                Ok(Self::Barometric(Feet::new(coarse_altitude + fine_adjustment)))
            }
        } else if 20 <= tc && tc <= 22 {
            let encoded_altitude = frame.extract(41, 52) as i32;
            if encoded_altitude == 0 {
                Ok(Self::Unavailable)
            } else {
                Ok(Self::Geometric(Meters::new(encoded_altitude)))
            }
        } else {
            Err(AdsbError::UnsupportedTypeCode(tc))
        }
    }
}


/// The CPR fields of an airborne position message, and its reception time in
/// milliseconds.
pub ghost struct CprFields {
    pub lat_cpr: int,
    pub lon_cpr: int,
    pub time: int,
}

/// CPR data extracted from an odd-format airborne position message.
///
/// The even and odd messages are required as a pair for global CPR
/// position decoding.
#[derive(Debug)]
pub struct Odd {
    lat_cpr: u32,
    lon_cpr: u32,
    time: u64,
}

/// CPR data extracted from an even-format airborne position message.
///
/// The even and odd messages are required as a pair for global CPR
/// position decoding.
#[derive(Debug)]
pub struct Even {
    lat_cpr: u32,
    lon_cpr: u32,
    time: u64,
}

impl View for Odd {
    type V = CprFields;

    closed spec fn view(&self) -> CprFields {
        CprFields { lat_cpr: self.lat_cpr as int, lon_cpr: self.lon_cpr as int, time: self.time as int }
    }
}

impl View for Even {
    type V = CprFields;

    closed spec fn view(&self) -> CprFields {
        CprFields { lat_cpr: self.lat_cpr as int, lon_cpr: self.lon_cpr as int, time: self.time as int }
    }
}

impl Odd {
    /// The encoded latitude and longitude are 17-bit values.
    #[verifier::type_invariant]
    closed spec fn inv(&self) -> bool {
        self.lat_cpr < 131072 && self.lon_cpr < 131072
    }

    /// The 17-bit encoded latitude.
    pub fn lat_cpr(&self) -> (r: u32)
        ensures
            r == self@.lat_cpr,
    {
        self.lat_cpr
    }

    /// The 17-bit encoded longitude.
    pub fn lon_cpr(&self) -> (r: u32)
        ensures
            r == self@.lon_cpr,
    {
        self.lon_cpr
    }

    /// The reception time of the message, in milliseconds.
    pub fn time(&self) -> (r: u64)
        ensures
            r == self@.time,
    {
        self.time
    }
}

impl Even {
    /// The encoded latitude and longitude are 17-bit values.
    #[verifier::type_invariant]
    closed spec fn inv(&self) -> bool {
        self.lat_cpr < 131072 && self.lon_cpr < 131072
    }

    /// The 17-bit encoded latitude.
    pub fn lat_cpr(&self) -> (r: u32)
        ensures
            r == self@.lat_cpr,
    {
        self.lat_cpr
    }

    /// The 17-bit encoded longitude.
    pub fn lon_cpr(&self) -> (r: u32)
        ensures
            r == self@.lon_cpr,
    {
        self.lon_cpr
    }

    /// The reception time of the message, in milliseconds.
    pub fn time(&self) -> (r: u64)
        ensures
            r == self@.time,
    {
        self.time
    }
}

/// Whether `cpr` holds the CPR fields of the frame `frame` received at `time`:
/// bit 54 tells the format (0 even, 1 odd), bits 55 to 71 the encoded latitude,
/// bits 72 to 88 the encoded longitude.
pub open spec fn is_cpr_of(frame: int, time: int, cpr: Cpr) -> bool {
    let fields = CprFields {
        lat_cpr: field(frame, 55, 71),
        lon_cpr: field(frame, 72, 88),
        time,
    };
    if field(frame, 54, 54) == 0 {
        cpr matches Cpr::Even(e) && e@ == fields
    } else {
        cpr matches Cpr::Odd(o) && o@ == fields
    }
}

/// The CPR fields take bits 54 to 88 of the frame whole: the format bit, then
/// the 17-bit latitude, then the 17-bit longitude; the time is the reception
/// time given.
pub proof fn lemma_cpr_fills_bits(frame: int, time: int, cpr: Cpr)
    requires
        0 <= frame,
        is_cpr_of(frame, time, cpr),
    ensures
        ({
            let (format, f) = match cpr {
                Cpr::Even(e) => (0int, e@),
                Cpr::Odd(o) => (1int, o@),
            };
            &&& field(frame, 54, 88) == format * 0x4_0000_0000 + f.lat_cpr * 0x2_0000 + f.lon_cpr
            &&& 0 <= f.lat_cpr < 0x2_0000
            &&& 0 <= f.lon_cpr < 0x2_0000
            &&& f.time == time
        }),
{
    vstd::arithmetic::power2::lemma2_to64();
    crate::frame::lemma_fields_concatenate(frame, 54, 54, 88);
    crate::frame::lemma_fields_concatenate(frame, 55, 71, 88);
    vstd::arithmetic::power2::lemma_pow2_adds(17, 17);
    assert(vstd::arithmetic::power2::pow2(34) == 0x4_0000_0000);
    assert(0 <= field(frame, 54, 54) < 2);
}

/// Compact Position Reporting data extracted from an airborne position
/// message.
///
/// A global position is decoded by combining an even and an odd CPR
/// message from the same aircraft.
#[derive(Debug)]
pub enum Cpr {
    /// CPR frame using the even format.
    Even(Even),
    /// CPR frame using the odd format.
    Odd(Odd),
}

impl Cpr {
    /// Extracts the CPR fields of a frame received at `time` (milliseconds).
    ///
    /// Bit 54 tells the format: 0 for even, 1 for odd. The reception time is
    /// used during global CPR decoding to select the position of the most
    /// recent message.
    pub fn try_from(input: (&RawFrame, u64)) -> (r: Result<Self, AdsbError>)
        ensures
            r matches Ok(cpr) && is_cpr_of(input.0@, input.1 as int, cpr),
    {
        let (frame, time) = input;
        proof {
            lemma2_to64();
        }
        let lat_cpr = frame.extract(55, 71) as u32;
        let lon_cpr = frame.extract(72, 88) as u32;
        let format = frame.extract(54, 54) as u8;
        match format {
            0 => Ok(Self::Even(Even { lat_cpr, lon_cpr, time })),
            1 => Ok(Self::Odd(Odd { lat_cpr, lon_cpr, time })),
            format => Err(AdsbError::InvalidCprFormat(format)),
        }
    }
}

/// The number of encoded steps in one CPR zone: 2 to the 17th.
pub const CPR_SCALE: i64 = 131072;

/// `n / 131072`, rounded down.
fn floor_div_cpr_scale(n: i64) -> (q: i64)
    ensures
        q == n / 131072,
{
    if n >= 0 {
        n / CPR_SCALE
    } else {
        let k = (-(n + 1)) / CPR_SCALE;
        proof {
            let r = (-(n + 1)) % 131072;
            assert(-(n + 1) == k * 131072 + r);
            assert(n == (-k - 1) * 131072 + (131071 - r));
            vstd::arithmetic::div_mod::lemma_fundamental_div_mod_converse(
                n as int,
                131072,
                -k - 1,
                131071 - r,
            );
        }
        -k - 1
    }
}

/// The latitude zone index `j` of an even/odd pair with encoded latitudes
/// `ye` and `yo`: `floor(59 ye / 2^17 - 60 yo / 2^17 + 1/2)`.
pub open spec fn lat_zone_index(ye: int, yo: int) -> int {
    (59 * ye - 60 * yo + 65536) / 131072
}

/// The longitude zone index `m` of an even/odd pair with encoded longitudes
/// `xe` and `xo`, at a latitude with `nl` longitude zones:
/// `floor(xe (nl - 1) / 2^17 - xo nl / 2^17 + 1/2)`.
pub open spec fn lon_zone_index(xe: int, xo: int, nl: int) -> int {
    (xe * (nl - 1) - xo * nl + 65536) / 131072
}

/// `n / 131072`, rounded down, is the integer `q` with
/// `131072 q <= n < 131072 (q + 1)`.
proof fn lemma_floor_div_bounds(n: int)
    ensures
        131072 * (n / 131072) <= n < 131072 * (n / 131072) + 131072,
{
    vstd::arithmetic::div_mod::lemma_fundamental_div_mod(n, 131072);
    vstd::arithmetic::div_mod::lemma_mod_bound(n, 131072);
}

/// The latitude zone index rounds `59 ye / 2^17 - 60 yo / 2^17` to the
/// nearest integer, a half rounding up: `j - 1/2 <= 59 ye / 2^17 - 60 yo / 2^17
/// < j + 1/2`.
pub proof fn lemma_lat_zone_index_rounds(ye: int, yo: int)
    ensures
        131072 * lat_zone_index(ye, yo) - 65536 <= 59 * ye - 60 * yo,
        59 * ye - 60 * yo < 131072 * lat_zone_index(ye, yo) + 65536,
{
    lemma_floor_div_bounds(59 * ye - 60 * yo + 65536);
}

/// The longitude zone index rounds `xe (nl - 1) / 2^17 - xo nl / 2^17` to the
/// nearest integer, a half rounding up.
pub proof fn lemma_lon_zone_index_rounds(xe: int, xo: int, nl: int)
    ensures
        131072 * lon_zone_index(xe, xo, nl) - 65536 <= xe * (nl - 1) - xo * nl,
        xe * (nl - 1) - xo * nl < 131072 * lon_zone_index(xe, xo, nl) + 65536,
{
    lemma_floor_div_bounds(xe * (nl - 1) - xo * nl + 65536);
}

/// `v` brought into the range of an `i32`.
pub open spec fn saturate_i32(v: int) -> int {
    if v < i32::MIN {
        i32::MIN as int
    } else if v > i32::MAX {
        i32::MAX as int
    } else {
        v
    }
}

/// Calculates the CPR latitude zone index `j` from an even/odd message pair.
pub fn latitude_zone_index(even: &Even, odd: &Odd) -> (j: i32)
    ensures
        j == lat_zone_index(even@.lat_cpr, odd@.lat_cpr),
        131072 * j - 65536 <= 59 * even@.lat_cpr - 60 * odd@.lat_cpr < 131072 * j + 65536,
{
    proof {
        use_type_invariant(even);
        use_type_invariant(odd);
        lemma_lat_zone_index_rounds(even@.lat_cpr, odd@.lat_cpr);
    }
    let n = 59 * (even.lat_cpr as i64) - 60 * (odd.lat_cpr as i64) + 65536;
    floor_div_cpr_scale(n) as i32
}

/// Calculates the CPR longitude zone index `m` of an even/odd message pair,
/// given the number of longitude zones `nl_lat` at the decoded latitude.
pub fn longitude_zone_index(even: &Even, odd: &Odd, nl_lat: i32) -> (m: i32)
    ensures
        m == saturate_i32(lon_zone_index(even@.lon_cpr, odd@.lon_cpr, nl_lat as int)),
        i32::MIN < m < i32::MAX ==> 131072 * m - 65536 <= even@.lon_cpr * (nl_lat - 1) - odd@.lon_cpr
            * nl_lat < 131072 * m + 65536,
{
    proof {
        use_type_invariant(even);
        use_type_invariant(odd);
        lemma_lon_zone_index_rounds(even@.lon_cpr, odd@.lon_cpr, nl_lat as int);
    }
    let xe = even.lon_cpr as i64;
    let xo = odd.lon_cpr as i64;
    let nl = nl_lat as i64;
    proof {
        assert(-0x1_0000_0000_0000 <= xe * (nl - 1) <= 0x1_0000_0000_0000) by (nonlinear_arith)
            requires
                0 <= xe < 131072,
                -0x8000_0001 <= nl - 1 <= 0x7fff_ffff,
        ;
        assert(-0x1_0000_0000_0000 <= xo * nl <= 0x1_0000_0000_0000) by (nonlinear_arith)
            requires
                0 <= xo < 131072,
                -0x8000_0000 <= nl <= 0x7fff_ffff,
        ;
    }
    let m = floor_div_cpr_scale(xe * (nl - 1) - xo * nl + 65536);
    if m < i32::MIN as i64 {
        i32::MIN
    } else if m > i32::MAX as i64 {
        i32::MAX
    } else {
        m as i32
    }
}

/// Selects the value decoded from the most recently received CPR message of
/// an even/odd pair: the even one's when it is not older than the odd one's.
///
/// Even and odd CPR messages are transmitted independently, so their
/// reception times decide which decoded latitude or longitude is the
/// aircraft's position.
pub fn select_most_recent<T>(even_value: T, odd_value: T, time_even: u64, time_odd: u64) -> (r: T)
    ensures
        r == if time_even >= time_odd {
            even_value
        } else {
            odd_value
        },
{
    if time_even >= time_odd {
        even_value
    } else {
        odd_value
    }
}

/// Checks that the even and odd latitude solutions belong to the same CPR
/// latitude zone, given the number of longitude zones (`NL`) at each.
///
/// Global CPR decoding is invalid when the two messages correspond to
/// different latitude zones, which usually happens when the aircraft crosses
/// a zone boundary; a new pair of messages is then needed.
pub fn check_same_latitude_zone(nl_lat_even: i32, nl_lat_odd: i32) -> (r: Result<(), AdsbError>)
    ensures
        nl_lat_even == nl_lat_odd ==> r is Ok,
        nl_lat_even != nl_lat_odd ==> r matches Err(AdsbError::MismatchedLatitude),
{
    if nl_lat_even != nl_lat_odd {
        return Err(AdsbError::MismatchedLatitude);
    }
    Ok(())
}

/// Associates a decoded altitude with the aircraft that transmitted it.
#[derive(Debug)]
pub struct AircraftAltitude {
    /// The ICAO address of the transmitting aircraft.
    pub icao: u32,
    /// The decoded altitude.
    pub altitude: Altitude,
}

impl AircraftAltitude {
    /// Decodes the altitude of an airborne position frame, with the address
    /// of its aircraft.
    pub fn try_from(frame: &RawFrame) -> (r: Result<Self, AdsbError>)
        ensures
            match r {
                Ok(a) => a.icao == field(frame@, 9, 32) && decodes_altitude(frame@, Ok(a.altitude)),
                Err(e) => decodes_altitude(frame@, Err(e)),
            },
    {
        let altitude = Altitude::try_from(frame)?;
        Ok(Self { icao: frame.icao(), altitude })
    }
}

} // verus!
