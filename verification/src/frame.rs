//! 112-bit ADS-B frames and access to their fields.
use crate::error::AdsbError;
use crate::text::{
    u128_parse_error,
    is_unicode_whitespace, trim_leading_whitespace, trim_trailing_whitespace, lemma_digits_value_bound, lemma_utf8_len_at_least_chars, parses_unsigned, trim_end_matches_char,
    trim_leading_char, trim_start_matches_char, trim_trailing_char, trim_whitespace, unsigned_digits,
    digits_value, utf8_len,
};
use std::ops::RangeInclusive;
use vstd::arithmetic::power::{lemma_pow_increases, lemma_pow_multiplies, pow};
use vstd::arithmetic::div_mod::{lemma_div_denominator, lemma_mod_breakdown};
use vstd::arithmetic::power2::{lemma_pow2_adds, lemma_pow2_pos, lemma_pow2_unfold, pow2};
use vstd::bits::lemma_u128_shr_is_div;
use vstd::prelude::*;

verus! {

/// The number of hexadecimal digits of a frame.
pub const ADSB_FRAME_LENGTH: usize = 28;

/// The number of bits of a frame.
pub const ADSB_FRAME_BITS: u8 = 112;

/// The downlink format of every ADS-B (extended squitter) frame.
pub const ADSB_DOWNLINK_FORMAT: u8 = 17;

/// `RangeInclusive::start`: the range's first value.
pub assume_specification<Idx>[ RangeInclusive::<Idx>::start ](r: &RangeInclusive<Idx>) -> (s: &Idx)
    ensures
        *s == r@.start,
;

/// `RangeInclusive::end`: the range's last value.
pub assume_specification<Idx>[ RangeInclusive::<Idx>::end ](r: &RangeInclusive<Idx>) -> (e: &Idx)
    ensures
        *e == r@.end,
;

/// Whether `start..=end` names bits of a frame: bit 1 is the most significant,
/// bit 112 the least.
pub open spec fn valid_bit_range(start: int, end: int) -> bool {
    1 <= start <= end <= 112
}

/// The field of the 112-bit frame value `frame` from bit `start` to bit `end`
/// (both included, bit 1 the most significant).
pub open spec fn field(frame: int, start: int, end: int) -> int {
    (frame / (pow2((112 - end) as nat) as int)) % (pow2((end - start + 1) as nat) as int)
}

/// Whether `frame` is the value of an ADS-B frame: 112 bits, downlink format 17.
pub open spec fn is_adsb_frame(frame: int) -> bool {
    0 <= frame < pow2(112) && field(frame, 1, 5) == 17
}

/// The text of a frame once surrounding whitespace and the dump1090
/// delimiters (leading `*`, trailing `;`) are removed.
pub open spec fn frame_text(s: Seq<char>) -> Seq<char> {
    trim_trailing_char(trim_leading_char(trim_whitespace(s), '*'), ';')
}

/// Whether the frame text `t` has the length of a frame: 28 bytes.
pub open spec fn has_frame_length(t: Seq<char>) -> bool {
    utf8_len(t) == 28
}

/// Whether the frame text `t` is a hexadecimal number.
pub open spec fn is_hex_number(t: Seq<char>) -> bool {
    parses_unsigned(t, 16, u128::MAX as int)
}

/// The number that the hexadecimal frame text `t` writes.
pub open spec fn hex_value(t: Seq<char>) -> int {
    digits_value(unsigned_digits(t), 16)
}

/// Whether `r` is what parsing the text `s` as a frame gives: the frame text
/// must be 28 bytes long, a hexadecimal number, and start with the downlink
/// format 17; else the first of these that fails is the error.
pub open spec fn parses_frame(s: Seq<char>, r: Result<RawFrame, AdsbError>) -> bool {
    let t = frame_text(s);
    match r {
        Ok(frame) => has_frame_length(t) && is_hex_number(t) && frame@ == hex_value(t)
            && is_adsb_frame(frame@),
        Err(AdsbError::InvalidLength(n)) => !has_frame_length(t) && n == utf8_len(t),
        Err(AdsbError::InvalidHex(e)) => has_frame_length(t) && !is_hex_number(t) && e
            == u128_parse_error(t, 16),
        Err(AdsbError::NotAdsb(df)) => has_frame_length(t) && is_hex_number(t) && df == field(
            hex_value(t),
            1,
            5,
        ) && df != 17,
        Err(_) => false,
    }
}

/// Whether `t` has no surrounding whitespace and no dump1090 delimiters:
/// it does not start with whitespace or `*` and does not end with
/// whitespace or `;`.
pub open spec fn is_bare_text(t: Seq<char>) -> bool {
    t.len() > 0 ==> {
        &&& !is_unicode_whitespace(t[0])
        &&& t[0] != '*'
        &&& !is_unicode_whitespace(t.last())
        &&& t.last() != ';'
    }
}

/// Surrounding whitespace and the dump1090 delimiters are ignored: parsing
/// ` *t;` followed by a line break gives what parsing `t` alone gives.
pub proof fn lemma_delimiters_ignored(t: Seq<char>, r: Result<RawFrame, AdsbError>)
    requires
        is_bare_text(t),
    ensures
        frame_text(t) == t,
        frame_text(seq![' ', '*'] + t + seq![';', '\n']) == t,
        parses_frame(seq![' ', '*'] + t + seq![';', '\n'], r) == parses_frame(t, r),
{
    let padded = seq![' ', '*'] + t + seq![';', '\n'];
    let starred = seq!['*'] + t + seq![';', '\n'];
    let delimited = seq!['*'] + t + seq![';'];
    assert(trim_whitespace(t) == t) by {
        assert(trim_leading_whitespace(t) == t);
    }
    assert(trim_leading_char(t, '*') == t);
    assert(trim_trailing_char(t, ';') == t);
    assert(padded[0] == ' ');
    assert(padded.drop_first() =~= starred);
    assert(starred[0] == '*');
    assert(!is_unicode_whitespace('*'));
    assert(is_unicode_whitespace(' '));
    assert(trim_leading_whitespace(starred) == starred);
    assert(trim_leading_whitespace(padded) == starred);
    assert(starred.last() == '\n');
    assert(is_unicode_whitespace('\n'));
    assert(!is_unicode_whitespace(';'));
    assert(starred.drop_last() =~= delimited);
    assert(delimited.last() == ';');
    assert(trim_trailing_whitespace(delimited) == delimited);
    assert(trim_whitespace(padded) == delimited);
    let v = t + seq![';'];
    assert(delimited.drop_first() =~= v);
    if t.len() > 0 {
        assert(v[0] == t[0]);
    }
    assert(trim_leading_char(v, '*') == v);
    assert(trim_leading_char(delimited, '*') == v);
    assert(v.drop_last() =~= t);
    assert(trim_trailing_char(v, ';') == t);
}

/// The field of all 112 bits is the frame itself, bit 112 is its lowest
/// bit, and bit 1 its highest.
pub proof fn lemma_field_ends(frame: int)
    requires
        0 <= frame < pow2(112),
    ensures
        field(frame, 1, 112) == frame,
        field(frame, 112, 112) == frame % 2,
        field(frame, 1, 1) == frame / pow2(111) as int,
{
    vstd::arithmetic::power2::lemma2_to64();
    lemma_pow2_pos(111);
    lemma_pow2_unfold(112);
    vstd::arithmetic::div_mod::lemma_small_mod(frame as nat, pow2(112));
    assert(pow2(0) == 1 && pow2(1) == 2);
    assert(frame / (pow2(0) as int) == frame);
    assert(field(frame, 1, 112) == frame % (pow2(112) as int));
    assert(field(frame, 112, 112) == frame % 2);
    let p = pow2(111) as int;
    let q = frame / p;
    vstd::arithmetic::div_mod::lemma_fundamental_div_mod(frame, p);
    vstd::arithmetic::div_mod::lemma_mod_bound(frame, p);
    vstd::arithmetic::div_mod::lemma_div_pos_is_pos(frame, p);
    assert(q < 2) by (nonlinear_arith)
        requires
            frame == p * q + frame % p,
            0 <= frame % p,
            frame < 2 * p,
            p > 0,
    ;
    vstd::arithmetic::div_mod::lemma_small_mod(q as nat, 2);
}

/// Adjacent fields concatenate, the most significant first: the field of
/// bits `start..=end` is the field `start..=mid` shifted left by the width of
/// the field `mid + 1..=end`, followed by that field.
pub proof fn lemma_fields_concatenate(frame: int, start: int, mid: int, end: int)
    requires
        0 <= frame,
        1 <= start <= mid < end <= 112,
    ensures
        field(frame, start, end) == field(frame, start, mid) * pow2((end - mid) as nat) + field(
            frame,
            mid + 1,
            end,
        ),
{
    let low = (112 - end) as nat;
    let width_low = (end - mid) as nat;
    let width_high = (mid - start + 1) as nat;
    let a = pow2(low) as int;
    let b = pow2(width_low) as int;
    let c = pow2(width_high) as int;
    lemma_pow2_pos(low);
    lemma_pow2_pos(width_low);
    lemma_pow2_pos(width_high);
    lemma_pow2_adds(width_low, width_high);
    lemma_pow2_adds(low, width_low);
    assert((112 - mid) as nat == low + width_low);
    assert((end - start + 1) as nat == width_low + width_high);
    let x = frame / a;
    lemma_div_denominator(frame, a, b);
    lemma_mod_breakdown(x, b, c);
    assert(field(frame, start, end) == x % (b * c));
    assert(field(frame, start, mid) == (x / b) % c);
    assert(field(frame, mid + 1, end) == x % b);
    assert(b * ((x / b) % c) == ((x / b) % c) * b) by (nonlinear_arith);
}

/// Shifting left by `k` multiplies by 2 to the `k`, while nothing overflows.
proof fn lemma_shl_is_mul_u128(x: u128, k: u128)
    requires
        k < 128,
        x * pow2(k as nat) <= u128::MAX,
    ensures
        (x << k) == x * pow2(k as nat),
    decreases k,
{
    if k == 0 {
        assert((x << 0u128) == x) by (bit_vector);
        vstd::arithmetic::power2::lemma2_to64();
        assert(x * pow2(0) == x) by (nonlinear_arith)
            requires
                pow2(0) == 1,
        ;
    } else {
        lemma_pow2_unfold(k as nat);
        lemma_pow2_pos((k - 1) as nat);
        assert(x * pow2((k - 1) as nat) <= x * pow2(k as nat)) by (nonlinear_arith)
            requires
                pow2((k - 1) as nat) <= pow2(k as nat),
        ;
        lemma_shl_is_mul_u128(x, (k - 1) as u128);
        let y = x << ((k - 1) as u128);
        assert(y * 2 <= u128::MAX) by (nonlinear_arith)
            requires
                y == x * pow2((k - 1) as nat),
                pow2(k as nat) == 2 * pow2((k - 1) as nat),
                x * pow2(k as nat) <= u128::MAX,
        ;
        assert((x << k) == (x << ((k - 1) as u128)) << 1u128) by (bit_vector)
            requires
                0 < k < 128,
        ;
        assert((y << 1u128) == y * 2) by (bit_vector)
            requires
                y * 2 <= u128::MAX,
        ;
        assert(y * 2 == x * pow2(k as nat)) by (nonlinear_arith)
            requires
                y == x * pow2((k - 1) as nat),
                pow2(k as nat) == 2 * pow2((k - 1) as nat),
        ;
    }
}

/// Adjacent fields concatenate as bits, the most significant first: the
/// field of bits `start..=end` is the field `start..=mid` shifted left by the
/// width of the field `mid + 1..=end`, or-ed with that field.
pub proof fn lemma_bits_concatenate(frame: int, start: int, mid: int, end: int)
    requires
        is_adsb_frame(frame),
        1 <= start <= mid < end <= 112,
    ensures
        field(frame, start, end) == ((field(frame, start, mid) as u128) << ((end - mid) as u128)) | (
        field(frame, mid + 1, end) as u128),
{
    let k = (end - mid) as u128;
    let hi = field(frame, start, mid);
    let lo = field(frame, mid + 1, end);
    lemma_fields_concatenate(frame, start, mid, end);
    lemma_pow2_pos(k as nat);
    lemma_pow2_pos((mid - start + 1) as nat);
    lemma_pow2_pos((end - start + 1) as nat);
    lemma_pow2_pos((112 - end) as nat);
    vstd::arithmetic::power2::lemma_pow2_strictly_increases((end - start + 1) as nat, 128);
    vstd::arithmetic::power2::lemma2_to64();
    vstd::arithmetic::power2::lemma2_to64_rest();
    assert(pow2(128) == u128::MAX + 1) by {
        lemma_pow2_adds(64, 64);
    }
    let whole = field(frame, start, end);
    assert(0 <= whole < pow2((end - start + 1) as nat));
    assert(0 <= lo < pow2(k as nat));
    assert(0 <= hi);
    assert(hi * pow2(k as nat) <= whole) by (nonlinear_arith)
        requires
            whole == hi * pow2(k as nat) + lo,
            lo >= 0,
    ;
    assert(whole < pow2(128));
    assert(hi <= whole) by (nonlinear_arith)
        requires
            hi * pow2(k as nat) <= whole,
            pow2(k as nat) >= 1,
            hi >= 0,
    ;
    assert(lo <= whole);
    let h = hi as u128;
    let l = lo as u128;
    assert(h == hi && l == lo);
    lemma_shl_is_mul_u128(h, k);
    lemma_shl_one_u128(k);
    assert((h << k) | l == (h << k) + l) by (bit_vector)
        requires
            k < 128,
            l < (1u128 << k),
    ;
}

/// `1 << n` is 2 to the `n`.
pub proof fn lemma_shl_one_u128(n: u128)
    requires
        n < 128,
    ensures
        (1u128 << n) == pow2(n as nat),
    decreases n,
{
    if n == 0 {
        assert((1u128 << 0u128) == 1) by (bit_vector);
        assert(pow2(0) == 1) by {
            vstd::arithmetic::power2::lemma2_to64();
        }
    } else {
        assert((1u128 << n) == (1u128 << ((n - 1) as u128)) * 2) by (bit_vector)
            requires
                0 < n < 128,
        ;
        lemma_shl_one_u128((n - 1) as u128);
        lemma_pow2_unfold(n as nat);
    }
}

/// 16 to the `n` is 2 to the `4n`.
pub proof fn lemma_pow16_is_pow2(n: nat)
    ensures
        pow(16, n) == pow2(4 * n),
{
    assert(pow(2, 4) == 16) by {
        reveal_with_fuel(pow, 5);
    }
    lemma_pow_multiplies(2, 4, n);
    vstd::arithmetic::power2::lemma_pow2(4 * n);
}

/// Extracts bits `start..=end` of the 112-bit value `value`.
fn extract_field(value: u128, start: u8, end: u8) -> (r: u128)
    requires
        valid_bit_range(start as int, end as int),
    ensures
        r == field(value as int, start as int, end as int),
        r < pow2((end - start + 1) as nat),
{
    let len: u128 = (end - start + 1) as u128;
    let shift: u128 = (ADSB_FRAME_BITS - end) as u128;
    let shifted = value >> shift;
    proof {
        lemma_u128_shr_is_div(value, shift);
        lemma_shl_one_u128(len);
        vstd::arithmetic::power2::lemma_pow2_pos(len as nat);
    }
    shifted % (1u128 << len)
}

/// A 112-bit ADS-B frame. Bit 1 is the most significant bit of the frame,
/// following the ICAO specification; the frame is held in the lower 112 bits
/// of a `u128`.
#[derive(Debug)]
pub struct RawFrame {
    bits: u128,
}

impl View for RawFrame {
    type V = int;

    closed spec fn view(&self) -> int {
        self.bits as int
    }
}

impl RawFrame {
    /// Every frame holds 112 bits and has downlink format 17.
    #[verifier::type_invariant]
    closed spec fn inv(&self) -> bool {
        is_adsb_frame(self.bits as int)
    }

    /// Parses a 112-bit ADS-B frame from hexadecimal text.
    ///
    /// Surrounding whitespace and the dump1090 delimiters (leading `*`,
    /// trailing `;`) are ignored; what is left must be 28 bytes long, a
    /// hexadecimal number, and start with the downlink format 17.
    pub fn from_hex(hex_str: &str) -> (r: Result<Self, AdsbError>)
        ensures
            parses_frame(hex_str@, r),
    {
        let trimmed = hex_str.trim();
        let without_start = trim_start_matches_char(trimmed, '*');
        let text = trim_end_matches_char(without_start, ';');
        let len = text.as_bytes().len();
        if len != ADSB_FRAME_LENGTH {
            return Err(AdsbError::InvalidLength(len));
        }
        let bits = match u128::from_str_radix(text, 16) {
            Ok(bits) => bits,
            Err(e) => return Err(AdsbError::InvalidHex(e)),
        };
        proof {
            let d = unsigned_digits(text@);
            lemma_utf8_len_at_least_chars(text@);
            lemma_digits_value_bound(d, 16);
            lemma_pow_increases(16, d.len(), 28);
            lemma_pow16_is_pow2(28);
        }
        let df = extract_field(bits, 1, 5);
        proof {
            assert(pow2(5) == 32) by {
                vstd::arithmetic::power2::lemma2_to64();
            }
        }
        let df = df as u8;
        if df != ADSB_DOWNLINK_FORMAT {
            return Err(AdsbError::NotAdsb(df));
        }
        Ok(Self { bits })
    }

    /// Extracts the field given by the inclusive bit range `range`.
    ///
    /// Bit 1 is the most significant bit of the frame and bit 112 the least;
    /// the range must lie within `1..=112` and not start after its end.
    pub fn bits(&self, range: RangeInclusive<u8>) -> (r: Result<u128, AdsbError>)
        ensures
            ({
                let (start, end) = (range@.start as int, range@.end as int);
                match r {
                    Ok(v) => valid_bit_range(start, end) && v == field(self@, start, end),
                    Err(e) => !valid_bit_range(start, end) && e == AdsbError::InvalidBitRange(range),
                }
            }),
            is_adsb_frame(self@),
    {
        proof {
            use_type_invariant(self);
        }
        let start = *range.start();
        let end = *range.end();
        if start == 0 || start > end || end > ADSB_FRAME_BITS {
            return Err(AdsbError::InvalidBitRange(range));
        }
        Ok(extract_field(self.bits, start, end))
    }

    /// Extracts bits `start..=end`, which the caller knows to be a valid range.
    pub(crate) fn extract(&self, start: u8, end: u8) -> (r: u128)
        requires
            valid_bit_range(start as int, end as int),
        ensures
            r == field(self@, start as int, end as int),
            r < pow2((end - start + 1) as nat),
            is_adsb_frame(self@),
    {
        proof {
            use_type_invariant(self);
        }
        extract_field(self.bits, start, end)
    }

    /// The 24-bit ICAO address of the transmitting aircraft (bits 9 to 32).
    pub fn icao(&self) -> (r: u32)
        ensures
            r == field(self@, 9, 32),
    {
        let v = self.extract(9, 32);
        proof {
            assert(pow2(24) == 0x100_0000) by {
                vstd::arithmetic::power2::lemma2_to64();
            }
        }
        v as u32
    }

    /// The 5-bit type code (bits 33 to 37), which tells the kind of message.
    pub fn type_code(&self) -> (r: u8)
        ensures
            r == field(self@, 33, 37),
    {
        let v = self.extract(33, 37);
        proof {
            assert(pow2(5) == 32) by {
                vstd::arithmetic::power2::lemma2_to64();
            }
        }
        v as u8
    }
}

} // verus!
