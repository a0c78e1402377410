//! What the frame parser relies on from std's string and integer parsing:
//! trimming, and reading an unsigned integer from its digits.
use std::num::ParseIntError;
use vstd::prelude::*;
use vstd::utf8::encode_utf8;

verus! {

/// Whether `c` has the Unicode `White_Space` property, which is what
/// `char::is_whitespace` and `str::trim` test.
pub open spec fn is_unicode_whitespace(c: char) -> bool {
    let u = c as u32;
    ||| 0x09 <= u <= 0x0D
    ||| u == 0x20
    ||| u == 0x85
    ||| u == 0xA0
    ||| u == 0x1680
    ||| 0x2000 <= u <= 0x200A
    ||| u == 0x2028
    ||| u == 0x2029
    ||| u == 0x202F
    ||| u == 0x205F
    ||| u == 0x3000
}

/// `s` without its leading whitespace.
pub open spec fn trim_leading_whitespace(s: Seq<char>) -> Seq<char>
    decreases s.len(),
{
    if s.len() > 0 && is_unicode_whitespace(s[0]) {
        trim_leading_whitespace(s.drop_first())
    } else {
        s
    }
}

/// `s` without its trailing whitespace.
pub open spec fn trim_trailing_whitespace(s: Seq<char>) -> Seq<char>
    decreases s.len(),
{
    if s.len() > 0 && is_unicode_whitespace(s.last()) {
        trim_trailing_whitespace(s.drop_last())
    } else {
        s
    }
}

/// `s` without its leading and trailing whitespace.
pub open spec fn trim_whitespace(s: Seq<char>) -> Seq<char> {
    trim_trailing_whitespace(trim_leading_whitespace(s))
}

/// `s` without the copies of `c` that it starts with.
pub open spec fn trim_leading_char(s: Seq<char>, c: char) -> Seq<char>
    decreases s.len(),
{
    if s.len() > 0 && s[0] == c {
        trim_leading_char(s.drop_first(), c)
    } else {
        s
    }
}

/// `s` without the copies of `c` that it ends with.
pub open spec fn trim_trailing_char(s: Seq<char>, c: char) -> Seq<char>
    decreases s.len(),
{
    if s.len() > 0 && s.last() == c {
        trim_trailing_char(s.drop_last(), c)
    } else {
        s
    }
}

/// The value of `c` as a digit in `radix` (`char::to_digit`): `0`-`9`, then
/// `a`-`z` or `A`-`Z` for 10 to 35, if below `radix`.
pub open spec fn digit_value(c: char, radix: u32) -> Option<int> {
    let u = c as u32;
    let d: int = if 0x30 <= u <= 0x39 {
        u - 0x30
    } else if 0x61 <= u <= 0x7A {
        u - 0x61 + 10
    } else if 0x41 <= u <= 0x5A {
        u - 0x41 + 10
    } else {
        36
    };
    if d < radix {
        Some(d)
    } else {
        None
    }
}

/// Whether every character of `s` is a digit in `radix`.
pub open spec fn all_digits(s: Seq<char>, radix: u32) -> bool {
    forall|i: int| 0 <= i < s.len() ==> (#[trigger] digit_value(s[i], radix)) is Some
}

/// The number that the digits `s` write in `radix`, most significant first.
pub open spec fn digits_value(s: Seq<char>, radix: u32) -> int
    decreases s.len(),
{
    if s.len() == 0 {
        0
    } else {
        digits_value(s.drop_last(), radix) * radix + digit_value(s.last(), radix).unwrap()
    }
}

/// The digits of an unsigned number's text: without the one `+` that may lead it.
pub open spec fn unsigned_digits(s: Seq<char>) -> Seq<char> {
    if s.len() > 0 && s[0] == '+' {
        s.drop_first()
    } else {
        s
    }
}

/// Whether `s` is the text of an unsigned number in `radix` that is at most `max`:
/// an optional `+`, then at least one digit.
pub open spec fn parses_unsigned(s: Seq<char>, radix: u32, max: int) -> bool {
    let d = unsigned_digits(s);
    &&& d.len() > 0
    &&& all_digits(d, radix)
    &&& digits_value(d, radix) <= max
}

/// The number of bytes that `s` takes in UTF-8 (`str::len`).
pub open spec fn utf8_len(s: Seq<char>) -> nat {
    encode_utf8(s).len()
}

/// `str::trim`: the string without leading and trailing Unicode whitespace.
pub assume_specification[ str::trim ](s: &str) -> (r: &str)
    ensures
        r@ == trim_whitespace(s@),
;

/// Wraps `str::trim_start_matches` with a `char` pattern: removes every copy of
/// `c` that the string starts with.
#[verifier::external_body]
pub(crate) fn trim_start_matches_char(s: &str, c: char) -> (r: &str)
    ensures
        r@ == trim_leading_char(s@, c),
{
    s.trim_start_matches(c)
}

/// Wraps `str::trim_end_matches` with a `char` pattern: removes every copy of
/// `c` that the string ends with.
#[verifier::external_body]
pub(crate) fn trim_end_matches_char(s: &str, c: char) -> (r: &str)
    ensures
        r@ == trim_trailing_char(s@, c),
{
    s.trim_end_matches(c)
}

/// The error that `u128::from_str_radix` reports for the text `src` in
/// `radix`: a function of the text and the radix alone.
pub uninterp spec fn u128_parse_error(src: Seq<char>, radix: u32) -> ParseIntError;

/// `u128::from_str_radix`: an optional `+`, then digits in `radix`; `Ok` exactly
/// when there is at least one digit, every character after the sign is a digit
/// and the value fits in a `u128`; the error otherwise depends on the text and
/// the radix alone. It panics on a radix outside `2..=36`.
pub assume_specification[ u128::from_str_radix ](src: &str, radix: u32) -> (r: Result<
    u128,
    ParseIntError,
>)
    requires
        2 <= radix <= 36,
    ensures
        r is Ok <==> parses_unsigned(src@, radix, u128::MAX as int),
        r matches Ok(v) ==> v == digits_value(unsigned_digits(src@), radix),
        r matches Err(e) ==> e == u128_parse_error(src@, radix),
;

/// `String::push`: appends `ch` to the string.
pub assume_specification[ String::push ](s: &mut String, ch: char)
    ensures
        final(s)@ == old(s)@.push(ch),
;

/// The character of the decimal digit `d`.
pub open spec fn digit_char(d: int) -> char {
    (d + 48) as char
}

/// The decimal digits of `n`, most significant first, without leading zeros.
pub open spec fn decimal_digits(n: nat) -> Seq<char>
    decreases n,
{
    if n < 10 {
        seq![digit_char(n as int)]
    } else {
        decimal_digits(n / 10).push(digit_char((n % 10) as int))
    }
}

/// The decimal text of `n`, as `{}` formats an integer: a `-` before the
/// digits of a negative number.
pub open spec fn decimal_text(n: int) -> Seq<char> {
    if n < 0 {
        seq!['-'] + decimal_digits((-n) as nat)
    } else {
        decimal_digits(n as nat)
    }
}

/// The decimal digits of `n` read back as `n`: they are all decimal digits,
/// they write `n` in base 10, and only zero starts with `0`.
pub proof fn lemma_decimal_digits_read_back(n: nat)
    ensures
        decimal_digits(n).len() > 0,
        all_digits(decimal_digits(n), 10),
        digits_value(decimal_digits(n), 10) == n,
        decimal_digits(n)[0] == '0' ==> n == 0,
    decreases n,
{
    let s = decimal_digits(n);
    if n < 10 {
        assert(digit_value(s[0], 10) == Some(n as int));
        assert(s.drop_last() =~= Seq::<char>::empty());
        assert(digits_value(s.drop_last(), 10) == 0);
        assert(digits_value(s, 10) == digits_value(s.drop_last(), 10) * 10 + n);
    } else {
        lemma_decimal_digits_read_back(n / 10);
        let init = decimal_digits(n / 10);
        assert(s.drop_last() =~= init);
        assert(digit_value(s.last(), 10) == Some((n % 10) as int));
        assert forall|i: int| 0 <= i < s.len() implies (#[trigger] digit_value(s[i], 10)) is Some by {
            if i < init.len() {
                assert(s[i] == init[i]);
            }
        }
        assert(s[0] == init[0]);
        assert(digits_value(s, 10) == digits_value(init, 10) * 10 + (n % 10) as int);
        assert((n / 10) * 10 + n % 10 == n);
    }
}

/// Appends the decimal digits of `n`.
pub(crate) fn push_digits(s: &mut String, n: u32)
    ensures
        final(s)@ == old(s)@ + decimal_digits(n as nat),
    decreases n,
{
    if n >= 10 {
        push_digits(s, n / 10);
    }
    let d = (n % 10) as u8;
    s.push((d + 48u8) as char);
    assert(s@ =~= old(s)@ + decimal_digits(n as nat));
}

/// Appends the decimal text of `n`.
pub(crate) fn push_decimal(s: &mut String, n: i16)
    ensures
        final(s)@ == old(s)@ + decimal_text(n as int),
{
    if n < 0 {
        s.push('-');
        let m = (-(n as i32)) as u32;
        push_digits(s, m);
        assert(s@ =~= old(s)@ + decimal_text(n as int));
    } else {
        push_digits(s, n as u32);
    }
}

/// A string takes at least one byte per character.
pub proof fn lemma_utf8_len_at_least_chars(s: Seq<char>)
    ensures
        utf8_len(s) >= s.len(),
    decreases s.len(),
{
    if s.len() > 0 {
        lemma_utf8_len_at_least_chars(s.drop_first());
    }
}

/// The value of `n` digits is below `radix` to the `n`.
pub proof fn lemma_digits_value_bound(s: Seq<char>, radix: u32)
    requires
        all_digits(s, radix),
        radix >= 2,
    ensures
        0 <= digits_value(s, radix) < vstd::arithmetic::power::pow(radix as int, s.len()),
    decreases s.len(),
{
    reveal(vstd::arithmetic::power::pow);
    if s.len() > 0 {
        let init = s.drop_last();
        assert forall|i: int| 0 <= i < init.len() implies (#[trigger] digit_value(init[i], radix)) is Some by {
            assert(init[i] == s[i]);
        }
        assert(digit_value(s[s.len() - 1], radix) is Some);
        lemma_digits_value_bound(init, radix);
        let p = vstd::arithmetic::power::pow(radix as int, init.len());
        let v = digits_value(init, radix);
        let d = digit_value(s.last(), radix).unwrap();
        assert(v * radix + d < p * radix) by (nonlinear_arith)
            requires
                0 <= v < p,
                0 <= d < radix,
        ;
        assert(v * radix + d >= 0) by (nonlinear_arith)
            requires
                0 <= v,
                0 <= d,
                radix >= 2,
        ;
        assert(p * radix == radix * p) by (nonlinear_arith);
    }
}

} // verus!
