//! The errors reported while decoding ADS-B frames and messages.
use std::num::ParseIntError;
use std::ops::RangeInclusive;
use vstd::prelude::*;

verus! {

/// The error that std's integer parsing reports; carried unchanged inside
/// [`AdsbError::InvalidHex`].
#[verifier::external_type_specification]
#[verifier::external_body]
pub struct ExParseIntError(ParseIntError);

/// Every way in which decoding a frame or a message can fail.
#[derive(Debug)]
pub enum AdsbError {
    /// The frame text is not a hexadecimal number.
    InvalidHex(ParseIntError),
    /// The frame text does not have 28 digits; holds its length in bytes.
    InvalidLength(usize),
    /// The downlink format is not 17; holds the downlink format found.
    NotAdsb(u8),
    /// A bit range outside `1..=112`, or with its start after its end.
    InvalidBitRange(RangeInclusive<u8>),
    /// A type code that this library does not decode.
    UnsupportedTypeCode(u8),
    /// A velocity subtype other than 1 to 4.
    InvalidVelocitySubType(u8),
    /// An extracted field does not fit the integer type asked for.
    InvalidBitConversion,
    /// The 12-bit altitude field is not a valid Gillham code.
    InvalidGillhamCode,
    /// The CPR format bit is neither 0 nor 1.
    InvalidCprFormat(u8),
    /// The even and odd CPR latitudes fall in different longitude zones.
    MismatchedLatitude,
}

impl From<ParseIntError> for AdsbError {
    /// A hex parsing error is an invalid frame text.
    fn from(e: ParseIntError) -> (r: Self) {
        AdsbError::InvalidHex(e)
    }
}

impl vstd::std_specs::convert::FromSpecImpl<ParseIntError> for AdsbError {
    open spec fn obeys_from_spec() -> bool {
        true
    }

    open spec fn from_spec(v: ParseIntError) -> Self {
        AdsbError::InvalidHex(v)
    }
}

} // verus!
