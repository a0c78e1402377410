use adsb_decoder::error::AdsbError;
use adsb_decoder::frame::RawFrame;

#[test]
fn test_valid_frame_parsed() {
    let frame = RawFrame::from_hex("8D4840D6202CC371C32CE0576098");
    assert!(frame.is_ok());
}

#[test]
fn test_non_adsb_df_rejected() {
    let result = RawFrame::from_hex("284840D6202CC371C32CE0576022");
    assert!(matches!(result, Err(AdsbError::NotAdsb(_))));
}

#[test]
fn test_invalid_hex_rejected() {
    let result = RawFrame::from_hex("ZZZZZZZZZZZZZZZZZZZZZZZZZZZZ");
    assert!(matches!(result, Err(AdsbError::InvalidHex(_))));
}

#[test]
fn test_wrong_length_rejected() {
    let result = RawFrame::from_hex("8D4840D6");
    assert!(matches!(result, Err(AdsbError::InvalidLength(_))));
}

#[test]
#[allow(clippy::unwrap_used, clippy::panic)]
fn test_extract_bits() {
    let Ok(frame) = RawFrame::from_hex("8D4840D6202CC371C32CE0576098") else {
        panic!("failed to parse frame");
    };

    assert_eq!(frame.bits(1..=5).unwrap(), 17); // DF
    assert_eq!(frame.bits(6..=8).unwrap(), 5); // CA
    assert_eq!(frame.bits(9..=32).unwrap(), 0x0048_40D6); // ICAO
    assert_eq!(frame.bits(33..=37).unwrap(), 4); // Type Code
    assert_eq!(frame.bits(33..=88).unwrap(), 0x0020_2CC3_71C3_2CE0); // Payload
}

#[test]
#[allow(clippy::unwrap_used)]
fn test_invalid_bit_range() {
    let frame = RawFrame::from_hex("8D4840D6202CC371C32CE0576098").unwrap();

    assert!(matches!(frame.bits(0..=5), Err(AdsbError::InvalidBitRange { .. })));

    assert!(matches!(frame.bits(1..=113), Err(AdsbError::InvalidBitRange { .. })));
}

#[test]
fn invalid_bit_range_reports_the_range() {
    let frame = RawFrame::from_hex("8D4840D6202CC371C32CE0576098").unwrap();
    match frame.bits(9..=8) {
        Err(AdsbError::InvalidBitRange(r)) => assert_eq!(r, 9..=8),
        other => panic!("unexpected {other:?}"),
    }
}

#[test]
fn single_bits_and_last_bit() {
    let frame = RawFrame::from_hex("8D4840D6202CC371C32CE0576098").unwrap();
    assert_eq!(frame.bits(1..=1).unwrap(), 1);
    assert_eq!(frame.bits(2..=2).unwrap(), 0);
    assert_eq!(frame.bits(112..=112).unwrap(), 0);
    assert_eq!(frame.bits(105..=112).unwrap(), 0x98);
    assert_eq!(frame.bits(1..=112).unwrap(), 0x8D4840D6202CC371C32CE0576098);
}

#[test]
fn icao_and_type_code() {
    let frame = RawFrame::from_hex("8D4840D6202CC371C32CE0576098").unwrap();
    assert_eq!(frame.icao(), 0x0048_40D6);
    assert_eq!(frame.type_code(), 4);
}

#[test]
fn dump1090_delimiters_and_whitespace_are_ignored() {
    let plain = RawFrame::from_hex("8D4840D6202CC371C32CE0576098").unwrap();
    let delimited = RawFrame::from_hex("*8D4840D6202CC371C32CE0576098;").unwrap();
    let padded = RawFrame::from_hex("  *8D4840D6202CC371C32CE0576098;\n").unwrap();
    let full = 1..=112;
    assert_eq!(plain.bits(full.clone()).unwrap(), delimited.bits(full.clone()).unwrap());
    assert_eq!(plain.bits(full.clone()).unwrap(), padded.bits(full).unwrap());
}

#[test]
fn lower_case_and_plus_sign_are_hex() {
    let lower = RawFrame::from_hex("8d4840d6202cc371c32ce0576098").unwrap();
    assert_eq!(lower.icao(), 0x0048_40D6);
    // A leading `+` is a sign for std's parser; with 27 digits after it the
    // value starts with a zero digit, so its downlink format is not 17.
    let plus = RawFrame::from_hex("+D4840D6202CC371C32CE0576098");
    assert!(matches!(plus, Err(AdsbError::NotAdsb(1))));
}

#[test]
fn length_is_counted_in_bytes() {
    assert!(matches!(RawFrame::from_hex(""), Err(AdsbError::InvalidLength(0))));
    assert!(matches!(
        RawFrame::from_hex("8D4840D6202CC371C32CE05760980"),
        Err(AdsbError::InvalidLength(29))
    ));
    // 26 ASCII digits and one two-byte character: 28 bytes, not hexadecimal.
    assert!(matches!(
        RawFrame::from_hex("8D4840D6202CC371C32CE05760é"),
        Err(AdsbError::InvalidHex(_))
    ));
}

#[test]
fn downlink_format_is_reported() {
    assert!(matches!(
        RawFrame::from_hex("284840D6202CC371C32CE0576022"),
        Err(AdsbError::NotAdsb(5))
    ));
}

#[test]
fn adjacent_fields_concatenate() {
    let frame = RawFrame::from_hex("8D40621D58C382D690C8AC2863A7").unwrap();
    let whole = frame.bits(33..=88).unwrap();
    let high = frame.bits(33..=37).unwrap();
    let low = frame.bits(38..=88).unwrap();
    assert_eq!(whole, (high << 51) | low);
    let all = frame.bits(1..=112).unwrap();
    assert_eq!(all, (frame.bits(1..=1).unwrap() << 111) | frame.bits(2..=112).unwrap());
}

#[test]
fn delimiters_do_not_change_the_parse_error() {
    let bare = "ZZZZZZZZZZZZZZZZZZZZZZZZZZZZ";
    let delimited = format!(" *{bare};\n");
    let (Err(AdsbError::InvalidHex(a)), Err(AdsbError::InvalidHex(b))) =
        (RawFrame::from_hex(bare), RawFrame::from_hex(&delimited))
    else {
        panic!("expected both texts to be rejected as invalid hex");
    };
    assert_eq!(a, b);
    assert_eq!(a, u128::from_str_radix(bare, 16).unwrap_err());
}

#[test]
fn delimiters_do_not_change_the_frame() {
    let bare = "8D4840D6202CC371C32CE0576098";
    let delimited = format!(" *{bare};\n");
    let a = RawFrame::from_hex(bare).unwrap();
    let b = RawFrame::from_hex(&delimited).unwrap();
    assert_eq!(a.bits(1..=112).unwrap(), b.bits(1..=112).unwrap());
}

#[test]
fn parse_error_converts_to_invalid_hex() {
    let e = u128::from_str_radix("G", 16).unwrap_err();
    let converted = AdsbError::from(e.clone());
    assert!(matches!(converted, AdsbError::InvalidHex(inner) if inner == e));
}
