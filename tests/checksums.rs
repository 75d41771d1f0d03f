use crc_service::{
    checksum16, checksum32, checksum64, crc16, crc32, crc64, parse_unsigned, resolve16,
    resolve32, resolve64, Crc16Polynomial, Crc32Polynomial, Crc64Polynomial, InvalidPolynomial, Width, CASTAGNOLI,
    ECMA, IEEE, ISO, KOOPMAN, USB, X25,
};

const CHECK: &[u8] = b"123456789";

fn invalid(text: &str, width: Width) -> InvalidPolynomial {
    InvalidPolynomial { offending_text: text.to_string(), width }
}

#[test]
fn constants_match_the_crc_crate() {
    assert_eq!(X25, crc::crc16::X25);
    assert_eq!(USB, crc::crc16::USB);
    assert_eq!(IEEE, crc::crc32::IEEE);
    assert_eq!(CASTAGNOLI, crc::crc32::CASTAGNOLI);
    assert_eq!(KOOPMAN, crc::crc32::KOOPMAN);
    assert_eq!(ECMA, crc::crc64::ECMA);
    assert_eq!(ISO, crc::crc64::ISO);
}

#[test]
fn absent_selector_uses_width_default() {
    assert_eq!(resolve16(None), Ok(USB));
    assert_eq!(resolve32(None), Ok(IEEE));
    assert_eq!(resolve64(None), Ok(ISO));
    assert_eq!(crc16(CHECK, None), crc16(CHECK, Some("usb")));
    assert_eq!(crc32(CHECK, None), crc32(CHECK, Some("ieee")));
    assert_eq!(crc64(CHECK, None), crc64(CHECK, Some("iso")));
    assert_eq!(crc16(CHECK, None), Ok(46280));
    assert_eq!(crc32(CHECK, None), Ok(3421780262));
    assert_eq!(crc64(CHECK, None), Ok(0xb90956c775a41001));
}

#[test]
fn names_resolve_to_standard_constants() {
    assert_eq!(resolve16(Some("x25")), Ok(X25));
    assert_eq!(resolve16(Some("usb")), Ok(USB));
    assert_eq!(resolve32(Some("ieee")), Ok(IEEE));
    assert_eq!(resolve32(Some("castagnoli")), Ok(CASTAGNOLI));
    assert_eq!(resolve32(Some("koopman")), Ok(KOOPMAN));
    assert_eq!(resolve64(Some("ecma")), Ok(ECMA));
    assert_eq!(resolve64(Some("iso")), Ok(ISO));
}

#[test]
fn names_are_case_sensitive_and_width_scoped() {
    assert_eq!(resolve16(Some("USB")), Err(invalid("USB", Width::Bits16)));
    assert_eq!(resolve16(Some("ieee")), Err(invalid("ieee", Width::Bits16)));
    assert_eq!(resolve32(Some("x25")), Err(invalid("x25", Width::Bits32)));
    assert_eq!(resolve64(Some("koopman")), Err(invalid("koopman", Width::Bits64)));
}

#[test]
fn from_form_value_reads_each_kind_of_selector() {
    assert_eq!(Crc16Polynomial::from_form_value("x25"), Ok(Crc16Polynomial::X25));
    assert_eq!(Crc16Polynomial::from_form_value("usb"), Ok(Crc16Polynomial::Usb));
    assert_eq!(Crc16Polynomial::from_form_value("4129"), Ok(Crc16Polynomial::Custom(4129)));
    assert_eq!(Crc32Polynomial::from_form_value("ieee"), Ok(Crc32Polynomial::Ieee));
    assert_eq!(Crc32Polynomial::from_form_value("castagnoli"), Ok(Crc32Polynomial::Castagnoli));
    assert_eq!(Crc32Polynomial::from_form_value("koopman"), Ok(Crc32Polynomial::Koopman));
    assert_eq!(Crc32Polynomial::from_form_value("7"), Ok(Crc32Polynomial::Custom(7)));
    assert_eq!(Crc64Polynomial::from_form_value("ecma"), Ok(Crc64Polynomial::Ecma));
    assert_eq!(Crc64Polynomial::from_form_value("iso"), Ok(Crc64Polynomial::Iso));
    assert_eq!(Crc64Polynomial::from_form_value("0"), Ok(Crc64Polynomial::Custom(0)));
    assert_eq!(
        Crc64Polynomial::from_form_value("bogus"),
        Err(invalid("bogus", Width::Bits64))
    );
}

#[test]
fn selector_values() {
    assert_eq!(Crc16Polynomial::X25.value(), X25);
    assert_eq!(Crc16Polynomial::Usb.value(), USB);
    assert_eq!(Crc16Polynomial::Custom(5).value(), 5);
    assert_eq!(Crc32Polynomial::Ieee.value(), IEEE);
    assert_eq!(Crc32Polynomial::Castagnoli.value(), CASTAGNOLI);
    assert_eq!(Crc32Polynomial::Koopman.value(), KOOPMAN);
    assert_eq!(Crc32Polynomial::Custom(9).value(), 9);
    assert_eq!(Crc64Polynomial::Ecma.value(), ECMA);
    assert_eq!(Crc64Polynomial::Iso.value(), ISO);
    assert_eq!(Crc64Polynomial::Custom(11).value(), 11);
}

#[test]
fn numeric_selectors_resolve_to_their_value() {
    assert_eq!(resolve16(Some("65535")), Ok(65535));
    assert_eq!(resolve16(Some("0")), Ok(0));
    assert_eq!(resolve16(Some("007")), Ok(7));
    assert_eq!(resolve16(Some("+42")), Ok(42));
    assert_eq!(resolve32(Some("4294967295")), Ok(4294967295));
    assert_eq!(resolve64(Some("18446744073709551615")), Ok(u64::MAX));
    assert_eq!(resolve64(Some("12345678901234")), Ok(12345678901234));
}

#[test]
fn numeric_selectors_out_of_range_fail() {
    assert_eq!(resolve16(Some("65536")), Err(invalid("65536", Width::Bits16)));
    assert_eq!(resolve32(Some("4294967296")), Err(invalid("4294967296", Width::Bits32)));
    assert_eq!(
        resolve64(Some("18446744073709551616")),
        Err(invalid("18446744073709551616", Width::Bits64))
    );
    assert_eq!(
        resolve64(Some("99999999999999999999999")),
        Err(invalid("99999999999999999999999", Width::Bits64))
    );
}

#[test]
fn unrecognised_text_fails_at_every_width() {
    for text in ["notanumber", "", "+", "-1", "-0", " 1", "1 ", "1.5", "0x10", "++1", "１"] {
        assert_eq!(resolve16(Some(text)), Err(invalid(text, Width::Bits16)));
        assert_eq!(resolve32(Some(text)), Err(invalid(text, Width::Bits32)));
        assert_eq!(resolve64(Some(text)), Err(invalid(text, Width::Bits64)));
    }
}

#[test]
fn engine_is_deterministic() {
    let payload = b"the same bytes twice";
    assert_eq!(checksum16(X25, payload), checksum16(X25, payload));
    assert_eq!(checksum32(KOOPMAN, payload), checksum32(KOOPMAN, payload));
    assert_eq!(checksum64(ECMA, payload), checksum64(ECMA, payload));
    assert_eq!(crc32(payload, Some("castagnoli")), crc32(payload, Some("castagnoli")));
}

#[test]
fn empty_payload_gives_standard_empty_value() {
    assert_eq!(crc16(b"", Some("x25")), Ok(0));
    assert_eq!(crc16(b"", Some("usb")), Ok(0));
    assert_eq!(crc32(b"", Some("ieee")), Ok(0));
    assert_eq!(crc32(b"", Some("castagnoli")), Ok(0));
    assert_eq!(crc32(b"", Some("koopman")), Ok(0));
    assert_eq!(crc64(b"", Some("ecma")), Ok(0));
    assert_eq!(crc64(b"", Some("iso")), Ok(0));
    assert_eq!(checksum32(12345, b""), 0);
}

#[test]
fn check_vectors_for_named_polynomials() {
    assert_eq!(checksum16(X25, CHECK), 0x906e);
    assert_eq!(checksum16(USB, CHECK), 0xb4c8);
    assert_eq!(checksum32(IEEE, CHECK), 3421780262);
    assert_eq!(checksum32(CASTAGNOLI, CHECK), 0xe3069283);
    assert_eq!(checksum32(KOOPMAN, CHECK), 0x2d3dd0ae);
    assert_eq!(checksum64(ECMA, CHECK), 0x995dc9bbdf1939fa);
    assert_eq!(checksum64(ISO, CHECK), 0xb90956c775a41001);
}

#[test]
fn custom_polynomial_uses_reflected_table() {
    assert_eq!(crc16(CHECK, Some("12345")), Ok(62776));
    assert_eq!(crc16(CHECK, Some("65535")), Ok(64469));
    assert_eq!(crc32(b"abc", Some("4294967295")), Ok(960183551));
}

#[test]
fn scenario_width16_default_empty() {
    assert_eq!(crc16(b"", None), Ok(crc::crc16::checksum_usb(b"")));
    assert_eq!(crc16(b"", None), Ok(0));
}

#[test]
fn scenario_width16_x25_check_string() {
    assert_eq!(crc16(CHECK, Some("x25")), Ok(0x906e));
}

#[test]
fn scenario_width32_castagnoli_check_string() {
    assert_eq!(crc32(CHECK, Some("castagnoli")), Ok(3808858755));
}

#[test]
fn scenario_width32_largest_custom_polynomial() {
    let first = crc32(b"any bytes", Some("4294967295"));
    let second = crc32(b"any bytes", Some("4294967295"));
    assert!(first.is_ok());
    assert_eq!(first, second);
    assert_eq!(crc32(CHECK, Some("4294967295")), Ok(715170468));
}

#[test]
fn scenario_width64_not_a_number() {
    let err = crc64(CHECK, Some("notanumber")).unwrap_err();
    assert_eq!(err.offending_text, "notanumber");
    assert_eq!(err.width, Width::Bits64);
    assert_eq!(err.width.bits(), 64);
}

#[test]
fn scenario_width16_out_of_range() {
    assert_eq!(crc16(CHECK, Some("65536")), Err(invalid("65536", Width::Bits16)));
}

#[test]
fn width_bits() {
    assert_eq!(Width::Bits16.bits(), 16);
    assert_eq!(Width::Bits32.bits(), 32);
    assert_eq!(Width::Bits64.bits(), 64);
}

#[test]
fn parse_unsigned_follows_decimal_literal_rules() {
    assert_eq!(parse_unsigned("255", 255), Some(255));
    assert_eq!(parse_unsigned("256", 255), None);
    assert_eq!(parse_unsigned("+0", 5), Some(0));
    assert_eq!(parse_unsigned("9", 8), None);
    assert_eq!(parse_unsigned("18446744073709551615", u64::MAX), Some(u64::MAX));
    assert_eq!(parse_unsigned("", 10), None);
    assert_eq!(parse_unsigned("+", 10), None);
    assert_eq!(parse_unsigned("1a", 100), None);
    assert_eq!(parse_unsigned("99999999999999999999x", u64::MAX), None);
}
