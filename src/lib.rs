//! The core of a checksum service: resolves a textual polynomial selector for
//! a CRC width (16, 32 or 64 bits) and computes the checksum of a payload.

mod decimal;
mod engine;
mod laws;
mod polynomial;
mod service;

pub use decimal::{
    bounded_literal, decimal_text, digit_char, digits_value, is_digit, lemma_decimal_text,
    parse_unsigned, unsigned_digits, unsigned_literal,
};
pub use engine::{checksum16, checksum32, checksum64, crc16_of, crc32_of, crc64_of};
pub use laws::{
    absent_selector_is_default_name, decimal_forms_resolve_to_themselves,
    names_resolve_to_standard_polynomials, numbers_resolve_to_themselves, unrecognised_text_resolves_nowhere,
};
pub use polynomial::{
    invalid_for, resolve16, resolve32, resolve64, resolved16, resolved32, resolved64,
    selected16, selected32, selected64, selector_text, word_castagnoli, word_ecma, word_ieee,
    word_iso, word_koopman, word_usb, word_x25, Crc16Polynomial, Crc32Polynomial,
    Crc64Polynomial, InvalidPolynomial, Width, CASTAGNOLI, ECMA, IEEE, ISO, KOOPMAN, USB, X25,
};
pub use service::{crc16, crc32, crc64};
