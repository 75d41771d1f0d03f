use vstd::prelude::*;
use crate::engine::{checksum16, checksum32, checksum64, crc16_of, crc32_of, crc64_of};
use crate::polynomial::{
    invalid_for, resolve16, resolve32, resolve64, resolved16, resolved32, resolved64, selector_text,
    InvalidPolynomial, Width,
};

verus! {

/// Resolves the selector and, only when that succeeds, checksums the payload
/// with the resolved polynomial.
pub fn crc16(payload: &[u8], selector: Option<&str>) -> (r: Result<u16, InvalidPolynomial>)
    ensures
        match resolved16(selector_text(selector)) {
            Some(p) => r == Ok::<u16, InvalidPolynomial>(crc16_of(p, payload@)),
            None => r matches Err(e) && selector matches Some(text) && invalid_for(e, text@, Width::Bits16),
        },
        r matches Ok(c) ==> payload@.len() == 0 ==> c == 0,
{
    match resolve16(selector) {
        Ok(poly) => Ok(checksum16(poly, payload)),
        Err(e) => Err(e),
    }
}

/// Resolves the selector and, only when that succeeds, checksums the payload
/// with the resolved polynomial.
pub fn crc32(payload: &[u8], selector: Option<&str>) -> (r: Result<u32, InvalidPolynomial>)
    ensures
        match resolved32(selector_text(selector)) {
            Some(p) => r == Ok::<u32, InvalidPolynomial>(crc32_of(p, payload@)),
            None => r matches Err(e) && selector matches Some(text) && invalid_for(e, text@, Width::Bits32),
        },
        r matches Ok(c) ==> payload@.len() == 0 ==> c == 0,
{
    match resolve32(selector) {
        Ok(poly) => Ok(checksum32(poly, payload)),
        Err(e) => Err(e),
    }
}

/// Resolves the selector and, only when that succeeds, checksums the payload
/// with the resolved polynomial.
pub fn crc64(payload: &[u8], selector: Option<&str>) -> (r: Result<u64, InvalidPolynomial>)
    ensures
        match resolved64(selector_text(selector)) {
            Some(p) => r == Ok::<u64, InvalidPolynomial>(crc64_of(p, payload@)),
            None => r matches Err(e) && selector matches Some(text) && invalid_for(e, text@, Width::Bits64),
        },
        r matches Ok(c) ==> payload@.len() == 0 ==> c == 0,
{
    match resolve64(selector) {
        Ok(poly) => Ok(checksum64(poly, payload)),
        Err(e) => Err(e),
    }
}

} // verus!
