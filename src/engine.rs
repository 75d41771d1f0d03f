use vstd::prelude::*;
use crc::{crc16, crc32, crc64, Hasher16, Hasher32, Hasher64};

verus! {

/// The 16-bit checksum of `data` under the reflected generator `poly`, as
/// computed by a fresh `crc::crc16::Digest`.
pub uninterp spec fn crc16_of(poly: u16, data: Seq<u8>) -> u16;

/// Relies on `crc::crc16::Digest::new`, `Hasher16::write` and
/// `Hasher16::sum16`: the digest starts from a zero register, and one `write`
/// of `data` followed by `sum16` gives the checksum of `data` under `poly`.
/// On no data `update` inverts the zero register twice, which gives zero.
#[verifier::external_body]
fn digest16(poly: u16, data: &[u8]) -> (r: u16)
    ensures
        r == crc16_of(poly, data@),
        data@.len() == 0 ==> r == 0,
{
    let mut digest = crc16::Digest::new(poly);
    Hasher16::write(&mut digest, data);
    digest.sum16()
}

/// The 16-bit checksum of `payload` under the generator `poly`.
pub fn checksum16(poly: u16, payload: &[u8]) -> (r: u16)
    ensures
        r == crc16_of(poly, payload@),
        payload@.len() == 0 ==> r == 0,
{
    digest16(poly, payload)
}

/// The 32-bit checksum of `data` under the reflected generator `poly`, as
/// computed by a fresh `crc::crc32::Digest`.
pub uninterp spec fn crc32_of(poly: u32, data: Seq<u8>) -> u32;

/// Relies on `crc::crc32::Digest::new`, `Hasher32::write` and
/// `Hasher32::sum32`: the digest starts from a zero register, and one `write`
/// of `data` followed by `sum32` gives the checksum of `data` under `poly`.
/// On no data `update` inverts the zero register twice, which gives zero.
#[verifier::external_body]
fn digest32(poly: u32, data: &[u8]) -> (r: u32)
    ensures
        r == crc32_of(poly, data@),
        data@.len() == 0 ==> r == 0,
{
    let mut digest = crc32::Digest::new(poly);
    Hasher32::write(&mut digest, data);
    digest.sum32()
}

/// The 32-bit checksum of `payload` under the generator `poly`.
pub fn checksum32(poly: u32, payload: &[u8]) -> (r: u32)
    ensures
        r == crc32_of(poly, payload@),
        payload@.len() == 0 ==> r == 0,
{
    digest32(poly, payload)
}

/// The 64-bit checksum of `data` under the reflected generator `poly`, as
/// computed by a fresh `crc::crc64::Digest`.
pub uninterp spec fn crc64_of(poly: u64, data: Seq<u8>) -> u64;

/// Relies on `crc::crc64::Digest::new`, `Hasher64::write` and
/// `Hasher64::sum64`: the digest starts from a zero register, and one `write`
/// of `data` followed by `sum64` gives the checksum of `data` under `poly`.
/// On no data `update` inverts the zero register twice, which gives zero.
#[verifier::external_body]
fn digest64(poly: u64, data: &[u8]) -> (r: u64)
    ensures
        r == crc64_of(poly, data@),
        data@.len() == 0 ==> r == 0,
{
    let mut digest = crc64::Digest::new(poly);
    Hasher64::write(&mut digest, data);
    digest.sum64()
}

/// The 64-bit checksum of `payload` under the generator `poly`.
pub fn checksum64(poly: u64, payload: &[u8]) -> (r: u64)
    ensures
        r == crc64_of(poly, payload@),
        payload@.len() == 0 ==> r == 0,
{
    digest64(poly, payload)
}

} // verus!
