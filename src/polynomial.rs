use vstd::prelude::*;
use crate::decimal::{bounded_literal, parse_unsigned};

verus! {

/// Reflected generator of CRC-16/X-25.
pub const X25: u16 = 0x8408;

/// Reflected generator of CRC-16/USB.
pub const USB: u16 = 0xa001;

/// Reflected generator of CRC-32/IEEE.
pub const IEEE: u32 = 0xedb88320;

/// Reflected generator of CRC-32C (Castagnoli).
pub const CASTAGNOLI: u32 = 0x82f63b78;

/// Reflected generator of CRC-32K (Koopman).
pub const KOOPMAN: u32 = 0xeb31d82e;

/// Reflected generator of CRC-64/ECMA.
pub const ECMA: u64 = 0xc96c5795d7870f42;

/// Reflected generator of CRC-64/ISO.
pub const ISO: u64 = 0xd800000000000000;

/// The bit size of a checksum.
#[derive(Clone, Copy, Debug, PartialEq, Eq, Structural)]
pub enum Width {
    Bits16,
    Bits32,
    Bits64,
}

impl Width {
    /// The number of bits of the polynomial and of the checksum.
    pub open spec fn spec_bits(self) -> nat {
        match self {
            Width::Bits16 => 16,
            Width::Bits32 => 32,
            Width::Bits64 => 64,
        }
    }

    /// The number of bits of the polynomial and of the checksum.
    pub fn bits(&self) -> (r: u32)
        ensures
            r == self.spec_bits(),
    {
        match self {
            Width::Bits16 => 16,
            Width::Bits32 => 32,
            Width::Bits64 => 64,
        }
    }
}

/// A selector that is neither a name known for the width nor a decimal
/// number that fits in it.
#[derive(Clone, Debug, PartialEq, Eq)]
pub struct InvalidPolynomial {
    pub offending_text: String,
    pub width: Width,
}

/// The error for `text` at `width`.
pub open spec fn invalid_for(e: InvalidPolynomial, text: Seq<char>, width: Width) -> bool {
    e.offending_text@ == text && e.width == width
}

/// The text of a selector, when one is given.
pub open spec fn selector_text(selector: Option<&str>) -> Option<Seq<char>> {
    match selector {
        Some(s) => Some(s@),
        None => None,
    }
}

/// The name `x25`.
pub open spec fn word_x25() -> Seq<char> {
    seq!['x', '2', '5']
}

/// The name `usb`.
pub open spec fn word_usb() -> Seq<char> {
    seq!['u', 's', 'b']
}

/// The name `ieee`.
pub open spec fn word_ieee() -> Seq<char> {
    seq!['i', 'e', 'e', 'e']
}

/// The name `castagnoli`.
pub open spec fn word_castagnoli() -> Seq<char> {
    seq!['c', 'a', 's', 't', 'a', 'g', 'n', 'o', 'l', 'i']
}

/// The name `koopman`.
pub open spec fn word_koopman() -> Seq<char> {
    seq!['k', 'o', 'o', 'p', 'm', 'a', 'n']
}

/// The name `ecma`.
pub open spec fn word_ecma() -> Seq<char> {
    seq!['e', 'c', 'm', 'a']
}

/// The name `iso`.
pub open spec fn word_iso() -> Seq<char> {
    seq!['i', 's', 'o']
}

/// Whether `text` spells `word` exactly.
fn spells(text: &str, word: &str) -> (r: bool)
    ensures
        r == (text@ == word@),
{
    let n = text.unicode_len();
    if n != word.unicode_len() {
        return false;
    }
    let mut i: usize = 0;
    while i < n
        invariant
            n == text@.len(),
            n == word@.len(),
            i <= n,
            forall|k: int| 0 <= k < i ==> text@[k] == word@[k],
        decreases n - i,
    {
        if text.get_char(i) != word.get_char(i) {
            return false;
        }
        i = i + 1;
    }
    assert(text@ =~= word@);
    true
}

/// A polynomial selector for 16-bit checksums.
#[derive(Clone, Copy, Debug, PartialEq, Eq, Structural)]
pub enum Crc16Polynomial {
    X25,
    Usb,
    Custom(u16),
}

/// The selector that `text` names or spells as a number, if any.
pub open spec fn selected16(text: Seq<char>) -> Option<Crc16Polynomial> {
    if text == word_x25() {
        Some(Crc16Polynomial::X25)
    } else if text == word_usb() {
        Some(Crc16Polynomial::Usb)
    } else {
        match bounded_literal(text, u16::MAX as nat) {
            Some(n) => Some(Crc16Polynomial::Custom(n as u16)),
            None => None,
        }
    }
}

/// The polynomial that a selector, or its absence, stands for.
pub open spec fn resolved16(selector: Option<Seq<char>>) -> Option<u16> {
    match selector {
        None => Some(USB),
        Some(text) => match selected16(text) {
            Some(p) => Some(p.spec_value()),
            None => None,
        },
    }
}

impl Crc16Polynomial {
    /// The generator polynomial this selector stands for.
    pub open spec fn spec_value(self) -> u16 {
        match self {
            Crc16Polynomial::X25 => X25,
            Crc16Polynomial::Usb => USB,
            Crc16Polynomial::Custom(n) => n,
        }
    }

    /// The generator polynomial this selector stands for.
    pub fn value(&self) -> (r: u16)
        ensures
            r == self.spec_value(),
    {
        match self {
            Crc16Polynomial::X25 => X25,
            Crc16Polynomial::Usb => USB,
            Crc16Polynomial::Custom(n) => *n,
        }
    }

    /// Reads a selector: a name known for the width, else a decimal number
    /// that fits in 16 bits.
    pub fn from_form_value(text: &str) -> (r: Result<Crc16Polynomial, InvalidPolynomial>)
        ensures
            match selected16(text@) {
                Some(p) => r == Ok::<Crc16Polynomial, InvalidPolynomial>(p),
                None => r matches Err(e) && invalid_for(e, text@, Width::Bits16),
            },
    {
        proof {
            reveal_strlit("x25");
            reveal_strlit("usb");
        }
        if spells(text, "x25") {
            assert("x25"@ =~= word_x25());
            return Ok(Crc16Polynomial::X25);
        }
        if spells(text, "usb") {
            assert("usb"@ =~= word_usb());
            return Ok(Crc16Polynomial::Usb);
        }
        assert(text@ != word_x25()) by {
            assert("x25"@ =~= word_x25());
        }
        assert(text@ != word_usb()) by {
            assert("usb"@ =~= word_usb());
        }
        match parse_unsigned(text, u16::MAX as u64) {
            Some(n) => Ok(Crc16Polynomial::Custom(n as u16)),
            None => Err(
                InvalidPolynomial { offending_text: String::from_str(text), width: Width::Bits16 },
            ),
        }
    }
}

/// Resolves an optional selector to the polynomial of a 16-bit checksum; no
/// selector stands for the width's default.
pub fn resolve16(selector: Option<&str>) -> (r: Result<u16, InvalidPolynomial>)
    ensures
        match resolved16(selector_text(selector)) {
            Some(p) => r == Ok::<u16, InvalidPolynomial>(p),
            None => r matches Err(e) && selector matches Some(text) && invalid_for(e, text@, Width::Bits16),
        },
{
    match selector {
        None => Ok(USB),
        Some(text) => match Crc16Polynomial::from_form_value(text) {
            Ok(p) => Ok(p.value()),
            Err(e) => Err(e),
        },
    }
}

/// A polynomial selector for 32-bit checksums.
#[derive(Clone, Copy, Debug, PartialEq, Eq, Structural)]
pub enum Crc32Polynomial {
    Ieee,
    Castagnoli,
    Koopman,
    Custom(u32),
}

/// The selector that `text` names or spells as a number, if any.
pub open spec fn selected32(text: Seq<char>) -> Option<Crc32Polynomial> {
    if text == word_ieee() {
        Some(Crc32Polynomial::Ieee)
    } else if text == word_castagnoli() {
        Some(Crc32Polynomial::Castagnoli)
    } else if text == word_koopman() {
        Some(Crc32Polynomial::Koopman)
    } else {
        match bounded_literal(text, u32::MAX as nat) {
            Some(n) => Some(Crc32Polynomial::Custom(n as u32)),
            None => None,
        }
    }
}

/// The polynomial that a selector, or its absence, stands for.
pub open spec fn resolved32(selector: Option<Seq<char>>) -> Option<u32> {
    match selector {
        None => Some(IEEE),
        Some(text) => match selected32(text) {
            Some(p) => Some(p.spec_value()),
            None => None,
        },
    }
}

impl Crc32Polynomial {
    /// The generator polynomial this selector stands for.
    pub open spec fn spec_value(self) -> u32 {
        match self {
            Crc32Polynomial::Ieee => IEEE,
            Crc32Polynomial::Castagnoli => CASTAGNOLI,
            Crc32Polynomial::Koopman => KOOPMAN,
            Crc32Polynomial::Custom(n) => n,
        }
    }

    /// The generator polynomial this selector stands for.
    pub fn value(&self) -> (r: u32)
        ensures
            r == self.spec_value(),
    {
        match self {
            Crc32Polynomial::Ieee => IEEE,
            Crc32Polynomial::Castagnoli => CASTAGNOLI,
            Crc32Polynomial::Koopman => KOOPMAN,
            Crc32Polynomial::Custom(n) => *n,
        }
    }

    /// Reads a selector: a name known for the width, else a decimal number
    /// that fits in 32 bits.
    pub fn from_form_value(text: &str) -> (r: Result<Crc32Polynomial, InvalidPolynomial>)
        ensures
            match selected32(text@) {
                Some(p) => r == Ok::<Crc32Polynomial, InvalidPolynomial>(p),
                None => r matches Err(e) && invalid_for(e, text@, Width::Bits32),
            },
    {
        proof {
            reveal_strlit("ieee");
            reveal_strlit("castagnoli");
            reveal_strlit("koopman");
        }
        if spells(text, "ieee") {
            assert("ieee"@ =~= word_ieee());
            return Ok(Crc32Polynomial::Ieee);
        }
        if spells(text, "castagnoli") {
            assert("castagnoli"@ =~= word_castagnoli());
            return Ok(Crc32Polynomial::Castagnoli);
        }
        if spells(text, "koopman") {
            assert("koopman"@ =~= word_koopman());
            return Ok(Crc32Polynomial::Koopman);
        }
        assert(text@ != word_ieee()) by {
            assert("ieee"@ =~= word_ieee());
        }
        assert(text@ != word_castagnoli()) by {
            assert("castagnoli"@ =~= word_castagnoli());
        }
        assert(text@ != word_koopman()) by {
            assert("koopman"@ =~= word_koopman());
        }
        match parse_unsigned(text, u32::MAX as u64) {
            Some(n) => Ok(Crc32Polynomial::Custom(n as u32)),
            None => Err(
                InvalidPolynomial { offending_text: String::from_str(text), width: Width::Bits32 },
            ),
        }
    }
}

/// Resolves an optional selector to the polynomial of a 32-bit checksum; no
/// selector stands for the width's default.
pub fn resolve32(selector: Option<&str>) -> (r: Result<u32, InvalidPolynomial>)
    ensures
        match resolved32(selector_text(selector)) {
            Some(p) => r == Ok::<u32, InvalidPolynomial>(p),
            None => r matches Err(e) && selector matches Some(text) && invalid_for(e, text@, Width::Bits32),
        },
{
    match selector {
        None => Ok(IEEE),
        Some(text) => match Crc32Polynomial::from_form_value(text) {
            Ok(p) => Ok(p.value()),
            Err(e) => Err(e),
        },
    }
}

/// A polynomial selector for 64-bit checksums.
#[derive(Clone, Copy, Debug, PartialEq, Eq, Structural)]
pub enum Crc64Polynomial {
    Ecma,
    Iso,
    Custom(u64),
}

/// The selector that `text` names or spells as a number, if any.
pub open spec fn selected64(text: Seq<char>) -> Option<Crc64Polynomial> {
    if text == word_ecma() {
        Some(Crc64Polynomial::Ecma)
    } else if text == word_iso() {
        Some(Crc64Polynomial::Iso)
    } else {
        match bounded_literal(text, u64::MAX as nat) {
            Some(n) => Some(Crc64Polynomial::Custom(n as u64)),
            None => None,
        }
    }
}

/// The polynomial that a selector, or its absence, stands for.
pub open spec fn resolved64(selector: Option<Seq<char>>) -> Option<u64> {
    match selector {
        None => Some(ISO),
        Some(text) => match selected64(text) {
            Some(p) => Some(p.spec_value()),
            None => None,
        },
    }
}

impl Crc64Polynomial {
    /// The generator polynomial this selector stands for.
    pub open spec fn spec_value(self) -> u64 {
        match self {
            Crc64Polynomial::Ecma => ECMA,
            Crc64Polynomial::Iso => ISO,
            Crc64Polynomial::Custom(n) => n,
        }
    }

    /// The generator polynomial this selector stands for.
    pub fn value(&self) -> (r: u64)
        ensures
            r == self.spec_value(),
    {
        match self {
            Crc64Polynomial::Ecma => ECMA,
            Crc64Polynomial::Iso => ISO,
            Crc64Polynomial::Custom(n) => *n,
        }
    }

    /// Reads a selector: a name known for the width, else a decimal number
    /// that fits in 64 bits.
    pub fn from_form_value(text: &str) -> (r: Result<Crc64Polynomial, InvalidPolynomial>)
        ensures
            match selected64(text@) {
                Some(p) => r == Ok::<Crc64Polynomial, InvalidPolynomial>(p),
                None => r matches Err(e) && invalid_for(e, text@, Width::Bits64),
            },
    {
        proof {
            reveal_strlit("ecma");
            reveal_strlit("iso");
        }
        if spells(text, "ecma") {
            assert("ecma"@ =~= word_ecma());
            return Ok(Crc64Polynomial::Ecma);
        }
        if spells(text, "iso") {
            assert("iso"@ =~= word_iso());
            return Ok(Crc64Polynomial::Iso);
        }
        assert(text@ != word_ecma()) by {
            assert("ecma"@ =~= word_ecma());
        }
        assert(text@ != word_iso()) by {
            assert("iso"@ =~= word_iso());
        }
        match parse_unsigned(text, u64::MAX as u64) {
            Some(n) => Ok(Crc64Polynomial::Custom(n as u64)),
            None => Err(
                InvalidPolynomial { offending_text: String::from_str(text), width: Width::Bits64 },
            ),
        }
    }
}

/// Resolves an optional selector to the polynomial of a 64-bit checksum; no
/// selector stands for the width's default.
pub fn resolve64(selector: Option<&str>) -> (r: Result<u64, InvalidPolynomial>)
    ensures
        match resolved64(selector_text(selector)) {
            Some(p) => r == Ok::<u64, InvalidPolynomial>(p),
            None => r matches Err(e) && selector matches Some(text) && invalid_for(e, text@, Width::Bits64),
        },
{
    match selector {
        None => Ok(ISO),
        Some(text) => match Crc64Polynomial::from_form_value(text) {
            Ok(p) => Ok(p.value()),
            Err(e) => Err(e),
        },
    }
}

} // verus!
