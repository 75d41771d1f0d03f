use vstd::prelude::*;
use crate::decimal::{decimal_text, is_digit, lemma_decimal_text, unsigned_digits, unsigned_literal};
use crate::polynomial::{
    resolved16, resolved32, resolved64, word_castagnoli, word_ecma, word_ieee, word_iso,
    word_koopman, word_usb, word_x25, CASTAGNOLI, ECMA, IEEE, ISO, KOOPMAN, USB, X25,
};

verus! {

/// Leaving the selector out picks the same polynomial as naming the width's
/// default: `usb` for 16 bits, `ieee` for 32 bits, `iso` for 64 bits.
pub proof fn absent_selector_is_default_name()
    ensures
        resolved16(None) == resolved16(Some(word_usb())),
        resolved32(None) == resolved32(Some(word_ieee())),
        resolved64(None) == resolved64(Some(word_iso())),
{
    assert(word_usb() != word_x25());
    assert(word_iso() != word_ecma());
}

/// Every name resolves to its standard polynomial.
pub proof fn names_resolve_to_standard_polynomials()
    ensures
        resolved16(Some(word_x25())) == Some(X25),
        resolved16(Some(word_usb())) == Some(USB),
        resolved32(Some(word_ieee())) == Some(IEEE),
        resolved32(Some(word_castagnoli())) == Some(CASTAGNOLI),
        resolved32(Some(word_koopman())) == Some(KOOPMAN),
        resolved64(Some(word_ecma())) == Some(ECMA),
        resolved64(Some(word_iso())) == Some(ISO),
{
    assert(word_usb() != word_x25());
    assert(word_castagnoli() != word_ieee());
    assert(word_koopman() != word_ieee());
    assert(word_koopman() != word_castagnoli());
    assert(word_iso() != word_ecma());
}

/// Text that denotes a number starts with `+` or a digit.
proof fn literal_starts_with_sign_or_digit(text: Seq<char>)
    requires
        unsigned_literal(text) is Some,
    ensures
        text.len() > 0,
        text[0] == '+' || is_digit(text[0]),
{
    let d = unsigned_digits(text);
    if !(text.len() > 0 && text[0] == '+') {
        assert(d == text);
        assert(is_digit(d[0]));
    }
}

/// A decimal number resolves to itself at every width it fits in, and fails
/// to resolve at every width it does not fit in.
pub proof fn numbers_resolve_to_themselves(text: Seq<char>, n: nat)
    requires
        unsigned_literal(text) == Some(n),
    ensures
        n <= u16::MAX ==> resolved16(Some(text)) == Some(n as u16),
        n > u16::MAX ==> resolved16(Some(text)) is None,
        n <= u32::MAX ==> resolved32(Some(text)) == Some(n as u32),
        n > u32::MAX ==> resolved32(Some(text)) is None,
        n <= u64::MAX ==> resolved64(Some(text)) == Some(n as u64),
        n > u64::MAX ==> resolved64(Some(text)) is None,
{
    literal_starts_with_sign_or_digit(text);
    assert(text[0] != word_x25()[0]);
    assert(text[0] != word_usb()[0]);
    assert(text[0] != word_ieee()[0]);
    assert(text[0] != word_castagnoli()[0]);
    assert(text[0] != word_koopman()[0]);
    assert(text[0] != word_ecma()[0]);
    assert(text[0] != word_iso()[0]);
}

/// The decimal form of `n` resolves to `n` at every width it fits in, and
/// fails to resolve at every width it does not fit in.
pub proof fn decimal_forms_resolve_to_themselves(n: nat)
    ensures
        n <= u16::MAX ==> resolved16(Some(decimal_text(n))) == Some(n as u16),
        n > u16::MAX ==> resolved16(Some(decimal_text(n))) is None,
        n <= u32::MAX ==> resolved32(Some(decimal_text(n))) == Some(n as u32),
        n > u32::MAX ==> resolved32(Some(decimal_text(n))) is None,
        n <= u64::MAX ==> resolved64(Some(decimal_text(n))) == Some(n as u64),
        n > u64::MAX ==> resolved64(Some(decimal_text(n))) is None,
{
    lemma_decimal_text(n);
    numbers_resolve_to_themselves(decimal_text(n), n);
}

/// Text that is no name and denotes no number resolves at no width.
pub proof fn unrecognised_text_resolves_nowhere(text: Seq<char>)
    requires
        unsigned_literal(text) is None,
        text != word_x25(),
        text != word_usb(),
        text != word_ieee(),
        text != word_castagnoli(),
        text != word_koopman(),
        text != word_ecma(),
        text != word_iso(),
    ensures
        resolved16(Some(text)) is None,
        resolved32(Some(text)) is None,
        resolved64(Some(text)) is None,
{
}

} // verus!
