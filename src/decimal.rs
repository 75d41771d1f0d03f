use vstd::prelude::*;

verus! {

/// An ASCII decimal digit.
pub open spec fn is_digit(c: char) -> bool {
    '0' <= c && c <= '9'
}

/// The value of a run of decimal digits, most significant first.
pub open spec fn digits_value(s: Seq<char>) -> nat
    decreases s.len(),
{
    if s.len() == 0 {
        0
    } else {
        digits_value(s.drop_last()) * 10 + (s.last() as nat - '0' as nat) as nat
    }
}

/// The digits that follow an optional leading `+`.
pub open spec fn unsigned_digits(s: Seq<char>) -> Seq<char> {
    if s.len() > 0 && s[0] == '+' {
        s.subrange(1, s.len() as int)
    } else {
        s
    }
}

/// The number an unsigned decimal literal denotes: an optional `+` followed by
/// at least one digit and nothing else. Any other text denotes no number.
pub open spec fn unsigned_literal(s: Seq<char>) -> Option<nat> {
    let d = unsigned_digits(s);
    if d.len() > 0 && forall|i: int| 0 <= i < d.len() ==> is_digit(#[trigger] d[i]) {
        Some(digits_value(d))
    } else {
        None
    }
}

/// The literal of `s` when it denotes a number no greater than `max`.
pub open spec fn bounded_literal(s: Seq<char>, max: nat) -> Option<nat> {
    match unsigned_literal(s) {
        Some(n) => if n <= max {
            Some(n)
        } else {
            None
        },
        None => None,
    }
}

/// The canonical decimal form of `n`: no sign, no leading zeros.
pub open spec fn decimal_text(n: nat) -> Seq<char>
    decreases n,
{
    if n < 10 {
        seq![digit_char(n)]
    } else {
        decimal_text(n / 10).push(digit_char(n % 10))
    }
}

/// The digit that stands for `d`, for `d` below ten.
pub open spec fn digit_char(d: nat) -> char {
    ('0' as nat + d) as char
}

proof fn lemma_digits_value_push(s: Seq<char>, c: char)
    ensures
        digits_value(s.push(c)) == digits_value(s) * 10 + (c as nat - '0' as nat) as nat,
{
    assert(s.push(c).drop_last() =~= s);
}

/// The canonical decimal form of `n` is a literal that denotes `n`.
pub proof fn lemma_decimal_text(n: nat)
    ensures
        decimal_text(n).len() > 0,
        forall|i: int| 0 <= i < decimal_text(n).len() ==> is_digit(#[trigger] decimal_text(n)[i]),
        digits_value(decimal_text(n)) == n,
        unsigned_literal(decimal_text(n)) == Some(n),
    decreases n,
{
    if n < 10 {
        let e = Seq::<char>::empty();
        assert(digits_value(e) == 0);
        lemma_digits_value_push(e, digit_char(n));
        assert(e.push(digit_char(n)) =~= decimal_text(n));
        assert(digit_char(n) as nat == '0' as nat + n);
    } else {
        lemma_decimal_text(n / 10);
        let p = decimal_text(n / 10);
        let c = digit_char(n % 10);
        lemma_digits_value_push(p, c);
        assert(c as nat == '0' as nat + n % 10);
        assert(n == (n / 10) * 10 + n % 10) by (nonlinear_arith);
        assert forall|i: int| 0 <= i < p.push(c).len() implies is_digit(#[trigger] p.push(c)[i]) by {
            if i < p.len() {
                assert(p.push(c)[i] == p[i]);
            }
        }
    }
    let s = decimal_text(n);
    assert(unsigned_digits(s) == s) by {
        assert(is_digit(s[0]));
    }
}

proof fn lemma_digits_value_grows(s: Seq<char>, c: char)
    requires
        is_digit(c),
    ensures
        digits_value(s.push(c)) >= digits_value(s),
{
    lemma_digits_value_push(s, c);
}

/// Reads `text` as an unsigned decimal literal, as `str::parse` does for
/// unsigned integers: an optional `+`, then one or more digits, with a value
/// no greater than `max`.
pub fn parse_unsigned(text: &str, max: u64) -> (r: Option<u64>)
    ensures
        match bounded_literal(text@, max as nat) {
            Some(n) => r == Some(n as u64),
            None => r is None,
        },
{
    let len = text.unicode_len();
    let mut start: usize = 0;
    if len > 0 && text.get_char(0) == '+' {
        start = 1;
    }
    let ghost d = unsigned_digits(text@);
    assert(d =~= text@.subrange(start as int, len as int));
    if start == len {
        return None;
    }
    let mut value: u64 = 0;
    let mut too_big = false;
    let mut i: usize = start;
    while i < len
        invariant
            start <= i <= len,
            len == text@.len(),
            d == unsigned_digits(text@),
            d =~= text@.subrange(start as int, len as int),
            forall|k: int| start <= k < i ==> is_digit(#[trigger] text@[k]),
            too_big ==> digits_value(text@.subrange(start as int, i as int)) > max,
            !too_big ==> value == digits_value(text@.subrange(start as int, i as int)),
            !too_big ==> value <= max,
        decreases len - i,
    {
        let c = text.get_char(i);
        if !('0' <= c && c <= '9') {
            assert(!is_digit(d[i - start]));
            assert(unsigned_literal(text@) is None);
            return None;
        }
        let digit = (c as u32 - '0' as u32) as u64;
        let ghost prefix = text@.subrange(start as int, i as int);
        assert(text@.subrange(start as int, i + 1) =~= prefix.push(c));
        proof {
            lemma_digits_value_push(prefix, c);
        }
        if !too_big {
            if digit > max || value > (max - digit) / 10 {
                too_big = true;
                assert(value * 10 + digit > max) by (nonlinear_arith)
                    requires
                        digit > max || value > (max - digit) / 10,
                ;
            } else {
                assert(value * 10 + digit <= max) by (nonlinear_arith)
                    requires
                        value <= (max - digit) / 10,
                        digit <= max,
                ;
                value = value * 10 + digit;
            }
        } else {
            proof {
                lemma_digits_value_grows(prefix, c);
            }
        }
        i = i + 1;
    }
    assert(text@.subrange(start as int, len as int) =~= d);
    assert forall|k: int| 0 <= k < d.len() implies is_digit(#[trigger] d[k]) by {
        assert(d[k] == text@[k + start]);
    }
    if too_big {
        None
    } else {
        Some(value)
    }
}

} // verus!
