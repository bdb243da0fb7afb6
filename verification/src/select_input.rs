use vstd::prelude::*;

use crate::errors::UiError;
use vstd::string::StringSliceAdditionalSpecFns;
use vstd::utf8::encode_utf8;

verus! {

/// An ASCII decimal digit, `'0'` to `'9'`.
pub open spec fn is_ascii_digit(b: u8) -> bool {
    48u8 <= b && b <= 57u8
}

/// Every byte of `s` is an ASCII decimal digit.
pub open spec fn all_digits(s: Seq<u8>) -> bool {
    forall|i: int| 0 <= i < s.len() ==> is_ascii_digit(#[trigger] s[i])
}

/// The number that a run of decimal digits spells, most significant digit first.
pub open spec fn digits_value(s: Seq<u8>) -> nat
    decreases s.len(),
{
    if s.len() == 0 {
        0
    } else {
        digits_value(s.drop_last()) * 10 + (s.last() - 48) as nat
    }
}

/// The integer that `s` spells: an optional `+` or `-` sign followed by one or more
/// ASCII decimal digits, and nothing else (no blanks, no other characters).
pub open spec fn decimal_value(s: Seq<u8>) -> Option<int> {
    if s.len() > 0 && (s[0] == 43u8 || s[0] == 45u8) {
        let d = s.drop_first();
        if d.len() > 0 && all_digits(d) {
            if s[0] == 45u8 {
                Some(-(digits_value(d) as int))
            } else {
                Some(digits_value(d) as int)
            }
        } else {
            None
        }
    } else if s.len() > 0 && all_digits(s) {
        Some(digits_value(s) as int)
    } else {
        None
    }
}

/// What reading the bytes `s` as a decimal `i32` gives: the value it spells when
/// that value fits in an `i32`, and nothing otherwise.
pub open spec fn spec_parse_i32(s: Seq<u8>) -> Option<i32> {
    match decimal_value(s) {
        Some(v) => if i32::MIN <= v <= i32::MAX {
            Some(v as i32)
        } else {
            None
        },
        None => None,
    }
}

/// What `parse_id` answers for the text `s`.
pub open spec fn spec_parse_id(s: Seq<u8>) -> Result<usize, UiError> {
    match spec_parse_i32(s) {
        Some(n) => if n >= 0 {
            Ok(n as usize)
        } else {
            Err(UiError::NumberNotFoundError)
        },
        None => Err(UiError::NumberNotFoundError),
    }
}

/// The bound at which the accumulated magnitude stops growing while reading digits:
/// one above the largest magnitude an `i32` can hold.
spec fn magnitude_cap() -> nat {
    2147483649
}

spec fn capped(v: nat) -> nat {
    if v < magnitude_cap() {
        v
    } else {
        magnitude_cap()
    }
}

proof fn lemma_digits_push(s: Seq<u8>, lo: int, hi: int)
    requires
        0 <= lo <= hi < s.len(),
    ensures
        digits_value(s.subrange(lo, hi + 1)) == digits_value(s.subrange(lo, hi)) * 10 + (s[hi]
            - 48) as nat,
{
    let t = s.subrange(lo, hi + 1);
    assert(t.drop_last() =~= s.subrange(lo, hi));
    assert(t.last() == s[hi]);
}

/// Reads `input` as a decimal `i32`, as the standard library's `str::parse::<i32>`
/// does: an optional sign, then digits only; anything else, or a value out of
/// range, gives `None`.
pub fn parse_i32(input: &str) -> (r: Option<i32>)
    ensures
        r == spec_parse_i32(input.spec_bytes()),
{
    let bytes = input.as_bytes();
    let n = bytes.len();
    let ghost s = bytes@;
    if n == 0 {
        return None;
    }
    let mut start: usize = 0;
    let mut negative = false;
    if bytes[0] == 43u8 {
        start = 1;
    } else if bytes[0] == 45u8 {
        start = 1;
        negative = true;
    }
    if start == n {
        return None;
    }
    proof {
        if start == 1 {
            assert(s.subrange(1, n as int) =~= s.drop_first());
        } else {
            assert(s.subrange(0, n as int) =~= s);
        }
    }
    let mut acc: u64 = 0;
    let mut i: usize = start;
    assert(s.subrange(start as int, start as int) =~= Seq::<u8>::empty());
    while i < n
        invariant
            s == bytes@,
            s == input.spec_bytes(),
            n == s.len(),
            start <= i <= n,
            start < n,
            start == 0 || start == 1,
            start == 1 <==> (s[0] == 43u8 || s[0] == 45u8),
            negative <==> s[0] == 45u8,
            all_digits(s.subrange(start as int, i as int)),
            acc as nat == capped(digits_value(s.subrange(start as int, i as int))),
        decreases n - i,
    {
        let b = bytes[i];
        if b < 48u8 || b > 57u8 {
            proof {
                let d = s.subrange(start as int, n as int);
                assert(d[i - start] == b);
                assert(!all_digits(d));
                if start == 1 {
                    assert(d =~= s.drop_first());
                } else {
                    assert(d =~= s);
                }
            }
            return None;
        }
        proof {
            lemma_digits_push(s, start as int, i as int);
            let p = s.subrange(start as int, i as int);
            let q = s.subrange(start as int, i + 1);
            assert forall|k: int| 0 <= k < q.len() implies is_ascii_digit(#[trigger] q[k]) by {
                if k < p.len() {
                    assert(q[k] == p[k]);
                }
            }
        }
        let digit = (b - 48u8) as u64;
        acc = acc * 10 + digit;
        if acc > 2147483649u64 {
            acc = 2147483649u64;
        }
        i = i + 1;
    }
    proof {
        let d = s.subrange(start as int, n as int);
        assert(d.len() > 0);
    }
    if negative {
        if acc > 2147483648u64 {
            None
        } else {
            Some((0i64 - acc as i64) as i32)
        }
    } else {
        if acc > 2147483647u64 {
            None
        } else {
            Some(acc as i32)
        }
    }
}

/// Reads a number typed by the user and checks it with `validation`: empty text,
/// text that is not a decimal `i32`, and a number that `validation` refuses all
/// give `error`.
pub fn parse_value<E: Copy, F: FnOnce(i32) -> bool>(input: &str, error: E, validation: F) -> (r:
    Result<i32, E>)
    requires
        forall|n: i32| validation.requires((n,)),
    ensures
        match spec_parse_i32(input.spec_bytes()) {
            None => r == Err::<i32, E>(error),
            Some(n) => (r == Ok::<i32, E>(n) && validation.ensures((n,), true)) || (r == Err::<
                i32,
                E,
            >(error) && validation.ensures((n,), false)),
        },
{
    match parse_i32(input) {
        None => Err(error),
        Some(value) => {
            if validation(value) {
                Ok(value)
            } else {
                Err(error)
            }
        },
    }
}

/// Reads the number of an object, camera or light: a decimal integer from 0 up to
/// `i32::MAX`.
pub fn parse_id(id: &str) -> (r: Result<usize, UiError>)
    ensures
        r == spec_parse_id(id.spec_bytes()),
{
    let non_negative = |n: i32| -> (ok: bool)
        ensures
            ok == (n >= 0),
        { n >= 0 };
    let parsed = parse_value(id, UiError::NumberNotFoundError, non_negative);
    match parsed {
        Ok(n) => Ok(n as usize),
        Err(e) => Err(e),
    }
}

/// The decimal spelling of `n`, without sign and without leading zeros, as
/// `format!("{}", n)` writes it.
pub open spec fn decimal_digits(n: nat) -> Seq<u8>
    decreases n,
{
    if n < 10 {
        seq![(n + 48) as u8]
    } else {
        decimal_digits(n / 10).push((n % 10 + 48) as u8)
    }
}

proof fn lemma_decimal_digits(n: nat)
    ensures
        decimal_digits(n).len() > 0,
        all_digits(decimal_digits(n)),
        digits_value(decimal_digits(n)) == n,
    decreases n,
{
    let s = decimal_digits(n);
    if n < 10 {
        assert(s.drop_last() =~= Seq::<u8>::empty());
        assert(digits_value(s) == digits_value(s.drop_last()) * 10 + (s.last() - 48) as nat);
    } else {
        lemma_decimal_digits(n / 10);
        let p = decimal_digits(n / 10);
        assert(s.drop_last() =~= p);
        assert(s.last() == (n % 10 + 48) as u8);
        assert(digits_value(s) == digits_value(p) * 10 + (s.last() - 48) as nat);
        assert((n / 10) * 10 + n % 10 == n);
        assert forall|i: int| 0 <= i < s.len() implies is_ascii_digit(#[trigger] s[i]) by {
            if i < p.len() {
                assert(s[i] == p[i]);
            }
        }
    }
}

/// Every object number that the interface shows can be typed back: reading the
/// decimal spelling of a number from 0 to `i32::MAX` as an id gives that number.
pub proof fn lemma_parse_id_of_decimal(n: usize)
    requires
        n <= i32::MAX,
    ensures
        spec_parse_id(decimal_digits(n as nat)) == Ok::<usize, UiError>(n),
{
    lemma_decimal_digits(n as nat);
    let s = decimal_digits(n as nat);
    assert(is_ascii_digit(s[0]));
}

/// The decimal spelling of `n` as text (characters `'0'` to `'9'`).
pub open spec fn decimal_chars(n: nat) -> Seq<char> {
    decimal_digits(n).map_values(|b: u8| b as char)
}

/// The UTF-8 bytes of the decimal text of `n` are its decimal digits.
pub proof fn lemma_encode_decimal_chars(n: nat)
    ensures
        encode_utf8(decimal_chars(n)) == decimal_digits(n),
{
    lemma_decimal_digits(n);
    let d = decimal_digits(n);
    let c = decimal_chars(n);
    assert forall|i: int| 0 <= i < c.len() implies '\0' <= #[trigger] c[i] <= '\u{7f}' && c[i]
        as u8 == d[i] by {
        assert(is_ascii_digit(d[i]));
        assert(c[i] == d[i] as char);
    }
    vstd::utf8::is_ascii_chars_encode_utf8(c);
    assert(encode_utf8(c) =~= d);
}

/// Reading decimal text: the spelling of any `n` up to `i32::MAX` reads as `n`, also
/// with a leading `+`; with a leading `-`, any `n` up to 2^31 reads as `-n`; the
/// spelling of a number past `i32::MAX` is refused.
pub proof fn lemma_parse_i32_of_decimal(n: nat)
    ensures
        n <= i32::MAX ==> spec_parse_i32(decimal_digits(n)) == Some(n as i32),
        n <= i32::MAX ==> spec_parse_i32(seq![43u8] + decimal_digits(n)) == Some(n as i32),
        n <= 2147483648 ==> spec_parse_i32(seq![45u8] + decimal_digits(n)) == Some(
            (-(n as int)) as i32,
        ),
        n > i32::MAX ==> spec_parse_i32(decimal_digits(n)) is None,
{
    lemma_decimal_digits(n);
    let d = decimal_digits(n);
    assert(is_ascii_digit(d[0]));
    assert((seq![43u8] + d).drop_first() =~= d);
    assert((seq![45u8] + d).drop_first() =~= d);
    assert((seq![43u8] + d)[0] == 43u8);
    assert((seq![45u8] + d)[0] == 45u8);
}

/// Text that holds a byte other than a digit, except for a sign in first place, is
/// refused; so are the empty text and a sign alone.
pub proof fn lemma_parse_i32_refuses(s: Seq<u8>, i: int)
    ensures
        spec_parse_i32(Seq::<u8>::empty()) is None,
        spec_parse_i32(seq![43u8]) is None,
        spec_parse_i32(seq![45u8]) is None,
        0 <= i < s.len() && !(48u8 <= s[i] && s[i] <= 57u8) && !(i == 0 && (s[i] == 43u8 || s[i]
            == 45u8)) ==> spec_parse_i32(s) is None,
{
    assert(seq![43u8].drop_first() =~= Seq::<u8>::empty());
    assert(seq![45u8].drop_first() =~= Seq::<u8>::empty());
    if 0 <= i < s.len() && !(48u8 <= s[i] && s[i] <= 57u8) && !(i == 0 && (s[i] == 43u8 || s[i]
        == 45u8)) {
        if s[0] == 43u8 || s[0] == 45u8 {
            assert(s.drop_first()[i - 1] == s[i]);
        }
    }
}

proof fn lemma_leading_zero(d: Seq<u8>)
    ensures
        digits_value(seq![48u8] + d) == digits_value(d),
    decreases d.len(),
{
    let z = seq![48u8] + d;
    if d.len() == 0 {
        assert(z.drop_last() =~= Seq::<u8>::empty());
        assert(z.last() == 48u8);
        assert(digits_value(z) == digits_value(z.drop_last()) * 10 + (z.last() - 48) as nat);
    } else {
        lemma_leading_zero(d.drop_last());
        assert(z.drop_last() =~= seq![48u8] + d.drop_last());
        assert(z.last() == d.last());
        assert(digits_value(z) == digits_value(z.drop_last()) * 10 + (z.last() - 48) as nat);
        assert(digits_value(d) == digits_value(d.drop_last()) * 10 + (d.last() - 48) as nat);
    }
}

/// Leading zeros do not change what decimal text reads as: `0` followed by the
/// spelling of `n` (up to `i32::MAX`) reads as `n`.
pub proof fn lemma_parse_i32_leading_zero(n: nat)
    ensures
        n <= i32::MAX ==> spec_parse_i32(seq![48u8] + decimal_digits(n)) == Some(n as i32),
{
    lemma_decimal_digits(n);
    let d = decimal_digits(n);
    lemma_leading_zero(d);
    let z = seq![48u8] + d;
    assert forall|i: int| 0 <= i < z.len() implies is_ascii_digit(#[trigger] z[i]) by {
        if i > 0 {
            assert(z[i] == d[i - 1]);
        }
    }
}

/// An id is accepted exactly when the text reads as a whole number that is not
/// negative, and then it is that number; otherwise it is refused with
/// `NumberNotFoundError`.
pub proof fn lemma_parse_id_reads_non_negative(s: Seq<u8>)
    ensures
        spec_parse_i32(s) is Some && spec_parse_i32(s)->0 >= 0 ==> spec_parse_id(s) == Ok::<
            usize,
            UiError,
        >(spec_parse_i32(s)->0 as usize),
        !(spec_parse_i32(s) is Some && spec_parse_i32(s)->0 >= 0) ==> spec_parse_id(s) == Err::<
            usize,
            UiError,
        >(UiError::NumberNotFoundError),
{
}

} // verus!
