//! Validation of the demo server's command-line number arguments, decided on
//! the argument's UTF-8 bytes: a count must be a decimal a `u32` holds, and
//! a delay must be a text that floating-point parsing accepts — an optional
//! sign, then a decimal number with optional point and exponent, or one of
//! the special words. Validation is parse-only: a parseable negative delay
//! passes here and is refused downstream.

use vstd::prelude::*;
use vstd::utf8::encode_utf8;

verus! {

/// An ASCII decimal digit.
pub open spec fn is_digit_byte(b: u8) -> bool {
    0x30 <= b <= 0x39
}

/// Every byte of the text is an ASCII decimal digit.
pub open spec fn all_digit_bytes(s: Seq<u8>) -> bool {
    forall|i: int| 0 <= i < s.len() ==> is_digit_byte(#[trigger] s[i])
}

/// The number a digit text writes, most significant digit first.
pub open spec fn digits_value(s: Seq<u8>) -> int
    decreases s.len(),
{
    if s.len() == 0 {
        0
    } else {
        digits_value(s.drop_last()) * 10 + (s.last() - 0x30)
    }
}

/// The digit part of a number text: what follows an optional leading plus.
pub open spec fn spec_number_digits(s: Seq<u8>) -> Seq<u8> {
    if s.len() > 0 && s[0] == 0x2b {
        s.drop_first()
    } else {
        s
    }
}

/// The texts `u32` accepts: an optional plus sign, then one or more decimal
/// digits writing a value the type holds.
pub open spec fn valid_u32_text(s: Seq<u8>) -> bool {
    let d = spec_number_digits(s);
    &&& d.len() >= 1
    &&& all_digit_bytes(d)
    &&& digits_value(d) <= u32::MAX
}

/// Validate the count argument: accepted exactly when the text names a
/// number a `u32` holds.
pub fn validate_n(v: String) -> (r: Result<(), String>)
    ensures
        r is Ok <==> valid_u32_text(encode_utf8(v@)),
{
    let bytes = v.as_str().as_bytes();
    let ghost s = encode_utf8(v@);
    let start: usize = if bytes.len() > 0 && bytes[0] == 0x2b {
        1
    } else {
        0
    };
    let ghost d = spec_number_digits(s);
    proof {
        assert(d =~= s.skip(start as int));
    }
    if bytes.len() == start {
        return Err("expected a number".to_owned());
    }
    let mut i: usize = start;
    let mut acc: u64 = 0;
    let mut over: bool = false;
    while i < bytes.len()
        invariant
            start <= i <= s.len(),
            s == encode_utf8(v@),
            bytes@ == s,
            d == spec_number_digits(s),
            d =~= s.skip(start as int),
            all_digit_bytes(d.take(i - start)),
            !over ==> acc <= u32::MAX && acc == digits_value(d.take(i - start)),
            over ==> digits_value(d.take(i - start)) > u32::MAX,
        decreases s.len() - i,
    {
        let b = bytes[i];
        let ghost k = i - start;
        if b < 0x30 || b > 0x39 {
            proof {
                assert(d[k] == s[i as int]);
                assert(!is_digit_byte(d[k]));
            }
            return Err("expected only decimal digits".to_owned());
        }
        proof {
            assert(d.take(k + 1).drop_last() =~= d.take(k));
            assert(d.take(k + 1).last() == d[k]);
            assert(d[k] == s[i as int]);
            assert(digits_value(d.take(k + 1)) == digits_value(d.take(k)) * 10 + (b - 0x30));
        }
        let digit = (b - 0x30) as u64;
        if !over {
            let next: u64 = acc * 10 + digit;
            if next > 0xffff_ffff {
                over = true;
            } else {
                acc = next;
            }
        } else {
            proof {
                let prev = digits_value(d.take(k));
                assert(prev * 10 >= prev);
                assert(digits_value(d.take(k + 1)) > u32::MAX);
            }
        }
        i = i + 1;
    }
    proof {
        assert(d.take(i - start) =~= d);
    }
    if over {
        return Err("the number does not fit".to_owned());
    }
    Ok(())
}

/// ASCII letters folded to lower case; every other byte unchanged.
pub open spec fn spec_lower(b: u8) -> u8 {
    if 0x41 <= b <= 0x5a {
        (b + 0x20) as u8
    } else {
        b
    }
}

/// What follows an optional leading plus or minus sign.
pub open spec fn spec_after_sign(s: Seq<u8>) -> Seq<u8> {
    if s.len() > 0 && (s[0] == 0x2b || s[0] == 0x2d) {
        s.drop_first()
    } else {
        s
    }
}

/// The text spells the word, letters in any case.
pub open spec fn is_lowered_word(s: Seq<u8>, w: Seq<u8>) -> bool {
    &&& s.len() == w.len()
    &&& forall|i: int| 0 <= i < s.len() ==> spec_lower(#[trigger] s[i]) == w[i]
}

/// The word `inf`, as lower-case ASCII bytes.
pub open spec fn spec_word_inf() -> Seq<u8> {
    seq![0x69u8, 0x6eu8, 0x66u8]
}

/// The word `infinity`, as lower-case ASCII bytes.
pub open spec fn spec_word_infinity() -> Seq<u8> {
    seq![0x69u8, 0x6eu8, 0x66u8, 0x69u8, 0x6eu8, 0x69u8, 0x74u8, 0x79u8]
}

/// The word `nan`, as lower-case ASCII bytes.
pub open spec fn spec_word_nan() -> Seq<u8> {
    seq![0x6eu8, 0x61u8, 0x6eu8]
}

/// One of the special floating-point words, letters in any case.
pub open spec fn is_special_float_word(s: Seq<u8>) -> bool {
    ||| is_lowered_word(s, spec_word_inf())
    ||| is_lowered_word(s, spec_word_infinity())
    ||| is_lowered_word(s, spec_word_nan())
}

/// A mantissa: digits, or digits around one point — with at least one digit
/// before the point, or at least one after a leading point.
pub open spec fn is_mantissa(s: Seq<u8>) -> bool {
    ||| (s.len() >= 1 && all_digit_bytes(s))
    ||| (exists|k: int|
        {
            &&& 0 <= k < s.len()
            &&& #[trigger] s[k] == 0x2e
            &&& all_digit_bytes(s.take(k))
            &&& all_digit_bytes(s.skip(k + 1))
            &&& (k >= 1 || s.len() >= 2)
        })
}

/// An exponent: an optional sign, then one or more digits.
pub open spec fn is_exponent(s: Seq<u8>) -> bool {
    let d = spec_after_sign(s);
    d.len() >= 1 && all_digit_bytes(d)
}

/// The exponent mark, `e` or `E`.
pub open spec fn is_e_byte(b: u8) -> bool {
    b == 0x65 || b == 0x45
}

/// A decimal number: a mantissa, optionally followed by an exponent mark and
/// an exponent.
pub open spec fn is_float_number(s: Seq<u8>) -> bool {
    ||| is_mantissa(s)
    ||| (exists|k: int|
        {
            &&& 0 <= k < s.len()
            &&& is_e_byte(#[trigger] s[k])
            &&& is_mantissa(s.take(k))
            &&& is_exponent(s.skip(k + 1))
        })
}

/// The delay texts accepted — exactly the grammar floating-point parsing
/// documents: an optional sign, then a decimal number with optional point
/// and exponent, or one of the words `inf`, `infinity`, `nan` in any case.
pub open spec fn valid_delay_text(s: Seq<u8>) -> bool {
    let body = spec_after_sign(s);
    ||| is_special_float_word(body)
    ||| is_float_number(body)
}

/// A text holding a byte that is neither a digit nor a point is no mantissa.
proof fn lemma_not_mantissa(s: Seq<u8>, j: int)
    requires
        0 <= j < s.len(),
        !is_digit_byte(s[j]),
        s[j] != 0x2e,
    ensures
        !is_mantissa(s),
{
    assert(!all_digit_bytes(s)) by {
        assert(!is_digit_byte(s[j]));
    }
    assert forall|k: int| 0 <= k < s.len() && #[trigger] s[k] == 0x2e implies !(all_digit_bytes(
    s.take(k)) && all_digit_bytes(s.skip(k + 1)) && (k >= 1 || s.len() >= 2)) by {
        if j < k {
            assert(s.take(k)[j] == s[j]);
            assert(!is_digit_byte(s.take(k)[j]));
        } else {
            assert(k != j);
            assert(s.skip(k + 1)[j - k - 1] == s[j]);
            assert(!is_digit_byte(s.skip(k + 1)[j - k - 1]));
        }
    }
}

/// Whether the bytes from `from` on spell the word, letters in any case.
fn word_eq_lowered(bytes: &[u8], from: usize, w: &[u8]) -> (r: bool)
    requires
        from <= bytes@.len(),
    ensures
        r == is_lowered_word(bytes@.subrange(from as int, bytes@.len() as int), w@),
{
    let ghost sub = bytes@.subrange(from as int, bytes@.len() as int);
    if bytes.len() - from != w.len() {
        return false;
    }
    let mut i: usize = 0;
    while i < w.len()
        invariant
            i <= w@.len(),
            from + w@.len() == bytes@.len(),
            from + w@.len() <= usize::MAX,
            sub == bytes@.subrange(from as int, bytes@.len() as int),
            forall|j: int| 0 <= j < i ==> spec_lower(#[trigger] sub[j]) == w@[j],
        decreases w@.len() - i,
    {
        let b = bytes[from + i];
        let lb: u8 = if 0x41 <= b && b <= 0x5a {
            b + 0x20
        } else {
            b
        };
        proof {
            assert(sub[i as int] == bytes@[from + i]);
            assert(lb == spec_lower(sub[i as int]));
        }
        if lb != w[i] {
            proof {
                assert(spec_lower(sub[i as int]) != w@[i as int]);
            }
            return false;
        }
        i = i + 1;
    }
    true
}

/// Whether the bytes of `[from, to)` form a mantissa.
fn mantissa_ok(bytes: &[u8], from: usize, to: usize) -> (r: bool)
    requires
        from <= to <= bytes@.len(),
    ensures
        r == is_mantissa(bytes@.subrange(from as int, to as int)),
{
    let ghost m = bytes@.subrange(from as int, to as int);
    if from == to {
        return false;
    }
    let mut i: usize = from;
    let mut dot: Option<usize> = None;
    while i < to
        invariant
            from <= i <= to <= bytes@.len(),
            from < to,
            m == bytes@.subrange(from as int, to as int),
            match dot {
                None => forall|j: int| 0 <= j < i - from ==> is_digit_byte(#[trigger] m[j]),
                Some(k) => {
                    &&& from <= k < i
                    &&& m[k - from] == 0x2e
                    &&& forall|j: int|
                        0 <= j < i - from && j != k - from ==> is_digit_byte(#[trigger] m[j])
                },
            },
        decreases to - i,
    {
        let b = bytes[i];
        proof {
            assert(m[i - from] == bytes@[i as int]);
        }
        if 0x30 <= b && b <= 0x39 {
            i = i + 1;
        } else if b == 0x2e {
            match dot {
                None => {
                    dot = Some(i);
                    i = i + 1;
                },
                Some(k1) => {
                    proof {
                        let k1m = k1 - from;
                        let im = i - from;
                        assert(!is_digit_byte(m[k1m]));
                        assert(!all_digit_bytes(m));
                        assert forall|k: int|
                            0 <= k < m.len() && #[trigger] m[k] == 0x2e implies !(all_digit_bytes(
                        m.take(k)) && all_digit_bytes(m.skip(k + 1)) && (k >= 1 || m.len()
                            >= 2)) by {
                            if k > k1m {
                                assert(m.take(k)[k1m] == m[k1m]);
                                assert(!is_digit_byte(m.take(k)[k1m]));
                            } else if k == k1m {
                                assert(m.skip(k1m + 1)[im - k1m - 1] == m[im]);
                                assert(!is_digit_byte(m.skip(k1m + 1)[im - k1m - 1]));
                            } else {
                                assert(is_digit_byte(m[k]));
                            }
                        }
                    }
                    return false;
                },
            }
        } else {
            proof {
                lemma_not_mantissa(m, i - from);
            }
            return false;
        }
    }
    match dot {
        None => true,
        Some(k) => {
            if k > from || to - from >= 2 {
                proof {
                    let km = k - from;
                    assert forall|j: int| 0 <= j < m.take(km).len() implies is_digit_byte(
                    #[trigger] m.take(km)[j]) by {
                        assert(m.take(km)[j] == m[j]);
                    }
                    assert forall|j: int| 0 <= j < m.skip(km + 1).len() implies is_digit_byte(
                    #[trigger] m.skip(km + 1)[j]) by {
                        assert(m.skip(km + 1)[j] == m[km + 1 + j]);
                    }
                    assert(0 <= km < m.len() && m[km] == 0x2e && all_digit_bytes(m.take(km))
                        && all_digit_bytes(m.skip(km + 1)) && (km >= 1 || m.len() >= 2));
                }
                true
            } else {
                // the text is a lone point
                proof {
                    assert(m.len() == 1 && m[0] == 0x2e);
                    assert(!is_digit_byte(m[0]));
                    assert(!all_digit_bytes(m));
                    assert forall|k2: int|
                        0 <= k2 < m.len() && #[trigger] m[k2] == 0x2e implies !(all_digit_bytes(
                    m.take(k2)) && all_digit_bytes(m.skip(k2 + 1)) && (k2 >= 1 || m.len()
                        >= 2)) by {
                        assert(k2 == 0);
                    }
                }
                false
            }
        },
    }
}

/// Whether the bytes of `[from, to)` form an exponent.
fn exponent_ok(bytes: &[u8], from: usize, to: usize) -> (r: bool)
    requires
        from <= to <= bytes@.len(),
    ensures
        r == is_exponent(bytes@.subrange(from as int, to as int)),
{
    let ghost e = bytes@.subrange(from as int, to as int);
    let start: usize = if from < to && (bytes[from] == 0x2b || bytes[from] == 0x2d) {
        from + 1
    } else {
        from
    };
    let ghost d = spec_after_sign(e);
    proof {
        if e.len() > 0 {
            assert(e[0] == bytes@[from as int]);
        }
        assert(d =~= bytes@.subrange(start as int, to as int));
    }
    if start == to {
        proof {
            assert(d.len() == 0);
            assert(!is_exponent(e));
        }
        return false;
    }
    let mut i: usize = start;
    while i < to
        invariant
            start <= i <= to <= bytes@.len(),
            e == bytes@.subrange(from as int, to as int),
            d == spec_after_sign(e),
            d == bytes@.subrange(start as int, to as int),
            forall|j: int| 0 <= j < i - start ==> is_digit_byte(#[trigger] d[j]),
        decreases to - i,
    {
        let b = bytes[i];
        proof {
            assert(d[i - start] == bytes@[i as int]);
        }
        if b < 0x30 || b > 0x39 {
            proof {
                assert(!is_digit_byte(d[i - start]));
            }
            return false;
        }
        i = i + 1;
    }
    true
}

/// Validate the delay argument: accepted exactly when the text is one
/// floating-point parsing accepts. Parse-only, like the original flag check:
/// a negative delay passes validation and is refused downstream.
pub fn validate_delay(v: String) -> (r: Result<(), String>)
    ensures
        r is Ok <==> valid_delay_text(encode_utf8(v@)),
{
    let bytes = v.as_str().as_bytes();
    let ghost s = encode_utf8(v@);
    let n = bytes.len();
    let start: usize = if n > 0 && (bytes[0] == 0x2b || bytes[0] == 0x2d) {
        1
    } else {
        0
    };
    let ghost body = spec_after_sign(s);
    proof {
        assert(body =~= s.subrange(start as int, n as int));
    }
    let inf: Vec<u8> = vec![0x69u8, 0x6eu8, 0x66u8];
    let infinity: Vec<u8> = vec![0x69u8, 0x6eu8, 0x66u8, 0x69u8, 0x6eu8, 0x69u8, 0x74u8, 0x79u8];
    let nan: Vec<u8> = vec![0x6eu8, 0x61u8, 0x6eu8];
    proof {
        assert(inf@ =~= spec_word_inf());
        assert(infinity@ =~= spec_word_infinity());
        assert(nan@ =~= spec_word_nan());
    }
    if word_eq_lowered(bytes, start, inf.as_slice()) || word_eq_lowered(
        bytes,
        start,
        infinity.as_slice(),
    ) || word_eq_lowered(bytes, start, nan.as_slice()) {
        return Ok(());
    }
    let mut e_pos: usize = n;
    let mut i: usize = start;
    while i < n
        invariant
            start <= i <= n,
            n == bytes@.len(),
            e_pos == n || (start <= e_pos < i && is_e_byte(bytes@[e_pos as int])),
            e_pos == n ==> forall|j: int| start <= j < i ==> !is_e_byte(#[trigger] bytes@[j]),
            e_pos < n ==> forall|j: int| start <= j < e_pos ==> !is_e_byte(#[trigger] bytes@[j]),
        decreases n - i,
    {
        let b = bytes[i];
        if (b == 0x65 || b == 0x45) && e_pos == n {
            e_pos = i;
        }
        i = i + 1;
    }
    let mant = mantissa_ok(bytes, start, e_pos);
    if e_pos == n {
        if mant {
            proof {
                assert(is_mantissa(body));
            }
            Ok(())
        } else {
            proof {
                assert(!is_mantissa(body));
                assert forall|k: int|
                    0 <= k < body.len() && is_e_byte(#[trigger] body[k]) implies false by {
                    assert(body[k] == bytes@[start + k]);
                }
            }
            Err("expected a decimal number".to_owned())
        }
    } else {
        let exp = exponent_ok(bytes, e_pos + 1, n);
        if mant && exp {
            proof {
                let ke = e_pos - start;
                assert(body[ke] == bytes@[e_pos as int]);
                assert(body.take(ke) =~= bytes@.subrange(start as int, e_pos as int));
                assert(body.skip(ke + 1) =~= bytes@.subrange(e_pos + 1, n as int));
                assert(0 <= ke < body.len() && is_e_byte(body[ke]) && is_mantissa(body.take(ke))
                    && is_exponent(body.skip(ke + 1)));
            }
            Ok(())
        } else {
            proof {
                let ke = e_pos - start;
                assert(body[ke] == bytes@[e_pos as int]);
                assert(!is_digit_byte(body[ke]) && body[ke] != 0x2e);
                lemma_not_mantissa(body, ke);
                assert(body.take(ke) =~= bytes@.subrange(start as int, e_pos as int));
                assert(body.skip(ke + 1) =~= bytes@.subrange(e_pos + 1, n as int));
                assert forall|k: int|
                    0 <= k < body.len() && is_e_byte(#[trigger] body[k]) implies !(is_mantissa(
                body.take(k)) && is_exponent(body.skip(k + 1))) by {
                    assert(body[k] == bytes@[start + k]);
                    if k < ke {
                        assert(!is_e_byte(bytes@[start + k]));
                    } else if k == ke {
                        assert(!(mant && exp));
                    } else {
                        assert(body.take(k)[ke] == body[ke]);
                        lemma_not_mantissa(body.take(k), ke);
                    }
                }
            }
            Err("expected a decimal number".to_owned())
        }
    }
}

} // verus!
