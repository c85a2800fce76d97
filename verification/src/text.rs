//! Decimal text of unsigned integers: formatting and parsing.

use vstd::prelude::*;

verus! {

/// The decimal digit character of `d < 10`.
pub open spec fn digit_char(d: nat) -> char {
    ('0' as u8 + d) as char
}

/// The shortest decimal text of `n`, most significant digit first.
pub open spec fn decimal(n: nat) -> Seq<char>
    decreases n,
{
    if n < 10 {
        seq![digit_char(n)]
    } else {
        decimal(n / 10) + seq![digit_char(n % 10)]
    }
}

/// The text of one decimal digit.
fn digit_text(d: u64) -> (r: &'static str)
    requires
        d < 10,
    ensures
        r@ == seq![digit_char(d as nat)],
{
    proof {
        reveal_strlit("0");
        reveal_strlit("1");
        reveal_strlit("2");
        reveal_strlit("3");
        reveal_strlit("4");
        reveal_strlit("5");
        reveal_strlit("6");
        reveal_strlit("7");
        reveal_strlit("8");
        reveal_strlit("9");
    }
    match d {
        0 => "0",
        1 => "1",
        2 => "2",
        3 => "3",
        4 => "4",
        5 => "5",
        6 => "6",
        7 => "7",
        8 => "8",
        _ => "9",
    }
}

/// The shortest decimal text of `n`, as `u64::to_string` writes it.
pub(crate) fn u64_decimal(n: u64) -> (r: String)
    ensures
        r@ == decimal(n as nat),
    decreases n,
{
    if n < 10 {
        String::from_str(digit_text(n))
    } else {
        let mut s = u64_decimal(n / 10);
        s.append(digit_text(n % 10));
        s
    }
}

/// The value of an ASCII digit byte, when it is one.
pub open spec fn digit_value(b: u8) -> Option<nat> {
    if 48 <= b && b <= 57 {
        Some((b - 48) as nat)
    } else {
        None
    }
}

/// The value of a run of ASCII decimal digits, or `None` when a byte is not
/// a digit.
pub open spec fn digits_value(s: Seq<u8>) -> Option<nat>
    decreases s.len(),
{
    if s.len() == 0 {
        Some(0)
    } else {
        match digits_value(s.drop_last()) {
            Some(high) => match digit_value(s.last()) {
                Some(low) => Some(high * 10 + low),
                None => None,
            },
            None => None,
        }
    }
}

/// What `str::parse::<u64>` accepts, over the string's UTF-8 bytes: an
/// optional `+` followed by at least one ASCII digit and nothing else, with
/// a value that fits in 64 bits.
pub open spec fn parse_u64(s: Seq<u8>) -> Option<u64> {
    let body = if s.len() > 0 && s[0] == 43u8 { s.drop_first() } else { s };
    if body.len() == 0 {
        None
    } else {
        match digits_value(body) {
            Some(v) => if v <= u64::MAX { Some(v as u64) } else { None },
            None => None,
        }
    }
}

proof fn lemma_digits_value_prefix(s: Seq<u8>, i: int)
    requires
        0 <= i < s.len(),
        digits_value(s.subrange(0, i)) is Some,
        digit_value(s[i]) is Some,
    ensures
        digits_value(s.subrange(0, i + 1)) == Some(digits_value(s.subrange(0, i))->0 * 10 + digit_value(s[i])->0),
{
    assert(s.subrange(0, i + 1).drop_last() == s.subrange(0, i));
}

proof fn lemma_digits_value_grows(s: Seq<u8>, i: int)
    requires
        0 <= i <= s.len(),
        digits_value(s) is Some,
    ensures
        digits_value(s.subrange(0, i)) is Some,
        digits_value(s.subrange(0, i))->0 <= digits_value(s)->0,
    decreases s.len() - i,
{
    if i < s.len() {
        lemma_digits_value_grows(s, i + 1);
        let p = s.subrange(0, i + 1);
        assert(p.drop_last() == s.subrange(0, i));
    } else {
        assert(s.subrange(0, i) == s);
    }
}

/// Parse an unsigned decimal as `str::parse::<u64>` does.
pub fn parse_decimal_u64(s: &str) -> (r: Option<u64>)
    ensures
        r == parse_u64(vstd::utf8::encode_utf8(s@)),
{
    let b = s.as_bytes();
    let start: usize = if b.len() > 0 && b[0] == 43u8 { 1 } else { 0 };
    let ghost body = if b@.len() > 0 && b@[0] == 43u8 { b@.drop_first() } else { b@ };
    assert(body == b@.subrange(start as int, b@.len() as int));
    if start == b.len() {
        return None;
    }
    let mut value: u64 = 0;
    let mut i: usize = start;
    while i < b.len()
        invariant
            start <= i <= b@.len(),
            b@ == vstd::utf8::encode_utf8(s@),
            body == (if b@.len() > 0 && b@[0] == 43u8 { b@.drop_first() } else { b@ }),
            body.len() > 0,
            body == b@.subrange(start as int, b@.len() as int),
            digits_value(body.subrange(0, i - start)) == Some(value as nat),
        decreases b@.len() - i,
    {
        let c = b[i];
        assert(body[i - start] == c);
        if c < 48u8 || c > 57u8 {
            proof {
                assert(digit_value(body[i - start]) is None);
                if digits_value(body) is Some {
                    lemma_digits_value_grows(body, i - start + 1);
                    assert(body.subrange(0, i - start + 1).drop_last() == body.subrange(0, i - start));
                }
            }
            return None;
        }
        let d = (c - 48u8) as u64;
        proof {
            lemma_digits_value_prefix(body, i - start);
        }
        if value > (u64::MAX - d) / 10 {
            proof {
                assert(value * 10 + d > u64::MAX) by (nonlinear_arith)
                    requires
                        value > (u64::MAX - d) / 10,
                        d <= 9,
                ;
                if digits_value(body) is Some {
                    lemma_digits_value_grows(body, i - start + 1);
                }
            }
            return None;
        }
        assert(value * 10 + d <= u64::MAX) by (nonlinear_arith)
            requires
                value <= (u64::MAX - d) / 10,
                d <= 9,
        ;
        value = value * 10 + d;
        i = i + 1;
    }
    assert(body.subrange(0, i - start) == body);
    Some(value)
}

/// Whether two strings are equal.
pub fn str_eq(a: &str, b: &str) -> (r: bool)
    ensures
        r == (a@ == b@),
{
    let ab = a.as_bytes();
    let bb = b.as_bytes();
    proof {
        vstd::utf8::encode_utf8_decode_utf8(a@);
        vstd::utf8::encode_utf8_decode_utf8(b@);
    }
    if ab.len() != bb.len() {
        return false;
    }
    let mut i: usize = 0;
    while i < ab.len()
        invariant
            ab@.len() == bb@.len(),
            ab@ == vstd::utf8::encode_utf8(a@),
            bb@ == vstd::utf8::encode_utf8(b@),
            i <= ab@.len(),
            forall|j: int| 0 <= j < i ==> ab@[j] == bb@[j],
        decreases ab@.len() - i,
    {
        if ab[i] != bb[i] {
            assert(ab@ != bb@);
            return false;
        }
        i = i + 1;
    }
    assert(ab@ == bb@);
    true
}

} // verus!
