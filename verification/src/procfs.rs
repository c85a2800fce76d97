//! Resident memory as the kernel's per-process status text reports it.
//!
//! The text is a sequence of lines; the `VmRSS:` line carries the resident
//! set size in KiB as its first whitespace-separated word. Reading the file
//! is the caller's; this module only reads the text.

use vstd::prelude::*;

verus! {

/// Unicode `White_Space`, the set that `char::is_whitespace` and
/// `str::split_whitespace` use.
pub open spec fn is_white_space(c: char) -> bool {
    let u = c as u32;
    ||| 0x09 <= u && u <= 0x0D
    ||| u == 0x20
    ||| u == 0x85
    ||| u == 0xA0
    ||| u == 0x1680
    ||| 0x2000 <= u && u <= 0x200A
    ||| u == 0x2028
    ||| u == 0x2029
    ||| u == 0x202F
    ||| u == 0x205F
    ||| u == 0x3000
}

/// How many characters of `s` come before its first line feed.
pub open spec fn line_len(s: Seq<char>) -> nat
    decreases s.len(),
{
    if s.len() == 0 || s[0] == '\n' {
        0
    } else {
        1 + line_len(s.drop_first())
    }
}

/// How many white-space characters `s` starts with.
pub open spec fn leading_space(s: Seq<char>) -> nat
    decreases s.len(),
{
    if s.len() > 0 && is_white_space(s[0]) {
        1 + leading_space(s.drop_first())
    } else {
        0
    }
}

/// How many other characters `s` starts with.
pub open spec fn leading_word(s: Seq<char>) -> nat
    decreases s.len(),
{
    if s.len() > 0 && !is_white_space(s[0]) {
        1 + leading_word(s.drop_first())
    } else {
        0
    }
}

/// The first whitespace-separated word of `s`; empty when there is none.
pub open spec fn first_word(s: Seq<char>) -> Seq<char> {
    let t = s.skip(leading_space(s) as int);
    t.take(leading_word(t) as int)
}

/// The value of an ASCII digit, when `c` is one.
pub open spec fn char_digit(c: char) -> Option<nat> {
    if '0' <= c && c <= '9' {
        Some((c as u32 - '0' as u32) as nat)
    } else {
        None
    }
}

/// The value of a run of ASCII digits, or `None` when a character is not
/// a digit.
pub open spec fn chars_digits_value(s: Seq<char>) -> Option<nat>
    decreases s.len(),
{
    if s.len() == 0 {
        Some(0)
    } else {
        match chars_digits_value(s.drop_last()) {
            Some(high) => match char_digit(s.last()) {
                Some(low) => Some(high * 10 + low),
                None => None,
            },
            None => None,
        }
    }
}

/// What `str::parse::<u64>` gives for the text `t`: an optional `+` and at
/// least one ASCII digit, nothing else, with a value that fits.
pub open spec fn parse_u64_text(t: Seq<char>) -> Option<u64> {
    let body = if t.len() > 0 && t[0] == '+' { t.drop_first() } else { t };
    if body.len() == 0 {
        None
    } else {
        match chars_digits_value(body) {
            Some(v) => if v <= u64::MAX { Some(v as u64) } else { None },
            None => None,
        }
    }
}

pub open spec fn vm_rss_tag() -> Seq<char> {
    seq!['V', 'm', 'R', 'S', 'S', ':']
}

/// Whether a line starts with `VmRSS:`.
pub open spec fn is_vm_rss_line(line: Seq<char>) -> bool {
    line.len() >= 6 && line.take(6) == vm_rss_tag()
}

/// The value of a `VmRSS:` line: its first word after the tag, parsed.
pub open spec fn vm_rss_line_value(line: Seq<char>) -> Option<u64> {
    parse_u64_text(first_word(line.skip(6)))
}

/// The first `VmRSS:` line of the text, if any, with its value.
pub open spec fn first_vm_rss_line(s: Seq<char>) -> Option<Option<u64>>
    decreases s.len(),
{
    let n = line_len(s);
    let line = s.take(n as int);
    if is_vm_rss_line(line) {
        Some(vm_rss_line_value(line))
    } else if n < s.len() {
        first_vm_rss_line(s.skip(n + 1int))
    } else {
        None
    }
}

/// The first `VmRSS:` line of the text whose value parses.
pub open spec fn first_parsed_vm_rss(s: Seq<char>) -> Option<u64>
    decreases s.len(),
{
    let n = line_len(s);
    let line = s.take(n as int);
    if is_vm_rss_line(line) && vm_rss_line_value(line) is Some {
        vm_rss_line_value(line)
    } else if n < s.len() {
        first_parsed_vm_rss(s.skip(n + 1int))
    } else {
        None
    }
}

/// Resident set size in KiB: the value of the first `VmRSS:` line; `None`
/// when there is no such line or its value does not parse.
pub open spec fn vm_rss_kib(s: Seq<char>) -> Option<u64> {
    match first_vm_rss_line(s) {
        Some(v) => v,
        None => None,
    }
}

pub(crate) fn chars_of(s: &str) -> (v: Vec<char>)
    ensures
        v@ == s@,
{
    let mut v: Vec<char> = Vec::new();
    for c in it: s.chars()
        invariant
            v@ == it.seq().take(it.index() as int),
    {
        v.push(c);
    }
    proof {
        vstd::string::axiom_spec_iter(s);
    }
    v
}

fn white_space(c: char) -> (r: bool)
    ensures
        r == is_white_space(c),
{
    let u = c as u32;
    (0x09 <= u && u <= 0x0D) || u == 0x20 || u == 0x85 || u == 0xA0 || u == 0x1680 || (0x2000 <= u && u
        <= 0x200A) || u == 0x2028 || u == 0x2029 || u == 0x202F || u == 0x205F || u == 0x3000
}

pub(crate) proof fn lemma_skip_step(s: Seq<char>, i: int)
    requires
        0 <= i < s.len(),
    ensures
        s.skip(i).len() > 0,
        s.skip(i)[0] == s[i],
        s.skip(i).drop_first() == s.skip(i + 1),
{
    assert(s.skip(i).drop_first() =~= s.skip(i + 1));
}

/// End of the line that starts at `i`: the index of the next line feed,
/// or the length.
fn line_end(cs: &Vec<char>, i: usize) -> (j: usize)
    requires
        i <= cs@.len(),
    ensures
        i <= j <= cs@.len(),
        j - i == line_len(cs@.skip(i as int)),
{
    let mut j = i;
    while j < cs.len() && cs[j] != '\n'
        invariant
            i <= j <= cs@.len(),
            line_len(cs@.skip(i as int)) == (j - i) + line_len(cs@.skip(j as int)),
        decreases cs@.len() - j,
    {
        proof {
            lemma_skip_step(cs@, j as int);
        }
        j = j + 1;
    }
    proof {
        if j < cs@.len() {
            lemma_skip_step(cs@, j as int);
        }
    }
    j
}

/// The word that starts the text between `a` and `b`: skip white space,
/// then take the characters up to the next white space.
fn word_in(cs: &Vec<char>, a: usize, b: usize) -> (r: (usize, usize))
    requires
        a <= b <= cs@.len(),
    ensures
        a <= r.0 <= r.1 <= b,
        cs@.subrange(r.0 as int, r.1 as int) == first_word(cs@.subrange(a as int, b as int)),
{
    let ghost s = cs@.subrange(a as int, b as int);
    let mut t = a;
    while t < b && white_space(cs[t])
        invariant
            a <= t <= b <= cs@.len(),
            s == cs@.subrange(a as int, b as int),
            leading_space(s) == (t - a) + leading_space(cs@.subrange(t as int, b as int)),
        decreases b - t,
    {
        proof {
            let u = cs@.subrange(t as int, b as int);
            assert(u.drop_first() =~= cs@.subrange(t + 1, b as int));
        }
        t = t + 1;
    }
    proof {
        if t < b {
            assert(cs@.subrange(t as int, b as int)[0] == cs@[t as int]);
        }
        assert(s.skip(leading_space(s) as int) =~= cs@.subrange(t as int, b as int));
    }
    let ghost w = cs@.subrange(t as int, b as int);
    let mut e = t;
    while e < b && !white_space(cs[e])
        invariant
            a <= t <= e <= b <= cs@.len(),
            w == cs@.subrange(t as int, b as int),
            leading_word(w) == (e - t) + leading_word(cs@.subrange(e as int, b as int)),
        decreases b - e,
    {
        proof {
            let u = cs@.subrange(e as int, b as int);
            assert(u.drop_first() =~= cs@.subrange(e + 1, b as int));
        }
        e = e + 1;
    }
    proof {
        if e < b {
            assert(cs@.subrange(e as int, b as int)[0] == cs@[e as int]);
        }
        assert(w.take(leading_word(w) as int) =~= cs@.subrange(t as int, e as int));
    }
    (t, e)
}

proof fn lemma_chars_digits_prefix(s: Seq<char>, i: int)
    requires
        0 <= i < s.len(),
        chars_digits_value(s.subrange(0, i)) is Some,
        char_digit(s[i]) is Some,
    ensures
        chars_digits_value(s.subrange(0, i + 1)) == Some(
            chars_digits_value(s.subrange(0, i))->0 * 10 + char_digit(s[i])->0,
        ),
{
    assert(s.subrange(0, i + 1).drop_last() == s.subrange(0, i));
}

proof fn lemma_chars_digits_grows(s: Seq<char>, i: int)
    requires
        0 <= i <= s.len(),
        chars_digits_value(s) is Some,
    ensures
        chars_digits_value(s.subrange(0, i)) is Some,
        chars_digits_value(s.subrange(0, i))->0 <= chars_digits_value(s)->0,
    decreases s.len() - i,
{
    if i < s.len() {
        lemma_chars_digits_grows(s, i + 1);
        let p = s.subrange(0, i + 1);
        assert(p.drop_last() == s.subrange(0, i));
    } else {
        assert(s.subrange(0, i) == s);
    }
}

/// `str::parse::<u64>` of the characters between `t` and `e`.
pub(crate) fn parse_u64_between(cs: &Vec<char>, t: usize, e: usize) -> (r: Option<u64>)
    requires
        t <= e <= cs@.len(),
    ensures
        r == parse_u64_text(cs@.subrange(t as int, e as int)),
{
    let ghost text = cs@.subrange(t as int, e as int);
    let start: usize = if t < e && cs[t] == '+' { t + 1 } else { t };
    let ghost body = if text.len() > 0 && text[0] == '+' { text.drop_first() } else { text };
    assert(body =~= cs@.subrange(start as int, e as int));
    if start == e {
        return None;
    }
    let mut value: u64 = 0;
    let mut i: usize = start;
    while i < e
        invariant
            t <= start <= i <= e <= cs@.len(),
            body == cs@.subrange(start as int, e as int),
            body.len() > 0,
            text == cs@.subrange(t as int, e as int),
            body == (if text.len() > 0 && text[0] == '+' { text.drop_first() } else { text }),
            chars_digits_value(body.subrange(0, i - start)) == Some(value as nat),
        decreases e - i,
    {
        let c = cs[i];
        assert(body[i - start] == c);
        if c < '0' || c > '9' {
            proof {
                assert(char_digit(body[i - start]) is None);
                if chars_digits_value(body) is Some {
                    lemma_chars_digits_grows(body, i - start + 1);
                    assert(body.subrange(0, i - start + 1).drop_last() == body.subrange(0, i - start));
                }
            }
            return None;
        }
        let d = (c as u32 - '0' as u32) as u64;
        proof {
            lemma_chars_digits_prefix(body, i - start);
        }
        if value > (u64::MAX - d) / 10 {
            proof {
                assert(value * 10 + d > u64::MAX) by (nonlinear_arith)
                    requires
                        value > (u64::MAX - d) / 10,
                        d <= 9,
                ;
                if chars_digits_value(body) is Some {
                    lemma_chars_digits_grows(body, i - start + 1);
                }
            }
            return None;
        }
        assert(value * 10 + d <= u64::MAX) by (nonlinear_arith)
            requires
                value <= (u64::MAX - d) / 10,
                d <= 9,
        ;
        value = value * 10 + d;
        i = i + 1;
    }
    assert(body.subrange(0, i - start) == body);
    Some(value)
}

fn is_vm_rss_at(cs: &Vec<char>, i: usize, j: usize) -> (r: bool)
    requires
        i <= j <= cs@.len(),
    ensures
        r == is_vm_rss_line(cs@.subrange(i as int, j as int)),
{
    if j - i < 6 {
        return false;
    }
    let r = cs[i] == 'V' && cs[i + 1] == 'm' && cs[i + 2] == 'R' && cs[i + 3] == 'S' && cs[i + 4] == 'S'
        && cs[i + 5] == ':';
    proof {
        let line = cs@.subrange(i as int, j as int);
        if r {
            assert(line.take(6) =~= vm_rss_tag());
        } else {
            if line.take(6) == vm_rss_tag() {
                assert(line.take(6)[0] == 'V' && line.take(6)[1] == 'm' && line.take(6)[2] == 'R');
                assert(line.take(6)[3] == 'S' && line.take(6)[4] == 'S' && line.take(6)[5] == ':');
            }
        }
    }
    r
}

/// The value of the `VmRSS:` line between `i` and `j`.
fn vm_rss_value_at(cs: &Vec<char>, i: usize, j: usize) -> (r: Option<u64>)
    requires
        i + 6 <= j <= cs@.len(),
    ensures
        r == vm_rss_line_value(cs@.subrange(i as int, j as int)),
{
    let (t, e) = word_in(cs, i + 6, j);
    assert(cs@.subrange(i as int, j as int).skip(6) =~= cs@.subrange(i + 6, j as int));
    parse_u64_between(cs, t, e)
}

proof fn lemma_line_at(s: Seq<char>, i: int, j: int)
    requires
        0 <= i <= j <= s.len(),
        j - i == line_len(s.skip(i)),
    ensures
        s.skip(i).take(line_len(s.skip(i)) as int) == s.subrange(i, j),
        j < s.len() ==> s.skip(i).skip(line_len(s.skip(i)) + 1int) == s.skip(j + 1),
{
    assert(s.skip(i).take(line_len(s.skip(i)) as int) =~= s.subrange(i, j));
    if j < s.len() {
        assert(s.skip(i).skip(line_len(s.skip(i)) + 1int) =~= s.skip(j + 1));
    }
}

/// Resident set size in KiB, from the first `VmRSS:` line of a
/// per-process status text; `None` when there is no such line or its first
/// word is not a `u64`.
pub fn vm_rss_kb(status: &str) -> (r: Option<u64>)
    ensures
        r == vm_rss_kib(status@),
{
    let cs = chars_of(status);
    let mut i: usize = 0;
    assert(cs@.skip(0) =~= cs@);
    loop
        invariant
            i <= cs@.len(),
            first_vm_rss_line(cs@) == first_vm_rss_line(cs@.skip(i as int)),
            cs@ == status@,
        decreases cs@.len() - i,
    {
        let j = line_end(&cs, i);
        proof {
            lemma_line_at(cs@, i as int, j as int);
        }
        if is_vm_rss_at(&cs, i, j) {
            return vm_rss_value_at(&cs, i, j);
        }
        if j == cs.len() {
            return None;
        }
        i = j + 1;
    }
}

/// Resident set size in KiB from the first `VmRSS:` line whose first word
/// is a `u64`; lines whose value does not parse are passed over.
pub fn first_parsed_vm_rss_kb(status: &str) -> (r: Option<u64>)
    ensures
        r == first_parsed_vm_rss(status@),
{
    let cs = chars_of(status);
    let mut i: usize = 0;
    assert(cs@.skip(0) =~= cs@);
    loop
        invariant
            i <= cs@.len(),
            first_parsed_vm_rss(cs@) == first_parsed_vm_rss(cs@.skip(i as int)),
            cs@ == status@,
        decreases cs@.len() - i,
    {
        let j = line_end(&cs, i);
        proof {
            lemma_line_at(cs@, i as int, j as int);
        }
        if is_vm_rss_at(&cs, i, j) {
            let v = vm_rss_value_at(&cs, i, j);
            if v.is_some() {
                return v;
            }
        }
        if j == cs.len() {
            return None;
        }
        i = j + 1;
    }
}

/// Resident memory in bytes: the first `VmRSS:` line's KiB times 1024.
pub fn vm_rss_bytes(status: &str) -> (r: Option<u64>)
    requires
        vm_rss_kib(status@) is Some ==> vm_rss_kib(status@)->0 * 1024 <= u64::MAX,
    ensures
        r == (match vm_rss_kib(status@) {
            Some(kb) => Some((kb * 1024) as u64),
            None => None,
        }),
{
    match vm_rss_kb(status) {
        Some(kb) => Some(kb * 1024),
        None => None,
    }
}

/// Resident memory in bytes from the first `VmRSS:` line that parses.
pub fn first_parsed_vm_rss_bytes(status: &str) -> (r: Option<u64>)
    requires
        first_parsed_vm_rss(status@) is Some ==> first_parsed_vm_rss(status@)->0 * 1024 <= u64::MAX,
    ensures
        r == (match first_parsed_vm_rss(status@) {
            Some(kb) => Some((kb * 1024) as u64),
            None => None,
        }),
{
    match first_parsed_vm_rss_kb(status) {
        Some(kb) => Some(kb * 1024),
        None => None,
    }
}

} // verus!
