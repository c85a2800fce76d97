//! Release versions and their order.
//!
//! A version is dotted decimal text such as `2.10.1`: one or more
//! components of ASCII digits, each fitting in 64 bits, separated by single
//! dots. Versions are ordered component by component, numerically; a
//! version that is a proper prefix of another comes first (`1.0` before
//! `1.0.0`). Text of any other shape is not a version and is ordered with
//! nothing.

use crate::procfs::{chars_of, lemma_skip_step, parse_u64_between, parse_u64_text};
use vstd::prelude::*;

verus! {

/// How many characters of `s` come before its first dot.
pub open spec fn component_len(s: Seq<char>) -> nat
    decreases s.len(),
{
    if s.len() == 0 || s[0] == '.' {
        0
    } else {
        1 + component_len(s.drop_first())
    }
}

/// The value of one component: ASCII digits only (no sign), fitting in
/// 64 bits.
pub open spec fn component_value(c: Seq<char>) -> Option<u64> {
    if c.len() > 0 && c[0] == '+' {
        None
    } else {
        parse_u64_text(c)
    }
}

/// The numeric components of a version, or `None` when the text is not a
/// version.
pub open spec fn version_numbers(s: Seq<char>) -> Option<Seq<u64>>
    decreases s.len(),
{
    let n = component_len(s);
    match component_value(s.take(n as int)) {
        None => None,
        Some(v) => if n < s.len() {
            match version_numbers(s.skip(n + 1int)) {
                Some(rest) => Some(seq![v] + rest),
                None => None,
            }
        } else {
            Some(seq![v])
        },
    }
}

/// Lexicographic order on component sequences; a proper prefix comes
/// first.
pub open spec fn numbers_before(a: Seq<u64>, b: Seq<u64>) -> bool
    decreases a.len(),
{
    if a.len() == 0 {
        b.len() > 0
    } else if b.len() == 0 {
        false
    } else if a[0] != b[0] {
        a[0] < b[0]
    } else {
        numbers_before(a.drop_first(), b.drop_first())
    }
}

/// Whether `a` is a version strictly before the version `b`.
pub open spec fn version_before(a: Seq<char>, b: Seq<char>) -> bool {
    version_numbers(a) is Some && version_numbers(b) is Some && numbers_before(
        version_numbers(a)->0,
        version_numbers(b)->0,
    )
}

/// End of the component that starts at `i`: the next dot, or the length.
fn component_end(cs: &Vec<char>, i: usize) -> (j: usize)
    requires
        i <= cs@.len(),
    ensures
        i <= j <= cs@.len(),
        j - i == component_len(cs@.skip(i as int)),
{
    let mut j = i;
    while j < cs.len() && cs[j] != '.'
        invariant
            i <= j <= cs@.len(),
            component_len(cs@.skip(i as int)) == (j - i) + component_len(cs@.skip(j as int)),
        decreases cs@.len() - j,
    {
        proof {
            lemma_skip_step(cs@, j as int);
        }
        j = j + 1;
    }
    proof {
        if j < cs@.len() {
            lemma_skip_step(cs@, j as int);
        }
    }
    j
}

proof fn lemma_component_at(s: Seq<char>, i: int, j: int)
    requires
        0 <= i <= j <= s.len(),
        j - i == component_len(s.skip(i)),
    ensures
        s.skip(i).take(component_len(s.skip(i)) as int) == s.subrange(i, j),
        j < s.len() ==> s.skip(i).skip(component_len(s.skip(i)) + 1int) == s.skip(j + 1),
{
    assert(s.skip(i).take(component_len(s.skip(i)) as int) =~= s.subrange(i, j));
    if j < s.len() {
        assert(s.skip(i).skip(component_len(s.skip(i)) + 1int) =~= s.skip(j + 1));
    }
}

pub open spec fn prepend_numbers(p: Seq<u64>, o: Option<Seq<u64>>) -> Option<Seq<u64>> {
    match o {
        Some(t) => Some(p + t),
        None => None,
    }
}

/// The numeric components of a version, or `None` when the text is not a
/// version.
pub fn parse_version(s: &str) -> (r: Option<Vec<u64>>)
    ensures
        r is Some <==> version_numbers(s@) is Some,
        r is Some ==> r->0@ == version_numbers(s@)->0,
{
    let cs = chars_of(s);
    let mut out: Vec<u64> = Vec::new();
    let mut i: usize = 0;
    assert(cs@.skip(0) =~= cs@);
    assert(out@ + version_numbers(cs@)->0 =~= version_numbers(cs@)->0);
    loop
        invariant
            i <= cs@.len(),
            cs@ == s@,
            version_numbers(cs@) == prepend_numbers(out@, version_numbers(cs@.skip(i as int))),
        decreases cs@.len() - i,
    {
        let j = component_end(&cs, i);
        proof {
            lemma_component_at(cs@, i as int, j as int);
        }
        let first_is_plus = i < j && cs[i] == '+';
        let v = if first_is_plus { None } else { parse_u64_between(&cs, i, j) };
        proof {
            let c = cs@.subrange(i as int, j as int);
            if i < j {
                assert(c[0] == cs@[i as int]);
            }
            assert(v == component_value(c));
        }
        match v {
            None => {
                return None;
            },
            Some(x) => {
                let ghost before = out@;
                out.push(x);
                if j == cs.len() {
                    proof {
                        assert(before + seq![x] =~= out@);
                    }
                    return Some(out);
                }
                proof {
                    let rest = version_numbers(cs@.skip(j + 1));
                    if rest is Some {
                        assert(before + (seq![x] + rest->0) =~= out@ + rest->0);
                    }
                }
                i = j + 1;
            },
        }
    }
}

/// Whether the components `a` come strictly before `b`.
pub fn numbers_precede(a: &Vec<u64>, b: &Vec<u64>) -> (r: bool)
    ensures
        r == numbers_before(a@, b@),
{
    let mut k: usize = 0;
    assert(a@.skip(0) =~= a@ && b@.skip(0) =~= b@);
    while k < a.len() && k < b.len()
        invariant
            k <= a@.len(),
            k <= b@.len(),
            numbers_before(a@, b@) == numbers_before(a@.skip(k as int), b@.skip(k as int)),
            forall|m: int| 0 <= m < k ==> a@[m] == b@[m],
        decreases a@.len() - k,
    {
        proof {
            assert(a@.skip(k as int)[0] == a@[k as int]);
            assert(b@.skip(k as int)[0] == b@[k as int]);
            assert(a@.skip(k as int).drop_first() =~= a@.skip(k + 1));
            assert(b@.skip(k as int).drop_first() =~= b@.skip(k + 1));
        }
        if a[k] != b[k] {
            return a[k] < b[k];
        }
        k = k + 1;
    }
    proof {
        if k < b@.len() {
            assert(b@.skip(k as int).len() > 0);
        }
        assert(a@.skip(k as int).len() == a@.len() - k);
        assert(b@.skip(k as int).len() == b@.len() - k);
    }
    k < b.len()
}

} // verus!
