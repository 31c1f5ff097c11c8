//! Decimal text of integers, the grammar of floating-point literals, and
//! floating-point values carried by their bit patterns.
//!
//! The library never computes with floating-point values.  Where a setting
//! holds one (a colour range bound, a trajectory coordinate), it is carried
//! as its IEEE-754 bit pattern, which the viewer converts.
use vstd::prelude::*;

use crate::text::{ascii_lower, chars_equal, chars_of, find, find_exec, sub_chars, to_ascii_lower};

verus! {

broadcast use vstd::string::group_string_axioms;

/// An `f32` value, held by its bit pattern (`f32::to_bits`).
#[derive(Debug, Clone, Copy, PartialEq, Eq, Structural)]
pub struct F32Bits(pub u32);

// ---------------------------------------------------------------------------
// Decimal digits
// ---------------------------------------------------------------------------

pub open spec fn is_digit(c: char) -> bool {
    '0' <= c && c <= '9'
}

pub open spec fn all_digits(s: Seq<char>) -> bool {
    forall|i: int| 0 <= i < s.len() ==> is_digit(#[trigger] s[i])
}

pub open spec fn digit_value(c: char) -> nat {
    ((c as u32) - ('0' as u32)) as nat
}

pub open spec fn digit_char(d: nat) -> char {
    ((d + ('0' as u32)) as u32) as char
}

/// The number a string of decimal digits denotes.
pub open spec fn digits_value(s: Seq<char>) -> nat
    decreases s.len(),
{
    if s.len() == 0 {
        0
    } else {
        digits_value(s.drop_last()) * 10 + digit_value(s.last())
    }
}

/// The decimal text of `n`, as `Display` prints an unsigned integer.
pub open spec fn decimal(n: nat) -> Seq<char>
    decreases n,
{
    if n < 10 {
        seq![digit_char(n)]
    } else {
        decimal(n / 10).push(digit_char(n % 10))
    }
}

/// `usize::from_str`: an optional `+`, then one or more decimal digits whose
/// value fits in `usize`.
pub open spec fn usize_from_text(s: Seq<char>) -> Option<nat> {
    let d = if s.len() > 0 && s[0] == '+' {
        s.drop_first()
    } else {
        s
    };
    if d.len() > 0 && all_digits(d) && digits_value(d) <= usize::MAX {
        Some(digits_value(d))
    } else {
        None
    }
}

proof fn lemma_digits_value_push(s: Seq<char>, c: char)
    ensures
        digits_value(s.push(c)) == digits_value(s) * 10 + digit_value(c),
{
    assert(s.push(c).drop_last() =~= s);
}

proof fn lemma_digits_value_monotone(s: Seq<char>, k: int)
    requires
        0 <= k <= s.len(),
        all_digits(s),
    ensures
        digits_value(s.take(k)) <= digits_value(s),
    decreases s.len() - k,
{
    if k < s.len() {
        lemma_digits_value_monotone(s, k + 1);
        assert(s.take(k + 1) =~= s.take(k).push(s[k]));
        lemma_digits_value_push(s.take(k), s[k]);
    } else {
        assert(s.take(k) =~= s);
    }
}

/// `<usize as FromStr>::from_str`.
pub fn parse_usize(s: &[char]) -> (r: Option<usize>)
    ensures
        r matches Some(v) ==> usize_from_text(s@) == Some(v as nat),
        r is None ==> usize_from_text(s@) is None,
{
    let n = s.len();
    let start: usize = if n > 0 && s[0] == '+' {
        1
    } else {
        0
    };
    let ghost d = if s@.len() > 0 && s@[0] == '+' {
        s@.drop_first()
    } else {
        s@
    };
    assert(d =~= s@.subrange(start as int, n as int));
    if start == n {
        return None;
    }
    let mut acc: usize = 0;
    let mut i: usize = start;
    while i < n
        invariant
            n == s@.len(),
            start <= i <= n,
            d =~= s@.subrange(start as int, n as int),
            d == (if s@.len() > 0 && s@[0] == '+' {
                s@.drop_first()
            } else {
                s@
            }),
            all_digits(d.take(i - start)),
            acc as nat == digits_value(d.take(i - start)),
        decreases n - i,
    {
        let c = s[i];
        assert(d.take(i + 1 - start) =~= d.take(i - start).push(c));
        if !('0' <= c && c <= '9') {
            assert(!is_digit(d[i - start]));
            assert(!all_digits(d));
            return None;
        }
        let dv: u32 = (c as u32) - ('0' as u32);
        proof {
            lemma_digits_value_push(d.take(i - start), c);
        }
        match acc.checked_mul(10) {
            None => {
                proof {
                    if all_digits(d) {
                        lemma_digits_value_monotone(d, i + 1 - start);
                    }
                }
                return None;
            },
            Some(m) => match m.checked_add(dv as usize) {
                None => {
                    proof {
                        if all_digits(d) {
                            lemma_digits_value_monotone(d, i + 1 - start);
                        }
                    }
                    return None;
                },
                Some(v) => {
                    acc = v;
                },
            },
        }
        i = i + 1;
    }
    assert(d.take(n - start) =~= d);
    Some(acc)
}

/// The decimal text of `n`, as `Display` prints it.
pub fn usize_to_chars(n: usize) -> (r: Vec<char>)
    ensures
        r@ == decimal(n as nat),
    decreases n,
{
    if n < 10 {
        let c: char = ((n as u8) + 48) as char;
        let mut r: Vec<char> = Vec::new();
        r.push(c);
        assert(r@ =~= seq![digit_char(n as nat)]);
        r
    } else {
        let mut r = usize_to_chars(n / 10);
        let c: char = (((n % 10) as u8) + 48) as char;
        r.push(c);
        r
    }
}

/// The decimal text of `n`, as `n.to_string()` gives it.
pub fn usize_to_string(n: usize) -> (r: String)
    ensures
        r@ == decimal(n as nat),
{
    let cs = usize_to_chars(n);
    crate::text::string_from_chars(cs.as_slice())
}

// ---------------------------------------------------------------------------
// Floating-point text
// ---------------------------------------------------------------------------

/// `p` has at most one decimal point.
pub open spec fn at_most_one_point(m: Seq<char>) -> bool {
    forall|i: int, j: int| 0 <= i < m.len() && 0 <= j < m.len() && m[i] == '.' && m[j] == '.' ==> i == j
}

/// A mantissa of Rust's float grammar, `Digit+ | Digit+ '.' Digit* | Digit* '.' Digit+`:
/// digits with at most one decimal point and at least one digit.
pub open spec fn is_mantissa(m: Seq<char>) -> bool {
    &&& m.len() > 0
    &&& m != seq!['.']
    &&& forall|i: int| 0 <= i < m.len() ==> (is_digit(#[trigger] m[i]) || m[i] == '.')
    &&& at_most_one_point(m)
}

/// An exponent tail of Rust's float grammar: `Sign? Digit+`.
pub open spec fn is_exponent(x: Seq<char>) -> bool {
    let d = if x.len() > 0 && (x[0] == '+' || x[0] == '-') {
        x.drop_first()
    } else {
        x
    };
    d.len() > 0 && all_digits(d)
}

/// `Number ::= Mantissa ('e' Exponent)?`
pub open spec fn is_number(b: Seq<char>) -> bool {
    match find(b, seq!['e']) {
        Some(k) => is_mantissa(b.take(k)) && is_exponent(b.skip(k + 1)),
        None => is_mantissa(b),
    }
}

/// The text that `f32::from_str` accepts, as std documents it: after ASCII
/// lowercasing, `Sign? ('inf' | 'infinity' | 'nan' | Number)`, with no
/// surrounding whitespace.
pub open spec fn is_float_text(s: Seq<char>) -> bool {
    let t = ascii_lower(s);
    let b = if t.len() > 0 && (t[0] == '+' || t[0] == '-') {
        t.drop_first()
    } else {
        t
    };
    b == "inf"@ || b == "infinity"@ || b == "nan"@ || is_number(b)
}

fn is_mantissa_exec(m: &[char]) -> (r: bool)
    ensures
        r == is_mantissa(m@),
{
    let n = m.len();
    if n == 0 {
        return false;
    }
    let mut point: Option<usize> = None;
    let mut i: usize = 0;
    while i < n
        invariant
            n == m@.len(),
            i <= n,
            forall|j: int| 0 <= j < i ==> (is_digit(#[trigger] m@[j]) || m@[j] == '.'),
            point matches Some(p) ==> p < i && m@[p as int] == '.' && forall|j: int| 0 <= j < i && m@[j] == '.' ==> j == p,
            point is None ==> forall|j: int| 0 <= j < i ==> m@[j] != '.',
        decreases n - i,
    {
        let c = m[i];
        if c == '.' {
            if point.is_some() {
                return false;
            }
            point = Some(i);
        } else if !('0' <= c && c <= '9') {
            return false;
        }
        i = i + 1;
    }
    if n == 1 && m[0] == '.' {
        assert(m@ =~= seq!['.']);
        return false;
    }
    assert(m@ != seq!['.']) by {
        if m@ == seq!['.'] {
            assert(m@[0] == '.');
        }
    }
    true
}

fn is_exponent_exec(x: &[char]) -> (r: bool)
    ensures
        r == is_exponent(x@),
{
    let n = x.len();
    let start: usize = if n > 0 && (x[0] == '+' || x[0] == '-') {
        1
    } else {
        0
    };
    let ghost d = if x@.len() > 0 && (x@[0] == '+' || x@[0] == '-') {
        x@.drop_first()
    } else {
        x@
    };
    assert(d =~= x@.subrange(start as int, n as int));
    if start == n {
        return false;
    }
    let mut i: usize = start;
    while i < n
        invariant
            n == x@.len(),
            start <= i <= n,
            d =~= x@.subrange(start as int, n as int),
            d == (if x@.len() > 0 && (x@[0] == '+' || x@[0] == '-') {
                x@.drop_first()
            } else {
                x@
            }),
            forall|j: int| 0 <= j < i - start ==> is_digit(#[trigger] d[j]),
        decreases n - i,
    {
        let c = x[i];
        if !('0' <= c && c <= '9') {
            assert(!is_digit(d[i - start]));
            assert(!all_digits(d));
            return false;
        }
        i = i + 1;
    }
    true
}

/// Whether `f32::from_str` accepts `s` (its documented grammar).
pub fn is_float_literal(s: &[char]) -> (r: bool)
    ensures
        r == is_float_text(s@),
{
    let t = to_ascii_lower(s);
    let n = t.len();
    let start: usize = if n > 0 && (t[0] == '+' || t[0] == '-') {
        1
    } else {
        0
    };
    let b = sub_chars(t.as_slice(), start, n);
    assert(b@ =~= (if t@.len() > 0 && (t@[0] == '+' || t@[0] == '-') {
        t@.drop_first()
    } else {
        t@
    }));
    let inf = chars_of("inf");
    let infinity = chars_of("infinity");
    let nan = chars_of("nan");
    if chars_equal(b.as_slice(), inf.as_slice()) || chars_equal(b.as_slice(), infinity.as_slice())
        || chars_equal(b.as_slice(), nan.as_slice()) {
        return true;
    }
    let e: Vec<char> = vec!['e'];
    assert(e@ =~= seq!['e']);
    let found = find_exec(b.as_slice(), e.as_slice());
    proof {
        crate::text::lemma_find_from_bounds(b@, e@, 0);
    }
    match found {
        Some(k) => {
            let m = sub_chars(b.as_slice(), 0, k);
            let x = sub_chars(b.as_slice(), k + 1, b.len());
            assert(m@ =~= b@.take(k as int));
            assert(x@ =~= b@.skip(k + 1));
            is_mantissa_exec(m.as_slice()) && is_exponent_exec(x.as_slice())
        },
        None => is_mantissa_exec(b.as_slice()),
    }
}

} // verus!
