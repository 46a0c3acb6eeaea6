//! The text forms that attribute values must take: a real number in the form
//! that the standard library's `f64` parser accepts, a decimal `i64`, and a
//! boolean.
use vstd::prelude::*;

verus! {

/// Whether `s` and `lit` are the same text.
pub fn text_is(s: &str, lit: &str) -> (r: bool)
    ensures
        r == (s@ == lit@),
{
    let n = s.unicode_len();
    if n != lit.unicode_len() {
        return false;
    }
    let mut i: usize = 0;
    while i < n
        invariant
            n == s@.len(),
            n == lit@.len(),
            i <= n,
            forall|j: int| 0 <= j < i ==> s@[j] == lit@[j],
        decreases n - i,
    {
        if s.get_char(i) != lit.get_char(i) {
            return false;
        }
        i = i + 1;
    }
    assert(s@ =~= lit@);
    true
}

pub open spec fn is_digit(c: char) -> bool {
    '0' <= c && c <= '9'
}

/// The states of a reader of a real number, after the characters read so far.
#[derive(Debug, Clone, Copy, PartialEq, Eq, Structural)]
pub enum RealState {
    Start,
    Signed,
    Int,
    IntDot,
    DotOnly,
    Frac,
    Exp,
    ExpSigned,
    ExpInt,
    Fail,
}

/// One step of the grammar `Sign? (Digit+ | Digit+ '.' Digit* | Digit* '.' Digit+) (('e' | 'E') Sign? Digit+)?`.
pub open spec fn real_step(st: RealState, c: char) -> RealState {
    let sign = c == '+' || c == '-';
    let e = c == 'e' || c == 'E';
    match st {
        RealState::Start => if is_digit(c) {
            RealState::Int
        } else if sign {
            RealState::Signed
        } else if c == '.' {
            RealState::DotOnly
        } else {
            RealState::Fail
        },
        RealState::Signed => if is_digit(c) {
            RealState::Int
        } else if c == '.' {
            RealState::DotOnly
        } else {
            RealState::Fail
        },
        RealState::Int => if is_digit(c) {
            RealState::Int
        } else if c == '.' {
            RealState::IntDot
        } else if e {
            RealState::Exp
        } else {
            RealState::Fail
        },
        RealState::IntDot => if is_digit(c) {
            RealState::Frac
        } else if e {
            RealState::Exp
        } else {
            RealState::Fail
        },
        RealState::DotOnly => if is_digit(c) {
            RealState::Frac
        } else {
            RealState::Fail
        },
        RealState::Frac => if is_digit(c) {
            RealState::Frac
        } else if e {
            RealState::Exp
        } else {
            RealState::Fail
        },
        RealState::Exp => if is_digit(c) {
            RealState::ExpInt
        } else if sign {
            RealState::ExpSigned
        } else {
            RealState::Fail
        },
        RealState::ExpSigned => if is_digit(c) {
            RealState::ExpInt
        } else {
            RealState::Fail
        },
        RealState::ExpInt => if is_digit(c) {
            RealState::ExpInt
        } else {
            RealState::Fail
        },
        RealState::Fail => RealState::Fail,
    }
}

pub open spec fn real_run(s: Seq<char>) -> RealState
    decreases s.len(),
{
    if s.len() == 0 {
        RealState::Start
    } else {
        real_step(real_run(s.drop_last()), s.last())
    }
}

pub open spec fn real_accepts(st: RealState) -> bool {
    st == RealState::Int || st == RealState::IntDot || st == RealState::Frac || st == RealState::ExpInt
}

pub open spec fn unsigned(s: Seq<char>) -> Seq<char> {
    if s.len() > 0 && (s[0] == '+' || s[0] == '-') {
        s.drop_first()
    } else {
        s
    }
}

pub open spec fn upper_of(c: char) -> char {
    if c == 'i' {
        'I'
    } else if c == 'n' {
        'N'
    } else if c == 'f' {
        'F'
    } else if c == 't' {
        'T'
    } else if c == 'y' {
        'Y'
    } else if c == 'a' {
        'A'
    } else {
        c
    }
}

/// `s` is the lower-case word `w` in any mix of cases.
pub open spec fn is_word(s: Seq<char>, w: Seq<char>) -> bool {
    s.len() == w.len() && forall|i: int| 0 <= i < s.len() ==> s[i] == w[i] || s[i] == upper_of(w[i])
}

/// A real number as the standard library's `f64` parser accepts it: the
/// grammar of `real_step`, or an optionally signed `inf`, `infinity` or
/// `nan` in any case.
pub open spec fn is_real_literal(s: Seq<char>) -> bool {
    real_accepts(real_run(s)) || is_word(unsigned(s), seq!['i', 'n', 'f']) || is_word(
        unsigned(s),
        seq!['i', 'n', 'f', 'i', 'n', 'i', 't', 'y'],
    ) || is_word(unsigned(s), seq!['n', 'a', 'n'])
}

fn step(st: RealState, c: char) -> (r: RealState)
    ensures
        r == real_step(st, c),
{
    let digit = '0' <= c && c <= '9';
    let sign = c == '+' || c == '-';
    let e = c == 'e' || c == 'E';
    match st {
        RealState::Start => if digit {
            RealState::Int
        } else if sign {
            RealState::Signed
        } else if c == '.' {
            RealState::DotOnly
        } else {
            RealState::Fail
        },
        RealState::Signed => if digit {
            RealState::Int
        } else if c == '.' {
            RealState::DotOnly
        } else {
            RealState::Fail
        },
        RealState::Int => if digit {
            RealState::Int
        } else if c == '.' {
            RealState::IntDot
        } else if e {
            RealState::Exp
        } else {
            RealState::Fail
        },
        RealState::IntDot => if digit {
            RealState::Frac
        } else if e {
            RealState::Exp
        } else {
            RealState::Fail
        },
        RealState::DotOnly => if digit {
            RealState::Frac
        } else {
            RealState::Fail
        },
        RealState::Frac => if digit {
            RealState::Frac
        } else if e {
            RealState::Exp
        } else {
            RealState::Fail
        },
        RealState::Exp => if digit {
            RealState::ExpInt
        } else if sign {
            RealState::ExpSigned
        } else {
            RealState::Fail
        },
        RealState::ExpSigned => if digit {
            RealState::ExpInt
        } else {
            RealState::Fail
        },
        RealState::ExpInt => if digit {
            RealState::ExpInt
        } else {
            RealState::Fail
        },
        RealState::Fail => RealState::Fail,
    }
}

fn upper(c: char) -> (r: char)
    ensures
        r == upper_of(c),
{
    if c == 'i' {
        'I'
    } else if c == 'n' {
        'N'
    } else if c == 'f' {
        'F'
    } else if c == 't' {
        'T'
    } else if c == 'y' {
        'Y'
    } else if c == 'a' {
        'A'
    } else {
        c
    }
}

/// Whether the characters of `s` from `from` on spell the lower-case word
/// `w` in any mix of cases.
fn word_from(s: &str, from: usize, w: &str) -> (r: bool)
    requires
        from <= s@.len(),
    ensures
        r == is_word(s@.subrange(from as int, s@.len() as int), w@),
{
    let n = s.unicode_len();
    let m = w.unicode_len();
    if n - from != m {
        return false;
    }
    let ghost t = s@.subrange(from as int, s@.len() as int);
    let mut i: usize = 0;
    while i < m
        invariant
            n == s@.len(),
            m == w@.len(),
            n - from == m,
            from <= n,
            t == s@.subrange(from as int, s@.len() as int),
            i <= m,
            forall|j: int| 0 <= j < i ==> t[j] == w@[j] || t[j] == upper_of(w@[j]),
        decreases m - i,
    {
        let c = s.get_char(from + i);
        let l = w.get_char(i);
        if c != l && c != upper(l) {
            return false;
        }
        i = i + 1;
    }
    true
}

/// Whether `s` is a real number in the form that `is_real_literal` describes.
pub fn is_real(s: &str) -> (r: bool)
    ensures
        r == is_real_literal(s@),
{
    let n = s.unicode_len();
    let mut st = RealState::Start;
    let mut i: usize = 0;
    while i < n
        invariant
            n == s@.len(),
            i <= n,
            st == real_run(s@.subrange(0, i as int)),
        decreases n - i,
    {
        let ghost before = s@.subrange(0, i as int);
        st = step(st, s.get_char(i));
        i = i + 1;
        assert(s@.subrange(0, i as int).drop_last() =~= before);
    }
    assert(s@.subrange(0, n as int) =~= s@);
    if st == RealState::Int || st == RealState::IntDot || st == RealState::Frac || st == RealState::ExpInt {
        return true;
    }
    let from: usize = if n > 0 && (s.get_char(0) == '+' || s.get_char(0) == '-') {
        1
    } else {
        0
    };
    assert(unsigned(s@) =~= s@.subrange(from as int, s@.len() as int));
    proof {
        reveal_strlit("inf");
        reveal_strlit("infinity");
        reveal_strlit("nan");
    }
    assert("inf"@ =~= seq!['i', 'n', 'f']);
    assert("infinity"@ =~= seq!['i', 'n', 'f', 'i', 'n', 'i', 't', 'y']);
    assert("nan"@ =~= seq!['n', 'a', 'n']);
    word_from(s, from, "inf") || word_from(s, from, "infinity") || word_from(s, from, "nan")
}

/// The value of a non-empty run of decimal digits.
pub open spec fn digits_value(s: Seq<char>) -> int
    decreases s.len(),
{
    if s.len() == 0 {
        0
    } else {
        10 * digits_value(s.drop_last()) + (s.last() as int - '0' as int)
    }
}

pub open spec fn all_digits(s: Seq<char>) -> bool {
    s.len() > 0 && forall|i: int| 0 <= i < s.len() ==> is_digit(#[trigger] s[i])
}

/// The integer that `s` writes: an optional sign, then decimal digits.
pub open spec fn integer_literal(s: Seq<char>) -> Option<int> {
    if s.len() > 0 && s[0] == '-' && all_digits(s.drop_first()) {
        Some(-digits_value(s.drop_first()))
    } else if s.len() > 0 && s[0] == '+' && all_digits(s.drop_first()) {
        Some(digits_value(s.drop_first()))
    } else if all_digits(s) {
        Some(digits_value(s))
    } else {
        None
    }
}

/// The `i64` that `s` writes, if it writes one in range.
pub open spec fn integer_value(s: Seq<char>) -> Option<i64> {
    match integer_literal(s) {
        Some(v) => if i64::MIN <= v <= i64::MAX {
            Some(v as i64)
        } else {
            None
        },
        None => None,
    }
}

proof fn lemma_digits_nonneg(s: Seq<char>)
    requires
        forall|k: int| 0 <= k < s.len() ==> is_digit(#[trigger] s[k]),
    ensures
        digits_value(s) >= 0,
    decreases s.len(),
{
    if s.len() > 0 {
        lemma_digits_nonneg(s.drop_last());
    }
}

proof fn lemma_digits_grow(s: Seq<char>, i: int, j: int)
    requires
        0 <= i <= j <= s.len(),
        forall|k: int| 0 <= k < s.len() ==> is_digit(#[trigger] s[k]),
    ensures
        digits_value(s.subrange(0, i)) <= digits_value(s.subrange(0, j)),
    decreases j,
{
    if i < j {
        lemma_digits_grow(s, i, j - 1);
        assert(s.subrange(0, j).drop_last() =~= s.subrange(0, j - 1));
        lemma_digits_nonneg(s.subrange(0, j - 1));
    }
}

/// The `i64` that `s` writes (`integer_value`).
pub fn parse_integer(s: &str) -> (r: Option<i64>)
    ensures
        r == integer_value(s@),
{
    let n = s.unicode_len();
    if n == 0 {
        return None;
    }
    let c0 = s.get_char(0);
    let negative = c0 == '-';
    let start: usize = if c0 == '-' || c0 == '+' {
        1
    } else {
        0
    };
    if start == n {
        return None;
    }
    let ghost d = s@.subrange(start as int, n as int);
    assert(start == 1 ==> d =~= s@.drop_first());
    assert(start == 0 ==> d =~= s@);
    let limit: u128 = 9223372036854775808;
    let mut acc: u128 = 0;
    let mut i: usize = start;
    while i < n
        invariant
            n == s@.len(),
            start <= i <= n,
            start < n,
            c0 == s@[0],
            negative == (c0 == '-'),
            (start == 1) == (c0 == '-' || c0 == '+'),
            start <= 1,
            d == s@.subrange(start as int, n as int),
            forall|k: int| 0 <= k < i - start ==> is_digit(#[trigger] d[k]),
            acc as int == digits_value(d.subrange(0, i - start)),
            acc <= limit,
            limit == 9223372036854775808u128,
        decreases n - i,
    {
        let c = s.get_char(i);
        if !('0' <= c && c <= '9') {
            assert(!is_digit(d[i - start]));
            assert(!all_digits(d));
            assert(start == 1 ==> !is_digit(s@[0]));
            assert(start == 1 ==> d =~= s@.drop_first());
            assert(start == 0 ==> d =~= s@);
            return None;
        }
        let v = (c as u32 - '0' as u32) as u128;
        assert(acc * 10 <= limit * 10) by (nonlinear_arith)
            requires
                acc <= limit,
            limit == 9223372036854775808u128,
        ;
        acc = acc * 10 + v;
        i = i + 1;
        assert(d.subrange(0, i - start).drop_last() =~= d.subrange(0, i - start - 1));
        if acc > limit {
            proof {
                assert(start == 1 ==> !is_digit(s@[0]));
                assert(start == 1 ==> d =~= s@.drop_first());
                assert(start == 0 ==> d =~= s@);
                if all_digits(d) {
                    lemma_digits_grow(d, i - start, d.len() as int);
                    assert(d.subrange(0, d.len() as int) =~= d);
                    assert(digits_value(d) > limit);
                }
            }
            return None;
        }
    }
    assert(d.subrange(0, n - start) =~= d);
    if negative {
        if acc == limit {
            Some(i64::MIN)
        } else {
            Some(0i64 - acc as i64)
        }
    } else if acc < limit {
        Some(acc as i64)
    } else {
        None
    }
}

} // verus!
