use vstd::prelude::*;

verus! {

broadcast use vstd::string::axiom_spec_iter;

/// The characters of `s`, in order.
pub fn chars_of(s: &str) -> (r: Vec<char>)
    ensures
        r@ == s@,
{
    let mut out: Vec<char> = Vec::new();
    for c in it: s.chars()
        invariant
            it.seq() == s@,
            out@ == it.seq().take(it.index() as int),
    {
        out.push(c);
    }
    out
}

/// Relies on String::push: the character is appended.
#[verifier::external_body]
pub(crate) fn push_char(s: &mut String, c: char)
    ensures
        final(s)@ == old(s)@.push(c),
{
    s.push(c);
}

/// The string of the characters `s[a..b]`.
pub fn string_of(s: &Vec<char>, a: usize, b: usize) -> (r: String)
    requires
        a <= b <= s.len(),
    ensures
        r@ == s@.subrange(a as int, b as int),
{
    let mut out = String::new();
    let mut i: usize = a;
    while i < b
        invariant
            a <= i <= b <= s.len(),
            out@ == s@.subrange(a as int, i as int),
        decreases b - i,
    {
        push_char(&mut out, s[i]);
        assert(s@.subrange(a as int, i + 1) =~= s@.subrange(a as int, i as int).push(s@[i as int]));
        i = i + 1;
    }
    out
}

/// The position of the first `c` in `t`, or `t.len()` where there is none.
pub open spec fn index_of(t: Seq<char>, c: char) -> nat
    decreases t.len(),
{
    if t.len() == 0 {
        0
    } else if t[0] == c {
        0
    } else {
        1 + index_of(t.drop_first(), c)
    }
}

pub(crate) proof fn lemma_index_of(t: Seq<char>, c: char, k: int)
    requires
        0 <= k <= t.len(),
        forall|i: int| 0 <= i < k ==> t[i] != c,
        k == t.len() || t[k] == c,
    ensures
        index_of(t, c) == k,
    decreases k,
{
    if k > 0 {
        let u = t.drop_first();
        assert forall|i: int| 0 <= i < k - 1 implies u[i] != c by {
            assert(u[i] == t[i + 1]);
        }
        if k < t.len() {
            assert(u[k - 1] == t[k]);
        }
        lemma_index_of(u, c, k - 1);
    }
}

/// The characters with the Unicode `White_Space` property, as
/// `char::is_whitespace` documents them.
pub open spec fn is_space(c: char) -> bool {
    ('\u{9}' <= c && c <= '\u{d}') || c == ' ' || c == '\u{85}' || c == '\u{a0}' || c == '\u{1680}'
        || ('\u{2000}' <= c && c <= '\u{200a}') || c == '\u{2028}' || c == '\u{2029}' || c == '\u{202f}'
        || c == '\u{205f}' || c == '\u{3000}'
}

pub fn is_space_char(c: char) -> (r: bool)
    ensures
        r == is_space(c),
{
    ('\u{9}' <= c && c <= '\u{d}') || c == ' ' || c == '\u{85}' || c == '\u{a0}' || c == '\u{1680}'
        || ('\u{2000}' <= c && c <= '\u{200a}') || c == '\u{2028}' || c == '\u{2029}' || c == '\u{202f}'
        || c == '\u{205f}' || c == '\u{3000}'
}

/// `s` without its leading and trailing white space.
pub open spec fn trimmed(s: Seq<char>) -> Seq<char>
    decreases s.len(),
{
    if s.len() == 0 {
        s
    } else if is_space(s[0]) {
        trimmed(s.drop_first())
    } else if is_space(s.last()) {
        trimmed(s.drop_last())
    } else {
        s
    }
}

proof fn lemma_trim_front(s: Seq<char>, k: int)
    requires
        0 <= k <= s.len(),
        forall|i: int| 0 <= i < k ==> is_space(#[trigger] s[i]),
    ensures
        trimmed(s) == trimmed(s.subrange(k, s.len() as int)),
    decreases k,
{
    if k == 0 {
        assert(s.subrange(0, s.len() as int) =~= s);
    } else {
        let t = s.drop_first();
        assert forall|i: int| 0 <= i < k - 1 implies is_space(#[trigger] t[i]) by {
            assert(t[i] == s[i + 1]);
        }
        lemma_trim_front(t, k - 1);
        assert(t.subrange(k - 1, t.len() as int) =~= s.subrange(k, s.len() as int));
    }
}

proof fn lemma_trim_back(s: Seq<char>, k: int)
    requires
        0 < k <= s.len(),
        !is_space(s[0]),
        forall|i: int| k <= i < s.len() ==> is_space(#[trigger] s[i]),
    ensures
        trimmed(s) == trimmed(s.subrange(0, k)),
    decreases s.len() - k,
{
    if k == s.len() {
        assert(s.subrange(0, k) =~= s);
    } else {
        let t = s.drop_last();
        assert(is_space(s[s.len() - 1]));
        assert(trimmed(s) == trimmed(t));
        assert forall|i: int| k <= i < t.len() implies is_space(#[trigger] t[i]) by {
            assert(t[i] == s[i]);
        }
        lemma_trim_back(t, k);
        assert(t.subrange(0, k) =~= s.subrange(0, k));
    }
}

/// The bounds of `s` without its leading and trailing white space.
pub fn trim_bounds(s: &Vec<char>) -> (r: (usize, usize))
    ensures
        r.0 <= r.1 <= s.len(),
        s@.subrange(r.0 as int, r.1 as int) == trimmed(s@),
{
    let mut lo: usize = 0;
    while lo < s.len() && is_space_char(s[lo])
        invariant
            lo <= s.len(),
            forall|i: int| 0 <= i < lo ==> is_space(#[trigger] s@[i]),
        decreases s.len() - lo,
    {
        lo = lo + 1;
    }
    proof {
        lemma_trim_front(s@, lo as int);
    }
    if lo == s.len() {
        proof {
            assert(s@.subrange(lo as int, lo as int) =~= Seq::<char>::empty());
        }
        return (lo, lo);
    }
    let mut hi: usize = s.len();
    while hi > lo + 1 && is_space_char(s[hi - 1])
        invariant
            lo < hi <= s.len(),
            forall|i: int| hi <= i < s.len() ==> is_space(#[trigger] s@[i]),
        decreases hi,
    {
        hi = hi - 1;
    }
    proof {
        let t = s@.subrange(lo as int, s.len() as int);
        assert(t[0] == s@[lo as int]);
        assert forall|i: int| (hi - lo) <= i < t.len() implies is_space(#[trigger] t[i]) by {
            assert(t[i] == s@[i + lo]);
        }
        lemma_trim_back(t, hi - lo);
        let u = t.subrange(0, hi - lo);
        assert(u =~= s@.subrange(lo as int, hi as int));
        assert(u[0] == s@[lo as int]);
        assert(u.last() == s@[hi - 1]);
    }
    (lo, hi)
}

pub open spec fn is_digit(c: char) -> bool {
    '0' <= c && c <= '9'
}

pub open spec fn all_digits(s: Seq<char>) -> bool {
    forall|i: int| 0 <= i < s.len() ==> is_digit(#[trigger] s[i])
}

/// The number that decimal digits `s` write.
pub open spec fn digits_value(s: Seq<char>) -> nat
    decreases s.len(),
{
    if s.len() == 0 {
        0
    } else {
        digits_value(s.drop_last()) * 10 + ((s.last() as int - '0' as int) as nat)
    }
}

/// The integer that `s` writes as `i64`'s `FromStr` reads it: an optional
/// `+` or `-`, then one or more decimal digits; `None` for anything else.
pub open spec fn int_text(s: Seq<char>) -> Option<int> {
    if s.len() > 0 && (s[0] == '+' || s[0] == '-') {
        let d = s.drop_first();
        if d.len() > 0 && all_digits(d) {
            Some(if s[0] == '-' { -(digits_value(d) as int) } else { digits_value(d) as int })
        } else {
            None
        }
    } else if s.len() > 0 && all_digits(s) {
        Some(digits_value(s) as int)
    } else {
        None
    }
}

pub open spec fn fits_i64(v: int) -> bool {
    i64::MIN <= v <= i64::MAX
}

/// `s` read as an `i64`, or 0 where it is no integer or does not fit.
pub open spec fn int_or_zero(s: Seq<char>) -> int {
    match int_text(s) {
        Some(v) => if fits_i64(v) {
            v
        } else {
            0
        },
        None => 0,
    }
}

proof fn lemma_digits_grow(s: Seq<char>, k: int)
    requires
        0 <= k <= s.len(),
        all_digits(s),
    ensures
        digits_value(s.subrange(0, k)) <= digits_value(s),
    decreases s.len() - k,
{
    if k < s.len() {
        lemma_digits_grow(s, k + 1);
        let t = s.subrange(0, k + 1);
        assert(t.drop_last() =~= s.subrange(0, k));
        assert(t.last() == s[k]);
        assert(is_digit(s[k]));
    } else {
        assert(s.subrange(0, k) =~= s);
    }
}

/// The characters `s[lo..hi]` read as an `i64`, or 0 where they are no
/// integer or do not fit, as `str::parse::<i64>().unwrap_or(0)` reads them.
pub fn parse_int_or_zero(s: &Vec<char>, lo: usize, hi: usize) -> (r: i64)
    requires
        lo <= hi <= s.len(),
    ensures
        r as int == int_or_zero(s@.subrange(lo as int, hi as int)),
{
    let ghost t = s@.subrange(lo as int, hi as int);
    if lo == hi {
        return 0;
    }
    let negative = s[lo] == '-';
    assert(t[0] == s@[lo as int]);
    let start: usize = if s[lo] == '-' || s[lo] == '+' { lo + 1 } else { lo };
    let ghost d = s@.subrange(start as int, hi as int);
    proof {
        if start > lo {
            assert(t.drop_first() =~= d);
        } else {
            assert(t =~= d);
        }
    }
    if start == hi {
        return 0;
    }
    let bound: u64 = 0x8000_0000_0000_0000;
    let mut acc: u64 = 0;
    let mut i: usize = start;
    while i < hi
        invariant
            lo <= start <= i <= hi <= s.len(),
            d == s@.subrange(start as int, hi as int),
            t == s@.subrange(lo as int, hi as int),
            t.len() > 0,
            d.len() > 0,
            start > lo ==> start == lo + 1 && (t[0] == '+' || t[0] == '-') && t.drop_first() == d,
            start == lo ==> t == d && !(t[0] == '+' || t[0] == '-'),
            negative == (t[0] == '-'),
            acc <= bound,
            bound == 0x8000_0000_0000_0000u64,
            acc as nat == digits_value(s@.subrange(start as int, i as int)),
            all_digits(s@.subrange(start as int, i as int)),
        decreases hi - i,
    {
        let c = s[i];
        let ghost pre = s@.subrange(start as int, i as int);
        let ghost next = s@.subrange(start as int, i + 1);
        proof {
            assert(next.drop_last() =~= pre);
            assert(next.last() == c);
        }
        if !('0' <= c && c <= '9') {
            proof {
                assert(d[i - start] == c);
                assert(!all_digits(d));
                assert(int_text(t) is None);
            }
            return 0;
        }
        let digit = (c as u32 - '0' as u32) as u64;
        if acc > (bound - digit) / 10 {
            proof {
                let dv = (c as int - '0' as int) as nat;
                assert(dv == digit);
                assert(digits_value(next) == digits_value(pre) * 10 + dv);
                let q = (bound - digit) / 10;
                assert(acc >= q + 1);
                assert((q + 1) * 10 > bound - digit) by (nonlinear_arith)
                    requires q == (bound - digit) / 10, digit <= 9, bound - digit >= 0;
                assert(acc * 10 >= (q + 1) * 10) by (nonlinear_arith)
                    requires acc >= q + 1;
                assert(digits_value(next) > bound);
                assert forall|k: int| 0 <= k < next.len() implies is_digit(#[trigger] next[k]) by {
                    if k < pre.len() {
                        assert(next[k] == pre[k]);
                    }
                }
                if all_digits(d) {
                    assert(d.subrange(0, i + 1 - start) =~= next);
                    lemma_digits_grow(d, i + 1 - start);
                    assert(digits_value(d) > bound);
                    assert(!fits_i64(int_text(t)->Some_0));
                } else {
                    assert(int_text(t) is None);
                }
            }
            return 0;
        }
        acc = acc * 10 + digit;
        proof {
            assert forall|k: int| 0 <= k < next.len() implies is_digit(#[trigger] next[k]) by {
                if k < pre.len() {
                    assert(next[k] == pre[k]);
                }
            }
        }
        i = i + 1;
    }
    proof {
        assert(s@.subrange(start as int, i as int) =~= d);
    }
    if negative {
        if acc == bound {
            i64::MIN
        } else {
            -(acc as i64)
        }
    } else if acc == bound {
        0
    } else {
        acc as i64
    }
}

} // verus!
