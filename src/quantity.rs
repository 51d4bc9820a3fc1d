use vstd::prelude::*;
use crate::text::{
    all_digits, chars_of, digits_value, fits_i64, int_or_zero, int_text, is_digit, parse_int_or_zero,
    trim_bounds, trimmed,
};

verus! {

/// `v * f`, or 0 where the product does not fit an `i64`.
pub open spec fn scaled(v: int, f: int) -> int {
    if fits_i64(v * f) {
        v * f
    } else {
        0
    }
}

/// Division that rounds toward zero, as integer division in Rust does.
pub open spec fn div_toward_zero(v: int, d: int) -> int {
    if v >= 0 {
        v / d
    } else {
        -((-v) / d)
    }
}

/// `u` is a plain decimal number whose point, if any, stands at `k`:
/// digits, then optionally a point and more digits, with a digit somewhere.
pub open spec fn point_at(u: Seq<char>, k: int) -> bool {
    &&& 0 <= k <= u.len()
    &&& all_digits(u.subrange(0, k))
    &&& (k == u.len() || (u[k] == '.' && all_digits(u.subrange(k + 1, u.len() as int))))
    &&& (k > 0 || u.len() > 1)
}

pub open spec fn has_sign(t: Seq<char>) -> bool {
    t.len() > 0 && (t[0] == '+' || t[0] == '-')
}

/// `t` without its sign.
pub open spec fn unsigned_part(t: Seq<char>) -> Seq<char> {
    if has_sign(t) {
        t.drop_first()
    } else {
        t
    }
}

pub open spec fn is_exp_mark(c: char) -> bool {
    c == 'e' || c == 'E'
}

/// The position of the first `e` or `E` in `u`, or `u.len()`.
pub open spec fn exp_index(u: Seq<char>) -> nat
    decreases u.len(),
{
    if u.len() == 0 {
        0
    } else if is_exp_mark(u[0]) {
        0
    } else {
        1 + exp_index(u.drop_first())
    }
}

/// The exponent of the unsigned number `u`: what follows its `e` or `E`,
/// read as an integer (`None` where that is no integer); 0 without one.
pub open spec fn exponent_of(u: Seq<char>) -> Option<int> {
    let x = exp_index(u) as int;
    if x < u.len() {
        int_text(u.skip(x + 1))
    } else {
        Some(0)
    }
}

/// The digits of the plain decimal number `mant` whose point stands at `k`.
pub open spec fn mantissa_digits(mant: Seq<char>, k: int) -> Seq<char> {
    if k < mant.len() {
        mant.take(k) + mant.skip(k + 1)
    } else {
        mant
    }
}

/// Digit `j` of `m`, where digits past the end are zeros.
pub open spec fn digit_at(m: Seq<char>, j: int) -> nat {
    if 0 <= j < m.len() {
        (m[j] as int - '0' as int) as nat
    } else {
        0
    }
}

/// The number that the first `p` digits of `m` write, `m` padded with
/// zeros on the right; 0 for `p <= 0`.
pub open spec fn padded_value(m: Seq<char>, p: int) -> nat
    decreases p,
{
    if p <= 0 {
        0
    } else {
        padded_value(m, p - 1) * 10 + digit_at(m, p - 1)
    }
}

/// The whole part of the number `t`, truncated toward zero: an optional
/// sign, a plain decimal number, then optionally `e` or `E` and an integer
/// exponent. The digits with the point moved by the exponent give the
/// whole part. 0 for any other text.
pub open spec fn whole_part(t: Seq<char>) -> int {
    let u = unsigned_part(t);
    let mant = u.take(exp_index(u) as int);
    if (exists|k: int| point_at(mant, k)) && exponent_of(u) is Some {
        let k = choose|k: int| point_at(mant, k);
        let w = padded_value(mantissa_digits(mant, k), k + exponent_of(u)->0) as int;
        if t.len() > 0 && t[0] == '-' {
            -w
        } else {
            w
        }
    } else {
        0
    }
}

pub open spec fn pow10(n: nat) -> nat
    decreases n,
{
    if n == 0 {
        1
    } else {
        10 * pow10((n - 1) as nat)
    }
}

proof fn lemma_exp_index(u: Seq<char>, k: int)
    requires
        0 <= k <= u.len(),
        forall|i: int| 0 <= i < k ==> !is_exp_mark(#[trigger] u[i]),
        k == u.len() || is_exp_mark(u[k]),
    ensures
        exp_index(u) == k,
    decreases k,
{
    if k > 0 {
        let v = u.drop_first();
        assert forall|i: int| 0 <= i < k - 1 implies !is_exp_mark(#[trigger] v[i]) by {
            assert(v[i] == u[i + 1]);
        }
        if k < u.len() {
            assert(v[k - 1] == u[k]);
        }
        lemma_exp_index(v, k - 1);
    }
}

proof fn lemma_padded_mono(m: Seq<char>, a: int, b: int)
    requires
        a <= b,
    ensures
        padded_value(m, a) <= padded_value(m, b),
    decreases b - a,
{
    if a < b {
        lemma_padded_mono(m, a, b - 1);
        if b > 0 {
            assert(padded_value(m, b) == padded_value(m, b - 1) * 10 + digit_at(m, b - 1));
        }
    }
}

proof fn lemma_padded_zero(m: Seq<char>, a: int, b: int)
    requires
        m.len() <= a <= b,
        padded_value(m, a) == 0,
    ensures
        padded_value(m, b) == 0,
    decreases b - a,
{
    if a < b {
        lemma_padded_zero(m, a, b - 1);
    }
}

proof fn lemma_pow10_mono(a: nat, b: nat)
    requires
        a <= b,
    ensures
        pow10(a) <= pow10(b),
    decreases b - a,
{
    if a < b {
        lemma_pow10_mono(a, (b - 1) as nat);
    }
}

proof fn lemma_padded_grow(m: Seq<char>, q: nat)
    ensures
        padded_value(m, (m.len() + q) as int) == 0 || padded_value(m, (m.len() + q) as int) >= pow10(q),
    decreases q,
{
    if q > 0 {
        let q1 = (q - 1) as nat;
        lemma_padded_grow(m, q1);
        let v = padded_value(m, (m.len() + q1) as int);
        assert(padded_value(m, (m.len() + q) as int) == v * 10);
        if v != 0 {
            assert(v * 10 >= pow10(q1) * 10) by (nonlinear_arith)
                requires
                    v >= pow10(q1),
            ;
        }
    }
}

/// Past 19 padding zeros, the whole part is 0 or too large for millicores.
proof fn lemma_padded_far(m: Seq<char>, p: int)
    requires
        p >= m.len() + 19,
    ensures
        padded_value(m, p) == 0 || padded_value(m, p) > 9223372036854775,
{
    let q = (p - m.len()) as nat;
    lemma_padded_grow(m, q);
    lemma_pow10_mono(19, q);
    reveal_with_fuel(pow10, 20);
    assert(pow10(19) == 10000000000000000000);
}

/// Millicores that a CPU quantity writes: `<n>m` is `n`, `<n>n` (nanocores)
/// is `n / 1000000`, and a number of cores (decimal, with an optional
/// exponent) is its whole part times 1000.
/// Unreadable text, or a value beyond `i64`, gives 0.
pub open spec fn cpu_millis(t: Seq<char>) -> int {
    if t.len() > 0 && t.last() == 'm' {
        int_or_zero(t.drop_last())
    } else if t.len() > 0 && t.last() == 'n' {
        div_toward_zero(int_or_zero(t.drop_last()), 1_000_000)
    } else {
        scaled(whole_part(t), 1000)
    }
}

pub open spec fn ends_with_two(t: Seq<char>, a: char, b: char) -> bool {
    t.len() >= 2 && t[t.len() - 2] == a && t[t.len() - 1] == b
}

pub open spec fn ends_with_one(t: Seq<char>, a: char) -> bool {
    t.len() >= 1 && t[t.len() - 1] == a
}

/// `t` without its last `n` characters, read as an integer and scaled.
pub open spec fn unit_value(t: Seq<char>, n: int, f: int) -> int {
    scaled(int_or_zero(t.subrange(0, t.len() - n)), f)
}

/// Bytes that a memory quantity writes: binary suffixes `Ki Mi Gi Ti`,
/// decimal suffixes `k M G T`, or plain bytes. Unreadable text, or a value
/// beyond `i64`, gives 0.
pub open spec fn memory_bytes(t: Seq<char>) -> int {
    if ends_with_two(t, 'K', 'i') {
        unit_value(t, 2, 1024)
    } else if ends_with_two(t, 'M', 'i') {
        unit_value(t, 2, 1048576)
    } else if ends_with_two(t, 'G', 'i') {
        unit_value(t, 2, 1073741824)
    } else if ends_with_two(t, 'T', 'i') {
        unit_value(t, 2, 1099511627776)
    } else if ends_with_one(t, 'k') {
        unit_value(t, 1, 1000)
    } else if ends_with_one(t, 'M') {
        unit_value(t, 1, 1000000)
    } else if ends_with_one(t, 'G') {
        unit_value(t, 1, 1000000000)
    } else if ends_with_one(t, 'T') {
        unit_value(t, 1, 1000000000000)
    } else {
        int_or_zero(t)
    }
}

/// `v * f`, or 0 where the product does not fit an `i64`.
pub fn scale(v: i64, f: i64) -> (r: i64)
    requires
        0 < f,
    ensures
        r as int == scaled(v as int, f as int),
{
    let vv = v as i128;
    let ff = f as i128;
    assert(-0x4000_0000_0000_0000_0000_0000_0000_0000 <= vv * ff <= 0x4000_0000_0000_0000_0000_0000_0000_0000) by (nonlinear_arith)
        requires
            -0x8000_0000_0000_0000 <= vv <= 0x7fff_ffff_ffff_ffff,
            0 < ff <= 0x7fff_ffff_ffff_ffff,
    ;
    let p = vv * ff;
    if p >= i64::MIN as i128 && p <= i64::MAX as i128 {
        p as i64
    } else {
        0
    }
}

proof fn lemma_point_is_first_non_digit(u: Seq<char>, kk: int, k2: int)
    requires
        0 <= kk <= u.len(),
        all_digits(u.subrange(0, kk)),
        kk < u.len() ==> !is_digit(u[kk]),
        point_at(u, k2),
    ensures
        k2 == kk,
{
    if k2 < kk {
        assert(u.subrange(0, kk)[k2] == u[k2]);
    } else if k2 > kk {
        assert(u.subrange(0, k2)[kk] == u[kk]);
    }
}

/// The whole part where the text is a number: the mantissa's point at
/// `kk`, the exponent `e`.
proof fn lemma_whole_part_of_number(t: Seq<char>, kk: int, e: int)
    requires
        ({
            let u = unsigned_part(t);
            let mant = u.take(exp_index(u) as int);
            &&& 0 <= kk <= mant.len()
            &&& all_digits(mant.subrange(0, kk))
            &&& point_at(mant, kk)
            &&& exponent_of(u) == Some(e)
        }),
    ensures
        ({
            let u = unsigned_part(t);
            let w = padded_value(mantissa_digits(u.take(exp_index(u) as int), kk), kk + e) as int;
            whole_part(t) == if t.len() > 0 && t[0] == '-' { -w } else { w }
        }),
{
    let u = unsigned_part(t);
    let mant = u.take(exp_index(u) as int);
    let k2 = choose|k2: int| point_at(mant, k2);
    if kk < mant.len() {
        assert(mant.subrange(0, k2)[kk] == mant[kk] || k2 <= kk);
    }
    lemma_point_is_first_non_digit(mant, kk, k2);
}

/// The whole part where the text is no number.
proof fn lemma_whole_part_of_other(t: Seq<char>, kk: int)
    requires
        ({
            let u = unsigned_part(t);
            let mant = u.take(exp_index(u) as int);
            &&& 0 <= kk <= mant.len()
            &&& all_digits(mant.subrange(0, kk))
            &&& kk < mant.len() ==> !is_digit(mant[kk])
            &&& (!point_at(mant, kk) || exponent_of(u) is None)
        }),
    ensures
        whole_part(t) == 0,
{
    let u = unsigned_part(t);
    let mant = u.take(exp_index(u) as int);
    if exists|k2: int| point_at(mant, k2) {
        let k2 = choose|k2: int| point_at(mant, k2);
        lemma_point_is_first_non_digit(mant, kk, k2);
    }
}

pub open spec fn exp_cap() -> int {
    0x40_0000_0000_0000_0000
}

/// An exponent held within `exp_cap()` in size.
pub open spec fn capped(v: int) -> int {
    if v >= exp_cap() {
        exp_cap()
    } else if v <= -exp_cap() {
        -exp_cap()
    } else {
        v
    }
}

/// The exponent `s[a..b]`, as an integer held within `exp_cap()` in size;
/// `None` where it is no integer.
fn parse_exponent(s: &Vec<char>, a: usize, b: usize) -> (r: Option<i128>)
    requires
        a <= b <= s.len(),
    ensures
        r is None <==> int_text(s@.subrange(a as int, b as int)) is None,
        r is Some ==> r->0 as int == capped(int_text(s@.subrange(a as int, b as int))->0),
{
    let ghost t = s@.subrange(a as int, b as int);
    if a == b {
        return None;
    }
    let negative = s[a] == '-';
    assert(t[0] == s@[a as int]);
    let start: usize = if s[a] == '-' || s[a] == '+' { a + 1 } else { a };
    let ghost d = s@.subrange(start as int, b as int);
    proof {
        if start > a {
            assert(t.drop_first() =~= d);
        } else {
            assert(t =~= d);
        }
    }
    if start == b {
        return None;
    }
    let cap: u128 = 0x40_0000_0000_0000_0000;
    let mut acc: u128 = 0;
    let mut i: usize = start;
    while i < b
        invariant
            a <= start <= i <= b <= s.len(),
            d == s@.subrange(start as int, b as int),
            t == s@.subrange(a as int, b as int),
            t.len() > 0,
            d.len() > 0,
            start > a ==> start == a + 1 && (t[0] == '+' || t[0] == '-') && t.drop_first() == d,
            start == a ==> t == d && !(t[0] == '+' || t[0] == '-'),
            negative == (t[0] == '-'),
            cap == exp_cap(),
            acc as int == if digits_value(s@.subrange(start as int, i as int)) >= exp_cap() {
                exp_cap()
            } else {
                digits_value(s@.subrange(start as int, i as int)) as int
            },
            all_digits(s@.subrange(start as int, i as int)),
        decreases b - i,
    {
        let c = s[i];
        let ghost pre = s@.subrange(start as int, i as int);
        let ghost next = s@.subrange(start as int, i + 1);
        proof {
            assert(next.drop_last() =~= pre);
            assert(next.last() == c);
        }
        if !('0' <= c && c <= '9') {
            proof {
                assert(d[i - start] == c);
                assert(!all_digits(d));
                assert(int_text(t) is None);
            }
            return None;
        }
        let digit = (c as u32 - '0' as u32) as u128;
        if acc < cap {
            let n = acc * 10 + digit;
            acc = if n >= cap { cap } else { n };
        }
        proof {
            assert(digits_value(next) == digits_value(pre) * 10 + digit);
            assert forall|k: int| 0 <= k < next.len() implies is_digit(#[trigger] next[k]) by {
                if k < pre.len() {
                    assert(next[k] == pre[k]);
                }
            }
        }
        i = i + 1;
    }
    proof {
        assert(s@.subrange(start as int, i as int) =~= d);
    }
    let mag = acc as i128;
    Some(if negative { -mag } else { mag })
}

/// Whether `s[a..b]` are all decimal digits.
fn digits_only(s: &Vec<char>, a: usize, b: usize) -> (r: bool)
    requires
        a <= b <= s.len(),
    ensures
        r == all_digits(s@.subrange(a as int, b as int)),
{
    let mut j: usize = a;
    while j < b
        invariant
            a <= j <= b <= s.len(),
            forall|i: int| a <= i < j ==> is_digit(#[trigger] s@[i]),
        decreases b - j,
    {
        if !('0' <= s[j] && s[j] <= '9') {
            assert(s@.subrange(a as int, b as int)[j - a] == s@[j as int]);
            return false;
        }
        j = j + 1;
    }
    assert forall|i: int| 0 <= i < b - a implies is_digit(#[trigger] s@.subrange(a as int, b as int)[i]) by {
        assert(s@.subrange(a as int, b as int)[i] == s@[a + i]);
    }
    true
}

/// The whole part of the number `s[lo..hi]`, times 1000, or 0; see
/// `whole_part`.
#[verifier::spinoff_prover]
#[verifier::rlimit(60)]
fn whole_cores_millis(s: &Vec<char>, lo: usize, hi: usize) -> (r: i64)
    requires
        lo <= hi <= s.len(),
    ensures
        r as int == scaled(whole_part(s@.subrange(lo as int, hi as int)), 1000),
{
    let ghost t = s@.subrange(lo as int, hi as int);
    let signed = lo < hi && (s[lo] == '+' || s[lo] == '-');
    let negative = lo < hi && s[lo] == '-';
    let start: usize = if signed { lo + 1 } else { lo };
    let ghost u = unsigned_part(t);
    proof {
        if lo < hi {
            assert(t[0] == s@[lo as int]);
        }
        assert(u =~= s@.subrange(start as int, hi as int));
    }
    // The exponent mark, if any.
    let mut x: usize = start;
    while x < hi && !(s[x] == 'e' || s[x] == 'E')
        invariant
            start <= x <= hi <= s.len(),
            forall|i: int| start <= i < x ==> !is_exp_mark(#[trigger] s@[i]),
        decreases hi - x,
    {
        x = x + 1;
    }
    let ghost mant = s@.subrange(start as int, x as int);
    proof {
        assert forall|i: int| 0 <= i < x - start implies !is_exp_mark(#[trigger] u[i]) by {
            assert(u[i] == s@[start + i]);
        }
        if x < hi {
            assert(u[x - start] == s@[x as int]);
        }
        lemma_exp_index(u, x - start);
        assert(u.take(x - start) =~= mant);
        if x < hi {
            assert(u.skip(x - start + 1) =~= s@.subrange(x + 1, hi as int));
        }
    }
    // The digits before the point.
    let mut k: usize = start;
    while k < x && '0' <= s[k] && s[k] <= '9'
        invariant
            start <= k <= x <= hi <= s.len(),
            forall|i: int| start <= i < k ==> is_digit(#[trigger] s@[i]),
        decreases x - k,
    {
        k = k + 1;
    }
    let ghost kk = (k - start) as int;
    proof {
        assert forall|i: int| 0 <= i < kk implies is_digit(#[trigger] mant.subrange(0, kk)[i]) by {
            assert(mant.subrange(0, kk)[i] == s@[start + i]);
        }
        if k < x {
            assert(mant[kk] == s@[k as int]);
            assert(mant.subrange(kk + 1, mant.len() as int) =~= s@.subrange(k + 1, x as int));
        }
    }
    let frac_ok = k == x || (s[k] == '.' && digits_only(s, k + 1, x));
    let ok = frac_ok && (k > start || x - start > 1);
    let exp = if x < hi { parse_exponent(s, x + 1, hi) } else { Some(0) };
    proof {
        assert(ok == point_at(mant, kk));
        assert(exp is None <==> exponent_of(u) is None);
    }
    if !ok || exp.is_none() {
        proof {
            lemma_whole_part_of_other(t, kk);
        }
        return 0;
    }
    let e: i128 = match exp {
        Some(v) => v,
        None => 0,
    };
    let ghost e_true = exponent_of(u)->0;
    let ghost m = mantissa_digits(mant, kk);
    proof {
        lemma_whole_part_of_number(t, kk, e_true);
    }
    let ghost w = padded_value(m, kk + e_true);
    if e >= 0x40_0000_0000_0000_0000 || e <= -0x40_0000_0000_0000_0000 {
        proof {
            if e_true >= exp_cap() {
                assert(m.len() <= mant.len());
                lemma_padded_far(m, kk + e_true);
            } else {
                assert(w == 0);
            }
        }
        return 0;
    }
    assert(e as int == e_true);
    let p: i128 = (k - start) as i128 + e;
    if p <= 0 {
        return 0;
    }
    proof {
        if k < x {
            assert forall|i: int| k + 1 <= i < x implies is_digit(#[trigger] s@[i]) by {
                assert(s@.subrange(k + 1, x as int)[i - k - 1] == s@[i]);
            }
        }
    }
    match mantissa_whole(s, start, k, x, p) {
        Some(v) => {
            let sv: i64 = if negative { -(v as i64) } else { v as i64 };
            scale(sv, 1000)
        },
        None => 0,
    }
}

/// The whole part `padded_value(m, p)` of the mantissa digits `m` of
/// `s[start..x]`, point at `k`, where it is at most 9223372036854775 (the
/// most that fits as millicores); `None` where it is more.
fn mantissa_whole(s: &Vec<char>, start: usize, k: usize, x: usize, p: i128) -> (r: Option<u64>)
    requires
        start <= k <= x <= s.len(),
        p > 0,
        forall|i: int| start <= i < k ==> is_digit(#[trigger] s@[i]),
        k < x ==> s@[k as int] == '.',
        forall|i: int| k + 1 <= i < x ==> is_digit(#[trigger] s@[i]),
    ensures
        ({
            let m = mantissa_digits(s@.subrange(start as int, x as int), k - start);
            match r {
                Some(v) => v as int == padded_value(m, p as int) && v <= 9223372036854775,
                None => padded_value(m, p as int) > 9223372036854775,
            }
        }),
{
    let ghost mant = s@.subrange(start as int, x as int);
    let ghost kk = (k - start) as int;
    let ghost m = mantissa_digits(mant, kk);
    let nd: usize = if k < x { (k - start) + (x - k - 1) } else { k - start };
    proof {
        assert(m.len() == nd);
        assert forall|j: int| 0 <= j < kk implies #[trigger] m[j] == s@[start + j] by {}
        assert forall|j: int| kk <= j < nd implies #[trigger] m[j] == s@[k + 1 + (j - kk)] by {}
        assert forall|j: int| 0 <= j < nd implies is_digit(#[trigger] m[j]) by {
            if j < kk {
                assert(m[j] == s@[start + j]);
            } else {
                assert(m[j] == s@[k + 1 + (j - kk)]);
            }
        }
    }
    let tmax: u64 = 9223372036854775;
    let mut acc: u64 = 0;
    let mut j: i128 = 0;
    while j < p
        invariant
            0 <= j <= p,
            m == mantissa_digits(s@.subrange(start as int, x as int), k - start),
            m.len() == nd,
            kk == k - start,
            start <= k <= x <= s.len(),
            k < x ==> nd == kk + (x - k - 1),
            k == x ==> nd == kk,
            forall|i: int| 0 <= i < kk ==> #[trigger] m[i] == s@[start + i],
            forall|i: int| kk <= i < nd ==> #[trigger] m[i] == s@[k + 1 + (i - kk)],
            forall|i: int| 0 <= i < nd ==> is_digit(#[trigger] m[i]),
            acc as int == padded_value(m, j as int),
            acc <= tmax,
            tmax == 9223372036854775,
        decreases p - j,
    {
        if j >= nd as i128 && acc == 0 {
            proof {
                lemma_padded_zero(m, j as int, p as int);
            }
            return Some(0);
        }
        let c: char = if j < (k - start) as i128 {
            s[start + j as usize]
        } else if j < nd as i128 {
            s[k + 1 + (j as usize - (k - start))]
        } else {
            '0'
        };
        proof {
            if j < nd {
                assert(c == m[j as int]);
            }
        }
        let dg: u64 = (c as u32 - '0' as u32) as u64;
        assert(dg as int == digit_at(m, j as int));
        assert(padded_value(m, j + 1) == padded_value(m, j as int) * 10 + digit_at(m, j as int));
        if acc > (tmax - dg) / 10 {
            proof {
                let qt = (tmax - dg) / 10;
                assert((qt + 1) * 10 > tmax - dg) by (nonlinear_arith)
                    requires
                        qt == (tmax - dg) / 10,
                        dg <= 9,
                        tmax - dg >= 0,
                ;
                assert(acc * 10 >= (qt + 1) * 10) by (nonlinear_arith)
                    requires
                        acc >= qt + 1,
                ;
                lemma_padded_mono(m, j + 1, p as int);
            }
            return None;
        }
        acc = acc * 10 + dg;
        j = j + 1;
    }
    Some(acc)
}

/// Parses a CPU quantity to millicores (`"250m"` is 250, `"2"` is 2000,
/// `"1e3"` is 1000000, `"1500000n"` is 1). The text is read without its surrounding white space.
pub fn parse_cpu_quantity(quantity: &str) -> (r: i64)
    ensures
        r as int == cpu_millis(trimmed(quantity@)),
{
    let cs = chars_of(quantity);
    let (lo, hi) = trim_bounds(&cs);
    let ghost t = cs@.subrange(lo as int, hi as int);
    if lo < hi && cs[hi - 1] == 'm' {
        proof {
            assert(t.last() == cs@[hi - 1]);
            assert(t.drop_last() =~= cs@.subrange(lo as int, hi - 1));
        }
        parse_int_or_zero(&cs, lo, hi - 1)
    } else if lo < hi && cs[hi - 1] == 'n' {
        proof {
            assert(t.last() == cs@[hi - 1]);
            assert(t.drop_last() =~= cs@.subrange(lo as int, hi - 1));
        }
        let v = parse_int_or_zero(&cs, lo, hi - 1);
        if v >= 0 {
            v / 1_000_000
        } else {
            -((-(v as i128)) / 1_000_000) as i64
        }
    } else {
        proof {
            if lo < hi {
                assert(t.last() == cs@[hi - 1]);
            }
        }
        whole_cores_millis(&cs, lo, hi)
    }
}

/// Parses a memory quantity to bytes (`"16Gi"` is 17179869184, `"1024Mi"`
/// is 1073741824, `"1k"` is 1000). The text is read without its
/// surrounding white space.
#[verifier::spinoff_prover]
#[verifier::rlimit(60)]
pub fn parse_memory_quantity(quantity: &str) -> (r: i64)
    ensures
        r as int == memory_bytes(trimmed(quantity@)),
{
    let cs = chars_of(quantity);
    let (lo, hi) = trim_bounds(&cs);
    let ghost t = cs@.subrange(lo as int, hi as int);
    proof {
        if hi - lo >= 1 {
            assert(t[t.len() - 1] == cs@[hi - 1]);
            assert(t.subrange(0, t.len() - 1) =~= cs@.subrange(lo as int, hi - 1));
        }
        if hi - lo >= 2 {
            assert(t[t.len() - 2] == cs@[hi - 2]);
            assert(t.subrange(0, t.len() - 2) =~= cs@.subrange(lo as int, hi - 2));
        }
    }
    if hi - lo >= 2 && cs[hi - 1] == 'i' {
        let u = cs[hi - 2];
        let f: i64 = if u == 'K' {
            1024
        } else if u == 'M' {
            1048576
        } else if u == 'G' {
            1073741824
        } else if u == 'T' {
            1099511627776
        } else {
            0
        };
        if f > 0 {
            return scale(parse_int_or_zero(&cs, lo, hi - 2), f);
        }
    }
    if hi - lo >= 1 {
        let u = cs[hi - 1];
        let f: i64 = if u == 'k' {
            1000
        } else if u == 'M' {
            1000000
        } else if u == 'G' {
            1000000000
        } else if u == 'T' {
            1000000000000
        } else {
            0
        };
        if f > 0 {
            return scale(parse_int_or_zero(&cs, lo, hi - 1), f);
        }
    }
    parse_int_or_zero(&cs, lo, hi)
}

} // verus!
