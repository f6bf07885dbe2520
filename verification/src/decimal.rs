//! Exact parsing of decimal coordinate tokens into fixed-point nanodegrees.
//!
//! A token is an optional sign, then a digit string with an optional point
//! (either side of the point may be empty, not both), then an optional
//! exponent: `e` or `E`, an optional sign and digits. `52`, `-90.01`,
//! `+4.850067`, `1.`, `.5` and `525e-1` all name the numbers they do as
//! doubles. A token's value is measured in nanodegrees (10^-9 of a degree)
//! and is truncated toward zero at that resolution: what lies below one
//! nanodegree is discarded. Textual infinities and NaN are not numbers
//! here; they could never name a coordinate.

use vstd::prelude::*;

verus! {

/// Largest magnitude, in nanodegrees, that the executable parser is obliged
/// to report exactly. Every geographic coordinate lies far below it, so a
/// token rejected for size can never be a valid coordinate.
pub const TOKEN_NANOS_CAP: i64 = 200_000_000_000;

pub open spec fn is_digit_char(c: char) -> bool {
    48 <= c as int && c as int <= 57
}

pub open spec fn digit_val(c: char) -> int {
    c as int - 48
}

pub open spec fn is_exp_char(c: char) -> bool {
    c == 'e' || c == 'E'
}

pub open spec fn all_digits(s: Seq<char>) -> bool {
    forall|i: int| 0 <= i < s.len() ==> is_digit_char(#[trigger] s[i])
}

/// Value of a digit string read most-significant digit first.
pub open spec fn digits_value(s: Seq<char>) -> int
    decreases s.len(),
{
    if s.len() == 0 {
        0
    } else {
        digits_value(s.drop_last()) * 10 + digit_val(s.last())
    }
}

/// Index of the first occurrence of `c` in `s`, or `s.len()` if absent.
pub open spec fn first_index(s: Seq<char>, c: char) -> int
    decreases s.len(),
{
    if s.len() == 0 {
        0
    } else if s[0] == c {
        0
    } else {
        1 + first_index(s.skip(1), c)
    }
}

/// Index of the first exponent marker in `s`, or `s.len()` if absent.
pub open spec fn exp_index(s: Seq<char>) -> int
    decreases s.len(),
{
    if s.len() == 0 {
        0
    } else if is_exp_char(s[0]) {
        0
    } else {
        1 + exp_index(s.skip(1))
    }
}

pub open spec fn pow10(n: nat) -> int
    decreases n,
{
    if n == 0 {
        1
    } else {
        10 * pow10((n - 1) as nat)
    }
}

/// The value of a nonempty all-digit string, or `None`.
pub open spec fn digits_only_value(s: Seq<char>) -> Option<int> {
    if s.len() >= 1 && all_digits(s) {
        Some(digits_value(s))
    } else {
        None
    }
}

/// The value of an exponent part: an optional sign, then digits.
pub open spec fn exp_value(s: Seq<char>) -> Option<int> {
    if s.len() >= 1 && (s[0] == '-' || s[0] == '+') {
        match digits_only_value(s.skip(1)) {
            Some(m) => Some(
                if s[0] == '-' {
                    -m
                } else {
                    m
                },
            ),
            None => None,
        }
    } else {
        digits_only_value(s)
    }
}

/// The digits of a mantissa and the length of its fraction part, or `None`
/// if it is not digits with at most one point and at least one digit.
pub open spec fn mantissa_parts(s: Seq<char>) -> Option<(Seq<char>, int)> {
    let d = first_index(s, '.');
    if d == s.len() {
        if s.len() >= 1 && all_digits(s) {
            Some((s, 0int))
        } else {
            None
        }
    } else {
        let ip = s.take(d);
        let fp = s.skip(d + 1);
        if ip.len() + fp.len() >= 1 && all_digits(ip) && all_digits(fp) {
            Some((ip + fp, fp.len() as int))
        } else {
            None
        }
    }
}

/// The value of a digit string with the point moved `shift` places right of
/// its end: `shift` appended zeros, or the last `-shift` digits truncated
/// away — truncation toward zero at the nanodegree.
pub open spec fn shifted_value(digits: Seq<char>, shift: int) -> int {
    if shift >= 0 {
        digits_value(digits) * pow10(shift as nat)
    } else if digits.len() + shift >= 0 {
        digits_value(digits.take(digits.len() + shift))
    } else {
        0
    }
}

/// The value of an unsigned token in nanodegrees: the mantissa's digits
/// shifted by nine places for the degree-to-nanodegree scale, plus the
/// exponent, minus the fraction length.
pub open spec fn unsigned_nanos(s: Seq<char>) -> Option<int> {
    let ei = exp_index(s);
    let e = if ei < s.len() {
        exp_value(s.skip(ei + 1))
    } else {
        Some(0int)
    };
    match mantissa_parts(s.take(ei)) {
        Some(parts) => match e {
            Some(x) => Some(shifted_value(parts.0, 9 + x - parts.1)),
            None => None,
        },
        None => None,
    }
}

/// The value of a token with an optional leading sign, in nanodegrees.
pub open spec fn token_nanos(s: Seq<char>) -> Option<int> {
    if s.len() >= 1 && (s[0] == '-' || s[0] == '+') {
        match unsigned_nanos(s.skip(1)) {
            Some(v) => Some(
                if s[0] == '-' {
                    -v
                } else {
                    v
                },
            ),
            None => None,
        }
    } else {
        unsigned_nanos(s)
    }
}

pub proof fn lemma_digits_value_nonneg(s: Seq<char>)
    requires
        all_digits(s),
    ensures
        digits_value(s) >= 0,
    decreases s.len(),
{
    if s.len() > 0 {
        assert(all_digits(s.drop_last()));
        lemma_digits_value_nonneg(s.drop_last());
    }
}

pub proof fn lemma_pow10_pos(a: nat)
    ensures
        pow10(a) >= 1,
    decreases a,
{
    if a > 0 {
        lemma_pow10_pos((a - 1) as nat);
    }
}

pub proof fn lemma_pow10_mono(a: nat, b: nat)
    requires
        a <= b,
    ensures
        pow10(a) <= pow10(b),
    decreases b,
{
    if a < b {
        lemma_pow10_mono(a, (b - 1) as nat);
        lemma_pow10_pos((b - 1) as nat);
    }
}

/// Where a scan established that `c` first occurs at `k` (or, with
/// `k == s.len()`, not at all), `first_index` agrees.
pub proof fn lemma_first_index_is(s: Seq<char>, c: char, k: int)
    requires
        0 <= k <= s.len(),
        forall|j: int| 0 <= j < k ==> s[j] != c,
        k < s.len() ==> s[k] == c,
    ensures
        first_index(s, c) == k,
    decreases s.len(),
{
    if s.len() > 0 && s[0] != c {
        let t = s.skip(1);
        assert forall|j: int| 0 <= j < k - 1 implies t[j] != c by {
            assert(t[j] == s[j + 1]);
        }
        if 0 <= k - 1 < t.len() {
            assert(t[k - 1] == s[k]);
        }
        lemma_first_index_is(t, c, k - 1);
    }
}

/// The same characterization for the first exponent marker.
pub proof fn lemma_exp_index_is(s: Seq<char>, k: int)
    requires
        0 <= k <= s.len(),
        forall|j: int| 0 <= j < k ==> !is_exp_char(#[trigger] s[j]),
        k < s.len() ==> is_exp_char(s[k]),
    ensures
        exp_index(s) == k,
    decreases s.len(),
{
    if s.len() > 0 && !is_exp_char(s[0]) {
        let t = s.skip(1);
        assert forall|j: int| 0 <= j < k - 1 implies !is_exp_char(#[trigger] t[j]) by {
            assert(t[j] == s[j + 1]);
        }
        if 0 <= k - 1 < t.len() {
            assert(t[k - 1] == s[k]);
        }
        lemma_exp_index_is(t, k - 1);
    }
}

/// First index in `[from, to)` holding a point, or `to` if none.
fn find_dot(token: &str, from: usize, to: usize) -> (d: usize)
    requires
        from <= to <= token@.len(),
    ensures
        from <= d <= to,
        d < to ==> token@[d as int] == '.',
        forall|k: int| from <= k < d ==> token@[k] != '.',
{
    let mut j: usize = from;
    while j < to
        invariant
            from <= j <= to <= token@.len(),
            forall|k: int| from <= k < j ==> token@[k] != '.',
        decreases to - j,
    {
        if token.get_char(j) == '.' {
            return j;
        }
        j = j + 1;
    }
    to
}

/// First index at or after `from` holding `e` or `E`, or the length.
fn find_exp(token: &str, from: usize) -> (d: usize)
    requires
        from <= token@.len(),
    ensures
        from <= d <= token@.len(),
        d < token@.len() ==> is_exp_char(token@[d as int]),
        forall|k: int| from <= k < d ==> !is_exp_char(#[trigger] token@[k]),
{
    let n = token.unicode_len();
    let mut j: usize = from;
    while j < n
        invariant
            from <= j <= n,
            n == token@.len(),
            forall|k: int| from <= k < j ==> !is_exp_char(#[trigger] token@[k]),
        decreases n - j,
    {
        let c = token.get_char(j);
        if c == 'e' || c == 'E' {
            return j;
        }
        j = j + 1;
    }
    n
}

/// Whether every character of `token` in index range `[a, b)` is a digit.
fn scan_digits(token: &str, a: usize, b: usize) -> (ok: bool)
    requires
        a <= b <= token@.len(),
    ensures
        ok == all_digits(token@.subrange(a as int, b as int)),
{
    let ghost s = token@;
    let ghost sub = s.subrange(a as int, b as int);
    let mut i: usize = a;
    while i < b
        invariant
            a <= i <= b <= s.len(),
            s == token@,
            sub == s.subrange(a as int, b as int),
            forall|j: int| a <= j < i ==> is_digit_char(#[trigger] s[j]),
        decreases b - i,
    {
        let c = token.get_char(i);
        let u = c as u32;
        if !(48 <= u && u <= 57) {
            proof {
                assert(sub[i - a] == s[i as int]);
                assert(!is_digit_char(s[i as int]));
            }
            return false;
        }
        i = i + 1;
    }
    proof {
        assert forall|j: int| 0 <= j < sub.len() implies is_digit_char(#[trigger] sub[j]) by {
            assert(sub[j] == s[a + j]);
        }
    }
    true
}

/// Value of the first `m` digits of the run `[a1, b1)` followed by the run
/// `[a2, b2)`: exact when it stays at or below `cap`, else a flag that the
/// value exceeds `cap`.
fn pair_digits_capped(token: &str, a1: usize, b1: usize, a2: usize, b2: usize, m: usize, cap: i128)
    -> (r: (i128, bool))
    requires
        a1 <= b1 <= token@.len(),
        a2 <= b2 <= token@.len(),
        all_digits(token@.subrange(a1 as int, b1 as int)),
        all_digits(token@.subrange(a2 as int, b2 as int)),
        m <= (b1 - a1) + (b2 - a2),
        0 < cap <= 1_000_000_000_000_000_000_000_000_000_000,
    ensures
        ({
            let dseq = (token@.subrange(a1 as int, b1 as int) + token@.subrange(
                a2 as int,
                b2 as int,
            )).take(m as int);
            &&& 0 <= r.0 <= cap * 10 + 9
            &&& (!r.1 ==> r.0 == digits_value(dseq))
            &&& (r.1 ==> digits_value(dseq) > cap)
        }),
{
    let ghost s = token@;
    let ghost dcat = s.subrange(a1 as int, b1 as int) + s.subrange(a2 as int, b2 as int);
    let len1 = b1 - a1;
    let mut i: usize = 0;
    let mut val: i128 = 0;
    let mut big = false;
    while i < m
        invariant
            i <= m <= (b1 - a1) + (b2 - a2),
            a1 <= b1 <= s.len(),
            a2 <= b2 <= s.len(),
            len1 == b1 - a1,
            s == token@,
            dcat == s.subrange(a1 as int, b1 as int) + s.subrange(a2 as int, b2 as int),
            all_digits(s.subrange(a1 as int, b1 as int)),
            all_digits(s.subrange(a2 as int, b2 as int)),
            0 < cap <= 1_000_000_000_000_000_000_000_000_000_000,
            0 <= val <= cap * 10 + 9,
            !big ==> val == digits_value(dcat.take(i as int)),
            big ==> digits_value(dcat.take(i as int)) > cap,
        decreases m - i,
    {
        let pos = if i < len1 {
            a1 + i
        } else {
            a2 + (i - len1)
        };
        let c = token.get_char(pos);
        let d = (c as u32) as i128 - 48;
        proof {
            if i < len1 {
                assert(dcat[i as int] == s.subrange(a1 as int, b1 as int)[i as int]);
                assert(s.subrange(a1 as int, b1 as int)[i as int] == s[pos as int]);
            } else {
                assert(dcat[i as int] == s.subrange(a2 as int, b2 as int)[i - len1]);
                assert(s.subrange(a2 as int, b2 as int)[i - len1] == s[pos as int]);
            }
            assert(is_digit_char(s[pos as int]));
            let pre = dcat.take(i as int);
            let post = dcat.take(i + 1);
            assert(post.drop_last() =~= pre);
            assert(post.last() == dcat[i as int]);
            assert(digits_value(post) == digits_value(pre) * 10 + digit_val(dcat[i as int]));
        }
        if big {
            proof {
                lemma_digits_value_nonneg(dcat.take(i as int));
            }
        } else if val > cap {
            big = true;
        } else {
            val = val * 10 + d;
        }
        i = i + 1;
    }
    (val, big)
}

fn pow10_exec(e: usize) -> (p: i64)
    requires
        e <= 12,
    ensures
        p == pow10(e as nat),
        1 <= p <= 1_000_000_000_000,
{
    let mut k: usize = 0;
    let mut p: i64 = 1;
    while k < e
        invariant
            k <= e <= 12,
            p == pow10(k as nat),
            1 <= p <= 1_000_000_000_000,
        decreases e - k,
    {
        proof {
            lemma_pow10_mono(k as nat, 11);
            assert(pow10(11) == 100_000_000_000) by {
                reveal_with_fuel(pow10, 12);
            }
            assert(pow10((k + 1) as nat) == 10 * pow10(k as nat));
        }
        p = p * 10;
        k = k + 1;
    }
    p
}

/// A digit string above `cap` denotes above `cap` nanodegrees however many
/// zeros a nonnegative shift appends.
proof fn lemma_big_digits_big_value(digits: Seq<char>, shift: int, cap: int)
    requires
        shift >= 0,
        digits_value(digits) > cap,
        cap >= 0,
    ensures
        shifted_value(digits, shift) > cap,
{
    lemma_pow10_pos(shift as nat);
    assert(digits_value(digits) * pow10(shift as nat) >= digits_value(digits))
        by (nonlinear_arith)
        requires
            digits_value(digits) > cap >= 0,
            pow10(shift as nat) >= 1,
    ;
}

/// A nonzero digit string shifted thirteen or more places exceeds the cap.
proof fn lemma_far_shift_big_value(digits: Seq<char>, shift: int)
    requires
        all_digits(digits),
        digits_value(digits) >= 1,
        shift >= 13,
    ensures
        shifted_value(digits, shift) > TOKEN_NANOS_CAP as int,
{
    lemma_pow10_mono(13, shift as nat);
    assert(pow10(13) == 10_000_000_000_000) by {
        reveal_with_fuel(pow10, 14);
    }
    assert(digits_value(digits) * pow10(shift as nat) >= pow10(shift as nat))
        by (nonlinear_arith)
        requires
            digits_value(digits) >= 1,
            pow10(shift as nat) >= 0,
    ;
}


/// Parses the exponent text after the marker: an optional sign, then at
/// least one digit. A small exponent is reported exactly; a huge one only
/// by its sign, far beyond any magnitude the token's digits can span.
fn parse_exponent(token: &str, from: usize) -> (r: Option<(bool, i128, bool)>)
    requires
        from <= token@.len(),
    ensures
        ({
            let xq = token@.subrange(from as int, token@.len() as int);
            match r {
                None => exp_value(xq) is None,
                Some(t) => {
                    &&& exp_value(xq) is Some
                    &&& 0 <= t.1 <= 100 * (token@.len() as int) + 10009
                    &&& (!t.2 ==> exp_value(xq) == Some(
                        if t.0 {
                            -(t.1 as int)
                        } else {
                            t.1 as int
                        },
                    ))
                    &&& (t.2 && !t.0 ==> exp_value(xq).unwrap() > 10 * (token@.len() as int)
                        + 1000)
                    &&& (t.2 && t.0 ==> exp_value(xq).unwrap() < -(10 * (token@.len() as int)
                        + 1000))
                },
            }
        }),
{
    let ghost s = token@;
    let n = token.unicode_len();
    let ghost xq = s.subrange(from as int, n as int);
    let mut p = from;
    let mut neg = false;
    if p < n {
        let cx = token.get_char(p);
        if cx == '-' || cx == '+' {
            neg = cx == '-';
            p = p + 1;
            proof {
                assert(xq[0] == s[from as int]);
                assert(xq.skip(1) =~= s.subrange(p as int, n as int));
            }
        } else {
            proof {
                assert(xq[0] == s[from as int]);
            }
        }
    }
    if p >= n {
        // No exponent digits.
        proof {
            if p > from {
                assert(xq.skip(1).len() == 0);
            } else {
                assert(xq.len() == 0);
            }
        }
        return None;
    }
    if !scan_digits(token, p, n) {
        return None;
    }
    let cap_e: i128 = (n as i128) * 10 + 1000;
    let (v, b) = pair_digits_capped(token, p, n, n, n, n - p, cap_e);
    proof {
        let xd = s.subrange(p as int, n as int);
        assert((xd + s.subrange(n as int, n as int)).take((n - p) as int) =~= xd);
        lemma_digits_value_nonneg(xd);
        if p > from {
            assert(xq.skip(1) == xd);
        } else {
            assert(xq == xd);
        }
        assert(digits_only_value(xd) == Some(digits_value(xd)));
    }
    Some((neg, v, b))
}

/// Splits the mantissa `[a, b)` of `token` at its point, if any, and checks
/// its digits: the integer part ends at `r.0`, the fraction begins at
/// `r.1`.
fn parse_mantissa(token: &str, a: usize, b: usize) -> (r: Option<(usize, usize)>)
    requires
        a <= b <= token@.len(),
    ensures
        ({
            let mq = token@.subrange(a as int, b as int);
            match r {
                None => mantissa_parts(mq) is None,
                Some(t) => {
                    &&& a <= t.0 <= t.1 <= b
                    &&& mantissa_parts(mq) == Some(
                        (
                            token@.subrange(a as int, t.0 as int) + token@.subrange(
                                t.1 as int,
                                b as int,
                            ),
                            (b - t.1) as int,
                        ),
                    )
                    &&& all_digits(token@.subrange(a as int, t.0 as int))
                    &&& all_digits(token@.subrange(t.1 as int, b as int))
                },
            }
        }),
{
    let ghost s = token@;
    let ghost mq = s.subrange(a as int, b as int);
    let dot = find_dot(token, a, b);
    proof {
        assert forall|k: int| 0 <= k < dot - a implies mq[k] != '.' by {
            assert(mq[k] == s[a + k]);
        }
        if dot < b {
            assert(mq[dot - a] == s[dot as int]);
        }
        lemma_first_index_is(mq, '.', dot - a);
        if dot < b {
            assert(mq.take(dot - a) =~= s.subrange(a as int, dot as int));
            assert(mq.skip((dot - a) + 1) =~= s.subrange(dot + 1, b as int));
        } else {
            assert(mq == s.subrange(a as int, b as int));
        }
    }
    if dot == b {
        // `digits` form: an empty fraction after the end.
        if a >= b {
            return None;
        }
        if !scan_digits(token, a, b) {
            return None;
        }
        proof {
            assert(s.subrange(a as int, dot as int) + s.subrange(b as int, b as int) =~= mq);
        }
        Some((b, b))
    } else {
        // `digits.digits` form; either side may be empty, not both.
        if (dot - a) + (b - (dot + 1)) == 0 {
            return None;
        }
        if !scan_digits(token, a, dot) {
            return None;
        }
        if !scan_digits(token, dot + 1, b) {
            return None;
        }
        Some((dot, dot + 1))
    }
}

/// Parses a decimal token into nanodegrees.
///
/// A well-formed token whose magnitude is at most [`TOKEN_NANOS_CAP`] is
/// reported exactly; a malformed token is rejected, and an oversized one may
/// be. A `Some` answer always carries the token's exact value.
#[verifier::rlimit(100)]
#[verifier::spinoff_prover]
pub fn parse_token_nanos(token: &str) -> (r: Option<i64>)
    ensures
        match token_nanos(token@) {
            Some(v) => {
                &&& (-(TOKEN_NANOS_CAP as int) <= v <= TOKEN_NANOS_CAP as int
                    ==> r == Some(v as i64))
                &&& (r matches Some(n) ==> n as int == v)
            },
            None => r is None,
        },
{
    let ghost s = token@;
    let n = token.unicode_len();

    // Optional sign of the whole token.
    let mut start: usize = 0;
    let mut negative = false;
    if n > 0 {
        let c0 = token.get_char(0);
        if c0 == '-' || c0 == '+' {
            negative = c0 == '-';
            start = 1;
        }
    }
    let ghost body = if start == 1 {
        s.skip(1)
    } else {
        s
    };
    proof {
        assert(body =~= s.subrange(start as int, n as int));
    }

    // Locate the exponent marker, if any.
    let ei = find_exp(token, start);
    proof {
        assert forall|k: int| 0 <= k < ei - start implies !is_exp_char(#[trigger] body[k]) by {
            assert(body[k] == s[start + k]);
        }
        if ei < n {
            assert(body[ei - start] == s[ei as int]);
        }
        lemma_exp_index_is(body, ei - start);
    }
    let ghost mseq = body.take(ei - start);
    proof {
        assert(mseq =~= s.subrange(start as int, ei as int));
    }

    // The exponent.
    let mut exp_neg = false;
    let mut ev: i128 = 0;
    let mut e_big = false;
    if ei < n {
        proof {
            assert(body.skip((ei - start) + 1) =~= s.subrange(ei + 1, n as int));
        }
        match parse_exponent(token, ei + 1) {
            None => {
                return None;
            },
            Some((g, v, b)) => {
                exp_neg = g;
                ev = v;
                e_big = b;
            },
        }
    }

    // The mantissa.
    let (ip_b, fp_a) = match parse_mantissa(token, start, ei) {
        None => {
            return None;
        },
        Some(t) => t,
    };
    let flen = ei - fp_a;
    let ml = (ip_b - start) + flen;
    let ghost mdigits = s.subrange(start as int, ip_b as int) + s.subrange(
        fp_a as int,
        ei as int,
    );
    proof {
        assert(mdigits.len() == ml as int);
        assert(mantissa_parts(mseq) == Some((mdigits, flen as int)));
    }

    // Combine: the point moves nine places for the degree-to-nanodegree
    // scale, then by the exponent, back by the fraction length.
    let ghost xt: int = if ei < n {
        exp_value(body.skip((ei - start) + 1)).unwrap()
    } else {
        0
    };
    let ghost true_shift: int = 9 + xt - flen as int;
    proof {
        assert(unsigned_nanos(body) == Some(shifted_value(mdigits, true_shift)));
    }

    if e_big {
        let (dv, d_big) = pair_digits_capped(
            token,
            start,
            ip_b,
            fp_a,
            ei,
            ml,
            TOKEN_NANOS_CAP as i128,
        );
        proof {
            assert(mdigits.take(ml as int) =~= mdigits);
            lemma_digits_value_nonneg(mdigits);
        }
        if exp_neg {
            // The true exponent lies far below zero: every digit falls
            // beyond the truncation point and the value is zero.
            proof {
                assert(xt < -(10 * (n as int) + 1000));
                assert(mdigits.len() + true_shift < 0);
                assert(shifted_value(mdigits, true_shift) == 0);
            }
            return Some(0);
        }
        // The true exponent lies far above zero: a nonzero mantissa lies
        // far beyond the cap; a zero mantissa is zero at any scale.
        proof {
            assert(xt > 10 * (n as int) + 1000);
            assert(true_shift >= 13);
        }
        if d_big {
            proof {
                lemma_big_digits_big_value(mdigits, true_shift, TOKEN_NANOS_CAP as int);
            }
            return None;
        }
        if dv > 0 {
            proof {
                lemma_far_shift_big_value(mdigits, true_shift);
            }
            return None;
        }
        proof {
            assert(digits_value(mdigits) == 0);
            assert(digits_value(mdigits) * pow10(true_shift as nat) == 0) by (nonlinear_arith)
                requires
                    digits_value(mdigits) == 0,
            ;
            assert(shifted_value(mdigits, true_shift) == 0);
        }
        return Some(0);
    }

    let x: i128 = if exp_neg {
        -ev
    } else {
        ev
    };
    proof {
        assert(xt == x as int);
    }
    let shift: i128 = 9 + x - (flen as i128);
    proof {
        assert(true_shift == shift as int);
    }
    if shift >= 0 {
        let (dv, d_big) = pair_digits_capped(
            token,
            start,
            ip_b,
            fp_a,
            ei,
            ml,
            TOKEN_NANOS_CAP as i128,
        );
        proof {
            assert(mdigits.take(ml as int) =~= mdigits);
            lemma_digits_value_nonneg(mdigits);
        }
        if d_big {
            proof {
                lemma_big_digits_big_value(mdigits, true_shift, TOKEN_NANOS_CAP as int);
            }
            return None;
        }
        if dv == 0 {
            proof {
                assert(digits_value(mdigits) * pow10(true_shift as nat) == 0)
                    by (nonlinear_arith)
                    requires
                        digits_value(mdigits) == 0,
                ;
                assert(shifted_value(mdigits, true_shift) == 0);
            }
            return Some(0);
        }
        if shift > 12 {
            proof {
                lemma_far_shift_big_value(mdigits, true_shift);
            }
            return None;
        }
        let scale = pow10_exec(shift as usize);
        proof {
            assert(scale as int == pow10(true_shift as nat));
            assert(0 <= dv * (scale as i128) <= 3_000_000_000_000_000_000_000_000i128)
                by (nonlinear_arith)
                requires
                    0 < dv <= 2_000_000_000_009i128,
                    1 <= (scale as i128) <= 1_000_000_000_000i128,
            ;
        }
        let v128 = dv * (scale as i128);
        proof {
            assert(v128 as int == shifted_value(mdigits, true_shift));
        }
        if v128 > TOKEN_NANOS_CAP as i128 {
            return None;
        }
        let v = v128 as i64;
        if negative {
            Some(-v)
        } else {
            Some(v)
        }
    } else {
        let k = -shift;
        if k >= ml as i128 {
            // Every digit falls beyond the truncation point.
            proof {
                if mdigits.len() + true_shift >= 0 {
                    assert(mdigits.take(mdigits.len() + true_shift) =~= Seq::<char>::empty());
                }
                assert(shifted_value(mdigits, true_shift) == 0);
            }
            return Some(0);
        }
        let m = ml - (k as usize);
        let (dv, d_big) = pair_digits_capped(
            token,
            start,
            ip_b,
            fp_a,
            ei,
            m,
            TOKEN_NANOS_CAP as i128,
        );
        proof {
            assert(mdigits.take(m as int) == mdigits.take(mdigits.len() + true_shift));
        }
        if d_big {
            return None;
        }
        let v = dv as i64;
        if negative {
            Some(-v)
        } else {
            Some(v)
        }
    }
}

} // verus!
