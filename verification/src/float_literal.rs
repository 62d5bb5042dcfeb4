//! Decimal floating-point literals as `str::parse::<f32>` reads them, and
//! when such a literal reads as zero: when its value, rounded to the nearest
//! single-precision number, is zero.
use vstd::prelude::*;

use crate::config::{all_digits, digits_value, is_digit, lemma_digits_value_monotone};
use crate::text::chars_of;
use crate::decimal::{lemma_pow10_monotone, lemma_pow10_positive, pow10};

verus! {

pub open spec fn pow2(n: nat) -> nat
    decreases n,
{
    if n == 0 {
        1
    } else {
        2 * pow2((n - 1) as nat)
    }
}

pub open spec fn pow5(n: nat) -> nat
    decreases n,
{
    if n == 0 {
        1
    } else {
        5 * pow5((n - 1) as nat)
    }
}

/// `n` zero digits.
pub open spec fn zeros(n: nat) -> Seq<char> {
    Seq::new(n, |i: int| '0')
}

proof fn lemma_pow2_pow5(n: nat)
    ensures
        (pow2(n) as int) * (pow5(n) as int) == pow10(n) as int,
    decreases n,
{
    if n > 0 {
        lemma_pow2_pow5((n - 1) as nat);
        let a = pow2((n - 1) as nat);
        let b = pow5((n - 1) as nat);
        assert(pow2(n) == 2 * a);
        assert(pow5(n) == 5 * b);
        let q = pow10((n - 1) as nat);
        assert(pow10(n) == 10 * q);
        let (x, y, z) = (pow2(n), pow5(n), pow10(n));
        assert((x as int) * (y as int) == z as int) by (nonlinear_arith)
            requires
                x == 2 * a,
                y == 5 * b,
                z == 10 * q,
                (a as int) * (b as int) == q as int,
        ;
    } else {
        let (x, y, z) = (pow2(n), pow5(n), pow10(n));
        assert(x == 1 && y == 1 && z == 1);
        assert((x as int) * (y as int) == z as int) by (nonlinear_arith)
            requires
                x == 1,
                y == 1,
                z == 1,
        ;
    }
}

/// The digit value of a character `'0'..='9'`.
pub open spec fn digit_of(c: char) -> nat {
    ((c as u32) - 48) as nat
}

proof fn lemma_digits_concat(a: Seq<char>, b: Seq<char>)
    ensures
        digits_value(a + b) == (digits_value(a) as int) * (pow10(b.len()) as int) + digits_value(b),
    decreases b.len(),
{
    if b.len() == 0 {
        assert(a + b =~= a);
        let va = digits_value(a);
        let pb = pow10(b.len());
        assert(pb == 1);
        assert(digits_value(b) == 0);
        assert(va == (va as int) * (pb as int)) by (nonlinear_arith)
            requires
                pb == 1,
        ;
    } else {
        lemma_digits_concat(a, b.drop_last());
        assert((a + b).drop_last() =~= a + b.drop_last());
        assert((a + b).last() == b.last());
        let va = digits_value(a);
        let p = pow10(b.drop_last().len());
        let vb = digits_value(b.drop_last());
        let d = digit_of(b.last());
        let whole = digits_value(a + b);
        assert(whole == digits_value(a + b.drop_last()) * 10 + d);
        assert(digits_value(b) == vb * 10 + d);
        assert(pow10(b.len()) == 10 * p);
        let pb = pow10(b.len());
        let vbb = digits_value(b);
        assert(whole == (va as int) * (pb as int) + vbb) by (nonlinear_arith)
            requires
                whole == digits_value(a + b.drop_last()) * 10 + d,
                digits_value(a + b.drop_last()) == (va as int) * (p as int) + vb,
                vbb == vb * 10 + d,
                pb == 10 * p,
        ;
    }
}

proof fn lemma_digits_bound(s: Seq<char>)
    requires
        all_digits(s),
    ensures
        digits_value(s) < pow10(s.len()),
    decreases s.len(),
{
    if s.len() > 0 {
        let t = s.drop_last();
        assert forall|i: int| 0 <= i < t.len() implies is_digit(#[trigger] t[i]) by {
            assert(t[i] == s[i]);
        }
        lemma_digits_bound(t);
        assert(is_digit(s[s.len() - 1]));
    }
}

proof fn lemma_zeros_value(n: nat)
    ensures
        digits_value(zeros(n)) == 0,
    decreases n,
{
    if n > 0 {
        assert(zeros(n).drop_last() =~= zeros((n - 1) as nat));
        lemma_zeros_value((n - 1) as nat);
    }
}

proof fn lemma_leading_digit_bound(s: Seq<char>)
    requires
        all_digits(s),
        s.len() >= 1,
        s[0] != '0',
    ensures
        digits_value(s) >= pow10((s.len() - 1) as nat),
{
    let head = s.subrange(0, 1);
    let rest = s.subrange(1, s.len() as int);
    assert(s =~= head + rest);
    lemma_digits_concat(head, rest);
    assert(head.drop_last() =~= Seq::<char>::empty());
    assert(is_digit(s[0]));
    assert(digits_value(head) >= 1);
    lemma_pow10_positive(rest.len());
    let p = pow10(rest.len());
    let h = digits_value(head);
    assert(h * p >= p) by (nonlinear_arith)
        requires
            h >= 1,
            p >= 1,
    ;
}

/// Two digit strings of one length that agree before position `i` and differ
/// there are ordered by that digit.
proof fn lemma_first_difference(a: Seq<char>, b: Seq<char>, i: int)
    requires
        all_digits(a),
        all_digits(b),
        a.len() == b.len(),
        0 <= i < a.len(),
        a.subrange(0, i) == b.subrange(0, i),
        (a[i] as u32) < (b[i] as u32),
    ensures
        digits_value(a) < digits_value(b),
{
    let n = a.len();
    let c = a.subrange(0, i);
    let ai = a.subrange(i, i + 1);
    let bi = b.subrange(i, i + 1);
    let ra = a.subrange(i + 1, n as int);
    let rb = b.subrange(i + 1, n as int);
    assert(a =~= (c + ai) + ra);
    assert(b =~= (c + bi) + rb);
    lemma_digits_concat(c + ai, ra);
    lemma_digits_concat(c + bi, rb);
    lemma_digits_concat(c, ai);
    lemma_digits_concat(c, bi);
    assert(ai.drop_last() =~= Seq::<char>::empty());
    assert(bi.drop_last() =~= Seq::<char>::empty());
    assert forall|j: int| 0 <= j < ra.len() implies is_digit(#[trigger] ra[j]) by {
        assert(ra[j] == a[i + 1 + j]);
    }
    lemma_digits_bound(ra);
    let p = pow10(ra.len());
    let vc = digits_value(c);
    let x = digits_value(ai);
    let y = digits_value(bi);
    assert(is_digit(a[i]) && is_digit(b[i]));
    assert(ai.last() == a[i] && bi.last() == b[i]);
    assert(digits_value(Seq::<char>::empty()) == 0);
    assert(digits_value(ai) == digits_value(ai.drop_last()) * 10 + digit_of(ai.last()));
    assert(digits_value(bi) == digits_value(bi.drop_last()) * 10 + digit_of(bi.last()));
    assert(x == digit_of(a[i]) && y == digit_of(b[i]));
    assert(x < y);
    assert(pow10(1) == 10) by {
        reveal_with_fuel(pow10, 2);
    }
    assert(ai.len() == 1 && bi.len() == 1);
    assert(rb.len() == ra.len());
    assert(digits_value(c + ai) == vc * 10 + x);
    assert(digits_value(c + bi) == vc * 10 + y);
    assert(digits_value(a) == (vc * 10 + x) * p + digits_value(ra));
    assert(digits_value(b) == (vc * 10 + y) * p + digits_value(rb));
    assert((vc * 10 + x) * p + digits_value(ra) < (vc * 10 + y) * p + digits_value(rb)) by (
    nonlinear_arith)
        requires
            x < y,
            digits_value(ra) < p,
            digits_value(rb) >= 0,
    ;
}

/// A digit string that agrees with another on a prefix and has only zeros
/// after it is no larger.
proof fn lemma_zero_tail(c: Seq<char>, za: nat, rb: Seq<char>)
    requires
        rb.len() == za,
    ensures
        digits_value(c + zeros(za)) <= digits_value(c + rb),
{
    lemma_digits_concat(c, zeros(za));
    lemma_digits_concat(c, rb);
    lemma_zeros_value(za);
}


proof fn lemma_pow5_add(a: nat, b: nat)
    ensures
        (pow5(a + b) as int) == (pow5(a) as int) * (pow5(b) as int),
    decreases b,
{
    if b == 0 {
        let x = pow5(a);
        assert(pow5(b) == 1);
        assert((x as int) == (x as int) * 1) by (nonlinear_arith);
    } else {
        lemma_pow5_add(a, (b - 1) as nat);
        let x = pow5(a);
        let y = pow5((b - 1) as nat);
        let z = pow5((a + b - 1) as nat);
        assert(pow5(a + b) == 5 * z);
        assert(pow5(b) == 5 * y);
        let w = pow5(b);
        assert(5 * (z as int) == (x as int) * (w as int)) by (nonlinear_arith)
            requires
                (z as int) == (x as int) * (y as int),
                w == 5 * y,
        ;
    }
}

/// The decimal digits of `5^150`.
pub const FIVE_POW_150: &'static str = "700649232162408535461864791644958065640130970938257885878534141944895541342930300743319094181060791015625";

proof fn lemma_five_pow_150()
    ensures
        FIVE_POW_150@.len() == 105,
        all_digits(FIVE_POW_150@),
        FIVE_POW_150@[0] == '7',
        digits_value(FIVE_POW_150@) == pow5(150),
{
    reveal_strlit("700649232162408535461864791644958065640130970938257885878534141944895541342930300743319094181060791015625");
    let s = FIVE_POW_150@;
    assert(s.len() == 105);
    assert(pow10(15) == 1000000000000000nat) by {
        reveal_with_fuel(pow10, 16);
    }
    assert(digits_value(s.subrange(0, 15)) == 700649232162408nat) by {
        reveal_with_fuel(digits_value, 16);
    }
    assert(digits_value(s.subrange(15, 30)) == 535461864791644nat) by {
        reveal_with_fuel(digits_value, 16);
    }
    assert(digits_value(s.subrange(30, 45)) == 958065640130970nat) by {
        reveal_with_fuel(digits_value, 16);
    }
    assert(digits_value(s.subrange(45, 60)) == 938257885878534nat) by {
        reveal_with_fuel(digits_value, 16);
    }
    assert(digits_value(s.subrange(60, 75)) == 141944895541342nat) by {
        reveal_with_fuel(digits_value, 16);
    }
    assert(digits_value(s.subrange(75, 90)) == 930300743319094nat) by {
        reveal_with_fuel(digits_value, 16);
    }
    assert(digits_value(s.subrange(90, 105)) == 181060791015625nat) by {
        reveal_with_fuel(digits_value, 16);
    }
    assert(s.subrange(0, 30) =~= s.subrange(0, 15) + s.subrange(15, 30));
    lemma_digits_concat(s.subrange(0, 15), s.subrange(15, 30));
    assert(digits_value(s.subrange(0, 30)) == 700649232162408535461864791644nat);
    assert(s.subrange(0, 45) =~= s.subrange(0, 30) + s.subrange(30, 45));
    lemma_digits_concat(s.subrange(0, 30), s.subrange(30, 45));
    assert(digits_value(s.subrange(0, 45)) == 700649232162408535461864791644958065640130970nat);
    assert(s.subrange(0, 60) =~= s.subrange(0, 45) + s.subrange(45, 60));
    lemma_digits_concat(s.subrange(0, 45), s.subrange(45, 60));
    assert(digits_value(s.subrange(0, 60)) == 700649232162408535461864791644958065640130970938257885878534nat);
    assert(s.subrange(0, 75) =~= s.subrange(0, 60) + s.subrange(60, 75));
    lemma_digits_concat(s.subrange(0, 60), s.subrange(60, 75));
    assert(digits_value(s.subrange(0, 75)) == 700649232162408535461864791644958065640130970938257885878534141944895541342nat);
    assert(s.subrange(0, 90) =~= s.subrange(0, 75) + s.subrange(75, 90));
    lemma_digits_concat(s.subrange(0, 75), s.subrange(75, 90));
    assert(digits_value(s.subrange(0, 90)) == 700649232162408535461864791644958065640130970938257885878534141944895541342930300743319094nat);
    assert(s.subrange(0, 105) =~= s.subrange(0, 90) + s.subrange(90, 105));
    lemma_digits_concat(s.subrange(0, 90), s.subrange(90, 105));
    assert(digits_value(s.subrange(0, 105)) == 700649232162408535461864791644958065640130970938257885878534141944895541342930300743319094181060791015625nat);
    assert(s.subrange(0, 105) =~= s);
    assert(pow5(15) == 30517578125nat) by {
        reveal_with_fuel(pow5, 16);
    }
    lemma_pow5_add(15, 15);
    assert(pow5(30) == 931322574615478515625nat);
    lemma_pow5_add(30, 15);
    assert(pow5(45) == 28421709430404007434844970703125nat);
    lemma_pow5_add(45, 15);
    assert(pow5(60) == 867361737988403547205962240695953369140625nat);
    lemma_pow5_add(60, 15);
    assert(pow5(75) == 26469779601696885595885078146238811314105987548828125nat);
    lemma_pow5_add(75, 15);
    assert(pow5(90) == 807793566946316088741610050849573099185363389551639556884765625nat);
    lemma_pow5_add(90, 15);
    assert(pow5(105) == 24651903288156618919116517665087069677287701097156968899071216583251953125nat);
    lemma_pow5_add(105, 15);
    assert(pow5(120) == 752316384526264005099991383822237233803945956334136013765601092018187046051025390625nat);
    lemma_pow5_add(120, 15);
    assert(pow5(135) == 22958874039497802890014385492621985894895811655704834404467806763250337098725140094757080078125nat);
    lemma_pow5_add(135, 15);
    assert(pow5(150) == 700649232162408535461864791644958065640130970938257885878534141944895541342930300743319094181060791015625nat);
    assert forall|i: int| 0 <= i < s.len() implies is_digit(#[trigger] s[i]) by {}
}


/// Length of an optional leading sign.
pub open spec fn sign_len(s: Seq<char>) -> int {
    if s.len() > 0 && (s[0] == '+' || s[0] == '-') {
        1
    } else {
        0
    }
}

/// The position of the first `a` or `b` in `s`, or its length when there is none.
pub open spec fn first_index(s: Seq<char>, a: char, b: char) -> int
    decreases s.len(),
{
    if s.len() == 0 {
        0
    } else if s[0] == a || s[0] == b {
        0
    } else {
        1 + first_index(s.drop_first(), a, b)
    }
}

/// The signed value of an exponent's text (`e` already removed), when it is
/// an optional sign followed by at least one digit.
pub open spec fn exponent_value(ex: Seq<char>) -> Option<int> {
    let sl = sign_len(ex);
    if ex.len() > sl && all_digits(ex.skip(sl)) {
        if sl == 1 && ex[0] == '-' {
            Some(-(digits_value(ex.skip(1)) as int))
        } else {
            Some(digits_value(ex.skip(sl)) as int)
        }
    } else {
        None
    }
}

/// A finite decimal literal as `str::parse::<f32>` accepts it (an optional
/// sign, digits with at most one `.` and at least one digit, an optional
/// exponent `e`/`E` with optional sign and digits), as its significand digits
/// and the power of ten `k` it is divided by: the value is `digits * 10^-k`.
/// `None` for any other text (`inf` and `nan` included, which are not zero).
pub open spec fn decimal_literal(s: Seq<char>) -> Option<(Seq<char>, int)> {
    let b = s.skip(sign_len(s));
    let ei = first_index(b, 'e', 'E');
    let mant = b.take(ei);
    let di = first_index(mant, '.', '.');
    let ip = mant.take(di);
    let fp = if di < mant.len() {
        mant.skip(di + 1)
    } else {
        Seq::empty()
    };
    let exp = if ei < b.len() {
        exponent_value(b.skip(ei + 1))
    } else {
        Some(0)
    };
    if all_digits(ip) && all_digits(fp) && ip.len() + fp.len() >= 1 && exp is Some {
        Some((ip + fp, fp.len() - exp.unwrap()))
    } else {
        None
    }
}

/// Whether the text parses as an `f32` equal to zero: a literal whose value
/// is zero, or rounds to zero, being at most half the smallest positive
/// single-precision number, `2^-150`.
pub open spec fn reads_as_zero(s: Seq<char>) -> bool {
    match decimal_literal(s) {
        Some((d, k)) => digits_value(d) == 0 || (k > 0 && (digits_value(d) as int) * (pow2(150) as int)
            <= pow10(k as nat) as int),
        None => false,
    }
}

proof fn lemma_all_digits_concat(a: Seq<char>, b: Seq<char>)
    requires
        all_digits(a),
        all_digits(b),
    ensures
        all_digits(a + b),
{
    assert forall|i: int| 0 <= i < (a + b).len() implies is_digit(#[trigger] (a + b)[i]) by {
        if i < a.len() {
            assert((a + b)[i] == a[i]);
        } else {
            assert((a + b)[i] == b[i - a.len()]);
        }
    }
}

/// For a significand without leading zeros and `k > 0`: the value rounds to
/// zero exactly when `digits` followed by 150 zeros is, as a number, at most
/// `5^150` followed by `k` zeros.
proof fn lemma_zero_by_five_pow(d: Seq<char>, k: nat)
    requires
        all_digits(d),
        k > 0,
    ensures
        ((digits_value(d) as int) * (pow2(150) as int) <= pow10(k) as int) == (digits_value(
            d + zeros(150),
        ) <= digits_value(FIVE_POW_150@ + zeros(k))),
{
    lemma_five_pow_150();
    lemma_pow2_pow5(150);
    lemma_digits_concat(d, zeros(150));
    lemma_digits_concat(FIVE_POW_150@, zeros(k));
    lemma_zeros_value(150);
    lemma_zeros_value(k);
    let m = digits_value(d) as int;
    let t = pow2(150) as int;
    let f = pow5(150) as int;
    let h = pow10(150) as int;
    let pk = pow10(k) as int;
    assert(f > 0) by {
        assert(f == digits_value(FIVE_POW_150@));
        assert(FIVE_POW_150@[0] == '7');
        lemma_leading_digit_bound(FIVE_POW_150@);
        lemma_pow10_positive(104);
    }
    assert((m * t <= pk) == (m * h <= f * pk)) by (nonlinear_arith)
        requires
            t * f == h,
            f > 0,
    ;
}

/// A decimal digit string without leading zeros is below `10^n` and at least
/// `10^(n-1)`.
proof fn lemma_digit_count(s: Seq<char>)
    requires
        all_digits(s),
        s.len() >= 1,
        s[0] != '0',
    ensures
        pow10((s.len() - 1) as nat) <= digits_value(s) < pow10(s.len()),
{
    lemma_leading_digit_bound(s);
    lemma_digits_bound(s);
}


proof fn lemma_first_index(s: Seq<char>, a: char, b: char, m: int)
    requires
        0 <= m <= s.len(),
        forall|t: int| 0 <= t < m ==> #[trigger] s[t] != a && s[t] != b,
        m == s.len() || s[m] == a || s[m] == b,
    ensures
        first_index(s, a, b) == m,
    decreases m,
{
    if m > 0 {
        let r = s.drop_first();
        assert forall|t: int| 0 <= t < m - 1 implies #[trigger] r[t] != a && r[t] != b by {
            assert(r[t] == s[t + 1]);
        }
        if m < s.len() {
            assert(r[m - 1] == s[m]);
        }
        lemma_first_index(r, a, b, m - 1);
    }
}

/// The position of the first `a` or `b` in `v[from..to]`, or `to`.
pub(crate) fn find_first(v: &Vec<char>, from: usize, to: usize, a: char, b: char) -> (i: usize)
    requires
        from <= to <= v.len(),
    ensures
        from <= i <= to,
        i - from == first_index(v@.subrange(from as int, to as int), a, b),
{
    let ghost s = v@.subrange(from as int, to as int);
    let mut i: usize = from;
    while i < to
        invariant
            from <= i <= to <= v.len(),
            s == v@.subrange(from as int, to as int),
            forall|t: int| 0 <= t < i - from ==> #[trigger] s[t] != a && s[t] != b,
        ensures
            from <= i <= to,
            forall|t: int| 0 <= t < i - from ==> #[trigger] s[t] != a && s[t] != b,
            i == to || s[i - from] == a || s[i - from] == b,
        decreases to - i,
    {
        assert(s[i - from] == v@[i as int]);
        if v[i] == a || v[i] == b {
            break;
        }
        i = i + 1;
    }
    proof {
        lemma_first_index(s, a, b, i - from);
    }
    i
}

/// Appends `v[from..to]` to `out` when every character there is a digit.
fn append_digits(v: &Vec<char>, from: usize, to: usize, out: &mut Vec<char>) -> (ok: bool)
    requires
        from <= to <= v.len(),
    ensures
        ok == all_digits(v@.subrange(from as int, to as int)),
        ok ==> final(out)@ == old(out)@ + v@.subrange(from as int, to as int),
{
    let ghost s = v@.subrange(from as int, to as int);
    let ghost start = out@;
    let mut i: usize = from;
    while i < to
        invariant
            from <= i <= to <= v.len(),
            s == v@.subrange(from as int, to as int),
            out@ == start + v@.subrange(from as int, i as int),
            forall|t: int| 0 <= t < i - from ==> is_digit(#[trigger] s[t]),
        decreases to - i,
    {
        let c = v[i];
        assert(s[i - from] == c);
        if !('0' <= c && c <= '9') {
            assert(!is_digit(s[i - from]));
            return false;
        }
        out.push(c);
        i = i + 1;
        assert(out@ =~= start + v@.subrange(from as int, i as int));
    }
    assert(v@.subrange(from as int, to as int) =~= s);
    true
}

/// An exponent larger than this decides the outcome by its sign alone.
const EXPONENT_CAP: u128 = 100_000_000_000_000_000_000;

/// The exponent text `v[from..to]`: `None` unless it is an optional sign and
/// digits; otherwise whether it is negative, and its magnitude, exact below
/// the cap, or `saturated` when at least the cap.
fn exponent_of(v: &Vec<char>, from: usize, to: usize) -> (r: Option<(bool, u128, bool)>)
    requires
        from <= to <= v.len(),
    ensures
        match exponent_value(v@.subrange(from as int, to as int)) {
            None => r is None,
            Some(e) => r matches Some((neg, mag, saturated)) && if saturated {
                if neg {
                    e <= -(EXPONENT_CAP as int)
                } else {
                    e >= EXPONENT_CAP as int
                }
            } else {
                e == (if neg {
                    -(mag as int)
                } else {
                    mag as int
                }) && mag < EXPONENT_CAP
            },
        },
{
    let ghost ex = v@.subrange(from as int, to as int);
    let has_sign = from < to && (v[from] == '+' || v[from] == '-');
    let neg_sign = has_sign && v[from] == '-';
    let start: usize = if has_sign {
        from + 1
    } else {
        from
    };
    let ghost sl = sign_len(ex);
    assert(sl == start - from) by {
        if from < to {
            assert(ex[0] == v@[from as int]);
        }
    }
    assert(ex.skip(sl) =~= v@.subrange(start as int, to as int));
    if start >= to {
        return None;
    }
    let mut mag: u128 = 0;
    let mut saturated = false;
    let mut i: usize = start;
    while i < to
        invariant
            start <= i <= to <= v.len(),
            start < to,
            ex == v@.subrange(from as int, to as int),
            sl == sign_len(ex),
            sl == start - from,
            ex.skip(sl) == v@.subrange(start as int, to as int),
            forall|t: int| start <= t < i ==> is_digit(#[trigger] v@[t]),
            !saturated ==> mag as int == digits_value(v@.subrange(start as int, i as int)),
            !saturated ==> mag < EXPONENT_CAP,
            saturated ==> digits_value(v@.subrange(start as int, i as int)) >= EXPONENT_CAP,
        decreases to - i,
    {
        let c = v[i];
        let ghost pre = v@.subrange(start as int, i as int);
        let ghost next = v@.subrange(start as int, i + 1);
        assert(next.drop_last() =~= pre);
        if !('0' <= c && c <= '9') {
            assert(ex.skip(sl)[i - start] == c);
            assert(!all_digits(ex.skip(sl)));
            return None;
        }
        let d = ((c as u32) - 48) as u128;
        if !saturated {
            let nv = mag * 10 + d;
            if nv >= EXPONENT_CAP {
                saturated = true;
            } else {
                mag = nv;
            }
        }
        i = i + 1;
    }
    assert(v@.subrange(start as int, i as int) =~= ex.skip(sl));
    assert forall|t: int| 0 <= t < ex.skip(sl).len() implies is_digit(#[trigger] ex.skip(sl)[t]) by {
        assert(ex.skip(sl)[t] == v@[start + t]);
    }
    proof {
        if has_sign {
            assert(ex[0] == v@[from as int]);
            assert(ex.skip(1) =~= ex.skip(sl));
        }
    }
    Some((neg_sign, mag, saturated))
}


/// Digit strings without leading zeros compare by length first.
proof fn lemma_length_decides(d: Seq<char>, k: nat)
    requires
        all_digits(d),
        d.len() >= 1,
        d[0] != '0',
        k > 0,
    ensures
        d.len() + 150 < 105 + k ==> digits_value(d + zeros(150)) <= digits_value(
            FIVE_POW_150@ + zeros(k),
        ),
        d.len() + 150 > 105 + k ==> digits_value(d + zeros(150)) > digits_value(
            FIVE_POW_150@ + zeros(k),
        ),
{
    lemma_five_pow_150();
    let a = d + zeros(150);
    let b = FIVE_POW_150@ + zeros(k);
    lemma_all_digits_concat(d, zeros(150));
    lemma_all_digits_concat(FIVE_POW_150@, zeros(k));
    assert(a[0] == d[0]);
    assert(b[0] == '7');
    lemma_digit_count(a);
    lemma_digit_count(b);
    if d.len() + 150 < 105 + k {
        lemma_pow10_monotone(a.len(), (b.len() - 1) as nat);
    }
    if d.len() + 150 > 105 + k {
        lemma_pow10_monotone(b.len(), (a.len() - 1) as nat);
    }
}

/// Whether a significand `d` scaled by `10^-k` rounds to zero, with `k`
/// given as the fraction length less the exponent (magnitude `mag`, or at
/// least the cap when `saturated`).
fn significand_reads_zero(
    d: &Vec<char>,
    frac_len: usize,
    neg: bool,
    mag: u128,
    saturated: bool,
    Ghost(k): Ghost<int>,
) -> (r: bool)
    requires
        all_digits(d@),
        saturated ==> (neg ==> k >= frac_len + EXPONENT_CAP) && (!neg ==> k <= frac_len
            - EXPONENT_CAP),
        !saturated ==> mag < EXPONENT_CAP,
        !saturated ==> k == frac_len - (if neg {
            -(mag as int)
        } else {
            mag as int
        }),
    ensures
        r == (digits_value(d@) == 0 || (k > 0 && (digits_value(d@) as int) * (pow2(150) as int)
            <= pow10(k as nat) as int)),
{
    let len = d.len();
    let mut z: usize = 0;
    while z < len
        invariant
            z <= len == d.len(),
            forall|t: int| 0 <= t < z ==> #[trigger] d@[t] == '0',
        ensures
            z <= len,
            forall|t: int| 0 <= t < z ==> #[trigger] d@[t] == '0',
            z == len || d@[z as int] != '0',
        decreases len - z,
    {
        if d[z] != '0' {
            break;
        }
        z = z + 1;
    }
    let ghost head = d@.subrange(0, z as int);
    let ghost big = d@.subrange(z as int, len as int);
    assert(head =~= zeros(z as nat));
    assert(d@ =~= head + big);
    proof {
        lemma_zeros_value(z as nat);
        lemma_digits_concat(head, big);
        let p = pow10(big.len()) as int;
        assert(0 * p == 0) by (nonlinear_arith);
    }
    assert(digits_value(d@) == digits_value(big));
    if z == len {
        assert(big =~= Seq::<char>::empty());
        return true;
    }
    let n = len - z;
    assert forall|t: int| 0 <= t < big.len() implies is_digit(#[trigger] big[t]) by {
        assert(big[t] == d@[z + t]);
    }
    proof {
        lemma_digit_count(big);
        lemma_pow10_positive((big.len() - 1) as nat);
    }
    assert(digits_value(big) >= 1);
    if saturated {
        if !neg {
            return false;
        }
        proof {
            lemma_length_decides(big, k as nat);
            lemma_zero_by_five_pow(big, k as nat);
        }
        return true;
    }
    let kk: i128 = if neg {
        (frac_len as i128) + (mag as i128)
    } else {
        (frac_len as i128) - (mag as i128)
    };
    assert(kk == k);
    if kk <= 0 {
        return false;
    }
    proof {
        lemma_length_decides(big, k as nat);
        lemma_zero_by_five_pow(big, k as nat);
    }
    let lhs: i128 = (n as i128) + 150;
    let rhs: i128 = 105 + kk;
    if lhs < rhs {
        return true;
    }
    if lhs > rhs {
        return false;
    }
    let p = chars_of(FIVE_POW_150);
    let ghost a = big + zeros(150);
    let ghost b = FIVE_POW_150@ + zeros(k as nat);
    proof {
        lemma_five_pow_150();
        lemma_all_digits_concat(big, zeros(150));
        lemma_all_digits_concat(FIVE_POW_150@, zeros(k as nat));
    }
    assert(a.len() == b.len());
    let mut i: usize = 0;
    while i < n
        invariant
            i <= n,
            n == big.len(),
            n + z == len,
            len == d.len(),
            big == d@.subrange(z as int, len as int),
            p@ == FIVE_POW_150@,
            FIVE_POW_150@.len() == 105,
            a == big + zeros(150),
            b == FIVE_POW_150@ + zeros(k as nat),
            a.len() == b.len(),
            all_digits(a),
            all_digits(b),
            forall|t: int| 0 <= t < i ==> #[trigger] a[t] == b[t],
            digits_value(d@) == digits_value(big),
            digits_value(big) >= 1,
            k > 0,
            ((digits_value(big) as int) * (pow2(150) as int) <= pow10(k as nat) as int) == (
            digits_value(a) <= digits_value(b)),
        decreases n - i,
    {
        let dc = d[z + i];
        let pc = if i < 105 {
            p[i]
        } else {
            '0'
        };
        assert(a[i as int] == dc);
        assert(b[i as int] == pc);
        if dc != pc {
            assert(a.subrange(0, i as int) =~= b.subrange(0, i as int));
            if (dc as u32) < (pc as u32) {
                proof {
                    lemma_first_difference(a, b, i as int);
                }
                return true;
            } else {
                proof {
                    vstd::utf8::char_u32_cast(dc, dc as u32);
                    vstd::utf8::char_u32_cast(pc, pc as u32);
                    lemma_first_difference(b, a, i as int);
                }
                return false;
            }
        }
        i = i + 1;
    }
    proof {
        let rest = b.subrange(n as int, b.len() as int);
        assert forall|t: int| 0 <= t < n implies #[trigger] big[t] == b[t] by {
            assert(a[t] == big[t]);
        }
        assert(big =~= b.subrange(0, n as int));
        assert(b =~= big + rest);
        lemma_zero_tail(big, 150, rest);
    }
    true
}


/// Whether the text parses as an `f32` equal to zero.
#[verifier::rlimit(40)]
pub fn text_reads_as_zero(v: &Vec<char>) -> (r: bool)
    ensures
        r == reads_as_zero(v@),
{
    let len = v.len();
    let sl: usize = if len > 0 && (v[0] == '+' || v[0] == '-') {
        1
    } else {
        0
    };
    let ghost s = v@;
    let ghost b = s.skip(sign_len(s));
    assert(sign_len(s) == sl);
    assert(b =~= s.subrange(sl as int, len as int));
    let ei = find_first(v, sl, len, 'e', 'E');
    let ghost mant = b.take(ei - sl);
    assert(mant =~= s.subrange(sl as int, ei as int));
    let di = find_first(v, sl, ei, '.', '.');
    let ghost ip = mant.take(di - sl);
    assert(ip =~= s.subrange(sl as int, di as int));
    let ghost fp = if di - sl < mant.len() {
        mant.skip(di - sl + 1)
    } else {
        Seq::<char>::empty()
    };
    let mut digits: Vec<char> = Vec::new();
    if !append_digits(v, sl, di, &mut digits) {
        return false;
    }
    assert(digits@ =~= ip);
    let frac_len: usize = if di < ei {
        assert(fp =~= s.subrange(di + 1, ei as int));
        if !append_digits(v, di + 1, ei, &mut digits) {
            return false;
        }
        ei - di - 1
    } else {
        assert(fp =~= Seq::<char>::empty());
        0
    };
    assert(all_digits(fp));
    assert(digits@ =~= ip + fp);
    assert(fp.len() == frac_len);
    if digits.len() == 0 {
        return false;
    }
    let ghost exp = if ei - sl < b.len() {
        exponent_value(b.skip(ei - sl + 1))
    } else {
        Some(0int)
    };
    let (neg, mag, saturated) = if ei < len {
        assert(b.skip(ei - sl + 1) =~= s.subrange(ei + 1, len as int));
        match exponent_of(v, ei + 1, len) {
            Some(e) => e,
            None => {
                return false;
            },
        }
    } else {
        (false, 0u128, false)
    };
    assert(exp is Some);
    let ghost k = fp.len() - exp.unwrap();
    assert(decimal_literal(s) == Some((ip + fp, k)));
    significand_reads_zero(&digits, frac_len, neg, mag, saturated, Ghost(k))
}

} // verus!
