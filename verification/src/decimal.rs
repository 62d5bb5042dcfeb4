//! Fixed-point decimal amounts and their money rendering.
//!
//! A [`DecimalNum`] holds what `rust_decimal::Decimal` is made of: a signed
//! 96-bit mantissa and a base-ten scale of at most 28. Parsing goes through
//! `rust_decimal`; rounding to cents and rendering follow the documented
//! banker's rounding of `Decimal::round_dp` and the digits of its `Display`.
use vstd::prelude::*;

use crate::config::{all_digits, digits_value, is_digit};
use crate::text::{append_str, digit_char, nat_text, push_char, u128_text, string_of};

verus! {

/// `2^96`, one past the largest mantissa magnitude.
pub const MANTISSA_LIMIT: u128 = 79228162514264337593543950336;

/// The largest scale a decimal can carry.
pub const MAX_SCALE: u32 = 28;

/// A decimal number `mantissa / 10^scale`.
#[derive(Clone, Copy, Debug, PartialEq, Eq, Structural)]
pub struct DecimalNum {
    pub mantissa: i128,
    pub scale: u32,
}

impl DecimalNum {
    /// The representable range of `rust_decimal::Decimal`.
    pub open spec fn wf(self) -> bool {
        &&& self.scale <= MAX_SCALE
        &&& -(MANTISSA_LIMIT as int) < self.mantissa < MANTISSA_LIMIT as int
    }

    /// Zero with scale zero.
    pub fn zero() -> (d: Self)
        ensures
            d.wf(),
            d.mantissa == 0,
            d.scale == 0,
    {
        DecimalNum { mantissa: 0, scale: 0 }
    }

    pub fn is_zero(&self) -> (b: bool)
        ensures
            b == (self.mantissa == 0),
    {
        self.mantissa == 0
    }
}

/// `10^n`.
pub open spec fn pow10(n: nat) -> nat
    decreases n,
{
    if n == 0 {
        1
    } else {
        10 * pow10((n - 1) as nat)
    }
}

pub proof fn lemma_pow10_positive(n: nat)
    ensures
        pow10(n) >= 1,
    decreases n,
{
    if n > 0 {
        lemma_pow10_positive((n - 1) as nat);
    }
}

pub proof fn lemma_pow10_monotone(a: nat, b: nat)
    requires
        a <= b,
    ensures
        pow10(a) <= pow10(b),
    decreases b,
{
    if a < b {
        lemma_pow10_monotone(a, (b - 1) as nat);
        lemma_pow10_positive((b - 1) as nat);
    }
}

/// Rounds `n / 10^k` to the nearest integer, ties to the even neighbour.
pub open spec fn round_half_even(n: nat, k: nat) -> nat {
    if k == 0 {
        n
    } else {
        let p = pow10(k);
        let q = n / p;
        let r = n % p;
        let half = p / 2;
        if r > half || (r == half && q % 2 == 1) {
            q + 1
        } else {
            q
        }
    }
}

/// The amount in hundredths after `round_dp(2)`.
pub open spec fn cents(d: DecimalNum) -> int {
    let a = if d.mantissa < 0 {
        -d.mantissa
    } else {
        d.mantissa as int
    };
    let magnitude: int = if d.scale <= 2 {
        a * pow10((2 - d.scale) as nat)
    } else {
        round_half_even(a as nat, (d.scale - 2) as nat) as int
    };
    if d.mantissa < 0 {
        -magnitude
    } else {
        magnitude
    }
}

/// Two digits, with a leading zero below ten.
pub open spec fn two_digits(n: nat) -> Seq<char> {
    seq![((n / 10 + 48) as u32) as char, ((n % 10 + 48) as u32) as char]
}

/// The money text of an amount in hundredths: `0.00` for zero, otherwise an
/// optional `-`, the whole part and exactly two decimals.
pub open spec fn cents_text(c: int) -> Seq<char> {
    if c == 0 {
        "0.00"@
    } else {
        let a = if c < 0 {
            -c
        } else {
            c
        };
        (if c < 0 {
            seq!['-']
        } else {
            Seq::<char>::empty()
        }) + nat_text((a / 100) as nat) + seq!['.'] + two_digits((a % 100) as nat)
    }
}

/// What `money_string` renders for `d`.
pub open spec fn money_text(d: DecimalNum) -> Seq<char> {
    cents_text(cents(d))
}

proof fn lemma_pow10_28()
    ensures
        pow10(28) == 10000000000000000000000000000nat,
{
    reveal_with_fuel(pow10, 29);
}

/// `10^n` as an executable value.
pub fn pow10_u128(n: u32) -> (p: u128)
    requires
        n <= 28,
    ensures
        p as nat == pow10(n as nat),
        p <= 10000000000000000000000000000u128,
{
    let mut p: u128 = 1;
    let mut i: u32 = 0;
    proof {
        lemma_pow10_28();
    }
    while i < n
        invariant
            i <= n <= 28,
            p as nat == pow10(i as nat),
            pow10(28) == 10000000000000000000000000000nat,
        decreases n - i,
    {
        proof {
            lemma_pow10_monotone((i + 1) as nat, 28);
        }
        p = p * 10;
        i = i + 1;
    }
    proof {
        lemma_pow10_monotone(i as nat, 28);
    }
    p
}

/// The amount in hundredths, rounded half to even.
pub fn cents_of(d: DecimalNum) -> (c: i128)
    requires
        d.wf(),
    ensures
        c as int == cents(d),
        -(MANTISSA_LIMIT as int) * 100 < c < (MANTISSA_LIMIT as int) * 100,
{
    let a: u128 = if d.mantissa < 0 {
        (0 - d.mantissa) as u128
    } else {
        d.mantissa as u128
    };
    let magnitude: u128 = if d.scale <= 2 {
        let p = pow10_u128(2 - d.scale);
        proof {
            lemma_pow10_monotone((2 - d.scale) as nat, 2);
            reveal_with_fuel(pow10, 3);
        }
        assert(a * p <= a * 100) by (nonlinear_arith)
            requires
                p <= 100,
        ;
        a * p
    } else {
        let k = d.scale - 2;
        let p = pow10_u128(k);
        proof {
            lemma_pow10_positive(k as nat);
        }
        let q = a / p;
        let r = a % p;
        let half = p / 2;
        assert(q <= a) by (nonlinear_arith)
            requires
                p >= 1,
                q == a / p,
        ;
        if r > half || (r == half && q % 2 == 1) {
            q + 1
        } else {
            q
        }
    };
    assert(magnitude < MANTISSA_LIMIT * 100);
    if d.mantissa < 0 {
        0 - (magnitude as i128)
    } else {
        magnitude as i128
    }
}

/// Renders an amount in hundredths: `0.00` for zero, otherwise sign, whole part,
/// point and two decimals.
pub fn cents_string(c: i128) -> (s: String)
    requires
        -(MANTISSA_LIMIT as int) * 100 < c < (MANTISSA_LIMIT as int) * 100,
    ensures
        s@ == cents_text(c as int),
{
    if c == 0 {
        return "0.00".to_owned();
    }
    let a: u128 = if c < 0 {
        (0 - c) as u128
    } else {
        c as u128
    };
    let mut s = String::new();
    if c < 0 {
        push_char(&mut s, '-');
    }
    let whole = u128_text(a / 100);
    let w = string_of(&whole);
    append_str(&mut s, w.as_str());
    push_char(&mut s, '.');
    let f = a % 100;
    push_char(&mut s, ((f / 10) as u8 + 48) as char);
    push_char(&mut s, ((f % 10) as u8 + 48) as char);
    proof {
        let sign = if c < 0 {
            seq!['-']
        } else {
            Seq::<char>::empty()
        };
        assert(s@ =~= sign + nat_text((a / 100) as nat) + seq!['.'] + two_digits((a % 100) as nat));
    }
    s
}

/// An amount as money: rounded half to even to two decimals, rendered with
/// exactly two decimals, and `0.00` for anything that rounds to zero
/// (negative zero included).
pub fn money_string(value: DecimalNum) -> (s: String)
    requires
        value.wf(),
    ensures
        s@ == money_text(value),
{
    let c = cents_of(value);
    cents_string(c)
}

/// The text after an optional leading `-`.
pub open spec fn unsigned_part(s: Seq<char>) -> Seq<char> {
    if s.len() > 0 && s[0] == '-' {
        s.skip(1)
    } else {
        s
    }
}

/// A text in the shape money is written in: an optional `-`, one or more
/// digits, `.`, and exactly two digits.
pub open spec fn money_shaped(s: Seq<char>) -> bool {
    let u = unsigned_part(s);
    &&& u.len() >= 4
    &&& u[u.len() - 3] == '.'
    &&& all_digits(u.take(u.len() - 3))
    &&& all_digits(u.skip(u.len() - 2))
}

/// A money-shaped text whose digits, read as one integer, fit the 96-bit
/// mantissa.
pub open spec fn exact_money_text(s: Seq<char>) -> bool {
    money_shaped(s) && -(MANTISSA_LIMIT as int) < spelled_cents(s) < MANTISSA_LIMIT as int
}

/// The hundredths a money-shaped text spells.
pub open spec fn spelled_cents(s: Seq<char>) -> int {
    let u = unsigned_part(s);
    let v: int = (digits_value(u.take(u.len() - 3)) * 100 + digits_value(u.skip(u.len() - 2))) as int;
    if s.len() > 0 && s[0] == '-' {
        -v
    } else {
        v
    }
}

proof fn lemma_nat_text_digits(n: nat)
    ensures
        all_digits(nat_text(n)),
        digits_value(nat_text(n)) == n,
        nat_text(n).len() >= 1,
        nat_text(n)[0] != '-',
    decreases n,
{
    let d = n % 10;
    assert((digit_char(d) as u32) == d + 48);
    if n < 10 {
        let t = nat_text(n);
        assert(t =~= seq![digit_char(n)]);
        assert(t.drop_last() =~= Seq::<char>::empty());
        assert(digits_value(t) == digits_value(t.drop_last()) * 10 + ((t.last() as u32) - 48) as nat);
    }
    if n >= 10 {
        lemma_nat_text_digits(n / 10);
        let t = nat_text(n);
        assert(t.drop_last() =~= nat_text(n / 10));
        assert(t.last() == digit_char(n % 10));
        assert(digits_value(t) == digits_value(t.drop_last()) * 10 + ((t.last() as u32) - 48) as nat);
        assert forall|i: int| 0 <= i < t.len() implies is_digit(#[trigger] t[i]) by {
            if i < t.len() - 1 {
                assert(t[i] == nat_text(n / 10)[i]);
            }
        }
        assert(t[0] == nat_text(n / 10)[0]);
    }
}

proof fn lemma_two_digits(m: nat)
    requires
        m < 100,
    ensures
        all_digits(two_digits(m)),
        digits_value(two_digits(m)) == m,
        two_digits(m).len() == 2,
{
    let t = two_digits(m);
    assert((t[0] as u32) == m / 10 + 48);
    assert((t[1] as u32) == m % 10 + 48);
    assert(t.drop_last() =~= seq![t[0]]);
    assert(seq![t[0]].drop_last() =~= Seq::<char>::empty());
    assert(digits_value(seq![t[0]]) == digits_value(Seq::<char>::empty()) * 10 + ((t[0] as u32) - 48) as nat);
    assert(digits_value(t) == digits_value(t.drop_last()) * 10 + ((t.last() as u32) - 48) as nat);
}

/// Money text is money-shaped and spells exactly the amount in hundredths it
/// was rendered from, so reading it back gives the value rounded to two
/// places; it is `0.00` exactly when that rounded value is zero.
pub proof fn lemma_money_text_spells_its_cents(d: DecimalNum)
    ensures
        money_shaped(money_text(d)),
        spelled_cents(money_text(d)) == cents(d),
        (money_text(d) == "0.00"@) <==> cents(d) == 0,
{
    lemma_cents_text_spells(cents(d));
}

proof fn lemma_cents_text_spells(c: int)
    ensures
        money_shaped(cents_text(c)),
        spelled_cents(cents_text(c)) == c,
        (cents_text(c) == "0.00"@) <==> c == 0,
{
    reveal_strlit("0.00");
    let a: int = if c < 0 {
        -c
    } else {
        c
    };
    let whole = nat_text((a / 100) as nat);
    let frac = two_digits((a % 100) as nat);
    lemma_nat_text_digits((a / 100) as nat);
    lemma_two_digits((a % 100) as nat);
    let body = whole + seq!['.'] + frac;
    assert(body.take(body.len() - 3) =~= whole);
    assert(body.skip(body.len() - 2) =~= frac);
    assert(body[body.len() - 3] == '.');
    if c == 0 {
        let z = "0.00"@;
        assert(z.take(1) =~= seq!['0']);
        assert(seq!['0'].drop_last() =~= Seq::<char>::empty());
        assert(z.skip(2) =~= seq!['0', '0']);
        assert(seq!['0', '0'].drop_last() =~= seq!['0']);
        assert(unsigned_part(z) == z);
    } else if c < 0 {
        let t = seq!['-'] + body;
        assert(cents_text(c) =~= t);
        assert(t.skip(1) =~= body);
        assert(unsigned_part(t) == body);
        assert(spelled_cents(t) == c);
        if t == "0.00"@ {
            assert(t[0] == '0');
        }
    } else {
        assert(cents_text(c) =~= Seq::<char>::empty() + body);
        assert(Seq::<char>::empty() + body =~= body);
        assert(unsigned_part(body) == body);
        assert(spelled_cents(body) == c);
        if body == "0.00"@ {
            let z = "0.00"@;
            assert(z.take(1) =~= seq!['0']);
            assert(seq!['0'].drop_last() =~= Seq::<char>::empty());
            assert(z.skip(2) =~= seq!['0', '0']);
            assert(seq!['0', '0'].drop_last() =~= seq!['0']);
            assert(unsigned_part(z) == z);
            assert(spelled_cents(z) == 0);
        }
    }
}

/// Name for what `rust_decimal::Decimal::from_str` yields for a text: the
/// mantissa and scale of the parsed value, or `None` when it is rejected.
pub uninterp spec fn decimal_from_text(s: Seq<char>) -> Option<(int, nat)>;

/// `<rust_decimal::Decimal as FromStr>::from_str`. The result is named by
/// [`decimal_from_text`]; any parsed value lies in the type's documented range
/// (scale at most 28, a 96-bit mantissa). A money-shaped text whose digits,
/// read as one integer, fit the 96-bit mantissa is read exactly: that
/// integer, negated after a `-`, at scale two (the digits accumulate into the
/// mantissa and each digit after the point adds one to the scale). A
/// rejection carries the error's display text, which is not stated.
#[verifier::external_body]
pub(crate) fn decimal_from_str(s: &str) -> (r: Result<DecimalNum, String>)
    ensures
        match decimal_from_text(s@) {
            Some((m, sc)) => r matches Ok(d) && d.mantissa == m && d.scale == sc && (exact_money_text(
                s@,
            ) ==> m == spelled_cents(s@) && sc == 2),
            None => r is Err && !exact_money_text(s@),
        },
        r matches Ok(d) ==> d.wf(),
{
    match <rust_decimal::Decimal as std::str::FromStr>::from_str(s) {
        Ok(d) => Ok(DecimalNum { mantissa: d.mantissa(), scale: d.scale() }),
        Err(e) => Err(e.to_string()),
    }
}

/// The lowest `w` decimal digits of `n`, leading zeros kept.
pub open spec fn padded_digits(n: nat, w: nat) -> Seq<char>
    decreases w,
{
    if w == 0 {
        Seq::empty()
    } else {
        padded_digits(n / 10, (w - 1) as nat).push(digit_char(n % 10))
    }
}

/// The magnitude of the mantissa.
pub open spec fn magnitude(d: DecimalNum) -> nat {
    if d.mantissa < 0 {
        (-d.mantissa) as nat
    } else {
        d.mantissa as nat
    }
}

/// `-` for a negative sign, nothing otherwise.
pub open spec fn sign_text(negative: bool) -> Seq<char> {
    if negative {
        seq!['-']
    } else {
        Seq::<char>::empty()
    }
}

/// The text of `a / 10^s` with exactly `s` fractional digits (no point when
/// `s` is zero), after the sign.
pub open spec fn scaled_text(negative: bool, a: nat, s: nat) -> Seq<char> {
    sign_text(negative) + nat_text(a / pow10(s)) + if s > 0 {
        seq!['.'] + padded_digits(a % pow10(s), s)
    } else {
        Seq::<char>::empty()
    }
}

/// What `Decimal`'s `Display` writes: the digits at the stored scale.
pub open spec fn decimal_text(d: DecimalNum) -> Seq<char> {
    scaled_text(d.mantissa < 0, magnitude(d), d.scale as nat)
}

/// The magnitude and scale left once trailing fractional zeros are dropped.
pub open spec fn stripped(a: nat, s: nat) -> (nat, nat)
    decreases s,
{
    if s > 0 && a % 10 == 0 {
        stripped(a / 10, (s - 1) as nat)
    } else {
        (a, s)
    }
}

/// What `Decimal::normalize` followed by `Display` writes: trailing
/// fractional zeros dropped, and zero as `0`.
pub open spec fn normalized_text(d: DecimalNum) -> Seq<char> {
    let (a, s) = stripped(magnitude(d), d.scale as nat);
    scaled_text(d.mantissa < 0 && a != 0, a, s)
}

/// The first two fractional digits of `d`, as a number below a hundred.
pub open spec fn first_two_fraction_digits(d: DecimalNum) -> nat {
    if d.scale >= 2 {
        (magnitude(d) / pow10((d.scale - 2) as nat)) % 100
    } else {
        (magnitude(d) * pow10((2 - d.scale) as nat)) % 100
    }
}

/// What `format!("{:.2}", d)` writes for a `Decimal`: the whole part and the
/// first two fractional digits, the rest cut off (not rounded), with `-`
/// whenever the value is negative.
pub open spec fn two_places_text(d: DecimalNum) -> Seq<char> {
    sign_text(d.mantissa < 0) + nat_text(magnitude(d) / pow10(d.scale as nat)) + seq!['.']
        + padded_digits(first_two_fraction_digits(d), 2)
}

/// `Decimal::to_string()` of the value (built with `from_i128_with_scale`):
/// the contract claims `Display` writes the sign of a negative mantissa, the
/// whole part and every stored fractional digit.
#[verifier::external_body]
pub(crate) fn decimal_string(value: DecimalNum) -> (s: String)
    requires
        value.wf(),
    ensures
        s@ == decimal_text(value),
{
    rust_decimal::Decimal::from_i128_with_scale(value.mantissa, value.scale).to_string()
}

/// `Decimal::normalize()` of the value, then `to_string()`: the contract
/// claims trailing fractional zeros are dropped and zero is written `0`.
#[verifier::external_body]
pub(crate) fn normalized_string(value: DecimalNum) -> (s: String)
    requires
        value.wf(),
    ensures
        s@ == normalized_text(value),
{
    rust_decimal::Decimal::from_i128_with_scale(value.mantissa, value.scale).normalize().to_string()
}

/// `format!("{:.2}", value)` of the `Decimal`: the contract claims `Display`
/// at precision two keeps the first two fractional digits (cut, not
/// rounded, padded with zeros) and writes `-` for a negative mantissa.
#[verifier::external_body]
pub(crate) fn two_places_string(value: DecimalNum) -> (s: String)
    requires
        value.wf(),
    ensures
        s@ == two_places_text(value),
{
    format!("{:.2}", rust_decimal::Decimal::from_i128_with_scale(value.mantissa, value.scale))
}

/// Name for what `Decimal::checked_add` gives for two values (each taken as
/// mantissa and scale): the sum's mantissa and scale, or `None` where `+`
/// would panic on overflow.
pub uninterp spec fn decimal_checked_sum(
    a_mantissa: int,
    a_scale: nat,
    b_mantissa: int,
    b_scale: nat,
) -> Option<(int, nat)>;

/// Name for what `Decimal::checked_mul` gives: the product's mantissa and
/// scale, or `None` where `*` would panic on overflow.
pub uninterp spec fn decimal_checked_product(
    a_mantissa: int,
    a_scale: nat,
    b_mantissa: int,
    b_scale: nat,
) -> Option<(int, nat)>;

/// Name for what `Decimal::checked_div` gives: the quotient's mantissa and
/// scale, or `None` where `/` would panic (a zero divisor or an overflow).
pub uninterp spec fn decimal_checked_quotient(
    a_mantissa: int,
    a_scale: nat,
    b_mantissa: int,
    b_scale: nat,
) -> Option<(int, nat)>;

/// A named result taken as a decimal.
pub open spec fn as_decimal(r: Option<(int, nat)>) -> Option<DecimalNum> {
    match r {
        Some((m, s)) => Some(DecimalNum { mantissa: m as i128, scale: s as u32 }),
        None => None,
    }
}

/// `a + b`, or `None` on overflow. Adding to zero gives the other operand
/// unchanged, and adding zero to a non-zero value gives that value.
pub open spec fn decimal_sum(a: DecimalNum, b: DecimalNum) -> Option<DecimalNum> {
    if a.mantissa == 0 {
        Some(b)
    } else if b.mantissa == 0 {
        Some(a)
    } else {
        as_decimal(
            decimal_checked_sum(a.mantissa as int, a.scale as nat, b.mantissa as int, b.scale as nat),
        )
    }
}

/// `a * b`, or `None` on overflow.
pub open spec fn decimal_product(a: DecimalNum, b: DecimalNum) -> Option<DecimalNum> {
    as_decimal(decimal_checked_product(a.mantissa as int, a.scale as nat, b.mantissa as int, b.scale as nat))
}

/// `a / b`, or `None` for a zero divisor or on overflow.
pub open spec fn decimal_quotient(a: DecimalNum, b: DecimalNum) -> Option<DecimalNum> {
    as_decimal(decimal_checked_quotient(a.mantissa as int, a.scale as nat, b.mantissa as int, b.scale as nat))
}

/// `Decimal::checked_add` of the two values, as [`decimal_sum`] states: adding
/// to zero gives the other operand unchanged and adding zero to a non-zero
/// value gives that value (the zero cases of `add_sub_internal` return the
/// other operand as it is); otherwise the result is named by
/// [`decimal_checked_sum`]. Any result is a value in the type's range.
#[verifier::external_body]
pub(crate) fn checked_sum(a: DecimalNum, b: DecimalNum) -> (r: Option<DecimalNum>)
    requires
        a.wf(),
        b.wf(),
    ensures
        r == decimal_sum(a, b),
        a.mantissa != 0 && b.mantissa != 0 ==> r == as_decimal(
            decimal_checked_sum(a.mantissa as int, a.scale as nat, b.mantissa as int, b.scale as nat),
        ),
        r matches Some(d) ==> d.wf(),
{
    let x = rust_decimal::Decimal::from_i128_with_scale(a.mantissa, a.scale);
    let y = rust_decimal::Decimal::from_i128_with_scale(b.mantissa, b.scale);
    match x.checked_add(y) {
        Some(d) => Some(DecimalNum { mantissa: d.mantissa(), scale: d.scale() }),
        None => None,
    }
}

/// `Decimal::checked_mul` of the two values. The result is named by
/// [`decimal_checked_product`]; any result is a value in the type's range.
#[verifier::external_body]
pub(crate) fn checked_product(a: DecimalNum, b: DecimalNum) -> (r: Option<DecimalNum>)
    requires
        a.wf(),
        b.wf(),
    ensures
        match decimal_checked_product(a.mantissa as int, a.scale as nat, b.mantissa as int, b.scale as nat) {
            Some((m, s)) => r matches Some(d) && d.mantissa == m && d.scale == s && d.wf(),
            None => r is None,
        },
{
    let x = rust_decimal::Decimal::from_i128_with_scale(a.mantissa, a.scale);
    let y = rust_decimal::Decimal::from_i128_with_scale(b.mantissa, b.scale);
    match x.checked_mul(y) {
        Some(d) => Some(DecimalNum { mantissa: d.mantissa(), scale: d.scale() }),
        None => None,
    }
}

/// `Decimal::checked_div` of the two values. The result is named by
/// [`decimal_checked_quotient`]; a zero divisor gives `None`, as the
/// documentation says, and any result is a value in the type's range.
#[verifier::external_body]
pub(crate) fn checked_quotient(a: DecimalNum, b: DecimalNum) -> (r: Option<DecimalNum>)
    requires
        a.wf(),
        b.wf(),
    ensures
        match decimal_checked_quotient(a.mantissa as int, a.scale as nat, b.mantissa as int, b.scale as nat) {
            Some((m, s)) => r matches Some(d) && d.mantissa == m && d.scale == s && d.wf()
                && b.mantissa != 0,
            None => r is None,
        },
{
    let x = rust_decimal::Decimal::from_i128_with_scale(a.mantissa, a.scale);
    let y = rust_decimal::Decimal::from_i128_with_scale(b.mantissa, b.scale);
    match x.checked_div(y) {
        Some(d) => Some(DecimalNum { mantissa: d.mantissa(), scale: d.scale() }),
        None => None,
    }
}

} // verus!
