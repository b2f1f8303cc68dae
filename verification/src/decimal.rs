//! Exact fixed-point numbers.
//!
//! Prices, quantities, thresholds and confidences are decimals with eight
//! fractional digits, held as a count of units of 10^-8. Products of two
//! decimals (notionals, scaled thresholds) are counts of units of 10^-16 and
//! are kept in 128-bit integers. Quotients are never rounded: a `Ratio`
//! carries numerator and denominator.

use vstd::prelude::*;
use crate::text::{
    all_digits, chars_of, digit_of, digit_run, digits_value, is_digit, lemma_digit_run,
    lemma_digits_prefix, lemma_digits_step, pow10,
};

verus! {

/// Number of raw units in one whole unit.
pub const SCALE: u64 = 100_000_000;

/// Largest raw count a `Decimal` holds: one hundred million whole units.
pub const MAX_RAW: u64 = 10_000_000_000_000_000;

/// Most levels of one book side, and most trades of one window, that the
/// detectors sum over without leaving 128 bits.
pub const MAX_ITEMS: usize = 1_000_000;

/// A non-negative decimal of at most `MAX_RAW` raw units.
#[derive(Clone, Copy, Debug, PartialEq, Eq, Structural)]
pub struct Decimal {
    raw: u64,
}

impl View for Decimal {
    type V = nat;

    /// The count of units of 10^-8.
    closed spec fn view(&self) -> nat {
        self.raw as nat
    }
}

impl Decimal {
    #[verifier::type_invariant]
    spec fn in_range(self) -> bool {
        self.raw <= MAX_RAW
    }

    /// The decimal of `raw` units of 10^-8, unless that is out of range.
    pub fn from_raw(raw: u64) -> (r: Option<Decimal>)
        ensures
            r.is_some() == (raw <= MAX_RAW),
            r.is_some() ==> r.unwrap()@ == raw,
    {
        if raw <= MAX_RAW {
            Some(Decimal { raw })
        } else {
            None
        }
    }

    /// The decimal of `units` whole units, unless that is out of range.
    pub fn from_units(units: u64) -> (r: Option<Decimal>)
        ensures
            r.is_some() == (units * SCALE <= MAX_RAW),
            r.is_some() ==> r.unwrap()@ == units * SCALE,
    {
        if units <= MAX_RAW / SCALE {
            Some(Decimal { raw: units * SCALE })
        } else {
            None
        }
    }

    /// The decimal zero.
    pub closed spec fn spec_zero() -> Decimal {
        Decimal { raw: 0 }
    }

    /// The decimal one.
    pub closed spec fn spec_one() -> Decimal {
        Decimal { raw: SCALE }
    }

    /// The count of units of a decimal fits in 64 bits.
    pub proof fn lemma_fits(d: Decimal)
        ensures
            d@ <= u64::MAX,
    {
    }

    /// What the decimals zero and one count.
    pub proof fn lemma_zero_and_one()
        ensures
            Decimal::spec_zero()@ == 0,
            Decimal::spec_one()@ == SCALE,
    {
    }

    /// The decimal zero.
    #[verifier::when_used_as_spec(spec_zero)]
    pub fn zero() -> (r: Decimal)
        ensures
            r == Decimal::spec_zero(),
            r@ == 0,
    {
        Decimal { raw: 0 }
    }

    /// The decimal one.
    #[verifier::when_used_as_spec(spec_one)]
    pub fn one() -> (r: Decimal)
        ensures
            r == Decimal::spec_one(),
            r@ == SCALE,
    {
        Decimal { raw: SCALE }
    }

    /// The count of units of 10^-8.
    pub fn raw(&self) -> (r: u64)
        ensures
            r == self@,
            r <= MAX_RAW,
    {
        proof {
            use_type_invariant(self);
        }
        self.raw
    }

    /// The product of two decimals, in units of 10^-16.
    pub fn times(&self, other: &Decimal) -> (p: u128)
        ensures
            p == self@ * other@,
            p <= MAX_RAW * MAX_RAW,
    {
        let a: u64 = self.raw();
        let b: u64 = other.raw();
        assert(a * b <= MAX_RAW * MAX_RAW) by (nonlinear_arith)
            requires
                0 <= a <= MAX_RAW,
                0 <= b <= MAX_RAW,
        ;
        (a as u128) * (b as u128)
    }
}

/// Fraction digits that a decimal keeps.
pub const PLACES: usize = 8;

/// The count of units of 10^-8 that the digits after the point stand for.
/// Digits beyond the eighth do not count; a numeral may only have zeros
/// there.
pub open spec fn fraction_units(fraction: Seq<char>) -> nat {
    if fraction.len() >= PLACES {
        digits_value(fraction.take(PLACES as int))
    } else {
        digits_value(fraction) * pow10((PLACES - fraction.len()) as nat)
    }
}

/// The count of units of 10^-8 that a text denotes as a plain decimal
/// numeral: one or more digits, then optionally a point and one or more
/// digits, of which those after the eighth are zeros. No sign, no exponent,
/// no blanks.
pub open spec fn decimal_numeral(s: Seq<char>) -> Option<nat> {
    let whole = digit_run(s) as int;
    let fraction = s.skip(whole + 1);
    if whole == 0 {
        None
    } else if whole == s.len() {
        Some((digits_value(s) * SCALE) as nat)
    } else if s[whole] == '.' && fraction.len() > 0 && all_digits(fraction) && (forall|i: int|
        PLACES <= i < fraction.len() ==> #[trigger] fraction[i] == '0') {
        Some((digits_value(s.take(whole)) * SCALE + fraction_units(fraction)) as nat)
    } else {
        None
    }
}

/// Ten to the power of `n`, for the few powers that pad a fraction.
fn power_of_ten(n: usize) -> (r: u64)
    requires
        n <= PLACES,
    ensures
        r == pow10(n as nat),
{
    proof {
        reveal_with_fuel(pow10, 9);
    }
    if n == 0 {
        1
    } else if n == 1 {
        10
    } else if n == 2 {
        100
    } else if n == 3 {
        1_000
    } else if n == 4 {
        10_000
    } else if n == 5 {
        100_000
    } else if n == 6 {
        1_000_000
    } else if n == 7 {
        10_000_000
    } else {
        100_000_000
    }
}

proof fn lemma_pow10_eight()
    ensures
        pow10(8) == SCALE,
{
    reveal_with_fuel(pow10, 9);
}

impl Decimal {
    /// The decimal that a text denotes: that of `decimal_numeral`, where it
    /// is in range.
    pub closed spec fn numeral(s: Seq<char>) -> Option<Decimal> {
        match decimal_numeral(s) {
            Some(n) if n <= MAX_RAW => Some(Decimal { raw: n as u64 }),
            _ => None,
        }
    }

    /// `numeral` in terms of the count of units.
    pub broadcast proof fn lemma_numeral(s: Seq<char>)
        ensures
            #![trigger Decimal::numeral(s)]
            Decimal::numeral(s).is_some() == (decimal_numeral(s).is_some() && decimal_numeral(s).unwrap()
                <= MAX_RAW),
            Decimal::numeral(s).is_some() ==> Decimal::numeral(s).unwrap()@ == decimal_numeral(s).unwrap(),
    {
    }

    /// Reads a plain decimal numeral. The text must denote a multiple of
    /// 10^-8 that is no larger than the largest decimal.
    pub fn parse(text: &str) -> (r: Option<Decimal>)
        ensures
            r == Decimal::numeral(text@),
            r.is_some() == (decimal_numeral(text@).is_some() && decimal_numeral(text@).unwrap() <= MAX_RAW),
            r.is_some() ==> r.unwrap()@ == decimal_numeral(text@).unwrap(),
    {
        let chars = chars_of(text);
        let n: usize = chars.len();
        let ghost s = chars@;
        let mut whole: u64 = 0;
        let mut i: usize = 0;
        while i < n
            invariant
                i <= n,
                n == chars.len(),
                s == chars@,
                s == text@,
                all_digits(s.take(i as int)),
                whole == digits_value(s.take(i as int)),
                whole <= MAX_RAW / SCALE,
            ensures
                i <= n,
                all_digits(s.take(i as int)),
                whole == digits_value(s.take(i as int)),
                whole <= MAX_RAW / SCALE,
                i == n || !is_digit(s[i as int]),
            decreases n - i,
        {
            match digit_of(chars[i]) {
                None => {
                    break ;
                },
                Some(d) => {
                    proof {
                        lemma_digits_step(s, i as int);
                        assert forall|k: int| 0 <= k < s.take(i + 1).len() implies is_digit(
                            #[trigger] s.take(i + 1)[k],
                        ) by {
                            if k < i {
                                assert(s.take(i as int)[k] == s[k]);
                            }
                        }
                    }
                    if whole * 10 + d > MAX_RAW / SCALE {
                        proof {
                            lemma_whole_too_large(s, i as int + 1);
                        }
                        return None;
                    }
                    whole = whole * 10 + d;
                },
            }
            i += 1;
        }
        proof {
            lemma_digit_run(s, i as int);
        }
        if i == 0 {
            return None;
        }
        if i == n {
            assert(s.take(i as int) =~= s);
            return Some(Decimal { raw: whole * SCALE });
        }
        if chars[i] != '.' || i + 1 == n {
            return None;
        }
        let start: usize = i + 1;
        let ghost fraction = s.skip(start as int);
        let mut units: u64 = 0;
        let mut j: usize = start;
        while j < n
            invariant
                start <= j <= n,
                start < n,
                n == chars.len(),
                s == chars@,
                s == text@,
                start == digit_run(s) + 1,
                start >= 2,
                s[start - 1] == '.',
                fraction == s.skip(start as int),
                all_digits(fraction.take(j - start)),
                forall|k: int| PLACES <= k < j - start ==> #[trigger] fraction[k] == '0',
                j - start <= PLACES ==> units == digits_value(fraction.take(j - start)),
                j - start > PLACES ==> units == digits_value(fraction.take(PLACES as int)),
                j - start <= PLACES ==> units < pow10((j - start) as nat),
                units < SCALE,
            decreases n - j,
        {
            proof {
                assert(fraction[j - start] == s[j as int]);
                lemma_digits_step(fraction, j - start);
                lemma_pow10_eight();
            }
            match digit_of(chars[j]) {
                None => {
                    return None;
                },
                Some(d) => {
                    if j - start < PLACES {
                        proof {
                            reveal_with_fuel(pow10, 2);
                            lemma_pow10_le((j - start + 1) as nat, 8);
                        }
                        units = units * 10 + d;
                    } else if d != 0 {
                        assert(fraction[j - start] != '0');
                        return None;
                    }
                    proof {
                        assert forall|k: int| 0 <= k < fraction.take(j + 1 - start).len() implies is_digit(
                            #[trigger] fraction.take(j + 1 - start)[k],
                        ) by {
                            if k < j - start {
                                assert(fraction.take(j - start)[k] == fraction[k]);
                            }
                        }
                        if j - start >= PLACES {
                            assert(d == 0);
                            assert(fraction[j - start] == '0');
                        }
                    }
                },
            }
            j += 1;
        }
        assert(fraction.take(j - start) =~= fraction);
        let digits: usize = n - start;
        let scaled: u64 = if digits < PLACES {
            let factor: u64 = power_of_ten(PLACES - digits);
            proof {
                lemma_pow10_sum(digits as nat, (PLACES - digits) as nat);
                lemma_pow10_eight();
                assert(units * factor < SCALE) by (nonlinear_arith)
                    requires
                        units < pow10(digits as nat),
                        factor == pow10((PLACES - digits) as nat),
                        pow10(digits as nat) * pow10((PLACES - digits) as nat) == SCALE,
                        factor >= 0,
                ;
            }
            units * factor
        } else {
            units
        };
        assert(scaled == fraction_units(fraction));
        let raw: u64 = whole * SCALE + scaled;
        if raw > MAX_RAW {
            return None;
        }
        Some(Decimal { raw })
    }
}

/// A numeral whose leading digits denote more than the largest whole part
/// denotes no decimal.
proof fn lemma_whole_too_large(s: Seq<char>, i: int)
    requires
        0 < i <= s.len(),
        all_digits(s.take(i)),
        digits_value(s.take(i)) > MAX_RAW / SCALE,
    ensures
        decimal_numeral(s).is_some() ==> decimal_numeral(s).unwrap() > MAX_RAW,
{
    let whole = digit_run(s) as int;
    lemma_digit_run_at_least(s, i);
    if decimal_numeral(s).is_some() {
        assert(s.take(whole).take(i) =~= s.take(i));
        lemma_digits_prefix(s.take(whole), i);
        if whole == s.len() {
            assert(s.take(whole) =~= s);
        }
        assert(digits_value(s.take(whole)) * SCALE > MAX_RAW) by (nonlinear_arith)
            requires
                digits_value(s.take(whole)) > MAX_RAW / SCALE,
        ;
    }
}

/// The leading digits of a text are at least as many as any prefix of
/// digits.
proof fn lemma_digit_run_at_least(s: Seq<char>, i: int)
    requires
        0 <= i <= s.len(),
        all_digits(s.take(i)),
    ensures
        i <= digit_run(s) <= s.len(),
    decreases s.len(),
{
    if s.len() > 0 && is_digit(s[0]) {
        let rest = s.skip(1);
        if i > 0 {
            assert forall|k: int| 0 <= k < rest.take(i - 1).len() implies is_digit(#[trigger] rest.take(i - 1)[k]) by {
                assert(rest.take(i - 1)[k] == s.take(i)[k + 1]);
            }
            lemma_digit_run_at_least(rest, i - 1);
        } else {
            lemma_digit_run_at_least(rest, 0);
        }
    } else if i > 0 {
        assert(s.take(i)[0] == s[0]);
    }
}

proof fn lemma_pow10_sum(a: nat, b: nat)
    ensures
        pow10(a) * pow10(b) == pow10(a + b),
    decreases a,
{
    if a > 0 {
        let x = pow10((a - 1) as nat);
        let y = pow10(b);
        lemma_pow10_sum((a - 1) as nat, b);
        assert(((a - 1) as nat) + b == (a + b - 1) as nat);
        assert(x * y == pow10((a + b - 1) as nat));
        assert(pow10(a) == 10 * x);
        assert(pow10(a + b) == 10 * pow10((a + b - 1) as nat));
        assert((10 * x) * y == 10 * (x * y)) by (nonlinear_arith);
    } else {
        assert(pow10(0) == 1);
        assert(0 + b == b);
    }
}

proof fn lemma_pow10_le(a: nat, b: nat)
    requires
        a <= b,
    ensures
        pow10(a) <= pow10(b),
    decreases b,
{
    if a < b {
        lemma_pow10_le(a, (b - 1) as nat);
    }
}

/// An exact quotient `num / den` of two non-negative integers. A ratio with
/// `den == 0` stands for no number; the library never makes one.
#[derive(Clone, Copy, Debug, PartialEq, Eq, Structural)]
pub struct Ratio {
    pub num: u128,
    pub den: u128,
}

impl Ratio {
    /// The ratio zero.
    pub fn zero() -> (r: Ratio)
        ensures
            r == (Ratio { num: 0, den: 1 }),
    {
        Ratio { num: 0, den: 1 }
    }

    /// The ratio that equals a decimal.
    pub open spec fn of_decimal(d: Decimal) -> Ratio {
        Ratio { num: d@ as u128, den: SCALE as u128 }
    }

    /// The ratio that equals a decimal.
    #[verifier::when_used_as_spec(of_decimal)]
    pub fn from_decimal(d: Decimal) -> (r: Ratio)
        ensures
            r == Ratio::of_decimal(d),
    {
        Ratio { num: d.raw() as u128, den: SCALE as u128 }
    }

    /// `self < other` as numbers, for ratios with positive denominators.
    pub open spec fn less_than(self, other: Ratio) -> bool {
        self.num * other.den < other.num * self.den
    }

}

/// 2^64: the weight of one limb of a wide product.
pub open spec fn limb() -> int {
    0x1_0000_0000_0000_0000
}

/// Whether `a * b >= c * d`, where the products need not fit in 128 bits.
pub fn product_at_least(a: u128, b: u128, c: u128, d: u128) -> (r: bool)
    ensures
        r == (a * b >= c * d),
{
    let (x2, x1, x0) = wide_product(a, b);
    let (y2, y1, y0) = wide_product(c, d);
    if x2 != y2 {
        assert(x2 > y2 ==> x2 * (limb() * limb()) >= (y2 + 1) * (limb() * limb())) by (nonlinear_arith);
        assert(y2 > x2 ==> y2 * (limb() * limb()) >= (x2 + 1) * (limb() * limb())) by (nonlinear_arith);
        assert((y2 + 1) * (limb() * limb()) == y2 * (limb() * limb()) + limb() * limb()) by (nonlinear_arith);
        assert((x2 + 1) * (limb() * limb()) == x2 * (limb() * limb()) + limb() * limb()) by (nonlinear_arith);
        x2 > y2
    } else if x1 != y1 {
        x1 > y1
    } else {
        x0 >= y0
    }
}

/// The product of two 64-bit limbs.
fn limb_product(x: u128, y: u128) -> (p: u128)
    requires
        x < limb(),
        y < limb(),
    ensures
        p == x * y,
        p <= 0xffff_ffff_ffff_fffe_0000_0000_0000_0001,
{
    assert(x * y <= 0xffff_ffff_ffff_ffff * 0xffff_ffff_ffff_ffff) by (nonlinear_arith)
        requires
            0 <= x <= 0xffff_ffff_ffff_ffff,
            0 <= y <= 0xffff_ffff_ffff_ffff,
    ;
    x * y
}

/// The product `a * b` as three limbs: `r.0 * 2^128 + r.1 * 2^64 + r.2`.
fn wide_product(a: u128, b: u128) -> (r: (u128, u128, u128))
    ensures
        a * b == r.0 * (limb() * limb()) + r.1 * limb() + r.2,
        r.1 < limb(),
        r.2 < limb(),
{
    let base: u128 = 0x1_0000_0000_0000_0000;
    let ah: u128 = a / base;
    let al: u128 = a % base;
    let bh: u128 = b / base;
    let bl: u128 = b % base;
    let low: u128 = limb_product(al, bl);
    let cross: u128 = limb_product(ah, bl);
    let other: u128 = limb_product(al, bh);
    let top: u128 = limb_product(ah, bh);
    let middle: u128 = cross % base + other % base + low / base;
    let high: u128 = top + cross / base + other / base + middle / base;
    assert(a * b == top * (limb() * limb()) + (cross + other) * limb() + low) by (nonlinear_arith)
        requires
            a == ah * limb() + al,
            b == bh * limb() + bl,
            low == al * bl,
            cross == ah * bl,
            other == al * bh,
            top == ah * bh,
    ;
    assert(a * b == high * (limb() * limb()) + (middle % base) * limb() + low % base)
        by (nonlinear_arith)
        requires
            a * b == top * (limb() * limb()) + (cross + other) * limb() + low,
            middle == cross % base + other % base + low / base,
            high == top + cross / base + other / base + middle / base,
            base == limb(),
            low == (low / base) * base + low % base,
            cross == (cross / base) * base + cross % base,
            other == (other / base) * base + other % base,
            middle == (middle / base) * base + middle % base,
    ;
    (high, middle % base, low % base)
}

} // verus!
