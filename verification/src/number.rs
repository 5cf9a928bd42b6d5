//! Decimal numbers as the preset format writes them.
//!
//! Every value in a preset file is a piece of decimal text, whether it stands
//! for a switch, a count, a menu position or a level. A [`Number`] keeps the
//! value such a text denotes: a sign, a coefficient and a power of ten. The
//! conversions to switches and integers are defined on that value.

use vstd::prelude::*;

verus! {

/// The value denoted by a piece of numeric text.
///
/// A finite number stands for `coefficient * 10^exponent`, negated when
/// `negative` is set. The coefficient holds at most the first 38 significant
/// digits of the text; the exponent saturates at the bounds of `i32`.
#[derive(Clone, Copy, Debug, PartialEq, Eq, Structural)]
pub enum Number {
    Finite { negative: bool, coefficient: u128, exponent: i32 },
    Infinite { negative: bool },
    NotANumber,
}

/// Ten to the power `n`.
pub open spec fn pow10(n: nat) -> nat
    decreases n,
{
    if n == 0 {
        1
    } else {
        10 * pow10((n - 1) as nat)
    }
}

/// The integer part of `c * 10^e`.
pub open spec fn scaled_floor(c: nat, e: int) -> nat {
    if e >= 0 {
        c * pow10(e as nat)
    } else {
        c / pow10((-e) as nat)
    }
}

/// The smaller of two naturals.
pub open spec fn at_most(x: nat, cap: nat) -> nat {
    if x <= cap {
        x
    } else {
        cap
    }
}

/// The largest coefficient bound: ten to the 38th.
pub open spec fn coefficient_limit() -> nat {
    100_000_000_000_000_000_000_000_000_000_000_000_000
}

/// A power of ten is at least one.
pub proof fn lemma_pow10_positive(n: nat)
    ensures
        pow10(n) >= 1,
    decreases n,
{
    if n > 0 {
        lemma_pow10_positive((n - 1) as nat);
    }
}

/// A larger exponent gives a power of ten that is no smaller.
pub proof fn lemma_pow10_monotonic(i: nat, j: nat)
    requires
        i <= j,
    ensures
        pow10(i) <= pow10(j),
    decreases j,
{
    if i < j {
        lemma_pow10_monotonic(i, (j - 1) as nat);
        lemma_pow10_positive((j - 1) as nat);
    }
}

/// The powers of ten that fit a coefficient, written out.
pub proof fn lemma_pow10_values()
    ensures
        pow10(0) == 1,
        pow10(7) == 10_000_000,
        pow10(37) == 10_000_000_000_000_000_000_000_000_000_000_000_000,
        pow10(38) == coefficient_limit(),
        pow10(39) == 10 * coefficient_limit(),
{
    reveal_with_fuel(pow10, 10);
    assert(pow10(7) == 10_000_000);
    assert(pow10(9) == 1_000_000_000);
    assert(pow10(18) == 1_000_000_000 * pow10(9));
    assert(pow10(27) == 1_000_000_000 * pow10(18));
    assert(pow10(36) == 1_000_000_000 * pow10(27));
    assert(pow10(37) == 10 * pow10(36));
    assert(pow10(38) == 10 * pow10(37));
    assert(pow10(39) == 10 * pow10(38));
}

/// Scaling by the zeroth power of ten changes nothing.
proof fn lemma_scaled_none(c: nat)
    ensures
        c * pow10(0) == c,
        c / pow10(0) == c,
{
    let one = pow10(0);
    assert(one == 1);
    assert(c * one == c) by (nonlinear_arith)
        requires
            one == 1,
    ;
    assert(c / one == c) by (nonlinear_arith)
        requires
            one == 1,
    ;
}

/// Scaling by one more power of ten multiplies the product by ten.
proof fn lemma_scaled_step(c: nat, i: nat)
    ensures
        c * pow10(i + 1) == 10 * (c * pow10(i)),
{
    assert(pow10(i + 1) == 10 * pow10(i));
    assert(c * (10 * pow10(i)) == 10 * (c * pow10(i))) by (nonlinear_arith);
}

/// A product with a larger power of ten is no smaller.
proof fn lemma_scaled_monotonic(c: nat, i: nat, j: nat)
    requires
        i <= j,
    ensures
        c * pow10(i) <= c * pow10(j),
{
    lemma_pow10_monotonic(i, j);
    let a = pow10(i);
    let b = pow10(j);
    assert(c * a <= c * b) by (nonlinear_arith)
        requires
            a <= b,
            c >= 0,
    ;
}

/// Dividing by ten once more divides by the next power of ten.
proof fn lemma_floor_step(c: nat, i: nat)
    ensures
        (c / pow10(i)) / 10 == c / pow10(i + 1),
{
    lemma_pow10_positive(i);
    let p = pow10(i) as int;
    vstd::arithmetic::div_mod::lemma_div_denominator(c as int, p, 10);
    assert(pow10(i + 1) == 10 * pow10(i));
    assert(p * 10 == 10 * p);
}

/// A quotient that has reached zero stays zero for every larger power of ten.
proof fn lemma_floor_vanishes(c: nat, i: nat, j: nat)
    requires
        i <= j,
        c / pow10(i) == 0,
    ensures
        c / pow10(j) == 0,
{
    lemma_pow10_positive(i);
    lemma_pow10_monotonic(i, j);
    let p = pow10(i) as int;
    let q = pow10(j) as int;
    vstd::arithmetic::div_mod::lemma_fundamental_div_mod(c as int, p);
    assert(c < p) by (nonlinear_arith)
        requires
            c == p * (c as int / p) + (c as int % p),
            c as int / p == 0,
            0 <= c as int % p < p,
    ;
    vstd::arithmetic::div_mod::lemma_basic_div(c as int, q);
}

/// The integer part of `c * 10^e`, held to at most `cap`.
pub fn floor_capped(c: u128, e: i64, cap: u128) -> (r: u128)
    requires
        cap <= 10_000_000_000_000_000_000_000_000_000_000_000_000,
        e > i64::MIN,
    ensures
        r == at_most(scaled_floor(c as nat, e as int), cap as nat),
{
    if e >= 0 {
        if c > cap {
            proof {
                lemma_scaled_monotonic(c as nat, 0, e as nat);
                lemma_scaled_none(c as nat);
            }
            return cap;
        }
        let mut acc: u128 = c;
        let mut i: i64 = 0;
        proof {
            lemma_scaled_none(c as nat);
        }
        while i < e
            invariant
                0 <= i <= e,
                acc == c * pow10(i as nat),
                acc <= cap,
                cap <= 10_000_000_000_000_000_000_000_000_000_000_000_000,
            decreases e - i,
        {
            if acc == 0 {
                proof {
                    lemma_pow10_positive(i as nat);
                    lemma_pow10_positive(e as nat);
                    let p = pow10(i as nat);
                    let q = pow10(e as nat);
                    assert(c == 0) by (nonlinear_arith)
                        requires
                            c * p == 0,
                            p >= 1,
                            c >= 0,
                    ;
                    assert(c * q == 0) by (nonlinear_arith)
                        requires
                            c == 0,
                    ;
                }
                return 0;
            }
            let next: u128 = acc * 10;
            proof {
                lemma_scaled_step(c as nat, i as nat);
            }
            if next > cap {
                proof {
                    lemma_scaled_monotonic(c as nat, (i + 1) as nat, e as nat);
                }
                return cap;
            }
            acc = next;
            i = i + 1;
        }
        acc
    } else {
        let k: i64 = -e;
        let mut acc: u128 = c;
        let mut i: i64 = 0;
        proof {
            lemma_scaled_none(c as nat);
        }
        while i < k
            invariant
                0 <= i <= k,
                k == -e,
                acc == c as nat / pow10(i as nat),
            decreases k - i,
        {
            if acc == 0 {
                proof {
                    lemma_floor_vanishes(c as nat, i as nat, k as nat);
                }
                return 0;
            }
            proof {
                lemma_floor_step(c as nat, i as nat);
            }
            acc = acc / 10;
            i = i + 1;
        }
        if acc > cap {
            cap
        } else {
            acc
        }
    }
}

/// Ten to the power `k`, for the powers that fit a coefficient.
pub fn power_of_ten(k: u32) -> (r: u128)
    requires
        k <= 38,
    ensures
        r == pow10(k as nat),
{
    let mut r: u128 = 1;
    let mut i: u32 = 0;
    while i < k
        invariant
            i <= k,
            k <= 38,
            r == pow10(i as nat),
        decreases k - i,
    {
        proof {
            lemma_pow10_values();
            lemma_pow10_monotonic(i as nat, 37);
        }
        r = r * 10;
        i = i + 1;
    }
    r
}

/// The exponent `e` held to the range of `i32`.
pub open spec fn clamp_exponent(e: int) -> i32 {
    if e > i32::MAX {
        i32::MAX
    } else if e < i32::MIN {
        i32::MIN
    } else {
        e as i32
    }
}

/// Whether `c * 10^e` lies within one ten-millionth of one:
/// `|c * 10^e - 1| <= 10^-7`, stated over a common denominator.
pub open spec fn within_ten_millionth_of_one(c: nat, e: int) -> bool {
    if e >= 0 {
        c * pow10(e as nat) == 1
    } else {
        let p = pow10((-e) as nat) as int;
        let distance = if c >= p {
            c - p
        } else {
            p - c
        };
        distance * 10_000_000 <= p
    }
}

/// The non-negative number written with the digits of `digits`, the last
/// `places` of them after the decimal point: `digits * 10^-places`.
pub open spec fn decimal_value(digits: u128, places: u8) -> Number {
    Number::Finite { negative: false, coefficient: digits, exponent: (0 - places) as i32 }
}

/// The negative of [`decimal_value`]: `-(digits * 10^-places)`.
pub open spec fn negative_decimal_value(digits: u128, places: u8) -> Number {
    Number::Finite { negative: true, coefficient: digits, exponent: (0 - places) as i32 }
}

/// The non-negative number written with the digits of `digits`, the last
/// `places` of them after the decimal point: `digits * 10^-places`.
#[verifier::when_used_as_spec(decimal_value)]
pub fn decimal(digits: u128, places: u8) -> (r: Number)
    ensures
        r == decimal_value(digits, places),
{
    Number::Finite { negative: false, coefficient: digits, exponent: -(places as i32) }
}

/// The negative number `-(digits * 10^-places)`.
#[verifier::when_used_as_spec(negative_decimal_value)]
pub fn negative_decimal(digits: u128, places: u8) -> (r: Number)
    ensures
        r == negative_decimal_value(digits, places),
{
    Number::Finite { negative: true, coefficient: digits, exponent: -(places as i32) }
}

impl Number {
    /// The value cut off toward zero and held to the range of `u32`.
    /// Negative values and not-a-number give zero.
    pub open spec fn as_u32(self) -> u32 {
        match self {
            Number::Finite { negative, coefficient, exponent } => {
                if negative {
                    0
                } else {
                    at_most(
                        scaled_floor(coefficient as nat, exponent as int),
                        u32::MAX as nat,
                    ) as u32
                }
            },
            Number::Infinite { negative } => {
                if negative {
                    0
                } else {
                    u32::MAX
                }
            },
            Number::NotANumber => 0,
        }
    }

    /// The value cut off toward zero and held to the range of `i32`.
    /// Not-a-number gives zero.
    pub open spec fn as_i32(self) -> i32 {
        match self {
            Number::Finite { negative, coefficient, exponent } => {
                let whole = scaled_floor(coefficient as nat, exponent as int);
                if negative {
                    (-at_most(whole, 0x8000_0000)) as i32
                } else {
                    at_most(whole, i32::MAX as nat) as i32
                }
            },
            Number::Infinite { negative } => {
                if negative {
                    i32::MIN
                } else {
                    i32::MAX
                }
            },
            Number::NotANumber => 0,
        }
    }

    /// Whether the value counts as a switch that is on: it lies within one
    /// ten-millionth of one.
    pub open spec fn as_switch(self) -> bool {
        match self {
            Number::Finite { negative, coefficient, exponent } => {
                !negative && within_ten_millionth_of_one(coefficient as nat, exponent as int)
            },
            _ => false,
        }
    }

    /// The value times one thousand, rounded to the nearest integer (halves
    /// away from zero) and held to the range of `u32`. Negative values and
    /// not-a-number give zero.
    pub open spec fn as_thousandths(self) -> u32 {
        match self {
            Number::Finite { negative, coefficient, exponent } => {
                if negative {
                    0
                } else {
                    let tenths = scaled_floor(coefficient as nat, exponent as int + 4);
                    at_most((tenths + 5) / 10, u32::MAX as nat) as u32
                }
            },
            Number::Infinite { negative } => {
                if negative {
                    0
                } else {
                    u32::MAX
                }
            },
            Number::NotANumber => 0,
        }
    }

    /// The value times one hundred. The exponent saturates.
    pub open spec fn hundredfold(self) -> Number {
        match self {
            Number::Finite { negative, coefficient, exponent } => Number::Finite {
                negative,
                coefficient,
                exponent: clamp_exponent(exponent + 2),
            },
            other => other,
        }
    }

    /// Converts to `u32` as [`Number::as_u32`] defines.
    pub fn to_u32(&self) -> (r: u32)
        ensures
            r == self.as_u32(),
    {
        match *self {
            Number::Finite { negative, coefficient, exponent } => {
                if negative {
                    0
                } else {
                    let whole: u128 = floor_capped(coefficient, exponent as i64, 0xffff_ffff);
                    whole as u32
                }
            },
            Number::Infinite { negative } => {
                if negative {
                    0
                } else {
                    u32::MAX
                }
            },
            Number::NotANumber => 0,
        }
    }

    /// Converts to `i32` as [`Number::as_i32`] defines.
    pub fn to_i32(&self) -> (r: i32)
        ensures
            r == self.as_i32(),
    {
        match *self {
            Number::Finite { negative, coefficient, exponent } => {
                if negative {
                    let whole: u128 = floor_capped(coefficient, exponent as i64, 0x8000_0000);
                    if whole == 0x8000_0000 {
                        i32::MIN
                    } else {
                        -(whole as i32)
                    }
                } else {
                    let whole: u128 = floor_capped(coefficient, exponent as i64, 0x7fff_ffff);
                    whole as i32
                }
            },
            Number::Infinite { negative } => {
                if negative {
                    i32::MIN
                } else {
                    i32::MAX
                }
            },
            Number::NotANumber => 0,
        }
    }

    /// Reads the value as a switch, as [`Number::as_switch`] defines.
    pub fn is_one(&self) -> (r: bool)
        ensures
            r == self.as_switch(),
    {
        match *self {
            Number::Finite { negative, coefficient, exponent } => {
                if negative {
                    false
                } else if exponent >= 0 {
                    proof {
                        lemma_whole_is_one(coefficient as nat, exponent as nat);
                    }
                    coefficient == 1 && exponent == 0
                } else if exponent < -38 {
                    proof {
                        lemma_pow10_values();
                        lemma_pow10_monotonic(39, (-exponent) as nat);
                    }
                    false
                } else {
                    let p: u128 = power_of_ten((-exponent) as u32);
                    let distance: u128 = if coefficient >= p {
                        coefficient - p
                    } else {
                        p - coefficient
                    };
                    distance <= p / 10_000_000
                }
            },
            _ => false,
        }
    }

    /// Converts to thousandths as [`Number::as_thousandths`] defines.
    pub fn thousandths(&self) -> (r: u32)
        ensures
            r == self.as_thousandths(),
    {
        match *self {
            Number::Finite { negative, coefficient, exponent } => {
                if negative {
                    0
                } else {
                    let tenths: u128 = floor_capped(
                        coefficient,
                        exponent as i64 + 4,
                        42_949_672_960,
                    );
                    let rounded: u128 = (tenths + 5) / 10;
                    if rounded > 0xffff_ffff {
                        u32::MAX
                    } else {
                        rounded as u32
                    }
                }
            },
            Number::Infinite { negative } => {
                if negative {
                    0
                } else {
                    u32::MAX
                }
            },
            Number::NotANumber => 0,
        }
    }

    /// Multiplies by one hundred, as [`Number::hundredfold`] defines.
    pub fn times_hundred(&self) -> (r: Number)
        ensures
            r == self.hundredfold(),
    {
        match *self {
            Number::Finite { negative, coefficient, exponent } => {
                let raised: i32 = if exponent > i32::MAX - 2 {
                    i32::MAX
                } else {
                    exponent + 2
                };
                Number::Finite { negative, coefficient, exponent: raised }
            },
            other => other,
        }
    }
}

/// A whole number `c * 10^e` equals one only as `1 * 10^0`.
proof fn lemma_whole_is_one(c: nat, e: nat)
    ensures
        c * pow10(e) == 1 <==> (c == 1 && e == 0),
{
    if e == 0 {
        lemma_scaled_none(c);
    } else {
        lemma_pow10_positive((e - 1) as nat);
        let p = pow10(e);
        assert(p >= 10);
        assert(c * p != 1) by (nonlinear_arith)
            requires
                p >= 10,
                c >= 0,
        ;
    }
}

/// Whether `c` is a decimal digit.
pub open spec fn is_digit(c: char) -> bool {
    '0' <= c && c <= '9'
}

/// The value of the decimal digit `c`.
pub open spec fn digit_value(c: char) -> nat {
    (c as int - '0' as int) as nat
}

/// Whether `c` is a plus or minus sign.
pub open spec fn is_sign(c: char) -> bool {
    c == '+' || c == '-'
}

/// Whether `c` is the lower-case letter `letter` or its upper-case form.
pub open spec fn is_letter(c: char, letter: char) -> bool {
    c == letter || c as int + 32 == letter as int
}

/// The first position at or after `from` that holds no digit.
pub open spec fn digits_end(s: Seq<char>, from: int) -> int
    decreases s.len() - from,
{
    if 0 <= from < s.len() && is_digit(s[from]) {
        digits_end(s, from + 1)
    } else {
        from
    }
}

/// The number read by appending the digits `s[from..to]` to the digits of
/// `before`.
pub open spec fn appended(before: nat, s: Seq<char>, from: int, to: int) -> nat
    decreases to - from,
{
    if to <= from {
        before
    } else {
        appended(before, s, from, to - 1) * 10 + digit_value(s[to - 1])
    }
}

/// How many trailing digits a coefficient loses to fit below
/// [`coefficient_limit`].
pub open spec fn chop_shift(m: nat) -> nat
    decreases m,
{
    if m < coefficient_limit() {
        0
    } else {
        1 + chop_shift(m / 10)
    }
}

/// Where the text proper starts: after one leading sign, if there is one.
pub open spec fn body_start(s: Seq<char>) -> int {
    if s.len() > 0 && is_sign(s[0]) {
        1
    } else {
        0
    }
}

/// Whether the text from `start` on spells "inf" or "infinity".
pub open spec fn spells_infinity(s: Seq<char>, start: int) -> bool {
    let short = s.len() - start == 3;
    let long = s.len() - start == 8;
    &&& short || long
    &&& is_letter(s[start], 'i')
    &&& is_letter(s[start + 1], 'n')
    &&& is_letter(s[start + 2], 'f')
    &&& long ==> {
        &&& is_letter(s[start + 3], 'i')
        &&& is_letter(s[start + 4], 'n')
        &&& is_letter(s[start + 5], 'i')
        &&& is_letter(s[start + 6], 't')
        &&& is_letter(s[start + 7], 'y')
    }
}

/// Whether the text from `start` on spells "nan".
pub open spec fn spells_nan(s: Seq<char>, start: int) -> bool {
    &&& s.len() - start == 3
    &&& is_letter(s[start], 'n')
    &&& is_letter(s[start + 1], 'a')
    &&& is_letter(s[start + 2], 'n')
}

/// The parts of a decimal text: a run of integer digits, an optional point
/// with a run of fraction digits, and an optional exponent.
pub struct Layout {
    pub int_start: int,
    pub int_end: int,
    pub frac_start: int,
    pub frac_end: int,
    pub has_exponent: bool,
    pub exponent_negative: bool,
    pub exp_start: int,
    pub exp_end: int,
}

/// The parts of `s` read as a decimal from `start` on.
pub open spec fn layout(s: Seq<char>, start: int) -> Layout {
    let int_end = digits_end(s, start);
    let frac_start = if int_end < s.len() && s[int_end] == '.' {
        int_end + 1
    } else {
        int_end
    };
    let frac_end = digits_end(s, frac_start);
    let has_exponent = frac_end < s.len() && is_letter(s[frac_end], 'e');
    let signed = frac_end + 1 < s.len() && is_sign(s[frac_end + 1]);
    let exp_start = if signed {
        frac_end + 2
    } else {
        frac_end + 1
    };
    Layout {
        int_start: start,
        int_end,
        frac_start,
        frac_end,
        has_exponent,
        exponent_negative: signed && s[frac_end + 1] == '-',
        exp_start,
        exp_end: digits_end(s, exp_start),
    }
}

impl Layout {
    /// Whether the parts make up all of `s` and form a decimal: at least
    /// one digit before the exponent, and at least one in the exponent if
    /// there is one.
    pub open spec fn well_formed(self, s: Seq<char>) -> bool {
        &&& (self.int_end - self.int_start) + (self.frac_end - self.frac_start) >= 1
        &&& if self.has_exponent {
            self.exp_start < self.exp_end && self.exp_end == s.len()
        } else {
            self.frac_end == s.len()
        }
    }

    /// All digits before the exponent, read as one natural number.
    pub open spec fn digits(self, s: Seq<char>) -> nat {
        appended(
            appended(0, s, self.int_start, self.int_end),
            s,
            self.frac_start,
            self.frac_end,
        )
    }

    /// The power of ten by which [`Layout::digits`] is to be multiplied.
    pub open spec fn power(self, s: Seq<char>) -> int {
        let written = if !self.has_exponent {
            0
        } else if self.exponent_negative {
            -(appended(0, s, self.exp_start, self.exp_end) as int)
        } else {
            appended(0, s, self.exp_start, self.exp_end) as int
        };
        written - (self.frac_end - self.frac_start)
    }

    /// The number that the decimal denotes: the digits cut to the
    /// coefficient's capacity, the exponent raised by the digits cut.
    pub open spec fn number(self, s: Seq<char>, negative: bool) -> Number {
        let shift = chop_shift(self.digits(s));
        Number::Finite {
            negative,
            coefficient: (self.digits(s) / pow10(shift)) as u128,
            exponent: clamp_exponent(self.power(s) + shift),
        }
    }
}

/// The number that a text denotes, if it is numeric text.
///
/// Numeric text is an optional sign followed by a decimal (digits with an
/// optional point and an optional exponent) or by one of the words "inf",
/// "infinity" and "nan" in letters of either case. Nothing may stand before
/// or after it.
pub open spec fn number_of_text(s: Seq<char>) -> Option<Number> {
    let start = body_start(s);
    let negative = s.len() > 0 && s[0] == '-';
    if spells_infinity(s, start) {
        Some(Number::Infinite { negative })
    } else if spells_nan(s, start) {
        Some(Number::NotANumber)
    } else if layout(s, start).well_formed(s) {
        Some(layout(s, start).number(s, negative))
    } else {
        None
    }
}

/// Whether `acc` and `dropped` hold the digits `v` cut to the coefficient's
/// capacity.
pub open spec fn chopped(v: nat, acc: u128, dropped: nat) -> bool {
    &&& dropped == chop_shift(v)
    &&& acc == v / pow10(dropped)
}

/// A cut coefficient is below the limit, and fills the capacity if anything
/// was cut.
proof fn lemma_chop_bounds(v: nat)
    ensures
        v / pow10(chop_shift(v)) < coefficient_limit(),
        chop_shift(v) > 0 ==> v / pow10(chop_shift(v)) >= coefficient_limit() / 10,
    decreases v,
{
    if v < coefficient_limit() {
        lemma_scaled_none(v);
    } else {
        let rest = chop_shift(v / 10);
        lemma_chop_bounds(v / 10);
        lemma_pow10_positive(rest);
        vstd::arithmetic::div_mod::lemma_div_denominator(v as int, 10, pow10(rest) as int);
        assert(pow10(rest + 1) == 10 * pow10(rest));
        assert(v / pow10(rest + 1) == (v / 10) / pow10(rest));
        if rest == 0 {
            lemma_scaled_none(v / 10);
        }
    }
}

/// Appending one digit to cut digits: it joins the coefficient while there
/// is room, and is dropped once the capacity is filled.
proof fn lemma_chop_append(v: nat, acc: u128, dropped: nat, d: nat)
    requires
        chopped(v, acc, dropped),
        d < 10,
    ensures
        acc < coefficient_limit(),
        acc < coefficient_limit() / 10 ==> chopped(v * 10 + d, (acc * 10 + d) as u128, 0),
        acc >= coefficient_limit() / 10 ==> chopped(v * 10 + d, acc, dropped + 1),
{
    lemma_chop_bounds(v);
    lemma_pow10_positive(dropped);
    let next = v * 10 + d;
    if acc < coefficient_limit() / 10 {
        assert(dropped == 0);
        lemma_scaled_none(v);
        lemma_scaled_none(next);
        assert(next < coefficient_limit());
    } else {
        let p = pow10(dropped) as int;
        assert(v >= acc) by (nonlinear_arith)
            requires
                acc == v as int / p,
                p >= 1,
                v >= 0,
        ;
        assert(next >= coefficient_limit());
        assert(next / 10 == v);
        vstd::arithmetic::div_mod::lemma_div_denominator(next as int, 10, p);
        assert(pow10(dropped + 1) == 10 * pow10(dropped));
    }
}

/// The digit that `c` stands for, if it is one.
fn digit_of(c: char) -> (r: Option<u8>)
    ensures
        r is Some <==> is_digit(c),
        r is Some ==> r->0 == digit_value(c) && r->0 < 10,
{
    if '0' <= c && c <= '9' {
        let d: u32 = c as u32 - 48;
        Some(d as u8)
    } else {
        None
    }
}

/// Whether `c` is `letter` in either case, for a lower-case `letter`.
fn letter_matches(c: char, letter: char) -> (r: bool)
    ensures
        r == is_letter(c, letter),
{
    c == letter || c as u32 + 32 == letter as u32
}

/// Reads the run of digits that starts at `from`, appending them to the
/// cut digits `(acc, dropped)` of `before`. Returns where the run ends and
/// the cut digits of the whole.
fn scan_digits(
    s: &Vec<char>,
    from: usize,
    acc: u128,
    dropped: usize,
    Ghost(before): Ghost<nat>,
) -> (r: (usize, u128, usize))
    requires
        from <= s.len(),
        dropped <= from,
        chopped(before, acc, dropped as nat),
    ensures
        r.0 == digits_end(s@, from as int),
        from <= r.0 <= s.len(),
        r.2 <= r.0,
        chopped(appended(before, s@, from as int, r.0 as int), r.1, r.2 as nat),
{
    let mut i: usize = from;
    let mut acc: u128 = acc;
    let mut dropped: usize = dropped;
    while i < s.len()
        invariant
            from <= i <= s.len(),
            dropped <= i,
            digits_end(s@, from as int) == digits_end(s@, i as int),
            chopped(appended(before, s@, from as int, i as int), acc, dropped as nat),
        decreases s.len() - i,
    {
        match digit_of(s[i]) {
            Some(d) => {
                proof {
                    lemma_chop_append(
                        appended(before, s@, from as int, i as int),
                        acc,
                        dropped as nat,
                        d as nat,
                    );
                }
                if acc < 10_000_000_000_000_000_000_000_000_000_000_000_000 {
                    acc = acc * 10 + d as u128;
                    dropped = 0;
                } else {
                    dropped = dropped + 1;
                }
                i = i + 1;
            },
            None => {
                return (i, acc, dropped);
            },
        }
    }
    (i, acc, dropped)
}

/// The largest exponent magnitude that is read exactly; any larger one is
/// held at this value, far beyond the range of `i32`.
pub open spec fn exponent_ceiling() -> nat {
    0x40_0000_0000_0000_0000
}

/// Reads the run of exponent digits that starts at `from`. Returns where the
/// run ends and its value, held to [`exponent_ceiling`].
fn scan_exponent(s: &Vec<char>, from: usize) -> (r: (usize, u128))
    requires
        from <= s.len(),
    ensures
        r.0 == digits_end(s@, from as int),
        from <= r.0 <= s.len(),
        r.1 == at_most(appended(0, s@, from as int, r.0 as int), exponent_ceiling()),
{
    let mut i: usize = from;
    let mut acc: u128 = 0;
    while i < s.len()
        invariant
            from <= i <= s.len(),
            digits_end(s@, from as int) == digits_end(s@, i as int),
            acc == at_most(appended(0, s@, from as int, i as int), exponent_ceiling()),
        decreases s.len() - i,
    {
        match digit_of(s[i]) {
            Some(d) => {
                let next: u128 = acc * 10 + d as u128;
                acc = if next > 0x40_0000_0000_0000_0000 {
                    0x40_0000_0000_0000_0000
                } else {
                    next
                };
                i = i + 1;
            },
            None => {
                return (i, acc);
            },
        }
    }
    (i, acc)
}

/// The characters of a text, in order.
fn characters(text: &str) -> (v: Vec<char>)
    ensures
        v@ == text@,
{
    let mut v: Vec<char> = Vec::new();
    for c in it: text.chars()
        invariant
            v@ == it.seq().take(it.index() as int),
            it.seq() == text@,
    {
        v.push(c);
    }
    v
}

/// Whether the text from `start` on spells "inf" or "infinity".
fn is_infinity_word(s: &Vec<char>, start: usize) -> (r: bool)
    requires
        start <= s.len(),
    ensures
        r == spells_infinity(s@, start as int),
{
    let rest: usize = s.len() - start;
    if rest != 3 && rest != 8 {
        return false;
    }
    if !(letter_matches(s[start], 'i') && letter_matches(s[start + 1], 'n') && letter_matches(
        s[start + 2],
        'f',
    )) {
        return false;
    }
    if rest == 3 {
        return true;
    }
    letter_matches(s[start + 3], 'i') && letter_matches(s[start + 4], 'n') && letter_matches(
        s[start + 5],
        'i',
    ) && letter_matches(s[start + 6], 't') && letter_matches(s[start + 7], 'y')
}

/// Whether the text from `start` on spells "nan".
fn is_nan_word(s: &Vec<char>, start: usize) -> (r: bool)
    requires
        start <= s.len(),
    ensures
        r == spells_nan(s@, start as int),
{
    if s.len() - start != 3 {
        return false;
    }
    letter_matches(s[start], 'n') && letter_matches(s[start + 1], 'a') && letter_matches(
        s[start + 2],
        'n',
    )
}

/// Holding an exponent's magnitude at the ceiling does not change the
/// exponent that results, the lengths of a text being what they are.
proof fn lemma_ceiling_is_harmless(magnitude: nat, held: nat, fraction: int, dropped: int)
    requires
        held == at_most(magnitude, exponent_ceiling()),
        0 <= fraction <= u64::MAX,
        0 <= dropped <= u64::MAX,
    ensures
        clamp_exponent(magnitude - fraction + dropped) == clamp_exponent(held - fraction + dropped),
        clamp_exponent(-(magnitude as int) - fraction + dropped) == clamp_exponent(
            -(held as int) - fraction + dropped,
        ),
{
}

/// Reads the exponent that may follow the digits of a decimal, which end at
/// `at`. Gives `None` where what follows is no exponent and not the end of
/// the text; else the exponent, its magnitude held to the ceiling.
fn scan_power(s: &Vec<char>, at: usize, Ghost(start): Ghost<int>) -> (r: Option<i128>)
    requires
        at <= s.len(),
        layout(s@, start).frac_end == at,
    ensures
        ({
            let parts = layout(s@, start);
            let magnitude = appended(0, s@, parts.exp_start, parts.exp_end);
            let held = at_most(magnitude, exponent_ceiling()) as int;
            if parts.has_exponent {
                if parts.exp_start < parts.exp_end && parts.exp_end == s.len() {
                    r == Some(
                        if parts.exponent_negative {
                            (-held) as i128
                        } else {
                            held as i128
                        },
                    )
                } else {
                    r is None
                }
            } else {
                if at == s.len() {
                    r == Some(0i128)
                } else {
                    r is None
                }
            }
        }),
{
    let n: usize = s.len();
    if at < n && letter_matches(s[at], 'e') {
        let mut exp_start: usize = at + 1;
        let mut exponent_negative = false;
        if exp_start < n && (s[exp_start] == '+' || s[exp_start] == '-') {
            exponent_negative = s[exp_start] == '-';
            exp_start = exp_start + 1;
        }
        let (exp_end, magnitude) = scan_exponent(s, exp_start);
        if exp_end == exp_start || exp_end != n {
            return None;
        }
        if exponent_negative {
            Some(-(magnitude as i128))
        } else {
            Some(magnitude as i128)
        }
    } else if at != n {
        None
    } else {
        Some(0)
    }
}

/// Reads the decimal that starts at `start`, if the text from there on is
/// one.
fn parse_decimal(s: &Vec<char>, start: usize, negative: bool) -> (r: Option<Number>)
    requires
        start <= s.len(),
    ensures
        r == if layout(s@, start as int).well_formed(s@) {
            Some(layout(s@, start as int).number(s@, negative))
        } else {
            None
        },
{
    let n: usize = s.len();
    let ghost parts = layout(s@, start as int);
    proof {
        lemma_scaled_none(0);
    }
    let (int_end, acc, dropped) = scan_digits(s, start, 0, 0, Ghost(0));
    let frac_start: usize = if int_end < n && s[int_end] == '.' {
        int_end + 1
    } else {
        int_end
    };
    assert(int_end == parts.int_end && frac_start == parts.frac_start);
    let (frac_end, acc, dropped) = scan_digits(
        s,
        frac_start,
        acc,
        dropped,
        Ghost(appended(0, s@, start as int, int_end as int)),
    );
    assert(frac_end == parts.frac_end);
    assert(chopped(parts.digits(s@), acc, dropped as nat));
    if (int_end - start) + (frac_end - frac_start) == 0 {
        return None;
    }
    match scan_power(s, frac_end, Ghost(start as int)) {
        None => None,
        Some(written) => {
            let power: i128 = written - (frac_end - frac_start) as i128 + dropped as i128;
            let exponent: i32 = if power > i32::MAX as i128 {
                i32::MAX
            } else if power < i32::MIN as i128 {
                i32::MIN
            } else {
                power as i32
            };
            proof {
                let magnitude = appended(0, s@, parts.exp_start, parts.exp_end);
                lemma_ceiling_is_harmless(
                    magnitude,
                    at_most(magnitude, exponent_ceiling()),
                    frac_end - frac_start,
                    dropped as int,
                );
                assert(exponent == clamp_exponent(parts.power(s@) + dropped));
            }
            Some(Number::Finite { negative, coefficient: acc, exponent })
        },
    }
}

impl Number {
    /// Reads a number from text. Gives `None` exactly for text that is not
    /// numeric, as [`number_of_text`] defines.
    pub fn parse(text: &str) -> (r: Option<Number>)
        ensures
            r == number_of_text(text@),
    {
        let s = characters(text);
        let n: usize = s.len();
        let mut start: usize = 0;
        let mut negative = false;
        if n > 0 && (s[0] == '+' || s[0] == '-') {
            negative = s[0] == '-';
            start = 1;
        }
        assert(start == body_start(s@));
        if is_infinity_word(&s, start) {
            return Some(Number::Infinite { negative });
        }
        if is_nan_word(&s, start) {
            return Some(Number::NotANumber);
        }
        parse_decimal(&s, start, negative)
    }
}

} // verus!
