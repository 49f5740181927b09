//! Fixed-point decimal amounts, held as a signed mantissa and a scale (the
//! number of fractional digits), with the arithmetic of `rust_decimal`.
use rust_decimal::Decimal;
use vstd::prelude::*;

verus! {

/// Largest magnitude of a mantissa: `2^96 - 1`.
pub const MAX_MANTISSA: i128 = 79_228_162_514_264_337_593_543_950_335;

/// Largest scale: an amount has at most this many fractional digits.
pub const MAX_SCALE: u32 = 28;

/// `10^n`.
pub open spec fn pow10(n: nat) -> int
    decreases n,
{
    if n == 0 {
        1
    } else {
        10 * pow10((n - 1) as nat)
    }
}

/// A decimal number `mantissa / 10^scale`.
#[derive(Clone, Copy, Debug, PartialEq, Eq, Structural)]
pub struct Amount {
    pub mantissa: i128,
    pub scale: u32,
}

/// What `Decimal::checked_add` returns on the two decimals.
pub uninterp spec fn decimal_sum(a: Amount, b: Amount) -> Option<Amount>;

/// What `Decimal::checked_sub` returns on the two decimals.
pub uninterp spec fn decimal_difference(a: Amount, b: Amount) -> Option<Amount>;

impl Amount {
    /// The mantissa fits in 96 bits and the scale is at most 28.
    pub open spec fn wf(self) -> bool {
        -MAX_MANTISSA <= self.mantissa <= MAX_MANTISSA && self.scale <= MAX_SCALE
    }

    /// The exact value, counted in units of `10^-28`.
    pub open spec fn value(self) -> int {
        self.mantissa * pow10((MAX_SCALE - self.scale) as nat)
    }

    /// The mantissa this amount has when written with `s` fractional digits (`s >= scale`).
    pub open spec fn mantissa_at(self, s: nat) -> int {
        self.mantissa * pow10((s - self.scale) as nat)
    }

    /// Zero.
    pub fn zero() -> (r: Amount)
        ensures
            r.wf(),
            r.value() == 0,
            r == (Amount { mantissa: 0, scale: 0 }),
    {
        Amount { mantissa: 0, scale: 0 }
    }

    /// The amount `mantissa / 10^scale`, or `None` where that is out of range.
    pub fn new(mantissa: i128, scale: u32) -> (r: Option<Amount>)
        ensures
            r is Some <==> (Amount { mantissa, scale }).wf(),
            r is Some ==> r->0 == (Amount { mantissa, scale }),
    {
        if -MAX_MANTISSA <= mantissa && mantissa <= MAX_MANTISSA && scale <= MAX_SCALE {
            Some(Amount { mantissa, scale })
        } else {
            None
        }
    }

    pub fn mantissa(&self) -> (r: i128)
        ensures
            r == self.mantissa,
    {
        self.mantissa
    }

    pub fn scale(&self) -> (r: u32)
        ensures
            r == self.scale,
    {
        self.scale
    }

    /// Whether the amount is greater than zero.
    pub fn is_positive(&self) -> (r: bool)
        requires
            self.wf(),
        ensures
            r == (self.value() > 0),
    {
        proof {
            lemma_sign_of_value(*self);
        }
        self.mantissa > 0
    }
}

/// The value of an amount has the sign of its mantissa.
pub proof fn lemma_sign_of_value(a: Amount)
    requires
        a.wf(),
    ensures
        a.mantissa > 0 <==> a.value() > 0,
        a.mantissa == 0 <==> a.value() == 0,
        a.mantissa < 0 <==> a.value() < 0,
{
    lemma_pow10_positive((MAX_SCALE - a.scale) as nat);
    let p = pow10((MAX_SCALE - a.scale) as nat);
    assert(a.value() == a.mantissa * p);
    if a.mantissa > 0 {
        assert(a.mantissa * p > 0) by (nonlinear_arith)
            requires
                a.mantissa > 0,
                p > 0,
        ;
    } else if a.mantissa < 0 {
        assert(a.mantissa * p < 0) by (nonlinear_arith)
            requires
                a.mantissa < 0,
                p > 0,
        ;
    } else {
        assert(a.mantissa * p == 0);
    }
}

pub proof fn lemma_pow10_positive(n: nat)
    ensures
        pow10(n) > 0,
    decreases n,
{
    if n > 0 {
        lemma_pow10_positive((n - 1) as nat);
    }
}

/// Two amounts of equal value can be written at the larger of their scales,
/// where their difference is zero.
pub proof fn lemma_equal_values_subtract_to_zero(a: Amount, b: Amount)
    requires
        a.wf(),
        b.wf(),
        a.value() == b.value(),
    ensures
        difference_fits(a, b),
{
    let s = common_scale(a, b);
    lemma_pow10_add((s - a.scale) as nat, (MAX_SCALE - s) as nat);
    lemma_pow10_add((s - b.scale) as nat, (MAX_SCALE - s) as nat);
    let q = pow10((MAX_SCALE - s) as nat);
    lemma_pow10_positive((MAX_SCALE - s) as nat);
    let pa = pow10((s - a.scale) as nat);
    let pb = pow10((s - b.scale) as nat);
    assert(a.value() == (a.mantissa * pa) * q) by (nonlinear_arith)
        requires
            a.value() == a.mantissa * (pa * q),
    {
    }
    assert(b.value() == (b.mantissa * pb) * q) by (nonlinear_arith)
        requires
            b.value() == b.mantissa * (pb * q),
    {
    }
    assert(a.mantissa * pa == b.mantissa * pb) by (nonlinear_arith)
        requires
            (a.mantissa * pa) * q == (b.mantissa * pb) * q,
            q > 0,
    {
    }
    if a.scale >= b.scale {
        assert(pa == 1);
    } else {
        assert(pb == 1);
    }
}

/// `10^(m + n) == 10^m * 10^n`.
pub proof fn lemma_pow10_add(m: nat, n: nat)
    ensures
        pow10(m + n) == pow10(m) * pow10(n),
    decreases m,
{
    if m > 0 {
        lemma_pow10_add((m - 1) as nat, n);
        assert(pow10(m + n) == 10 * pow10((m - 1 + n) as nat));
        assert(10 * (pow10((m - 1) as nat) * pow10(n)) == (10 * pow10((m - 1) as nat)) * pow10(n))
            by (nonlinear_arith);
    }
}

/// The larger of the two scales.
pub open spec fn common_scale(a: Amount, b: Amount) -> nat {
    if a.scale >= b.scale {
        a.scale as nat
    } else {
        b.scale as nat
    }
}

pub open spec fn fits_mantissa(m: int) -> bool {
    -MAX_MANTISSA <= m <= MAX_MANTISSA
}

/// Both amounts and their sum can be written with the larger of their scales.
pub open spec fn sum_fits(a: Amount, b: Amount) -> bool {
    let s = common_scale(a, b);
    &&& fits_mantissa(a.mantissa_at(s))
    &&& fits_mantissa(b.mantissa_at(s))
    &&& fits_mantissa(a.mantissa_at(s) + b.mantissa_at(s))
}

/// Both amounts and their difference can be written with the larger of their scales.
pub open spec fn difference_fits(a: Amount, b: Amount) -> bool {
    let s = common_scale(a, b);
    &&& fits_mantissa(a.mantissa_at(s))
    &&& fits_mantissa(b.mantissa_at(s))
    &&& fits_mantissa(a.mantissa_at(s) - b.mantissa_at(s))
}

/// Units of `10^-28` in `2^96`: no amount reaches this value.
pub open spec fn overflow_value() -> int {
    (MAX_MANTISSA + 1) * pow10(MAX_SCALE as nat)
}

/// The decimal sum is the exact sum.
pub open spec fn adds_exactly(a: Amount, b: Amount) -> bool {
    decimal_sum(a, b) matches Some(r) && r.value() == a.value() + b.value()
}

/// The decimal difference is the exact difference.
pub open spec fn subtracts_exactly(a: Amount, b: Amount) -> bool {
    decimal_difference(a, b) matches Some(r) && r.value() == a.value() - b.value()
}

/// Relies on `Decimal::checked_add`: the sum is exact wherever it can be written
/// at the larger scale of the two, the result is a valid decimal, and a sum of
/// two non-negative numbers is non-negative, or `None` where it reaches `2^96`.
#[verifier::external_body]
pub(crate) fn checked_add(a: Amount, b: Amount) -> (r: Option<Amount>)
    requires
        a.wf(),
        b.wf(),
    ensures
        r == decimal_sum(a, b),
        r is Some ==> r->0.wf(),
        sum_fits(a, b) ==> (r is Some && r->0.value() == a.value() + b.value()),
        a.value() >= 0 && b.value() >= 0 ==> (r is Some ==> r->0.value() >= 0),
        a.value() >= 0 && b.value() >= 0 && a.value() + b.value() >= overflow_value() ==> r is None,
{
    let x = Decimal::from_i128_with_scale(a.mantissa, a.scale);
    let y = Decimal::from_i128_with_scale(b.mantissa, b.scale);
    match x.checked_add(y) {
        Some(d) => Some(Amount { mantissa: d.mantissa(), scale: d.scale() }),
        None => None,
    }
}

/// Relies on `Decimal::checked_sub`: the difference is exact wherever it can be
/// written at the larger scale of the two, the result is a valid decimal, and
/// it is non-negative where `a >= b`.
#[verifier::external_body]
pub(crate) fn checked_sub(a: Amount, b: Amount) -> (r: Option<Amount>)
    requires
        a.wf(),
        b.wf(),
    ensures
        r == decimal_difference(a, b),
        r is Some ==> r->0.wf(),
        difference_fits(a, b) ==> (r is Some && r->0.value() == a.value() - b.value()),
        a.value() >= b.value() ==> (r is Some ==> r->0.value() >= 0),
{
    let x = Decimal::from_i128_with_scale(a.mantissa, a.scale);
    let y = Decimal::from_i128_with_scale(b.mantissa, b.scale);
    match x.checked_sub(y) {
        Some(d) => Some(Amount { mantissa: d.mantissa(), scale: d.scale() }),
        None => None,
    }
}

/// Relies on `Decimal`'s ordering, which compares the values of the numbers.
#[verifier::external_body]
pub(crate) fn less_than(a: Amount, b: Amount) -> (r: bool)
    requires
        a.wf(),
        b.wf(),
    ensures
        r == (a.value() < b.value()),
{
    Decimal::from_i128_with_scale(a.mantissa, a.scale) < Decimal::from_i128_with_scale(
        b.mantissa,
        b.scale,
    )
}

} // verus!
