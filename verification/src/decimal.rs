//! Fixed-point decimal arithmetic with 18 fractional digits.
//!
//! A `Dec` stores a non-negative number as an integer count of atomic units
//! of `1e-18`, so the represented value is `atomics / FRAC`.  Every
//! operation is exact over the atomics: multiplication and division state
//! their results as floor divisions over unbounded integers, and report
//! overflow explicitly instead of wrapping or panicking.

use vstd::prelude::*;
use vstd::arithmetic::div_mod::{
    lemma_fundamental_div_mod, lemma_fundamental_div_mod_converse, lemma_hoist_over_denominator,
};
use vstd::arithmetic::mul::{
    lemma_mul_inequality, lemma_mul_nonnegative, lemma_mul_strict_inequality,
    lemma_mul_strict_inequality_converse, lemma_mul_upper_bound,
};

verus! {

/// Number of atomic units in 1.0: the decimal has 18 fractional digits.
pub const FRAC: u128 = 1_000_000_000_000_000_000;

/// A non-negative fixed-point decimal: the represented value is
/// `atomics / FRAC`.
#[derive(Clone, Copy, Debug, PartialEq, Eq, Structural)]
pub struct Dec {
    pub atomics: u128,
}

/// Atomics of the product `a * b` of two decimals given by their atomics:
/// `(a/FRAC) * (b/FRAC) == (a*b/FRAC) / FRAC`, rounded down.
pub open spec fn mul_atomics(a: int, b: int) -> int {
    (a * b) / (FRAC as int)
}

/// Atomics of the quotient `a / b` of two decimals given by their atomics:
/// `(a/FRAC) / (b/FRAC) == (a*FRAC/b) / FRAC`, rounded down.
pub open spec fn div_atomics(a: int, b: int) -> int {
    (a * (FRAC as int)) / b
}

/// `10^n`, used to relate the digit-by-digit division loop to `FRAC`.
pub open spec fn pow10(n: nat) -> nat
    decreases n,
{
    if n == 0 {
        1
    } else {
        10 * pow10((n - 1) as nat)
    }
}

proof fn lemma_pow10_18_is_frac()
    ensures
        pow10(18) == FRAC,
{
    reveal_with_fuel(pow10, 19);
}

proof fn lemma_pow10_increases(i: nat, j: nat)
    requires
        i <= j,
    ensures
        pow10(i) <= pow10(j),
    decreases j,
{
    if i < j {
        lemma_pow10_increases(i, (j - 1) as nat);
    }
}

/// One doubling step of the long division: `(q, rem)` stands for the value
/// `q * denom + rem` with `rem < denom`; the result stands for twice that
/// value, still reduced modulo `denom`.
fn double_step(q: u128, rem: u128, denom: u128) -> (res: (u128, u128))
    requires
        0 < denom,
        rem < denom,
        q < 0x4000_0000_0000_0000_0000_0000_0000_0000u128,
    ensures
        res.0 * denom + res.1 == 2 * (q * denom + rem),
        res.1 < denom,
        res.0 <= 2 * q + 1,
{
    let room = denom - rem;
    if rem >= room {
        let res = (2 * q + 1, rem - room);
        proof {
            assert((2 * q + 1) * denom == 2 * (q * denom) + denom) by (nonlinear_arith);
        }
        res
    } else {
        let res = (2 * q, rem + rem);
        proof {
            assert((2 * q) * denom == 2 * (q * denom)) by (nonlinear_arith);
        }
        res
    }
}

/// Adds two reduced `(q, rem)` pairs over the same divisor, reducing the
/// remainder again.
fn add_step(q1: u128, rem1: u128, q2: u128, rem2: u128, denom: u128) -> (res: (u128, u128))
    requires
        0 < denom,
        rem1 < denom,
        rem2 < denom,
        q1 + q2 + 1 <= u128::MAX,
    ensures
        res.0 * denom + res.1 == q1 * denom + rem1 + q2 * denom + rem2,
        res.1 < denom,
        res.0 <= q1 + q2 + 1,
{
    let room = denom - rem1;
    if rem2 >= room {
        let res = (q1 + q2 + 1, rem2 - room);
        proof {
            assert((q1 + q2 + 1) * denom == q1 * denom + q2 * denom + denom) by (nonlinear_arith);
        }
        res
    } else {
        let res = (q1 + q2, rem1 + rem2);
        proof {
            assert((q1 + q2) * denom == q1 * denom + q2 * denom) by (nonlinear_arith);
        }
        res
    }
}

/// `r * FRAC / denom` for `r < denom`: the fractional digits of `r / denom`,
/// computed by schoolbook long division, one decimal digit per round.
fn rem_frac_div(r: u128, denom: u128) -> (res: u128)
    requires
        0 < denom,
        r < denom,
    ensures
        res == (r * (FRAC as int)) / (denom as int),
        res < FRAC,
{
    let mut q: u128 = 0;
    let mut rem: u128 = r;
    let mut i: u64 = 0;
    proof {
        lemma_pow10_18_is_frac();
        assert(pow10(0) == 1);
        assert(q * denom + rem == r * pow10(0)) by (nonlinear_arith)
            requires
                q == 0 && rem == r && pow10(0) == 1,
        ;
    }
    while i < 18
        invariant
            0 < denom,
            r < denom,
            rem < denom,
            i <= 18,
            pow10(18) == FRAC,
            q * denom + rem == r * pow10(i as nat),
        decreases 18 - i,
    {
        proof {
            // q stays below FRAC: q * denom <= r * pow10(i) < denom * FRAC.
            lemma_pow10_increases(i as nat, 18);
            lemma_mul_upper_bound(r as int, denom - 1, pow10(i as nat) as int, FRAC as int);
            lemma_mul_strict_inequality(denom - 1, denom as int, FRAC as int);
            assert(q * denom < denom * FRAC);
            lemma_mul_strict_inequality_converse(q as int, FRAC as int, denom as int);
            assert(q < FRAC);
        }
        let (q2, rem2) = double_step(q, rem, denom);
        let (q4, rem4) = double_step(q2, rem2, denom);
        let (q8, rem8) = double_step(q4, rem4, denom);
        let (q10, rem10) = add_step(q8, rem8, q2, rem2, denom);
        proof {
            assert(q10 * denom + rem10 == 10 * (q * denom + rem));
            assert(pow10((i + 1) as nat) == 10 * pow10(i as nat));
            assert(r * (10 * pow10(i as nat)) == 10 * (r * pow10(i as nat)))
                by (nonlinear_arith);
        }
        q = q10;
        rem = rem10;
        i = i + 1;
    }
    proof {
        lemma_mul_upper_bound(r as int, denom - 1, FRAC as int, FRAC as int);
        lemma_mul_strict_inequality(denom - 1, denom as int, FRAC as int);
        assert(q * denom < denom * FRAC);
        lemma_mul_strict_inequality_converse(q as int, FRAC as int, denom as int);
        lemma_fundamental_div_mod_converse(
            r * (FRAC as int),
            denom as int,
            q as int,
            rem as int,
        );
    }
    q
}

/// `num * FRAC / denom` rounded down, or `None` when the exact result does
/// not fit in a `u128`.  This is the shared core of decimal division and of
/// ratio construction.
fn div_shift_up(num: u128, denom: u128) -> (res: Option<u128>)
    requires
        0 < denom,
    ensures
        match res {
            Some(v) => v == (num * (FRAC as int)) / (denom as int),
            None => (num * (FRAC as int)) / (denom as int) > u128::MAX,
        },
{
    let q0 = num / denom;
    let r0 = num % denom;
    let fr = rem_frac_div(r0, denom);
    proof {
        lemma_fundamental_div_mod(num as int, denom as int);
        // num * FRAC / denom == q0 * FRAC + (r0 * FRAC) / denom
        lemma_hoist_over_denominator(r0 * (FRAC as int), q0 * (FRAC as int), denom as nat);
        assert(r0 * (FRAC as int) + (q0 * (FRAC as int)) * denom == num * (FRAC as int))
            by (nonlinear_arith)
            requires
                num == denom * q0 + r0,
        ;
        lemma_mul_nonnegative(q0 as int, FRAC as int);
    }
    match q0.checked_mul(FRAC) {
        Some(hi) => match hi.checked_add(fr) {
            Some(v) => Some(v),
            None => None,
        },
        None => None,
    }
}

/// `a * b / FRAC` rounded down, or `None` when the exact result does not
/// fit in a `u128`.  This is the shared core of decimal multiplication.
fn mul_shift_down(a: u128, b: u128) -> (res: Option<u128>)
    ensures
        match res {
            Some(v) => v == (a * b) / (FRAC as int),
            None => (a * b) / (FRAC as int) > u128::MAX,
        },
{
    let ah = a / FRAC;
    let al = a % FRAC;
    let bh = b / FRAC;
    let bl = b % FRAC;
    proof {
        lemma_mul_upper_bound(al as int, FRAC - 1, bl as int, FRAC - 1);
    }
    let low = (al * bl) / FRAC;
    proof {
        lemma_fundamental_div_mod(a as int, FRAC as int);
        lemma_fundamental_div_mod(b as int, FRAC as int);
        let t = (ah * bh) * (FRAC as int) + ah * bl + al * bh;
        lemma_mul_nonnegative(ah as int, bh as int);
        lemma_mul_nonnegative(ah as int, bl as int);
        lemma_mul_nonnegative(al as int, bh as int);
        lemma_mul_nonnegative((ah * bh) as int, FRAC as int);
        lemma_hoist_over_denominator(al * bl, t, FRAC as nat);
        assert(al * bl + ((ah * bh) * (FRAC as int) + ah * bl + al * bh) * (FRAC as int) == a * b)
            by (nonlinear_arith)
            requires
                a == (FRAC as int) * ah + al,
                b == (FRAC as int) * bh + bl,
        ;
        assert((a * b) / (FRAC as int) == t + (al * bl) / (FRAC as int));
    }
    let hh = match ah.checked_mul(bh) {
        Some(v) => v,
        None => {
            proof {
                lemma_mul_inequality(1, FRAC as int, (ah * bh) as int);
            }
            return None;
        },
    };
    let hh_shift = match hh.checked_mul(FRAC) {
        Some(v) => v,
        None => {
            return None;
        },
    };
    let hl = match ah.checked_mul(bl) {
        Some(v) => v,
        None => {
            return None;
        },
    };
    let lh = match al.checked_mul(bh) {
        Some(v) => v,
        None => {
            return None;
        },
    };
    let s1 = match hh_shift.checked_add(hl) {
        Some(v) => v,
        None => {
            return None;
        },
    };
    let s2 = match s1.checked_add(lh) {
        Some(v) => v,
        None => {
            return None;
        },
    };
    match s2.checked_add(low) {
        Some(v) => Some(v),
        None => None,
    }
}

impl Dec {
    /// The value of this decimal in atomic units of `1e-18`.
    pub open spec fn val(self) -> int {
        self.atomics as int
    }

    pub fn zero() -> (r: Dec)
        ensures
            r.val() == 0,
    {
        Dec { atomics: 0 }
    }

    pub fn one() -> (r: Dec)
        ensures
            r.val() == FRAC,
    {
        Dec { atomics: FRAC }
    }

    /// Builds a decimal directly from a count of `1e-18` units.
    pub fn from_atomics(atomics: u128) -> (r: Dec)
        ensures
            r.val() == atomics,
    {
        Dec { atomics }
    }

    /// The whole number `n`, if `n * FRAC` fits.
    pub fn from_integer(n: u128) -> (r: Option<Dec>)
        ensures
            match r {
                Some(d) => d.val() == n * FRAC,
                None => n * FRAC > u128::MAX,
            },
    {
        match n.checked_mul(FRAC) {
            Some(a) => Some(Dec { atomics: a }),
            None => None,
        }
    }

    pub fn is_zero(&self) -> (r: bool)
        ensures
            r == (self.val() == 0),
    {
        self.atomics == 0
    }

    pub fn checked_add(self, other: Dec) -> (r: Option<Dec>)
        ensures
            match r {
                Some(d) => d.val() == self.val() + other.val(),
                None => self.val() + other.val() > u128::MAX,
            },
    {
        match self.atomics.checked_add(other.atomics) {
            Some(a) => Some(Dec { atomics: a }),
            None => None,
        }
    }

    pub fn checked_sub(self, other: Dec) -> (r: Option<Dec>)
        ensures
            match r {
                Some(d) => d.val() == self.val() - other.val(),
                None => self.val() < other.val(),
            },
    {
        match self.atomics.checked_sub(other.atomics) {
            Some(a) => Some(Dec { atomics: a }),
            None => None,
        }
    }

    /// The integer part: the largest whole number of units not above the
    /// represented value.
    pub fn floor_uint(self) -> (r: u128)
        ensures
            r == self.val() / (FRAC as int),
    {
        self.atomics / FRAC
    }

    /// The fractional part, as a decimal strictly below one.
    pub fn frac(self) -> (r: Dec)
        ensures
            r.val() == self.val() % (FRAC as int),
            r.val() < FRAC,
    {
        Dec { atomics: self.atomics % FRAC }
    }

    pub fn lt(&self, other: &Dec) -> (r: bool)
        ensures
            r == (self.val() < other.val()),
    {
        self.atomics < other.atomics
    }

    pub fn le(&self, other: &Dec) -> (r: bool)
        ensures
            r == (self.val() <= other.val()),
    {
        self.atomics <= other.atomics
    }

    /// Decimal multiplication: the product rounded down to the nearest
    /// atomic unit, or `None` when it does not fit.
    pub fn checked_mul(self, other: Dec) -> (r: Option<Dec>)
        ensures
            match r {
                Some(d) => d.val() == mul_atomics(self.val(), other.val()),
                None => mul_atomics(self.val(), other.val()) > u128::MAX,
            },
    {
        match mul_shift_down(self.atomics, other.atomics) {
            Some(a) => Some(Dec { atomics: a }),
            None => None,
        }
    }

    /// Decimal division: the quotient rounded down to the nearest atomic
    /// unit, or `None` when it does not fit.
    pub fn checked_div(self, other: Dec) -> (r: Option<Dec>)
        requires
            other.val() != 0,
        ensures
            match r {
                Some(d) => d.val() == div_atomics(self.val(), other.val()),
                None => div_atomics(self.val(), other.val()) > u128::MAX,
            },
    {
        match div_shift_up(self.atomics, other.atomics) {
            Some(a) => Some(Dec { atomics: a }),
            None => None,
        }
    }

    /// The ratio `numerator / denominator` as a decimal, rounded down to
    /// the nearest atomic unit, or `None` when it does not fit.
    pub fn checked_from_ratio(numerator: u128, denominator: u128) -> (r: Option<Dec>)
        requires
            denominator != 0,
        ensures
            match r {
                Some(d) => d.val() == (numerator * FRAC) / (denominator as int),
                None => (numerator * FRAC) / (denominator as int) > u128::MAX,
            },
    {
        match div_shift_up(numerator, denominator) {
            Some(a) => Some(Dec { atomics: a }),
            None => None,
        }
    }

    /// `n * self` rounded down to a whole number of units: the value a
    /// token amount is worth at this rate.
    pub fn mul_uint_floor(self, n: u128) -> (r: Option<u128>)
        ensures
            match r {
                Some(v) => v == (n * self.val()) / (FRAC as int),
                None => (n * self.val()) / (FRAC as int) > u128::MAX,
            },
    {
        mul_shift_down(n, self.atomics)
    }

    /// `n / self` rounded down to a whole number of units: how many tokens
    /// a value of `n` buys at this rate.
    pub fn div_uint_floor(self, n: u128) -> (r: Option<u128>)
        requires
            self.val() != 0,
        ensures
            match r {
                Some(v) => v == (n * FRAC) / self.val(),
                None => (n * FRAC) / self.val() > u128::MAX,
            },
    {
        div_shift_up(n, self.atomics)
    }

    /// `self * n` with `n` a whole number, exact: scaling a per-share
    /// quantity by a share count loses no precision.
    pub fn checked_mul_int(self, n: u128) -> (r: Option<Dec>)
        ensures
            match r {
                Some(d) => d.val() == self.val() * n,
                None => self.val() * n > u128::MAX,
            },
    {
        match self.atomics.checked_mul(n) {
            Some(a) => Some(Dec { atomics: a }),
            None => None,
        }
    }

    /// `self / n` with `n` a whole number, rounded down to the nearest
    /// atomic unit.
    pub fn div_int(self, n: u128) -> (r: Dec)
        requires
            n != 0,
        ensures
            r.val() == self.val() / (n as int),
    {
        Dec { atomics: self.atomics / n }
    }

    pub fn min(self, other: Dec) -> (r: Dec)
        ensures
            r.val() == if self.val() <= other.val() {
                self.val()
            } else {
                other.val()
            },
    {
        if self.atomics <= other.atomics {
            self
        } else {
            other
        }
    }
}

} // verus!
