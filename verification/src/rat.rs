//! Exact rational numbers over `i64` numerator / denominator pairs.
//!
//! Every value the calibration model works with (point coordinates, slope,
//! intercept, query values) is such a rational. Operations are checked: an
//! operation whose exact result does not fit the representation returns
//! `None` instead of a wrong value, and each contract states exactly when
//! that happens.

use vstd::prelude::*;

verus! {

/// Mathematical (ghost) image of a rational: an unbounded numerator and
/// denominator. The value denoted is `num / den` with `den > 0`.
pub struct RatV {
    pub num: int,
    pub den: int,
}

impl RatV {
    /// A well-formed rational has a positive denominator.
    pub open spec fn wf(self) -> bool {
        self.den > 0
    }

    /// The rational is the integer zero (for any denominator).
    pub open spec fn is_zero(self) -> bool {
        self.num == 0
    }
}

/// Value equality of two rationals, by cross multiplication.
pub open spec fn ratv_eq(a: RatV, b: RatV) -> bool {
    a.num * b.den == b.num * a.den
}

/// Value order of two rationals with positive denominators.
pub open spec fn ratv_le(a: RatV, b: RatV) -> bool {
    a.num * b.den <= b.num * a.den
}

/// Strict value order of two rationals with positive denominators.
pub open spec fn ratv_lt(a: RatV, b: RatV) -> bool {
    a.num * b.den < b.num * a.den
}

/// Exact sum, as computed on the raw pairs (no reduction).
pub open spec fn ratv_add(a: RatV, b: RatV) -> RatV {
    RatV { num: a.num * b.den + b.num * a.den, den: a.den * b.den }
}

/// Exact difference, as computed on the raw pairs.
pub open spec fn ratv_sub(a: RatV, b: RatV) -> RatV {
    RatV { num: a.num * b.den - b.num * a.den, den: a.den * b.den }
}

/// Exact product, as computed on the raw pairs.
pub open spec fn ratv_mul(a: RatV, b: RatV) -> RatV {
    RatV { num: a.num * b.num, den: a.den * b.den }
}

/// Exact quotient `a / b` for `b.num != 0`, with the sign moved into the
/// numerator so that the result keeps a positive denominator.
pub open spec fn ratv_div(a: RatV, b: RatV) -> RatV {
    if a.den * b.num < 0 {
        RatV { num: -(a.num * b.den), den: -(a.den * b.num) }
    } else {
        RatV { num: a.num * b.den, den: a.den * b.num }
    }
}

/// Does `x` fit the machine numerator/denominator type?
pub open spec fn in_i64(x: int) -> bool {
    i64::MIN <= x <= i64::MAX
}

/// Exactly when the checked sum succeeds: every intermediate product and the
/// final numerator fit.
pub open spec fn add_in_range(a: RatV, b: RatV) -> bool {
    &&& in_i64(a.num * b.den)
    &&& in_i64(b.num * a.den)
    &&& in_i64(a.num * b.den + b.num * a.den)
    &&& in_i64(a.den * b.den)
}

/// Exactly when the checked difference succeeds.
pub open spec fn sub_in_range(a: RatV, b: RatV) -> bool {
    &&& in_i64(a.num * b.den)
    &&& in_i64(b.num * a.den)
    &&& in_i64(a.num * b.den - b.num * a.den)
    &&& in_i64(a.den * b.den)
}

/// Exactly when the checked product succeeds.
pub open spec fn mul_in_range(a: RatV, b: RatV) -> bool {
    &&& in_i64(a.num * b.num)
    &&& in_i64(a.den * b.den)
}

/// Exactly when the checked quotient succeeds: the raw pair fits, and so does
/// its negation when the sign has to be flipped.
pub open spec fn div_in_range(a: RatV, b: RatV) -> bool {
    &&& in_i64(a.num * b.den)
    &&& in_i64(a.den * b.num)
    &&& a.den * b.num < 0 ==> in_i64(-(a.num * b.den)) && in_i64(-(a.den * b.num))
}

/// Truncation of a rational (with positive denominator) toward zero.
pub open spec fn ratv_trunc(r: RatV) -> int {
    if r.num >= 0 {
        r.num / r.den
    } else {
        -((-r.num) / r.den)
    }
}

/// Truncation toward zero, saturated to the `i32` range.
pub open spec fn ratv_trunc_sat(r: RatV) -> int {
    let t = ratv_trunc(r);
    if t < i32::MIN {
        i32::MIN as int
    } else if t > i32::MAX {
        i32::MAX as int
    } else {
        t
    }
}

/// An exact rational number: `num / den` with `den > 0`.
#[derive(Clone, Copy, Debug, PartialEq, Eq, Structural)]
pub struct Rat {
    pub num: i64,
    pub den: i64,
}

impl View for Rat {
    type V = RatV;

    open spec fn view(&self) -> RatV {
        RatV { num: self.num as int, den: self.den as int }
    }
}

proof fn lemma_i64_mul_in_i128(x: int, y: int)
    by (nonlinear_arith)
    requires
        i64::MIN <= x <= i64::MAX,
        i64::MIN <= y <= i64::MAX,
    ensures
        i128::MIN <= x * y <= i128::MAX,
{
}

proof fn lemma_pos_mul_pos(x: int, y: int)
    by (nonlinear_arith)
    requires
        x > 0,
        y > 0,
    ensures
        x * y > 0,
{
}

/// Product of two `i64` values, exact in the wider type.
fn mul_wide(x: i64, y: i64) -> (r: i128)
    ensures
        r == x * y,
{
    proof {
        lemma_i64_mul_in_i128(x as int, y as int);
    }
    (x as i128) * (y as i128)
}

impl Rat {
    /// Is the representation well formed (positive denominator)?
    pub open spec fn wf(self) -> bool {
        self@.wf()
    }

    /// A rational from a numerator and a positive denominator.
    pub fn new(num: i64, den: i64) -> (r: Rat)
        requires
            den > 0,
        ensures
            r@ == (RatV { num: num as int, den: den as int }),
            r.wf(),
    {
        Rat { num, den }
    }

    /// A rational holding exactly the integer `n`.
    pub fn from_int(n: i64) -> (r: Rat)
        ensures
            r@ == (RatV { num: n as int, den: 1 }),
            r.wf(),
    {
        Rat { num: n, den: 1 }
    }

    /// Do `self` and `other` denote the same rational value?
    pub fn eq_val(&self, other: &Rat) -> (r: bool)
        requires
            self.wf(),
            other.wf(),
        ensures
            r == ratv_eq(self@, other@),
    {
        mul_wide(self.num, other.den) == mul_wide(other.num, self.den)
    }

    /// Is `self` strictly below `other`, as rational values?
    pub fn lt_val(&self, other: &Rat) -> (r: bool)
        requires
            self.wf(),
            other.wf(),
        ensures
            r == ratv_lt(self@, other@),
    {
        mul_wide(self.num, other.den) < mul_wide(other.num, self.den)
    }

    /// Is `self` at most `other`, as rational values?
    pub fn le_val(&self, other: &Rat) -> (r: bool)
        requires
            self.wf(),
            other.wf(),
        ensures
            r == ratv_le(self@, other@),
    {
        mul_wide(self.num, other.den) <= mul_wide(other.num, self.den)
    }

    /// Checked exact sum.
    pub fn add_checked(&self, other: &Rat) -> (r: Option<Rat>)
        requires
            self.wf(),
            other.wf(),
        ensures
            r is Some <==> add_in_range(self@, other@),
            r matches Some(c) ==> c@ == ratv_add(self@, other@) && c.wf(),
    {
        let n1 = match self.num.checked_mul(other.den) {
            Some(v) => v,
            None => { return None; },
        };
        let n2 = match other.num.checked_mul(self.den) {
            Some(v) => v,
            None => { return None; },
        };
        let num = match n1.checked_add(n2) {
            Some(v) => v,
            None => { return None; },
        };
        let den = match self.den.checked_mul(other.den) {
            Some(v) => v,
            None => { return None; },
        };
        proof {
            lemma_pos_mul_pos(self@.den, other@.den);
        }
        Some(Rat { num, den })
    }

    /// Checked exact difference.
    pub fn sub_checked(&self, other: &Rat) -> (r: Option<Rat>)
        requires
            self.wf(),
            other.wf(),
        ensures
            r is Some <==> sub_in_range(self@, other@),
            r matches Some(c) ==> c@ == ratv_sub(self@, other@) && c.wf(),
    {
        let n1 = match self.num.checked_mul(other.den) {
            Some(v) => v,
            None => { return None; },
        };
        let n2 = match other.num.checked_mul(self.den) {
            Some(v) => v,
            None => { return None; },
        };
        let num = match n1.checked_sub(n2) {
            Some(v) => v,
            None => { return None; },
        };
        let den = match self.den.checked_mul(other.den) {
            Some(v) => v,
            None => { return None; },
        };
        proof {
            lemma_pos_mul_pos(self@.den, other@.den);
        }
        Some(Rat { num, den })
    }

    /// Checked exact product.
    pub fn mul_checked(&self, other: &Rat) -> (r: Option<Rat>)
        requires
            self.wf(),
            other.wf(),
        ensures
            r is Some <==> mul_in_range(self@, other@),
            r matches Some(c) ==> c@ == ratv_mul(self@, other@) && c.wf(),
    {
        let num = match self.num.checked_mul(other.num) {
            Some(v) => v,
            None => { return None; },
        };
        let den = match self.den.checked_mul(other.den) {
            Some(v) => v,
            None => { return None; },
        };
        proof {
            lemma_pos_mul_pos(self@.den, other@.den);
        }
        Some(Rat { num, den })
    }

    /// Checked exact quotient; the divisor must not be zero.
    pub fn div_checked(&self, other: &Rat) -> (r: Option<Rat>)
        requires
            self.wf(),
            other.wf(),
            !other@.is_zero(),
        ensures
            r is Some <==> div_in_range(self@, other@),
            r matches Some(c) ==> c@ == ratv_div(self@, other@) && c.wf(),
    {
        let num0 = match self.num.checked_mul(other.den) {
            Some(v) => v,
            None => { return None; },
        };
        let den0 = match self.den.checked_mul(other.num) {
            Some(v) => v,
            None => { return None; },
        };
        if den0 < 0 {
            let num = match 0i64.checked_sub(num0) {
                Some(v) => v,
                None => { return None; },
            };
            let den = match 0i64.checked_sub(den0) {
                Some(v) => v,
                None => { return None; },
            };
            Some(Rat { num, den })
        } else {
            proof {
                lemma_div_den_sign(self@, other@);
            }
            Some(Rat { num: num0, den: den0 })
        }
    }

    /// Truncation toward zero, saturated to the `i32` range.
    pub fn trunc_sat(&self) -> (t: i32)
        requires
            self.wf(),
        ensures
            t == ratv_trunc_sat(self@),
    {
        let den_u: u64 = self.den as u64;
        if self.num >= 0 {
            let q: u64 = (self.num as u64) / den_u;
            proof {
                lemma_div_le_num(self.num as int, self.den as int);
            }
            if q > i32::MAX as u64 {
                i32::MAX
            } else {
                q as i32
            }
        } else {
            let mag: u64 = if self.num == i64::MIN {
                9223372036854775808u64
            } else {
                (-self.num) as u64
            };
            let q: u64 = mag / den_u;
            proof {
                lemma_div_le_num(mag as int, self.den as int);
            }
            if q >= 2147483648u64 {
                i32::MIN
            } else {
                -(q as i32)
            }
        }
    }
}

proof fn lemma_div_den_sign(a: RatV, b: RatV)
    by (nonlinear_arith)
    requires
        a.wf(),
        b.wf(),
        b.num != 0,
    ensures
        a.den * b.num < 0 <==> b.num < 0,
        b.num > 0 ==> a.den * b.num > 0,
{
}

proof fn lemma_div_le_num(n: int, d: int)
    by (nonlinear_arith)
    requires
        n >= 0,
        d >= 1,
    ensures
        0 <= n / d <= n,
{
}

} // verus!
