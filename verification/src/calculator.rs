//! The two-point linear model: calibration points, the derived line, and
//! interpolation queries against it.
//!
//! A `Point` pairs an optional voltage-like (independent) coordinate with an
//! optional physical-like (dependent) coordinate. Two points whose voltages
//! differ determine a `Line` with a slope and an intercept; a pair that is
//! incomplete or vertical yields an undefined line, a legitimate steady
//! state rather than an error. A `MeasurementType` query gives one
//! coordinate and asks for the other.

use vstd::prelude::*;

use crate::rat::Rat;
use crate::rat::RatV;
use crate::rat::ratv_eq;
use crate::rat::ratv_add;
use crate::rat::ratv_sub;
use crate::rat::ratv_mul;
use crate::rat::ratv_div;
use crate::rat::add_in_range;
use crate::rat::sub_in_range;
use crate::rat::mul_in_range;
use crate::rat::div_in_range;

verus! {

/// Ghost image of a calibration point: two optional rational coordinates.
pub struct PointV {
    pub x: Option<RatV>,
    pub y: Option<RatV>,
}

impl PointV {
    /// Every present coordinate has a positive denominator.
    pub open spec fn wf(self) -> bool {
        &&& self.x matches Some(r) ==> self.x.unwrap().wf()
        &&& self.y matches Some(r) ==> self.y.unwrap().wf()
    }

    /// A point is valid when both coordinates are present.
    pub open spec fn valid(self) -> bool {
        self.x is Some && self.y is Some
    }
}

/// Ghost image of a derived line: optional slope and intercept, both present
/// exactly when the line is defined.
pub struct LineV {
    pub slope: Option<RatV>,
    pub intercept: Option<RatV>,
}

impl LineV {
    pub open spec fn wf(self) -> bool {
        &&& self.slope matches Some(r) ==> self.slope.unwrap().wf()
        &&& self.intercept matches Some(r) ==> self.intercept.unwrap().wf()
        &&& self.slope is Some <==> self.intercept is Some
    }

    /// A line is defined when slope and intercept are both present.
    pub open spec fn defined(self) -> bool {
        self.slope is Some && self.intercept is Some
    }
}

/// The undefined line.
pub open spec fn line_undefined() -> LineV {
    LineV { slope: None, intercept: None }
}

/// Ghost image of a query: one known coordinate, tagged with its axis.
pub enum MeasV {
    /// The voltage (independent) coordinate is known; the physical one is wanted.
    Voltage(RatV),
    /// The physical (dependent) coordinate is known; the voltage one is wanted.
    Physical(RatV),
}

impl MeasV {
    pub open spec fn wf(self) -> bool {
        match self {
            MeasV::Voltage(r) => r.wf(),
            MeasV::Physical(r) => r.wf(),
        }
    }
}

/// Are the two points a pair that determines a line: both valid, with
/// voltages that differ as rational values?
pub open spec fn pair_determines(p1: PointV, p2: PointV) -> bool {
    &&& p1.valid()
    &&& p2.valid()
    &&& !ratv_eq(p1.x.unwrap(), p2.x.unwrap())
}

/// Do all intermediate results of deriving the line through `p1` and `p2`
/// fit the machine representation?
pub open spec fn derivation_in_range(p1: PointV, p2: PointV) -> bool {
    let x1 = p1.x.unwrap();
    let y1 = p1.y.unwrap();
    let x2 = p2.x.unwrap();
    let y2 = p2.y.unwrap();
    let dy = ratv_sub(y1, y2);
    let dx = ratv_sub(x1, x2);
    let m = ratv_div(dy, dx);
    let mx = ratv_mul(m, x1);
    &&& sub_in_range(y1, y2)
    &&& sub_in_range(x1, x2)
    &&& div_in_range(dy, dx)
    &&& mul_in_range(m, x1)
    &&& sub_in_range(y1, mx)
}

/// The line through two points: slope `(y1 - y2) / (x1 - x2)` and intercept
/// `y1 - slope * x1`, or the undefined line when the pair does not determine
/// one (or its derivation leaves the machine range).
pub open spec fn line_of(p1: PointV, p2: PointV) -> LineV {
    if pair_determines(p1, p2) && derivation_in_range(p1, p2) {
        let x1 = p1.x.unwrap();
        let y1 = p1.y.unwrap();
        let x2 = p2.x.unwrap();
        let y2 = p2.y.unwrap();
        let m = ratv_div(ratv_sub(y1, y2), ratv_sub(x1, x2));
        let b = ratv_sub(y1, ratv_mul(m, x1));
        LineV { slope: Some(m), intercept: Some(b) }
    } else {
        line_undefined()
    }
}

/// Why a query could not be answered.
#[derive(Clone, Copy, Debug, PartialEq, Eq, Structural)]
pub enum EvalError {
    /// The line is undefined: the points are not both valid, or share a voltage.
    Undefined,
    /// The known coordinate is physical and the slope is zero, so no single
    /// voltage corresponds to it.
    NotInvertible,
    /// The exact answer does not fit the machine representation.
    OutOfRange,
}

/// The answer to `q` against line `l`: `m * x + b` for a known voltage `x`,
/// `(y - b) / m` for a known physical value `y`.
pub open spec fn eval_of(l: LineV, q: MeasV) -> Result<RatV, EvalError> {
    if !l.defined() {
        Err(EvalError::Undefined)
    } else {
        let m = l.slope.unwrap();
        let b = l.intercept.unwrap();
        match q {
            MeasV::Voltage(x) => {
                let mx = ratv_mul(m, x);
                if mul_in_range(m, x) && add_in_range(mx, b) {
                    Ok(ratv_add(mx, b))
                } else {
                    Err(EvalError::OutOfRange)
                }
            },
            MeasV::Physical(y) => {
                if m.is_zero() {
                    Err(EvalError::NotInvertible)
                } else {
                    let d = ratv_sub(y, b);
                    if sub_in_range(y, b) && div_in_range(d, m) {
                        Ok(ratv_div(d, m))
                    } else {
                        Err(EvalError::OutOfRange)
                    }
                }
            },
        }
    }
}

/// Ghost image of an evaluation result.
pub open spec fn eval_res_view(r: Result<Rat, EvalError>) -> Result<RatV, EvalError> {
    match r {
        Ok(v) => Ok(v@),
        Err(e) => Err(e),
    }
}

/// A calibration point: an optional voltage (independent) coordinate and an
/// optional physical (dependent) coordinate.
#[derive(Clone, Copy, Debug)]
pub struct Point {
    pub voltage: Option<Rat>,
    pub physical: Option<Rat>,
}

impl View for Point {
    type V = PointV;

    open spec fn view(&self) -> PointV {
        PointV {
            x: match self.voltage {
                Some(r) => Some(r@),
                None => None,
            },
            y: match self.physical {
                Some(r) => Some(r@),
                None => None,
            },
        }
    }
}

impl Point {
    pub open spec fn wf(self) -> bool {
        self@.wf()
    }

    /// A point with both coordinates absent.
    pub fn new() -> (p: Point)
        ensures
            p@ == (PointV { x: None, y: None }),
            p.wf(),
    {
        Point { voltage: None, physical: None }
    }

    /// Are both coordinates present?
    pub fn is_valid(&self) -> (r: bool)
        ensures
            r == self@.valid(),
    {
        self.voltage.is_some() && self.physical.is_some()
    }

    /// Overwrite both coordinates.
    pub fn set_point(&mut self, x: Rat, y: Rat)
        requires
            x.wf(),
            y.wf(),
        ensures
            final(self)@ == (PointV { x: Some(x@), y: Some(y@) }),
            final(self).wf(),
    {
        self.voltage = Some(x);
        self.physical = Some(y);
    }

    /// Overwrite the voltage coordinate only.
    pub fn set_voltage(&mut self, v: Rat)
        requires
            v.wf(),
        ensures
            final(self)@ == (PointV { x: Some(v@), y: old(self)@.y }),
            old(self).wf() ==> final(self).wf(),
    {
        self.voltage = Some(v);
    }

    /// Overwrite the physical coordinate only.
    pub fn set_physical(&mut self, p: Rat)
        requires
            p.wf(),
        ensures
            final(self)@ == (PointV { x: old(self)@.x, y: Some(p@) }),
            old(self).wf() ==> final(self).wf(),
    {
        self.physical = Some(p);
    }

    /// A point built from a `(voltage, physical)` pair.
    pub fn from(vals: (Rat, Rat)) -> (p: Point)
        requires
            vals.0.wf(),
            vals.1.wf(),
        ensures
            p@ == (PointV { x: Some(vals.0@), y: Some(vals.1@) }),
            p.wf(),
    {
        let mut point = Point::new();
        point.set_point(vals.0, vals.1);
        point
    }

    /// Both coordinates of a valid point, voltage first.
    pub fn get_val(&self) -> (v: (Rat, Rat))
        requires
            self@.valid(),
        ensures
            v.0@ == self@.x.unwrap(),
            v.1@ == self@.y.unwrap(),
    {
        (self.voltage.unwrap(), self.physical.unwrap())
    }
}

/// The line derived from two calibration points.
#[derive(Clone, Copy, Debug)]
pub struct Line {
    pub slope: Option<Rat>,
    pub intercept: Option<Rat>,
}

impl View for Line {
    type V = LineV;

    open spec fn view(&self) -> LineV {
        LineV {
            slope: match self.slope {
                Some(r) => Some(r@),
                None => None,
            },
            intercept: match self.intercept {
                Some(r) => Some(r@),
                None => None,
            },
        }
    }
}

impl Line {
    pub open spec fn wf(self) -> bool {
        self@.wf()
    }

    /// The undefined line.
    pub fn new() -> (l: Line)
        ensures
            l@ == line_undefined(),
            l.wf(),
    {
        Line { slope: None, intercept: None }
    }

    /// Derive slope and intercept from two points, or become undefined when
    /// the pair does not determine a line.
    pub fn calc(&mut self, p1: &Point, p2: &Point)
        requires
            p1.wf(),
            p2.wf(),
        ensures
            final(self)@ == line_of(p1@, p2@),
            final(self).wf(),
    {
        if p1.is_valid() && p2.is_valid() {
            let x1 = p1.voltage.unwrap();
            let y1 = p1.physical.unwrap();
            let x2 = p2.voltage.unwrap();
            let y2 = p2.physical.unwrap();
            if x1.eq_val(&x2) {
                self.slope = None;
                self.intercept = None;
            } else {
                let dy = match y1.sub_checked(&y2) {
                    Some(v) => v,
                    None => {
                        self.slope = None;
                        self.intercept = None;
                        return ;
                    },
                };
                let dx = match x1.sub_checked(&x2) {
                    Some(v) => v,
                    None => {
                        self.slope = None;
                        self.intercept = None;
                        return ;
                    },
                };
                let m = match dy.div_checked(&dx) {
                    Some(v) => v,
                    None => {
                        self.slope = None;
                        self.intercept = None;
                        return ;
                    },
                };
                let mx = match m.mul_checked(&x1) {
                    Some(v) => v,
                    None => {
                        self.slope = None;
                        self.intercept = None;
                        return ;
                    },
                };
                let b = match y1.sub_checked(&mx) {
                    Some(v) => v,
                    None => {
                        self.slope = None;
                        self.intercept = None;
                        return ;
                    },
                };
                self.slope = Some(m);
                self.intercept = Some(b);
            }
        } else {
            self.slope = None;
            self.intercept = None;
        }
    }

    /// The line derived from a pair of points.
    pub fn from(points: (&Point, &Point)) -> (l: Line)
        requires
            points.0.wf(),
            points.1.wf(),
        ensures
            l@ == line_of(points.0@, points.1@),
            l.wf(),
    {
        let mut line = Line::new();
        line.calc(points.0, points.1);
        line
    }

    /// Slope and intercept when the line is defined.
    pub fn get_val(&self) -> (r: Option<(Rat, Rat)>)
        ensures
            r is Some <==> self@.defined(),
            r matches Some(v) ==> v.0@ == self@.slope.unwrap() && v.1@ == self@.intercept.unwrap(),
    {
        if let Some(m) = self.slope {
            if let Some(b) = self.intercept {
                Some((m, b))
            } else {
                None
            }
        } else {
            None
        }
    }

    /// Answer a query against the line: compute the missing coordinate from
    /// the known one.
    pub fn get_corresponding_value(&self, value: &MeasurementType) -> (r: Result<Rat, EvalError>)
        requires
            self.wf(),
            value.wf(),
        ensures
            eval_res_view(r) == eval_of(self@, value@),
            r matches Ok(v) ==> v.wf(),
    {
        let (m, b) = match (self.slope, self.intercept) {
            (Some(m), Some(b)) => (m, b),
            _ => {
                return Err(EvalError::Undefined);
            },
        };
        match value {
            MeasurementType::Voltage(x) => {
                let mx = match m.mul_checked(x) {
                    Some(v) => v,
                    None => {
                        return Err(EvalError::OutOfRange);
                    },
                };
                match mx.add_checked(&b) {
                    Some(v) => Ok(v),
                    None => Err(EvalError::OutOfRange),
                }
            },
            MeasurementType::Physical(y) => {
                if m.num == 0 {
                    return Err(EvalError::NotInvertible);
                }
                let d = match y.sub_checked(&b) {
                    Some(v) => v,
                    None => {
                        return Err(EvalError::OutOfRange);
                    },
                };
                match d.div_checked(&m) {
                    Some(v) => Ok(v),
                    None => Err(EvalError::OutOfRange),
                }
            },
        }
    }
}

/// A query value: one known coordinate, tagged with its axis.
#[derive(Clone, Copy, Debug)]
pub enum MeasurementType {
    /// A known voltage (independent) coordinate.
    Voltage(Rat),
    /// A known physical (dependent) coordinate.
    Physical(Rat),
}

impl View for MeasurementType {
    type V = MeasV;

    open spec fn view(&self) -> MeasV {
        match self {
            MeasurementType::Voltage(r) => MeasV::Voltage(r@),
            MeasurementType::Physical(r) => MeasV::Physical(r@),
        }
    }
}

impl MeasurementType {
    pub open spec fn wf(self) -> bool {
        self@.wf()
    }
}

proof fn lemma_div_num_den_relation(mn: int, md: int, dyn_: int, dyd: int, dxn: int, dxd: int)
    by (nonlinear_arith)
    requires
        (mn == dyn_ * dxd && md == dyd * dxn) || (mn == -(dyn_ * dxd) && md == -(dyd * dxn)),
    ensures
        mn * (dyd * dxn) == (dyn_ * dxd) * md,
{
}

proof fn lemma_sub_mul(p: int, q: int, r: int)
    by (nonlinear_arith)
    ensures
        (p - q) * r == p * r - q * r,
{
}

proof fn lemma_mul_sub(p: int, q: int, r: int)
    by (nonlinear_arith)
    ensures
        r * (p - q) == r * p - r * q,
{
}

proof fn lemma_mul_shuffle4(p: int, q: int, r: int, s: int)
    by (nonlinear_arith)
    ensures
        (p * q) * (r * s) == (p * r) * (q * s),
        (p * q) * (r * s) == (p * s) * (q * r),
        (p * q) * (r * s) == (p * r) * (s * q),
        (p * q) * (r * s) == (p * s) * (r * q),
{
}

proof fn lemma_exchange_expand(
    an: int,
    ad: int,
    bn: int,
    bd: int,
    cn: int,
    cd: int,
    dn: int,
    dd: int,
)
    ensures
        (an * cd - cn * ad) * (bd * dd) - (bn * dd - dn * bd) * (ad * cd) == (an * bd - bn * ad) * (
        cd * dd) - (cn * dd - dn * cd) * (ad * bd),
{
    lemma_sub_mul(an * cd, cn * ad, bd * dd);
    lemma_sub_mul(bn * dd, dn * bd, ad * cd);
    lemma_sub_mul(an * bd, bn * ad, cd * dd);
    lemma_sub_mul(cn * dd, dn * cd, ad * bd);
    lemma_mul_shuffle4(an, cd, bd, dd);
    lemma_mul_shuffle4(cn, ad, bd, dd);
    lemma_mul_shuffle4(bn, dd, ad, cd);
    lemma_mul_shuffle4(dn, bd, ad, cd);
}

/// From `a - b == c - d` (as rational values) follows `a - c == b - d`.
proof fn lemma_ratv_sub_exchange(a: RatV, b: RatV, c: RatV, d: RatV)
    requires
        ratv_eq(ratv_sub(a, b), ratv_sub(c, d)),
    ensures
        ratv_eq(ratv_sub(a, c), ratv_sub(b, d)),
{
    lemma_exchange_expand(a.num, a.den, b.num, b.den, c.num, c.den, d.num, d.den);
}

proof fn lemma_mono_slope_den(n: int, md: int, c1: int, c2: int)
    by (nonlinear_arith)
    ensures
        n * ((md * c1) * (md * c2)) == ((n * (c1 * c2)) * md) * md,
{
}

proof fn lemma_mono_slope_num(mn: int, md: int, dyd: int, a1: int, c1: int, a2: int, c2: int)
    ensures
        ((mn * a1) * (md * c2) - (mn * a2) * (md * c1)) * dyd == (mn * (dyd * (a1 * c2 - a2 * c1)))
            * md,
{
    lemma_sub_mul((mn * a1) * (md * c2), (mn * a2) * (md * c1), dyd);
    assert(((mn * a1) * (md * c2)) * dyd == (mn * (dyd * (a1 * c2))) * md) by (nonlinear_arith);
    assert(((mn * a2) * (md * c1)) * dyd == (mn * (dyd * (a2 * c1))) * md) by (nonlinear_arith);
    lemma_mul_sub(a1 * c2, a2 * c1, dyd);
    lemma_mul_sub(dyd * (a1 * c2), dyd * (a2 * c1), mn);
    lemma_sub_mul(mn * (dyd * (a1 * c2)), mn * (dyd * (a2 * c1)), md);
}

/// The derived line does not depend on the order of the two points: slope
/// and intercept computed from `(p1, p2)` equal, as rational values, those
/// computed from `(p2, p1)`, whenever both derivations stay in range.
pub proof fn lemma_recompute_order_independent(p1: PointV, p2: PointV)
    requires
        p1.wf(),
        p2.wf(),
        line_of(p1, p2).defined(),
        line_of(p2, p1).defined(),
    ensures
        ratv_eq(line_of(p1, p2).slope.unwrap(), line_of(p2, p1).slope.unwrap()),
        ratv_eq(line_of(p1, p2).intercept.unwrap(), line_of(p2, p1).intercept.unwrap()),
{
    let x1 = p1.x.unwrap();
    let y1 = p1.y.unwrap();
    let x2 = p2.x.unwrap();
    let y2 = p2.y.unwrap();
    let a1 = x1.num;
    let c1 = x1.den;
    let b1 = y1.num;
    let d1 = y1.den;
    let a2 = x2.num;
    let c2 = x2.den;
    let b2 = y2.num;
    let d2 = y2.den;
    let dy12 = ratv_sub(y1, y2);
    let dx12 = ratv_sub(x1, x2);
    let m12 = ratv_div(dy12, dx12);
    let dy21 = ratv_sub(y2, y1);
    let dx21 = ratv_sub(x2, x1);
    let m21 = ratv_div(dy21, dx21);
    let dyn_ = dy12.num;
    let dyd = dy12.den;
    let dxn = dx12.num;
    let dxd = dx12.den;
    assert(d1 * d2 == d2 * d1) by (nonlinear_arith);
    assert(c1 * c2 == c2 * c1) by (nonlinear_arith);
    assert(dy21.num == -dyn_ && dy21.den == dyd);
    assert(dx21.num == -dxn && dx21.den == dxd);
    assert(dyd > 0) by (nonlinear_arith)
        requires
            dyd == d1 * d2,
            d1 > 0,
            d2 > 0,
    ;
    assert(dxn != 0);
    assert(dyd * dxn != 0) by (nonlinear_arith)
        requires
            dyd > 0,
            dxn != 0,
    ;
    // The sign normalisation in the quotient makes the two slopes the very
    // same numerator/denominator pair.
    assert((-dyn_) * dxd == -(dyn_ * dxd)) by (nonlinear_arith);
    assert(dyd * (-dxn) == -(dyd * dxn)) by (nonlinear_arith);
    if dyd * dxn < 0 {
        assert(m12.num == -(dyn_ * dxd) && m12.den == -(dyd * dxn));
        assert(m21.num == (-dyn_) * dxd && m21.den == dyd * (-dxn));
        assert(m21 == m12);
    } else {
        assert(m12.num == dyn_ * dxd && m12.den == dyd * dxn);
        assert(m21.num == -((-dyn_) * dxd) && m21.den == -(dyd * (-dxn)));
        assert(m21 == m12);
    }
    // Cross-multiplied form of "slope * (x1 - x2) == y1 - y2".
    lemma_div_num_den_relation(m12.num, m12.den, dyn_, dyd, dxn, dxd);
    // "y1 - y2 == m * x1 - m * x2" as rational values ...
    let mx1 = ratv_mul(m12, x1);
    let mx2 = ratv_mul(m12, x2);
    let rhs = ratv_sub(mx1, mx2);
    lemma_mono_slope_den(dyn_, m12.den, c1, c2);
    lemma_mono_slope_num(m12.num, m12.den, dyd, a1, c1, a2, c2);
    assert(dyn_ * rhs.den == rhs.num * dyd);
    assert(ratv_eq(dy12, rhs));
    // ... hence "y1 - m * x1 == y2 - m * x2", which is the intercept claim.
    lemma_ratv_sub_exchange(y1, y2, mx1, mx2);
}

/// Two valid points with the same voltage determine no line: the derived
/// line is undefined, whatever the physical values are.
pub proof fn lemma_equal_x_undefined(p1: PointV, p2: PointV)
    requires
        p1.valid(),
        p2.valid(),
        ratv_eq(p1.x.unwrap(), p2.x.unwrap()),
    ensures
        line_of(p1, p2) == line_undefined(),
{
}

proof fn lemma_round_trip_num(mn: int, md: int, bn: int, bd: int, xn: int, xd: int)
    by (nonlinear_arith)
    ensures
        ((mn * xn) * bd + bn * (md * xd)) * bd - bn * ((md * xd) * bd) == (mn * xn) * (bd * bd),
{
}

proof fn lemma_round_trip_monomial(mn: int, md: int, bd: int, xn: int, xd: int)
    by (nonlinear_arith)
    ensures
        (((mn * xn) * (bd * bd)) * md) * xd == xn * ((((md * xd) * bd) * bd) * mn),
{
}

/// Round trip: on a defined line with nonzero slope, evaluating at a voltage
/// `x` and then asking for the voltage of the resulting physical value gives
/// back `x` exactly, whenever both evaluations stay in range.
pub proof fn lemma_eval_round_trip(l: LineV, x: RatV)
    requires
        l.wf(),
        l.defined(),
        x.wf(),
        !l.slope.unwrap().is_zero(),
        eval_of(l, MeasV::Voltage(x)) is Ok,
        eval_of(l, MeasV::Physical(eval_of(l, MeasV::Voltage(x))->Ok_0)) is Ok,
    ensures
        ratv_eq(eval_of(l, MeasV::Physical(eval_of(l, MeasV::Voltage(x))->Ok_0))->Ok_0, x),
{
    let m = l.slope.unwrap();
    let b = l.intercept.unwrap();
    let y = ratv_add(ratv_mul(m, x), b);
    assert(eval_of(l, MeasV::Voltage(x))->Ok_0 == y);
    let d = ratv_sub(y, b);
    let r = ratv_div(d, m);
    assert(eval_of(l, MeasV::Physical(y))->Ok_0 == r);
    lemma_round_trip_num(m.num, m.den, b.num, b.den, x.num, x.den);
    assert(d.num == (m.num * x.num) * (b.den * b.den));
    lemma_round_trip_monomial(m.num, m.den, b.den, x.num, x.den);
    assert((d.num * m.den) * x.den == x.num * (d.den * m.num));
    if d.den * m.num < 0 {
        assert(r.num == -(d.num * m.den) && r.den == -(d.den * m.num));
        assert((-(d.num * m.den)) * x.den == -((d.num * m.den) * x.den)) by (nonlinear_arith);
        assert(x.num * (-(d.den * m.num)) == -(x.num * (d.den * m.num))) by (nonlinear_arith);
        assert(ratv_eq(r, x));
    } else {
        assert(ratv_eq(r, x));
    }
}

/// Evaluation against an undefined line fails with `Undefined`, whatever the
/// query is.
pub proof fn lemma_eval_undefined(l: LineV, q: MeasV)
    requires
        !l.defined(),
    ensures
        eval_of(l, q) == Err::<RatV, EvalError>(EvalError::Undefined),
{
}

} // verus!
