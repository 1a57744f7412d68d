//! Exact rational arithmetic for view coordinates.
//!
//! The view transform is composed only from translations and positive uniform
//! scales, so every quantity the viewer tracks is a rational number. Values
//! are kept as numerator/denominator pairs of `i64`; the mathematical model
//! (`RatV`) is a pair of unbounded integers. Operations whose exact result
//! does not fit the executable representation report `None` instead of
//! rounding, so a stored transform always denotes its exact mathematical
//! value.

use vstd::prelude::*;

verus! {

/// Mathematical rational value: numerator `n` over denominator `d`.
pub ghost struct RatV {
    pub n: int,
    pub d: int,
}

/// A well-formed fraction has a positive denominator.
pub open spec fn rv_wf(a: RatV) -> bool {
    a.d > 0
}

/// Two fractions denote the same rational number (cross multiplication).
pub open spec fn rv_eq(a: RatV, b: RatV) -> bool {
    a.n * b.d == b.n * a.d
}

pub open spec fn rv_int(i: int) -> RatV {
    RatV { n: i, d: 1 }
}

pub open spec fn rv_mul(a: RatV, b: RatV) -> RatV {
    RatV { n: a.n * b.n, d: a.d * b.d }
}

pub open spec fn rv_add(a: RatV, b: RatV) -> RatV {
    RatV { n: a.n * b.d + b.n * a.d, d: a.d * b.d }
}

pub open spec fn rv_neg(a: RatV) -> RatV {
    RatV { n: -a.n, d: a.d }
}

pub open spec fn rv_sub(a: RatV, b: RatV) -> RatV {
    rv_add(a, rv_neg(b))
}

/// `a <= b` as rational numbers (assumes both well formed).
pub open spec fn rv_le(a: RatV, b: RatV) -> bool {
    a.n * b.d <= b.n * a.d
}

pub open spec fn rv_min(a: RatV, b: RatV) -> RatV {
    if rv_le(a, b) {
        a
    } else {
        b
    }
}

/// Strictly positive rational (assumes well formed).
pub open spec fn rv_pos(a: RatV) -> bool {
    a.n > 0
}

/// Both components of the exact result fit the executable representation.
pub open spec fn rv_fits(a: RatV) -> bool {
    i64::MIN <= a.n <= i64::MAX && 1 <= a.d <= i64::MAX
}

/// A product of two `i64`-range factors stays well inside the `i128` range.
pub proof fn lemma_mul_i64_in_i128(x: int, y: int)
    requires
        i64::MIN <= x <= i64::MAX,
        i64::MIN <= y <= i64::MAX,
    ensures
        -0x40000000000000000000000000000000 <= x * y <= 0x40000000000000000000000000000000,
{
    assert(-0x40000000000000000000000000000000 <= x * y <= 0x40000000000000000000000000000000)
        by (nonlinear_arith)
        requires
            -0x8000000000000000 <= x <= 0x7fffffffffffffff,
            -0x8000000000000000 <= y <= 0x7fffffffffffffff,
    ;
}

/// A numerator times a (positive) denominator stays strictly inside 2^126,
/// so the sum of two such products fits the `i128` range.
pub proof fn lemma_num_den_mul_in_i128(x: int, y: int)
    requires
        i64::MIN <= x <= i64::MAX,
        1 <= y <= i64::MAX,
    ensures
        -0x3fffffffffffffffffffffffffffffff <= x * y <= 0x3fffffffffffffffffffffffffffffff,
{
    assert(-0x3fffffffffffffffffffffffffffffff <= x * y <= 0x3fffffffffffffffffffffffffffffff)
        by (nonlinear_arith)
        requires
            -0x8000000000000000 <= x <= 0x7fffffffffffffff,
            1 <= y <= 0x7fffffffffffffff,
    ;
}

/// A product of two positive factors is positive.
pub proof fn lemma_pos_mul_pos(x: int, y: int)
    requires
        x >= 1,
        y >= 1,
    ensures
        x * y >= 1,
{
    assert(x * y >= 1) by (nonlinear_arith)
        requires
            x >= 1,
            y >= 1,
    ;
}

/// Executable rational number. Invariant (`wf`): the denominator is at
/// least one. Fractions are not normalised; value equality is `rv_eq`.
#[derive(Clone, Copy, Debug, PartialEq, Eq, Structural)]
pub struct Rat {
    pub num: i64,
    pub den: i64,
}

impl View for Rat {
    type V = RatV;

    open spec fn view(&self) -> RatV {
        RatV { n: self.num as int, d: self.den as int }
    }
}

impl Rat {
    pub open spec fn wf(&self) -> bool {
        self.den >= 1
    }

    /// The rational `i / 1`.
    pub fn from_int(i: i64) -> (r: Rat)
        ensures
            r.wf(),
            r@ == rv_int(i as int),
    {
        Rat { num: i, den: 1 }
    }

    /// The rational `num / den`.
    pub fn ratio(num: i64, den: i64) -> (r: Rat)
        requires
            den >= 1,
        ensures
            r.wf(),
            r@ == (RatV { n: num as int, d: den as int }),
    {
        Rat { num, den }
    }

    /// Exact product, or `None` if the result does not fit.
    pub fn checked_mul(self, b: Rat) -> (r: Option<Rat>)
        requires
            self.wf(),
            b.wf(),
        ensures
            r matches Some(v) ==> v.wf() && v@ == rv_mul(self@, b@),
            r is None <==> !rv_fits(rv_mul(self@, b@)),
    {
        proof {
            lemma_mul_i64_in_i128(self.num as int, b.num as int);
            lemma_pos_mul_pos(self.den as int, b.den as int);
            lemma_num_den_mul_in_i128(self.den as int, b.den as int);
        }
        let n: i128 = (self.num as i128) * (b.num as i128);
        let d: i128 = (self.den as i128) * (b.den as i128);
        if n < i64::MIN as i128 || n > i64::MAX as i128 || d > i64::MAX as i128 {
            None
        } else {
            Some(Rat { num: n as i64, den: d as i64 })
        }
    }

    /// Exact sum, or `None` if the result does not fit.
    pub fn checked_add(self, b: Rat) -> (r: Option<Rat>)
        requires
            self.wf(),
            b.wf(),
        ensures
            r matches Some(v) ==> v.wf() && v@ == rv_add(self@, b@),
            r is None <==> !rv_fits(rv_add(self@, b@)),
    {
        proof {
            lemma_num_den_mul_in_i128(self.num as int, b.den as int);
            lemma_num_den_mul_in_i128(b.num as int, self.den as int);
            lemma_pos_mul_pos(self.den as int, b.den as int);
            lemma_num_den_mul_in_i128(self.den as int, b.den as int);
        }
        let n: i128 = (self.num as i128) * (b.den as i128) + (b.num as i128) * (self.den as i128);
        let d: i128 = (self.den as i128) * (b.den as i128);
        if n < i64::MIN as i128 || n > i64::MAX as i128 || d > i64::MAX as i128 {
            None
        } else {
            Some(Rat { num: n as i64, den: d as i64 })
        }
    }

    /// Exact difference, or `None` if the result does not fit.
    pub fn checked_sub(self, b: Rat) -> (r: Option<Rat>)
        requires
            self.wf(),
            b.wf(),
        ensures
            r matches Some(v) ==> v.wf() && v@ == rv_sub(self@, b@),
            r is None <==> !rv_fits(rv_sub(self@, b@)),
    {
        proof {
            lemma_num_den_mul_in_i128(self.num as int, b.den as int);
            lemma_num_den_mul_in_i128(b.num as int, self.den as int);
            lemma_pos_mul_pos(self.den as int, b.den as int);
            lemma_num_den_mul_in_i128(self.den as int, b.den as int);
            assert((-(b.num as int)) * (self.den as int) == -((b.num as int) * (self.den as int)))
                by (nonlinear_arith);
        }
        let n: i128 = (self.num as i128) * (b.den as i128) - (b.num as i128) * (self.den as i128);
        let d: i128 = (self.den as i128) * (b.den as i128);
        if n < i64::MIN as i128 || n > i64::MAX as i128 || d > i64::MAX as i128 {
            None
        } else {
            Some(Rat { num: n as i64, den: d as i64 })
        }
    }

    /// `self <= b` as rational numbers. Total: the cross products always
    /// fit an `i128`.
    pub fn le(self, b: Rat) -> (r: bool)
        requires
            self.wf(),
            b.wf(),
        ensures
            r == rv_le(self@, b@),
    {
        proof {
            lemma_num_den_mul_in_i128(self.num as int, b.den as int);
            lemma_num_den_mul_in_i128(b.num as int, self.den as int);
        }
        (self.num as i128) * (b.den as i128) <= (b.num as i128) * (self.den as i128)
    }

    /// The smaller of two rationals.
    pub fn min(self, b: Rat) -> (r: Rat)
        requires
            self.wf(),
            b.wf(),
        ensures
            r.wf(),
            r@ == rv_min(self@, b@),
    {
        if self.le(b) {
            self
        } else {
            b
        }
    }

    /// Value equality: do the two fractions denote the same rational?
    pub fn eq_value(self, b: Rat) -> (r: bool)
        requires
            self.wf(),
            b.wf(),
        ensures
            r == rv_eq(self@, b@),
    {
        proof {
            lemma_num_den_mul_in_i128(self.num as int, b.den as int);
            lemma_num_den_mul_in_i128(b.num as int, self.den as int);
        }
        (self.num as i128) * (b.den as i128) == (b.num as i128) * (self.den as i128)
    }
}

} // verus!
