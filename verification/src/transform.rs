//! The view transform and its algebra.
//!
//! Every transform the viewer ever holds is composed from translations and
//! positive uniform scales, so it always has the shape `x |-> s*x + t` with
//! `s > 0`: it is represented by the three rationals `s`, `tx`, `ty` and is
//! therefore always invertible. The mathematical model (`TransformV`) works
//! over unbounded rationals; the executable type reports `None` when an
//! exact result would leave the `i64` fraction representation, so a stored
//! transform always denotes its exact mathematical value.

use vstd::prelude::*;

use crate::rat::{
    lemma_pos_mul_pos, rv_add, rv_eq, rv_fits, rv_int, rv_min, rv_mul, rv_pos, rv_wf, Rat, RatV,
};

verus! {

/// Mathematical view transform: the map `x |-> s*x + (tx, ty)`.
pub ghost struct TransformV {
    pub s: RatV,
    pub tx: RatV,
    pub ty: RatV,
}

/// Well-formed transform: well-formed fractions and a strictly positive
/// scale, so the map is invertible.
pub open spec fn tv_wf(t: TransformV) -> bool {
    rv_wf(t.s) && rv_wf(t.tx) && rv_wf(t.ty) && rv_pos(t.s)
}

/// Two transforms denote the same map.
pub open spec fn tv_eq(a: TransformV, b: TransformV) -> bool {
    rv_eq(a.s, b.s) && rv_eq(a.tx, b.tx) && rv_eq(a.ty, b.ty)
}

pub open spec fn tv_identity() -> TransformV {
    TransformV { s: rv_int(1), tx: rv_int(0), ty: rv_int(0) }
}

pub open spec fn tv_translation(dx: RatV, dy: RatV) -> TransformV {
    TransformV { s: rv_int(1), tx: dx, ty: dy }
}

pub open spec fn tv_scaling(f: RatV) -> TransformV {
    TransformV { s: f, tx: rv_int(0), ty: rv_int(0) }
}

/// Composition `a o b`: apply `b` first, then `a`.
pub open spec fn tv_compose(a: TransformV, b: TransformV) -> TransformV {
    TransformV {
        s: rv_mul(a.s, b.s),
        tx: rv_add(rv_mul(a.s, b.tx), a.tx),
        ty: rv_add(rv_mul(a.s, b.ty), a.ty),
    }
}

/// The x coordinate of the image of the point `(x, _)`.
pub open spec fn tv_apply_x(t: TransformV, x: RatV) -> RatV {
    rv_add(rv_mul(t.s, x), t.tx)
}

/// The y coordinate of the image of the point `(_, y)`.
pub open spec fn tv_apply_y(t: TransformV, y: RatV) -> RatV {
    rv_add(rv_mul(t.s, y), t.ty)
}

/// Pointer drag by `(dx, dy)`: translation composed on the left
/// (post-multiply, a pan in screen space).
pub open spec fn tv_drag(t: TransformV, dx: int, dy: int) -> TransformV {
    tv_compose(tv_translation(rv_int(dx), rv_int(dy)), t)
}

/// Key nudge by `(dx, dy)`: translation composed on the right
/// (pre-multiply, a pan in document space).
pub open spec fn tv_nudge(t: TransformV, dx: int, dy: int) -> TransformV {
    tv_compose(t, tv_translation(rv_int(dx), rv_int(dy)))
}

/// Zoom by factor `f` pivoted on the point `(px, py)`:
/// `translate(p) o scale(f) o translate(-p) o t`.
pub open spec fn tv_zoom(t: TransformV, px: int, py: int, f: RatV) -> TransformV {
    tv_compose(
        tv_translation(rv_int(px), rv_int(py)),
        tv_compose(
            tv_scaling(f),
            tv_compose(tv_translation(rv_int(-px), rv_int(-py)), t),
        ),
    )
}

/// Every intermediate fraction of `tv_compose(a, b)` fits the executable
/// representation.
pub open spec fn tv_compose_fits(a: TransformV, b: TransformV) -> bool {
    rv_fits(rv_mul(a.s, b.s)) && rv_fits(rv_mul(a.s, b.tx)) && rv_fits(
        rv_add(rv_mul(a.s, b.tx), a.tx),
    ) && rv_fits(rv_mul(a.s, b.ty)) && rv_fits(rv_add(rv_mul(a.s, b.ty), a.ty))
}

pub open spec fn tv_drag_fits(t: TransformV, dx: int, dy: int) -> bool {
    tv_compose_fits(tv_translation(rv_int(dx), rv_int(dy)), t)
}

pub open spec fn tv_nudge_fits(t: TransformV, dx: int, dy: int) -> bool {
    tv_compose_fits(t, tv_translation(rv_int(dx), rv_int(dy)))
}

pub open spec fn tv_zoom_fits(t: TransformV, px: int, py: int, f: RatV) -> bool {
    let c1 = tv_compose(tv_translation(rv_int(-px), rv_int(-py)), t);
    let c2 = tv_compose(tv_scaling(f), c1);
    px > i64::MIN && py > i64::MIN && tv_compose_fits(
        tv_translation(rv_int(-px), rv_int(-py)),
        t,
    ) && tv_compose_fits(tv_scaling(f), c1) && tv_compose_fits(
        tv_translation(rv_int(px), rv_int(py)),
        c2,
    )
}

/// Largest window or document dimension the fit computation accepts; keeps
/// every intermediate fraction of the fit transform far inside `i64`.
pub const MAX_DIM: u64 = 1048576;

/// The transform that centres a document of size `dw x dh` in a window of
/// size `ww x wh`, uniformly scaled to fit:
/// `translate(ww/2, wh/2) o scale(min(ww/dw, wh/dh)) o translate(-dw/2, -dh/2)`.
pub open spec fn tv_fit(ww: int, wh: int, dw: int, dh: int) -> TransformV {
    let s = rv_min(RatV { n: ww, d: dw }, RatV { n: wh, d: dh });
    tv_compose(
        tv_translation(RatV { n: ww, d: 2 }, RatV { n: wh, d: 2 }),
        tv_compose(
            tv_scaling(s),
            tv_compose(
                tv_translation(RatV { n: -dw, d: 2 }, RatV { n: -dh, d: 2 }),
                tv_identity(),
            ),
        ),
    )
}

/// Executable view transform: the map `x |-> scale*x + (tx, ty)`.
#[derive(Clone, Copy, Debug, PartialEq, Eq, Structural)]
pub struct Transform {
    pub scale: Rat,
    pub tx: Rat,
    pub ty: Rat,
}

impl View for Transform {
    type V = TransformV;

    open spec fn view(&self) -> TransformV {
        TransformV { s: self.scale@, tx: self.tx@, ty: self.ty@ }
    }
}

impl Transform {
    pub open spec fn wf(&self) -> bool {
        self.scale.wf() && self.tx.wf() && self.ty.wf() && self.scale.num >= 1
    }

    pub fn identity() -> (r: Transform)
        ensures
            r.wf(),
            r@ == tv_identity(),
    {
        Transform { scale: Rat::from_int(1), tx: Rat::from_int(0), ty: Rat::from_int(0) }
    }

    pub fn translation(dx: Rat, dy: Rat) -> (r: Transform)
        requires
            dx.wf(),
            dy.wf(),
        ensures
            r.wf(),
            r@ == tv_translation(dx@, dy@),
    {
        Transform { scale: Rat::from_int(1), tx: dx, ty: dy }
    }

    pub fn translation_int(dx: i64, dy: i64) -> (r: Transform)
        ensures
            r.wf(),
            r@ == tv_translation(rv_int(dx as int), rv_int(dy as int)),
    {
        Transform { scale: Rat::from_int(1), tx: Rat::from_int(dx), ty: Rat::from_int(dy) }
    }

    pub fn scaling(f: Rat) -> (r: Transform)
        requires
            f.wf(),
            f.num >= 1,
        ensures
            r.wf(),
            r@ == tv_scaling(f@),
    {
        Transform { scale: f, tx: Rat::from_int(0), ty: Rat::from_int(0) }
    }

    /// Exact composition `self o b`, or `None` if an intermediate fraction
    /// leaves the executable range.
    pub fn checked_compose(self, b: Transform) -> (r: Option<Transform>)
        requires
            self.wf(),
            b.wf(),
        ensures
            r matches Some(v) ==> v.wf() && v@ == tv_compose(self@, b@),
            r is None <==> !tv_compose_fits(self@, b@),
    {
        let s = match self.scale.checked_mul(b.scale) {
            Some(v) => v,
            None => {
                return None;
            },
        };
        let mx = match self.scale.checked_mul(b.tx) {
            Some(v) => v,
            None => {
                return None;
            },
        };
        let tx = match mx.checked_add(self.tx) {
            Some(v) => v,
            None => {
                return None;
            },
        };
        let my = match self.scale.checked_mul(b.ty) {
            Some(v) => v,
            None => {
                return None;
            },
        };
        let ty = match my.checked_add(self.ty) {
            Some(v) => v,
            None => {
                return None;
            },
        };
        proof {
            lemma_pos_mul_pos(self.scale.num as int, b.scale.num as int);
        }
        Some(Transform { scale: s, tx, ty })
    }

    /// Pointer drag: `translate(dx, dy) o self`, or `None` if the exact
    /// result does not fit.
    pub fn dragged(self, dx: i64, dy: i64) -> (r: Option<Transform>)
        requires
            self.wf(),
        ensures
            r matches Some(v) ==> v.wf() && v@ == tv_drag(self@, dx as int, dy as int),
            r is None <==> !tv_drag_fits(self@, dx as int, dy as int),
    {
        Transform::translation_int(dx, dy).checked_compose(self)
    }

    /// Key nudge: `self o translate(dx, dy)`, or `None` if the exact result
    /// does not fit.
    pub fn nudged(self, dx: i64, dy: i64) -> (r: Option<Transform>)
        requires
            self.wf(),
        ensures
            r matches Some(v) ==> v.wf() && v@ == tv_nudge(self@, dx as int, dy as int),
            r is None <==> !tv_nudge_fits(self@, dx as int, dy as int),
    {
        self.checked_compose(Transform::translation_int(dx, dy))
    }

    /// Zoom by the positive factor `f` pivoted on `(px, py)`, or `None` if
    /// the exact result does not fit.
    pub fn zoomed(self, px: i64, py: i64, f: Rat) -> (r: Option<Transform>)
        requires
            self.wf(),
            f.wf(),
            f.num >= 1,
        ensures
            r matches Some(v) ==> v.wf() && v@ == tv_zoom(self@, px as int, py as int, f@),
            r is None <==> !tv_zoom_fits(self@, px as int, py as int, f@),
    {
        if px == i64::MIN || py == i64::MIN {
            return None;
        }
        let c1 = match Transform::translation_int(-px, -py).checked_compose(self) {
            Some(v) => v,
            None => {
                return None;
            },
        };
        let c2 = match Transform::scaling(f).checked_compose(c1) {
            Some(v) => v,
            None => {
                return None;
            },
        };
        Transform::translation_int(px, py).checked_compose(c2)
    }

    /// The x coordinate of the image of the point `(x, _)`, or `None` if
    /// the exact result does not fit.
    pub fn apply_x(self, x: Rat) -> (r: Option<Rat>)
        requires
            self.wf(),
            x.wf(),
        ensures
            r matches Some(v) ==> v.wf() && v@ == tv_apply_x(self@, x@),
            r is None <==> !(rv_fits(rv_mul(self@.s, x@)) && rv_fits(tv_apply_x(self@, x@))),
    {
        let m = match self.scale.checked_mul(x) {
            Some(v) => v,
            None => {
                return None;
            },
        };
        m.checked_add(self.tx)
    }

    /// The y coordinate of the image of the point `(_, y)`, or `None` if
    /// the exact result does not fit.
    pub fn apply_y(self, y: Rat) -> (r: Option<Rat>)
        requires
            self.wf(),
            y.wf(),
        ensures
            r matches Some(v) ==> v.wf() && v@ == tv_apply_y(self@, y@),
            r is None <==> !(rv_fits(rv_mul(self@.s, y@)) && rv_fits(tv_apply_y(self@, y@))),
    {
        let m = match self.scale.checked_mul(y) {
            Some(v) => v,
            None => {
                return None;
            },
        };
        m.checked_add(self.ty)
    }

    /// The initial view: the document centred in the window and uniformly
    /// scaled to fit (bounded by the tighter of the two axes).
    pub fn fit(win_w: u64, win_h: u64, doc_w: u64, doc_h: u64) -> (r: Transform)
        requires
            1 <= win_w <= MAX_DIM,
            1 <= win_h <= MAX_DIM,
            1 <= doc_w <= MAX_DIM,
            1 <= doc_h <= MAX_DIM,
        ensures
            r.wf(),
            r@ == tv_fit(win_w as int, win_h as int, doc_w as int, doc_h as int),
    {
        let sx = Rat::ratio(win_w as i64, doc_w as i64);
        let sy = Rat::ratio(win_h as i64, doc_h as i64);
        let m = sx.min(sy);
        proof {
            assert(1 <= m@.n <= 0x100000 && 1 <= m@.d <= 0x100000);
        }
        let c = Transform::translation(
            Rat::ratio(-(doc_w as i64), 2),
            Rat::ratio(-(doc_h as i64), 2),
        );
        let inner = match c.checked_compose(Transform::identity()) {
            Some(v) => v,
            None => vstd::pervasive::unreached(),
        };
        proof {
            assert(inner@.tx.n == -(doc_w as int) && inner@.tx.d == 2);
            assert(inner@.ty.n == -(doc_h as int) && inner@.ty.d == 2);
            assert(-0x10000000000 <= m@.n * inner@.tx.n <= -1) by (nonlinear_arith)
                requires
                    1 <= m@.n <= 0x100000,
                    -0x100000 <= inner@.tx.n <= -1,
            ;
            assert(-0x10000000000 <= m@.n * inner@.ty.n <= -1) by (nonlinear_arith)
                requires
                    1 <= m@.n <= 0x100000,
                    -0x100000 <= inner@.ty.n <= -1,
            ;
            assert(tv_compose_fits(tv_scaling(m@), inner@));
        }
        let mid = match Transform::scaling(m).checked_compose(inner) {
            Some(v) => v,
            None => vstd::pervasive::unreached(),
        };
        let p = Transform::translation(
            Rat::ratio(win_w as i64, 2),
            Rat::ratio(win_h as i64, 2),
        );
        proof {
            assert(-0x10000000000 <= mid@.tx.n <= -1 && 1 <= mid@.tx.d <= 0x200000);
            assert(-0x10000000000 <= mid@.ty.n <= -1 && 1 <= mid@.ty.d <= 0x200000);
            assert(1 <= (win_w as int) * mid@.tx.d <= 0x20000000000) by (nonlinear_arith)
                requires
                    1 <= win_w as int <= 0x100000,
                    1 <= mid@.tx.d <= 0x200000,
            ;
            assert(1 <= (win_h as int) * mid@.ty.d <= 0x20000000000) by (nonlinear_arith)
                requires
                    1 <= win_h as int <= 0x100000,
                    1 <= mid@.ty.d <= 0x200000,
            ;
            assert(tv_compose_fits(p@, mid@));
        }
        match p.checked_compose(mid) {
            Some(v) => v,
            None => vstd::pervasive::unreached(),
        }
    }

    /// Value equality: do the two transforms denote the same map?
    pub fn coincides(self, b: Transform) -> (r: bool)
        requires
            self.wf(),
            b.wf(),
        ensures
            r == tv_eq(self@, b@),
    {
        self.scale.eq_value(b.scale) && self.tx.eq_value(b.tx) && self.ty.eq_value(b.ty)
    }
}

/// Fractions with equal components denote equal rationals.
pub proof fn lemma_rv_eq_of_parts(a: RatV, b: RatV)
    requires
        a.n == b.n,
        a.d == b.d,
    ensures
        rv_eq(a, b),
{
}

/// A fraction with numerator zero denotes zero.
pub proof fn lemma_rv_eq_zero_num(a: RatV)
    requires
        a.n == 0,
    ensures
        rv_eq(a, rv_int(0)),
{
    assert(a.n * 1 == 0);
    assert(0 * a.d == 0);
}

/// Rational equality is symmetric.
pub proof fn lemma_rv_eq_sym(a: RatV, b: RatV)
    requires
        rv_eq(a, b),
    ensures
        rv_eq(b, a),
{
}

/// Rational equality is transitive (through a well-formed middle value).
pub proof fn lemma_rv_eq_trans(a: RatV, b: RatV, c: RatV)
    requires
        rv_wf(b),
        rv_eq(a, b),
        rv_eq(b, c),
    ensures
        rv_eq(a, c),
{
    assert(a.n * c.d == c.n * a.d) by (nonlinear_arith)
        requires
            a.n * b.d == b.n * a.d,
            b.n * c.d == c.n * b.d,
            b.d > 0,
    ;
}

/// Applying a transform to a well-formed point gives a well-formed value.
pub proof fn lemma_apply_wf(s: RatV, t: RatV, x: RatV)
    requires
        rv_wf(s),
        rv_wf(t),
        rv_wf(x),
    ensures
        rv_wf(rv_add(rv_mul(s, x), t)),
{
    assert((s.d * x.d) * t.d > 0) by (nonlinear_arith)
        requires
            s.d > 0,
            x.d > 0,
            t.d > 0,
    ;
}

/// Composition preserves well-formedness.
pub proof fn lemma_compose_wf(a: TransformV, b: TransformV)
    requires
        tv_wf(a),
        tv_wf(b),
    ensures
        tv_wf(tv_compose(a, b)),
{
    assert(a.s.n * b.s.n > 0 && a.s.d * b.s.d > 0) by (nonlinear_arith)
        requires
            a.s.n > 0,
            b.s.n > 0,
            a.s.d > 0,
            b.s.d > 0,
    ;
    lemma_apply_wf(a.s, a.tx, b.tx);
    lemma_apply_wf(a.s, a.ty, b.ty);
}

/// `x |-> s*x + t` maps equal rationals to equal rationals.
pub proof fn lemma_apply_congruent(s: RatV, t: RatV, u: RatV, v: RatV)
    requires
        rv_wf(s),
        rv_wf(t),
        rv_wf(u),
        rv_wf(v),
        rv_eq(u, v),
    ensures
        rv_eq(rv_add(rv_mul(s, u), t), rv_add(rv_mul(s, v), t)),
{
    let p1 = (s.n * u.n) * t.d;
    let p2 = t.n * (s.d * u.d);
    let q1 = (s.n * v.n) * t.d;
    let q2 = t.n * (s.d * v.d);
    let da = (s.d * u.d) * t.d;
    let db = (s.d * v.d) * t.d;
    let k = (s.n * t.d) * (s.d * t.d);
    let j = (t.n * s.d) * (s.d * t.d);
    assert((p1 + p2) * db == p1 * db + p2 * db) by (nonlinear_arith);
    assert((q1 + q2) * da == q1 * da + q2 * da) by (nonlinear_arith);
    assert(p1 * db == k * (u.n * v.d)) by (nonlinear_arith)
        requires
            p1 == (s.n * u.n) * t.d,
            db == (s.d * v.d) * t.d,
            k == (s.n * t.d) * (s.d * t.d),
    ;
    assert(q1 * da == k * (v.n * u.d)) by (nonlinear_arith)
        requires
            q1 == (s.n * v.n) * t.d,
            da == (s.d * u.d) * t.d,
            k == (s.n * t.d) * (s.d * t.d),
    ;
    assert(p2 * db == j * (u.d * v.d)) by (nonlinear_arith)
        requires
            p2 == t.n * (s.d * u.d),
            db == (s.d * v.d) * t.d,
            j == (t.n * s.d) * (s.d * t.d),
    ;
    assert(q2 * da == j * (u.d * v.d)) by (nonlinear_arith)
        requires
            q2 == t.n * (s.d * v.d),
            da == (s.d * u.d) * t.d,
            j == (t.n * s.d) * (s.d * t.d),
    ;
    assert(k * (u.n * v.d) == k * (v.n * u.d));
}

/// Applying `a o b` is applying `b`, then `a` (one coordinate; the scale
/// and translation components of the two transforms are passed apart).
#[verifier::rlimit(50)]
pub proof fn lemma_apply_compose(a_s: RatV, a_t: RatV, b_s: RatV, b_t: RatV, x: RatV)
    ensures
        rv_eq(
            rv_add(rv_mul(rv_mul(a_s, b_s), x), rv_add(rv_mul(a_s, b_t), a_t)),
            rv_add(rv_mul(a_s, rv_add(rv_mul(b_s, x), b_t)), a_t),
        ),
{
    let u = rv_add(rv_mul(b_s, x), b_t);
    let l = rv_add(rv_mul(rv_mul(a_s, b_s), x), rv_add(rv_mul(a_s, b_t), a_t));
    let r = rv_add(rv_mul(a_s, u), a_t);
    // The composed fraction is the nested one scaled by a_s.d in both
    // components, so the two denote the same rational.
    let u1 = (b_s.n * x.n) * b_t.d;
    let u2 = b_t.n * (b_s.d * x.d);
    let t1 = ((a_s.n * b_s.n) * x.n) * ((a_s.d * b_t.d) * a_t.d);
    let m1 = (a_s.n * b_t.n) * a_t.d;
    let m2 = a_t.n * (a_s.d * b_t.d);
    let w = (a_s.d * b_s.d) * x.d;
    let r1 = (a_s.n * u.n) * a_t.d;
    let r2 = a_t.n * (a_s.d * u.d);
    assert(l.n == t1 + (m1 + m2) * w);
    assert((m1 + m2) * w == m1 * w + m2 * w) by (nonlinear_arith);
    assert(r1 == (a_s.n * u1) * a_t.d + (a_s.n * u2) * a_t.d) by (nonlinear_arith)
        requires
            r1 == (a_s.n * (u1 + u2)) * a_t.d,
    ;
    assert(a_s.d * r.n == a_s.d * r1 + a_s.d * r2) by (nonlinear_arith)
        requires
            r.n == r1 + r2,
    ;
    assert(a_s.d * r1 == a_s.d * ((a_s.n * u1) * a_t.d) + a_s.d * ((a_s.n * u2) * a_t.d))
        by (nonlinear_arith)
        requires
            r1 == (a_s.n * u1) * a_t.d + (a_s.n * u2) * a_t.d,
    ;
    assert(t1 == a_s.d * ((a_s.n * u1) * a_t.d)) by (nonlinear_arith)
        requires
            t1 == ((a_s.n * b_s.n) * x.n) * ((a_s.d * b_t.d) * a_t.d),
            u1 == (b_s.n * x.n) * b_t.d,
    ;
    assert(m1 * w == a_s.d * ((a_s.n * u2) * a_t.d)) by (nonlinear_arith)
        requires
            m1 == (a_s.n * b_t.n) * a_t.d,
            w == (a_s.d * b_s.d) * x.d,
            u2 == b_t.n * (b_s.d * x.d),
    ;
    assert(m2 * w == a_s.d * r2) by (nonlinear_arith)
        requires
            m2 == a_t.n * (a_s.d * b_t.d),
            w == (a_s.d * b_s.d) * x.d,
            r2 == a_t.n * (a_s.d * ((b_s.d * x.d) * b_t.d)),
    ;
    assert(l.n == a_s.d * r.n);
    assert(l.d == a_s.d * r.d) by (nonlinear_arith)
        requires
            l.d == ((a_s.d * b_s.d) * x.d) * ((a_s.d * b_t.d) * a_t.d),
            u.d == (b_s.d * x.d) * b_t.d,
            r.d == (a_s.d * u.d) * a_t.d,
    ;
    assert(l.n * r.d == r.n * l.d) by (nonlinear_arith)
        requires
            l.n == a_s.d * r.n,
            l.d == a_s.d * r.d,
    ;
}

/// Law (zoom pivot invariance, x coordinate): if the transform maps the
/// point's x coordinate to the pivot's x coordinate, then so does the
/// zoomed transform, for every positive factor.
pub proof fn lemma_zoom_pivot_x(t: TransformV, px: int, py: int, f: RatV, x: RatV)
    requires
        tv_wf(t),
        rv_wf(f),
        rv_pos(f),
        rv_wf(x),
        rv_eq(tv_apply_x(t, x), rv_int(px)),
    ensures
        rv_eq(tv_apply_x(tv_zoom(t, px, py, f), x), rv_int(px)),
{
    let m = tv_translation(rv_int(-px), rv_int(-py));
    let sc = tv_scaling(f);
    let p = tv_translation(rv_int(px), rv_int(py));
    let c1 = tv_compose(m, t);
    let c2 = tv_compose(sc, c1);
    let z = tv_compose(p, c2);
    assert(z == tv_zoom(t, px, py, f));
    lemma_compose_wf(m, t);
    lemma_compose_wf(sc, c1);
    lemma_compose_wf(p, c2);

    let a0 = tv_apply_x(t, x);
    lemma_apply_wf(t.s, t.tx, x);
    // apply(c1, x) == apply(m, apply(t, x)) == apply(m, pivot) == 0
    lemma_apply_compose(m.s, m.tx, t.s, t.tx, x);
    lemma_apply_congruent(m.s, m.tx, a0, rv_int(px));
    let e1 = rv_add(rv_mul(m.s, a0), m.tx);
    let e2 = rv_add(rv_mul(m.s, rv_int(px)), m.tx);
    assert(e2.n == 0) by (nonlinear_arith)
        requires
            e2.n == (1 * px) * 1 + (-px) * (1 * 1),
    ;
    lemma_rv_eq_zero_num(e2);
    lemma_apply_wf(m.s, m.tx, a0);
    lemma_apply_wf(m.s, m.tx, rv_int(px));
    lemma_apply_wf(c1.s, c1.tx, x);
    lemma_rv_eq_trans(tv_apply_x(c1, x), e1, e2);
    lemma_rv_eq_trans(tv_apply_x(c1, x), e2, rv_int(0));

    // apply(c2, x) == apply(sc, apply(c1, x)) == apply(sc, 0) == 0
    lemma_apply_compose(sc.s, sc.tx, c1.s, c1.tx, x);
    lemma_apply_congruent(sc.s, sc.tx, tv_apply_x(c1, x), rv_int(0));
    let e3 = rv_add(rv_mul(sc.s, tv_apply_x(c1, x)), sc.tx);
    let e4 = rv_add(rv_mul(sc.s, rv_int(0)), sc.tx);
    assert(e4.n == 0) by (nonlinear_arith)
        requires
            e4.n == (f.n * 0) * 1 + 0 * (f.d * 1),
    ;
    lemma_rv_eq_zero_num(e4);
    lemma_apply_wf(sc.s, sc.tx, tv_apply_x(c1, x));
    lemma_apply_wf(sc.s, sc.tx, rv_int(0));
    lemma_apply_wf(c2.s, c2.tx, x);
    lemma_rv_eq_trans(tv_apply_x(c2, x), e3, e4);
    lemma_rv_eq_trans(tv_apply_x(c2, x), e4, rv_int(0));

    // apply(z, x) == apply(p, apply(c2, x)) == apply(p, 0) == pivot
    lemma_apply_compose(p.s, p.tx, c2.s, c2.tx, x);
    lemma_apply_congruent(p.s, p.tx, tv_apply_x(c2, x), rv_int(0));
    let e5 = rv_add(rv_mul(p.s, tv_apply_x(c2, x)), p.tx);
    let e6 = rv_add(rv_mul(p.s, rv_int(0)), p.tx);
    assert(e6.n == px && e6.d == 1) by (nonlinear_arith)
        requires
            e6.n == (1 * 0) * 1 + px * (1 * 1),
            e6.d == (1 * 1) * 1,
    ;
    lemma_rv_eq_of_parts(e6, rv_int(px));
    lemma_apply_wf(p.s, p.tx, tv_apply_x(c2, x));
    lemma_apply_wf(p.s, p.tx, rv_int(0));
    lemma_rv_eq_trans(tv_apply_x(z, x), e5, e6);
    lemma_rv_eq_trans(tv_apply_x(z, x), e6, rv_int(px));
}

/// Law (zoom pivot invariance, y coordinate).
pub proof fn lemma_zoom_pivot_y(t: TransformV, px: int, py: int, f: RatV, y: RatV)
    requires
        tv_wf(t),
        rv_wf(f),
        rv_pos(f),
        rv_wf(y),
        rv_eq(tv_apply_y(t, y), rv_int(py)),
    ensures
        rv_eq(tv_apply_y(tv_zoom(t, px, py, f), y), rv_int(py)),
{
    let h = TransformV { s: t.s, tx: t.ty, ty: t.ty };
    lemma_zoom_pivot_x(h, py, px, f, y);
    assert(tv_zoom(t, px, py, f).s == tv_zoom(h, py, px, f).s);
    assert(tv_zoom(t, px, py, f).ty == tv_zoom(h, py, px, f).tx);
}

/// Law (zoom pivot invariance): zooming about a pivot leaves the point
/// whose image is the pivot in place, for every positive factor.
pub proof fn lemma_zoom_pivot_invariant(
    t: TransformV,
    px: int,
    py: int,
    f: RatV,
    x: RatV,
    y: RatV,
)
    requires
        tv_wf(t),
        rv_wf(f),
        rv_pos(f),
        rv_wf(x),
        rv_wf(y),
        rv_eq(tv_apply_x(t, x), rv_int(px)),
        rv_eq(tv_apply_y(t, y), rv_int(py)),
    ensures
        rv_eq(tv_apply_x(tv_zoom(t, px, py, f), x), rv_int(px)),
        rv_eq(tv_apply_y(tv_zoom(t, px, py, f), y), rv_int(py)),
{
    lemma_zoom_pivot_x(t, px, py, f, x);
    lemma_zoom_pivot_y(t, px, py, f, y);
}

/// A nudge by `(dx, dy)` followed by a nudge by `(-dx, -dy)` restores the
/// transform's value.
pub proof fn lemma_nudge_cancel(t: TransformV, dx: int, dy: int)
    requires
        tv_wf(t),
    ensures
        tv_eq(tv_nudge(tv_nudge(t, dx, dy), -dx, -dy), t),
{
    let t1 = tv_nudge(t, dx, dy);
    let t2 = tv_nudge(t1, -dx, -dy);
    assert(t2.s.n == t.s.n && t2.s.d == t.s.d) by (nonlinear_arith)
        requires
            t2.s.n == (t.s.n * 1) * 1,
            t2.s.d == (t.s.d * 1) * 1,
    ;
    lemma_rv_eq_of_parts(t2.s, t.s);
    // Both components of the doubly nudged translation are the original
    // ones scaled by the square of the scale's denominator.
    assert(t2.tx.n == t.tx.n * (t.s.d * t.s.d)) by (nonlinear_arith)
        requires
            t1.s.n == t.s.n * 1,
            t1.s.d == t.s.d * 1,
            t1.tx.n == (t.s.n * dx) * t.tx.d + t.tx.n * (t.s.d * 1),
            t1.tx.d == (t.s.d * 1) * t.tx.d,
            t2.tx.n == (t1.s.n * -dx) * t1.tx.d + t1.tx.n * (t1.s.d * 1),
    ;
    assert(t2.tx.d == t.tx.d * (t.s.d * t.s.d)) by (nonlinear_arith)
        requires
            t1.s.d == t.s.d * 1,
            t1.tx.d == (t.s.d * 1) * t.tx.d,
            t2.tx.d == (t1.s.d * 1) * t1.tx.d,
    ;
    assert(t2.tx.n * t.tx.d == t.tx.n * t2.tx.d) by (nonlinear_arith)
        requires
            t2.tx.n == t.tx.n * (t.s.d * t.s.d),
            t2.tx.d == t.tx.d * (t.s.d * t.s.d),
    ;
    assert(t2.ty.n == t.ty.n * (t.s.d * t.s.d)) by (nonlinear_arith)
        requires
            t1.s.n == t.s.n * 1,
            t1.s.d == t.s.d * 1,
            t1.ty.n == (t.s.n * dy) * t.ty.d + t.ty.n * (t.s.d * 1),
            t1.ty.d == (t.s.d * 1) * t.ty.d,
            t2.ty.n == (t1.s.n * -dy) * t1.ty.d + t1.ty.n * (t1.s.d * 1),
    ;
    assert(t2.ty.d == t.ty.d * (t.s.d * t.s.d)) by (nonlinear_arith)
        requires
            t1.s.d == t.s.d * 1,
            t1.ty.d == (t.s.d * 1) * t.ty.d,
            t2.ty.d == (t1.s.d * 1) * t1.ty.d,
    ;
    assert(t2.ty.n * t.ty.d == t.ty.n * t2.ty.d) by (nonlinear_arith)
        requires
            t2.ty.n == t.ty.n * (t.s.d * t.s.d),
            t2.ty.d == t.ty.d * (t.s.d * t.s.d),
    ;
}

/// Nudging preserves well-formedness.
pub proof fn lemma_nudge_wf(t: TransformV, dx: int, dy: int)
    requires
        tv_wf(t),
    ensures
        tv_wf(tv_nudge(t, dx, dy)),
{
    lemma_compose_wf(t, tv_translation(rv_int(dx), rv_int(dy)));
}

/// Law (key-nudge round trip): four nudges up, down, left and right by the
/// same step return the transform to its starting value.
pub proof fn lemma_nudge_round_trip(t: TransformV, step: int)
    requires
        tv_wf(t),
    ensures
        tv_eq(
            tv_nudge(tv_nudge(tv_nudge(tv_nudge(t, 0, -step), 0, step), -step, 0), step, 0),
            t,
        ),
{
    let t2 = tv_nudge(tv_nudge(t, 0, -step), 0, step);
    let t4 = tv_nudge(tv_nudge(t2, -step, 0), step, 0);
    lemma_nudge_cancel(t, 0, -step);
    assert(tv_eq(t2, t));
    lemma_nudge_wf(t, 0, -step);
    lemma_nudge_wf(tv_nudge(t, 0, -step), 0, step);
    lemma_nudge_cancel(t2, -step, 0);
    assert(tv_eq(t4, t2));
    lemma_rv_eq_trans(t4.s, t2.s, t.s);
    lemma_rv_eq_trans(t4.tx, t2.tx, t.tx);
    lemma_rv_eq_trans(t4.ty, t2.ty, t.ty);
}

/// Law (fit-to-window scale): the fit transform scales by the smaller of
/// the two window/document ratios.
pub proof fn lemma_fit_scale(ww: int, wh: int, dw: int, dh: int)
    requires
        ww >= 1,
        wh >= 1,
        dw >= 1,
        dh >= 1,
    ensures
        rv_eq(tv_fit(ww, wh, dw, dh).s, rv_min(RatV { n: ww, d: dw }, RatV { n: wh, d: dh })),
{
    let s = rv_min(RatV { n: ww, d: dw }, RatV { n: wh, d: dh });
    let fs = tv_fit(ww, wh, dw, dh).s;
    assert(fs.n == s.n && fs.d == s.d) by (nonlinear_arith)
        requires
            fs.n == 1 * (s.n * (1 * 1)),
            fs.d == 1 * (s.d * (1 * 1)),
    ;
    lemma_rv_eq_of_parts(fs, s);
}

/// Law (fit-to-window centring): the fit transform maps the document's
/// centre `(dw/2, dh/2)` to the window's centre `(ww/2, wh/2)`.
pub proof fn lemma_fit_maps_centre(ww: int, wh: int, dw: int, dh: int)
    requires
        ww >= 1,
        wh >= 1,
        dw >= 1,
        dh >= 1,
    ensures
        rv_eq(tv_apply_x(tv_fit(ww, wh, dw, dh), RatV { n: dw, d: 2 }), RatV { n: ww, d: 2 }),
        rv_eq(tv_apply_y(tv_fit(ww, wh, dw, dh), RatV { n: dh, d: 2 }), RatV { n: wh, d: 2 }),
{
    let s = rv_min(RatV { n: ww, d: dw }, RatV { n: wh, d: dh });
    let ii = tv_identity();
    let c = tv_translation(RatV { n: -dw, d: 2 }, RatV { n: -dh, d: 2 });
    let sc = tv_scaling(s);
    let p = tv_translation(RatV { n: ww, d: 2 }, RatV { n: wh, d: 2 });
    let c1 = tv_compose(c, ii);
    let c2 = tv_compose(sc, c1);
    let z = tv_compose(p, c2);
    assert(z == tv_fit(ww, wh, dw, dh));
    assert(rv_wf(s));
    lemma_compose_wf(c, ii);
    lemma_compose_wf(sc, c1);
    lemma_compose_wf(p, c2);

    let xc = RatV { n: dw, d: 2 };
    let yc = RatV { n: dh, d: 2 };

    // x coordinate
    lemma_apply_compose(c.s, c.tx, ii.s, ii.tx, xc);
    let a0 = rv_add(rv_mul(ii.s, xc), ii.tx);
    lemma_apply_wf(ii.s, ii.tx, xc);
    assert(a0.n == dw && a0.d == 2) by (nonlinear_arith)
        requires
            a0.n == (1 * dw) * 1 + 0 * (1 * 2),
            a0.d == (1 * 2) * 1,
    ;
    lemma_rv_eq_of_parts(a0, xc);
    lemma_apply_congruent(c.s, c.tx, a0, xc);
    let e1 = rv_add(rv_mul(c.s, a0), c.tx);
    let e2 = rv_add(rv_mul(c.s, xc), c.tx);
    assert(e2.n == 0) by (nonlinear_arith)
        requires
            e2.n == (1 * dw) * 2 + (-dw) * (1 * 2),
    ;
    lemma_rv_eq_zero_num(e2);
    lemma_apply_wf(c.s, c.tx, a0);
    lemma_apply_wf(c.s, c.tx, xc);
    lemma_apply_wf(c1.s, c1.tx, xc);
    lemma_rv_eq_trans(tv_apply_x(c1, xc), e1, e2);
    lemma_rv_eq_trans(tv_apply_x(c1, xc), e2, rv_int(0));

    lemma_apply_compose(sc.s, sc.tx, c1.s, c1.tx, xc);
    lemma_apply_congruent(sc.s, sc.tx, tv_apply_x(c1, xc), rv_int(0));
    let e3 = rv_add(rv_mul(sc.s, tv_apply_x(c1, xc)), sc.tx);
    let e4 = rv_add(rv_mul(sc.s, rv_int(0)), sc.tx);
    assert(e4.n == 0) by (nonlinear_arith)
        requires
            e4.n == (s.n * 0) * 1 + 0 * (s.d * 1),
    ;
    lemma_rv_eq_zero_num(e4);
    lemma_apply_wf(sc.s, sc.tx, tv_apply_x(c1, xc));
    lemma_apply_wf(sc.s, sc.tx, rv_int(0));
    lemma_apply_wf(c2.s, c2.tx, xc);
    lemma_rv_eq_trans(tv_apply_x(c2, xc), e3, e4);
    lemma_rv_eq_trans(tv_apply_x(c2, xc), e4, rv_int(0));

    lemma_apply_compose(p.s, p.tx, c2.s, c2.tx, xc);
    lemma_apply_congruent(p.s, p.tx, tv_apply_x(c2, xc), rv_int(0));
    let e5 = rv_add(rv_mul(p.s, tv_apply_x(c2, xc)), p.tx);
    let e6 = rv_add(rv_mul(p.s, rv_int(0)), p.tx);
    assert(e6.n == ww && e6.d == 2) by (nonlinear_arith)
        requires
            e6.n == (1 * 0) * 2 + ww * (1 * 1),
            e6.d == (1 * 1) * 2,
    ;
    lemma_rv_eq_of_parts(e6, (RatV { n: ww, d: 2 }));
    lemma_apply_wf(p.s, p.tx, tv_apply_x(c2, xc));
    lemma_apply_wf(p.s, p.tx, rv_int(0));
    lemma_rv_eq_trans(tv_apply_x(z, xc), e5, e6);
    lemma_rv_eq_trans(tv_apply_x(z, xc), e6, (RatV { n: ww, d: 2 }));

    // y coordinate
    lemma_apply_compose(c.s, c.ty, ii.s, ii.ty, yc);
    let b0 = rv_add(rv_mul(ii.s, yc), ii.ty);
    lemma_apply_wf(ii.s, ii.ty, yc);
    assert(b0.n == dh && b0.d == 2) by (nonlinear_arith)
        requires
            b0.n == (1 * dh) * 1 + 0 * (1 * 2),
            b0.d == (1 * 2) * 1,
    ;
    lemma_rv_eq_of_parts(b0, yc);
    lemma_apply_congruent(c.s, c.ty, b0, yc);
    let g1 = rv_add(rv_mul(c.s, b0), c.ty);
    let g2 = rv_add(rv_mul(c.s, yc), c.ty);
    assert(g2.n == 0) by (nonlinear_arith)
        requires
            g2.n == (1 * dh) * 2 + (-dh) * (1 * 2),
    ;
    lemma_rv_eq_zero_num(g2);
    lemma_apply_wf(c.s, c.ty, b0);
    lemma_apply_wf(c.s, c.ty, yc);
    lemma_apply_wf(c1.s, c1.ty, yc);
    lemma_rv_eq_trans(tv_apply_y(c1, yc), g1, g2);
    lemma_rv_eq_trans(tv_apply_y(c1, yc), g2, rv_int(0));

    lemma_apply_compose(sc.s, sc.ty, c1.s, c1.ty, yc);
    lemma_apply_congruent(sc.s, sc.ty, tv_apply_y(c1, yc), rv_int(0));
    let g3 = rv_add(rv_mul(sc.s, tv_apply_y(c1, yc)), sc.ty);
    let g4 = rv_add(rv_mul(sc.s, rv_int(0)), sc.ty);
    assert(g4.n == 0) by (nonlinear_arith)
        requires
            g4.n == (s.n * 0) * 1 + 0 * (s.d * 1),
    ;
    lemma_rv_eq_zero_num(g4);
    lemma_apply_wf(sc.s, sc.ty, tv_apply_y(c1, yc));
    lemma_apply_wf(sc.s, sc.ty, rv_int(0));
    lemma_apply_wf(c2.s, c2.ty, yc);
    lemma_rv_eq_trans(tv_apply_y(c2, yc), g3, g4);
    lemma_rv_eq_trans(tv_apply_y(c2, yc), g4, rv_int(0));

    lemma_apply_compose(p.s, p.ty, c2.s, c2.ty, yc);
    lemma_apply_congruent(p.s, p.ty, tv_apply_y(c2, yc), rv_int(0));
    let g5 = rv_add(rv_mul(p.s, tv_apply_y(c2, yc)), p.ty);
    let g6 = rv_add(rv_mul(p.s, rv_int(0)), p.ty);
    assert(g6.n == wh && g6.d == 2) by (nonlinear_arith)
        requires
            g6.n == (1 * 0) * 2 + wh * (1 * 1),
            g6.d == (1 * 1) * 2,
    ;
    lemma_rv_eq_of_parts(g6, (RatV { n: wh, d: 2 }));
    lemma_apply_wf(p.s, p.ty, tv_apply_y(c2, yc));
    lemma_apply_wf(p.s, p.ty, rv_int(0));
    lemma_rv_eq_trans(tv_apply_y(z, yc), g5, g6);
    lemma_rv_eq_trans(tv_apply_y(z, yc), g6, (RatV { n: wh, d: 2 }));
}

} // verus!
