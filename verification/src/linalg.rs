//! Homogeneous 4-component vectors and 4x4 matrices of fixed-point scalars,
//! with the two linear-algebra steps of the pipeline: the perspective divide
//! and the viewport transform (a matrix-vector product).

use vstd::prelude::*;
use crate::fixed::{fx_wf, sat, tdiv, fx_div_spec, fx_div, fx_sat, apply_sign_sat, FX_ONE};

verus! {

/// A homogeneous 4-component vector of fixed-point scalars.
#[derive(Clone, Copy, PartialEq, Eq, Structural, Debug)]
pub struct Vec4 {
    pub x: i64,
    pub y: i64,
    pub z: i64,
    pub w: i64,
}

impl Vec4 {
    /// All four components are well-formed coordinates.
    pub open spec fn wf(self) -> bool {
        fx_wf(self.x as int) && fx_wf(self.y as int) && fx_wf(self.z as int) && fx_wf(
            self.w as int,
        )
    }

    pub fn new(x: i64, y: i64, z: i64, w: i64) -> (r: Vec4)
        ensures
            r == (Vec4 { x, y, z, w }),
    {
        Vec4 { x, y, z, w }
    }

    pub fn zero() -> (r: Vec4)
        ensures
            r == (Vec4 { x: 0i64, y: 0i64, z: 0i64, w: 0i64 }),
    {
        Vec4 { x: 0, y: 0, z: 0, w: 0 }
    }
}

/// Each component saturated into the well-formed coordinate range.
pub open spec fn clamp_coords_spec(v: Vec4) -> Vec4 {
    Vec4 {
        x: sat(v.x as int) as i64,
        y: sat(v.y as int) as i64,
        z: sat(v.z as int) as i64,
        w: sat(v.w as int) as i64,
    }
}

/// Saturate every component of a vector into the well-formed range.
pub fn clamp_coords(v: &Vec4) -> (r: Vec4)
    ensures
        r == clamp_coords_spec(*v),
        r.wf(),
{
    Vec4 { x: fx_sat(v.x), y: fx_sat(v.y), z: fx_sat(v.z), w: fx_sat(v.w) }
}

/// What the perspective divide produces: every component divided by the
/// vector's own `w`, which therefore collapses to one unit.
pub open spec fn perspective_divide_spec(p: Vec4) -> Vec4
    recommends
        p.w != 0,
{
    Vec4 {
        x: fx_div_spec(p.x as int, p.w as int) as i64,
        y: fx_div_spec(p.y as int, p.w as int) as i64,
        z: fx_div_spec(p.z as int, p.w as int) as i64,
        w: fx_div_spec(p.w as int, p.w as int) as i64,
    }
}

/// Divide the position's components by its own `w`. The `w` component is
/// read into a temporary first, since it is itself overwritten by the step.
pub fn perspective_divide(p: &Vec4) -> (r: Vec4)
    requires
        p.wf(),
        p.w != 0,
    ensures
        r == perspective_divide_spec(*p),
        r.wf(),
{
    let w = p.w;
    Vec4 { x: fx_div(p.x, w), y: fx_div(p.y, w), z: fx_div(p.z, w), w: fx_div(w, w) }
}

/// A 4x4 matrix of fixed-point scalars, stored by rows.
#[derive(Clone, Copy, PartialEq, Eq, Structural, Debug)]
pub struct Mat4 {
    pub r0: Vec4,
    pub r1: Vec4,
    pub r2: Vec4,
    pub r3: Vec4,
}

impl Mat4 {
    /// Every entry is a well-formed scalar.
    pub open spec fn wf(self) -> bool {
        self.r0.wf() && self.r1.wf() && self.r2.wf() && self.r3.wf()
    }

    pub fn new(r0: Vec4, r1: Vec4, r2: Vec4, r3: Vec4) -> (r: Mat4)
        ensures
            r == (Mat4 { r0, r1, r2, r3 }),
    {
        Mat4 { r0, r1, r2, r3 }
    }
}

/// What `dot` returns: the inner product of two vectors of scalars,
/// scaled back down, truncated toward zero and saturated.
pub open spec fn dot_spec(a: Vec4, b: Vec4) -> int {
    sat(tdiv(a.x * b.x + a.y * b.y + a.z * b.z + a.w * b.w, FX_ONE as int))
}

/// Inner product of two fixed-point vectors.
pub fn dot(a: &Vec4, b: &Vec4) -> (res: i64)
    requires
        a.wf(),
        b.wf(),
    ensures
        res as int == dot_spec(*a, *b),
        fx_wf(res as int),
{
    proof {
        assert(
            -0x400000000000000000000000 <= (a.x as int) * (b.x as int) <= 0x400000000000000000000000
        ) by (nonlinear_arith)
            requires
                fx_wf(a.x as int),
                fx_wf(b.x as int),
        ;
        assert(
            -0x400000000000000000000000 <= (a.y as int) * (b.y as int) <= 0x400000000000000000000000
        ) by (nonlinear_arith)
            requires
                fx_wf(a.y as int),
                fx_wf(b.y as int),
        ;
        assert(
            -0x400000000000000000000000 <= (a.z as int) * (b.z as int) <= 0x400000000000000000000000
        ) by (nonlinear_arith)
            requires
                fx_wf(a.z as int),
                fx_wf(b.z as int),
        ;
        assert(
            -0x400000000000000000000000 <= (a.w as int) * (b.w as int) <= 0x400000000000000000000000
        ) by (nonlinear_arith)
            requires
                fx_wf(a.w as int),
                fx_wf(b.w as int),
        ;
    }
    let p0: i128 = (a.x as i128) * (b.x as i128);
    let p1: i128 = (a.y as i128) * (b.y as i128);
    let p2: i128 = (a.z as i128) * (b.z as i128);
    let p3: i128 = (a.w as i128) * (b.w as i128);
    let s: i128 = p0 + p1 + p2 + p3;
    let neg = s < 0;
    let m: u128 = if s < 0 {
        (-s) as u128
    } else {
        s as u128
    };
    let q = m / 65536u128;
    apply_sign_sat(q, neg)
}

/// What the viewport transform produces: the matrix-vector product, each
/// component an inner product of a row with the vector.
pub open spec fn transform_spec(m: Mat4, v: Vec4) -> Vec4 {
    Vec4 {
        x: dot_spec(m.r0, v) as i64,
        y: dot_spec(m.r1, v) as i64,
        z: dot_spec(m.r2, v) as i64,
        w: dot_spec(m.r3, v) as i64,
    }
}

/// Multiply a 4x4 matrix with a homogeneous vector.
pub fn transform(m: &Mat4, v: &Vec4) -> (r: Vec4)
    requires
        m.wf(),
        v.wf(),
    ensures
        r == transform_spec(*m, *v),
        r.wf(),
{
    Vec4 { x: dot(&m.r0, v), y: dot(&m.r1, v), z: dot(&m.r2, v), w: dot(&m.r3, v) }
}

} // verus!
