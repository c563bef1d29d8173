//! Scan conversion: the signed edge function and its inside test, the
//! winding-invariance law, triangle bounding boxes, and color packing.

use vstd::prelude::*;
use vstd::arithmetic::div_mod::lemma_div_is_ordered;
use crate::fixed::{fx_wf, fx_floor, fx_floor_spec, FX_ONE, FX_HALF};
use crate::linalg::Vec4;

verus! {

/// The signed edge function of the directed edge `(x1,y1) -> (x2,y2)` at a
/// sample point `(px,py)`: zero exactly on the line through the two
/// vertices, its sign telling which side of the edge the sample falls on.
pub open spec fn edge_spec(x1: int, y1: int, x2: int, y2: int, px: int, py: int) -> int {
    (x1 - px) * (y2 - y1) - (y1 - py) * (x2 - x1)
}

/// Evaluate one edge function exactly: with well-formed coordinates every
/// intermediate value fits in an `i128`.
pub fn edge(x1: i64, y1: i64, x2: i64, y2: i64, px: i64, py: i64) -> (e: i128)
    requires
        fx_wf(x1 as int),
        fx_wf(y1 as int),
        fx_wf(x2 as int),
        fx_wf(y2 as int),
        fx_wf(px as int),
        fx_wf(py as int),
    ensures
        e as int == edge_spec(x1 as int, y1 as int, x2 as int, y2 as int, px as int, py as int),
{
    let a: i128 = (x1 as i128) - (px as i128);
    let b: i128 = (y2 as i128) - (y1 as i128);
    let c: i128 = (y1 as i128) - (py as i128);
    let d: i128 = (x2 as i128) - (x1 as i128);
    proof {
        assert(-0x1000000000000000000000000 <= (a as int) * (b as int)
            <= 0x1000000000000000000000000) by (nonlinear_arith)
            requires
                -0x1000000000000 <= a as int <= 0x1000000000000,
                -0x1000000000000 <= b as int <= 0x1000000000000,
        ;
        assert(-0x1000000000000000000000000 <= (c as int) * (d as int)
            <= 0x1000000000000000000000000) by (nonlinear_arith)
            requires
                -0x1000000000000 <= c as int <= 0x1000000000000,
                -0x1000000000000 <= d as int <= 0x1000000000000,
        ;
    }
    a * b - c * d
}

/// The inside test at a sample point: the sample is covered exactly when
/// all three edge functions of the triangle's directed edges, taken in
/// vertex order, lie on the same side — all nonnegative or all strictly
/// negative, whichever way the triangle is wound.
pub open spec fn inside_spec(v0: Vec4, v1: Vec4, v2: Vec4, px: int, py: int) -> bool {
    let e0 = edge_spec(v0.x as int, v0.y as int, v1.x as int, v1.y as int, px, py);
    let e1 = edge_spec(v1.x as int, v1.y as int, v2.x as int, v2.y as int, px, py);
    let e2 = edge_spec(v2.x as int, v2.y as int, v0.x as int, v0.y as int, px, py);
    (e0 >= 0 && e1 >= 0 && e2 >= 0) || (e0 < 0 && e1 < 0 && e2 < 0)
}

/// The edge-function inside test. Bit k of the mask records that edge k
/// sees the sample on its nonnegative side; the sample is covered when the
/// mask is 0 or 7, which makes the rasterizer winding-order-agnostic (at
/// the cost of also covering perfectly degenerate triangles).
pub fn in_triangle(v0: &Vec4, v1: &Vec4, v2: &Vec4, px: i64, py: i64) -> (r: bool)
    requires
        v0.wf(),
        v1.wf(),
        v2.wf(),
        fx_wf(px as int),
        fx_wf(py as int),
    ensures
        r == inside_spec(*v0, *v1, *v2, px as int, py as int),
{
    let e0 = edge(v0.x, v0.y, v1.x, v1.y, px, py);
    let e1 = edge(v1.x, v1.y, v2.x, v2.y, px, py);
    let e2 = edge(v2.x, v2.y, v0.x, v0.y, px, py);
    let mut check: u8 = 0;
    if e0 >= 0 {
        check = check + 1;
    }
    if e1 >= 0 {
        check = check + 2;
    }
    if e2 >= 0 {
        check = check + 4;
    }
    check == 0 || check == 7
}

/// Reversing a directed edge negates its edge function.
pub proof fn lemma_edge_reversal(x1: int, y1: int, x2: int, y2: int, px: int, py: int)
    ensures
        edge_spec(x2, y2, x1, y1, px, py) == -edge_spec(x1, y1, x2, y2, px, py),
{
    assert((x2 - px) * (y1 - y2) - (y2 - py) * (x1 - x2) == -((x1 - px) * (y2 - y1) - (y1 - py) * (
    x2 - x1))) by (nonlinear_arith);
}

/// Winding invariance of the inside test: a triangle and its
/// vertex-reversed counterpart (the same geometry, wound the other way)
/// cover the same samples, for every sample that none of the three edge
/// lines passes through. A sample exactly on an edge line flips its
/// nonnegative-side flag when the edge reverses, so such a sample can be
/// covered under one winding only.
pub proof fn lemma_winding_invariance(v0: Vec4, v1: Vec4, v2: Vec4, px: int, py: int)
    requires
        edge_spec(v0.x as int, v0.y as int, v1.x as int, v1.y as int, px, py) != 0,
        edge_spec(v1.x as int, v1.y as int, v2.x as int, v2.y as int, px, py) != 0,
        edge_spec(v2.x as int, v2.y as int, v0.x as int, v0.y as int, px, py) != 0,
    ensures
        inside_spec(v0, v1, v2, px, py) == inside_spec(v2, v1, v0, px, py),
{
    lemma_edge_reversal(v1.x as int, v1.y as int, v2.x as int, v2.y as int, px, py);
    lemma_edge_reversal(v0.x as int, v0.y as int, v1.x as int, v1.y as int, px, py);
    lemma_edge_reversal(v2.x as int, v2.y as int, v0.x as int, v0.y as int, px, py);
}

/// The smallest of three values.
pub open spec fn min3(a: int, b: int, c: int) -> int {
    if a <= b && a <= c {
        a
    } else if b <= c {
        b
    } else {
        c
    }
}

/// The largest of three values.
pub open spec fn max3(a: int, b: int, c: int) -> int {
    if a >= b && a >= c {
        a
    } else if b >= c {
        b
    } else {
        c
    }
}

/// One side of a triangle's pixel bounding box: the floor of the smallest
/// of the three coordinates on an axis.
pub fn min3_floor(a: i64, b: i64, c: i64) -> (r: i64)
    requires
        fx_wf(a as int),
        fx_wf(b as int),
        fx_wf(c as int),
    ensures
        r as int == fx_floor_spec(min3(a as int, b as int, c as int)),
        fx_wf(r as int),
{
    let m = if a <= b && a <= c {
        a
    } else if b <= c {
        b
    } else {
        c
    };
    fx_floor(m)
}

/// One side of a triangle's pixel bounding box: the floor of the largest
/// of the three coordinates on an axis.
pub fn max3_floor(a: i64, b: i64, c: i64) -> (r: i64)
    requires
        fx_wf(a as int),
        fx_wf(b as int),
        fx_wf(c as int),
    ensures
        r as int == fx_floor_spec(max3(a as int, b as int, c as int)),
        fx_wf(r as int),
{
    let m = if a >= b && a >= c {
        a
    } else if b >= c {
        b
    } else {
        c
    };
    fx_floor(m)
}

/// A color component clamped into [0, one].
pub open spec fn clamp01_s(v: int) -> int {
    if v < 0 {
        0
    } else if v > FX_ONE as int {
        FX_ONE as int
    } else {
        v
    }
}

/// A color clamped component-wise into [0, one].
pub open spec fn clamp01_spec(c: Vec4) -> Vec4 {
    Vec4 {
        x: clamp01_s(c.x as int) as i64,
        y: clamp01_s(c.y as int) as i64,
        z: clamp01_s(c.z as int) as i64,
        w: clamp01_s(c.w as int) as i64,
    }
}

/// One component of `clamp01`.
fn clamp01_c(v: i64) -> (r: i64)
    ensures
        r as int == clamp01_s(v as int),
{
    if v < 0 {
        0
    } else if v > FX_ONE {
        FX_ONE
    } else {
        v
    }
}

/// Clamp a color component-wise into [0, one] before packing.
pub fn clamp01(c: &Vec4) -> (r: Vec4)
    ensures
        r == clamp01_spec(*c),
        0 <= r.x <= FX_ONE,
        0 <= r.y <= FX_ONE,
        0 <= r.z <= FX_ONE,
        0 <= r.w <= FX_ONE,
{
    Vec4 { x: clamp01_c(c.x), y: clamp01_c(c.y), z: clamp01_c(c.z), w: clamp01_c(c.w) }
}

/// One 8-bit channel: a fixed-point value in [0, 1] scaled by 255 and
/// rounded to the nearest integer (half rounds up).
pub open spec fn channel_spec(c: int) -> int
    recommends
        0 <= c <= FX_ONE as int,
{
    (c * 255 + FX_HALF as int) / (FX_ONE as int)
}

/// What `vec4_to_0rgb` returns: red in bits 23..16, green in bits 15..8,
/// blue in bits 7..0; the top byte zero. The alpha component is accepted
/// as an output but discarded.
pub open spec fn pack_spec(c: Vec4) -> int {
    channel_spec(c.x as int) * 65536 + channel_spec(c.y as int) * 256 + channel_spec(c.z as int)
}

/// One packed channel.
fn channel(v: i64) -> (r: u32)
    requires
        0 <= v <= FX_ONE,
    ensures
        r as int == channel_spec(v as int),
        r <= 255,
{
    let t: u64 = (v as u64) * 255 + 32768;
    let q = t / 65536;
    proof {
        lemma_div_is_ordered(t as int, 16744448, 65536);
    }
    q as u32
}

/// Pack a color whose components lie in [0, 1] into a 0xRRGGBB word.
pub fn vec4_to_0rgb(c: &Vec4) -> (r: u32)
    requires
        0 <= c.x <= FX_ONE,
        0 <= c.y <= FX_ONE,
        0 <= c.z <= FX_ONE,
    ensures
        r as int == pack_spec(*c),
{
    let cr = channel(c.x);
    let cg = channel(c.y);
    let cb = channel(c.z);
    cr * 65536 + cg * 256 + cb
}

} // verus!
