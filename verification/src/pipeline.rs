//! The pipeline orchestrator: one draw call over a vertex stream.
//!
//! A draw call is strictly sequential by primitive (triangle) in submission
//! order, so later primitives overwrite earlier ones where they overlap.
//! For each primitive the pipeline shades its three vertices, saturates the
//! positions into the coordinate range, performs the perspective divide
//! (rejecting a primitive whose vertex comes back with w = 0, where no
//! divide is defined), applies the viewport matrix, computes the clamped
//! pixel bounding box, and for every box pixel whose center passes the
//! inside test invokes the fragment stage and overwrites the framebuffer
//! word. Pixels outside a triangle's footprint are never touched, and a
//! rejected draw call writes nothing at all.

use vstd::prelude::*;
use std::sync::Arc;
use vstd::arithmetic::div_mod::{
    lemma_fundamental_div_mod,
    lemma_fundamental_div_mod_converse_div,
    lemma_fundamental_div_mod_converse_mod,
};
use crate::bind_group::{BindGroup, BindGroupCreateInfo, BindGroupEntry, entries_valid, share_arc};
use crate::fixed::{fx_wf, fx_floor_spec, FX_ONE, FX_HALF};
use crate::linalg::{
    Vec4, Mat4, clamp_coords, clamp_coords_spec, perspective_divide, perspective_divide_spec,
    transform, transform_spec,
};
use crate::raster::{
    inside_spec, in_triangle, min3, max3, min3_floor, max3_floor, clamp01, clamp01_spec, pack_spec,
    vec4_to_0rgb,
};
use crate::shader::{VertexShader, FragmentShader, VertexShaderState, FragmentShaderState};

verus! {

/// Why a draw call was rejected.
#[derive(Clone, Copy, PartialEq, Eq, Structural, Debug)]
pub enum DrawError {
    /// For triangle primitives, the number of vertices to draw must be
    /// divisible by 3.
    BadPrimitiveCount,
}

/// The fixed-point sample coordinate of a pixel's center.
pub open spec fn sample_c(i: int) -> int {
    i * (FX_ONE as int) + FX_HALF as int
}

/// The built-in position a fragment stage sees for pixel (x, y): the
/// pixel-center sample, z fixed at 0 and w at one unit (no interpolation).
pub open spec fn frag_position_spec(x: int, y: int) -> Vec4 {
    Vec4 { x: sample_c(x) as i64, y: sample_c(y) as i64, z: 0, w: FX_ONE }
}

/// The packed color the pipeline writes into pixel (x, y): the fragment
/// stage's model at the pixel-center sample, clamped into [0,1], packed.
pub open spec fn frag_color_spec<F: FragmentShader>(fs: &F, x: int, y: int) -> int {
    pack_spec(clamp01_spec(fs.fragment_spec(frag_position_spec(x, y))))
}

/// The pixel bounding box of a screen-space triangle, clamped to the
/// framebuffer: the floors of the coordinate minima and maxima per axis,
/// as (x0, x1, y0, y1). The box is empty when x0 > x1 or y0 > y1.
pub open spec fn bbox_spec(v0: Vec4, v1: Vec4, v2: Vec4, width: int, height: int) -> (
    int,
    int,
    int,
    int,
) {
    let x0 = fx_floor_spec(min3(v0.x as int, v1.x as int, v2.x as int));
    let x1 = fx_floor_spec(max3(v0.x as int, v1.x as int, v2.x as int));
    let y0 = fx_floor_spec(min3(v0.y as int, v1.y as int, v2.y as int));
    let y1 = fx_floor_spec(max3(v0.y as int, v1.y as int, v2.y as int));
    (
        if x0 < 0 {
            0
        } else {
            x0
        },
        if x1 > width - 1 {
            width - 1
        } else {
            x1
        },
        if y0 < 0 {
            0
        } else {
            y0
        },
        if y1 > height - 1 {
            height - 1
        } else {
            y1
        },
    )
}

/// Whether the rasterizer covers pixel (x, y) with the given screen-space
/// triangle: the pixel lies in the clamped bounding box and its center
/// passes the inside test.
pub open spec fn covered_spec(
    v0: Vec4,
    v1: Vec4,
    v2: Vec4,
    width: int,
    height: int,
    x: int,
    y: int,
) -> bool {
    let (x0, x1, y0, y1) = bbox_spec(v0, v1, v2, width, height);
    x0 <= x <= x1 && y0 <= y <= y1 && inside_spec(v0, v1, v2, sample_c(x), sample_c(y))
}

/// Winding invariance of rasterization: a triangle and its vertex-reversed
/// counterpart (the same geometry, wound the other way) cover the same
/// pixels — their bounding boxes agree, and the inside test is
/// winding-order-agnostic at every pixel whose center none of the three
/// edge lines passes through. A pixel center exactly on an edge line can be
/// covered under one winding only (see `lemma_winding_invariance`).
pub proof fn lemma_winding_covered(
    v0: Vec4,
    v1: Vec4,
    v2: Vec4,
    width: int,
    height: int,
    x: int,
    y: int,
)
    requires
        crate::raster::edge_spec(
            v0.x as int,
            v0.y as int,
            v1.x as int,
            v1.y as int,
            sample_c(x),
            sample_c(y),
        ) != 0,
        crate::raster::edge_spec(
            v1.x as int,
            v1.y as int,
            v2.x as int,
            v2.y as int,
            sample_c(x),
            sample_c(y),
        ) != 0,
        crate::raster::edge_spec(
            v2.x as int,
            v2.y as int,
            v0.x as int,
            v0.y as int,
            sample_c(x),
            sample_c(y),
        ) != 0,
    ensures
        covered_spec(v0, v1, v2, width, height, x, y) == covered_spec(
            v2,
            v1,
            v0,
            width,
            height,
            x,
            y,
        ),
{
    crate::raster::lemma_winding_invariance(v0, v1, v2, sample_c(x), sample_c(y));
}

/// The value pixel slot `k` of a row-major framebuffer holds after one
/// triangle: the fragment stage's packed color where the triangle covers
/// the pixel, the old value everywhere else.
pub open spec fn raster_px_spec<F: FragmentShader>(
    fs: &F,
    fb: Seq<u32>,
    width: int,
    height: int,
    v0: Vec4,
    v1: Vec4,
    v2: Vec4,
    k: int,
) -> u32 {
    if covered_spec(v0, v1, v2, width, height, k % width, k / width) {
        frag_color_spec(fs, k % width, k / width) as u32
    } else {
        fb[k]
    }
}

/// The framebuffer after rasterizing one screen-space triangle into it.
pub open spec fn raster_fb_spec<F: FragmentShader>(
    fs: &F,
    fb: Seq<u32>,
    width: int,
    height: int,
    v0: Vec4,
    v1: Vec4,
    v2: Vec4,
) -> Seq<u32> {
    Seq::new(fb.len(), |k: int| raster_px_spec(fs, fb, width, height, v0, v1, v2, k))
}

/// Winding invariance of rasterization at the framebuffer level: when no
/// pixel center of the target lies exactly on one of the triangle's edge
/// lines, rasterizing the triangle and its vertex-reversed counterpart
/// leaves identical framebuffers — the covered-pixel sets coincide, and a
/// covered pixel's color depends on its position alone.
pub proof fn lemma_winding_raster<F: FragmentShader>(
    fs: &F,
    fb: Seq<u32>,
    width: int,
    height: int,
    v0: Vec4,
    v1: Vec4,
    v2: Vec4,
)
    requires
        width >= 1,
        height >= 1,
        fb.len() == width * height,
        forall|x: int, y: int|
            0 <= x < width && 0 <= y < height ==> crate::raster::edge_spec(
                v0.x as int,
                v0.y as int,
                v1.x as int,
                v1.y as int,
                sample_c(x),
                sample_c(y),
            ) != 0 && crate::raster::edge_spec(
                v1.x as int,
                v1.y as int,
                v2.x as int,
                v2.y as int,
                sample_c(x),
                sample_c(y),
            ) != 0 && crate::raster::edge_spec(
                v2.x as int,
                v2.y as int,
                v0.x as int,
                v0.y as int,
                sample_c(x),
                sample_c(y),
            ) != 0,
    ensures
        raster_fb_spec(fs, fb, width, height, v0, v1, v2) == raster_fb_spec(
            fs,
            fb,
            width,
            height,
            v2,
            v1,
            v0,
        ),
{
    assert forall|k: int| 0 <= k < fb.len() implies raster_px_spec(
        fs,
        fb,
        width,
        height,
        v0,
        v1,
        v2,
        k,
    ) == raster_px_spec(fs, fb, width, height, v2, v1, v0, k) by {
        let x = k % width;
        let y = k / width;
        vstd::arithmetic::div_mod::lemma_mod_division_less_than_divisor(k, width);
        vstd::arithmetic::div_mod::lemma_div_pos_is_pos(k, width);
        assert(width * height - 1 == (height - 1) * width + (width - 1)) by (nonlinear_arith);
        lemma_fundamental_div_mod_converse_div(width * height - 1, width, height - 1, width - 1);
        vstd::arithmetic::div_mod::lemma_div_is_ordered(k, width * height - 1, width);
        lemma_winding_covered(v0, v1, v2, width, height, x, y);
    }
    assert(raster_fb_spec(fs, fb, width, height, v0, v1, v2) =~= raster_fb_spec(
        fs,
        fb,
        width,
        height,
        v2,
        v1,
        v0,
    ));
}

/// The three screen-space vertices of primitive `i`: the vertex stage's
/// outputs saturated into the coordinate range, divided by their own `w`,
/// and sent through the viewport matrix — unless a vertex comes back with
/// w = 0, for which the whole primitive is rejected.
pub open spec fn tri_screen_spec<V: VertexShader>(
    vs: &V,
    buffers: Seq<Seq<i64>>,
    viewport: Mat4,
    i: int,
) -> Option<(Vec4, Vec4, Vec4)> {
    let p0 = clamp_coords_spec(vs.vertex_spec(i, 0, buffers));
    let p1 = clamp_coords_spec(vs.vertex_spec(i, 1, buffers));
    let p2 = clamp_coords_spec(vs.vertex_spec(i, 2, buffers));
    if p0.w == 0 || p1.w == 0 || p2.w == 0 {
        None
    } else {
        Some(
            (
                transform_spec(viewport, perspective_divide_spec(p0)),
                transform_spec(viewport, perspective_divide_spec(p1)),
                transform_spec(viewport, perspective_divide_spec(p2)),
            ),
        )
    }
}

/// The framebuffer after primitive `i`: unchanged for a rejected
/// primitive, otherwise with the primitive's triangle rasterized in.
pub open spec fn draw_prim_spec<V: VertexShader, F: FragmentShader>(
    vs: &V,
    fs: &F,
    buffers: Seq<Seq<i64>>,
    viewport: Mat4,
    width: int,
    height: int,
    fb: Seq<u32>,
    i: int,
) -> Seq<u32> {
    match tri_screen_spec(vs, buffers, viewport, i) {
        None => fb,
        Some(t) => raster_fb_spec(fs, fb, width, height, t.0, t.1, t.2),
    }
}

/// The framebuffer after the first `n` primitives, in submission order:
/// later primitives overwrite earlier ones where they overlap.
pub open spec fn draw_upto_spec<V: VertexShader, F: FragmentShader>(
    vs: &V,
    fs: &F,
    buffers: Seq<Seq<i64>>,
    viewport: Mat4,
    width: int,
    height: int,
    fb0: Seq<u32>,
    n: nat,
) -> Seq<u32>
    decreases n,
{
    if n == 0 {
        fb0
    } else {
        draw_prim_spec(
            vs,
            fs,
            buffers,
            viewport,
            width,
            height,
            draw_upto_spec(vs, fs, buffers, viewport, width, height, fb0, (n - 1) as nat),
            n - 1,
        )
    }
}

/// Run the vertex stage on a fresh invocation context for one
/// (primitive, vertex) pair and hand back the position it wrote.
fn run_vertex<V: VertexShader>(
    vs: &V,
    primitive_id: usize,
    vertex_id: usize,
    bind_group: &Arc<BindGroup>,
) -> (p: Vec4)
    ensures
        p == vs.vertex_spec(primitive_id as int, vertex_id as int, bind_group@),
{
    let mut state = VertexShaderState::new(primitive_id, vertex_id, bind_group);
    vs.vertex(&mut state);
    *state.builtin_position()
}

/// Run the fragment stage on a fresh invocation context for one covered
/// pixel-center sample and pack the color it wrote.
fn shade_fragment<F: FragmentShader>(fs: &F, px: i64, py: i64) -> (c: u32)
    requires
        fx_wf(px as int),
        fx_wf(py as int),
    ensures
        c as int == pack_spec(
            clamp01_spec(fs.fragment_spec(Vec4 { x: px, y: py, z: 0, w: FX_ONE })),
        ),
{
    let mut state = FragmentShaderState::new(px, py, 0, FX_ONE);
    fs.fragment(&mut state);
    let color = clamp01(state.builtin_color());
    vec4_to_0rgb(&color)
}

/// Rasterize one screen-space triangle: every pixel of its clamped
/// bounding box whose center passes the inside test is shaded and
/// overwritten; no other pixel is touched.
fn render_primitive<F: FragmentShader>(
    fs: &F,
    framebuffer: &mut Vec<u32>,
    width: usize,
    height: usize,
    v0: &Vec4,
    v1: &Vec4,
    v2: &Vec4,
)
    requires
        old(framebuffer)@.len() == width * height,
        width <= 0x7fffffff,
        height <= 0x7fffffff,
        v0.wf(),
        v1.wf(),
        v2.wf(),
    ensures
        final(framebuffer)@ == raster_fb_spec(
            fs,
            old(framebuffer)@,
            width as int,
            height as int,
            *v0,
            *v1,
            *v2,
        ),
{
    let ghost fb0 = framebuffer@;
    let ghost wi = width as int;
    let ghost hi = height as int;
    let fblen = framebuffer.len();

    let fx0 = min3_floor(v0.x, v1.x, v2.x);
    let fx1 = max3_floor(v0.x, v1.x, v2.x);
    let fy0 = min3_floor(v0.y, v1.y, v2.y);
    let fy1 = max3_floor(v0.y, v1.y, v2.y);

    // clamp the box to the framebuffer before the pixel loop
    let x0: i64 = if fx0 < 0 {
        0
    } else {
        fx0
    };
    let x1: i64 = if fx1 > (width as i64) - 1 {
        (width as i64) - 1
    } else {
        fx1
    };
    let y0: i64 = if fy0 < 0 {
        0
    } else {
        fy0
    };
    let y1: i64 = if fy1 > (height as i64) - 1 {
        (height as i64) - 1
    } else {
        fy1
    };
    proof {
        assert((x0 as int, x1 as int, y0 as int, y1 as int) == bbox_spec(*v0, *v1, *v2, wi, hi));
    }

    if x0 > x1 || y0 > y1 {
        // an empty box covers nothing
        proof {
            assert forall|k: int| 0 <= k < fb0.len() implies raster_px_spec(
                fs,
                fb0,
                wi,
                hi,
                *v0,
                *v1,
                *v2,
                k,
            ) == fb0[k] by {}
            assert(raster_fb_spec(fs, fb0, wi, hi, *v0, *v1, *v2) =~= fb0);
        }
        return ;
    }

    let mut y: i64 = y0;
    while y <= y1
        invariant
            0 <= x0 as int <= x1 as int <= wi - 1,
            0 <= y0 as int <= y1 as int <= hi - 1,
            y0 <= y <= y1 + 1,
            wi == width as int,
            hi == height as int,
            width <= 0x7fffffff,
            height <= 0x7fffffff,
            (x0 as int, x1 as int, y0 as int, y1 as int) == bbox_spec(*v0, *v1, *v2, wi, hi),
            v0.wf(),
            v1.wf(),
            v2.wf(),
            fb0.len() == wi * hi,
            framebuffer@.len() == fb0.len(),
            fblen == fb0.len(),
            forall|k: int|
                0 <= k < fb0.len() ==> #[trigger] framebuffer@[k] == (if k / wi < y as int {
                    raster_px_spec(fs, fb0, wi, hi, *v0, *v1, *v2, k)
                } else {
                    fb0[k]
                }),
        decreases y1 - y + 1,
    {
        let mut x: i64 = x0;
        while x <= x1
            invariant
                0 <= x0 as int <= x1 as int <= wi - 1,
                0 <= y0 as int <= y1 as int <= hi - 1,
                y0 <= y <= y1,
                x0 <= x <= x1 + 1,
                wi == width as int,
                hi == height as int,
                width <= 0x7fffffff,
                height <= 0x7fffffff,
                (x0 as int, x1 as int, y0 as int, y1 as int) == bbox_spec(*v0, *v1, *v2, wi, hi),
                v0.wf(),
                v1.wf(),
                v2.wf(),
                fb0.len() == wi * hi,
                framebuffer@.len() == fb0.len(),
                fblen == fb0.len(),
                forall|k: int|
                    0 <= k < fb0.len() ==> #[trigger] framebuffer@[k] == (if k / wi < y as int || (
                    k / wi == y as int && x0 as int <= k % wi < x as int) {
                        raster_px_spec(fs, fb0, wi, hi, *v0, *v1, *v2, k)
                    } else {
                        fb0[k]
                    }),
            decreases x1 - x + 1,
        {
            let px: i64 = x * FX_ONE + FX_HALF;
            let py: i64 = y * FX_ONE + FX_HALF;
            proof {
                assert((y as int) * wi + (x as int) < wi * hi) by (nonlinear_arith)
                    requires
                        0 <= y as int <= hi - 1,
                        0 <= x as int <= wi - 1,
                        wi >= 1,
                ;
            }
            let idx: usize = (y as usize) * width + (x as usize);
            proof {
                lemma_fundamental_div_mod_converse_div(idx as int, wi, y as int, x as int);
                lemma_fundamental_div_mod_converse_mod(idx as int, wi, y as int, x as int);
            }
            if in_triangle(v0, v1, v2, px, py) {
                let c = shade_fragment(fs, px, py);
                framebuffer[idx] = c;
                proof {
                    assert(framebuffer@[idx as int] == raster_px_spec(
                        fs,
                        fb0,
                        wi,
                        hi,
                        *v0,
                        *v1,
                        *v2,
                        idx as int,
                    ));
                }
            }
            proof {
                assert forall|k: int| #![trigger k % wi]
                    0 <= k < fb0.len() && k != idx as int && k / wi == y as int implies k % wi != (
                x as int) by {
                    lemma_fundamental_div_mod(k, wi);
                }
            }
            x = x + 1;
        }
        proof {
            assert forall|k: int|
                0 <= k < fb0.len() && k / wi == y as int && !(x0 as int <= k % wi <= x1 as int)
                implies raster_px_spec(fs, fb0, wi, hi, *v0, *v1, *v2, k) == fb0[k] by {}
        }
        y = y + 1;
    }
    proof {
        assert forall|k: int| 0 <= k < fb0.len() implies framebuffer@[k] == raster_px_spec(
            fs,
            fb0,
            wi,
            hi,
            *v0,
            *v1,
            *v2,
            k,
        ) by {
            vstd::arithmetic::div_mod::lemma_div_pos_is_pos(k, wi);
            vstd::arithmetic::div_mod::lemma_div_is_ordered(k, wi * hi - 1, wi);
            if k / wi > y1 as int {
                assert(!covered_spec(*v0, *v1, *v2, wi, hi, k % wi, k / wi));
            }
        }
        assert(framebuffer@ =~= raster_fb_spec(fs, fb0, wi, hi, *v0, *v1, *v2));
    }
}

/// One draw call over `vertex_count` vertices, three per triangle, in
/// submission order. Succeeds exactly when the count is divisible by 3 and
/// then leaves the framebuffer as `draw_upto_spec` describes; otherwise the
/// call is rejected with no framebuffer write at all. The supplied vertex
/// buffer is exposed to the vertex stage at binding point 0 of a fresh
/// attribute store.
pub fn draw<V: VertexShader, F: FragmentShader>(
    vertex_count: usize,
    framebuffer: &mut Vec<u32>,
    width: usize,
    height: usize,
    vertex_buffer: &Arc<Vec<i64>>,
    viewport_matrix: &Mat4,
    vertex_stage: &V,
    fragment_stage: &F,
) -> (r: Result<(), DrawError>)
    requires
        old(framebuffer)@.len() == width * height,
        width <= 0x7fffffff,
        height <= 0x7fffffff,
        viewport_matrix.wf(),
    ensures
        (r is Ok) <==> vertex_count % 3 == 0,
        final(framebuffer)@.len() == old(framebuffer)@.len(),
        r is Err ==> final(framebuffer)@ == old(framebuffer)@,
        r is Ok ==> final(framebuffer)@ == draw_upto_spec(
            vertex_stage,
            fragment_stage,
            seq![vertex_buffer@],
            *viewport_matrix,
            width as int,
            height as int,
            old(framebuffer)@,
            (vertex_count / 3) as nat,
        ),
{
    if vertex_count % 3 != 0 {
        return Err(DrawError::BadPrimitiveCount);
    }

    // expose the supplied vertex data at binding point 0
    let mut create_info = BindGroupCreateInfo::new();
    create_info.entries.push(
        BindGroupEntry { binding_point: 0, buffer: share_arc(vertex_buffer) },
    );
    proof {
        assert(entries_valid(create_info.entries@));
    }
    let bind_group = match BindGroup::new(&create_info) {
        Ok(bg) => bg,
        // a single entry at binding point 0 is always a valid entry list
        Err(_) => vstd::pervasive::unreached(),
    };
    proof {
        assert(bind_group@ =~= seq![vertex_buffer@]);
    }
    let bind_group = Arc::new(bind_group);

    let ghost bgv: Seq<Seq<i64>> = bind_group@;
    let ghost fb0 = framebuffer@;
    let ghost wi = width as int;
    let ghost hi = height as int;

    let n_prims = vertex_count / 3;
    let mut i: usize = 0;
    while i < n_prims
        invariant
            i <= n_prims,
            bind_group@ == bgv,
            bgv == seq![vertex_buffer@],
            wi == width as int,
            hi == height as int,
            width <= 0x7fffffff,
            height <= 0x7fffffff,
            viewport_matrix.wf(),
            fb0.len() == wi * hi,
            framebuffer@.len() == fb0.len(),
            framebuffer@ == draw_upto_spec(
                vertex_stage,
                fragment_stage,
                bgv,
                *viewport_matrix,
                wi,
                hi,
                fb0,
                i as nat,
            ),
        decreases n_prims - i,
    {
        // vertex shading, one context per local vertex, in ascending order
        let p0 = run_vertex(vertex_stage, i, 0, &bind_group);
        let p1 = run_vertex(vertex_stage, i, 1, &bind_group);
        let p2 = run_vertex(vertex_stage, i, 2, &bind_group);
        let q0 = clamp_coords(&p0);
        let q1 = clamp_coords(&p1);
        let q2 = clamp_coords(&p2);
        if q0.w != 0 && q1.w != 0 && q2.w != 0 {
            // perspective divide, then viewport transform
            let d0 = perspective_divide(&q0);
            let d1 = perspective_divide(&q1);
            let d2 = perspective_divide(&q2);
            let s0 = transform(viewport_matrix, &d0);
            let s1 = transform(viewport_matrix, &d1);
            let s2 = transform(viewport_matrix, &d2);
            proof {
                assert(tri_screen_spec(vertex_stage, bgv, *viewport_matrix, i as int) == Some(
                    (s0, s1, s2),
                ));
            }
            render_primitive(fragment_stage, framebuffer, width, height, &s0, &s1, &s2);
        } else {
            proof {
                assert(tri_screen_spec(vertex_stage, bgv, *viewport_matrix, i as int) is None);
            }
        }
        proof {
            assert(draw_upto_spec(
                vertex_stage,
                fragment_stage,
                bgv,
                *viewport_matrix,
                wi,
                hi,
                fb0,
                (i + 1) as nat,
            ) == draw_prim_spec(
                vertex_stage,
                fragment_stage,
                bgv,
                *viewport_matrix,
                wi,
                hi,
                draw_upto_spec(
                    vertex_stage,
                    fragment_stage,
                    bgv,
                    *viewport_matrix,
                    wi,
                    hi,
                    fb0,
                    i as nat,
                ),
                i as int,
            ));
        }
        i += 1;
    }
    Ok(())
}

} // verus!
