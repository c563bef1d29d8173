//! Shader stage interfaces and their invocation contexts.
//!
//! A stage is plugged in polymorphically: any type implementing
//! [`VertexShader`] or [`FragmentShader`] may be substituted at draw-call
//! setup time. Each trait carries the stage's mathematical model (a spec
//! function from built-in inputs to the built-in output), and the executable
//! stage must produce exactly that model's value and touch nothing else in
//! its context — the pipeline's framebuffer contract is stated over these
//! models.

use vstd::prelude::*;
use std::sync::Arc;
use crate::bind_group::{BindGroup, share_arc};
use crate::fixed::{tdiv, fx_div_int, FX_ONE};
use crate::linalg::Vec4;

verus! {

/// Pixel width of the render target the built-in demo shaders assume.
pub const DEMO_WIDTH: i64 = 800;

/// Pixel height of the render target the built-in demo shaders assume.
pub const DEMO_HEIGHT: i64 = 600;

/// Relies on `Arc`'s deref: the shared handle dereferences to the value it
/// holds.
#[verifier::external_body]
fn arc_deref<T>(a: &Arc<T>) -> (r: &T)
    ensures
        *r == **a,
{
    &**a
}

/// The ghost state of a vertex invocation context.
pub struct VertexShaderStateView {
    pub primitive_id: int,
    pub vertex_id: int,
    pub position: Vec4,
    pub buffers: Seq<Seq<i64>>,
}

/// Per-vertex invocation context: carries the built-in inputs (the
/// primitive and vertex ids and the attribute store) and the built-in
/// output position, which starts at the zero vector.
pub struct VertexShaderState {
    builtin_primitive_id: usize,
    builtin_vertex_id: usize,
    builtin_position: Vec4,
    bind_group: Arc<BindGroup>,
}

impl View for VertexShaderState {
    type V = VertexShaderStateView;

    closed spec fn view(&self) -> VertexShaderStateView {
        VertexShaderStateView {
            primitive_id: self.builtin_primitive_id as int,
            vertex_id: self.builtin_vertex_id as int,
            position: self.builtin_position,
            buffers: self.bind_group@,
        }
    }
}

impl VertexShaderState {
    /// Fresh context for one (primitive, vertex) pair.
    pub fn new(primitive_id: usize, vertex_id: usize, bind_group: &Arc<BindGroup>) -> (r:
        VertexShaderState)
        ensures
            r@ == (VertexShaderStateView {
                primitive_id: primitive_id as int,
                vertex_id: vertex_id as int,
                position: Vec4 { x: 0, y: 0, z: 0, w: 0 },
                buffers: bind_group@,
            }),
    {
        VertexShaderState {
            builtin_primitive_id: primitive_id,
            builtin_vertex_id: vertex_id,
            builtin_position: Vec4::zero(),
            bind_group: share_arc(bind_group),
        }
    }

    pub fn builtin_primitive_id(&self) -> (r: usize)
        ensures
            r == self@.primitive_id,
    {
        self.builtin_primitive_id
    }

    pub fn builtin_vertex_id(&self) -> (r: usize)
        ensures
            r == self@.vertex_id,
    {
        self.builtin_vertex_id
    }

    pub fn builtin_position(&self) -> (r: &Vec4)
        ensures
            *r == self@.position,
    {
        &self.builtin_position
    }

    pub fn builtin_position_mut(&mut self) -> (r: &mut Vec4)
        ensures
            *r == old(self)@.position,
            final(self)@ == (VertexShaderStateView { position: *final(r), ..old(self)@ }),
    {
        &mut self.builtin_position
    }

    /// How many binding points the attached store exposes.
    pub fn location_count(&self) -> (r: usize)
        ensures
            r == self@.buffers.len(),
    {
        self.bind_group.len()
    }

    /// The shared attribute buffer at a binding point.
    pub fn location(&self, location: usize) -> (r: Arc<Vec<i64>>)
        requires
            location < self@.buffers.len(),
        ensures
            r@ == self@.buffers[location as int],
    {
        self.bind_group.get_data_from_location(location)
    }
}

/// The ghost state of a fragment invocation context.
pub struct FragmentShaderStateView {
    pub position: Vec4,
    pub color: Vec4,
}

/// Per-fragment invocation context: carries the pixel-center screen
/// position and the built-in output color. The color starts at opaque
/// magenta, a sentinel that shows when a fragment stage forgot to write it.
pub struct FragmentShaderState {
    builtin_position: Vec4,
    builtin_color: Vec4,
}

impl View for FragmentShaderState {
    type V = FragmentShaderStateView;

    closed spec fn view(&self) -> FragmentShaderStateView {
        FragmentShaderStateView { position: self.builtin_position, color: self.builtin_color }
    }
}

impl FragmentShaderState {
    pub fn new(x: i64, y: i64, z: i64, w: i64) -> (r: FragmentShaderState)
        ensures
            r@ == (FragmentShaderStateView {
                position: Vec4 { x, y, z, w },
                color: Vec4 { x: FX_ONE, y: 0, z: FX_ONE, w: FX_ONE },
            }),
    {
        FragmentShaderState {
            builtin_position: Vec4::new(x, y, z, w),
            builtin_color: Vec4::new(FX_ONE, 0, FX_ONE, FX_ONE),
        }
    }

    pub fn builtin_position(&self) -> (r: &Vec4)
        ensures
            *r == self@.position,
    {
        &self.builtin_position
    }

    pub fn builtin_color(&self) -> (r: &Vec4)
        ensures
            *r == self@.color,
    {
        &self.builtin_color
    }

    pub fn builtin_color_mut(&mut self) -> (r: &mut Vec4)
        ensures
            *r == old(self)@.color,
            final(self)@ == (FragmentShaderStateView { color: *final(r), ..old(self)@ }),
    {
        &mut self.builtin_color
    }
}

/// A vertex-processing stage. `vertex_spec` is the stage's model: the
/// position it writes, as a function of the built-in inputs alone. `vertex`
/// must write exactly that position and may have no other effect on its
/// context.
pub trait VertexShader: Sized {
    /// The position the stage writes for the given ids over the given
    /// store contents.
    spec fn vertex_spec(&self, primitive_id: int, vertex_id: int, buffers: Seq<Seq<i64>>) -> Vec4;

    /// Run the stage on one vertex invocation context.
    fn vertex(&self, vs_state: &mut VertexShaderState)
        ensures
            final(vs_state)@ == (VertexShaderStateView {
                position: self.vertex_spec(
                    old(vs_state)@.primitive_id,
                    old(vs_state)@.vertex_id,
                    old(vs_state)@.buffers,
                ),
                ..old(vs_state)@
            }),
    ;
}

/// A fragment-processing stage. `fragment_spec` is the stage's model: the
/// color it writes, as a function of the built-in position alone.
/// `fragment` must write exactly that color and may have no other effect on
/// its context. The pipeline only ever samples well-formed pixel centers,
/// which the stage may rely on.
pub trait FragmentShader: Sized {
    /// The color the stage writes for the given screen position.
    spec fn fragment_spec(&self, position: Vec4) -> Vec4;

    /// Run the stage on one fragment invocation context.
    fn fragment(&self, fs_state: &mut FragmentShaderState)
        requires
            old(fs_state)@.position.wf(),
        ensures
            final(fs_state)@ == (FragmentShaderStateView {
                color: self.fragment_spec(old(fs_state)@.position),
                ..old(fs_state)@
            }),
    ;
}

/// The demo vertex stage: reads interleaved clip-space x, y pairs for its
/// global vertex from the buffer at binding point 0 and emits them with
/// z = 0 and w = one unit. A missing store or a too-short buffer yields the
/// origin instead of a fault.
pub struct VSBlinnPhong {}

impl VertexShader for VSBlinnPhong {
    open spec fn vertex_spec(&self, primitive_id: int, vertex_id: int, buffers: Seq<Seq<i64>>) -> Vec4 {
        if buffers.len() == 0 {
            Vec4 { x: 0, y: 0, z: 0, w: FX_ONE }
        } else {
            let buffer = buffers[0];
            let offset = (primitive_id * 3 + vertex_id) * 2;
            if offset + 1 < buffer.len() {
                Vec4 { x: buffer[offset], y: buffer[offset + 1], z: 0, w: FX_ONE }
            } else {
                Vec4 { x: 0, y: 0, z: 0, w: FX_ONE }
            }
        }
    }

    fn vertex(&self, vs_state: &mut VertexShaderState) {
        let fallback = Vec4::new(0, 0, 0, FX_ONE);
        if vs_state.location_count() == 0 {
            *vs_state.builtin_position_mut() = fallback;
            return ;
        }
        let buffer = vs_state.location(0);
        let buf = arc_deref(&buffer);
        let len = buf.len();
        let primitive_id = vs_state.builtin_primitive_id();
        let vertex_id = vs_state.builtin_vertex_id();
        let pos = match primitive_id.checked_mul(3) {
            None => fallback,
            Some(t) => match t.checked_add(vertex_id) {
                None => fallback,
                Some(g) => match g.checked_mul(2) {
                    None => fallback,
                    Some(offset) => {
                        if offset < len && offset + 1 < len {
                            Vec4::new(buf[offset], buf[offset + 1], 0, FX_ONE)
                        } else {
                            fallback
                        }
                    },
                },
            },
        };
        *vs_state.builtin_position_mut() = pos;
    }
}

/// The demo fragment stage: a color ramp over the assumed 800 x 600 target,
/// the red channel rising with the pixel row and the green channel with the
/// pixel column.
pub struct FSBlinnPhong {}

impl FragmentShader for FSBlinnPhong {
    open spec fn fragment_spec(&self, position: Vec4) -> Vec4 {
        Vec4 {
            x: tdiv(position.y as int, DEMO_HEIGHT as int) as i64,
            y: tdiv(position.x as int, DEMO_WIDTH as int) as i64,
            z: 0,
            w: FX_ONE,
        }
    }

    fn fragment(&self, fs_state: &mut FragmentShaderState) {
        let position = *fs_state.builtin_position();
        let red = fx_div_int(position.y, DEMO_HEIGHT);
        let green = fx_div_int(position.x, DEMO_WIDTH);
        *fs_state.builtin_color_mut() = Vec4::new(red, green, 0, FX_ONE);
    }
}

} // verus!
