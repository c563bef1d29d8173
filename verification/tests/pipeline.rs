use std::sync::Arc;
use rasterizer::fixed::{FX_HALF, FX_ONE};
use rasterizer::linalg::{Mat4, Vec4};
use rasterizer::pipeline::{draw, DrawError};
use rasterizer::shader::{
    FragmentShader, FragmentShaderState, VertexShader, VertexShaderState, FSBlinnPhong,
    VSBlinnPhong,
};
use rasterizer::bind_group::{BindGroup, BindGroupCreateInfo, BindGroupEntry};

const ONE: i64 = FX_ONE;
const WIDTH: usize = 800;
const HEIGHT: usize = 600;
const BACKGROUND: u32 = 0x00ffffff;

/// The standard viewport matrix mapping [-1,1] x [-1,1] onto the
/// 800 x 600 pixel grid with a vertical flip.
fn viewport() -> Mat4 {
    Mat4::new(
        Vec4::new(400 * ONE, 0, 0, 400 * ONE),
        Vec4::new(0, -300 * ONE, 0, 300 * ONE),
        Vec4::new(0, 0, ONE, 0),
        Vec4::new(0, 0, 0, ONE),
    )
}

/// The single demo triangle in clip space: (0, 0.5), (-0.5, -0.5),
/// (0.5, -0.5), interleaved x, y pairs in fixed point.
fn demo_vertices() -> Arc<Vec<i64>> {
    Arc::new(vec![0, ONE / 2, -ONE / 2, -ONE / 2, ONE / 2, -ONE / 2])
}

fn cleared_framebuffer() -> Vec<u32> {
    vec![BACKGROUND; WIDTH * HEIGHT]
}

#[test]
fn draw_rejects_a_count_not_divisible_by_three() {
    let mut fb = vec![7u32; 16];
    let r = draw(4, &mut fb, 4, 4, &demo_vertices(), &viewport(), &VSBlinnPhong {}, &FSBlinnPhong {});
    assert_eq!(r, Err(DrawError::BadPrimitiveCount));
    // zero framebuffer writes for the rejected call
    assert!(fb.iter().all(|&p| p == 7));
}

#[test]
fn draw_of_zero_vertices_succeeds_and_writes_nothing() {
    let mut fb = vec![3u32; 16];
    let r = draw(0, &mut fb, 4, 4, &demo_vertices(), &viewport(), &VSBlinnPhong {}, &FSBlinnPhong {});
    assert_eq!(r, Ok(()));
    assert!(fb.iter().all(|&p| p == 3));
}

#[test]
fn end_to_end_demo_triangle() {
    let mut fb = cleared_framebuffer();
    let r = draw(
        3,
        &mut fb,
        WIDTH,
        HEIGHT,
        &demo_vertices(),
        &viewport(),
        &VSBlinnPhong {},
        &FSBlinnPhong {},
    );
    assert_eq!(r, Ok(()));
    // the centroid region is filled with the fragment stage's ramp color
    let center = fb[300 * WIDTH + 400];
    assert_ne!(center, BACKGROUND);
    assert_eq!(center, 0x808000);
    // a pixel outside the triangle keeps the caller-set background
    assert_eq!(fb[10 * WIDTH + 10], BACKGROUND);
}

#[test]
fn end_to_end_winding_reversal_paints_the_same_pixels() {
    let mut fb_a = cleared_framebuffer();
    let verts_a = demo_vertices();
    draw(3, &mut fb_a, WIDTH, HEIGHT, &verts_a, &viewport(), &VSBlinnPhong {}, &FSBlinnPhong {})
        .expect("count divisible by three");

    // the same triangle with its vertex order reversed
    let verts_b = Arc::new(vec![ONE / 2, -ONE / 2, -ONE / 2, -ONE / 2, 0, ONE / 2]);
    let mut fb_b = cleared_framebuffer();
    draw(3, &mut fb_b, WIDTH, HEIGHT, &verts_b, &viewport(), &VSBlinnPhong {}, &FSBlinnPhong {})
        .expect("count divisible by three");

    for k in 0..WIDTH * HEIGHT {
        assert_eq!(fb_a[k] == BACKGROUND, fb_b[k] == BACKGROUND);
    }
}

#[test]
fn two_primitives_are_drawn_in_submission_order() {
    // two disjoint triangles: one in the upper-left quadrant, one in the
    // lower-right; the second primitive reads its vertices at the correct
    // offsets of the shared buffer
    let verts = Arc::new(vec![
        // clip space (-0.5, 0.5), (-0.9, 0.1), (-0.1, 0.1)
        -ONE / 2, ONE / 2, -9 * ONE / 10, ONE / 10, -ONE / 10, ONE / 10,
        // clip space (0.5, -0.1), (0.1, -0.9), (0.9, -0.9)
        ONE / 2, -ONE / 10, ONE / 10, -9 * ONE / 10, 9 * ONE / 10, -9 * ONE / 10,
    ]);
    let mut fb = cleared_framebuffer();
    draw(6, &mut fb, WIDTH, HEIGHT, &verts, &viewport(), &VSBlinnPhong {}, &FSBlinnPhong {})
        .expect("count divisible by three");
    // a point well inside the first triangle: clip (-0.5, 0.3) -> (200, 210)
    assert_ne!(fb[210 * WIDTH + 200], BACKGROUND);
    // a point well inside the second: clip (0.5, -0.6) -> (600, 480)
    assert_ne!(fb[480 * WIDTH + 600], BACKGROUND);
    // a point in neither
    assert_eq!(fb[590 * WIDTH + 5], BACKGROUND);
}

#[test]
fn vertex_state_carries_its_builtins() {
    let mut info = BindGroupCreateInfo::new();
    info.entries.push(BindGroupEntry { binding_point: 0, buffer: Arc::new(vec![1, 2]) });
    let bg = Arc::new(BindGroup::new(&info).expect("valid"));
    let mut state = VertexShaderState::new(5, 2, &bg);
    assert_eq!(state.builtin_primitive_id(), 5);
    assert_eq!(state.builtin_vertex_id(), 2);
    assert_eq!(*state.builtin_position(), Vec4::new(0, 0, 0, 0));
    assert_eq!(state.location_count(), 1);
    assert_eq!(*state.location(0), vec![1, 2]);
    *state.builtin_position_mut() = Vec4::new(9, 8, 7, 6);
    assert_eq!(*state.builtin_position(), Vec4::new(9, 8, 7, 6));
}

#[test]
fn fragment_state_starts_with_the_magenta_sentinel() {
    let mut state = FragmentShaderState::new(1, 2, 3, 4);
    assert_eq!(*state.builtin_position(), Vec4::new(1, 2, 3, 4));
    assert_eq!(*state.builtin_color(), Vec4::new(ONE, 0, ONE, ONE));
    *state.builtin_color_mut() = Vec4::new(0, ONE, 0, ONE);
    assert_eq!(*state.builtin_color(), Vec4::new(0, ONE, 0, ONE));
}

#[test]
fn demo_vertex_stage_reads_its_pair_from_binding_zero() {
    let mut info = BindGroupCreateInfo::new();
    info.entries.push(BindGroupEntry {
        binding_point: 0,
        buffer: Arc::new(vec![10, 20, 30, 40, 50, 60, 70, 80]),
    });
    let bg = Arc::new(BindGroup::new(&info).expect("valid"));
    // primitive 1, vertex 0 reads global vertex 3: values 70, 80
    let mut state = VertexShaderState::new(1, 0, &bg);
    VSBlinnPhong {}.vertex(&mut state);
    assert_eq!(*state.builtin_position(), Vec4::new(70, 80, 0, ONE));
}

#[test]
fn demo_vertex_stage_yields_the_origin_for_a_short_buffer() {
    let mut info = BindGroupCreateInfo::new();
    info.entries.push(BindGroupEntry { binding_point: 0, buffer: Arc::new(vec![10, 20]) });
    let bg = Arc::new(BindGroup::new(&info).expect("valid"));
    let mut state = VertexShaderState::new(2, 1, &bg);
    VSBlinnPhong {}.vertex(&mut state);
    assert_eq!(*state.builtin_position(), Vec4::new(0, 0, 0, ONE));
}

#[test]
fn demo_fragment_stage_ramps_with_the_position() {
    // at screen (400, 300) both ramps sit at one half
    let mut state = FragmentShaderState::new(400 * ONE, 300 * ONE, 0, ONE);
    FSBlinnPhong {}.fragment(&mut state);
    assert_eq!(*state.builtin_color(), Vec4::new(ONE / 2, ONE / 2, 0, ONE));
}

#[test]
fn pixel_centers_are_sampled() {
    // the fragment stage of the demo sees pixel centers: x = 400 maps to
    // the sample 400.5 in fixed point
    let sample: i64 = 400 * ONE + FX_HALF;
    assert_eq!(sample, 26247168);
}
