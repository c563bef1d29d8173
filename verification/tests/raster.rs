use rasterizer::fixed::{fx_div, fx_floor, fx_mul, FX_HALF, FX_ONE};
use rasterizer::linalg::{clamp_coords, Vec4};
use rasterizer::raster::{clamp01, in_triangle, vec4_to_0rgb};

const ONE: i64 = FX_ONE;

fn px(v: i64) -> i64 {
    // fixed-point coordinate of the center of pixel row or column v
    v * ONE + FX_HALF
}

fn screen(x: i64, y: i64) -> Vec4 {
    Vec4::new(x * ONE, y * ONE, 0, ONE)
}

#[test]
fn fixed_point_arithmetic_exact_values() {
    assert_eq!(fx_mul(3 * ONE / 2, 2 * ONE), 3 * ONE);
    assert_eq!(fx_mul(-ONE, ONE), -ONE);
    assert_eq!(fx_div(ONE, 2 * ONE), ONE / 2);
    // truncation toward zero: -1/3 rounds up toward zero
    assert_eq!(fx_div(-ONE, 3 * ONE), -21845);
    assert_eq!(fx_floor(0), 0);
    assert_eq!(fx_floor(ONE), 1);
    assert_eq!(fx_floor(ONE - 1), 0);
    // floor rounds toward negative infinity
    assert_eq!(fx_floor(-1), -1);
    assert_eq!(fx_floor(-ONE), -1);
    assert_eq!(fx_floor(-ONE - 1), -2);
}

#[test]
fn inside_test_classifies_known_points() {
    // screen-space triangle (400,100), (100,500), (700,500):
    // pixel (400,400) is inside, pixel (10,10) is outside
    let v0 = screen(400, 100);
    let v1 = screen(100, 500);
    let v2 = screen(700, 500);
    assert!(in_triangle(&v0, &v1, &v2, px(400), px(400)));
    assert!(!in_triangle(&v0, &v1, &v2, px(10), px(10)));
}

#[test]
fn winding_reversal_covers_the_same_pixels() {
    // the same geometry wound both ways classifies every sampled pixel
    // center alike (none of these centers lies exactly on an edge line)
    let v0 = screen(400, 100);
    let v1 = screen(100, 500);
    let v2 = screen(700, 500);
    for y in 0..600i64 {
        for x in 0..800i64 {
            let a = in_triangle(&v0, &v1, &v2, px(x), px(y));
            let b = in_triangle(&v2, &v1, &v0, px(x), px(y));
            assert_eq!(a, b);
        }
    }
}

#[test]
fn color_packing_red_and_black() {
    // full red packs to the red channel word; black packs to zero
    let red = Vec4::new(ONE, 0, 0, ONE);
    assert_eq!(vec4_to_0rgb(&red), 0xFF0000);
    let black = Vec4::new(0, 0, 0, ONE);
    assert_eq!(vec4_to_0rgb(&black), 0x000000);
}

#[test]
fn color_packing_rounds_to_nearest() {
    // one half scales to 127.5 and rounds up to 128
    let grey = Vec4::new(ONE / 2, ONE / 2, ONE / 2, ONE);
    assert_eq!(vec4_to_0rgb(&grey), 0x808080);
}

#[test]
fn clamp01_clamps_each_component() {
    let c = clamp01(&Vec4::new(-5, 2 * ONE, ONE, 0));
    assert_eq!((c.x, c.y, c.z, c.w), (0, ONE, ONE, 0));
}

#[test]
fn clamp_coords_saturates_into_the_coordinate_range() {
    let big = i64::MAX;
    let c = clamp_coords(&Vec4::new(big, -big, 5, 0));
    assert_eq!(c.x, rasterizer::fixed::COORD_MAX);
    assert_eq!(c.y, -rasterizer::fixed::COORD_MAX);
    assert_eq!((c.z, c.w), (5, 0));
}
