use wgpu_backend::greeting::backend_wgpu_greeting;
use wgpu_backend::render::{
    clip_fits_target, draw_call, draw_count_fits, primitive_from_code, scissor_rect,
    wrap_mode_from_code, DrawCall, Primitive, ScissorRect, WrapMode,
};
use wgpu_backend::texture::{
    bytes_per_pixel, expected_size, size_fits_usize, texture_format, TextureFormat,
};

#[test]
fn greeting_without_names() {
    assert_eq!(backend_wgpu_greeting(&[]), "Hello!");
}

#[test]
fn greeting_with_names() {
    assert_eq!(backend_wgpu_greeting(&["Alice".to_string()]), "Hello, Alice!");
    let names = vec!["Alice".to_string(), "Bob".to_string(), "Carol".to_string()];
    assert_eq!(backend_wgpu_greeting(&names), "Hello, Alice, Bob, Carol!");
}

#[test]
fn primitive_codes() {
    assert_eq!(primitive_from_code(1), Primitive::Lines);
    assert_eq!(primitive_from_code(2), Primitive::Quads);
    assert_eq!(primitive_from_code(3), Primitive::Triangles);
}

#[test]
fn wrap_mode_codes() {
    assert_eq!(wrap_mode_from_code(0), WrapMode::Repeat);
    assert_eq!(wrap_mode_from_code(1), WrapMode::ClampToEdge);
}

#[test]
fn unclipped_scissor_is_the_whole_target() {
    let r = scissor_rect(false, 5, 6, 7, 8, 800, 600);
    assert_eq!(r, ScissorRect { x: 0, y: 0, width: 800, height: 600 });
}

#[test]
fn clipped_scissor_is_mirrored() {
    let r = scissor_rect(true, 10, 20, 100, 50, 800, 600);
    assert_eq!(r, ScissorRect { x: 10, y: 530, width: 100, height: 50 });
}

#[test]
fn clipped_scissor_width_is_capped() {
    let r = scissor_rect(true, 180, 0, 50, 30, 200, 100);
    assert_eq!(r, ScissorRect { x: 180, y: 70, width: 20, height: 30 });
    let wide = scissor_rect(true, 10, 20, 500, 50, 800, 600);
    assert_eq!(wide, ScissorRect { x: 10, y: 530, width: 500, height: 50 });
    let tall = scissor_rect(true, 0, 0, 10, 600, 100, 600);
    assert_eq!(tall, ScissorRect { x: 0, y: 0, width: 10, height: 600 });
}

#[test]
fn clip_must_fit_the_target() {
    assert!(clip_fits_target(10, 20, 50, 800, 600));
    assert!(!clip_fits_target(10, 580, 50, 800, 600));
    assert!(clip_fits_target(0, 0, 10, 100, 600));
    assert!(clip_fits_target(0, 0, 600, 100, 600));
    assert!(clip_fits_target(800, 0, 600, 800, 600));
    assert!(!clip_fits_target(801, 0, 10, 800, 600));
}

#[test]
fn draw_calls_per_primitive() {
    assert_eq!(draw_call(Primitive::Lines, 4), DrawCall::Nothing);
    assert_eq!(draw_call(Primitive::Quads, 3), DrawCall::Indexed { index_count: 18 });
    assert_eq!(draw_call(Primitive::Triangles, 3), DrawCall::Direct { vertex_count: 9 });
}

#[test]
fn draw_counts_must_fit() {
    assert!(draw_count_fits(Primitive::Quads, u32::MAX / 6));
    assert!(!draw_count_fits(Primitive::Quads, u32::MAX / 6 + 1));
    assert!(draw_count_fits(Primitive::Triangles, u32::MAX / 3));
    assert!(!draw_count_fits(Primitive::Triangles, u32::MAX / 3 + 1));
    assert!(draw_count_fits(Primitive::Lines, u32::MAX));
}

#[test]
fn texture_formats_and_sizes() {
    assert_eq!(texture_format(1), TextureFormat::R8Unorm);
    assert_eq!(texture_format(4), TextureFormat::Rgba8Unorm);
    assert_eq!(bytes_per_pixel(TextureFormat::R8Unorm), 1);
    assert_eq!(bytes_per_pixel(TextureFormat::Rgba8Unorm), 4);
    assert_eq!(expected_size(4, 3, 2), 24);
    assert_eq!(expected_size(1, 7, 0), 0);
    assert!(size_fits_usize(4, u32::MAX, u32::MAX) == (usize::BITS >= 66));
    assert!(size_fits_usize(4, 1024, 1024));
}
