use wgpu_backend::backend::{
    fallback_texture, init_rust_wgpu_backend, RenderFault, RustWgpuBackend, SwapPlan,
    TextureUpload, FALLBACK_TEXTURE_SLOT,
};
use wgpu_backend::render::{DrawCall, ScissorRect, WrapMode};
use wgpu_backend::texture::{TextureFault, TextureFormat};

fn started() -> RustWgpuBackend {
    let mut backend = RustWgpuBackend::new();
    backend.create_texture(-1, 4, 0, 1, 1, &[255, 255, 255, 255]);
    backend.init_window(800, 600);
    backend.swap();
    backend
}

#[test]
fn new_backend_has_no_surface_and_no_frame() {
    let backend = RustWgpuBackend::new();
    assert!(!backend.has_surface());
    assert!(!backend.frame_open());
    assert_eq!(backend.surface_size(), (0, 0));
    assert_eq!(backend.index_len(), 8);
    assert!(backend.vertex_cache().is_empty());
    assert!(!backend.has_texture(-1));
}

#[test]
fn first_swap_opens_a_frame_and_second_finishes_it() {
    let mut backend = RustWgpuBackend::new();
    backend.init_window(640, 480);
    assert_eq!(backend.surface_size(), (640, 480));
    let first = backend.swap();
    assert_eq!(first, SwapPlan { finish_frame: false, reconfigure_surface: false });
    assert!(backend.frame_open());
    let second = backend.swap();
    assert_eq!(second, SwapPlan { finish_frame: true, reconfigure_surface: false });
}

#[test]
fn resize_reconfigures_at_the_next_swap_only() {
    let mut backend = started();
    backend.update_viewport(0, 0, 1024, 768, true);
    assert_eq!(backend.surface_size(), (1024, 768));
    assert!(backend.swap().reconfigure_surface);
    assert!(!backend.swap().reconfigure_surface);
}

#[test]
fn viewport_without_resize_changes_nothing() {
    let mut backend = started();
    backend.update_viewport(3, 4, 10, 10, false);
    assert_eq!(backend.surface_size(), (800, 600));
    assert!(!backend.swap().reconfigure_surface);
}

#[test]
fn render_plans_a_quad_draw() {
    let mut backend = started();
    let vertices = [1u8; 80];
    let plan = backend
        .render(0, 1, -1, true, 10, 20, 100, 50, 800, 600, 2, 1, &vertices)
        .unwrap();
    assert_eq!(plan.sampler, WrapMode::ClampToEdge);
    assert_eq!(plan.scissor, ScissorRect { x: 10, y: 530, width: 100, height: 50 });
    assert_eq!(plan.texture, -1);
    assert_eq!((plan.vertices.offset, plan.vertices.end), (0, 80));
    assert!(!plan.index_buffer_rebuilt);
    assert_eq!(plan.draw, DrawCall::Indexed { index_count: 6 });
    assert_eq!(backend.vertex_cache(), &vertices[..]);
}

#[test]
fn render_grows_the_index_buffer_for_many_quads() {
    let mut backend = started();
    let plan = backend
        .render(0, 0, -1, false, 0, 0, 0, 0, 800, 600, 2, 100, &[0u8; 20])
        .unwrap();
    assert!(plan.index_buffer_rebuilt);
    assert_eq!(backend.index_len(), 128);
    assert_eq!(plan.draw, DrawCall::Indexed { index_count: 600 });
    assert_eq!(plan.scissor, ScissorRect { x: 0, y: 0, width: 800, height: 600 });
    let again = backend
        .render(0, 0, -1, false, 0, 0, 0, 0, 800, 600, 3, 100, &[0u8; 20])
        .unwrap();
    assert!(!again.index_buffer_rebuilt);
    assert_eq!(again.draw, DrawCall::Direct { vertex_count: 300 });
    assert_eq!((again.vertices.offset, again.vertices.end), (20, 40));
}

#[test]
fn lines_are_not_drawn() {
    let mut backend = started();
    let plan = backend
        .render(0, 0, -1, false, 0, 0, 0, 0, 800, 600, 1, 4, &[0u8; 20])
        .unwrap();
    assert_eq!(plan.draw, DrawCall::Nothing);
    assert_eq!(plan.sampler, WrapMode::Repeat);
}

#[test]
fn swap_flushes_the_vertex_cache() {
    let mut backend = started();
    backend
        .render(0, 0, -1, false, 0, 0, 0, 0, 800, 600, 3, 1, &[5u8; 60])
        .unwrap();
    assert_eq!(backend.vertex_cache().len(), 60);
    backend.swap();
    assert!(backend.vertex_cache().is_empty());
    let plan = backend
        .render(0, 0, -1, false, 0, 0, 0, 0, 800, 600, 3, 1, &[6u8; 60])
        .unwrap();
    assert_eq!(plan.vertices.offset, 0);
}

#[test]
fn render_faults_in_order() {
    let fresh = RustWgpuBackend::new();
    assert_eq!(
        fresh.check_render(0, -1, false, 0, 0, 0, 800, 600, 2, 1, 20),
        Some(RenderFault::NoRenderPass)
    );
    let backend = started();
    let check = |wrap: i32, tex: i32, clipping: bool, prim: u32, count: u32, len: usize| {
        backend.check_render(wrap, tex, clipping, 0, 590, 50, 800, 600, prim, count, len)
    };
    assert_eq!(check(0, -1, false, 0, 1, 20), Some(RenderFault::InvalidPrimitive));
    assert_eq!(check(0, -1, false, 4, 1, 20), Some(RenderFault::UnknownPrimitive));
    assert_eq!(check(2, -1, false, 2, 1, 20), Some(RenderFault::UnknownAddressMode));
    assert_eq!(check(0, -1, true, 2, 1, 20), Some(RenderFault::ClipOutOfTarget));
    assert_eq!(check(0, 7, false, 2, 1, 20), Some(RenderFault::MissingTexture));
    assert_eq!(check(0, -1, false, 2, 1, 0), Some(RenderFault::EmptyVertices));
    assert_eq!(check(0, -1, false, 1, 0x4000_0001, 20), Some(RenderFault::TooManyPrimitives));
    assert_eq!(check(0, -1, false, 2, 0x3000_0000, 20), Some(RenderFault::DrawCountOverflow));
    assert_eq!(check(1, -1, false, 2, 1, 20), None);
}

#[test]
fn create_then_update_texture() {
    let mut backend = RustWgpuBackend::new();
    assert_eq!(backend.create_texture(3, 1, 0, 4, 2, &[0u8; 8]), TextureFormat::R8Unorm);
    assert!(backend.has_texture(3));
    assert_eq!(backend.check_update_texture(3, 4, 2, 8), None);
    let upload = backend.update_texture(3, 0, 0, 4, 2, &[1u8; 8]);
    assert_eq!(upload, TextureUpload { bytes_per_row: 4, rows_per_image: 2 });
    backend.create_texture(4, 4, 0, 2, 2, &[0u8; 16]);
    let rgba = backend.update_texture(4, 1, 1, 1, 2, &[0u8; 8]);
    assert_eq!(rgba, TextureUpload { bytes_per_row: 4, rows_per_image: 2 });
}

#[test]
fn texture_faults() {
    let backend = RustWgpuBackend::new();
    assert_eq!(
        RustWgpuBackend::check_create_texture(3, 1, 1, 3),
        Some(TextureFault::InvalidBytesPerPixel)
    );
    assert_eq!(
        RustWgpuBackend::check_create_texture(4, 2, 2, 15),
        Some(TextureFault::SizeMismatch)
    );
    assert_eq!(RustWgpuBackend::check_create_texture(4, 2, 2, 16), None);
    assert_eq!(backend.check_update_texture(9, 1, 1, 4), Some(TextureFault::MissingTexture));
}

#[test]
fn row_pitch_overflow_is_refused_on_update() {
    let mut backend = RustWgpuBackend::new();
    assert_eq!(RustWgpuBackend::check_create_texture(4, 0x8000_0000, 0, 0), None);
    backend.create_texture(1, 4, 0, 0x8000_0000, 0, &[]);
    assert_eq!(
        backend.check_update_texture(1, 0x8000_0000, 0, 0),
        Some(TextureFault::RowOverflow)
    );
}

#[test]
fn destroyed_texture_keeps_its_bind_group() {
    let mut backend = started();
    backend.create_texture(5, 4, 0, 1, 1, &[0u8; 4]);
    backend.destroy_texture(5);
    assert!(!backend.has_texture(5));
    assert_eq!(backend.check_update_texture(5, 1, 1, 4), Some(TextureFault::MissingTexture));
    assert_eq!(backend.check_render(0, 5, false, 0, 0, 0, 800, 600, 2, 1, 20), None);
    assert!(backend.has_texture(-1));
}

#[test]
fn backend_starts_with_the_fallback_texture() {
    let texture = fallback_texture();
    assert_eq!(texture.slot, FALLBACK_TEXTURE_SLOT);
    assert_eq!((texture.bytes_per_pixel, texture.width, texture.height), (4, 1, 1));
    assert_eq!(texture.format, TextureFormat::Rgba8Unorm);
    assert_eq!(texture.pixels, vec![255, 255, 255, 255]);
    let backend = init_rust_wgpu_backend();
    assert!(backend.has_texture(FALLBACK_TEXTURE_SLOT));
    assert!(!backend.has_texture(0));
    assert!(!backend.has_surface());
    assert_eq!(backend.check_update_texture(FALLBACK_TEXTURE_SLOT, 1, 1, 4), None);
    assert_eq!(
        backend.check_update_texture(FALLBACK_TEXTURE_SLOT, 1, 1, 1),
        Some(TextureFault::SizeMismatch)
    );
}

#[test]
fn clipped_draw_is_clipped_to_the_target() {
    let mut backend = started();
    let plan = backend
        .render(0, 0, -1, true, 180, 0, 50, 30, 200, 100, 3, 1, &[0u8; 60])
        .unwrap();
    assert_eq!(plan.scissor, ScissorRect { x: 180, y: 70, width: 20, height: 30 });
    assert_eq!(
        backend.check_render(0, -1, true, 201, 0, 30, 200, 100, 3, 1, 60),
        Some(RenderFault::ClipOutOfTarget)
    );
}
