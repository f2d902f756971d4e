use vstd::prelude::*;
use std::collections::HashMap;
use std::collections::HashSet;
use crate::index_buffer::{IndexBuffer, MAX_QUADS, is_power_of_two, is_next_power_of_two};
use crate::vertex_buffer::{
    VertexBuffer,
    VertexReservation,
    VertexFault,
    placement_possible,
};
use crate::texture::{
    TextureFormat,
    TextureFault,
    is_supported_bytes_per_pixel,
    format_for,
    format_components,
    size_fits,
    texture_format,
    bytes_per_pixel,
    expected_size,
    size_fits_usize,
};
use crate::render::{
    Primitive,
    WrapMode,
    ScissorRect,
    DrawCall,
    is_primitive_code,
    primitive_for,
    is_wrap_mode_code,
    wrap_mode_for,
    clip_fits,
    scissor_for,
    draw_fits,
    draw_for,
    primitive_from_code,
    wrap_mode_from_code,
    clip_fits_target,
    scissor_rect,
    draw_count_fits,
    draw_call,
};

verus! {

broadcast use vstd::std_specs::hash::group_hash_axioms;

/// The abstract state of the backend.
#[verifier::ext_equal]
pub struct BackendView {
    /// A resize happened since the surface was last configured.
    pub reconfigure_surface: bool,
    /// The size the surface is (to be) configured with.
    pub surface_width: u32,
    pub surface_height: u32,
    /// A window surface has been created.
    pub has_surface: bool,
    /// A frame is being recorded: a surface texture, a command encoder and a
    /// render pass are held.
    pub frame_open: bool,
    /// Vertex bytes staged in this frame.
    pub vertex_cache: Seq<u8>,
    /// The size in bytes of the GPU vertex buffer.
    pub vertex_buffer_size: nat,
    /// The number of quads the index buffer holds indices for.
    pub index_quads: nat,
    /// The live textures by slot, with their formats.
    pub textures: Map<i32, TextureFormat>,
    /// The slots that have a texture bind group.
    pub texture_bind_groups: Set<i32>,
}

/// What a `swap` asks of the GPU, besides starting a new frame.
#[derive(Clone, Copy, Debug, PartialEq, Eq, Structural)]
pub struct SwapPlan {
    /// Submit the previous frame's commands and present its surface texture.
    pub finish_frame: bool,
    /// Configure the surface with the current size before acquiring a texture.
    pub reconfigure_surface: bool,
}

/// The copy layout of a texture update.
#[derive(Clone, Copy, Debug, PartialEq, Eq, Structural)]
pub struct TextureUpload {
    pub bytes_per_row: u32,
    pub rows_per_image: u32,
}

/// Everything a draw request turns into.
#[derive(Clone, Copy, Debug, PartialEq, Eq)]
pub struct RenderPlan {
    /// The sampler bind group to use.
    pub sampler: WrapMode,
    /// The scissor rectangle.
    pub scissor: ScissorRect,
    /// The slot whose texture bind group to use.
    pub texture: i32,
    /// Where the vertices lie in the vertex buffer.
    pub vertices: VertexReservation,
    /// The index buffer was too small and has been remade for `index_len()`
    /// quads; it has to be bound again.
    pub index_buffer_rebuilt: bool,
    /// The draw to issue.
    pub draw: DrawCall,
}

/// Why a draw request cannot be carried out; each is a fatal error for the caller.
#[derive(Clone, Copy, Debug, PartialEq, Eq)]
pub enum RenderFault {
    /// Primitive code 0.
    InvalidPrimitive,
    /// A primitive code above 3.
    UnknownPrimitive,
    /// A wrap mode code other than 0 and 1.
    UnknownAddressMode,
    /// No frame is being recorded.
    NoRenderPass,
    /// The clip rectangle cannot be mirrored inside the target.
    ClipOutOfTarget,
    /// The texture slot has no bind group.
    MissingTexture,
    /// There are no vertex bytes (an empty buffer slice).
    EmptyVertices,
    /// More primitives than the quad index buffer can index.
    TooManyPrimitives,
    /// The draw count does not fit in a `u32`.
    DrawCountOverflow,
}

/// The vertex part of a draw's outcome: where its bytes went, or why they could not.
pub open spec fn vertex_outcome(res: Result<RenderPlan, VertexFault>) -> Result<
    VertexReservation,
    VertexFault,
> {
    match res {
        Ok(plan) => Ok(plan.vertices),
        Err(fault) => Err(fault),
    }
}

impl BackendView {
    /// Every live texture has a bind group.
    pub open spec fn registry_wf(self) -> bool {
        forall|slot: i32| #[trigger]
            self.textures.contains_key(slot) ==> self.texture_bind_groups.contains(slot)
    }

    /// The index buffer holds a power of two of quads, at least 8 and at most `MAX_QUADS`.
    pub open spec fn index_wf(self) -> bool {
        &&& is_power_of_two(self.index_quads)
        &&& 8 <= self.index_quads <= MAX_QUADS
    }

    /// The state after the window surface is created with the given size.
    pub open spec fn after_init_window(self, width: u32, height: u32) -> BackendView {
        BackendView { surface_width: width, surface_height: height, has_surface: true, ..self }
    }

    /// The state after a viewport update: only a resize records the new size
    /// and asks for the surface to be reconfigured.
    pub open spec fn after_update_viewport(self, w: u32, h: u32, by_resize: bool) -> BackendView {
        if by_resize {
            BackendView { reconfigure_surface: true, surface_width: w, surface_height: h, ..self }
        } else {
            self
        }
    }

    /// What a swap asks of the GPU in this state.
    pub open spec fn swap_plan(self) -> SwapPlan {
        SwapPlan { finish_frame: self.frame_open, reconfigure_surface: self.reconfigure_surface }
    }

    /// The state after a swap: the vertex cache is flushed, the surface is
    /// configured, and a new frame is open.
    pub open spec fn after_swap(self) -> BackendView {
        BackendView {
            reconfigure_surface: false,
            frame_open: true,
            vertex_cache: Seq::<u8>::empty(),
            ..self
        }
    }

    /// The state after a texture of the given format is created in `slot`,
    /// replacing any texture there.
    pub open spec fn after_create_texture(self, slot: i32, format: TextureFormat) -> BackendView {
        BackendView {
            textures: self.textures.insert(slot, format),
            texture_bind_groups: self.texture_bind_groups.insert(slot),
            ..self
        }
    }

    /// The state after the texture in `slot` is destroyed; its bind group stays.
    pub open spec fn after_destroy_texture(self, slot: i32) -> BackendView {
        BackendView { textures: self.textures.remove(slot), ..self }
    }

    /// `other` differs from `self` at most in its vertex and index buffers.
    pub open spec fn same_but_buffers(self, other: BackendView) -> bool {
        &&& other.reconfigure_surface == self.reconfigure_surface
        &&& other.surface_width == self.surface_width
        &&& other.surface_height == self.surface_height
        &&& other.has_surface == self.has_surface
        &&& other.frame_open == self.frame_open
        &&& other.textures == self.textures
        &&& other.texture_bind_groups == self.texture_bind_groups
    }

    /// A texture can be created: the texel size is supported, the data size can
    /// be computed, and the data has exactly that size.
    pub open spec fn create_texture_allowed(
        bytes_per_pixel: u32,
        width: u32,
        height: u32,
        data_len: nat,
    ) -> bool {
        &&& is_supported_bytes_per_pixel(bytes_per_pixel)
        &&& size_fits(bytes_per_pixel as nat, width as nat, height as nat)
        &&& data_len == bytes_per_pixel * width * height
    }

    /// The first reason, in the order they are met, why a texture
    /// cannot be created.
    pub open spec fn create_texture_fault(
        bytes_per_pixel: u32,
        width: u32,
        height: u32,
        data_len: nat,
    ) -> Option<TextureFault> {
        if !is_supported_bytes_per_pixel(bytes_per_pixel) {
            Some(TextureFault::InvalidBytesPerPixel)
        } else if !size_fits(bytes_per_pixel as nat, width as nat, height as nat) {
            Some(TextureFault::SizeOverflow)
        } else if data_len != bytes_per_pixel * width * height {
            Some(TextureFault::SizeMismatch)
        } else {
            None
        }
    }

    /// The texture in `slot` can be updated with a `width` by `height` image of
    /// `data_len` bytes.
    pub open spec fn update_texture_allowed(
        self,
        slot: i32,
        width: u32,
        height: u32,
        data_len: nat,
    ) -> bool {
        &&& self.textures.contains_key(slot)
        &&& size_fits(format_components(self.textures[slot]), width as nat, height as nat)
        &&& data_len == format_components(self.textures[slot]) * width * height
        &&& format_components(self.textures[slot]) * width <= u32::MAX
    }

    /// The first reason, in the order they are met, why the texture
    /// in `slot` cannot be updated.
    pub open spec fn update_texture_fault(
        self,
        slot: i32,
        width: u32,
        height: u32,
        data_len: nat,
    ) -> Option<TextureFault> {
        if !self.textures.contains_key(slot) {
            Some(TextureFault::MissingTexture)
        } else if !size_fits(format_components(self.textures[slot]), width as nat, height as nat) {
            Some(TextureFault::SizeOverflow)
        } else if data_len != format_components(self.textures[slot]) * width * height {
            Some(TextureFault::SizeMismatch)
        } else if format_components(self.textures[slot]) * width > u32::MAX {
            Some(TextureFault::RowOverflow)
        } else {
            None
        }
    }

    /// A draw request can be carried out in this state.
    pub open spec fn render_allowed(
        self,
        wrap_mode: i32,
        texture: i32,
        clipping: bool,
        clip_x: u32,
        clip_y: u32,
        clip_h: u32,
        target_width: u32,
        target_height: u32,
        primitive: u32,
        primitive_count: u32,
        vertex_len: nat,
    ) -> bool {
        &&& is_primitive_code(primitive)
        &&& is_wrap_mode_code(wrap_mode)
        &&& self.frame_open
        &&& clipping ==> clip_fits(clip_x, clip_y, clip_h, target_width, target_height)
        &&& self.texture_bind_groups.contains(texture)
        &&& vertex_len > 0
        &&& primitive_count <= MAX_QUADS
        &&& draw_fits(primitive_for(primitive), primitive_count)
    }

    /// The first reason, in the order they are met, why a draw
    /// request cannot be carried out.
    pub open spec fn render_fault(
        self,
        wrap_mode: i32,
        texture: i32,
        clipping: bool,
        clip_x: u32,
        clip_y: u32,
        clip_h: u32,
        target_width: u32,
        target_height: u32,
        primitive: u32,
        primitive_count: u32,
        vertex_len: nat,
    ) -> Option<RenderFault> {
        if primitive == 0 {
            Some(RenderFault::InvalidPrimitive)
        } else if primitive > 3 {
            Some(RenderFault::UnknownPrimitive)
        } else if !is_wrap_mode_code(wrap_mode) {
            Some(RenderFault::UnknownAddressMode)
        } else if !self.frame_open {
            Some(RenderFault::NoRenderPass)
        } else if clipping && !clip_fits(clip_x, clip_y, clip_h, target_width, target_height) {
            Some(RenderFault::ClipOutOfTarget)
        } else if !self.texture_bind_groups.contains(texture) {
            Some(RenderFault::MissingTexture)
        } else if vertex_len == 0 {
            Some(RenderFault::EmptyVertices)
        } else if primitive_count > MAX_QUADS {
            Some(RenderFault::TooManyPrimitives)
        } else if !draw_fits(primitive_for(primitive), primitive_count) {
            Some(RenderFault::DrawCountOverflow)
        } else {
            None
        }
    }
}

/// The slot of the fallback texture that every backend starts with.
pub const FALLBACK_TEXTURE_SLOT: i32 = -1;

/// A texture to create: its slot, texel size and format, size in pixels, and data.
pub struct TextureRequest {
    pub slot: i32,
    pub bytes_per_pixel: u32,
    pub format: TextureFormat,
    pub width: u32,
    pub height: u32,
    pub pixels: Vec<u8>,
}

/// The fallback texture every backend starts with: in `FALLBACK_TEXTURE_SLOT`,
/// 1 by 1 pixel of 4 bytes (`Rgba8Unorm`), the pixel opaque white.
pub fn fallback_texture() -> (texture: TextureRequest)
    ensures
        texture.slot == FALLBACK_TEXTURE_SLOT,
        texture.bytes_per_pixel == 4,
        texture.format == TextureFormat::Rgba8Unorm,
        texture.format == format_for(texture.bytes_per_pixel),
        texture.width == 1,
        texture.height == 1,
        texture.pixels@ == seq![255u8, 255u8, 255u8, 255u8],
{
    let mut pixels: Vec<u8> = Vec::new();
    pixels.push(255);
    pixels.push(255);
    pixels.push(255);
    pixels.push(255);
    TextureRequest {
        slot: FALLBACK_TEXTURE_SLOT,
        bytes_per_pixel: 4,
        format: TextureFormat::Rgba8Unorm,
        width: 1,
        height: 1,
        pixels,
    }
}

/// A backend as it starts: no surface and no frame yet, and the fallback texture
/// (see `fallback_texture`) registered with its bind group.
pub fn init_rust_wgpu_backend() -> (backend: RustWgpuBackend)
    ensures
        backend.wf(),
        !backend@.reconfigure_surface,
        backend@.surface_width == 0,
        backend@.surface_height == 0,
        !backend@.has_surface,
        !backend@.frame_open,
        backend@.vertex_cache == Seq::<u8>::empty(),
        backend@.index_quads == 8,
        backend@.textures == Map::<i32, TextureFormat>::empty().insert(
            FALLBACK_TEXTURE_SLOT,
            TextureFormat::Rgba8Unorm,
        ),
        backend@.texture_bind_groups == Set::<i32>::empty().insert(FALLBACK_TEXTURE_SLOT),
{
    let mut backend: RustWgpuBackend = RustWgpuBackend::new();
    let texture: TextureRequest = fallback_texture();
    backend.create_texture(
        texture.slot,
        texture.bytes_per_pixel,
        0,
        texture.width,
        texture.height,
        texture.pixels.as_slice(),
    );
    backend
}

/// The backend's decisions: it tracks the surface, the frame, the textures and
/// the vertex and index buffers, and says for each request what the GPU is to do.
pub struct RustWgpuBackend {
    reconfigure_surface: bool,
    surface_width: u32,
    surface_height: u32,
    has_surface: bool,
    frame_open: bool,
    vertex_buffer: VertexBuffer,
    index_buffer: IndexBuffer,
    textures: HashMap<i32, TextureFormat>,
    texture_bind_groups: HashSet<i32>,
}

impl View for RustWgpuBackend {
    type V = BackendView;

    closed spec fn view(&self) -> BackendView {
        BackendView {
            reconfigure_surface: self.reconfigure_surface,
            surface_width: self.surface_width,
            surface_height: self.surface_height,
            has_surface: self.has_surface,
            frame_open: self.frame_open,
            vertex_cache: self.vertex_buffer.cached(),
            vertex_buffer_size: self.vertex_buffer.size(),
            index_quads: self.index_buffer.quads(),
            textures: self.textures@,
            texture_bind_groups: self.texture_bind_groups@,
        }
    }
}

impl RustWgpuBackend {
    /// The backend's invariant.
    pub closed spec fn wf(&self) -> bool {
        &&& self.index_buffer.wf()
        &&& forall|slot: i32| #[trigger]
            self.textures@.contains_key(slot) ==> self.texture_bind_groups@.contains(slot)
    }

    /// What the invariant means for the abstract state.
    pub proof fn lemma_wf(&self)
        requires
            self.wf(),
        ensures
            self@.index_wf(),
            self@.registry_wf(),
    {
    }

    /// A backend with no surface, no frame, no textures, an empty vertex cache
    /// and an index buffer for 8 quads.
    pub fn new() -> (backend: Self)
        ensures
            backend.wf(),
            !backend@.reconfigure_surface,
            backend@.surface_width == 0,
            backend@.surface_height == 0,
            !backend@.has_surface,
            !backend@.frame_open,
            backend@.vertex_cache == Seq::<u8>::empty(),
            backend@.index_quads == 8,
            backend@.textures == Map::<i32, TextureFormat>::empty(),
            backend@.texture_bind_groups == Set::<i32>::empty(),
    {
        RustWgpuBackend {
            reconfigure_surface: false,
            surface_width: 0,
            surface_height: 0,
            has_surface: false,
            frame_open: false,
            vertex_buffer: VertexBuffer::new(),
            index_buffer: IndexBuffer::new(),
            textures: HashMap::new(),
            texture_bind_groups: HashSet::new(),
        }
    }

    /// Records the window surface, configured with the given size.
    pub fn init_window(&mut self, width: u32, height: u32)
        requires
            old(self).wf(),
        ensures
            final(self).wf(),
            final(self)@ == old(self)@.after_init_window(width, height),
    {
        self.surface_width = width;
        self.surface_height = height;
        self.has_surface = true;
    }

    /// A viewport change; only one caused by a resize matters: it records the
    /// new size and asks for the surface to be reconfigured at the next swap.
    pub fn update_viewport(&mut self, _x: i32, _y: i32, w: u32, h: u32, by_resize: bool)
        requires
            old(self).wf(),
        ensures
            final(self).wf(),
            final(self)@ == old(self)@.after_update_viewport(w, h, by_resize),
    {
        if by_resize {
            self.reconfigure_surface = true;
            self.surface_width = w;
            self.surface_height = h;
        }
    }

    /// Finishes the last frame, and starts the new frame. The staged vertex
    /// bytes (`vertex_cache()`) are to be written to the vertex buffer before.
    pub fn swap(&mut self) -> (plan: SwapPlan)
        requires
            old(self).wf(),
            old(self)@.has_surface,
        ensures
            final(self).wf(),
            final(self)@ == old(self)@.after_swap(),
            plan == old(self)@.swap_plan(),
    {
        self.vertex_buffer.finalize_buffers();
        let plan = SwapPlan {
            finish_frame: self.frame_open,
            reconfigure_surface: self.reconfigure_surface,
        };
        self.reconfigure_surface = false;
        self.frame_open = true;
        plan
    }

    /// Registers a `width` by `height` texture in `slot`, 1 or 4 bytes per pixel,
    /// and its bind group; returns its format.
    pub fn create_texture(
        &mut self,
        slot: i32,
        bytes_per_pixel: u32,
        _flags: i32,
        width: u32,
        height: u32,
        data: &[u8],
    ) -> (format: TextureFormat)
        requires
            old(self).wf(),
            BackendView::create_texture_allowed(bytes_per_pixel, width, height, data@.len()),
        ensures
            final(self).wf(),
            format == format_for(bytes_per_pixel),
            final(self)@ == old(self)@.after_create_texture(slot, format),
    {
        let format: TextureFormat = texture_format(bytes_per_pixel);
        self.texture_bind_groups.insert(slot);
        self.textures.insert(slot, format);
        format
    }

    /// The first reason why a texture cannot be created, if any.
    pub fn check_create_texture(bytes_per_pixel: u32, width: u32, height: u32, data_len: usize) -> (fault:
        Option<TextureFault>)
        ensures
            fault == BackendView::create_texture_fault(bytes_per_pixel, width, height, data_len as nat),
            fault is None <==> BackendView::create_texture_allowed(
                bytes_per_pixel,
                width,
                height,
                data_len as nat,
            ),
    {
        if !(bytes_per_pixel == 1 || bytes_per_pixel == 4) {
            Some(TextureFault::InvalidBytesPerPixel)
        } else if !size_fits_usize(bytes_per_pixel, width, height) {
            Some(TextureFault::SizeOverflow)
        } else if data_len != expected_size(bytes_per_pixel, width, height) {
            Some(TextureFault::SizeMismatch)
        } else {
            None
        }
    }

    /// The copy layout for writing a `width` by `height` image into the texture
    /// in `slot`: rows of `bytes per pixel * width` bytes, `height` rows.
    pub fn update_texture(
        &self,
        slot: i32,
        _x: u32,
        _y: u32,
        width: u32,
        height: u32,
        data: &[u8],
    ) -> (upload: TextureUpload)
        requires
            self.wf(),
            self@.update_texture_allowed(slot, width, height, data@.len()),
        ensures
            upload.bytes_per_row == format_components(self@.textures[slot]) * width,
            upload.rows_per_image == height,
    {
        let format: TextureFormat = *self.textures.get(&slot).unwrap();
        let bpp: u8 = bytes_per_pixel(format);
        TextureUpload { bytes_per_row: bpp as u32 * width, rows_per_image: height }
    }

    /// The first reason why the texture in `slot` cannot be updated, if any.
    pub fn check_update_texture(&self, slot: i32, width: u32, height: u32, data_len: usize) -> (fault:
        Option<TextureFault>)
        ensures
            fault == self@.update_texture_fault(slot, width, height, data_len as nat),
            fault is None <==> self@.update_texture_allowed(slot, width, height, data_len as nat),
    {
        match self.textures.get(&slot) {
            None => Some(TextureFault::MissingTexture),
            Some(format) => {
                let bpp: u8 = bytes_per_pixel(*format);
                if !size_fits_usize(bpp as u32, width, height) {
                    Some(TextureFault::SizeOverflow)
                } else if data_len != expected_size(bpp as u32, width, height) {
                    Some(TextureFault::SizeMismatch)
                } else if width > u32::MAX / (bpp as u32) {
                    proof {
                        assert((bpp as u32) * width > u32::MAX) by (nonlinear_arith)
                            requires
                                width > u32::MAX / (bpp as u32),
                                bpp >= 1,
                        ;
                    }
                    Some(TextureFault::RowOverflow)
                } else {
                    proof {
                        assert((bpp as u32) * width <= u32::MAX) by (nonlinear_arith)
                            requires
                                width <= u32::MAX / (bpp as u32),
                                bpp >= 1,
                        ;
                    }
                    None
                }
            },
        }
    }

    /// Plans a draw: picks the sampler and texture bind groups, computes the
    /// scissor rectangle, stages the vertex bytes, makes the index buffer large
    /// enough for `primitive_count` quads, and says which draw to issue.
    /// `target_width` and `target_height` are the size of the frame's surface texture.
    pub fn render(
        &mut self,
        _blend_mode: i32,
        wrap_mode: i32,
        texture: i32,
        clipping: bool,
        clip_x: u32,
        clip_y: u32,
        clip_w: u32,
        clip_h: u32,
        target_width: u32,
        target_height: u32,
        primitive: u32,
        primitive_count: u32,
        vertices: &[u8],
    ) -> (res: Result<RenderPlan, VertexFault>)
        requires
            old(self).wf(),
            old(self)@.render_allowed(
                wrap_mode,
                texture,
                clipping,
                clip_x,
                clip_y,
                clip_h,
                target_width,
                target_height,
                primitive,
                primitive_count,
                vertices@.len(),
            ),
        ensures
            final(self).wf(),
            old(self)@.same_but_buffers(final(self)@),
            final(self)@.vertex_cache == old(self)@.vertex_cache + vertices@,
            placement_possible(
                vertex_outcome(res),
                old(self)@.vertex_cache.len() as usize,
                vertices@.len() as usize,
                old(self)@.vertex_buffer_size as usize,
            ),
            match res {
                Ok(plan) => {
                    &&& plan.sampler == wrap_mode_for(wrap_mode)
                    &&& plan.scissor == scissor_for(
                        clipping,
                        clip_x,
                        clip_y,
                        clip_w,
                        clip_h,
                        target_width,
                        target_height,
                    )
                    &&& plan.texture == texture
                    &&& plan.vertices.end <= final(self)@.vertex_buffer_size
                    &&& plan.vertices.recreated ==> final(self)@.vertex_buffer_size
                        == plan.vertices.capacity_after
                    &&& !plan.vertices.recreated ==> final(self)@.vertex_buffer_size == old(
                        self,
                    )@.vertex_buffer_size
                    &&& plan.index_buffer_rebuilt == (old(self)@.index_quads < primitive_count)
                    &&& !plan.index_buffer_rebuilt ==> final(self)@.index_quads == old(
                        self,
                    )@.index_quads
                    &&& plan.index_buffer_rebuilt ==> is_next_power_of_two(
                        primitive_count as nat,
                        final(self)@.index_quads,
                    )
                    &&& primitive_count <= final(self)@.index_quads
                    &&& plan.draw == draw_for(primitive_for(primitive), primitive_count)
                    &&& final(self)@.vertex_cache.subrange(
                        plan.vertices.offset as int,
                        plan.vertices.end as int,
                    ) == vertices@
                    &&& final(self)@.vertex_cache.subrange(0, plan.vertices.offset as int) == old(
                        self,
                    )@.vertex_cache
                    &&& (plan.draw matches DrawCall::Indexed { index_count } ==> index_count <= 6
                        * final(self)@.index_quads)
                },
                Err(_) => {
                    &&& final(self)@.index_quads == old(self)@.index_quads
                    &&& final(self)@.vertex_buffer_size == old(self)@.vertex_buffer_size
                },
            },
    {
        let primitive: Primitive = primitive_from_code(primitive);
        let sampler: WrapMode = wrap_mode_from_code(wrap_mode);
        let scissor: ScissorRect = scissor_rect(
            clipping,
            clip_x,
            clip_y,
            clip_w,
            clip_h,
            target_width,
            target_height,
        );
        let reservation: VertexReservation = match self.vertex_buffer.reserve_vertices(vertices) {
            Ok(r) => r,
            Err(fault) => {
                return Err(fault);
            },
        };
        let kept: bool = self.index_buffer.ensure_length(primitive_count as usize);
        let draw: DrawCall = draw_call(primitive, primitive_count);
        Ok(
            RenderPlan {
                sampler,
                scissor,
                texture,
                vertices: reservation,
                index_buffer_rebuilt: !kept,
                draw,
            },
        )
    }

    /// The first reason why a draw request cannot be carried out, if any.
    pub fn check_render(
        &self,
        wrap_mode: i32,
        texture: i32,
        clipping: bool,
        clip_x: u32,
        clip_y: u32,
        clip_h: u32,
        target_width: u32,
        target_height: u32,
        primitive: u32,
        primitive_count: u32,
        vertex_len: usize,
    ) -> (fault: Option<RenderFault>)
        ensures
            fault == self@.render_fault(
                wrap_mode,
                texture,
                clipping,
                clip_x,
                clip_y,
                clip_h,
                target_width,
                target_height,
                primitive,
                primitive_count,
                vertex_len as nat,
            ),
            fault is None <==> self@.render_allowed(
                wrap_mode,
                texture,
                clipping,
                clip_x,
                clip_y,
                clip_h,
                target_width,
                target_height,
                primitive,
                primitive_count,
                vertex_len as nat,
            ),
    {
        if primitive == 0 {
            Some(RenderFault::InvalidPrimitive)
        } else if primitive > 3 {
            Some(RenderFault::UnknownPrimitive)
        } else if !(wrap_mode == 0 || wrap_mode == 1) {
            Some(RenderFault::UnknownAddressMode)
        } else if !self.frame_open {
            Some(RenderFault::NoRenderPass)
        } else if clipping && !clip_fits_target(clip_x, clip_y, clip_h, target_width, target_height) {
            Some(RenderFault::ClipOutOfTarget)
        } else if !self.texture_bind_groups.contains(&texture) {
            Some(RenderFault::MissingTexture)
        } else if vertex_len == 0 {
            Some(RenderFault::EmptyVertices)
        } else if primitive_count as usize > MAX_QUADS {
            Some(RenderFault::TooManyPrimitives)
        } else if !draw_count_fits(primitive_from_code(primitive), primitive_count) {
            Some(RenderFault::DrawCountOverflow)
        } else {
            None
        }
    }

    /// Whether a texture lives in `slot`.
    pub fn has_texture(&self, slot: i32) -> (found: bool)
        ensures
            found == self@.textures.contains_key(slot),
    {
        self.textures.contains_key(&slot)
    }

    /// Forgets the texture in `slot`; its bind group is kept.
    pub fn destroy_texture(&mut self, slot: i32)
        requires
            old(self).wf(),
            old(self)@.textures.contains_key(slot),
        ensures
            final(self).wf(),
            final(self)@ == old(self)@.after_destroy_texture(slot),
    {
        self.textures.remove(&slot);
    }

    /// Whether a window surface has been created.
    pub fn has_surface(&self) -> (found: bool)
        ensures
            found == self@.has_surface,
    {
        self.has_surface
    }

    /// Whether a frame is being recorded.
    pub fn frame_open(&self) -> (open: bool)
        ensures
            open == self@.frame_open,
    {
        self.frame_open
    }

    /// The size the surface is (to be) configured with.
    pub fn surface_size(&self) -> (size: (u32, u32))
        ensures
            size == (self@.surface_width, self@.surface_height),
    {
        (self.surface_width, self.surface_height)
    }

    /// The vertex bytes staged in this frame.
    pub fn vertex_cache(&self) -> (bytes: &[u8])
        ensures
            bytes@ == self@.vertex_cache,
    {
        self.vertex_buffer.cache()
    }

    /// The size in bytes of the GPU vertex buffer.
    pub fn vertex_buffer_size(&self) -> (size: usize)
        ensures
            size == self@.vertex_buffer_size,
    {
        self.vertex_buffer.buffer_size()
    }

    /// The number of quads the index buffer holds indices for.
    pub fn index_len(&self) -> (len: usize)
        ensures
            len == self@.index_quads,
    {
        self.index_buffer.len()
    }
}

} // verus!
