use vstd::prelude::*;

verus! {

/// The primitive kinds a draw request can name.
#[derive(Clone, Copy, Debug, PartialEq, Eq, Structural)]
pub enum Primitive {
    /// Code 1: lines, which this backend does not draw.
    Lines,
    /// Code 2: quads, drawn through the quad index buffer.
    Quads,
    /// Code 3: triangles, drawn straight from the vertices.
    Triangles,
}

/// The texture address modes a draw request can name; each has its own sampler.
#[derive(Clone, Copy, Debug, PartialEq, Eq, Structural)]
pub enum WrapMode {
    /// Code 0.
    Repeat,
    /// Code 1.
    ClampToEdge,
}

/// A scissor rectangle in target pixels, origin at the top left.
#[derive(Clone, Copy, Debug, PartialEq, Eq, Structural)]
pub struct ScissorRect {
    pub x: u32,
    pub y: u32,
    pub width: u32,
    pub height: u32,
}

/// The GPU draw that a request turns into.
#[derive(Clone, Copy, Debug, PartialEq, Eq, Structural)]
pub enum DrawCall {
    /// Nothing is drawn.
    Nothing,
    /// An indexed draw of indices `0 .. index_count`, one instance.
    Indexed { index_count: u32 },
    /// A direct draw of vertices `0 .. vertex_count`, one instance.
    Direct { vertex_count: u32 },
}

/// Codes 1, 2 and 3 name a primitive.
pub open spec fn is_primitive_code(code: u32) -> bool {
    1 <= code <= 3
}

/// The primitive that a code names.
pub open spec fn primitive_for(code: u32) -> Primitive
    recommends
        is_primitive_code(code),
{
    if code == 1 {
        Primitive::Lines
    } else if code == 2 {
        Primitive::Quads
    } else {
        Primitive::Triangles
    }
}

/// Codes 0 and 1 name a wrap mode.
pub open spec fn is_wrap_mode_code(code: i32) -> bool {
    0 <= code <= 1
}

/// The wrap mode that a code names.
pub open spec fn wrap_mode_for(code: i32) -> WrapMode
    recommends
        is_wrap_mode_code(code),
{
    if code == 0 {
        WrapMode::Repeat
    } else {
        WrapMode::ClampToEdge
    }
}

/// The clip rectangle can be mirrored vertically inside a target of
/// `target_width` by `target_height` pixels, and it starts inside the target's width.
pub open spec fn clip_fits(clip_x: u32, clip_y: u32, clip_h: u32, target_width: u32, target_height: u32) -> bool {
    &&& clip_y + clip_h <= target_height
    &&& clip_x <= target_width
}

/// The scissor rectangle of a draw. Without clipping it is the whole target.
/// With clipping, the clip rectangle (given with its origin at the bottom) is
/// mirrored vertically, `y = target_height - clip_y - clip_h`, and clipped to the
/// target: its width is capped at `target_width - clip_x` and its height at
/// `target_height - y`.
pub open spec fn scissor_for(
    clipping: bool,
    clip_x: u32,
    clip_y: u32,
    clip_w: u32,
    clip_h: u32,
    target_width: u32,
    target_height: u32,
) -> ScissorRect {
    if clipping {
        let y: int = target_height - clip_y - clip_h;
        ScissorRect {
            x: clip_x,
            y: y as u32,
            width: (if clip_w <= target_width - clip_x {
                clip_w as int
            } else {
                target_width - clip_x
            }) as u32,
            height: (if clip_h <= target_height - y { clip_h as int } else { target_height - y }) as u32,
        }
    } else {
        ScissorRect { x: 0, y: 0, width: target_width, height: target_height }
    }
}

/// The draw count of `count` primitives fits in a `u32`: 6 indices per quad,
/// 3 vertices per triangle.
pub open spec fn draw_fits(primitive: Primitive, count: u32) -> bool {
    match primitive {
        Primitive::Lines => true,
        Primitive::Quads => 6 * count <= u32::MAX,
        Primitive::Triangles => 3 * count <= u32::MAX,
    }
}

/// The draw of `count` primitives: quads take 6 indices each, triangles 3
/// vertices each, and lines are skipped.
pub open spec fn draw_for(primitive: Primitive, count: u32) -> DrawCall {
    match primitive {
        Primitive::Lines => DrawCall::Nothing,
        Primitive::Quads => DrawCall::Indexed { index_count: (6 * count) as u32 },
        Primitive::Triangles => DrawCall::Direct { vertex_count: (3 * count) as u32 },
    }
}

/// The primitive named by code 1, 2 or 3.
pub fn primitive_from_code(code: u32) -> (primitive: Primitive)
    requires
        is_primitive_code(code),
    ensures
        primitive == primitive_for(code),
{
    if code == 1 {
        Primitive::Lines
    } else if code == 2 {
        Primitive::Quads
    } else {
        Primitive::Triangles
    }
}

/// The wrap mode named by code 0 or 1.
pub fn wrap_mode_from_code(code: i32) -> (mode: WrapMode)
    requires
        is_wrap_mode_code(code),
    ensures
        mode == wrap_mode_for(code),
{
    if code == 0 {
        WrapMode::Repeat
    } else {
        WrapMode::ClampToEdge
    }
}

/// Whether the clip rectangle can be mirrored inside the target.
pub fn clip_fits_target(
    clip_x: u32,
    clip_y: u32,
    clip_h: u32,
    target_width: u32,
    target_height: u32,
) -> (fits: bool)
    ensures
        fits == clip_fits(clip_x, clip_y, clip_h, target_width, target_height),
{
    clip_y <= target_height && clip_h <= target_height - clip_y && clip_x <= target_width
}

/// The scissor rectangle of a draw on a `target_width` by `target_height` target.
pub fn scissor_rect(
    clipping: bool,
    clip_x: u32,
    clip_y: u32,
    clip_w: u32,
    clip_h: u32,
    target_width: u32,
    target_height: u32,
) -> (rect: ScissorRect)
    requires
        clipping ==> clip_fits(clip_x, clip_y, clip_h, target_width, target_height),
    ensures
        rect == scissor_for(clipping, clip_x, clip_y, clip_w, clip_h, target_width, target_height),
{
    if clipping {
        let y: u32 = target_height - clip_y - clip_h;
        let width: u32 = if clip_w <= target_width - clip_x {
            clip_w
        } else {
            target_width - clip_x
        };
        let height: u32 = if clip_h <= target_height - y {
            clip_h
        } else {
            target_height - y
        };
        ScissorRect { x: clip_x, y, width, height }
    } else {
        ScissorRect { x: 0, y: 0, width: target_width, height: target_height }
    }
}

/// Whether the draw count of `count` primitives fits in a `u32`.
pub fn draw_count_fits(primitive: Primitive, count: u32) -> (fits: bool)
    ensures
        fits == draw_fits(primitive, count),
{
    match primitive {
        Primitive::Lines => true,
        Primitive::Quads => count <= u32::MAX / 6,
        Primitive::Triangles => count <= u32::MAX / 3,
    }
}

/// The draw of `count` primitives.
pub fn draw_call(primitive: Primitive, count: u32) -> (draw: DrawCall)
    requires
        draw_fits(primitive, count),
    ensures
        draw == draw_for(primitive, count),
{
    match primitive {
        Primitive::Lines => DrawCall::Nothing,
        Primitive::Quads => DrawCall::Indexed { index_count: count * 6 },
        Primitive::Triangles => DrawCall::Direct { vertex_count: count * 3 },
    }
}

} // verus!
