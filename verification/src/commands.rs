use vstd::prelude::*;
use crate::geometry::Vertex;
use crate::pixel::PixelFormat;
use crate::vram::VramRegion;

verus! {

/// Hardware features the pipeline switches on and off.
#[derive(Clone, Copy, Debug, PartialEq, Eq, Structural)]
pub enum Feature {
    ScissorTest,
    DepthTest,
    CullFace,
    Texture2D,
    ClipPlanes,
}

/// Comparison the depth test applies between an incoming depth and the
/// stored one.
#[derive(Clone, Copy, Debug, PartialEq, Eq, Structural)]
pub enum DepthCompare {
    Never,
    Always,
    Equal,
    NotEqual,
    Less,
    LessOrEqual,
    Greater,
    GreaterOrEqual,
}

/// Which winding order counts as front-facing for culling.
#[derive(Clone, Copy, Debug, PartialEq, Eq, Structural)]
pub enum FaceOrder {
    Clockwise,
    CounterClockwise,
}

/// Per-vertex (smooth) or per-primitive (flat) colour interpolation.
#[derive(Clone, Copy, Debug, PartialEq, Eq, Structural)]
pub enum Shading {
    Flat,
    Smooth,
}

/// How the texture unit combines a texel with the vertex colour.
#[derive(Clone, Copy, Debug, PartialEq, Eq, Structural)]
pub enum TextureEffect {
    Modulate,
    Decal,
    Blend,
    Replace,
    Add,
}

/// Sampling filter for texture lookups.
#[derive(Clone, Copy, Debug, PartialEq, Eq, Structural)]
pub enum TextureFilter {
    Nearest,
    Linear,
}

/// Primitive topologies the draw unit accepts.
#[derive(Clone, Copy, Debug, PartialEq, Eq, Structural)]
pub enum Primitive {
    Points,
    Lines,
    LineStrip,
    Triangles,
    TriangleStrip,
    TriangleFan,
    Sprites,
}

/// The three matrices of the transform stack.
#[derive(Clone, Copy, Debug, PartialEq, Eq, Structural)]
pub enum MatrixKind {
    Projection,
    View,
    Model,
}

/// A transform as this pipeline's matrix stack holds it: the identity, a
/// pure translation, or a projection (an orthographic box or a perspective
/// frustum).
///
/// Translation is the only transform the pipeline composes per primitive
/// (each draw resets the model matrix and translates); projections are
/// loaded whole. Offsets, box bounds, angles and ratios are fixed-point
/// hundredths of a unit, like vertex positions.
#[derive(Clone, Copy, Debug, PartialEq, Eq, Structural)]
pub enum Transform {
    Identity,
    Translation { x: i32, y: i32, z: i32 },
    Ortho { left: i32, right: i32, bottom: i32, top: i32, near: i32, far: i32 },
    Perspective { fovy: i32, aspect: i32, near: i32, far: i32 },
}

/// One recorded GPU command: what the pipeline appends to the open command
/// list instead of executing immediately. The host replays each against the
/// device when the list is submitted.
#[derive(Debug, PartialEq)]
pub enum GpuCommand {
    /// Register `region` as the render target, `stride` pixels per buffer row.
    SetDrawBuffer { fmt: PixelFormat, region: VramRegion, stride: u32 },
    /// Register `region` as the scanned-out buffer of the given visible size.
    SetDisplayBuffer { width: u32, height: u32, region: VramRegion, stride: u32 },
    /// Register `region` as the depth buffer.
    SetDepthBuffer { region: VramRegion, stride: u32 },
    /// Screen-to-buffer coordinate offset of the virtual coordinate space.
    SetOffset { x: u32, y: u32 },
    /// Viewport centre and size in virtual coordinates.
    SetViewport { cx: i32, cy: i32, width: i32, height: i32 },
    /// Depth range mapping; this hardware's convention is inverted, far
    /// before near.
    SetDepthRange { far: i32, near: i32 },
    /// Clip rendering to the given rectangle.
    SetScissor { x: i32, y: i32, width: i32, height: i32 },
    SetDepthFunc(DepthCompare),
    SetFrontFace(FaceOrder),
    SetShadeModel(Shading),
    Enable(Feature),
    Disable(Feature),
    /// Colour used by subsequent clears, packed as `spec_rgba` lays it out.
    SetClearColor(u32),
    /// Fill the colour and/or depth buffer with the current clear values.
    Clear { color: bool, depth: bool },
    /// Texture storage layout: pixel format, mipmap count, swizzled or not.
    SetTexMode { fmt: PixelFormat, mipmaps: u8, swizzled: bool },
    /// Dimensions and row stride (in texels) of the bound texture image.
    SetTexImage { width: i32, height: i32, stride: i32 },
    /// How texels combine with vertex colour; `use_alpha` carries the
    /// texel's alpha through.
    SetTexFunc { effect: TextureEffect, use_alpha: bool },
    SetTexFilter { min: TextureFilter, mag: TextureFilter },
    /// Draw `vertices` (through `indices` when given) as `prim`, under the
    /// model transform captured when the call was recorded.
    DrawArray {
        prim: Primitive,
        textured: bool,
        transform: Transform,
        vertices: Vec<Vertex>,
        indices: Option<Vec<u16>>,
    },
}

/// The mathematical value of a recorded command: vertex and index payloads
/// as sequences.
#[verifier::ext_equal]
pub enum CommandView {
    SetDrawBuffer { fmt: PixelFormat, region: VramRegion, stride: u32 },
    SetDisplayBuffer { width: u32, height: u32, region: VramRegion, stride: u32 },
    SetDepthBuffer { region: VramRegion, stride: u32 },
    SetOffset { x: u32, y: u32 },
    SetViewport { cx: i32, cy: i32, width: i32, height: i32 },
    SetDepthRange { far: i32, near: i32 },
    SetScissor { x: i32, y: i32, width: i32, height: i32 },
    SetDepthFunc(DepthCompare),
    SetFrontFace(FaceOrder),
    SetShadeModel(Shading),
    Enable(Feature),
    Disable(Feature),
    SetClearColor(u32),
    Clear { color: bool, depth: bool },
    SetTexMode { fmt: PixelFormat, mipmaps: u8, swizzled: bool },
    SetTexImage { width: i32, height: i32, stride: i32 },
    SetTexFunc { effect: TextureEffect, use_alpha: bool },
    SetTexFilter { min: TextureFilter, mag: TextureFilter },
    DrawArray {
        prim: Primitive,
        textured: bool,
        transform: Transform,
        vertices: Seq<Vertex>,
        indices: Option<Seq<u16>>,
    },
}

impl View for GpuCommand {
    type V = CommandView;

    open spec fn view(&self) -> CommandView {
        match self {
            GpuCommand::SetDrawBuffer { fmt, region, stride } => CommandView::SetDrawBuffer {
                fmt: *fmt,
                region: *region,
                stride: *stride,
            },
            GpuCommand::SetDisplayBuffer { width, height, region, stride } => {
                CommandView::SetDisplayBuffer {
                    width: *width,
                    height: *height,
                    region: *region,
                    stride: *stride,
                }
            }
            GpuCommand::SetDepthBuffer { region, stride } => CommandView::SetDepthBuffer {
                region: *region,
                stride: *stride,
            },
            GpuCommand::SetOffset { x, y } => CommandView::SetOffset { x: *x, y: *y },
            GpuCommand::SetViewport { cx, cy, width, height } => CommandView::SetViewport {
                cx: *cx,
                cy: *cy,
                width: *width,
                height: *height,
            },
            GpuCommand::SetDepthRange { far, near } => CommandView::SetDepthRange {
                far: *far,
                near: *near,
            },
            GpuCommand::SetScissor { x, y, width, height } => CommandView::SetScissor {
                x: *x,
                y: *y,
                width: *width,
                height: *height,
            },
            GpuCommand::SetDepthFunc(f) => CommandView::SetDepthFunc(*f),
            GpuCommand::SetFrontFace(f) => CommandView::SetFrontFace(*f),
            GpuCommand::SetShadeModel(s) => CommandView::SetShadeModel(*s),
            GpuCommand::Enable(f) => CommandView::Enable(*f),
            GpuCommand::Disable(f) => CommandView::Disable(*f),
            GpuCommand::SetClearColor(c) => CommandView::SetClearColor(*c),
            GpuCommand::Clear { color, depth } => CommandView::Clear {
                color: *color,
                depth: *depth,
            },
            GpuCommand::SetTexMode { fmt, mipmaps, swizzled } => CommandView::SetTexMode {
                fmt: *fmt,
                mipmaps: *mipmaps,
                swizzled: *swizzled,
            },
            GpuCommand::SetTexImage { width, height, stride } => CommandView::SetTexImage {
                width: *width,
                height: *height,
                stride: *stride,
            },
            GpuCommand::SetTexFunc { effect, use_alpha } => CommandView::SetTexFunc {
                effect: *effect,
                use_alpha: *use_alpha,
            },
            GpuCommand::SetTexFilter { min, mag } => CommandView::SetTexFilter {
                min: *min,
                mag: *mag,
            },
            GpuCommand::DrawArray { prim, textured, transform, vertices, indices } => {
                CommandView::DrawArray {
                    prim: *prim,
                    textured: *textured,
                    transform: *transform,
                    vertices: vertices@,
                    indices: match indices {
                        Some(idx) => Some(idx@),
                        None => None,
                    },
                }
            }
        }
    }
}

/// Bytes a command occupies in the command-list buffer once the device
/// driver encodes it: a conservative fixed bound per command. Simple state
/// and parameter writes take a few words; a clear sweeps the buffer with
/// generated geometry; a draw carries pointers plus the captured matrix.
pub open spec fn command_cost(c: CommandView) -> int {
    match c {
        CommandView::Clear { .. } => 64,
        CommandView::DrawArray { .. } => 128,
        _ => 16,
    }
}

/// Bytes the whole recorded sequence occupies.
pub open spec fn commands_cost(cs: Seq<CommandView>) -> int
    decreases cs.len(),
{
    if cs.len() == 0 {
        0
    } else {
        commands_cost(cs.drop_last()) + command_cost(cs.last())
    }
}

/// Exec mirror of `command_cost`.
pub fn command_cost_bytes(c: &GpuCommand) -> (n: u32)
    ensures
        n == command_cost(c@),
{
    match c {
        GpuCommand::Clear { .. } => 64,
        GpuCommand::DrawArray { .. } => 128,
        _ => 16,
    }
}

} // verus!
