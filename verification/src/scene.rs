use vstd::prelude::*;
use crate::commands::{
    CommandView, Feature, GpuCommand, MatrixKind, Primitive, TextureEffect, TextureFilter,
    Transform,
};
use crate::geometry::{
    rectangle, rectangle_index_table, rectangle_indexed, rectangle_indexed_table,
    rectangle_indices, rectangle_table, square, square_table, triangle, triangle_2,
    triangle_2_table, triangle_table,
};
use crate::pipeline::{same_session, transforms_active, Pipeline};
use crate::pixel::{rgba, spec_rgba, PixelFormat};
use crate::texture::Texture;

verus! {

/// The commands one background frame records: pick the clear colour, then
/// clear both the colour and the depth buffer.
pub open spec fn background_frame_views() -> Seq<CommandView> {
    seq![
        CommandView::SetClearColor(spec_rgba(23, 165, 85, 0)),
        CommandView::Clear { color: true, depth: true },
    ]
}

/// The commands one shapes frame records: switch the depth test and
/// texturing off, clear to the backdrop colour, draw the four flat shapes
/// and the indexed rectangle each under its own translation, then bind the
/// texture and draw the textured square.
pub open spec fn shapes_frame_views<'a>(tex: Texture<'a>) -> Seq<CommandView> {
    seq![
        CommandView::Disable(Feature::DepthTest),
        CommandView::Disable(Feature::Texture2D),
        CommandView::SetClearColor(spec_rgba(9, 15, 129, 0)),
        CommandView::Clear { color: true, depth: false },
        CommandView::DrawArray {
            prim: Primitive::Triangles,
            textured: false,
            transform: Transform::Translation { x: -75i32, y: 15i32, z: 0i32 },
            vertices: triangle_table(),
            indices: None,
        },
        CommandView::DrawArray {
            prim: Primitive::Triangles,
            textured: false,
            transform: Transform::Translation { x: -40i32, y: -50i32, z: 0i32 },
            vertices: triangle_2_table(),
            indices: None,
        },
        CommandView::DrawArray {
            prim: Primitive::Triangles,
            textured: false,
            transform: Transform::Translation { x: 0i32, y: 30i32, z: 0i32 },
            vertices: square_table(),
            indices: None,
        },
        CommandView::DrawArray {
            prim: Primitive::Triangles,
            textured: false,
            transform: Transform::Translation { x: 55i32, y: 45i32, z: 0i32 },
            vertices: rectangle_table(),
            indices: None,
        },
        CommandView::DrawArray {
            prim: Primitive::Triangles,
            textured: false,
            transform: Transform::Translation { x: 55i32, y: -35i32, z: 0i32 },
            vertices: rectangle_indexed_table(),
            indices: Some(rectangle_index_table()),
        },
        CommandView::Enable(Feature::Texture2D),
        CommandView::SetTexMode { fmt: PixelFormat::Psm8888, mipmaps: 0u8, swizzled: false },
        CommandView::SetTexImage { width: tex.width, height: tex.height, stride: tex.tbw },
        CommandView::SetTexFunc { effect: TextureEffect::Replace, use_alpha: true },
        CommandView::SetTexFilter { min: TextureFilter::Linear, mag: TextureFilter::Linear },
        CommandView::DrawArray {
            prim: Primitive::Triangles,
            textured: true,
            transform: Transform::Translation { x: 0i32, y: -45i32, z: 0i32 },
            vertices: square_table(),
            indices: None,
        },
    ]
}

/// Record one frame of the plain background scene: open the frame, record
/// a clear to the backdrop colour, and close the frame, handing back the
/// recorded list for submission. One frame completes, so the draw and
/// display buffers trade places.
pub fn record_background_frame(p: &mut Pipeline) -> (cmds: Vec<GpuCommand>)
    requires
        old(p).wf(),
        old(p).state() is Configured || old(p).state() is FrameClosed,
        old(p).frames() < u64::MAX,
    ensures
        final(p).wf(),
        final(p).state() is FrameClosed,
        final(p).frames() == old(p).frames() + 1,
        final(p).draw_region() == old(p).display_region(),
        final(p).display_region() == old(p).draw_region(),
        final(p).initial_draw() == old(p).initial_draw(),
        final(p).initial_display() == old(p).initial_display(),
        cmds@.map_values(|c: GpuCommand| c@) == background_frame_views(),
{
    let _ = p.start_frame();
    let _ = p.set_clear_color(rgba(23, 165, 85, 0));
    let _ = p.clear(true, true);
    let r = p.end_frame();
    proof {
        assert(background_frame_views() =~= Seq::<CommandView>::empty().push(
            CommandView::SetClearColor(spec_rgba(23, 165, 85, 0)),
        ).push(CommandView::Clear { color: true, depth: true }));
    }
    match r {
        Ok(cmds) => cmds,
        Err(_) => Vec::new(),
    }
}

/// Load the one-time transform stack for the shapes scene: an orthographic
/// projection over a sixteen-by-nine box (bounds in hundredths of a unit),
/// the identity view, and the identity model matrix, leaving the model
/// matrix addressed for the per-primitive translations.
pub fn setup_shapes_transforms(p: &mut Pipeline)
    requires
        old(p).wf(),
        transforms_active(old(p).state()),
    ensures
        final(p).wf(),
        same_session(*old(p), *final(p)),
        final(p).pending() == old(p).pending(),
        final(p).list_used() == old(p).list_used(),
        final(p).texture_bound() == old(p).texture_bound(),
        final(p).mode() is Model,
        final(p).transform_of(MatrixKind::Projection) == (Transform::Ortho {
            left: -178i32,
            right: 178i32,
            bottom: -100i32,
            top: 100i32,
            near: -1000i32,
            far: 1000i32,
        }),
        final(p).transform_of(MatrixKind::View) is Identity,
        final(p).transform_of(MatrixKind::Model) is Identity,
{
    let _ = p.set_matrix_mode(MatrixKind::Projection);
    let _ = p.load_identity();
    let _ = p.set_ortho(-178, 178, -100, 100, -1000, 1000);
    let _ = p.set_matrix_mode(MatrixKind::View);
    let _ = p.load_identity();
    let _ = p.set_matrix_mode(MatrixKind::Model);
    let _ = p.load_identity();
}

/// Reset the model matrix and translate it, as each primitive's draw does:
/// the only per-primitive transform this scene uses.
fn reset_translate(p: &mut Pipeline, dx: i32, dy: i32, dz: i32)
    requires
        old(p).wf(),
        transforms_active(old(p).state()),
        old(p).mode() is Model,
    ensures
        final(p).wf(),
        same_session(*old(p), *final(p)),
        final(p).pending() == old(p).pending(),
        final(p).list_used() == old(p).list_used(),
        final(p).texture_bound() == old(p).texture_bound(),
        final(p).mode() is Model,
        final(p).transform_of(MatrixKind::Model) == (Transform::Translation {
            x: dx,
            y: dy,
            z: dz,
        }),
        final(p).transform_of(MatrixKind::Projection) == old(p).transform_of(
            MatrixKind::Projection,
        ),
        final(p).transform_of(MatrixKind::View) == old(p).transform_of(MatrixKind::View),
{
    let _ = p.set_matrix_mode(MatrixKind::Model);
    let _ = p.load_identity();
    let _ = p.translate(dx, dy, dz);
}

/// Record one frame of the shapes scene, mirroring the native drawing
/// path: clear, draw the two triangles, the square, the rectangle and the
/// indexed rectangle each under its own translation, then draw the
/// textured square with `tex` bound. One frame completes, so the draw and
/// display buffers trade places; the recorded list is handed back for
/// submission.
#[verifier::rlimit(50)]
pub fn record_shapes_frame<'a>(p: &mut Pipeline, tex: &Texture<'a>) -> (cmds: Vec<GpuCommand>)
    requires
        old(p).wf(),
        old(p).state() is Configured || old(p).state() is FrameClosed,
        old(p).frames() < u64::MAX,
        old(p).mode() is Model,
        tex.wf(),
    ensures
        final(p).wf(),
        final(p).state() is FrameClosed,
        final(p).frames() == old(p).frames() + 1,
        final(p).draw_region() == old(p).display_region(),
        final(p).display_region() == old(p).draw_region(),
        final(p).initial_draw() == old(p).initial_draw(),
        final(p).initial_display() == old(p).initial_display(),
        final(p).mode() is Model,
        cmds@.map_values(|c: GpuCommand| c@) == shapes_frame_views(*tex),
{
    let _ = p.start_frame();
    let _ = p.disable(Feature::DepthTest);
    let _ = p.disable(Feature::Texture2D);
    let _ = p.set_clear_color(rgba(9, 15, 129, 0));
    let _ = p.clear(true, false);

    reset_translate(p, -75, 15, 0);
    let _ = p.draw(Primitive::Triangles, false, triangle(), None);

    reset_translate(p, -40, -50, 0);
    let _ = p.draw(Primitive::Triangles, false, triangle_2(), None);

    reset_translate(p, 0, 30, 0);
    let _ = p.draw(Primitive::Triangles, false, square(), None);

    reset_translate(p, 55, 45, 0);
    let _ = p.draw(Primitive::Triangles, false, rectangle(), None);

    reset_translate(p, 55, -35, 0);
    let _ = p.draw(Primitive::Triangles, false, rectangle_indexed(), Some(rectangle_indices()));

    let _ = p.enable(Feature::Texture2D);
    reset_translate(p, 0, -45, 0);
    let _ = p.bind_texture(tex, TextureEffect::Replace, TextureFilter::Linear,
        TextureFilter::Linear);
    let _ = p.draw(Primitive::Triangles, true, square(), None);

    proof {
        assert(p.pending() =~= shapes_frame_views(*tex));
    }
    let r = p.end_frame();
    match r {
        Ok(cmds) => cmds,
        Err(_) => Vec::new(),
    }
}

} // verus!
