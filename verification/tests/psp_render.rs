use psp_render::commands::{
    Feature, GpuCommand, MatrixKind, Primitive, TextureEffect, TextureFilter, Transform,
};
use psp_render::geometry::{
    rectangle, rectangle_indexed, rectangle_indices, square, triangle, triangle_2,
};
use psp_render::pipeline::{GfxError, Pipeline, PipelineState, LIST_CAPACITY};
use psp_render::pixel::{get_memory_size, rgba, PixelFormat};
use psp_render::scene::{record_background_frame, record_shapes_frame, setup_shapes_transforms};
use psp_render::texture::{Dimension, Texture};
use psp_render::vram::VramAllocator;

const VRAM_BYTES: u32 = 0x200000;

fn configured_pipeline() -> Pipeline {
    let mut alloc = VramAllocator::new(VRAM_BYTES);
    let mut p = Pipeline::new();
    p.initialize(&mut alloc).expect("fresh pipeline configures");
    p
}

// A minimal encoded stream: start marker, baseline frame header with
// height 1300 and width 1299, end marker.
fn sof_stream() -> Vec<u8> {
    vec![
        0xFF, 0xD8, // start of image
        0xFF, 0xC0, // baseline frame header
        0x00, 0x07, // segment length
        0x08, // precision
        0x05, 0x14, // height 1300
        0x05, 0x13, // width 1299
        0xFF, 0xD9, // end of image
    ]
}

#[test]
fn memory_size_multipliers() {
    assert_eq!(get_memory_size(16, 16, PixelFormat::PsmT4), 128);
    assert_eq!(get_memory_size(16, 16, PixelFormat::PsmT8), 256);
    assert_eq!(get_memory_size(16, 16, PixelFormat::Psm5650), 512);
    assert_eq!(get_memory_size(16, 16, PixelFormat::Psm5551), 512);
    assert_eq!(get_memory_size(16, 16, PixelFormat::Psm4444), 512);
    assert_eq!(get_memory_size(16, 16, PixelFormat::PsmT16), 512);
    assert_eq!(get_memory_size(16, 16, PixelFormat::Psm8888), 1024);
    assert_eq!(get_memory_size(16, 16, PixelFormat::PsmT32), 1024);
    assert_eq!(get_memory_size(16, 16, PixelFormat::PsmDxt1), 0);
    assert_eq!(get_memory_size(16, 16, PixelFormat::PsmDxt3), 0);
    assert_eq!(get_memory_size(16, 16, PixelFormat::PsmDxt5), 0);
}

#[test]
fn memory_size_framebuffers() {
    assert_eq!(get_memory_size(512, 272, PixelFormat::Psm8888), 557056);
    assert_eq!(get_memory_size(512, 272, PixelFormat::Psm4444), 278528);
    assert_eq!(get_memory_size(512, 272, PixelFormat::PsmT4), 69632);
    // An odd pixel count in the 4-bit format drops the trailing half byte.
    assert_eq!(get_memory_size(3, 1, PixelFormat::PsmT4), 1);
    assert_eq!(get_memory_size(0, 272, PixelFormat::Psm8888), 0);
}

#[test]
fn rgba_packing() {
    assert_eq!(rgba(23, 165, 85, 0), 0x0055_A517);
    assert_eq!(rgba(9, 15, 129, 0), 0x0081_0F09);
    assert_eq!(rgba(0, 0, 0, 0), 0);
    assert_eq!(rgba(255, 255, 255, 255), 0xFFFF_FFFF);
    assert_eq!(rgba(1, 0, 0, 0), 1);
    assert_eq!(rgba(0, 0, 0, 255), 0xFF00_0000);
}

#[test]
fn allocator_is_monotonic_and_packed() {
    let mut alloc = VramAllocator::new(VRAM_BYTES);
    assert_eq!(alloc.used_bytes(), 0);
    assert_eq!(alloc.capacity_bytes(), VRAM_BYTES);
    let a = alloc.allocate(512, 272, PixelFormat::Psm8888);
    let b = alloc.allocate(512, 272, PixelFormat::Psm8888);
    let c = alloc.allocate(512, 272, PixelFormat::Psm4444);
    assert_eq!(a.base, 0);
    assert_eq!(a.size, 557056);
    assert_eq!(b.base, a.base + a.size);
    assert_eq!(b.size, 557056);
    assert_eq!(c.base, b.base + b.size);
    assert_eq!(c.size, 278528);
    assert_eq!(alloc.used_bytes(), a.size + b.size + c.size);
    // The half-open intervals do not intersect.
    assert!(a.base + a.size <= b.base);
    assert!(b.base + b.size <= c.base);
}

#[test]
fn allocator_indexed_format() {
    let mut alloc = VramAllocator::new(VRAM_BYTES);
    let t = alloc.allocate(512, 272, PixelFormat::PsmT4);
    assert_eq!(t.base, 0);
    assert_eq!(t.size, 69632);
    assert_eq!(alloc.used_bytes(), 69632);
}

#[test]
fn decode_finds_frame_header() {
    let bytes = sof_stream();
    let d = Texture::tex_dimensions(&bytes).expect("header present");
    assert_eq!(d.w, 1299);
    assert_eq!(d.h, 1300);
}

#[test]
fn decode_without_frame_header_is_not_found() {
    let bytes: Vec<u8> = vec![0xFF, 0xD8, 0xFF, 0xD9];
    assert!(Texture::tex_dimensions(&bytes).is_err());
}

#[test]
fn decode_skips_length_segments() {
    let bytes: Vec<u8> = vec![
        0xFF, 0xD8, // start of image
        0xFF, 0xE0, // an application segment to be skipped
        0x00, 0x04, 0xAA, 0xBB, // its length and payload
        0xFF, 0xC0, // baseline frame header
        0x00, 0x07, 0x08, 0x01, 0x00, 0x02, 0x00, // precision, height 256, width 512
        0xFF, 0xD9,
    ];
    let d = Texture::tex_dimensions(&bytes).expect("header present after skip");
    assert_eq!(d.w, 512);
    assert_eq!(d.h, 256);
}

#[test]
fn decode_skips_restart_and_extension_markers() {
    let bytes: Vec<u8> = vec![
        0xFF, 0xD8, 0xFF, 0xD0, 0xFF, 0xD7, 0xFF, 0x01, // standalone markers
        0xFF, 0xC0, 0x00, 0x07, 0x08, 0x00, 0x02, 0x00, 0x03, // height 2, width 3
        0xFF, 0xD9,
    ];
    let d = Texture::tex_dimensions(&bytes).expect("header present");
    assert_eq!(d.w, 3);
    assert_eq!(d.h, 2);
}

#[test]
fn decode_truncated_streams() {
    assert!(Texture::tex_dimensions(&[]).is_err());
    assert!(Texture::tex_dimensions(&[0xFF, 0xFF, 0xFF]).is_err());
    // Frame header cut off before the width field.
    assert!(Texture::tex_dimensions(&[0xFF, 0xD8, 0xFF, 0xC0, 0x00, 0x07, 0x08, 0x05]).is_err());
    // A segment whose stated length runs past the end of the stream.
    assert!(Texture::tex_dimensions(&[0xFF, 0xD8, 0xFF, 0xE0, 0x00, 0x40, 0x00]).is_err());
    // A segment whose stated length is impossibly small.
    assert!(Texture::tex_dimensions(&[0xFF, 0xD8, 0xFF, 0xE0, 0x00, 0x01, 0x00]).is_err());
}

#[test]
fn tex_load_uses_decoded_dimensions() {
    let bytes = sof_stream();
    let t = Texture::tex_load(&bytes);
    assert_eq!(t.width, 1299);
    assert_eq!(t.height, 1300);
    assert_eq!(t.tbw, 0);
    assert_eq!(t.bytes.len(), bytes.len());
}

#[test]
fn tex_load_defaults_to_zero_dimensions() {
    let bytes: Vec<u8> = vec![0x00, 0x01, 0x02];
    let t = Texture::tex_load(&bytes);
    assert_eq!(t.width, 0);
    assert_eq!(t.height, 0);
}

#[test]
fn texture_default_is_empty() {
    let t = Texture::default();
    assert_eq!(t.bytes.len(), 0);
    assert_eq!(t.width, 0);
    assert_eq!(t.height, 0);
    assert_eq!(t.tbw, 0);
}

#[test]
fn geometry_tables() {
    let t = triangle();
    assert_eq!(t.len(), 3);
    assert_eq!((t[0].x, t[0].y, t[0].z), (35, 0, -1000));
    assert_eq!((t[1].x, t[1].y), (-35, 0));
    assert_eq!((t[2].x, t[2].y), (0, 50));
    assert_eq!(t[0].color, rgba(210, 0, 238, 0));
    assert_eq!(triangle_2().len(), 3);
    assert_eq!(square().len(), 6);
    assert_eq!(rectangle().len(), 6);
    assert_eq!(rectangle_indexed().len(), 4);
    assert_eq!(rectangle_indices(), vec![0, 1, 2, 2, 3, 0]);
}

#[test]
fn indexed_rectangle_resolves_to_two_triangles() {
    let verts = rectangle_indexed();
    let idx = rectangle_indices();
    let plain = rectangle();
    assert_eq!(idx.len(), 6);
    // Every index is in range of the four-corner table.
    for &i in idx.iter() {
        assert!((i as usize) < verts.len());
    }
    // The two triangles share the diagonal vertex pair.
    assert_eq!(verts[idx[3] as usize], verts[idx[2] as usize]);
    assert_eq!(verts[idx[5] as usize], verts[idx[0] as usize]);
    // The six resolved corners stand where the plain rectangle's stand.
    for k in 0..6 {
        let v = verts[idx[k] as usize];
        assert_eq!((v.x, v.y, v.z), (plain[k].x, plain[k].y, plain[k].z));
    }
}

#[test]
fn lifecycle_alternates_strictly() {
    let mut p = configured_pipeline();
    assert_eq!(p.lifecycle_state(), PipelineState::Configured);
    // Ending a frame that was never started is rejected.
    assert_eq!(p.end_frame().unwrap_err(), GfxError::BadState);
    assert!(p.start_frame().is_ok());
    // Opening a frame twice without an intervening end is rejected.
    assert_eq!(p.start_frame().unwrap_err(), GfxError::BadState);
    assert!(p.end_frame().is_ok());
    assert_eq!(p.end_frame().unwrap_err(), GfxError::BadState);
    assert!(p.start_frame().is_ok());
    assert_eq!(p.lifecycle_state(), PipelineState::FrameOpen);
}

#[test]
fn initialize_only_once() {
    let mut alloc = VramAllocator::new(VRAM_BYTES);
    let mut p = Pipeline::new();
    assert_eq!(p.lifecycle_state(), PipelineState::Uninitialized);
    assert!(p.initialize(&mut alloc).is_ok());
    assert_eq!(p.initialize(&mut alloc).unwrap_err(), GfxError::BadState);
}

#[test]
fn initialize_emits_configuration_batch() {
    let mut alloc = VramAllocator::new(VRAM_BYTES);
    let mut p = Pipeline::new();
    let cmds = p.initialize(&mut alloc).expect("fresh pipeline configures");
    assert_eq!(cmds.len(), 15);
    match &cmds[0] {
        GpuCommand::SetDrawBuffer { fmt, region, stride } => {
            assert_eq!(*fmt, PixelFormat::Psm8888);
            assert_eq!(region.base, 0);
            assert_eq!(region.size, 557056);
            assert_eq!(*stride, 512);
        }
        other => panic!("expected draw buffer registration, got {:?}", other),
    }
    match &cmds[1] {
        GpuCommand::SetDisplayBuffer { width, height, region, .. } => {
            assert_eq!((*width, *height), (490, 272));
            assert_eq!(region.base, 557056);
        }
        other => panic!("expected display buffer registration, got {:?}", other),
    }
    match &cmds[2] {
        GpuCommand::SetDepthBuffer { region, .. } => {
            assert_eq!(region.base, 1114112);
            assert_eq!(region.size, 278528);
        }
        other => panic!("expected depth buffer registration, got {:?}", other),
    }
    assert_eq!(cmds[5], GpuCommand::SetDepthRange { far: 65535, near: 0 });
    assert_eq!(cmds[14], GpuCommand::Enable(Feature::ClipPlanes));
    let b = p.frame_buffers().expect("buffers exist after initialization");
    assert_eq!(b.draw.base, 0);
    assert_eq!(b.display.base, 557056);
    assert_eq!(b.depth.base, 1114112);
}

#[test]
fn buffers_swap_once_per_frame() {
    let mut p = configured_pipeline();
    let initial = p.frame_buffers().unwrap();
    let cmds = record_background_frame(&mut p);
    assert_eq!(cmds.len(), 2);
    assert_eq!(cmds[0], GpuCommand::SetClearColor(rgba(23, 165, 85, 0)));
    assert_eq!(cmds[1], GpuCommand::Clear { color: true, depth: true });
    // One completed frame: roles traded.
    let after_one = p.frame_buffers().unwrap();
    assert_eq!(p.frames_completed(), 1);
    assert_eq!(after_one.draw, initial.display);
    assert_eq!(after_one.display, initial.draw);
    assert_eq!(after_one.depth, initial.depth);
    // Two completed frames: back in the original roles.
    record_background_frame(&mut p);
    let after_two = p.frame_buffers().unwrap();
    assert_eq!(p.frames_completed(), 2);
    assert_eq!(after_two.draw, initial.draw);
    assert_eq!(after_two.display, initial.display);
    // An odd number of frames trades the roles again.
    record_background_frame(&mut p);
    let after_three = p.frame_buffers().unwrap();
    assert_eq!(after_three.draw, initial.display);
}

#[test]
fn terminate_is_idempotent() {
    let mut p = configured_pipeline();
    record_background_frame(&mut p);
    p.terminate();
    assert_eq!(p.lifecycle_state(), PipelineState::Terminated);
    assert_eq!(p.frames_completed(), 1);
    p.terminate();
    assert_eq!(p.lifecycle_state(), PipelineState::Terminated);
    assert_eq!(p.frames_completed(), 1);
    // Nothing works after termination.
    assert_eq!(p.start_frame().unwrap_err(), GfxError::BadState);
    assert_eq!(p.end_frame().unwrap_err(), GfxError::BadState);
    assert_eq!(p.clear(true, true).unwrap_err(), GfxError::BadState);
}

#[test]
fn terminate_before_initialization() {
    let mut p = Pipeline::new();
    p.terminate();
    assert_eq!(p.lifecycle_state(), PipelineState::Terminated);
    assert!(p.frame_buffers().is_none());
}

#[test]
fn recording_requires_open_frame() {
    let mut p = configured_pipeline();
    assert_eq!(p.set_clear_color(0).unwrap_err(), GfxError::BadState);
    assert_eq!(p.enable(Feature::DepthTest).unwrap_err(), GfxError::BadState);
    assert_eq!(
        p.draw(Primitive::Triangles, false, triangle(), None).unwrap_err(),
        GfxError::BadState
    );
    assert!(p.start_frame().is_ok());
    assert!(p.set_clear_color(0).is_ok());
    assert!(p.enable(Feature::DepthTest).is_ok());
    assert!(p.draw(Primitive::Triangles, false, triangle(), None).is_ok());
}

#[test]
fn draw_rejects_out_of_range_indices() {
    let mut p = configured_pipeline();
    assert!(p.start_frame().is_ok());
    let bad = vec![0u16, 1, 7];
    assert_eq!(
        p.draw(Primitive::Triangles, false, rectangle_indexed(), Some(bad)).unwrap_err(),
        GfxError::IndexOutOfRange
    );
    assert!(p.draw(Primitive::Triangles, false, rectangle_indexed(), Some(rectangle_indices()))
        .is_ok());
}

#[test]
fn textured_draw_needs_a_bound_texture() {
    let mut p = configured_pipeline();
    assert!(p.start_frame().is_ok());
    assert_eq!(
        p.draw(Primitive::Triangles, true, square(), None).unwrap_err(),
        GfxError::NoTextureBound
    );
    let bytes = sof_stream();
    let tex = Texture::tex_load(&bytes);
    assert!(p
        .bind_texture(&tex, TextureEffect::Replace, TextureFilter::Linear, TextureFilter::Linear)
        .is_ok());
    assert!(p.is_texture_bound());
    assert!(p.draw(Primitive::Triangles, true, square(), None).is_ok());
    // The binding does not carry over into the next frame.
    assert!(p.end_frame().is_ok());
    assert!(p.start_frame().is_ok());
    assert!(!p.is_texture_bound());
    assert_eq!(
        p.draw(Primitive::Triangles, true, square(), None).unwrap_err(),
        GfxError::NoTextureBound
    );
}

#[test]
fn bind_texture_rejects_bad_dimensions() {
    let mut p = configured_pipeline();
    assert!(p.start_frame().is_ok());
    let bad = Texture { bytes: &[], width: -1, height: 4, tbw: 0 };
    assert_eq!(
        p.bind_texture(&bad, TextureEffect::Modulate, TextureFilter::Nearest,
            TextureFilter::Nearest)
            .unwrap_err(),
        GfxError::BadTexture
    );
    let huge = Texture { bytes: &[], width: 70000, height: 4, tbw: 0 };
    assert_eq!(
        p.bind_texture(&huge, TextureEffect::Modulate, TextureFilter::Nearest,
            TextureFilter::Nearest)
            .unwrap_err(),
        GfxError::BadTexture
    );
}

#[test]
fn command_list_fills_up() {
    let mut p = configured_pipeline();
    assert!(p.start_frame().is_ok());
    // Each clear occupies 64 bytes of the 262144-byte list.
    for _ in 0..4096 {
        assert!(p.clear(true, true).is_ok());
    }
    assert_eq!(p.list_used_bytes(), LIST_CAPACITY);
    assert_eq!(p.clear(true, true).unwrap_err(), GfxError::CommandListFull);
    // Ending the frame drains the list and the next frame records afresh.
    let cmds = p.end_frame().expect("frame was open");
    assert_eq!(cmds.len(), 4096);
    assert!(p.start_frame().is_ok());
    assert_eq!(p.list_used_bytes(), 0);
    assert!(p.clear(true, true).is_ok());
}

#[test]
fn transform_stack_composes_translations() {
    let mut p = configured_pipeline();
    setup_shapes_transforms(&mut p);
    assert_eq!(p.current_matrix_mode(), MatrixKind::Model);
    assert_eq!(
        p.transform(MatrixKind::Projection),
        Transform::Ortho { left: -178, right: 178, bottom: -100, top: 100, near: -1000, far: 1000 }
    );
    assert_eq!(p.transform(MatrixKind::View), Transform::Identity);
    assert!(p.translate(10, 20, 30).is_ok());
    assert!(p.translate(1, 2, 3).is_ok());
    assert_eq!(p.transform(MatrixKind::Model), Transform::Translation { x: 11, y: 22, z: 33 });
    assert!(p.load_identity().is_ok());
    assert_eq!(p.transform(MatrixKind::Model), Transform::Identity);
}

#[test]
fn transform_stack_rejects_misuse() {
    let mut p = Pipeline::new();
    // Before configuration the transform calls are refused.
    assert_eq!(p.translate(1, 2, 3).unwrap_err(), GfxError::BadState);
    let mut p = configured_pipeline();
    assert!(p.set_matrix_mode(MatrixKind::Model).is_ok());
    assert!(p.load_identity().is_ok());
    assert!(p.translate(i32::MAX, 0, 0).is_ok());
    assert_eq!(p.translate(1, 0, 0).unwrap_err(), GfxError::TransformOverflow);
    // A loaded projection is not composed with translations.
    assert!(p.set_matrix_mode(MatrixKind::Projection).is_ok());
    assert!(p.set_ortho(-178, 178, -100, 100, -1000, 1000).is_ok());
    assert_eq!(p.translate(1, 0, 0).unwrap_err(), GfxError::UnsupportedTransform);
    assert!(p.set_perspective(5000, 178, 50, 100000).is_ok());
    assert_eq!(
        p.transform(MatrixKind::Projection),
        Transform::Perspective { fovy: 5000, aspect: 178, near: 50, far: 100000 }
    );
    assert_eq!(p.translate(1, 0, 0).unwrap_err(), GfxError::UnsupportedTransform);
}

#[test]
fn shapes_frame_records_expected_commands() {
    let mut p = configured_pipeline();
    setup_shapes_transforms(&mut p);
    let bytes = sof_stream();
    let tex = Texture::tex_load(&bytes);
    let cmds = record_shapes_frame(&mut p, &tex);
    assert_eq!(cmds.len(), 15);
    assert_eq!(cmds[0], GpuCommand::Disable(Feature::DepthTest));
    assert_eq!(cmds[1], GpuCommand::Disable(Feature::Texture2D));
    assert_eq!(cmds[2], GpuCommand::SetClearColor(rgba(9, 15, 129, 0)));
    assert_eq!(cmds[3], GpuCommand::Clear { color: true, depth: false });
    match &cmds[4] {
        GpuCommand::DrawArray { prim, textured, transform, vertices, indices } => {
            assert_eq!(*prim, Primitive::Triangles);
            assert!(!*textured);
            assert_eq!(*transform, Transform::Translation { x: -75, y: 15, z: 0 });
            assert_eq!(*vertices, triangle());
            assert!(indices.is_none());
        }
        other => panic!("expected the plain triangle draw, got {:?}", other),
    }
    match &cmds[8] {
        GpuCommand::DrawArray { transform, vertices, indices, .. } => {
            assert_eq!(*transform, Transform::Translation { x: 55, y: -35, z: 0 });
            assert_eq!(*vertices, rectangle_indexed());
            assert_eq!(indices.as_ref().unwrap(), &rectangle_indices());
        }
        other => panic!("expected the indexed rectangle draw, got {:?}", other),
    }
    assert_eq!(cmds[9], GpuCommand::Enable(Feature::Texture2D));
    assert_eq!(
        cmds[11],
        GpuCommand::SetTexImage { width: 1299, height: 1300, stride: 0 }
    );
    match &cmds[14] {
        GpuCommand::DrawArray { textured, transform, vertices, .. } => {
            assert!(*textured);
            assert_eq!(*transform, Transform::Translation { x: 0, y: -45, z: 0 });
            assert_eq!(*vertices, square());
        }
        other => panic!("expected the textured square draw, got {:?}", other),
    }
    assert_eq!(p.frames_completed(), 1);
}
