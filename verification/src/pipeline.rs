use vstd::prelude::*;
use crate::commands::{
    command_cost, command_cost_bytes, commands_cost, CommandView, DepthCompare, FaceOrder,
    Feature, GpuCommand, MatrixKind, Primitive, Shading, TextureEffect, TextureFilter, Transform,
};
use crate::geometry::{indices_in_range, Vertex};
use crate::pixel::{required_bytes, PixelFormat};
use crate::texture::Texture;
use crate::vram::{VramAllocator, VramRegion};

verus! {

/// Pixels per framebuffer row: the nearest power of two at or above the
/// visible width, as the hardware requires of buffer strides.
pub const BUF_WIDTH: u16 = 512;

/// Visible screen width in pixels.
pub const SCR_WIDTH: u16 = 490;

/// Visible screen height in pixels.
pub const SCR_HEIGHT: u16 = 272;

/// Capacity in bytes of the command-list buffer.
pub const LIST_CAPACITY: u32 = 0x40000;

/// Where the pipeline stands in its lifecycle. Frames alternate strictly:
/// a frame must be opened before it can be ended, and never opened twice.
#[derive(Clone, Copy, Debug, PartialEq, Eq, Structural)]
pub enum PipelineState {
    Uninitialized,
    Configured,
    FrameOpen,
    FrameClosed,
    Terminated,
}

/// The three buffers the pipeline owns: draw and display trade places after
/// every completed frame, the depth buffer persists.
#[derive(Clone, Copy, Debug, PartialEq, Eq, Structural)]
pub struct FrameBuffers {
    pub draw: VramRegion,
    pub display: VramRegion,
    pub depth: VramRegion,
}

/// Why a pipeline call was refused; the pipeline itself never panics.
#[derive(Clone, Copy, Debug, PartialEq, Eq, Structural)]
pub enum GfxError {
    /// The call does not fit the pipeline's current lifecycle state.
    BadState,
    /// The open command list has no room left for the command.
    CommandListFull,
    /// An index names no vertex of the given table.
    IndexOutOfRange,
    /// A textured draw was recorded with no texture bound this frame.
    NoTextureBound,
    /// Composing the translation would leave machine range.
    TransformOverflow,
    /// The current matrix holds a projection, which this pipeline does not
    /// compose with translations.
    UnsupportedTransform,
    /// Texture dimensions outside what the texture unit accepts.
    BadTexture,
}

/// The frame/display pipeline: owner of the buffer triple, the command
/// list, and the transform stack.
///
/// Commands issued between `start_frame` and `end_frame` are recorded, not
/// executed; `end_frame` hands the recorded list out for submission and
/// swaps the draw and display buffers. The ghost fields remember the
/// buffers' original roles so the swap parity can be stated for the whole
/// session.
pub struct Pipeline {
    state: PipelineState,
    buffers: Option<FrameBuffers>,
    frames_completed: u64,
    list_used: u32,
    cmds: Vec<GpuCommand>,
    mode: MatrixKind,
    m_proj: Transform,
    m_view: Transform,
    m_model: Transform,
    texture_bound: bool,
    init_draw: Ghost<VramRegion>,
    init_display: Ghost<VramRegion>,
}

impl Pipeline {
    /// Current lifecycle state.
    pub closed spec fn state(self) -> PipelineState {
        self.state
    }

    /// Completed frames: how many `end_frame` calls have submitted and
    /// swapped.
    pub closed spec fn frames(self) -> int {
        self.frames_completed as int
    }

    /// The buffer triple, once `initialize` has allocated it.
    pub closed spec fn buffers(self) -> Option<FrameBuffers> {
        self.buffers
    }

    /// The current draw target.
    pub open spec fn draw_region(self) -> VramRegion
        recommends
            self.buffers() is Some,
    {
        match self.buffers() {
            Some(b) => b.draw,
            None => VramRegion { base: 0, size: 0 },
        }
    }

    /// The buffer currently scanned out.
    pub open spec fn display_region(self) -> VramRegion
        recommends
            self.buffers() is Some,
    {
        match self.buffers() {
            Some(b) => b.display,
            None => VramRegion { base: 0, size: 0 },
        }
    }

    /// The depth buffer.
    pub open spec fn depth_region(self) -> VramRegion
        recommends
            self.buffers() is Some,
    {
        match self.buffers() {
            Some(b) => b.depth,
            None => VramRegion { base: 0, size: 0 },
        }
    }

    /// The buffer that was the draw target when the session began.
    pub closed spec fn initial_draw(self) -> VramRegion {
        self.init_draw@
    }

    /// The buffer that was displayed when the session began.
    pub closed spec fn initial_display(self) -> VramRegion {
        self.init_display@
    }

    /// The commands recorded into the open list so far, oldest first.
    pub closed spec fn pending(self) -> Seq<CommandView> {
        self.cmds@.map_values(|c: GpuCommand| c@)
    }

    /// Bytes of the command-list buffer the recorded commands occupy.
    pub closed spec fn list_used(self) -> int {
        self.list_used as int
    }

    /// Which matrix the transform calls currently address.
    pub closed spec fn mode(self) -> MatrixKind {
        self.mode
    }

    /// The transform held by the given matrix.
    pub closed spec fn transform_of(self, k: MatrixKind) -> Transform {
        match k {
            MatrixKind::Projection => self.m_proj,
            MatrixKind::View => self.m_view,
            MatrixKind::Model => self.m_model,
        }
    }

    /// Whether a texture has been bound since the current frame opened.
    pub closed spec fn texture_bound(self) -> bool {
        self.texture_bound
    }

    /// The pipeline's invariant: the recorded bytes match the recorded
    /// commands and fit the list; the buffer triple exists in every
    /// initialized, unterminated state; an even number of completed frames
    /// leaves draw and display in their original roles and an odd number
    /// leaves them traded; and a closed list holds nothing.
    pub open spec fn wf(self) -> bool {
        &&& self.list_used() == commands_cost(self.pending())
        &&& self.list_used() <= LIST_CAPACITY
        &&& self.state() is Uninitialized ==> self.buffers() is None && self.frames() == 0
        &&& (self.state() is Configured || self.state() is FrameOpen
            || self.state() is FrameClosed) ==> self.buffers() is Some
        &&& (self.buffers() matches Some(b) ==> (if self.frames() % 2 == 0 {
            b.draw == self.initial_draw() && b.display == self.initial_display()
        } else {
            b.draw == self.initial_display() && b.display == self.initial_draw()
        }))
        &&& !(self.state() is FrameOpen) ==> self.pending() == Seq::<CommandView>::empty()
    }

    /// A fresh pipeline, not yet configured.
    pub fn new() -> (p: Pipeline)
        ensures
            p.wf(),
            p.state() is Uninitialized,
            p.frames() == 0,
            p.pending() == Seq::<CommandView>::empty(),
            p.mode() is Model,
            p.transform_of(MatrixKind::Projection) is Identity,
            p.transform_of(MatrixKind::View) is Identity,
            p.transform_of(MatrixKind::Model) is Identity,
            !p.texture_bound(),
    {
        let p = Pipeline {
            state: PipelineState::Uninitialized,
            buffers: None,
            frames_completed: 0,
            list_used: 0,
            cmds: Vec::new(),
            mode: MatrixKind::Model,
            m_proj: Transform::Identity,
            m_view: Transform::Identity,
            m_model: Transform::Identity,
            texture_bound: false,
            init_draw: Ghost(VramRegion { base: 0, size: 0 }),
            init_display: Ghost(VramRegion { base: 0, size: 0 }),
        };
        proof {
            assert(p.pending() =~= Seq::<CommandView>::empty());
        }
        p
    }
}

/// The two pipelines hold the same session facts: lifecycle state, frame
/// count, buffer roles and original roles.
pub open spec fn same_session(a: Pipeline, b: Pipeline) -> bool {
    &&& a.state() == b.state()
    &&& a.frames() == b.frames()
    &&& a.buffers() == b.buffers()
    &&& a.initial_draw() == b.initial_draw()
    &&& a.initial_display() == b.initial_display()
}

/// The two pipelines address the same matrix and hold the same transforms.
pub open spec fn same_transforms(a: Pipeline, b: Pipeline) -> bool {
    &&& a.mode() == b.mode()
    &&& a.transform_of(MatrixKind::Projection) == b.transform_of(MatrixKind::Projection)
    &&& a.transform_of(MatrixKind::View) == b.transform_of(MatrixKind::View)
    &&& a.transform_of(MatrixKind::Model) == b.transform_of(MatrixKind::Model)
}

/// What recording one command into the list leaves behind: on success the
/// command sits at the end of the pending list and its bytes are accounted;
/// recording is refused, leaving the pipeline untouched, exactly when no
/// frame is open or the list has no room.
pub open spec fn record_outcome(
    pre: Pipeline,
    post: Pipeline,
    c: CommandView,
    r: Result<(), GfxError>,
) -> bool {
    &&& post.wf()
    &&& same_session(pre, post)
    &&& same_transforms(pre, post)
    &&& post.texture_bound() == pre.texture_bound()
    &&& match r {
        Ok(()) => {
            &&& pre.state() is FrameOpen
            &&& pre.list_used() + command_cost(c) <= LIST_CAPACITY
            &&& post.pending() == pre.pending().push(c)
            &&& post.list_used() == pre.list_used() + command_cost(c)
        },
        Err(e) => {
            &&& post == pre
            &&& (e is BadState <==> !(pre.state() is FrameOpen))
            &&& (e is CommandListFull <==> pre.state() is FrameOpen && pre.list_used()
                + command_cost(c) > LIST_CAPACITY)
            &&& (e is BadState || e is CommandListFull)
        },
    }
}

impl Pipeline {
    /// Append one command to the open list, charging its bytes against the
    /// list's capacity.
    fn push_command(&mut self, cmd: GpuCommand) -> (r: Result<(), GfxError>)
        requires
            old(self).wf(),
        ensures
            record_outcome(*old(self), *final(self), cmd@, r),
    {
        match self.state {
            PipelineState::FrameOpen => {},
            _ => {
                return Err(GfxError::BadState);
            },
        }
        let cost = command_cost_bytes(&cmd);
        if LIST_CAPACITY - self.list_used < cost {
            return Err(GfxError::CommandListFull);
        }
        let ghost cv = cmd@;
        self.list_used = self.list_used + cost;
        self.cmds.push(cmd);
        proof {
            let s0 = old(self).cmds@.map_values(|c: GpuCommand| c@);
            let s1 = self.cmds@.map_values(|c: GpuCommand| c@);
            assert(s1 =~= s0.push(cv));
            assert(s1.drop_last() =~= s0);
        }
        Ok(())
    }

    /// Record the colour that subsequent clears fill with.
    pub fn set_clear_color(&mut self, color: u32) -> (r: Result<(), GfxError>)
        requires
            old(self).wf(),
        ensures
            record_outcome(*old(self), *final(self), CommandView::SetClearColor(color), r),
    {
        self.push_command(GpuCommand::SetClearColor(color))
    }

    /// Record a full-buffer clear of the colour and/or depth buffer.
    pub fn clear(&mut self, color: bool, depth: bool) -> (r: Result<(), GfxError>)
        requires
            old(self).wf(),
        ensures
            record_outcome(*old(self), *final(self), CommandView::Clear { color, depth }, r),
    {
        self.push_command(GpuCommand::Clear { color, depth })
    }

    /// Record switching a hardware feature on.
    pub fn enable(&mut self, feature: Feature) -> (r: Result<(), GfxError>)
        requires
            old(self).wf(),
        ensures
            record_outcome(*old(self), *final(self), CommandView::Enable(feature), r),
    {
        self.push_command(GpuCommand::Enable(feature))
    }

    /// Record switching a hardware feature off.
    pub fn disable(&mut self, feature: Feature) -> (r: Result<(), GfxError>)
        requires
            old(self).wf(),
        ensures
            record_outcome(*old(self), *final(self), CommandView::Disable(feature), r),
    {
        self.push_command(GpuCommand::Disable(feature))
    }
}

/// The configuration command batch `initialize` emits, in order: register
/// the three buffers, set the coordinate offset, viewport and inverted
/// depth range, clip to the screen with the scissor, depth-test on
/// "equal", cull clockwise-front faces, shade smoothly, and switch on
/// texturing and clip planes.
pub open spec fn init_command_views(
    draw: VramRegion,
    display: VramRegion,
    depth: VramRegion,
) -> Seq<CommandView> {
    seq![
        CommandView::SetDrawBuffer { fmt: PixelFormat::Psm8888, region: draw, stride: 512 },
        CommandView::SetDisplayBuffer { width: 490, height: 272, region: display, stride: 512 },
        CommandView::SetDepthBuffer { region: depth, stride: 512 },
        CommandView::SetOffset { x: 1803, y: 1912 },
        CommandView::SetViewport { cx: 2048, cy: 2048, width: 490, height: 272 },
        CommandView::SetDepthRange { far: 65535, near: 0 },
        CommandView::Enable(Feature::ScissorTest),
        CommandView::SetScissor { x: 0, y: 0, width: 490, height: 272 },
        CommandView::Enable(Feature::DepthTest),
        CommandView::SetDepthFunc(DepthCompare::Equal),
        CommandView::Enable(Feature::CullFace),
        CommandView::SetFrontFace(FaceOrder::Clockwise),
        CommandView::SetShadeModel(Shading::Smooth),
        CommandView::Enable(Feature::Texture2D),
        CommandView::Enable(Feature::ClipPlanes),
    ]
}

impl Pipeline {
    /// Allocate the draw, display and depth buffers and emit the one-time
    /// GPU configuration batch; applied once, never re-issued per frame.
    ///
    /// Draw and display buffers are sized for the 32-bit format they are
    /// registered with, and the depth buffer for a 16-bit format, the
    /// depth unit's word size on this hardware.
    ///
    /// The caller must have sized the three buffers against the
    /// allocator's remaining capacity; a pipeline that is already past
    /// `Uninitialized` is left untouched and the call refused.
    pub fn initialize(&mut self, alloc: &mut VramAllocator) -> (r: Result<
        Vec<GpuCommand>,
        GfxError,
    >)
        requires
            old(self).wf(),
            old(alloc).wf(),
            old(alloc).used() + 2 * required_bytes(512, 272, PixelFormat::Psm8888)
                + required_bytes(512, 272, PixelFormat::Psm4444) <= old(alloc).capacity(),
        ensures
            final(self).wf(),
            final(alloc).wf(),
            r is Ok <==> old(self).state() is Uninitialized,
            match r {
                Ok(cmds) => ({
                    let d = VramRegion { base: old(alloc).used() as u32, size: 557056 };
                    let s = VramRegion {
                        base: (old(alloc).used() + 557056) as u32,
                        size: 557056,
                    };
                    let z = VramRegion {
                        base: (old(alloc).used() + 1114112) as u32,
                        size: 278528,
                    };
                    &&& final(alloc).regions() == old(alloc).regions().push(d).push(s).push(z)
                    &&& final(alloc).used() == old(alloc).used() + 1392640
                    &&& final(alloc).capacity() == old(alloc).capacity()
                    &&& final(self).state() is Configured
                    &&& final(self).buffers() == Some(
                        FrameBuffers { draw: d, display: s, depth: z },
                    )
                    &&& final(self).initial_draw() == d
                    &&& final(self).initial_display() == s
                    &&& final(self).frames() == old(self).frames()
                    &&& final(self).pending() == old(self).pending()
                    &&& same_transforms(*old(self), *final(self))
                    &&& final(self).texture_bound() == old(self).texture_bound()
                    &&& cmds@.map_values(|c: GpuCommand| c@) == init_command_views(d, s, z)
                }),
                Err(e) => {
                    &&& *final(self) == *old(self)
                    &&& *final(alloc) == *old(alloc)
                    &&& e is BadState
                },
            },
    {
        match self.state {
            PipelineState::Uninitialized => {},
            _ => {
                return Err(GfxError::BadState);
            },
        }
        let d = alloc.allocate(BUF_WIDTH, SCR_HEIGHT, PixelFormat::Psm8888);
        let s = alloc.allocate(BUF_WIDTH, SCR_HEIGHT, PixelFormat::Psm8888);
        let z = alloc.allocate(BUF_WIDTH, SCR_HEIGHT, PixelFormat::Psm4444);
        self.buffers = Some(FrameBuffers { draw: d, display: s, depth: z });
        self.init_draw = Ghost(d);
        self.init_display = Ghost(s);
        self.state = PipelineState::Configured;
        let cmds = init_command_list(d, s, z);
        Ok(cmds)
    }
}

/// Build the configuration batch for the given buffer triple.
fn init_command_list(d: VramRegion, s: VramRegion, z: VramRegion) -> (cmds: Vec<GpuCommand>)
    ensures
        cmds@.map_values(|c: GpuCommand| c@) == init_command_views(d, s, z),
{
    let mut cmds: Vec<GpuCommand> = Vec::new();
    cmds.push(GpuCommand::SetDrawBuffer {
        fmt: PixelFormat::Psm8888,
        region: d,
        stride: BUF_WIDTH as u32,
    });
    cmds.push(GpuCommand::SetDisplayBuffer {
        width: SCR_WIDTH as u32,
        height: SCR_HEIGHT as u32,
        region: s,
        stride: BUF_WIDTH as u32,
    });
    cmds.push(GpuCommand::SetDepthBuffer { region: z, stride: BUF_WIDTH as u32 });
    cmds.push(GpuCommand::SetOffset {
        x: 2048 - (SCR_WIDTH as u32) / 2,
        y: 2048 - (SCR_HEIGHT as u32) / 2,
    });
    cmds.push(GpuCommand::SetViewport {
        cx: 2048,
        cy: 2048,
        width: SCR_WIDTH as i32,
        height: SCR_HEIGHT as i32,
    });
    cmds.push(GpuCommand::SetDepthRange { far: 65535, near: 0 });
    cmds.push(GpuCommand::Enable(Feature::ScissorTest));
    cmds.push(GpuCommand::SetScissor {
        x: 0,
        y: 0,
        width: SCR_WIDTH as i32,
        height: SCR_HEIGHT as i32,
    });
    cmds.push(GpuCommand::Enable(Feature::DepthTest));
    cmds.push(GpuCommand::SetDepthFunc(DepthCompare::Equal));
    cmds.push(GpuCommand::Enable(Feature::CullFace));
    cmds.push(GpuCommand::SetFrontFace(FaceOrder::Clockwise));
    cmds.push(GpuCommand::SetShadeModel(Shading::Smooth));
    cmds.push(GpuCommand::Enable(Feature::Texture2D));
    cmds.push(GpuCommand::Enable(Feature::ClipPlanes));
    proof {
        assert(cmds@.map_values(|c: GpuCommand| c@) =~= init_command_views(d, s, z));
    }
    cmds
}

impl Pipeline {
    /// Open the command list for a new frame: every subsequent draw or
    /// clear call is recorded into it rather than executed, until
    /// `end_frame` submits the list. Refused unless the pipeline is
    /// configured and no frame is already open.
    pub fn start_frame(&mut self) -> (r: Result<(), GfxError>)
        requires
            old(self).wf(),
        ensures
            final(self).wf(),
            r is Ok <==> (old(self).state() is Configured || old(self).state() is FrameClosed),
            match r {
                Ok(()) => {
                    &&& final(self).state() is FrameOpen
                    &&& final(self).pending() == Seq::<CommandView>::empty()
                    &&& final(self).list_used() == 0
                    &&& !final(self).texture_bound()
                    &&& final(self).frames() == old(self).frames()
                    &&& final(self).buffers() == old(self).buffers()
                    &&& final(self).initial_draw() == old(self).initial_draw()
                    &&& final(self).initial_display() == old(self).initial_display()
                    &&& same_transforms(*old(self), *final(self))
                },
                Err(e) => {
                    &&& *final(self) == *old(self)
                    &&& e is BadState
                },
            },
    {
        match self.state {
            PipelineState::Configured | PipelineState::FrameClosed => {},
            _ => {
                return Err(GfxError::BadState);
            },
        }
        self.state = PipelineState::FrameOpen;
        self.cmds = Vec::new();
        self.list_used = 0;
        self.texture_bound = false;
        proof {
            assert(self.pending() =~= Seq::<CommandView>::empty());
        }
        Ok(())
    }

    /// Close the frame: hand the recorded command list out for submission
    /// and swap the draw and display buffers, so the buffer just rendered
    /// into becomes the one shown. The host must submit the returned list,
    /// wait for the GPU to finish it, and wait for the vertical blank
    /// before letting the swap take effect on the device. Refused, leaving
    /// the pipeline untouched, unless a frame is open.
    pub fn end_frame(&mut self) -> (r: Result<Vec<GpuCommand>, GfxError>)
        requires
            old(self).wf(),
            old(self).frames() < u64::MAX,
        ensures
            final(self).wf(),
            r is Ok <==> old(self).state() is FrameOpen,
            match r {
                Ok(cmds) => {
                    &&& cmds@.map_values(|c: GpuCommand| c@) == old(self).pending()
                    &&& final(self).state() is FrameClosed
                    &&& final(self).frames() == old(self).frames() + 1
                    &&& final(self).pending() == Seq::<CommandView>::empty()
                    &&& final(self).list_used() == 0
                    &&& final(self).draw_region() == old(self).display_region()
                    &&& final(self).display_region() == old(self).draw_region()
                    &&& final(self).depth_region() == old(self).depth_region()
                    &&& final(self).buffers() is Some
                    &&& final(self).initial_draw() == old(self).initial_draw()
                    &&& final(self).initial_display() == old(self).initial_display()
                    &&& same_transforms(*old(self), *final(self))
                    &&& final(self).texture_bound() == old(self).texture_bound()
                },
                Err(e) => {
                    &&& *final(self) == *old(self)
                    &&& e is BadState
                },
            },
    {
        match self.state {
            PipelineState::FrameOpen => {},
            _ => {
                return Err(GfxError::BadState);
            },
        }
        let mut out: Vec<GpuCommand> = Vec::new();
        core::mem::swap(&mut out, &mut self.cmds);
        self.list_used = 0;
        self.state = PipelineState::FrameClosed;
        self.frames_completed = self.frames_completed + 1;
        if let Some(b) = self.buffers {
            self.buffers = Some(FrameBuffers { draw: b.display, display: b.draw, depth: b.depth });
        }
        proof {
            assert(self.pending() =~= Seq::<CommandView>::empty());
        }
        Ok(out)
    }

    /// Release the graphics context. Irreversible: no frame operation is
    /// valid afterwards. Terminating an already-terminated pipeline is a
    /// no-op, not an error.
    pub fn terminate(&mut self)
        requires
            old(self).wf(),
        ensures
            final(self).wf(),
            final(self).state() is Terminated,
            final(self).frames() == old(self).frames(),
            final(self).buffers() == old(self).buffers(),
            final(self).initial_draw() == old(self).initial_draw(),
            final(self).initial_display() == old(self).initial_display(),
            final(self).pending() == Seq::<CommandView>::empty(),
            same_transforms(*old(self), *final(self)),
            old(self).state() is Terminated ==> *final(self) == *old(self),
    {
        match self.state {
            PipelineState::Terminated => {
                return;
            },
            _ => {},
        }
        self.state = PipelineState::Terminated;
        self.cmds = Vec::new();
        self.list_used = 0;
        proof {
            assert(self.pending() =~= Seq::<CommandView>::empty());
        }
    }
}

/// What a call that only rewrites the transform stack leaves behind: the
/// session, the recorded list and the texture binding are untouched, and it
/// is refused exactly when the pipeline is unconfigured or terminated.
pub open spec fn transform_outcome(pre: Pipeline, post: Pipeline, r: Result<(), GfxError>) -> bool {
    &&& post.wf()
    &&& same_session(pre, post)
    &&& post.pending() == pre.pending()
    &&& post.list_used() == pre.list_used()
    &&& post.texture_bound() == pre.texture_bound()
    &&& !(r is Ok) ==> post == pre
    &&& (pre.state() is Uninitialized || pre.state() is Terminated) <==> (r matches Err(e)
        && e is BadState)
}

/// Whether the transform calls are usable in this state: any time after
/// configuration and before termination, inside or outside a frame.
pub open spec fn transforms_active(s: PipelineState) -> bool {
    s is Configured || s is FrameOpen || s is FrameClosed
}

impl Pipeline {
    /// Select which matrix the following transform calls address.
    pub fn set_matrix_mode(&mut self, k: MatrixKind) -> (r: Result<(), GfxError>)
        requires
            old(self).wf(),
        ensures
            transform_outcome(*old(self), *final(self), r),
            r is Ok <==> transforms_active(old(self).state()),
            r is Ok ==> final(self).mode() == k && same_transform_values(
                *old(self),
                *final(self),
            ),
    {
        match self.state {
            PipelineState::Uninitialized | PipelineState::Terminated => {
                return Err(GfxError::BadState);
            },
            _ => {},
        }
        self.mode = k;
        Ok(())
    }

    /// Load the identity into the current matrix.
    pub fn load_identity(&mut self) -> (r: Result<(), GfxError>)
        requires
            old(self).wf(),
        ensures
            transform_outcome(*old(self), *final(self), r),
            r is Ok <==> transforms_active(old(self).state()),
            r is Ok ==> final(self).mode() == old(self).mode() && updates_current_transform(
                *old(self),
                *final(self),
                Transform::Identity,
            ),
    {
        match self.state {
            PipelineState::Uninitialized | PipelineState::Terminated => {
                return Err(GfxError::BadState);
            },
            _ => {},
        }
        self.store_transform(Transform::Identity);
        Ok(())
    }

    /// Load an orthographic projection box into the current matrix; bounds
    /// are fixed-point hundredths of a unit.
    pub fn set_ortho(
        &mut self,
        left: i32,
        right: i32,
        bottom: i32,
        top: i32,
        near: i32,
        far: i32,
    ) -> (r: Result<(), GfxError>)
        requires
            old(self).wf(),
        ensures
            transform_outcome(*old(self), *final(self), r),
            r is Ok <==> transforms_active(old(self).state()),
            r is Ok ==> final(self).mode() == old(self).mode() && updates_current_transform(
                *old(self),
                *final(self),
                Transform::Ortho { left, right, bottom, top, near, far },
            ),
    {
        match self.state {
            PipelineState::Uninitialized | PipelineState::Terminated => {
                return Err(GfxError::BadState);
            },
            _ => {},
        }
        self.store_transform(Transform::Ortho { left, right, bottom, top, near, far });
        Ok(())
    }

    /// Compose a translation onto the current matrix: onto the identity it
    /// loads the offset, onto a translation it adds componentwise.
    /// Translating a loaded projection is outside this pipeline's transform
    /// discipline and is refused, as is a componentwise sum that leaves
    /// machine range; either way the pipeline is untouched.
    pub fn translate(&mut self, dx: i32, dy: i32, dz: i32) -> (r: Result<(), GfxError>)
        requires
            old(self).wf(),
        ensures
            transform_outcome(*old(self), *final(self), r),
            match r {
                Ok(()) => {
                    &&& transforms_active(old(self).state())
                    &&& final(self).mode() == old(self).mode()
                    &&& match old(self).transform_of(old(self).mode()) {
                        Transform::Identity => updates_current_transform(
                            *old(self),
                            *final(self),
                            Transform::Translation { x: dx, y: dy, z: dz },
                        ),
                        Transform::Translation { x, y, z } => {
                            &&& i32::MIN <= x + dx <= i32::MAX
                            &&& i32::MIN <= y + dy <= i32::MAX
                            &&& i32::MIN <= z + dz <= i32::MAX
                            &&& updates_current_transform(
                                *old(self),
                                *final(self),
                                Transform::Translation {
                                    x: (x + dx) as i32,
                                    y: (y + dy) as i32,
                                    z: (z + dz) as i32,
                                },
                            )
                        },
                        Transform::Ortho { .. } => false,
                        Transform::Perspective { .. } => false,
                    }
                },
                Err(e) => {
                    &&& (e is BadState <==> !transforms_active(old(self).state()))
                    &&& (e is UnsupportedTransform <==> transforms_active(old(self).state())
                        && (old(self).transform_of(old(self).mode()) is Ortho || old(
                            self,
                        ).transform_of(old(self).mode()) is Perspective))
                    &&& (e is TransformOverflow <==> transforms_active(old(self).state())
                        && (old(self).transform_of(old(self).mode()) matches Transform::Translation {
                        x,
                        y,
                        z,
                    } && !(i32::MIN <= x + dx <= i32::MAX && i32::MIN <= y + dy <= i32::MAX
                        && i32::MIN <= z + dz <= i32::MAX)))
                    &&& (e is BadState || e is UnsupportedTransform || e is TransformOverflow)
                },
            },
    {
        match self.state {
            PipelineState::Uninitialized | PipelineState::Terminated => {
                return Err(GfxError::BadState);
            },
            _ => {},
        }
        let cur = self.current_transform();
        match cur {
            Transform::Identity => {
                self.store_transform(Transform::Translation { x: dx, y: dy, z: dz });
                Ok(())
            },
            Transform::Translation { x, y, z } => {
                let nx = match x.checked_add(dx) {
                    Some(v) => v,
                    None => {
                        return Err(GfxError::TransformOverflow);
                    },
                };
                let ny = match y.checked_add(dy) {
                    Some(v) => v,
                    None => {
                        return Err(GfxError::TransformOverflow);
                    },
                };
                let nz = match z.checked_add(dz) {
                    Some(v) => v,
                    None => {
                        return Err(GfxError::TransformOverflow);
                    },
                };
                self.store_transform(Transform::Translation { x: nx, y: ny, z: nz });
                Ok(())
            },
            Transform::Ortho { .. } => Err(GfxError::UnsupportedTransform),
            Transform::Perspective { .. } => Err(GfxError::UnsupportedTransform),
        }
    }

    /// Load a perspective frustum into the current matrix: vertical field
    /// of view in hundredths of a degree, aspect ratio in hundredths, and
    /// the near and far planes in hundredths of a unit.
    pub fn set_perspective(&mut self, fovy: i32, aspect: i32, near: i32, far: i32) -> (r: Result<
        (),
        GfxError,
    >)
        requires
            old(self).wf(),
        ensures
            transform_outcome(*old(self), *final(self), r),
            r is Ok <==> transforms_active(old(self).state()),
            r is Ok ==> final(self).mode() == old(self).mode() && updates_current_transform(
                *old(self),
                *final(self),
                Transform::Perspective { fovy, aspect, near, far },
            ),
    {
        match self.state {
            PipelineState::Uninitialized | PipelineState::Terminated => {
                return Err(GfxError::BadState);
            },
            _ => {},
        }
        self.store_transform(Transform::Perspective { fovy, aspect, near, far });
        Ok(())
    }

    /// The transform the current matrix holds.
    fn current_transform(&self) -> (t: Transform)
        ensures
            t == self.transform_of(self.mode()),
    {
        match self.mode {
            MatrixKind::Projection => self.m_proj,
            MatrixKind::View => self.m_view,
            MatrixKind::Model => self.m_model,
        }
    }

    /// Overwrite the transform the current matrix holds.
    fn store_transform(&mut self, t: Transform)
        ensures
            *final(self) == (match old(self).mode() {
                MatrixKind::Projection => Pipeline { m_proj: t, ..*old(self) },
                MatrixKind::View => Pipeline { m_view: t, ..*old(self) },
                MatrixKind::Model => Pipeline { m_model: t, ..*old(self) },
            }),
    {
        match self.mode {
            MatrixKind::Projection => self.m_proj = t,
            MatrixKind::View => self.m_view = t,
            MatrixKind::Model => self.m_model = t,
        }
    }
}

/// The four commands a texture binding records, in order: storage layout,
/// image dimensions and stride, combine function, and sampling filter.
pub open spec fn bind_command_views<'a>(
    tex: Texture<'a>,
    effect: TextureEffect,
    min: TextureFilter,
    mag: TextureFilter,
) -> Seq<CommandView> {
    seq![
        CommandView::SetTexMode { fmt: PixelFormat::Psm8888, mipmaps: 0u8, swizzled: false },
        CommandView::SetTexImage { width: tex.width, height: tex.height, stride: tex.tbw },
        CommandView::SetTexFunc { effect, use_alpha: true },
        CommandView::SetTexFilter { min, mag },
    ]
}

impl Pipeline {
    /// Record a primitive draw of `vertices` (resolved through `indices`
    /// when given) under the model transform as it stands now; the
    /// recorded transform is what the device will apply when the list is
    /// submitted.
    ///
    /// Refused, leaving the pipeline untouched, when no frame is open,
    /// when a textured draw has no texture bound this frame, when an index
    /// names no vertex of the table, or when the list has no room.
    #[verifier::loop_isolation(false)]
    pub fn draw(
        &mut self,
        prim: Primitive,
        textured: bool,
        vertices: Vec<Vertex>,
        indices: Option<Vec<u16>>,
    ) -> (r: Result<(), GfxError>)
        requires
            old(self).wf(),
        ensures
            final(self).wf(),
            same_session(*old(self), *final(self)),
            same_transforms(*old(self), *final(self)),
            final(self).texture_bound() == old(self).texture_bound(),
            match r {
                Ok(()) => {
                    &&& old(self).state() is FrameOpen
                    &&& textured ==> old(self).texture_bound()
                    &&& (indices matches Some(ix) ==> indices_in_range(ix@, vertices@.len()))
                    &&& old(self).list_used() + 128 <= LIST_CAPACITY
                    &&& final(self).pending() == old(self).pending().push(
                        CommandView::DrawArray {
                            prim,
                            textured,
                            transform: old(self).transform_of(MatrixKind::Model),
                            vertices: vertices@,
                            indices: match indices {
                                Some(ix) => Some(ix@),
                                None => None,
                            },
                        },
                    )
                    &&& final(self).list_used() == old(self).list_used() + 128
                },
                Err(e) => {
                    &&& *final(self) == *old(self)
                    &&& (e is BadState <==> !(old(self).state() is FrameOpen))
                    &&& (e is NoTextureBound <==> old(self).state() is FrameOpen && textured
                        && !old(self).texture_bound())
                    &&& (e is IndexOutOfRange <==> old(self).state() is FrameOpen && (textured
                        ==> old(self).texture_bound()) && (indices matches Some(ix)
                        && !indices_in_range(ix@, vertices@.len())))
                    &&& (e is CommandListFull <==> old(self).state() is FrameOpen && (textured
                        ==> old(self).texture_bound()) && (indices matches Some(ix)
                        ==> indices_in_range(ix@, vertices@.len())) && old(self).list_used() + 128
                        > LIST_CAPACITY)
                    &&& (e is BadState || e is NoTextureBound || e is IndexOutOfRange
                        || e is CommandListFull)
                },
            },
    {
        match self.state {
            PipelineState::FrameOpen => {},
            _ => {
                return Err(GfxError::BadState);
            },
        }
        if textured && !self.texture_bound {
            return Err(GfxError::NoTextureBound);
        }
        if let Some(ix) = &indices {
            let mut i: usize = 0;
            while i < ix.len()
                invariant
                    i <= ix@.len(),
                    forall|j: int| 0 <= j < i ==> (#[trigger] ix@[j]) < vertices@.len(),
                decreases ix@.len() - i,
            {
                if (ix[i] as usize) >= vertices.len() {
                    proof {
                        assert(!indices_in_range(ix@, vertices@.len()));
                    }
                    return Err(GfxError::IndexOutOfRange);
                }
                i = i + 1;
            }
            proof {
                assert(indices_in_range(ix@, vertices@.len()));
            }
        }
        self.push_command(
            GpuCommand::DrawArray { prim, textured, transform: self.m_model, vertices, indices },
        )
    }

    /// Configure the texture unit for the given descriptor: storage
    /// layout, dimensions, how texels combine with vertex colour, and the
    /// sampling filter. Must be called within an open frame before any
    /// textured draw; the binding persists for the rest of the frame until
    /// rebound.
    pub fn bind_texture<'a>(
        &mut self,
        tex: &Texture<'a>,
        effect: TextureEffect,
        min: TextureFilter,
        mag: TextureFilter,
    ) -> (r: Result<(), GfxError>)
        requires
            old(self).wf(),
        ensures
            final(self).wf(),
            same_session(*old(self), *final(self)),
            same_transforms(*old(self), *final(self)),
            match r {
                Ok(()) => {
                    &&& old(self).state() is FrameOpen
                    &&& tex.wf()
                    &&& old(self).list_used() + 64 <= LIST_CAPACITY
                    &&& final(self).pending() == old(self).pending() + bind_command_views(
                        *tex,
                        effect,
                        min,
                        mag,
                    )
                    &&& final(self).list_used() == old(self).list_used() + 64
                    &&& final(self).texture_bound()
                },
                Err(e) => {
                    &&& *final(self) == *old(self)
                    &&& (e is BadState <==> !(old(self).state() is FrameOpen))
                    &&& (e is BadTexture <==> old(self).state() is FrameOpen && !tex.wf())
                    &&& (e is CommandListFull <==> old(self).state() is FrameOpen && tex.wf()
                        && old(self).list_used() + 64 > LIST_CAPACITY)
                    &&& (e is BadState || e is BadTexture || e is CommandListFull)
                },
            },
    {
        match self.state {
            PipelineState::FrameOpen => {},
            _ => {
                return Err(GfxError::BadState);
            },
        }
        if tex.width < 0 || tex.width > 0xffff || tex.height < 0 || tex.height > 0xffff
            || tex.tbw < 0 || tex.tbw > 0xffff {
            return Err(GfxError::BadTexture);
        }
        if LIST_CAPACITY - self.list_used < 64 {
            return Err(GfxError::CommandListFull);
        }
        let _ = self.push_command(GpuCommand::SetTexMode {
            fmt: PixelFormat::Psm8888,
            mipmaps: 0,
            swizzled: false,
        });
        let _ = self.push_command(GpuCommand::SetTexImage {
            width: tex.width,
            height: tex.height,
            stride: tex.tbw,
        });
        let _ = self.push_command(GpuCommand::SetTexFunc { effect, use_alpha: true });
        let _ = self.push_command(GpuCommand::SetTexFilter { min, mag });
        self.texture_bound = true;
        proof {
            assert(self.pending() =~= old(self).pending() + bind_command_views(
                *tex,
                effect,
                min,
                mag,
            ));
        }
        Ok(())
    }

    /// Current lifecycle state, for the host's own checks.
    pub fn lifecycle_state(&self) -> (s: PipelineState)
        ensures
            s == self.state(),
    {
        self.state
    }

    /// How many frames have been completed (ended and swapped).
    pub fn frames_completed(&self) -> (n: u64)
        ensures
            n == self.frames(),
    {
        self.frames_completed
    }

    /// The buffer triple, or `None` before initialization.
    pub fn frame_buffers(&self) -> (b: Option<FrameBuffers>)
        ensures
            b == self.buffers(),
    {
        self.buffers
    }

    /// Bytes of the command list the recorded commands occupy.
    pub fn list_used_bytes(&self) -> (n: u32)
        ensures
            n == self.list_used(),
    {
        self.list_used
    }

    /// Whether a texture has been bound since the current frame opened.
    pub fn is_texture_bound(&self) -> (b: bool)
        ensures
            b == self.texture_bound(),
    {
        self.texture_bound
    }

    /// Which matrix the transform calls currently address.
    pub fn current_matrix_mode(&self) -> (k: MatrixKind)
        ensures
            k == self.mode(),
    {
        self.mode
    }

    /// The transform held by the given matrix.
    pub fn transform(&self, k: MatrixKind) -> (t: Transform)
        ensures
            t == self.transform_of(k),
    {
        match k {
            MatrixKind::Projection => self.m_proj,
            MatrixKind::View => self.m_view,
            MatrixKind::Model => self.m_model,
        }
    }
}

/// The matrix currently addressed now holds `t`; the other two are as they
/// were.
pub open spec fn updates_current_transform(pre: Pipeline, post: Pipeline, t: Transform) -> bool {
    &&& post.transform_of(pre.mode()) == t
    &&& forall|k: MatrixKind|
        k != pre.mode() ==> #[trigger] post.transform_of(k) == pre.transform_of(k)
}

/// The three matrices hold the same transforms in both pipelines (the
/// addressed mode may differ).
pub open spec fn same_transform_values(a: Pipeline, b: Pipeline) -> bool {
    &&& a.transform_of(MatrixKind::Projection) == b.transform_of(MatrixKind::Projection)
    &&& a.transform_of(MatrixKind::View) == b.transform_of(MatrixKind::View)
    &&& a.transform_of(MatrixKind::Model) == b.transform_of(MatrixKind::Model)
}

/// After any number of completed frames, the draw and display buffers are
/// the two the session started with: in their original roles when that
/// number is even, in traded roles when it is odd.
pub proof fn lemma_buffer_swap_parity(p: Pipeline)
    requires
        p.wf(),
        p.buffers() is Some,
    ensures
        p.frames() % 2 == 0 ==> p.draw_region() == p.initial_draw() && p.display_region()
            == p.initial_display(),
        p.frames() % 2 == 1 ==> p.draw_region() == p.initial_display() && p.display_region()
            == p.initial_draw(),
{
}

} // verus!
