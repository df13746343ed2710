use vstd::prelude::*;
use crate::geometry::Size2D;
use crate::gl::{
    bind_texture_to_framebuffer, init_texture, texture_attachment, texture_setup, GlCall, BGRA,
    FRAMEBUFFER, FRAMEBUFFER_COMPLETE, RGBA, TEXTURE_RECTANGLE_ARB, UNSIGNED_INT_8_8_8_8_REV,
};
use crate::refcount::NativeHandle;
use crate::surface::{describe, describe_spec, ShareError, SurfaceDescriptor};

verus! {

/// What the platform reports after performing a request.
#[derive(Clone, Copy, Debug, PartialEq, Eq, Structural)]
pub enum Outcome {
    /// The request succeeded and produced nothing.
    Done,
    /// The request produced a native handle (a pixel format or a context).
    Handle(NativeHandle),
    /// The request produced a 32-bit name (a surface id, a GL object name, a status).
    Name(u32),
    /// The driver reported an error.
    Failed,
}

/// A group of GL calls that report nothing, issued before a request.
#[derive(Clone, Copy, Debug, PartialEq, Eq, Structural)]
pub enum Batch {
    Nothing,
    /// Makes the framebuffer the active render target.
    BindFramebuffer(u32),
    /// Configures a new texture; see `init_texture`.
    SetUpTexture(u32),
    /// Attaches the texture to the framebuffer; see `bind_texture_to_framebuffer`.
    AttachTexture(u32),
}

impl Batch {
    pub open spec fn calls_spec(&self) -> Seq<GlCall> {
        match *self {
            Batch::Nothing => Seq::empty(),
            Batch::BindFramebuffer(fb) => seq![
                GlCall::BindFramebuffer { target: FRAMEBUFFER, framebuffer: fb },
            ],
            Batch::SetUpTexture(t) => texture_setup(t),
            Batch::AttachTexture(t) => texture_attachment(t),
        }
    }

    /// The calls of the batch, in the order they are to be issued.
    pub fn calls(&self) -> (r: Vec<GlCall>)
        ensures
            r@ == self.calls_spec(),
    {
        match *self {
            Batch::Nothing => Vec::new(),
            Batch::BindFramebuffer(fb) => {
                let r = vec![GlCall::BindFramebuffer { target: FRAMEBUFFER, framebuffer: fb }];
                proof {
                    assert(r@ =~= self.calls_spec());
                }
                r
            },
            Batch::SetUpTexture(t) => init_texture(t),
            Batch::AttachTexture(t) => bind_texture_to_framebuffer(t),
        }
    }
}

/// How a surface backs a rectangular texture: RGBA as seen by GL, stored as
/// BGRA in reversed byte order, which is the surface's own layout.
#[derive(Clone, Copy, Debug, PartialEq, Eq, Structural)]
pub struct SurfaceBinding {
    pub target: u32,
    pub internal_format: u32,
    pub width: i32,
    pub height: i32,
    pub format: u32,
    pub pixel_type: u32,
    pub plane: u32,
}

pub open spec fn binding_for(d: SurfaceDescriptor) -> SurfaceBinding {
    SurfaceBinding {
        target: TEXTURE_RECTANGLE_ARB,
        internal_format: RGBA,
        width: d.width,
        height: d.height,
        format: BGRA,
        pixel_type: UNSIGNED_INT_8_8_8_8_REV,
        plane: 0,
    }
}

/// The binding of a surface with descriptor `d` to a texture.
pub fn surface_binding(d: SurfaceDescriptor) -> (r: SurfaceBinding)
    ensures
        r == binding_for(d),
{
    SurfaceBinding {
        target: TEXTURE_RECTANGLE_ARB,
        internal_format: RGBA,
        width: d.width,
        height: d.height,
        format: BGRA,
        pixel_type: UNSIGNED_INT_8_8_8_8_REV,
        plane: 0,
    }
}

/// A native operation whose result the platform reports as an `Outcome`.
#[derive(Clone, Copy, Debug, PartialEq, Eq, Structural)]
pub enum Request {
    /// Negotiate the fixed pixel format; reports `Handle`.
    ChoosePixelFormat,
    /// Create a context, sharing objects with `share` if given; reports `Handle`.
    CreateContext { pixel_format: NativeHandle, share: Option<NativeHandle> },
    /// Make the context current on the calling thread; reports `Done`.
    MakeCurrent { context: NativeHandle },
    /// Allocate a shared surface; reports its id as `Name`.
    AllocateSurface { descriptor: SurfaceDescriptor },
    /// Generate a framebuffer; reports its `Name`.
    GenFramebuffer,
    /// Generate a texture; reports its `Name`.
    GenTexture,
    /// Back the bound texture with the surface; reports `Done`.
    BindSurfaceToTexture { context: NativeHandle, surface: u32, binding: SurfaceBinding },
    /// Query the framebuffer's status; reports it as `Name`.
    CheckFramebufferStatus { target: u32 },
}

/// Native resources, each present once it has been created.
#[derive(Clone, Copy, Debug, PartialEq, Eq, Structural)]
pub struct Resources {
    pub context: Option<NativeHandle>,
    pub surface: Option<u32>,
    pub framebuffer: Option<u32>,
    pub texture: Option<u32>,
}

pub open spec fn no_resources() -> Resources {
    Resources { context: None, surface: None, framebuffer: None, texture: None }
}

/// A complete offscreen render target: a current context, a shared surface,
/// and a framebuffer whose color attachment is a texture backed by the surface.
#[derive(Clone, Copy, Debug, PartialEq, Eq, Structural)]
pub struct RenderTarget {
    pub context: NativeHandle,
    pub surface: u32,
    pub framebuffer: u32,
    pub texture: u32,
}

/// What the platform is to do next.
#[derive(Clone, Copy, Debug, PartialEq, Eq, Structural)]
pub enum Action {
    /// Issue `calls`, then perform `request` and report its outcome.
    Perform { calls: Batch, request: Request },
    /// Construction succeeded: the target now owns every resource.
    Finish { target: RenderTarget },
    /// Construction failed: release what `release` holds, texture first and
    /// context last, then report `error`.
    Abort { error: ShareError, release: Resources },
    /// Construction is over; nothing is left to do.
    Idle,
}

/// The step of the construction sequence that awaits an outcome.
#[derive(Clone, Copy, Debug, PartialEq, Eq, Structural)]
pub enum Phase {
    ChoosingPixelFormat,
    CreatingContext,
    MakingCurrent,
    AllocatingSurface,
    CreatingFramebuffer,
    CreatingTexture,
    BindingSurface,
    CheckingFramebuffer,
    Finished,
    Aborted,
}

/// The construction of a render target, one native step at a time: context,
/// surface, framebuffer, texture, surface bound to texture, texture attached
/// to framebuffer. Each step needs the previous one's result, and a failure
/// at any step hands back everything created so far.
#[derive(Clone, Copy, Debug, PartialEq, Eq, Structural)]
pub struct Builder {
    pub descriptor: SurfaceDescriptor,
    pub phase: Phase,
    /// The resources created so far and not yet handed out.
    pub held: Resources,
}

impl Builder {
    /// The resources held are exactly those the phase has created.
    pub open spec fn wf(&self) -> bool {
        let h = self.held;
        &&& self.descriptor.is_valid()
        &&& h.context != Some(0u64) && h.surface != Some(0u32)
        &&& h.framebuffer != Some(0u32) && h.texture != Some(0u32)
        &&& match self.phase {
            Phase::ChoosingPixelFormat | Phase::CreatingContext | Phase::Finished
            | Phase::Aborted => h == no_resources(),
            Phase::MakingCurrent | Phase::AllocatingSurface => h.context is Some
                && h.surface is None && h.framebuffer is None && h.texture is None,
            Phase::CreatingFramebuffer => h.context is Some && h.surface is Some
                && h.framebuffer is None && h.texture is None,
            Phase::CreatingTexture => h.context is Some && h.surface is Some && h.framebuffer is Some
                && h.texture is None,
            Phase::BindingSurface | Phase::CheckingFramebuffer => h.context is Some
                && h.surface is Some && h.framebuffer is Some && h.texture is Some,
        }
    }

    pub open spec fn with(&self, phase: Phase, held: Resources) -> Builder {
        Builder { descriptor: self.descriptor, phase, held }
    }

    /// The builder after a failure at its current step, and the action that reports it.
    pub open spec fn abort_spec(&self, error: ShareError) -> (Builder, Action) {
        (self.with(Phase::Aborted, no_resources()), Action::Abort { error, release: self.held })
    }

    /// The transition taken on `o`: a step succeeds only on the outcome kind its
    /// request reports, with a non-null handle or a non-zero name.
    pub open spec fn next(&self, o: Outcome) -> (Builder, Action) {
        let h = self.held;
        match self.phase {
            Phase::ChoosingPixelFormat => match o {
                Outcome::Handle(pf) if pf != 0 => (
                    self.with(Phase::CreatingContext, h),
                    Action::Perform {
                        calls: Batch::Nothing,
                        request: Request::CreateContext { pixel_format: pf, share: None },
                    },
                ),
                _ => self.abort_spec(ShareError::PixelFormatRejected),
            },
            Phase::CreatingContext => match o {
                Outcome::Handle(c) if c != 0 => (
                    self.with(Phase::MakingCurrent, Resources { context: Some(c), ..h }),
                    Action::Perform { calls: Batch::Nothing, request: Request::MakeCurrent { context: c } },
                ),
                _ => self.abort_spec(ShareError::ContextCreationFailed),
            },
            Phase::MakingCurrent => match o {
                Outcome::Done => (
                    self.with(Phase::AllocatingSurface, h),
                    Action::Perform {
                        calls: Batch::Nothing,
                        request: Request::AllocateSurface { descriptor: self.descriptor },
                    },
                ),
                _ => self.abort_spec(ShareError::MakeCurrentFailed),
            },
            Phase::AllocatingSurface => match o {
                Outcome::Name(s) if s != 0 => (
                    self.with(Phase::CreatingFramebuffer, Resources { surface: Some(s), ..h }),
                    Action::Perform { calls: Batch::Nothing, request: Request::GenFramebuffer },
                ),
                _ => self.abort_spec(ShareError::SurfaceAllocationFailed),
            },
            Phase::CreatingFramebuffer => match o {
                Outcome::Name(fb) if fb != 0 => (
                    self.with(Phase::CreatingTexture, Resources { framebuffer: Some(fb), ..h }),
                    Action::Perform { calls: Batch::BindFramebuffer(fb), request: Request::GenTexture },
                ),
                _ => self.abort_spec(ShareError::ObjectCreationFailed),
            },
            Phase::CreatingTexture => match o {
                Outcome::Name(t) if t != 0 => (
                    self.with(Phase::BindingSurface, Resources { texture: Some(t), ..h }),
                    Action::Perform {
                        calls: Batch::SetUpTexture(t),
                        request: Request::BindSurfaceToTexture {
                            context: h.context->Some_0,
                            surface: h.surface->Some_0,
                            binding: binding_for(self.descriptor),
                        },
                    },
                ),
                _ => self.abort_spec(ShareError::ObjectCreationFailed),
            },
            Phase::BindingSurface => match o {
                Outcome::Done => (
                    self.with(Phase::CheckingFramebuffer, h),
                    Action::Perform {
                        calls: Batch::AttachTexture(h.texture->Some_0),
                        request: Request::CheckFramebufferStatus { target: FRAMEBUFFER },
                    },
                ),
                _ => self.abort_spec(ShareError::SurfaceBindingFailed),
            },
            Phase::CheckingFramebuffer => match o {
                Outcome::Name(status) if status == FRAMEBUFFER_COMPLETE => (
                    self.with(Phase::Finished, no_resources()),
                    Action::Finish {
                        target: RenderTarget {
                            context: h.context->Some_0,
                            surface: h.surface->Some_0,
                            framebuffer: h.framebuffer->Some_0,
                            texture: h.texture->Some_0,
                        },
                    },
                ),
                _ => self.abort_spec(ShareError::FramebufferIncomplete),
            },
            Phase::Finished | Phase::Aborted => (*self, Action::Idle),
        }
    }

    /// Starts building a render target of `size`. A size that cannot back a
    /// surface is refused before any native call is made.
    pub fn begin(size: Size2D) -> (r: Result<(Builder, Action), ShareError>)
        ensures
            describe_spec(size) is Err ==> r == Err::<(Builder, Action), ShareError>(
                describe_spec(size)->Err_0,
            ),
            describe_spec(size) is Ok ==> r is Ok && {
                let (b, a) = r->Ok_0;
                &&& b.wf()
                &&& b.descriptor == describe_spec(size)->Ok_0
                &&& b.phase == Phase::ChoosingPixelFormat
                &&& a == Action::Perform { calls: Batch::Nothing, request: Request::ChoosePixelFormat }
            },
    {
        match describe(size) {
            Err(e) => Err(e),
            Ok(descriptor) => {
                let b = Builder {
                    descriptor,
                    phase: Phase::ChoosingPixelFormat,
                    held: Resources { context: None, surface: None, framebuffer: None, texture: None },
                };
                Ok((b, Action::Perform { calls: Batch::Nothing, request: Request::ChoosePixelFormat }))
            },
        }
    }

    fn abort(&mut self, error: ShareError) -> (a: Action)
        ensures
            (*final(self), a) == old(self).abort_spec(error),
    {
        let release = self.held;
        self.phase = Phase::Aborted;
        self.held = Resources { context: None, surface: None, framebuffer: None, texture: None };
        Action::Abort { error, release }
    }

    /// Advances the construction on the outcome of the last request.
    pub fn step(&mut self, o: Outcome) -> (a: Action)
        requires
            old(self).wf(),
        ensures
            (*final(self), a) == old(self).next(o),
            final(self).wf(),
    {
        let h = self.held;
        match self.phase {
            Phase::ChoosingPixelFormat => match o {
                Outcome::Handle(pf) if pf != 0 => {
                    self.phase = Phase::CreatingContext;
                    Action::Perform {
                        calls: Batch::Nothing,
                        request: Request::CreateContext { pixel_format: pf, share: None },
                    }
                },
                _ => self.abort(ShareError::PixelFormatRejected),
            },
            Phase::CreatingContext => match o {
                Outcome::Handle(c) if c != 0 => {
                    self.phase = Phase::MakingCurrent;
                    self.held = Resources { context: Some(c), ..h };
                    Action::Perform { calls: Batch::Nothing, request: Request::MakeCurrent { context: c } }
                },
                _ => self.abort(ShareError::ContextCreationFailed),
            },
            Phase::MakingCurrent => match o {
                Outcome::Done => {
                    self.phase = Phase::AllocatingSurface;
                    Action::Perform {
                        calls: Batch::Nothing,
                        request: Request::AllocateSurface { descriptor: self.descriptor },
                    }
                },
                _ => self.abort(ShareError::MakeCurrentFailed),
            },
            Phase::AllocatingSurface => match o {
                Outcome::Name(s) if s != 0 => {
                    self.phase = Phase::CreatingFramebuffer;
                    self.held = Resources { surface: Some(s), ..h };
                    Action::Perform { calls: Batch::Nothing, request: Request::GenFramebuffer }
                },
                _ => self.abort(ShareError::SurfaceAllocationFailed),
            },
            Phase::CreatingFramebuffer => match o {
                Outcome::Name(fb) if fb != 0 => {
                    self.phase = Phase::CreatingTexture;
                    self.held = Resources { framebuffer: Some(fb), ..h };
                    Action::Perform { calls: Batch::BindFramebuffer(fb), request: Request::GenTexture }
                },
                _ => self.abort(ShareError::ObjectCreationFailed),
            },
            Phase::CreatingTexture => match o {
                Outcome::Name(t) if t != 0 => {
                    let context = h.context.unwrap();
                    let surface = h.surface.unwrap();
                    self.phase = Phase::BindingSurface;
                    self.held = Resources { texture: Some(t), ..h };
                    Action::Perform {
                        calls: Batch::SetUpTexture(t),
                        request: Request::BindSurfaceToTexture {
                            context,
                            surface,
                            binding: surface_binding(self.descriptor),
                        },
                    }
                },
                _ => self.abort(ShareError::ObjectCreationFailed),
            },
            Phase::BindingSurface => match o {
                Outcome::Done => {
                    self.phase = Phase::CheckingFramebuffer;
                    Action::Perform {
                        calls: Batch::AttachTexture(h.texture.unwrap()),
                        request: Request::CheckFramebufferStatus { target: FRAMEBUFFER },
                    }
                },
                _ => self.abort(ShareError::SurfaceBindingFailed),
            },
            Phase::CheckingFramebuffer => match o {
                Outcome::Name(status) if status == FRAMEBUFFER_COMPLETE => {
                    let target = RenderTarget {
                        context: h.context.unwrap(),
                        surface: h.surface.unwrap(),
                        framebuffer: h.framebuffer.unwrap(),
                        texture: h.texture.unwrap(),
                    };
                    self.phase = Phase::Finished;
                    self.held = Resources { context: None, surface: None, framebuffer: None, texture: None };
                    Action::Finish { target }
                },
                _ => self.abort(ShareError::FramebufferIncomplete),
            },
            Phase::Finished | Phase::Aborted => Action::Idle,
        }
    }
}

/// A finished render target never carries a null context or a placeholder
/// name: in particular its surface id is never zero.
pub proof fn lemma_finished_target_named(b: Builder, o: Outcome)
    requires
        b.wf(),
    ensures
        b.next(o).1 matches Action::Finish { target } ==> target.context != 0 && target.surface != 0
            && target.framebuffer != 0 && target.texture != 0,
{
}

/// Construction ends once: after it has finished or been aborted, whatever
/// is reported next, nothing more is requested or handed out, so no
/// resource is released twice.
pub proof fn lemma_construction_ends_once(b: Builder, o1: Outcome, o2: Outcome)
    requires
        b.wf(),
    ensures
        b.next(o1).1 is Finish || b.next(o1).1 is Abort ==> b.next(o1).0.held == no_resources()
            && b.next(o1).0.next(o2) == (b.next(o1).0, Action::Idle),
{
}

/// The surface requested for a render target of `size` is exactly that size,
/// with unpadded 4-byte pixels, and resolvable from other processes.
pub proof fn lemma_surface_matches_size(size: Size2D, b: Builder)
    requires
        describe_spec(size) is Ok,
        b.wf(),
        b.descriptor == describe_spec(size)->Ok_0,
        b.phase == Phase::MakingCurrent,
    ensures
        b.next(Outcome::Done).1 matches Action::Perform {
            request: Request::AllocateSurface { descriptor: d },
            ..
        } && d.width == size.width && d.height == size.height && d.bytes_per_row == size.width
            * 4 && d.bytes_per_element == 4 && d.is_global,
{
}

/// A size with a zero dimension never yields a render target: construction
/// is refused before any native call.
pub proof fn lemma_empty_size_refused(size: Size2D)
    requires
        size.width == 0 || size.height == 0,
    ensures
        describe_spec(size) == Err::<SurfaceDescriptor, ShareError>(ShareError::EmptySize),
{
}

} // verus!
