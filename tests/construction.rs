use sharegl::builder::{Action, Batch, Builder, Outcome, Phase, RenderTarget, Request, Resources};
use sharegl::geometry::Size2D;
use sharegl::gl::{
    bind_texture_to_framebuffer, init_texture, GlCall, BGRA, CLAMP_TO_EDGE, COLOR_ATTACHMENT0,
    FRAMEBUFFER, FRAMEBUFFER_COMPLETE, LINEAR, NEAREST, RGBA, TEXTURE_MAG_FILTER,
    TEXTURE_MIN_FILTER, TEXTURE_RECTANGLE_ARB, TEXTURE_WRAP_S, TEXTURE_WRAP_T,
    UNSIGNED_INT_8_8_8_8_REV,
};
use sharegl::surface::{describe, ShareError, SurfaceDescriptor};

fn none() -> Resources {
    Resources { context: None, surface: None, framebuffer: None, texture: None }
}

fn perform(request: Request) -> Action {
    Action::Perform { calls: Batch::Nothing, request }
}

#[test]
fn describe_exact_size() {
    let d = describe(Size2D::new(640, 480)).unwrap();
    assert_eq!(
        d,
        SurfaceDescriptor {
            width: 640,
            height: 480,
            bytes_per_row: 2560,
            bytes_per_element: 4,
            is_global: true,
        }
    );
}

#[test]
fn describe_refuses_empty_sizes() {
    assert_eq!(describe(Size2D::new(0, 10)), Err(ShareError::EmptySize));
    assert_eq!(describe(Size2D::new(10, 0)), Err(ShareError::EmptySize));
    assert_eq!(describe(Size2D::new(0, 0)), Err(ShareError::EmptySize));
    assert_eq!(describe(Size2D::new(-3, 10)), Err(ShareError::EmptySize));
    assert!(Builder::begin(Size2D::new(0, 5)).is_err());
    assert_eq!(Builder::begin(Size2D::new(5, 0)).err(), Some(ShareError::EmptySize));
}

#[test]
fn describe_refuses_sizes_beyond_driver_fields() {
    let widest = (i32::MAX / 4) as i64;
    assert_eq!(describe(Size2D::new(widest, 1)).unwrap().bytes_per_row, (widest * 4) as i32);
    assert_eq!(describe(Size2D::new(widest + 1, 1)), Err(ShareError::SizeTooLarge));
    assert_eq!(describe(Size2D::new(1, i32::MAX as i64)).unwrap().height, i32::MAX);
    assert_eq!(describe(Size2D::new(1, i32::MAX as i64 + 1)), Err(ShareError::SizeTooLarge));
}

#[test]
fn texture_setup_calls() {
    let t = TEXTURE_RECTANGLE_ARB;
    assert_eq!(
        init_texture(7),
        vec![
            GlCall::Enable { capability: t },
            GlCall::BindTexture { target: t, texture: 7 },
            GlCall::TexParameterI { target: t, name: TEXTURE_WRAP_S, value: CLAMP_TO_EDGE },
            GlCall::TexParameterI { target: t, name: TEXTURE_WRAP_T, value: CLAMP_TO_EDGE },
            GlCall::TexParameterI { target: t, name: TEXTURE_MAG_FILTER, value: LINEAR },
            GlCall::TexParameterI { target: t, name: TEXTURE_MIN_FILTER, value: NEAREST },
        ]
    );
}

#[test]
fn texture_attachment_calls() {
    assert_eq!(
        bind_texture_to_framebuffer(7),
        vec![
            GlCall::BindTexture { target: TEXTURE_RECTANGLE_ARB, texture: 0 },
            GlCall::FramebufferTexture2D {
                target: FRAMEBUFFER,
                attachment: COLOR_ATTACHMENT0,
                texture_target: TEXTURE_RECTANGLE_ARB,
                texture: 7,
                level: 0,
            },
        ]
    );
    assert_eq!(Batch::AttachTexture(7).calls(), bind_texture_to_framebuffer(7));
    assert_eq!(Batch::SetUpTexture(3).calls(), init_texture(3));
    assert_eq!(
        Batch::BindFramebuffer(2).calls(),
        vec![GlCall::BindFramebuffer { target: FRAMEBUFFER, framebuffer: 2 }]
    );
    assert!(Batch::Nothing.calls().is_empty());
}

#[test]
fn full_construction_sequence() {
    let (mut b, a) = Builder::begin(Size2D::new(100, 50)).unwrap();
    assert_eq!(a, perform(Request::ChoosePixelFormat));
    assert_eq!(
        b.step(Outcome::Handle(0x10)),
        perform(Request::CreateContext { pixel_format: 0x10, share: None })
    );
    assert_eq!(b.step(Outcome::Handle(0x20)), perform(Request::MakeCurrent { context: 0x20 }));
    let d = describe(Size2D::new(100, 50)).unwrap();
    assert_eq!(b.step(Outcome::Done), perform(Request::AllocateSurface { descriptor: d }));
    assert_eq!(b.step(Outcome::Name(41)), perform(Request::GenFramebuffer));
    assert_eq!(
        b.step(Outcome::Name(5)),
        Action::Perform { calls: Batch::BindFramebuffer(5), request: Request::GenTexture }
    );
    match b.step(Outcome::Name(6)) {
        Action::Perform { calls, request: Request::BindSurfaceToTexture { context, surface, binding } } => {
            assert_eq!(calls, Batch::SetUpTexture(6));
            assert_eq!((context, surface), (0x20, 41));
            assert_eq!((binding.width, binding.height, binding.plane), (100, 50, 0));
            assert_eq!(binding.target, TEXTURE_RECTANGLE_ARB);
            assert_eq!((binding.internal_format, binding.format), (RGBA, BGRA));
            assert_eq!(binding.pixel_type, UNSIGNED_INT_8_8_8_8_REV);
        }
        other => panic!("unexpected action {:?}", other),
    }
    assert_eq!(
        b.step(Outcome::Done),
        Action::Perform {
            calls: Batch::AttachTexture(6),
            request: Request::CheckFramebufferStatus { target: FRAMEBUFFER },
        }
    );
    let target = RenderTarget { context: 0x20, surface: 41, framebuffer: 5, texture: 6 };
    assert_eq!(b.step(Outcome::Name(FRAMEBUFFER_COMPLETE)), Action::Finish { target });
    assert_eq!(b.phase, Phase::Finished);
    assert_eq!(b.held, none());
    assert_eq!(b.step(Outcome::Done), Action::Idle);
}

/// Runs the construction, answering each request with `answers` in turn.
fn run(answers: &[Outcome]) -> (Builder, Action) {
    let (mut b, mut a) = Builder::begin(Size2D::new(8, 8)).unwrap();
    for o in answers {
        a = b.step(*o);
    }
    (b, a)
}

#[test]
fn failures_release_what_was_created() {
    let (b, a) = run(&[Outcome::Failed]);
    assert_eq!(a, Action::Abort { error: ShareError::PixelFormatRejected, release: none() });
    assert_eq!(b.phase, Phase::Aborted);
    let (_, a) = run(&[Outcome::Handle(0)]);
    assert_eq!(a, Action::Abort { error: ShareError::PixelFormatRejected, release: none() });
    let (_, a) = run(&[Outcome::Handle(1), Outcome::Handle(0)]);
    assert_eq!(a, Action::Abort { error: ShareError::ContextCreationFailed, release: none() });
    let ctx = Resources { context: Some(2), ..none() };
    let (_, a) = run(&[Outcome::Handle(1), Outcome::Handle(2), Outcome::Failed]);
    assert_eq!(a, Action::Abort { error: ShareError::MakeCurrentFailed, release: ctx });
    let (_, a) = run(&[Outcome::Handle(1), Outcome::Handle(2), Outcome::Done, Outcome::Name(0)]);
    assert_eq!(a, Action::Abort { error: ShareError::SurfaceAllocationFailed, release: ctx });
    let surf = Resources { surface: Some(9), ..ctx };
    let (_, a) = run(&[
        Outcome::Handle(1),
        Outcome::Handle(2),
        Outcome::Done,
        Outcome::Name(9),
        Outcome::Done,
    ]);
    assert_eq!(a, Action::Abort { error: ShareError::ObjectCreationFailed, release: surf });
    let fb = Resources { framebuffer: Some(3), ..surf };
    let (_, a) = run(&[
        Outcome::Handle(1),
        Outcome::Handle(2),
        Outcome::Done,
        Outcome::Name(9),
        Outcome::Name(3),
        Outcome::Failed,
    ]);
    assert_eq!(a, Action::Abort { error: ShareError::ObjectCreationFailed, release: fb });
    let all = Resources { texture: Some(4), ..fb };
    let prefix = [
        Outcome::Handle(1),
        Outcome::Handle(2),
        Outcome::Done,
        Outcome::Name(9),
        Outcome::Name(3),
        Outcome::Name(4),
    ];
    let mut answers = prefix.to_vec();
    answers.push(Outcome::Failed);
    let (_, a) = run(&answers);
    assert_eq!(a, Action::Abort { error: ShareError::SurfaceBindingFailed, release: all });
    let mut answers = prefix.to_vec();
    answers.push(Outcome::Done);
    answers.push(Outcome::Name(0x8CD6));
    let (mut b, a) = run(&answers);
    assert_eq!(a, Action::Abort { error: ShareError::FramebufferIncomplete, release: all });
    assert_eq!(b.held, none());
    assert_eq!(b.step(Outcome::Name(FRAMEBUFFER_COMPLETE)), Action::Idle);
}
