use sharegl::base::ShareContext;
use sharegl::builder::{Outcome, RenderTarget, Request, Resources};
use sharegl::context::{
    cgl_pixel_format_attributes, ContextRequest, GraphicsContext, GraphicsContextMethods,
};
use sharegl::geometry::Size2D;
use sharegl::gl::GlCall;
use sharegl::glx::{glx_visual_attributes, pixmap_request, GlxContext, GlxDrawable, PixmapRequest};
use sharegl::platform::{DummyContext, MacContext};
use sharegl::refcount::{ContextError, ContextTable};
use sharegl::surface::ShareError;

#[test]
fn last_release_hands_back_handle_once() {
    let mut table = ContextTable::new();
    let a = table.adopt(0xABC);
    assert_eq!(table.count(&a), 1);
    let b = table.retain(&a).unwrap();
    let c = table.retain(&b).unwrap();
    assert_eq!(table.count(&a), 3);
    assert_eq!(c.native(), 0xABC);
    assert_eq!(table.release(b), Ok(None));
    assert_eq!(table.release(c), Ok(None));
    assert_eq!(table.count(&a), 1);
    let stale = table.retain(&a).unwrap();
    assert_eq!(table.release(a), Ok(None));
    assert_eq!(table.release(stale), Ok(Some(0xABC)));
}

#[test]
fn clones_and_drops_release_once() {
    let mut table = ContextTable::new();
    let other = table.adopt(8);
    let g = GraphicsContext::created(&mut table, Outcome::Handle(9)).unwrap();
    let copy = g.clone_in(&mut table).unwrap();
    let copy2 = copy.clone_in(&mut table).unwrap();
    assert_eq!(copy.release(&mut table), Ok(None));
    assert_eq!(g.release(&mut table), Ok(None));
    assert_eq!(copy2.release(&mut table), Ok(Some(9)));
    assert_eq!(table.count(&other), 1);
}

#[test]
fn reference_from_another_table_is_refused() {
    let mut first = ContextTable::new();
    let mut second = ContextTable::new();
    let a = first.adopt(7);
    let b = first.adopt(8);
    assert_eq!(second.count(&a), 0);
    assert!(matches!(second.retain(&a), Err(ContextError::NotHeld)));
    assert_eq!(second.release(a), Err(ContextError::NotHeld));
    let c = second.adopt(99);
    assert!(matches!(second.retain(&b), Err(ContextError::NotHeld)));
    let g = GraphicsContext::wrap(b);
    assert!(matches!(g.native(&mut second), Err(ContextError::NotHeld)));
    assert!(matches!(g.clone_in(&mut second), Err(ContextError::NotHeld)));
    assert_eq!(g.release(&mut second), Err(ContextError::NotHeld));
    assert_eq!(second.count(&c), 1);
}

#[test]
fn context_creation_requests() {
    let mut table = ContextTable::new();
    assert_eq!(cgl_pixel_format_attributes(), vec![5, 83, 0]);
    let fresh = <GraphicsContext as GraphicsContextMethods>::new();
    assert_eq!(fresh, ContextRequest { share: None });
    assert_eq!(
        fresh.create(Outcome::Handle(0x40)),
        Ok(Request::CreateContext { pixel_format: 0x40, share: None })
    );
    assert_eq!(fresh.create(Outcome::Failed), Err(ShareError::PixelFormatRejected));
    assert_eq!(fresh.create(Outcome::Handle(0)), Err(ShareError::PixelFormatRejected));
    let first = GraphicsContext::created(&mut table, Outcome::Handle(0x77)).unwrap();
    let shared = GraphicsContext::new_shared(&first);
    assert_eq!(shared, ContextRequest { share: Some(0x77) });
    assert_eq!(
        shared.create(Outcome::Handle(0x41)),
        Ok(Request::CreateContext { pixel_format: 0x41, share: Some(0x77) })
    );
    assert!(matches!(
        GraphicsContext::created(&mut table, Outcome::Handle(0)),
        Err(ShareError::ContextCreationFailed)
    ));
    assert!(matches!(
        GraphicsContext::created(&mut table, Outcome::Failed),
        Err(ShareError::ContextCreationFailed)
    ));
    assert_eq!(GraphicsContext::current_made(Outcome::Done), Ok(()));
    assert_eq!(GraphicsContext::current_made(Outcome::Failed), Err(ShareError::MakeCurrentFailed));
    assert_eq!(first.release(&mut table), Ok(Some(0x77)));
}

#[test]
fn many_references_are_counted() {
    let mut table = ContextTable::new();
    let a = table.adopt(1);
    let mut refs = Vec::new();
    for _ in 0..3 {
        refs.push(table.retain(&a).unwrap());
    }
    assert_eq!(table.count(&a), 4);
    for r in refs {
        assert_eq!(table.release(r), Ok(None));
    }
    assert_eq!(table.release(a), Ok(Some(1)));
}

#[test]
fn surface_context_id_and_flush() {
    let mut table = ContextTable::new();
    let target = RenderTarget { context: 0x99, surface: 1234, framebuffer: 2, texture: 3 };
    let ctx = MacContext::assemble(&mut table, target);
    assert_eq!(ctx.id(), 1234);
    assert_eq!(ctx.id(), 1234);
    assert_eq!(ctx.flush(), vec![GlCall::Finish]);
    assert_eq!(ctx.flush(), ctx.flush());
    assert_eq!(
        ctx.release(&mut table),
        Ok(Resources { context: Some(0x99), surface: Some(1234), framebuffer: Some(2), texture: Some(3) })
    );
}

#[test]
fn two_surface_contexts_keep_their_ids() {
    let mut table = ContextTable::new();
    let a = MacContext::assemble(
        &mut table,
        RenderTarget { context: 1, surface: 10, framebuffer: 1, texture: 2 },
    );
    let b = MacContext::assemble(
        &mut table,
        RenderTarget { context: 2, surface: 11, framebuffer: 1, texture: 2 },
    );
    assert_ne!(a.id(), b.id());
    assert_eq!(a.id(), 10);
    assert_eq!(b.id(), 11);
}

#[test]
fn dummy_context_is_inert() {
    for (w, h) in [(0, 0), (1, 1), (640, 480), (-5, 3)] {
        let d = DummyContext::new(Size2D::new(w, h));
        assert_eq!(d.id(), 0);
        assert!(d.flush().is_empty());
    }
}

#[test]
fn glx_requests() {
    assert_eq!(glx_visual_attributes(), vec![4, 8, 1, 9, 1, 10, 1, 12, 24, 0]);
    assert_eq!(pixmap_request(), PixmapRequest { width: 10, height: 10, depth: 24 });
    let mut table = ContextTable::new();
    let drawable = GlxDrawable { display: 0x5000, pixmap: 77 };
    assert!(matches!(
        GlxContext::created(&mut table, drawable, Outcome::Handle(0)),
        Err(ShareError::ContextCreationFailed)
    ));
    let ctx = GlxContext::created(&mut table, drawable, Outcome::Handle(0x6000)).unwrap();
    assert_eq!(ctx.drawable(), drawable);
    let req = ctx.make_current();
    assert_eq!((req.display, req.draw, req.read, req.context), (0x5000, 77, 77, 0x6000));
    assert_eq!(GlxContext::new(), ContextRequest { share: None });
    assert_eq!(GlxContext::new_shared(&ctx), ContextRequest { share: Some(0x6000) });
    assert_eq!(GlxContext::current_made(1), Ok(()));
    assert_eq!(GlxContext::current_made(0), Err(ShareError::MakeCurrentFailed));
    let r = ctx.native(&mut table).unwrap();
    assert_eq!(r.native(), 0x6000);
    assert_eq!(table.release(r), Ok(None));
    assert_eq!(ctx.release(&mut table), Ok(Some(0x6000)));
}
