//! Contexts of the GLX strategy: each context draws into an offscreen X
//! pixmap, and sharing goes through the driver's share list instead of a
//! shared surface.

use vstd::prelude::*;
use crate::context::{created_spec, ContextRequest};
use crate::builder::Outcome;
use crate::refcount::{
    release_step, retain_step, ContextError, ContextTable, NativeHandle, SharedContext,
};
use crate::surface::ShareError;

verus! {

pub const GLX_RGBA: i32 = 4;
pub const GLX_RED_SIZE: i32 = 8;
pub const GLX_GREEN_SIZE: i32 = 9;
pub const GLX_BLUE_SIZE: i32 = 10;
pub const GLX_DEPTH_SIZE: i32 = 12;

/// The visual every context asks for: RGBA with at least one bit per color
/// channel and a 24-bit depth buffer, zero-terminated.
pub open spec fn glx_attributes_spec() -> Seq<i32> {
    seq![GLX_RGBA, GLX_RED_SIZE, 1, GLX_GREEN_SIZE, 1, GLX_BLUE_SIZE, 1, GLX_DEPTH_SIZE, 24, 0]
}

/// The attribute list handed to visual selection.
pub fn glx_visual_attributes() -> (r: Vec<i32>)
    ensures
        r@ == glx_attributes_spec(),
{
    let r = vec![GLX_RGBA, GLX_RED_SIZE, 1, GLX_GREEN_SIZE, 1, GLX_BLUE_SIZE, 1, GLX_DEPTH_SIZE, 24, 0];
    proof {
        assert(r@ =~= glx_attributes_spec());
    }
    r
}

/// The X pixmap a context draws into: it only has to exist, so it is small.
#[derive(Clone, Copy, Debug, PartialEq, Eq, Structural)]
pub struct PixmapRequest {
    pub width: u32,
    pub height: u32,
    pub depth: u32,
}

pub fn pixmap_request() -> (r: PixmapRequest)
    ensures
        r == (PixmapRequest { width: 10, height: 10, depth: 24 }),
{
    PixmapRequest { width: 10, height: 10, depth: 24 }
}

/// A display connection and the GLX pixmap made for it.
#[derive(Clone, Copy, Debug, PartialEq, Eq, Structural)]
pub struct GlxDrawable {
    pub display: NativeHandle,
    pub pixmap: u32,
}

/// The arguments of making a context current: it draws to and reads from its pixmap.
#[derive(Clone, Copy, Debug, PartialEq, Eq, Structural)]
pub struct MakeCurrentRequest {
    pub display: NativeHandle,
    pub draw: u32,
    pub read: u32,
    pub context: NativeHandle,
}

/// A context of the GLX strategy. It has no shared surface, so no identifier
/// other processes could use.
#[derive(Debug)]
pub struct GlxContext {
    drawable: GlxDrawable,
    context: SharedContext,
}

impl GlxContext {
    /// The counted context reference held.
    pub closed spec fn reference(&self) -> (nat, NativeHandle) {
        self.context@
    }

    pub closed spec fn drawable_spec(&self) -> GlxDrawable {
        self.drawable
    }

    /// Wraps a counted reference, drawing into `drawable`.
    pub fn wrap(instance: SharedContext, drawable: GlxDrawable) -> (r: GlxContext)
        ensures
            r.reference() == instance@,
            r.drawable_spec() == drawable,
    {
        GlxContext { drawable, context: instance }
    }

    pub fn drawable(&self) -> (r: GlxDrawable)
        ensures
            r == self.drawable_spec(),
    {
        self.drawable
    }

    /// How to create a new, independent context.
    pub fn new() -> (r: ContextRequest)
        ensures
            r.share == None::<NativeHandle>,
    {
        ContextRequest { share: None }
    }

    /// How to create a context on the share list of `share_context`.
    pub fn new_shared(share_context: &GlxContext) -> (r: ContextRequest)
        ensures
            r.share == Some(share_context.reference().1),
    {
        ContextRequest { share: Some(share_context.context.native()) }
    }

    /// Takes ownership of the context that `glXCreateContext` reported as `o`
    /// for `drawable`; a null context is a failure.
    pub fn created(table: &mut ContextTable, drawable: GlxDrawable, o: Outcome) -> (r: Result<
        GlxContext,
        ShareError,
    >)
        ensures
            created_spec(o) is Err ==> r == Err::<GlxContext, ShareError>(
                ShareError::ContextCreationFailed,
            ) && final(table)@ == old(table)@,
            created_spec(o) is Ok ==> r is Ok && final(table)@ == old(table)@.push(
                (created_spec(o)->Ok_0, 1nat),
            ) && r->Ok_0.reference() == (old(table)@.len(), created_spec(o)->Ok_0)
                && r->Ok_0.drawable_spec() == drawable,
    {
        match o {
            Outcome::Handle(c) => if c != 0 {
                let g = GlxContext::wrap(table.adopt(c), drawable);
                Ok(g)
            } else {
                Err(ShareError::ContextCreationFailed)
            },
            _ => Err(ShareError::ContextCreationFailed),
        }
    }

    /// A new counted reference to the underlying native context.
    pub fn native(&self, table: &mut ContextTable) -> (r: Result<SharedContext, ContextError>)
        ensures
            !ContextTable::holds(old(table)@, self.reference()) ==> r == Err::<
                SharedContext,
                ContextError,
            >(ContextError::NotHeld) && final(table)@ == old(table)@,
            ContextTable::holds(old(table)@, self.reference()) ==> {
                let c = old(table)@[self.reference().0 as int].1;
                &&& final(table)@ == old(table)@.update(
                    self.reference().0 as int,
                    (self.reference().1, retain_step(c)),
                )
                &&& c < u64::MAX ==> r is Ok && r->Ok_0@ == self.reference()
                &&& c == u64::MAX ==> r == Err::<SharedContext, ContextError>(
                    ContextError::CountOverflow,
                )
            },
    {
        table.retain(&self.context)
    }

    /// Another context on the same display and pixmap, holding a new counted
    /// reference to the same native context.
    pub fn clone_in(&self, table: &mut ContextTable) -> (r: Result<GlxContext, ContextError>)
        ensures
            !ContextTable::holds(old(table)@, self.reference()) ==> r == Err::<
                GlxContext,
                ContextError,
            >(ContextError::NotHeld) && final(table)@ == old(table)@,
            ContextTable::holds(old(table)@, self.reference()) ==> {
                let c = old(table)@[self.reference().0 as int].1;
                &&& final(table)@ == old(table)@.update(
                    self.reference().0 as int,
                    (self.reference().1, retain_step(c)),
                )
                &&& c < u64::MAX ==> r is Ok && r->Ok_0.reference() == self.reference()
                    && r->Ok_0.drawable_spec() == self.drawable_spec()
                &&& c == u64::MAX ==> r == Err::<GlxContext, ContextError>(
                    ContextError::CountOverflow,
                )
            },
    {
        match table.retain(&self.context) {
            Ok(n) => Ok(GlxContext::wrap(n, self.drawable)),
            Err(e) => Err(e),
        }
    }

    /// The arguments that make this context current on its pixmap.
    pub fn make_current(&self) -> (r: MakeCurrentRequest)
        ensures
            r == (MakeCurrentRequest {
                display: self.drawable_spec().display,
                draw: self.drawable_spec().pixmap,
                read: self.drawable_spec().pixmap,
                context: self.reference().1,
            }),
    {
        MakeCurrentRequest {
            display: self.drawable.display,
            draw: self.drawable.pixmap,
            read: self.drawable.pixmap,
            context: self.context.native(),
        }
    }

    /// Whether the driver's boolean result of making the context current
    /// means success; a failure is never ignored.
    pub fn current_made(result: i32) -> (r: Result<(), ShareError>)
        ensures
            r is Ok <==> result != 0,
            r is Err ==> r == Err::<(), ShareError>(ShareError::MakeCurrentFailed),
    {
        if result != 0 {
            Ok(())
        } else {
            Err(ShareError::MakeCurrentFailed)
        }
    }

    /// Gives the context's reference back; see `ContextTable::release`.
    pub fn release(self, table: &mut ContextTable) -> (r: Result<Option<NativeHandle>, ContextError>)
        ensures
            !ContextTable::holds(old(table)@, self.reference()) ==> r == Err::<
                Option<NativeHandle>,
                ContextError,
            >(ContextError::NotHeld) && final(table)@ == old(table)@,
            ContextTable::holds(old(table)@, self.reference()) ==> {
                let c = old(table)@[self.reference().0 as int].1;
                &&& final(table)@ == old(table)@.update(
                    self.reference().0 as int,
                    (self.reference().1, release_step(c).0),
                )
                &&& r == Ok::<Option<NativeHandle>, ContextError>(
                    if release_step(c).1 { Some(self.reference().1) } else { None },
                )
            },
    {
        table.release(self.context)
    }
}

} // verus!
