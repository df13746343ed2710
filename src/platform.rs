use vstd::prelude::*;
use crate::base::ShareContext;
use crate::builder::{RenderTarget, Resources};
use crate::geometry::Size2D;
use crate::gl::{flush_calls, GlCall};
use crate::refcount::{release_step, ContextError, ContextTable, SharedContext};

verus! {

/// A render target on the shared-memory-surface platform: a counted context,
/// a globally resolvable surface, and a framebuffer drawing into a texture
/// backed by that surface.
#[derive(Debug)]
pub struct MacContext {
    context: SharedContext,
    surface: u32,
    framebuffer: u32,
    texture: u32,
}

pub type Context = MacContext;

impl MacContext {
    /// The counted context reference the target holds.
    pub closed spec fn reference(&self) -> (nat, u64) {
        self.context@
    }

    /// The native resources, other than the context, that the target owns.
    pub closed spec fn objects(&self) -> (u32, u32, u32) {
        (self.surface, self.framebuffer, self.texture)
    }

    /// Takes ownership of a finished render target; its context gets its first counted reference.
    pub fn assemble(table: &mut ContextTable, target: RenderTarget) -> (r: MacContext)
        ensures
            final(table)@ == old(table)@.push((target.context, 1nat)),
            r.reference() == (old(table)@.len(), target.context),
            r.objects() == (target.surface, target.framebuffer, target.texture),
            r.id_spec() == target.surface,
    {
        MacContext {
            context: table.adopt(target.context),
            surface: target.surface,
            framebuffer: target.framebuffer,
            texture: target.texture,
        }
    }

    /// Takes the target apart. The surface, framebuffer and texture are handed
    /// back for release; the context only when this was its last reference.
    pub fn release(self, table: &mut ContextTable) -> (r: Result<Resources, ContextError>)
        ensures
            !ContextTable::holds(old(table)@, self.reference()) ==> r == Err::<Resources, ContextError>(
                ContextError::NotHeld,
            ) && final(table)@ == old(table)@,
            ContextTable::holds(old(table)@, self.reference()) ==> {
                let c = old(table)@[self.reference().0 as int].1;
                &&& final(table)@ == old(table)@.update(
                    self.reference().0 as int,
                    (self.reference().1, release_step(c).0),
                )
                &&& r == Ok::<Resources, ContextError>(
                    Resources {
                        context: if release_step(c).1 { Some(self.reference().1) } else { None },
                        surface: Some(self.objects().0),
                        framebuffer: Some(self.objects().1),
                        texture: Some(self.objects().2),
                    },
                )
            },
    {
        let surface = self.surface;
        let framebuffer = self.framebuffer;
        let texture = self.texture;
        match table.release(self.context) {
            Ok(context) => Ok(
                Resources {
                    context,
                    surface: Some(surface),
                    framebuffer: Some(framebuffer),
                    texture: Some(texture),
                },
            ),
            Err(e) => Err(e),
        }
    }
}

impl ShareContext for MacContext {
    closed spec fn id_spec(&self) -> u32 {
        self.surface
    }

    open spec fn flush_spec(&self) -> Seq<GlCall> {
        flush_calls()
    }

    fn flush(&self) -> (calls: Vec<GlCall>) {
        let calls = vec![GlCall::Finish];
        proof {
            assert(calls@ =~= flush_calls());
        }
        calls
    }

    fn id(&self) -> (r: u32) {
        self.surface
    }
}

/// The context of platforms without shared surfaces: every operation
/// succeeds and does nothing.
#[derive(Clone, Copy, Debug)]
pub struct DummyContext {
    _unused: u32,
}

impl DummyContext {
    /// A dummy context; the size is not looked at.
    pub fn new(_size: Size2D) -> (r: DummyContext)
        ensures
            r.id_spec() == 0,
            r.flush_spec() == Seq::<GlCall>::empty(),
    {
        DummyContext { _unused: 0 }
    }
}

impl ShareContext for DummyContext {
    open spec fn id_spec(&self) -> u32 {
        0
    }

    open spec fn flush_spec(&self) -> Seq<GlCall> {
        Seq::empty()
    }

    fn flush(&self) -> (calls: Vec<GlCall>) {
        Vec::new()
    }

    fn id(&self) -> (r: u32) {
        0
    }
}

} // verus!
