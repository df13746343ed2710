//! A platform-independent interface to 3D graphics contexts.

use vstd::prelude::*;
use crate::builder::{Outcome, Request};
use crate::refcount::{retain_step, ContextError, ContextTable, NativeHandle, SharedContext};
use crate::surface::ShareError;

verus! {

pub const CGL_PFA_DOUBLE_BUFFER: i32 = 5;
pub const CGL_PFA_COMPLIANT: i32 = 83;

/// The pixel format every new context asks for: double-buffered and
/// compliant, zero-terminated.
pub open spec fn cgl_attributes_spec() -> Seq<i32> {
    seq![CGL_PFA_DOUBLE_BUFFER, CGL_PFA_COMPLIANT, 0]
}

/// The attribute list handed to pixel-format negotiation.
pub fn cgl_pixel_format_attributes() -> (r: Vec<i32>)
    ensures
        r@ == cgl_attributes_spec(),
{
    let r = vec![CGL_PFA_DOUBLE_BUFFER, CGL_PFA_COMPLIANT, 0];
    proof {
        assert(r@ =~= cgl_attributes_spec());
    }
    r
}

/// How a new native context is to be created: after the fixed pixel format
/// has been negotiated, with or without a context to share objects with.
#[derive(Clone, Copy, Debug, PartialEq, Eq, Structural)]
pub struct ContextRequest {
    pub share: Option<NativeHandle>,
}

impl ContextRequest {
    pub open spec fn create_spec(&self, pixel_format: Outcome) -> Result<Request, ShareError> {
        match pixel_format {
            Outcome::Handle(pf) if pf != 0 => Ok(
                Request::CreateContext { pixel_format: pf, share: self.share },
            ),
            _ => Err(ShareError::PixelFormatRejected),
        }
    }

    /// The creation request to perform once pixel-format negotiation has
    /// reported `pixel_format`; a rejected or null format ends the creation.
    pub fn create(&self, pixel_format: Outcome) -> (r: Result<Request, ShareError>)
        ensures
            r == self.create_spec(pixel_format),
    {
        match pixel_format {
            Outcome::Handle(pf) if pf != 0 => Ok(
                Request::CreateContext { pixel_format: pf, share: self.share },
            ),
            _ => Err(ShareError::PixelFormatRejected),
        }
    }
}

/// What a context creation reports: the new handle, unless it failed or is null.
pub open spec fn created_spec(o: Outcome) -> Result<NativeHandle, ShareError> {
    match o {
        Outcome::Handle(c) => if c != 0 {
            Ok(c)
        } else {
            Err(ShareError::ContextCreationFailed)
        },
        _ => Err(ShareError::ContextCreationFailed),
    }
}

/// Platform-independent interface to 3D graphics contexts.
///
/// A context holds one counted reference to its native handle. Native work
/// is described by requests that the platform performs.
pub trait GraphicsContextMethods: Sized {
    /// The counted reference the context holds.
    spec fn reference(&self) -> (nat, NativeHandle);

    /// Wraps a counted reference to a native context; no context is created.
    fn wrap(instance: SharedContext) -> (r: Self)
        ensures
            r.reference() == instance@;

    /// A new counted reference to the underlying native context.
    fn native(&self, table: &mut ContextTable) -> (r: Result<SharedContext, ContextError>)
        ensures
            !ContextTable::holds(old(table)@, self.reference()) ==> r == Err::<
                SharedContext,
                ContextError,
            >(ContextError::NotHeld) && final(table)@ == old(table)@,
            ContextTable::holds(old(table)@, self.reference()) ==> {
                let c = old(table)@[self.reference().0 as int].1;
                &&& final(table)@ == old(table)@.update(
                    self.reference().0 as int,
                    (self.reference().1, retain_step(c)),
                )
                &&& c < u64::MAX ==> r is Ok && r->Ok_0@ == self.reference()
                &&& c == u64::MAX ==> r == Err::<SharedContext, ContextError>(
                    ContextError::CountOverflow,
                )
            };

    /// How to create a new, independent offscreen context.
    fn new() -> (r: ContextRequest)
        ensures
            r.share == None::<NativeHandle>;

    /// How to create a new offscreen context that shares textures, buffers
    /// and programs with `share_context`.
    fn new_shared(share_context: &Self) -> (r: ContextRequest)
        ensures
            r.share == Some(share_context.reference().1);

    /// The request that makes this context current on the calling thread.
    fn make_current(&self) -> (r: Request)
        ensures
            r == (Request::MakeCurrent { context: self.reference().1 });
}

/// A context of the shared-memory-surface platform.
#[derive(Debug)]
pub struct GraphicsContext {
    context: SharedContext,
}

impl GraphicsContextMethods for GraphicsContext {
    closed spec fn reference(&self) -> (nat, NativeHandle) {
        self.context@
    }

    fn wrap(instance: SharedContext) -> (r: GraphicsContext) {
        GraphicsContext { context: instance }
    }

    fn native(&self, table: &mut ContextTable) -> (r: Result<SharedContext, ContextError>) {
        table.retain(&self.context)
    }

    fn new() -> (r: ContextRequest) {
        ContextRequest { share: None }
    }

    fn new_shared(share_context: &GraphicsContext) -> (r: ContextRequest) {
        ContextRequest { share: Some(share_context.context.native()) }
    }

    fn make_current(&self) -> (r: Request) {
        Request::MakeCurrent { context: self.context.native() }
    }
}

impl GraphicsContext {
    /// Takes ownership of the context whose creation reported `o`.
    pub fn created(table: &mut ContextTable, o: Outcome) -> (r: Result<GraphicsContext, ShareError>)
        ensures
            created_spec(o) is Err ==> r == Err::<GraphicsContext, ShareError>(
                ShareError::ContextCreationFailed,
            ) && final(table)@ == old(table)@,
            created_spec(o) is Ok ==> r is Ok && final(table)@ == old(table)@.push(
                (created_spec(o)->Ok_0, 1nat),
            ) && r->Ok_0.reference() == (old(table)@.len(), created_spec(o)->Ok_0),
    {
        match o {
            Outcome::Handle(c) => if c != 0 {
                let g = GraphicsContext::wrap(table.adopt(c));
                Ok(g)
            } else {
                Err(ShareError::ContextCreationFailed)
            },
            _ => Err(ShareError::ContextCreationFailed),
        }
    }

    /// Whether making the context current succeeded; a failure is never ignored.
    pub fn current_made(o: Outcome) -> (r: Result<(), ShareError>)
        ensures
            r is Ok <==> o == Outcome::Done,
            r is Err ==> r == Err::<(), ShareError>(ShareError::MakeCurrentFailed),
    {
        match o {
            Outcome::Done => Ok(()),
            _ => Err(ShareError::MakeCurrentFailed),
        }
    }

    /// Another context holding a new counted reference to the same native handle.
    pub fn clone_in(&self, table: &mut ContextTable) -> (r: Result<GraphicsContext, ContextError>)
        ensures
            !ContextTable::holds(old(table)@, self.reference()) ==> r == Err::<
                GraphicsContext,
                ContextError,
            >(ContextError::NotHeld) && final(table)@ == old(table)@,
            ContextTable::holds(old(table)@, self.reference()) ==> {
                let c = old(table)@[self.reference().0 as int].1;
                &&& final(table)@ == old(table)@.update(
                    self.reference().0 as int,
                    (self.reference().1, retain_step(c)),
                )
                &&& c < u64::MAX ==> r is Ok && r->Ok_0.reference() == self.reference()
                &&& c == u64::MAX ==> r == Err::<GraphicsContext, ContextError>(
                    ContextError::CountOverflow,
                )
            },
    {
        match self.native(table) {
            Ok(n) => Ok(GraphicsContext::wrap(n)),
            Err(e) => Err(e),
        }
    }

    /// Gives the context's reference back; see `ContextTable::release`.
    pub fn release(self, table: &mut ContextTable) -> (r: Result<Option<NativeHandle>, ContextError>)
        ensures
            !ContextTable::holds(old(table)@, self.reference()) ==> r == Err::<
                Option<NativeHandle>,
                ContextError,
            >(ContextError::NotHeld) && final(table)@ == old(table)@,
            ContextTable::holds(old(table)@, self.reference()) ==> {
                let c = old(table)@[self.reference().0 as int].1;
                &&& final(table)@ == old(table)@.update(
                    self.reference().0 as int,
                    (self.reference().1, crate::refcount::release_step(c).0),
                )
                &&& r == Ok::<Option<NativeHandle>, ContextError>(
                    if crate::refcount::release_step(c).1 { Some(self.reference().1) } else { None },
                )
            },
    {
        table.release(self.context)
    }
}

/// A context created from `new_shared(other)` names `other`'s native handle
/// as the one to share objects with, so objects created in it are visible
/// from `other`.
pub proof fn lemma_shared_creation_names_other(other: NativeHandle, pixel_format: NativeHandle)
    requires
        pixel_format != 0,
    ensures
        (ContextRequest { share: Some(other) }).create_spec(Outcome::Handle(pixel_format)) == Ok::<
            Request,
            ShareError,
        >(Request::CreateContext { pixel_format, share: Some(other) }),
{
}

} // verus!
