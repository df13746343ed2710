use vstd::prelude::*;
use crate::gl::GlCall;

verus! {

/// A context for GL object sharing whose render target another process can
/// reach by an identifier.
pub trait ShareContext: Sized {
    /// The identifier the context's render target is known by.
    spec fn id_spec(&self) -> u32;

    /// The calls that a flush issues.
    spec fn flush_spec(&self) -> Seq<GlCall>;

    /// The GL calls that make every command submitted so far complete.
    fn flush(&self) -> (calls: Vec<GlCall>)
        ensures
            calls@ == self.flush_spec();

    /// The platform-specific identifier that other processes use to reach the
    /// shared resources, for as long as this context lives.
    fn id(&self) -> (r: u32)
        ensures
            r == self.id_spec();
}

} // verus!
