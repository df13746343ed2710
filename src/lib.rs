//! Creation and sharing of offscreen GPU rendering contexts.
//!
//! The native driver is never called from here. The library holds the
//! decisions: which resources a shareable render target needs and in what
//! order, which GL calls configure them, how native context handles are
//! reference counted, and which identifier a surface is known by. A platform
//! layer performs the native calls that the library asks for.

pub mod base;
pub mod builder;
pub mod context;
pub mod geometry;
pub mod gl;
pub mod glx;
pub mod platform;
pub mod refcount;
pub mod surface;
