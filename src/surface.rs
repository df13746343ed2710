use vstd::prelude::*;
use crate::geometry::Size2D;

verus! {

/// Bytes in one pixel of a shared surface (32 bits per pixel).
pub const BYTES_PER_ELEMENT: i32 = 4;

/// Why a render target could not be described or built.
#[derive(Clone, Copy, Debug, PartialEq, Eq, Structural)]
pub enum ShareError {
    /// A dimension is zero or negative.
    EmptySize,
    /// A dimension, or the row length in bytes, does not fit the driver's 32-bit fields.
    SizeTooLarge,
    /// The driver rejected the requested pixel format.
    PixelFormatRejected,
    /// The driver could not create a context.
    ContextCreationFailed,
    /// The driver could not make the context current.
    MakeCurrentFailed,
    /// The driver could not allocate the shared surface.
    SurfaceAllocationFailed,
    /// The driver could not create a framebuffer or texture object.
    ObjectCreationFailed,
    /// The driver could not back the texture with the surface.
    SurfaceBindingFailed,
    /// The framebuffer did not report completeness after the texture was attached.
    FramebufferIncomplete,
}

/// The attributes a shared-memory surface is allocated with.
#[derive(Clone, Copy, Debug, PartialEq, Eq, Structural)]
pub struct SurfaceDescriptor {
    pub width: i32,
    pub height: i32,
    pub bytes_per_row: i32,
    pub bytes_per_element: i32,
    /// Whether another process may look the surface up by its identifier.
    pub is_global: bool,
}

/// The largest value a 32-bit driver field holds.
pub open spec fn field_max() -> int {
    i32::MAX as int
}

/// Whether a surface of `size` can be described in the driver's 32-bit fields.
pub open spec fn size_fits(size: Size2D) -> bool {
    size.width * BYTES_PER_ELEMENT <= field_max() && size.height <= field_max()
}

/// The descriptor of a globally resolvable surface of exactly `size`, rows unpadded.
pub open spec fn descriptor_for(size: Size2D) -> SurfaceDescriptor {
    SurfaceDescriptor {
        width: size.width as i32,
        height: size.height as i32,
        bytes_per_row: (size.width * BYTES_PER_ELEMENT) as i32,
        bytes_per_element: BYTES_PER_ELEMENT,
        is_global: true,
    }
}

/// What describing a surface of `size` yields.
pub open spec fn describe_spec(size: Size2D) -> Result<SurfaceDescriptor, ShareError> {
    if !size.is_drawable() {
        Err(ShareError::EmptySize)
    } else if !size_fits(size) {
        Err(ShareError::SizeTooLarge)
    } else {
        Ok(descriptor_for(size))
    }
}

impl SurfaceDescriptor {
    /// Whether the descriptor is one that `describe` can produce.
    pub open spec fn is_valid(&self) -> bool {
        &&& self.width > 0
        &&& self.height > 0
        &&& self.bytes_per_element == BYTES_PER_ELEMENT
        &&& self.bytes_per_row == self.width * BYTES_PER_ELEMENT
        &&& self.is_global
    }
}

/// Describes the shared surface that backs a render target of `size`.
///
/// A zero or negative dimension is refused rather than replaced by some
/// fallback size, as is one that the driver's 32-bit fields cannot hold.
pub fn describe(size: Size2D) -> (r: Result<SurfaceDescriptor, ShareError>)
    ensures
        r == describe_spec(size),
        r is Ok ==> r->Ok_0.is_valid(),
{
    if size.width <= 0 || size.height <= 0 {
        return Err(ShareError::EmptySize);
    }
    if size.width > (i32::MAX / 4) as i64 || size.height > i32::MAX as i64 {
        return Err(ShareError::SizeTooLarge);
    }
    let width = size.width as i32;
    Ok(SurfaceDescriptor {
        width,
        height: size.height as i32,
        bytes_per_row: width * BYTES_PER_ELEMENT,
        bytes_per_element: BYTES_PER_ELEMENT,
        is_global: true,
    })
}

} // verus!
