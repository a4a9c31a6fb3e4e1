//! The construction-time failures of this layer.

use vstd::prelude::*;

verus! {

/// Why building a GPU-side resource failed.
///
/// Per-frame operations never fail this way: a uniform or texture role a
/// program does not use is skipped silently. These errors arise only while
/// resources are being built, and are returned to the caller, who decides
/// whether to abort or to skip the renderable.
#[derive(Debug, Clone, PartialEq)]
pub enum GlError {
    /// A configuration-declared attribute, uniform, uniform-block or texture
    /// name was not found in the linked program; carries that name.
    NameResolution(String),
    /// An index accessor declared a floating-point element type.
    InvalidElementType,
    /// A buffer view already realized as one kind was asked to become the
    /// other kind.
    ViewKindMismatch,
}

impl GlError {
    /// A short description, for the host to log or display.
    pub fn describe(&self) -> (r: &'static str)
        ensures
            r@ == match *self {
                GlError::NameResolution(_) => "name not found in program"@,
                GlError::InvalidElementType => "indices must have an integer element type"@,
                GlError::ViewKindMismatch => "buffer view is already realized as the other kind"@,
            },
    {
        match self {
            GlError::NameResolution(_) => "name not found in program",
            GlError::InvalidElementType => "indices must have an integer element type",
            GlError::ViewKindMismatch => "buffer view is already realized as the other kind",
        }
    }
}

} // verus!
