//! A texture as this layer sees it: the driver handle it is bound by.

use vstd::prelude::*;

verus! {

/// A texture resident on the driver, by handle; 0 for none.
#[derive(Debug, Clone, Copy, PartialEq, Eq, Structural)]
pub struct Texture {
    /// The driver handle of the texture, 0 for none
    pub handle: u32,
}

impl Texture {
    /// A texture known to the driver by `handle`.
    pub fn new(handle: u32) -> (r: Self)
        ensures
            r.handle == handle,
    {
        Self { handle }
    }

    /// The driver handle of the texture.
    pub fn gl_texture(&self) -> (r: u32)
        ensures
            r == self.handle,
    {
        self.handle
    }
}

impl Default for Texture {
    /// The default names no texture.
    fn default() -> (r: Self)
        ensures
            r.handle == 0,
    {
        Self { handle: 0 }
    }
}

} // verus!
