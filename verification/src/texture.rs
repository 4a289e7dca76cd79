use vstd::prelude::*;

verus! {

/// A texture object name handed out by the renderer adapter. The
/// toolkit only carries the name; creating, uploading and binding the
/// texture are the adapter's work.
#[derive(Clone, Copy, PartialEq, Eq, Structural, Debug)]
pub struct Texture {
    texture: u32,
}

impl View for Texture {
    type V = u32;

    closed spec fn view(&self) -> u32 {
        self.texture
    }
}

impl Texture {
    /// Wrap a texture name from the renderer adapter.
    pub fn from_raw(texture: u32) -> (r: Texture)
        ensures
            r@ == texture,
    {
        Texture { texture }
    }

    /// The underlying texture name.
    pub fn get(&self) -> (r: u32)
        ensures
            r == self@,
    {
        self.texture
    }
}

} // verus!
