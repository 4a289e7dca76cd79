use vstd::prelude::*;

verus! {

/// A compiled shader name handed out by the renderer adapter.
#[derive(Clone, Copy, PartialEq, Eq, Structural, Debug)]
pub struct Shader {
    shader: u32,
}

impl View for Shader {
    type V = u32;

    closed spec fn view(&self) -> u32 {
        self.shader
    }
}

impl Shader {
    /// Wrap a shader name from the renderer adapter.
    pub fn from_raw(shader: u32) -> (r: Shader)
        ensures
            r@ == shader,
    {
        Shader { shader }
    }

    /// The underlying shader name.
    pub fn get(&self) -> (r: u32)
        ensures
            r == self@,
    {
        self.shader
    }
}

} // verus!
