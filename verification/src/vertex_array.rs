use vstd::prelude::*;

verus! {

/// A vertex array name handed out by the renderer adapter. Binding and
/// attribute layout are the adapter's work.
#[derive(Clone, Copy, PartialEq, Eq, Structural, Debug)]
pub struct VertexArray {
    vertex_array: u32,
}

impl View for VertexArray {
    type V = u32;

    closed spec fn view(&self) -> u32 {
        self.vertex_array
    }
}

impl VertexArray {
    /// Wrap a vertex array name from the renderer adapter.
    pub fn from_raw(vertex_array: u32) -> (r: VertexArray)
        ensures
            r@ == vertex_array,
    {
        VertexArray { vertex_array }
    }

    /// The underlying vertex array name.
    pub fn get(&self) -> (r: u32)
        ensures
            r == self@,
    {
        self.vertex_array
    }
}

} // verus!
