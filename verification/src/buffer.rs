use vstd::prelude::*;

verus! {

/// A vertex or index buffer name handed out by the renderer adapter.
/// Uploading data into it is the adapter's work.
#[derive(Clone, Copy, PartialEq, Eq, Structural, Debug)]
pub struct Buffer {
    buffer: u32,
}

impl View for Buffer {
    type V = u32;

    closed spec fn view(&self) -> u32 {
        self.buffer
    }
}

impl Buffer {
    /// Wrap a buffer name from the renderer adapter.
    pub fn from_raw(buffer: u32) -> (r: Buffer)
        ensures
            r@ == buffer,
    {
        Buffer { buffer }
    }

    /// The underlying buffer name.
    pub fn get(&self) -> (r: u32)
        ensures
            r == self@,
    {
        self.buffer
    }
}

} // verus!
