use vstd::prelude::*;

verus! {

/// A linked shader program name handed out by the renderer adapter.
/// Compiling and linking are the adapter's work; the toolkit only
/// carries the name.
#[derive(Clone, Copy, PartialEq, Eq, Structural, Debug)]
pub struct Program {
    program: u32,
}

impl View for Program {
    type V = u32;

    closed spec fn view(&self) -> u32 {
        self.program
    }
}

impl Program {
    /// Wrap a program name from the renderer adapter.
    pub fn from_raw(program: u32) -> (r: Program)
        ensures
            r@ == program,
    {
        Program { program }
    }

    /// The underlying program name.
    pub fn get(&self) -> (r: u32)
        ensures
            r == self@,
    {
        self.program
    }
}

} // verus!
