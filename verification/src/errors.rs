use vstd::prelude::*;

verus! {

/// Construction-time failures. Runtime event handling and layout never
/// fail; only building things (a platform window, a shader, a program,
/// an image) can, and the description the failing layer produced rides
/// along as text.
#[derive(Clone, PartialEq, Eq, Debug)]
pub enum Error {
    InitError(String),
    CreateWindowError,
    ReadFileError(String),
    CompileShaderError(String),
    CompileProgramError(String),
    ImageError(String),
}

impl Error {
    /// A short, fixed summary of what failed, as the prefix of any
    /// report shown to the user.
    pub fn summary(&self) -> (r: &'static str)
        ensures
            r@ == match self {
                Error::InitError(_) => "Failed to initialize glfw"@,
                Error::CreateWindowError => "Failed to create GLFW window"@,
                Error::ReadFileError(_) => "Failed to read file"@,
                Error::CompileShaderError(_) => "Failed to compile shader"@,
                Error::CompileProgramError(_) => "Failed to compile program"@,
                Error::ImageError(_) => "Failed to open image"@,
            },
    {
        match self {
            Error::InitError(_) => "Failed to initialize glfw",
            Error::CreateWindowError => "Failed to create GLFW window",
            Error::ReadFileError(_) => "Failed to read file",
            Error::CompileShaderError(_) => "Failed to compile shader",
            Error::CompileProgramError(_) => "Failed to compile program",
            Error::ImageError(_) => "Failed to open image",
        }
    }

    /// The description the failing layer produced, if it produced one.
    pub fn description(&self) -> (r: Option<&String>)
        ensures
            (self matches Error::InitError(d) ==> (r matches Some(s) && s@ == d@)),
            (self matches Error::CreateWindowError ==> r is None),
            (self matches Error::ReadFileError(d) ==> (r matches Some(s) && s@ == d@)),
            (self matches Error::CompileShaderError(d) ==> (r matches Some(s) && s@ == d@)),
            (self matches Error::CompileProgramError(d) ==> (r matches Some(s) && s@ == d@)),
            (self matches Error::ImageError(d) ==> (r matches Some(s) && s@ == d@)),
    {
        match self {
            Error::InitError(d) => Some(d),
            Error::CreateWindowError => None,
            Error::ReadFileError(d) => Some(d),
            Error::CompileShaderError(d) => Some(d),
            Error::CompileProgramError(d) => Some(d),
            Error::ImageError(d) => Some(d),
        }
    }
}

} // verus!
