pub mod buffer;
pub mod errors;
pub mod geom;
pub mod image;
pub mod program;
pub mod shader;
pub mod texture;
pub mod ui;
pub mod vertex_array;
