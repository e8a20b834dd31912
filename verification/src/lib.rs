//! The decisions and the data of a small renderer that draws one textured
//! pentagon: the mesh and its buffers, the descriptors of the pipeline, the
//! size of the surface, and the state machine that answers window events.
//! Opening the window and talking to the GPU are left to the caller.

pub mod vertex;
pub mod buffer;
pub mod shader;
pub mod binding;
pub mod pipeline;
pub mod graphics;
pub mod app;
