//! Building blocks of a small OpenGL renderer.
//!
//! The graphics driver is reached only by the program around this library:
//! here every step of the pipeline (compiling and linking shaders, filling
//! vertex buffers, uploading a texture, drawing a frame) is a function from
//! plain values to the exact list of driver commands to issue, or to the
//! error that stops the pipeline.
pub mod binding;
pub mod command;
pub mod frame;
pub mod mesh;
pub mod shader;
pub mod texture;
