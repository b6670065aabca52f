//! Video rendering: the MJPEG stream parser, JPEG decoding into RGBA, the
//! shaders and textures that show the frames, and the decisions of the
//! render loop.
//!
//! The window and the OpenGL calls are outside this library.
pub mod error;
pub mod mjpeg;
pub mod shader;
pub mod texture;
pub mod renderer;
