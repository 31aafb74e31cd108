//! Building blocks for the OpenGL tutorial programs: a shader program
//! build pipeline, modelled as a state machine the render driver steps
//! through, and a minimal uncompressed bitmap decoder.

pub mod bmp;
pub mod shader;
