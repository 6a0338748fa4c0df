//! An object-oriented model of an OpenGL rendering toolkit.
//!
//! The crate keeps a plain-data description of every GPU object a renderer
//! works with: buffers, vertex layouts, textures, framebuffers, shaders and
//! meshes.  Builder-style methods assemble and mutate these descriptions, and
//! their contracts state exactly which fields each call touches.  A thin
//! unverified layer elsewhere replays the recorded state through the graphics
//! driver; everything the library itself computes is proved here.

pub mod buffers;
pub mod file_handlers;
pub mod framebuffer;
pub mod glenum;
pub mod math;
pub mod mesh;
pub mod off;
pub mod shader;
pub mod textures;
pub mod types;
pub mod window;
