//! Names for the OpenGL enumerant values the library's descriptions use.
//!
//! The graphics API identifies draw primitives, data types, texture
//! parameters and attachment points by fixed integer codes.  The descriptor
//! types in this crate store those codes in plain `u32` fields; the constants
//! here give the codes their usual names so that contracts and tests can
//! speak about them.

use vstd::prelude::*;

verus! {

/// Draw primitive: separate triangles.
pub const TRIANGLES: u32 = 0x0004;

/// Buffer usage hint: written once, drawn many times.
pub const STATIC_DRAW: u32 = 0x88E4;

/// Scalar data type: 32-bit floating point.
pub const FLOAT: u32 = 0x1406;

/// Scalar data type: unsigned 8-bit integer.
pub const UNSIGNED_BYTE: u32 = 0x1401;

/// Scalar data type: unsigned 16-bit integer.
pub const UNSIGNED_SHORT: u32 = 0x1403;

/// Scalar data type: unsigned 32-bit integer.
pub const UNSIGNED_INT: u32 = 0x1405;

/// Pixel format with a red, a green and a blue channel.
pub const RGB: u32 = 0x1907;

/// Pixel format with a red, a green, a blue and an alpha channel.
pub const RGBA: u32 = 0x1908;

/// Pixel format holding a single depth channel.
pub const DEPTH_COMPONENT: u32 = 0x1902;

/// Texture wrapping mode: repeat the image.
pub const REPEAT: u32 = 0x2901;

/// Texture filtering mode: linear interpolation.
pub const LINEAR: u32 = 0x2601;

/// Texture target: ordinary 2D texture.
pub const TEXTURE_2D: u32 = 0x0DE1;

/// Texture target: multisampled 2D texture.
pub const TEXTURE_2D_MULTISAMPLE: u32 = 0x9100;

/// Attachment target: renderbuffer.
pub const RENDERBUFFER: u32 = 0x8D41;

/// Framebuffer attachment point: first colour attachment.
pub const COLOR_ATTACHMENT0: u32 = 0x8CE0;

/// Framebuffer attachment point: depth.
pub const DEPTH_ATTACHMENT: u32 = 0x8D00;

/// Framebuffer attachment point: combined depth and stencil.
pub const DEPTH_STENCIL_ATTACHMENT: u32 = 0x821A;

/// Shader stage: vertex shader.
pub const VERTEX_SHADER: u32 = 0x8B31;

/// Shader stage: fragment shader.
pub const FRAGMENT_SHADER: u32 = 0x8B30;

/// Shader stage: geometry shader.
pub const GEOMETRY_SHADER: u32 = 0x8DD9;

/// Shader stage: tessellation control shader.
pub const TESS_CONTROL_SHADER: u32 = 0x8E88;

/// Shader stage: tessellation evaluation shader.
pub const TESS_EVALUATION_SHADER: u32 = 0x8E87;

/// Shader stage: compute shader.
pub const COMPUTE_SHADER: u32 = 0x91B9;

} // verus!
