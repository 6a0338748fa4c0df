//! Descriptions of textures and renderbuffers.
//!
//! A texture is known by the id the driver assigned it and by the sampling
//! and format parameters its builder set; the description is what the
//! driver-facing layer replays when it builds and buffers the real object.
//! `export` names the pixel layout in which a texture's contents can be
//! read back, from its format and data type alone, and `replicate_channel`
//! widens a single-channel readback to three channels.

use vstd::prelude::*;

use crate::glenum;
use crate::types::{HasID, Texture};

verus! {

/// 2D texture.
#[derive(Clone, Copy, Debug)]
pub struct Texture2D {
    /// Unique id the driver assigned the object.
    pub id: u32,
    /// Slot to which the image is bound.
    pub tex_num: u32,
    /// Internal format of the data.
    pub internal_format: u32,
    /// Format of the data.
    pub format: u32,
    /// Type of the data.
    pub data_type: u32,
    /// Method to use for S wrapping.
    pub wrap_s: u32,
    /// Method to use for T wrapping.
    pub wrap_t: u32,
    /// Method to use for R wrapping.
    pub wrap_r: u32,
    /// Method for min filter.
    pub min_filter: u32,
    /// Method for mag filter.
    pub mag_filter: u32,
}

impl HasID for Texture2D {
    open spec fn spec_id(&self) -> u32 {
        self.id
    }

    fn get_id(&self) -> (r: u32)
        ensures
            r == self.spec_id(),
    {
        self.id
    }
}

impl Texture for Texture2D {

}

/// The parameters a fresh texture description starts from: slot zero,
/// byte-sized RGB data, repeat wrapping and linear filtering.
pub open spec fn spec_default_texture_params(
    tex_num: u32,
    internal_format: u32,
    format: u32,
    data_type: u32,
    wrap_s: u32,
    wrap_t: u32,
    wrap_r: u32,
    min_filter: u32,
    mag_filter: u32,
) -> bool {
    &&& tex_num == 0
    &&& internal_format == glenum::RGB
    &&& format == glenum::RGB
    &&& data_type == glenum::UNSIGNED_BYTE
    &&& wrap_s == glenum::REPEAT
    &&& wrap_t == glenum::REPEAT
    &&& wrap_r == glenum::REPEAT
    &&& min_filter == glenum::LINEAR
    &&& mag_filter == glenum::LINEAR
}

impl Texture2D {
    /// Describe a new texture with default parameters from the id the
    /// driver assigned it.
    pub fn new(id: u32) -> (t: Self)
        ensures
            t.spec_id() == id,
            spec_default_texture_params(
                t.tex_num,
                t.internal_format,
                t.format,
                t.data_type,
                t.wrap_s,
                t.wrap_t,
                t.wrap_r,
                t.min_filter,
                t.mag_filter,
            ),
    {
        Texture2D {
            id,
            tex_num: 0,
            internal_format: glenum::RGB,
            format: glenum::RGB,
            data_type: glenum::UNSIGNED_BYTE,
            wrap_s: glenum::REPEAT,
            wrap_t: glenum::REPEAT,
            wrap_r: glenum::REPEAT,
            min_filter: glenum::LINEAR,
            mag_filter: glenum::LINEAR,
        }
    }

    /// Change the slot of the texture.
    pub fn tex_num(self, new_bind: u32) -> (r: Self)
        ensures
            r == (Texture2D { tex_num: new_bind, ..self }),
    {
        Texture2D { tex_num: new_bind, ..self }
    }

    /// Change the internal format of the texture.
    pub fn internal_format(self, new_format: u32) -> (r: Self)
        ensures
            r == (Texture2D { internal_format: new_format, ..self }),
    {
        Texture2D { internal_format: new_format, ..self }
    }

    /// Change the format of the texture.
    pub fn format(self, new_format: u32) -> (r: Self)
        ensures
            r == (Texture2D { format: new_format, ..self }),
    {
        Texture2D { format: new_format, ..self }
    }

    /// Change the S wrapping method.
    pub fn wrap_s(self, new_wrap: u32) -> (r: Self)
        ensures
            r == (Texture2D { wrap_s: new_wrap, ..self }),
    {
        Texture2D { wrap_s: new_wrap, ..self }
    }

    /// Change the T wrapping method.
    pub fn wrap_t(self, new_wrap: u32) -> (r: Self)
        ensures
            r == (Texture2D { wrap_t: new_wrap, ..self }),
    {
        Texture2D { wrap_t: new_wrap, ..self }
    }

    /// Change the R wrapping method.
    pub fn wrap_r(self, new_wrap: u32) -> (r: Self)
        ensures
            r == (Texture2D { wrap_r: new_wrap, ..self }),
    {
        Texture2D { wrap_r: new_wrap, ..self }
    }

    /// Change the min filtering method.
    pub fn min_filter(self, new_filter: u32) -> (r: Self)
        ensures
            r == (Texture2D { min_filter: new_filter, ..self }),
    {
        Texture2D { min_filter: new_filter, ..self }
    }

    /// Change the max filtering method.
    pub fn mag_filter(self, new_filter: u32) -> (r: Self)
        ensures
            r == (Texture2D { mag_filter: new_filter, ..self }),
    {
        Texture2D { mag_filter: new_filter, ..self }
    }

    /// Name the pixel layout in which the texture's contents can be read
    /// back, from its format and data type, if the pair supports export.
    pub fn export(&self) -> (r: Option<ExportKind>)
        ensures
            r == spec_export_kind(self.format, self.data_type),
    {
        if self.format == glenum::DEPTH_COMPONENT {
            if self.data_type == glenum::UNSIGNED_BYTE {
                Some(ExportKind::DepthU8)
            } else {
                None
            }
        } else if self.format == glenum::RGB {
            if self.data_type == glenum::UNSIGNED_BYTE {
                Some(ExportKind::RgbU8)
            } else if self.data_type == glenum::UNSIGNED_SHORT {
                Some(ExportKind::RgbU16)
            } else if self.data_type == glenum::FLOAT {
                Some(ExportKind::RgbF32)
            } else {
                None
            }
        } else if self.format == glenum::RGBA {
            if self.data_type == glenum::UNSIGNED_BYTE {
                Some(ExportKind::RgbaU8)
            } else if self.data_type == glenum::UNSIGNED_SHORT {
                Some(ExportKind::RgbaU16)
            } else if self.data_type == glenum::FLOAT {
                Some(ExportKind::RgbaF32)
            } else {
                None
            }
        } else {
            None
        }
    }
}

impl Default for Texture2D {
    /// A texture description with id zero and the default parameters.
    fn default() -> (t: Self)
        ensures
            t.spec_id() == 0,
            spec_default_texture_params(
                t.tex_num,
                t.internal_format,
                t.format,
                t.data_type,
                t.wrap_s,
                t.wrap_t,
                t.wrap_r,
                t.min_filter,
                t.mag_filter,
            ),
    {
        Texture2D::new(0)
    }
}

/// The pixel layout in which a texture's contents are read back.
#[derive(Clone, Copy, Debug, PartialEq, Eq, Structural)]
pub enum ExportKind {
    /// One depth byte per pixel, widened to three channels on save.
    DepthU8,
    /// Three bytes per pixel.
    RgbU8,
    /// Four bytes per pixel.
    RgbaU8,
    /// Three 16-bit words per pixel.
    RgbU16,
    /// Four 16-bit words per pixel.
    RgbaU16,
    /// Three 32-bit floating-point values per pixel.
    RgbF32,
    /// Four 32-bit floating-point values per pixel.
    RgbaF32,
}

/// The export layout a format and data type pair calls for: depth bytes,
/// or RGB and RGBA pixels of bytes, 16-bit words or 32-bit floating-point
/// values.  Every other pair has no export.
pub open spec fn spec_export_kind(format: u32, data_type: u32) -> Option<ExportKind> {
    if format == glenum::DEPTH_COMPONENT {
        if data_type == glenum::UNSIGNED_BYTE {
            Some(ExportKind::DepthU8)
        } else {
            None
        }
    } else if format == glenum::RGB {
        if data_type == glenum::UNSIGNED_BYTE {
            Some(ExportKind::RgbU8)
        } else if data_type == glenum::UNSIGNED_SHORT {
            Some(ExportKind::RgbU16)
        } else if data_type == glenum::FLOAT {
            Some(ExportKind::RgbF32)
        } else {
            None
        }
    } else if format == glenum::RGBA {
        if data_type == glenum::UNSIGNED_BYTE {
            Some(ExportKind::RgbaU8)
        } else if data_type == glenum::UNSIGNED_SHORT {
            Some(ExportKind::RgbaU16)
        } else if data_type == glenum::FLOAT {
            Some(ExportKind::RgbaF32)
        } else {
            None
        }
    } else {
        None
    }
}

/// The number of scalars a readback of the window needs: the channel count
/// times the window's width times its height.
pub fn export_buffer_len(window: (i32, i32, i32, i32), channels: u32) -> (r: usize)
    requires
        window.0 <= window.2,
        window.1 <= window.3,
        channels * (window.2 - window.0) * (window.3 - window.1) <= usize::MAX,
    ensures
        r == channels * (window.2 - window.0) * (window.3 - window.1),
{
    let width = (window.2 as i64) - (window.0 as i64);
    let height = (window.3 as i64) - (window.1 as i64);
    proof {
        crate::math::lemma_mul_bound(channels as int, width as int, 0xFFFF_FFFF);
    }
    let cw = (channels as u64) * (width as u64);
    let total = cw * (height as u64);
    total as usize
}

/// Repeat a single-channel pixel buffer three times, turning depth data
/// into the three equal channels an RGB save expects.
pub fn replicate_channel(data: &Vec<u8>) -> (r: Vec<u8>)
    requires
        data@.len() * 3 <= usize::MAX,
    ensures
        r@ == data@ + data@ + data@,
{
    let mut r: Vec<u8> = Vec::new();
    let mut round: usize = 0;
    while round < 3
        invariant
            round <= 3,
            data@.len() * 3 <= usize::MAX,
            r@.len() == data@.len() * round,
            round == 0 ==> r@ =~= Seq::<u8>::empty(),
            round == 1 ==> r@ =~= data@,
            round == 2 ==> r@ =~= data@ + data@,
            round == 3 ==> r@ =~= data@ + data@ + data@,
        decreases 3 - round,
    {
        let mut i: usize = 0;
        let ghost start = r@;
        while i < data.len()
            invariant
                i <= data@.len(),
                start.len() + data@.len() <= usize::MAX,
                r@ =~= start + data@.subrange(0, i as int),
            decreases data@.len() - i,
        {
            r.push(data[i]);
            proof {
                assert(data@.subrange(0, i as int).push(data@[i as int]) =~= data@.subrange(
                    0,
                    i as int + 1,
                ));
            }
            i = i + 1;
        }
        proof {
            assert(data@.subrange(0, data@.len() as int) =~= data@);
        }
        round = round + 1;
    }
    r
}

/// Cube map texture: six square images sampled by direction.
#[derive(Clone, Copy, Debug)]
pub struct CubeMapTexture {
    /// Unique id the driver assigned the object.
    pub id: u32,
    /// Slot to which the image is bound.
    pub tex_num: u32,
    /// Internal format of the data.
    pub internal_format: u32,
    /// Format of the data.
    pub format: u32,
    /// Type of the data.
    pub data_type: u32,
    /// Method to use for S wrapping.
    pub wrap_s: u32,
    /// Method to use for T wrapping.
    pub wrap_t: u32,
    /// Method to use for R wrapping.
    pub wrap_r: u32,
    /// Method for min filter.
    pub min_filter: u32,
    /// Method for mag filter.
    pub mag_filter: u32,
}

impl HasID for CubeMapTexture {
    open spec fn spec_id(&self) -> u32 {
        self.id
    }

    fn get_id(&self) -> (r: u32)
        ensures
            r == self.spec_id(),
    {
        self.id
    }
}

impl Texture for CubeMapTexture {

}

impl CubeMapTexture {
    /// Describe a new cube map with default parameters from the id the
    /// driver assigned it.
    pub fn new(id: u32) -> (t: Self)
        ensures
            t.spec_id() == id,
            spec_default_texture_params(
                t.tex_num,
                t.internal_format,
                t.format,
                t.data_type,
                t.wrap_s,
                t.wrap_t,
                t.wrap_r,
                t.min_filter,
                t.mag_filter,
            ),
    {
        CubeMapTexture {
            id,
            tex_num: 0,
            internal_format: glenum::RGB,
            format: glenum::RGB,
            data_type: glenum::UNSIGNED_BYTE,
            wrap_s: glenum::REPEAT,
            wrap_t: glenum::REPEAT,
            wrap_r: glenum::REPEAT,
            min_filter: glenum::LINEAR,
            mag_filter: glenum::LINEAR,
        }
    }

    /// Change the slot of the texture.
    pub fn tex_num(self, new_bind: u32) -> (r: Self)
        ensures
            r == (CubeMapTexture { tex_num: new_bind, ..self }),
    {
        CubeMapTexture { tex_num: new_bind, ..self }
    }

    /// Change the internal format of the texture.
    pub fn internal_format(self, new_format: u32) -> (r: Self)
        ensures
            r == (CubeMapTexture { internal_format: new_format, ..self }),
    {
        CubeMapTexture { internal_format: new_format, ..self }
    }

    /// Change the format of the texture.
    pub fn format(self, new_format: u32) -> (r: Self)
        ensures
            r == (CubeMapTexture { format: new_format, ..self }),
    {
        CubeMapTexture { format: new_format, ..self }
    }

    /// Change the type of the texture's data.
    pub fn data_type(self, new_type: u32) -> (r: Self)
        ensures
            r == (CubeMapTexture { data_type: new_type, ..self }),
    {
        CubeMapTexture { data_type: new_type, ..self }
    }

    /// Change the S wrapping method.
    pub fn wrap_s(self, new_wrap: u32) -> (r: Self)
        ensures
            r == (CubeMapTexture { wrap_s: new_wrap, ..self }),
    {
        CubeMapTexture { wrap_s: new_wrap, ..self }
    }

    /// Change the T wrapping method.
    pub fn wrap_t(self, new_wrap: u32) -> (r: Self)
        ensures
            r == (CubeMapTexture { wrap_t: new_wrap, ..self }),
    {
        CubeMapTexture { wrap_t: new_wrap, ..self }
    }

    /// Change the R wrapping method.
    pub fn wrap_r(self, new_wrap: u32) -> (r: Self)
        ensures
            r == (CubeMapTexture { wrap_r: new_wrap, ..self }),
    {
        CubeMapTexture { wrap_r: new_wrap, ..self }
    }

    /// Change the min filtering method.
    pub fn min_filter(self, new_filter: u32) -> (r: Self)
        ensures
            r == (CubeMapTexture { min_filter: new_filter, ..self }),
    {
        CubeMapTexture { min_filter: new_filter, ..self }
    }

    /// Change the max filtering method.
    pub fn mag_filter(self, new_filter: u32) -> (r: Self)
        ensures
            r == (CubeMapTexture { mag_filter: new_filter, ..self }),
    {
        CubeMapTexture { mag_filter: new_filter, ..self }
    }
}

impl Default for CubeMapTexture {
    /// A cube map description with id zero and the default parameters.
    fn default() -> (t: Self)
        ensures
            t.spec_id() == 0,
            spec_default_texture_params(
                t.tex_num,
                t.internal_format,
                t.format,
                t.data_type,
                t.wrap_s,
                t.wrap_t,
                t.wrap_r,
                t.min_filter,
                t.mag_filter,
            ),
    {
        CubeMapTexture::new(0)
    }
}

/// OpenGL render buffer, which can be drawn to efficiently, but is not
/// intended for reading.
#[derive(Clone, Copy, Debug)]
pub struct RenderBuffer {
    /// Unique id the driver assigned the object.
    pub id: u32,
    /// Pixel format of the storage, zero before `set_up`.
    pub format: u32,
    /// Width of the storage in pixels, zero before `set_up`.
    pub width: i32,
    /// Height of the storage in pixels, zero before `set_up`.
    pub height: i32,
    /// Samples per pixel, zero unless set up multisampled.
    pub samples: i32,
}

impl HasID for RenderBuffer {
    open spec fn spec_id(&self) -> u32 {
        self.id
    }

    fn get_id(&self) -> (r: u32)
        ensures
            r == self.spec_id(),
    {
        self.id
    }
}

impl Texture for RenderBuffer {

}

impl RenderBuffer {
    /// Describe a new render buffer from the id the driver assigned it.
    pub fn new(id: u32) -> (b: Self)
        ensures
            b == (RenderBuffer { id, format: 0, width: 0, height: 0, samples: 0 }),
    {
        RenderBuffer { id, format: 0, width: 0, height: 0, samples: 0 }
    }

    /// Set up the render buffer, giving it a format, width and height.
    pub fn set_up(self, format: u32, width: i32, height: i32) -> (r: Self)
        ensures
            r == (RenderBuffer { format, width, height, ..self }),
    {
        RenderBuffer { format, width, height, ..self }
    }

    /// Set up a multisampled renderbuffer.
    pub fn set_up_multisample(self, samples: i32, format: u32, width: i32, height: i32) -> (r:
        Self)
        ensures
            r == (RenderBuffer { samples, format, width, height, ..self }),
    {
        RenderBuffer { samples, format, width, height, ..self }
    }
}

} // verus!
