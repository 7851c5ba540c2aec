//! Texture identifiers, sampling options and image deltas, and the calls that
//! bring one image delta onto the bound texture.

use vstd::prelude::*;
use crate::command::Command;
use crate::gl;

verus! {

/// Names a logical texture, whatever GPU object currently backs it.
#[derive(Clone, Copy, Debug, PartialEq, Eq, Hash, Structural)]
pub enum TextureId {
    /// A texture that the toolkit allocated.
    Managed(u64),
    /// A texture that the host registered.
    User(u64),
}

/// How texels are filtered.
#[derive(Clone, Copy, Debug, PartialEq, Eq, Hash, Structural)]
pub enum TextureFilter {
    Nearest,
    Linear,
}

/// How texture coordinates outside the unit square are treated.
#[derive(Clone, Copy, Debug, PartialEq, Eq, Hash, Structural)]
pub enum TextureWrapMode {
    ClampToEdge,
    Repeat,
    MirroredRepeat,
}

/// The sampling options of a texture.
#[derive(Clone, Copy, Debug, PartialEq, Eq, Hash)]
pub struct TextureOptions {
    pub magnification: TextureFilter,
    pub minification: TextureFilter,
    pub wrap_mode: TextureWrapMode,
    /// How to filter between mipmap levels; `None` asks for no mipmaps.
    pub mipmap_mode: Option<TextureFilter>,
}

impl TextureFilter {
    /// The filter enumerant for this filter within a level, combined with the
    /// filter between mipmap levels where one is asked for.
    pub open spec fn spec_glow_code(self, mipmap: Option<TextureFilter>) -> u32 {
        match (self, mipmap) {
            (TextureFilter::Linear, None) => gl::LINEAR,
            (TextureFilter::Nearest, None) => gl::NEAREST,
            (TextureFilter::Linear, Some(TextureFilter::Linear)) => gl::LINEAR_MIPMAP_LINEAR,
            (TextureFilter::Nearest, Some(TextureFilter::Linear)) => gl::NEAREST_MIPMAP_LINEAR,
            (TextureFilter::Linear, Some(TextureFilter::Nearest)) => gl::LINEAR_MIPMAP_NEAREST,
            (TextureFilter::Nearest, Some(TextureFilter::Nearest)) => gl::NEAREST_MIPMAP_NEAREST,
        }
    }

    #[verifier::when_used_as_spec(spec_glow_code)]
    pub fn glow_code(self, mipmap: Option<TextureFilter>) -> (code: u32)
        ensures
            code == self.spec_glow_code(mipmap),
    {
        match (self, mipmap) {
            (TextureFilter::Linear, None) => gl::LINEAR,
            (TextureFilter::Nearest, None) => gl::NEAREST,
            (TextureFilter::Linear, Some(TextureFilter::Linear)) => gl::LINEAR_MIPMAP_LINEAR,
            (TextureFilter::Nearest, Some(TextureFilter::Linear)) => gl::NEAREST_MIPMAP_LINEAR,
            (TextureFilter::Linear, Some(TextureFilter::Nearest)) => gl::LINEAR_MIPMAP_NEAREST,
            (TextureFilter::Nearest, Some(TextureFilter::Nearest)) => gl::NEAREST_MIPMAP_NEAREST,
        }
    }
}

impl TextureWrapMode {
    /// The wrap enumerant for this mode.
    pub open spec fn spec_glow_code(self) -> u32 {
        match self {
            TextureWrapMode::ClampToEdge => gl::CLAMP_TO_EDGE,
            TextureWrapMode::Repeat => gl::REPEAT,
            TextureWrapMode::MirroredRepeat => gl::MIRRORED_REPEAT,
        }
    }

    #[verifier::when_used_as_spec(spec_glow_code)]
    pub fn glow_code(self) -> (code: u32)
        ensures
            code == self.spec_glow_code(),
    {
        match self {
            TextureWrapMode::ClampToEdge => gl::CLAMP_TO_EDGE,
            TextureWrapMode::Repeat => gl::REPEAT,
            TextureWrapMode::MirroredRepeat => gl::MIRRORED_REPEAT,
        }
    }
}

/// A new image for a texture, or a patch of one.
///
/// The pixels stay with the host: four bytes for each texel (red, green,
/// blue, alpha), row by row from the top, with no padding. The delta holds
/// their number only.
#[derive(Clone, Copy, Debug, PartialEq, Eq)]
pub struct ImageDelta {
    /// Width and height of the image, in texels.
    pub size: [usize; 2],
    /// The number of bytes of pixel data that come with the delta.
    pub byte_len: usize,
    pub options: TextureOptions,
    /// `None` replaces the whole texture by the image. `Some` overwrites the
    /// region of the existing texture that starts at this offset.
    pub pos: Option<[usize; 2]>,
}

impl ImageDelta {
    pub open spec fn width(&self) -> usize {
        self.size@[0]
    }

    pub open spec fn height(&self) -> usize {
        self.size@[1]
    }

    /// The pixel data is four bytes for each texel, no more and no fewer.
    pub open spec fn spec_is_packed(&self) -> bool {
        self.byte_len == self.width() * self.height() * 4
    }

    /// Neither side of the image is longer than `max_texture_side`.
    pub open spec fn spec_fits(&self, max_texture_side: usize) -> bool {
        self.width() <= max_texture_side && self.height() <= max_texture_side
    }

    #[verifier::when_used_as_spec(spec_is_packed)]
    pub fn is_packed(&self) -> (ok: bool)
        ensures
            ok == self.spec_is_packed(),
    {
        match self.size[0].checked_mul(self.size[1]) {
            Some(texels) => match texels.checked_mul(4) {
                Some(bytes) => bytes == self.byte_len,
                None => false,
            },
            None => false,
        }
    }

    #[verifier::when_used_as_spec(spec_fits)]
    pub fn fits(&self, max_texture_side: usize) -> (ok: bool)
        ensures
            ok == self.spec_fits(max_texture_side),
    {
        self.size[0] <= max_texture_side && self.size[1] <= max_texture_side
    }
}

/// The storage format of a texture and the layout of the pixels sent to it,
/// in this order.
///
/// The oldest shader dialect knows no sized formats and wants both to be the
/// same.
pub open spec fn spec_texture_formats(is_webgl_1: bool, srgb_textures: bool) -> (u32, u32) {
    if is_webgl_1 {
        if srgb_textures {
            (gl::SRGB_ALPHA, gl::SRGB_ALPHA)
        } else {
            (gl::RGBA, gl::RGBA)
        }
    } else if srgb_textures {
        (gl::SRGB8_ALPHA8, gl::RGBA)
    } else {
        (gl::RGBA8, gl::RGBA)
    }
}

#[verifier::when_used_as_spec(spec_texture_formats)]
pub fn texture_formats(is_webgl_1: bool, srgb_textures: bool) -> (formats: (u32, u32))
    ensures
        formats == spec_texture_formats(is_webgl_1, srgb_textures),
{
    if is_webgl_1 {
        let format: u32 = if srgb_textures {
            gl::SRGB_ALPHA
        } else {
            gl::RGBA
        };
        (format, format)
    } else if srgb_textures {
        (gl::SRGB8_ALPHA8, gl::RGBA)
    } else {
        (gl::RGBA8, gl::RGBA)
    }
}

/// The four sampling parameters of the bound texture: magnification filter,
/// minification filter, and the wrap mode on either axis.
pub open spec fn sampling_commands(options: TextureOptions) -> Seq<Command> {
    seq![
        Command::TexParameterI32 {
            target: gl::TEXTURE_2D,
            parameter: gl::TEXTURE_MAG_FILTER,
            value: options.magnification.spec_glow_code(None) as i32,
        },
        Command::TexParameterI32 {
            target: gl::TEXTURE_2D,
            parameter: gl::TEXTURE_MIN_FILTER,
            value: options.minification.spec_glow_code(options.mipmap_mode) as i32,
        },
        Command::TexParameterI32 {
            target: gl::TEXTURE_2D,
            parameter: gl::TEXTURE_WRAP_S,
            value: options.wrap_mode.spec_glow_code() as i32,
        },
        Command::TexParameterI32 {
            target: gl::TEXTURE_2D,
            parameter: gl::TEXTURE_WRAP_T,
            value: options.wrap_mode.spec_glow_code() as i32,
        },
    ]
}

/// The call that moves the pixels: into one region of the texture where the
/// delta has an offset, else into storage allocated anew.
pub open spec fn transfer_command(is_webgl_1: bool, srgb_textures: bool, delta: ImageDelta) -> Command {
    let formats = spec_texture_formats(is_webgl_1, srgb_textures);
    match delta.pos {
        Some(pos) => Command::TexSubImage2d {
            target: gl::TEXTURE_2D,
            level: 0,
            x_offset: pos@[0] as i32,
            y_offset: pos@[1] as i32,
            width: delta.width() as i32,
            height: delta.height() as i32,
            format: formats.1,
            ty: gl::UNSIGNED_BYTE,
        },
        None => Command::TexImage2d {
            target: gl::TEXTURE_2D,
            level: 0,
            internal_format: formats.0 as i32,
            width: delta.width() as i32,
            height: delta.height() as i32,
            border: 0,
            format: formats.1,
            ty: gl::UNSIGNED_BYTE,
        },
    }
}

/// Everything that brings `delta` onto the bound texture: the sampling
/// parameters, a row alignment of one byte, the transfer, and mipmaps only
/// where a mipmap mode is asked for.
pub open spec fn upload_commands(is_webgl_1: bool, srgb_textures: bool, delta: ImageDelta) -> Seq<Command> {
    let fixed = sampling_commands(delta.options).push(
        Command::PixelStoreI32 { parameter: gl::UNPACK_ALIGNMENT, value: 1 },
    ).push(transfer_command(is_webgl_1, srgb_textures, delta));
    if delta.options.mipmap_mode is Some {
        fixed.push(Command::GenerateMipmap(gl::TEXTURE_2D))
    } else {
        fixed
    }
}

} // verus!
