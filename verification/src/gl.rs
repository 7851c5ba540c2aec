//! The OpenGL enumerants that the painter passes to the context.

use vstd::prelude::*;

verus! {

pub const SCISSOR_TEST: u32 = 0x0C11;
pub const CULL_FACE: u32 = 0x0B44;
pub const DEPTH_TEST: u32 = 0x0B71;
pub const BLEND: u32 = 0x0BE2;
pub const FRAMEBUFFER_SRGB: u32 = 0x8DB9;

pub const FUNC_ADD: u32 = 0x8006;
pub const ONE: u32 = 1;
pub const ONE_MINUS_SRC_ALPHA: u32 = 0x0303;
pub const ONE_MINUS_DST_ALPHA: u32 = 0x0305;

pub const TEXTURE0: u32 = 0x84C0;
pub const TEXTURE_2D: u32 = 0x0DE1;
pub const TEXTURE_MAG_FILTER: u32 = 0x2800;
pub const TEXTURE_MIN_FILTER: u32 = 0x2801;
pub const TEXTURE_WRAP_S: u32 = 0x2802;
pub const TEXTURE_WRAP_T: u32 = 0x2803;

pub const NEAREST: u32 = 0x2600;
pub const LINEAR: u32 = 0x2601;
pub const NEAREST_MIPMAP_NEAREST: u32 = 0x2700;
pub const LINEAR_MIPMAP_NEAREST: u32 = 0x2701;
pub const NEAREST_MIPMAP_LINEAR: u32 = 0x2702;
pub const LINEAR_MIPMAP_LINEAR: u32 = 0x2703;

pub const CLAMP_TO_EDGE: u32 = 0x812F;
pub const REPEAT: u32 = 0x2901;
pub const MIRRORED_REPEAT: u32 = 0x8370;

pub const RGB: u32 = 0x1907;
pub const RGBA: u32 = 0x1908;
pub const RGBA8: u32 = 0x8058;
pub const SRGB_ALPHA: u32 = 0x8C42;
pub const SRGB8_ALPHA8: u32 = 0x8C43;
pub const UNSIGNED_BYTE: u32 = 0x1401;
pub const UNSIGNED_INT: u32 = 0x1405;
pub const FLOAT: u32 = 0x1406;
pub const UNPACK_ALIGNMENT: u32 = 0x0CF5;

pub const ARRAY_BUFFER: u32 = 0x8892;
pub const ELEMENT_ARRAY_BUFFER: u32 = 0x8893;
pub const STREAM_DRAW: u32 = 0x88E0;
pub const TRIANGLES: u32 = 0x0004;

pub const COLOR_BUFFER_BIT: u32 = 0x0000_4000;

} // verus!
