//! What is decided before a painter exists: whether the context will do,
//! what the two shaders are compiled from, and how vertices are laid out.
//!
//! The host queries the context, compiles and links; it tells this module
//! what it found and takes from it what to do next.

use vstd::prelude::*;
use vstd::string::StringExecFns;
use vstd::string::StrSliceExecFns;
use crate::error::PainterError;
use crate::gl;
use crate::shader_version::ShaderVersion;

verus! {

/// The oldest major version of OpenGL that the painter works with.
pub const MIN_GL_MAJOR_VERSION: u32 = 2;

/// Refuses a context older than OpenGL 2.0, on which not even the shader
/// dialect can be asked for.
pub fn check_gl_version(major: u32) -> (verdict: Result<(), PainterError>)
    ensures
        verdict is Ok <==> major >= MIN_GL_MAJOR_VERSION,
        verdict is Err ==> verdict->Err_0@ == "egui_glow requires opengl 2.0+. "@,
{
    if major < MIN_GL_MAJOR_VERSION {
        Err(PainterError(String::from_str("egui_glow requires opengl 2.0+. ")))
    } else {
        Ok(())
    }
}

/// The longest texture side in texels, from what the context answered when
/// asked for it. The answer is reinterpreted as unsigned, bit for bit: a
/// negative one becomes a very large side.
pub fn max_texture_side(max_texture_size: i32) -> (side: usize)
    ensures
        side == max_texture_size as usize,
{
    #[verifier::truncate]
    (max_texture_size as usize)
}

/// Whether `text` ends with `suffix`.
pub fn ends_with(text: &str, suffix: &str) -> (found: bool)
    ensures
        found == suffix@.is_suffix_of(text@),
{
    let text_len = text.unicode_len();
    let suffix_len = suffix.unicode_len();
    if suffix_len > text_len {
        return false;
    }
    let skip: usize = text_len - suffix_len;
    let mut i: usize = 0;
    while i < suffix_len
        invariant
            i <= suffix_len,
            suffix_len == suffix@.len(),
            text_len == text@.len(),
            skip + suffix_len == text_len,
            forall|j: int| 0 <= j < i ==> text@[skip + j] == suffix@[j],
        decreases suffix_len - i,
    {
        if text.get_char(skip + i) != suffix.get_char(i) {
            assert(text@.subrange(skip as int, text_len as int)[i as int] != suffix@[i as int]);
            return false;
        }
        i = i + 1;
    }
    assert(suffix@ =~= text@.subrange(skip as int, text_len as int));
    true
}

/// The context can switch an sRGB-aware output path on and off: one of its
/// extensions is the framebuffer-sRGB extension, under whatever prefix.
pub open spec fn spec_supports_srgb_framebuffer(extensions: Seq<String>) -> bool {
    exists|i: int|
        0 <= i < extensions.len() && "ARB_framebuffer_sRGB"@.is_suffix_of(#[trigger] extensions[i]@)
}

pub fn supports_srgb_framebuffer(extensions: &Vec<String>) -> (supported: bool)
    ensures
        supported == spec_supports_srgb_framebuffer(extensions@),
{
    let mut i: usize = 0;
    while i < extensions.len()
        invariant
            i <= extensions@.len(),
            forall|j: int| 0 <= j < i ==> !"ARB_framebuffer_sRGB"@.is_suffix_of(#[trigger] extensions@[j]@),
        decreases extensions@.len() - i,
    {
        if ends_with(extensions[i].as_str(), "ARB_framebuffer_sRGB") {
            return true;
        }
        i = i + 1;
    }
    false
}

/// How a switch is written in a shader's preamble.
pub open spec fn flag_digit(flag: bool) -> Seq<char> {
    if flag {
        "1"@
    } else {
        "0"@
    }
}

/// What the vertex shader is compiled from: the dialect's version line, the
/// interface switch, the host's prefix and the shader's body, each on lines
/// of its own.
pub open spec fn spec_vertex_shader_source(
    shader_version: ShaderVersion,
    shader_prefix: Seq<char>,
    body: Seq<char>,
) -> Seq<char> {
    shader_version.spec_version_declaration() + "\n#define NEW_SHADER_INTERFACE "@ + flag_digit(
        shader_version.spec_is_new_shader_interface(),
    ) + "\n"@ + shader_prefix + "\n"@ + body
}

/// What the fragment shader is compiled from: as for the vertex shader, with
/// the dithering switch after the interface switch.
pub open spec fn spec_fragment_shader_source(
    shader_version: ShaderVersion,
    dithering: bool,
    shader_prefix: Seq<char>,
    body: Seq<char>,
) -> Seq<char> {
    shader_version.spec_version_declaration() + "\n#define NEW_SHADER_INTERFACE "@ + flag_digit(
        shader_version.spec_is_new_shader_interface(),
    ) + "\n#define DITHERING "@ + flag_digit(dithering) + "\n"@ + shader_prefix + "\n"@ + body
}

fn digit(flag: bool) -> (text: &'static str)
    ensures
        text@ == flag_digit(flag),
{
    if flag {
        "1"
    } else {
        "0"
    }
}

pub fn vertex_shader_source(shader_version: ShaderVersion, shader_prefix: &str, body: &str) -> (source: String)
    ensures
        source@ == spec_vertex_shader_source(shader_version, shader_prefix@, body@),
{
    let mut source = String::from_str(shader_version.version_declaration());
    source.append("\n#define NEW_SHADER_INTERFACE ");
    source.append(digit(shader_version.is_new_shader_interface()));
    source.append("\n");
    source.append(shader_prefix);
    source.append("\n");
    source.append(body);
    source
}

pub fn fragment_shader_source(
    shader_version: ShaderVersion,
    dithering: bool,
    shader_prefix: &str,
    body: &str,
) -> (source: String)
    ensures
        source@ == spec_fragment_shader_source(shader_version, dithering, shader_prefix@, body@),
{
    let mut source = String::from_str(shader_version.version_declaration());
    source.append("\n#define NEW_SHADER_INTERFACE ");
    source.append(digit(shader_version.is_new_shader_interface()));
    source.append("\n#define DITHERING ");
    source.append(digit(dithering));
    source.append("\n");
    source.append(shader_prefix);
    source.append("\n");
    source.append(body);
    source
}

/// Where the program takes the three attributes of a vertex from.
#[derive(Clone, Copy, Debug, PartialEq, Eq)]
pub struct AttributeLocations {
    /// The position, two floats.
    pub a_pos: u32,
    /// The texture coordinate, two floats.
    pub a_tc: u32,
    /// The colour, four bytes.
    pub a_srgba: u32,
}

/// How the host's vertices lie in memory, in bytes.
#[derive(Clone, Copy, Debug, PartialEq, Eq)]
pub struct VertexLayout {
    /// From one vertex to the next.
    pub stride: usize,
    pub pos_offset: usize,
    pub uv_offset: usize,
    pub color_offset: usize,
}

/// One attribute stream of the vertex buffer.
#[derive(Clone, Copy, Debug, PartialEq, Eq)]
pub struct BufferInfo {
    pub location: u32,
    pub vector_size: i32,
    pub data_type: u32,
    pub normalized: bool,
    pub stride: i32,
    pub offset: i32,
}

/// The three attribute streams of the vertex buffer: position and texture
/// coordinate as two floats each, colour as four bytes, none normalized.
pub open spec fn spec_vertex_attributes(locations: AttributeLocations, layout: VertexLayout) -> Seq<
    BufferInfo,
> {
    seq![
        BufferInfo {
            location: locations.a_pos,
            vector_size: 2,
            data_type: gl::FLOAT,
            normalized: false,
            stride: layout.stride as i32,
            offset: layout.pos_offset as i32,
        },
        BufferInfo {
            location: locations.a_tc,
            vector_size: 2,
            data_type: gl::FLOAT,
            normalized: false,
            stride: layout.stride as i32,
            offset: layout.uv_offset as i32,
        },
        BufferInfo {
            location: locations.a_srgba,
            vector_size: 4,
            data_type: gl::UNSIGNED_BYTE,
            normalized: false,
            stride: layout.stride as i32,
            offset: layout.color_offset as i32,
        },
    ]
}

pub fn vertex_attributes(locations: AttributeLocations, layout: VertexLayout) -> (infos: Vec<BufferInfo>)
    ensures
        infos@ == spec_vertex_attributes(locations, layout),
{
    let stride: i32 = #[verifier::truncate]
    (layout.stride as i32);
    let pos_offset: i32 = #[verifier::truncate]
    (layout.pos_offset as i32);
    let uv_offset: i32 = #[verifier::truncate]
    (layout.uv_offset as i32);
    let color_offset: i32 = #[verifier::truncate]
    (layout.color_offset as i32);
    let mut infos: Vec<BufferInfo> = Vec::new();
    infos.push(
        BufferInfo {
            location: locations.a_pos,
            vector_size: 2,
            data_type: gl::FLOAT,
            normalized: false,
            stride,
            offset: pos_offset,
        },
    );
    infos.push(
        BufferInfo {
            location: locations.a_tc,
            vector_size: 2,
            data_type: gl::FLOAT,
            normalized: false,
            stride,
            offset: uv_offset,
        },
    );
    infos.push(
        BufferInfo {
            location: locations.a_srgba,
            vector_size: 4,
            data_type: gl::UNSIGNED_BYTE,
            normalized: false,
            stride,
            offset: color_offset,
        },
    );
    assert(infos@ =~= spec_vertex_attributes(locations, layout));
    infos
}

} // verus!
