//! The calls that the painter asks the host to make on the graphics context.
//!
//! A command carries the arguments of one call as plain values. Bulk data
//! (vertices, indices, pixels) stays with the host: a command says which data
//! to send, not what it holds.

use vstd::prelude::*;
use crate::texture::TextureId;

verus! {

/// Which of a mesh's two arrays a buffer is filled from.
#[derive(Clone, Copy, Debug, PartialEq, Eq)]
pub enum MeshData {
    Vertices,
    Indices,
}

/// Something worth reporting that does not stop the frame.
#[derive(Clone, Copy, Debug, PartialEq, Eq)]
pub enum Diagnostic {
    /// A mesh names a texture that the painter does not hold.
    MissingTexture(TextureId),
    /// A mesh has no triangles or indexes past its vertices.
    InvalidMesh,
    /// A render callback has a payload of a kind that the painter cannot
    /// run.
    UnsupportedCallback,
    /// The painter is discarded without having been destroyed.
    ResourcesLeaked,
}

/// One call on the graphics context, or one step that the host performs
/// between such calls.
#[derive(Clone, Copy, Debug, PartialEq, Eq)]
pub enum Command {
    Enable(u32),
    Disable(u32),
    ColorMask { red: bool, green: bool, blue: bool, alpha: bool },
    BlendEquationSeparate { mode_rgb: u32, mode_alpha: u32 },
    BlendFuncSeparate { src_rgb: u32, dst_rgb: u32, src_alpha: u32, dst_alpha: u32 },
    Viewport { x: i32, y: i32, width: i32, height: i32 },
    Scissor { x: i32, y: i32, width: i32, height: i32 },
    UseProgram(glow::Program),
    /// Sets a two-component uniform to the target size in logical units: the
    /// host divides both pixel sizes by the pixel density.
    ScreenSizeUniform { location: glow::UniformLocation, width_px: u32, height_px: u32 },
    Uniform1I32 { location: glow::UniformLocation, value: i32 },
    ActiveTexture(u32),
    /// Binds the painter's vertex layout.
    BindVertexLayout,
    /// Unbinds the painter's vertex layout.
    UnbindVertexLayout,
    BindBuffer { target: u32, buffer: Option<glow::Buffer> },
    /// Fills the buffer bound to `target` with one array of the mesh at
    /// position `primitive` of the frame's primitive list.
    BufferData { target: u32, primitive: usize, data: MeshData, usage: u32 },
    BindTexture { target: u32, texture: glow::Texture },
    DrawElements { mode: u32, count: i32, element_type: u32, offset: i32 },
    /// Runs the render callback at position `primitive` of the frame's
    /// primitive list.
    Callback { primitive: usize },
    TexParameterI32 { target: u32, parameter: u32, value: i32 },
    PixelStoreI32 { parameter: u32, value: i32 },
    /// Allocates the bound texture anew from the pixels of the image delta.
    TexImage2d {
        target: u32,
        level: i32,
        internal_format: i32,
        width: i32,
        height: i32,
        border: i32,
        format: u32,
        ty: u32,
    },
    /// Overwrites one region of the bound texture with the pixels of the
    /// image delta.
    TexSubImage2d {
        target: u32,
        level: i32,
        x_offset: i32,
        y_offset: i32,
        width: i32,
        height: i32,
        format: u32,
        ty: u32,
    },
    GenerateMipmap(u32),
    DeleteTexture(glow::Texture),
    DeleteProgram(glow::Program),
    DeleteBuffer(glow::Buffer),
    /// Sets the clear colour to the one that the host was given.
    ClearColor,
    Clear(u32),
    /// Reads the colour buffer into the host's readback buffer.
    ReadPixels { x: i32, y: i32, width: i32, height: i32, format: u32, ty: u32 },
    Report(Diagnostic),
}

} // verus!
