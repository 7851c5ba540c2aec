//! What a frame is made of: meshes and render callbacks, each with its clip
//! rectangle.
//!
//! Positions, texture coordinates and colours stay with the host. A primitive
//! holds what the painter decides by.

use vstd::prelude::*;
use crate::scissor::PixelRect;
use crate::texture::TextureId;

verus! {

/// Triangles over a list of vertices, drawn with one texture.
#[derive(Debug, PartialEq, Eq)]
pub struct Mesh {
    /// Three vertex numbers for each triangle.
    pub indices: Vec<u32>,
    /// How many vertices the mesh has.
    pub vertex_count: usize,
    /// The texture to draw the triangles with.
    pub texture_id: TextureId,
}

impl Mesh {
    /// The mesh has something to draw, its vertices can be numbered with 32
    /// bits, and every index names one of them.
    pub open spec fn spec_is_valid(&self) -> bool {
        &&& self.indices@.len() > 0
        &&& self.vertex_count <= u32::MAX
        &&& forall|i: int| 0 <= i < self.indices@.len() ==> self.indices@[i] < self.vertex_count
    }

    #[verifier::when_used_as_spec(spec_is_valid)]
    pub fn is_valid(&self) -> (valid: bool)
        ensures
            valid == self.spec_is_valid(),
    {
        if self.indices.len() == 0 || self.vertex_count > 0xffff_ffff {
            return false;
        }
        let mut i: usize = 0;
        while i < self.indices.len()
            invariant
                i <= self.indices@.len(),
                forall|j: int| 0 <= j < i ==> self.indices@[j] < self.vertex_count,
            decreases self.indices@.len() - i,
        {
            if self.indices[i] as usize >= self.vertex_count {
                return false;
            }
            i = i + 1;
        }
        true
    }
}

/// Where a render callback draws, in pixels.
#[derive(Clone, Copy, Debug, PartialEq, Eq)]
pub struct ViewportInPixels {
    /// Offset of the left side.
    pub left_px: i32,
    /// Offset of the top side, from the top of the target.
    pub top_px: i32,
    /// Offset of the bottom side, from the bottom of the target: what the
    /// context wants for the vertical axis.
    pub from_bottom_px: i32,
    pub width_px: i32,
    pub height_px: i32,
}

/// A piece of the frame that the host's own code draws.
#[derive(Clone, Copy, Debug, PartialEq, Eq)]
pub struct PaintCallback {
    /// Whether the rectangle that the callback declared, in logical units,
    /// has positive width and height.
    pub positive_area: bool,
    /// Whether the callback's payload is of the one kind that the painter
    /// can run.
    pub recognized: bool,
    /// That rectangle in pixels, on the target.
    pub viewport: ViewportInPixels,
}

#[derive(Debug, PartialEq, Eq)]
pub enum Primitive {
    Mesh(Mesh),
    Callback(PaintCallback),
}

/// A primitive and the rectangle outside of which nothing of it shows.
#[derive(Debug, PartialEq, Eq)]
pub struct ClippedPrimitive {
    /// The clip rectangle, scaled by the pixel density and rounded.
    pub clip_rect: PixelRect,
    pub primitive: Primitive,
}

} // verus!
