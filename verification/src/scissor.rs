//! From a clip rectangle to the scissor rectangle of the graphics context.
//!
//! The host scales the corners of the logical clip rectangle by the pixel
//! density and rounds each to the nearest integer. What follows is done here:
//! the corners are clamped to the target, and the rectangle is turned over,
//! since the context counts rows from the bottom.

use vstd::prelude::*;
use crate::command::Command;

verus! {

/// A rectangle in pixels, with the origin at the top left: a clip rectangle
/// after scaling and rounding. Nothing is asked of its corners.
#[derive(Clone, Copy, Debug, PartialEq, Eq)]
pub struct PixelRect {
    pub min_x: i32,
    pub min_y: i32,
    pub max_x: i32,
    pub max_y: i32,
}

/// A rectangle in pixels, with the origin at the bottom left.
#[derive(Clone, Copy, Debug, PartialEq, Eq)]
pub struct ScissorRect {
    pub x: i32,
    pub y: i32,
    pub width: i32,
    pub height: i32,
}

/// `value`, moved into `low..=high` by the shortest way.
pub open spec fn clamp(value: int, low: int, high: int) -> int {
    if value < low {
        low
    } else if value > high {
        high
    } else {
        value
    }
}

/// The left edge of the scissor rectangle: the clip's, kept on the target.
pub open spec fn clamped_min_x(screen_size_px: [u32; 2], clip: PixelRect) -> int {
    clamp(clip.min_x as int, 0, screen_size_px@[0] as int)
}

/// The top edge of the scissor rectangle, counted from the top.
pub open spec fn clamped_min_y(screen_size_px: [u32; 2], clip: PixelRect) -> int {
    clamp(clip.min_y as int, 0, screen_size_px@[1] as int)
}

/// The right edge: the clip's, kept between the left edge and the target's.
pub open spec fn clamped_max_x(screen_size_px: [u32; 2], clip: PixelRect) -> int {
    clamp(clip.max_x as int, clamped_min_x(screen_size_px, clip), screen_size_px@[0] as int)
}

/// The bottom edge, counted from the top: the clip's, kept between the top
/// edge and the target's.
pub open spec fn clamped_max_y(screen_size_px: [u32; 2], clip: PixelRect) -> int {
    clamp(clip.max_y as int, clamped_min_y(screen_size_px, clip), screen_size_px@[1] as int)
}

/// The scissor rectangle for `clip` on a target of `screen_size_px`.
pub open spec fn spec_scissor_rect(screen_size_px: [u32; 2], clip: PixelRect) -> ScissorRect {
    ScissorRect {
        x: clamped_min_x(screen_size_px, clip) as i32,
        y: (screen_size_px@[1] - clamped_max_y(screen_size_px, clip)) as i32,
        width: (clamped_max_x(screen_size_px, clip) - clamped_min_x(screen_size_px, clip)) as i32,
        height: (clamped_max_y(screen_size_px, clip) - clamped_min_y(screen_size_px, clip)) as i32,
    }
}

/// Both sides of the target can be told to the context, which counts in `i32`.
pub open spec fn target_fits(screen_size_px: [u32; 2]) -> bool {
    screen_size_px@[0] <= i32::MAX && screen_size_px@[1] <= i32::MAX
}

impl ScissorRect {
    /// The rectangle has no negative side and lies on a target of
    /// `screen_size_px`.
    pub open spec fn within(self, screen_size_px: [u32; 2]) -> bool {
        &&& 0 <= self.x
        &&& 0 <= self.y
        &&& 0 <= self.width
        &&& 0 <= self.height
        &&& self.x + self.width <= screen_size_px@[0]
        &&& self.y + self.height <= screen_size_px@[1]
    }
}

fn clamp_i32(value: i32, low: i32, high: i32) -> (clamped: i32)
    requires
        low <= high,
    ensures
        clamped == clamp(value as int, low as int, high as int),
{
    if value < low {
        low
    } else if value > high {
        high
    } else {
        value
    }
}

/// Whether both sides of the target can be told to the context.
#[verifier::when_used_as_spec(target_fits)]
pub fn check_target(screen_size_px: [u32; 2]) -> (fits: bool)
    ensures
        fits == target_fits(screen_size_px),
{
    screen_size_px[0] <= 0x7fff_ffff && screen_size_px[1] <= 0x7fff_ffff
}

/// The scissor rectangle for `clip` on a target of `screen_size_px`. It has
/// no area where the clip rectangle has none on the target.
pub fn scissor_rect(screen_size_px: [u32; 2], clip: PixelRect) -> (rect: ScissorRect)
    requires
        target_fits(screen_size_px),
    ensures
        rect == spec_scissor_rect(screen_size_px, clip),
        rect.within(screen_size_px),
{
    let width_px: i32 = screen_size_px[0] as i32;
    let height_px: i32 = screen_size_px[1] as i32;

    let clip_min_x: i32 = clamp_i32(clip.min_x, 0, width_px);
    let clip_min_y: i32 = clamp_i32(clip.min_y, 0, height_px);
    let clip_max_x: i32 = clamp_i32(clip.max_x, clip_min_x, width_px);
    let clip_max_y: i32 = clamp_i32(clip.max_y, clip_min_y, height_px);

    ScissorRect {
        x: clip_min_x,
        y: height_px - clip_max_y,
        width: clip_max_x - clip_min_x,
        height: clip_max_y - clip_min_y,
    }
}

/// The call that lets the context draw inside `clip_rect` only.
pub fn set_clip_rect(screen_size_px: [u32; 2], clip_rect: PixelRect) -> (command: Command)
    requires
        target_fits(screen_size_px),
    ensures
        command == scissor_command(screen_size_px, clip_rect),
{
    let rect = scissor_rect(screen_size_px, clip_rect);
    Command::Scissor { x: rect.x, y: rect.y, width: rect.width, height: rect.height }
}

/// The scissor call for `clip` on a target of `screen_size_px`.
pub open spec fn scissor_command(screen_size_px: [u32; 2], clip: PixelRect) -> Command {
    let rect = spec_scissor_rect(screen_size_px, clip);
    Command::Scissor { x: rect.x, y: rect.y, width: rect.width, height: rect.height }
}

/// Whatever the clip rectangle, its scissor rectangle lies on the target, and
/// on either axis its lower edge is not above its upper edge.
pub proof fn lemma_scissor_within_target(screen_size_px: [u32; 2], clip: PixelRect)
    requires
        target_fits(screen_size_px),
    ensures
        spec_scissor_rect(screen_size_px, clip).within(screen_size_px),
        0 <= clamped_min_x(screen_size_px, clip) <= clamped_max_x(screen_size_px, clip) <= screen_size_px@[0],
        0 <= clamped_min_y(screen_size_px, clip) <= clamped_max_y(screen_size_px, clip) <= screen_size_px@[1],
{
}

} // verus!
