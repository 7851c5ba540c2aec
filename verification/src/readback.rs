//! Reading the colour buffer back: how large a buffer the host needs, which
//! call fills it, and how its rows are put in top-down order.

use vstd::prelude::*;
use crate::command::Command;
use crate::gl;
use crate::painter::Painter;
use crate::scissor::target_fits;

verus! {

/// What the host does to read the colour buffer: it makes a zeroed buffer of
/// `buffer_len` bytes and issues `command`, which fills it.
#[derive(Clone, Copy, Debug, PartialEq, Eq)]
pub struct Readback {
    pub buffer_len: usize,
    pub command: Command,
}

/// The bytes of a readback of `size` pixels with `channels` bytes each.
pub open spec fn readback_bytes(size: [u32; 2], channels: u32) -> int {
    size@[0] * size@[1] * channels
}

/// Whether a readback of `size` pixels with `channels` bytes each can be
/// asked for: both sides can be told to the context, and the number of bytes
/// can be counted in 32 bits.
pub open spec fn readback_fits(size: [u32; 2], channels: u32) -> bool {
    target_fits(size) && readback_bytes(size, channels) <= u32::MAX
}

/// The call that reads `size` pixels from the lower left corner on.
pub open spec fn read_pixels_command(size: [u32; 2], format: u32) -> Command {
    Command::ReadPixels {
        x: 0,
        y: 0,
        width: size@[0] as i32,
        height: size@[1] as i32,
        format,
        ty: gl::UNSIGNED_BYTE,
    }
}

/// The rows of `pixels`, the last one first. A row is `row_len` bytes, and
/// there are `rows` of them.
pub open spec fn rows_reversed(pixels: Seq<u8>, row_len: nat, rows: nat) -> Seq<u8>
    decreases rows,
{
    if rows == 0 {
        Seq::empty()
    } else {
        pixels.subrange((rows - 1) * row_len, (rows * row_len) as int) + rows_reversed(
            pixels,
            row_len,
            (rows - 1) as nat,
        )
    }
}

/// The number of bytes of a readback of `size` pixels with `channels` bytes
/// each, where it can be asked for.
pub fn readback_len(size: [u32; 2], channels: u32) -> (len: Option<usize>)
    ensures
        len is Some <==> readback_fits(size, channels),
        len is Some ==> len->0 == readback_bytes(size, channels),
{
    if size[0] > 0x7fff_ffff || size[1] > 0x7fff_ffff {
        return None;
    }
    match size[0].checked_mul(size[1]) {
        Some(pixels) => match pixels.checked_mul(channels) {
            Some(bytes) => Some(bytes as usize),
            None => None,
        },
        None => {
            if channels == 0 {
                assert(size@[0] * size@[1] * 0 == 0);
                Some(0)
            } else {
                assert(size@[0] * size@[1] * channels >= size@[0] * size@[1]) by (nonlinear_arith)
                    requires
                        channels >= 1,
                ;
                None
            }
        },
    }
}

fn read_screen(size: [u32; 2], channels: u32, format: u32) -> (plan: Readback)
    requires
        readback_fits(size, channels),
    ensures
        plan.buffer_len == readback_bytes(size, channels),
        plan.command == read_pixels_command(size, format),
{
    let len = readback_len(size, channels).unwrap();
    Readback {
        buffer_len: len,
        command: Command::ReadPixels {
            x: 0,
            y: 0,
            width: size[0] as i32,
            height: size[1] as i32,
            format,
            ty: gl::UNSIGNED_BYTE,
        },
    }
}

impl Painter {
    /// How to read `size` pixels of the colour buffer with four bytes each.
    /// The rows come bottom-up: [`flip_rows`] puts them top-down.
    pub fn read_screen_rgba(&self, size: [u32; 2]) -> (plan: Readback)
        requires
            readback_fits(size, 4),
        ensures
            plan.buffer_len == readback_bytes(size, 4),
            plan.command == read_pixels_command(size, gl::RGBA),
    {
        read_screen(size, 4, gl::RGBA)
    }

    /// How to read `size` pixels of the colour buffer with three bytes each.
    /// The rows are left as they come, bottom-up.
    pub fn read_screen_rgb(&self, size: [u32; 2]) -> (plan: Readback)
        requires
            readback_fits(size, 3),
        ensures
            plan.buffer_len == readback_bytes(size, 3),
            plan.command == read_pixels_command(size, gl::RGB),
    {
        read_screen(size, 3, gl::RGB)
    }
}

/// Turns an image over: the same rows, the last one first.
pub fn flip_rows(pixels: &[u8], row_len: usize, rows: usize) -> (flipped: Vec<u8>)
    requires
        pixels@.len() == row_len * rows,
    ensures
        flipped@ == rows_reversed(pixels@, row_len as nat, rows as nat),
{
    let mut flipped: Vec<u8> = Vec::with_capacity(pixels.len());
    let mut r: usize = rows;
    let mut end: usize = pixels.len();
    while r > 0
        invariant
            r <= rows,
            end == r * row_len,
            pixels@.len() == row_len * rows,
            flipped@ + rows_reversed(pixels@, row_len as nat, r as nat) == rows_reversed(
                pixels@,
                row_len as nat,
                rows as nat,
            ),
        decreases r,
    {
        assert((r - 1) * row_len == r * row_len - row_len) by (nonlinear_arith);
        assert((r - 1) * row_len >= 0) by (nonlinear_arith)
            requires
                r >= 1,
                row_len >= 0,
        ;
        assert(r * row_len <= row_len * rows) by (nonlinear_arith)
            requires
                r <= rows,
                row_len >= 0,
        ;
        let start: usize = end - row_len;
        let ghost before = flipped@;
        let mut i: usize = start;
        while i < end
            invariant
                start <= i <= end <= pixels@.len(),
                flipped@ == before + pixels@.subrange(start as int, i as int),
            decreases end - i,
        {
            flipped.push(pixels[i]);
            assert(pixels@.subrange(start as int, i + 1) == pixels@.subrange(start as int, i as int).push(
                pixels@[i as int],
            ));
            i = i + 1;
        }
        assert(before + (pixels@.subrange(start as int, end as int) + rows_reversed(
            pixels@,
            row_len as nat,
            (r - 1) as nat,
        )) == before + pixels@.subrange(start as int, end as int) + rows_reversed(
            pixels@,
            row_len as nat,
            (r - 1) as nat,
        ));
        r = r - 1;
        end = start;
    }
    assert(flipped@ + Seq::<u8>::empty() == flipped@);
    flipped
}

/// Where the texel of row `row` and column `column` stands, in an image of
/// rows of `row_len` bytes.
pub open spec fn texel_at(row_len: nat, row: int, column: int) -> int {
    row * row_len + column
}

/// After the turn, row `row` holds what row `rows - 1 - row` held, byte for
/// byte, and the image has kept its size.
pub proof fn lemma_rows_reversed(pixels: Seq<u8>, row_len: nat, rows: nat, row: int, column: int)
    requires
        pixels.len() == row_len * rows,
        0 <= row < rows,
        0 <= column < row_len,
    ensures
        rows_reversed(pixels, row_len, rows).len() == pixels.len(),
        0 <= texel_at(row_len, row, column) < pixels.len(),
        0 <= texel_at(row_len, rows - 1 - row, column) < pixels.len(),
        rows_reversed(pixels, row_len, rows)[texel_at(row_len, row, column)] == pixels[texel_at(
            row_len,
            rows - 1 - row,
            column,
        )],
{
    lemma_rows_reversed_len(pixels, row_len, rows, rows);
    lemma_rows_reversed_prefix(pixels, row_len, rows, rows, row, column);
    assert(0 <= row * row_len && row * row_len + row_len <= rows * row_len) by (nonlinear_arith)
        requires
            0 <= row < rows,
    ;
    assert(0 <= (rows - 1 - row) * row_len && (rows - 1 - row) * row_len + row_len <= rows * row_len)
        by (nonlinear_arith)
        requires
            0 <= row < rows,
    ;
}

/// The last `count` of `rows` rows, reversed, are `count` rows long.
proof fn lemma_rows_reversed_len(pixels: Seq<u8>, row_len: nat, rows: nat, count: nat)
    requires
        pixels.len() == row_len * rows,
        count <= rows,
    ensures
        rows_reversed(pixels, row_len, count).len() == count * row_len,
    decreases count,
{
    if count > 0 {
        lemma_rows_reversed_len(pixels, row_len, rows, (count - 1) as nat);
        assert((count - 1) * row_len == count * row_len - row_len) by (nonlinear_arith);
        assert(0 <= (count - 1) * row_len && count * row_len <= row_len * rows) by (nonlinear_arith)
            requires
                1 <= count <= rows,
        ;
    } else {
        assert(0 * row_len == 0);
    }
}

/// Row `row` of the first `count` rows, reversed, is row `count - 1 - row`.
proof fn lemma_rows_reversed_prefix(pixels: Seq<u8>, row_len: nat, rows: nat, count: nat, row: int, column: int)
    requires
        pixels.len() == row_len * rows,
        count <= rows,
        0 <= row < count,
        0 <= column < row_len,
    ensures
        rows_reversed(pixels, row_len, count)[row * row_len + column] == pixels[(count - 1 - row) * row_len
            + column],
    decreases count,
{
    let last = pixels.subrange((count - 1) * row_len, (count * row_len) as int);
    let rest = rows_reversed(pixels, row_len, (count - 1) as nat);
    lemma_rows_reversed_len(pixels, row_len, rows, (count - 1) as nat);
    assert((count - 1) * row_len == count * row_len - row_len) by (nonlinear_arith);
    assert(0 <= (count - 1) * row_len && count * row_len <= row_len * rows) by (nonlinear_arith)
        requires
            1 <= count <= rows,
    ;
    assert(0 <= row * row_len && row * row_len + row_len <= count * row_len) by (nonlinear_arith)
        requires
            0 <= row < count,
    ;
    if row == 0 {
        assert(0 * row_len == 0);
        assert((last + rest)[column] == last[column]);
    } else {
        lemma_rows_reversed_prefix(pixels, row_len, rows, (count - 1) as nat, row - 1, column);
        assert((row - 1) * row_len == row * row_len - row_len) by (nonlinear_arith);
        assert((count - 1 - row) * row_len == (count - 1 - 1 - (row - 1)) * row_len);
        assert((last + rest)[row * row_len + column] == rest[(row - 1) * row_len + column]);
    }
}

} // verus!
