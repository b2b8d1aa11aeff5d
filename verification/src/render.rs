//! Render and damage helpers: rectangles, the damage translation into a
//! bottom-left-origin coordinate convention, stride-honoring partial
//! texture updates, and the frame timestamp arithmetic.

use vstd::prelude::*;
use crate::shell::Size;

verus! {

/// A rectangle, by its top-left corner and size.
#[derive(Debug, Clone, Copy, PartialEq, Eq, Structural)]
pub struct Rect {
    /// Horizontal position of the left edge.
    pub x: i32,
    /// Vertical position of the top edge.
    pub y: i32,
    /// Width.
    pub w: i32,
    /// Height.
    pub h: i32,
}

impl Rect {
    /// The rectangle covering a whole drawable of the given size.
    pub fn from_size(size: Size) -> (r: Rect)
        ensures
            r == (Rect { x: 0, y: 0, w: size.w, h: size.h }),
    {
        Rect { x: 0, y: 0, w: size.w, h: size.h }
    }
}

/// A color, as four eight-bit channels.
#[derive(Debug, Clone, Copy, PartialEq, Eq, Structural)]
pub struct Color {
    /// Red.
    pub r: u8,
    /// Green.
    pub g: u8,
    /// Blue.
    pub b: u8,
    /// Alpha.
    pub a: u8,
}

/// A rendering backend failure: frame-fatal only. The failed frame's
/// draw is abandoned and reported upward; the next frame is attempted
/// normally.
#[derive(Debug, Clone)]
pub struct PolarBearRenderError {
    /// What failed.
    pub message: String,
}

impl PolarBearRenderError {
    /// A render error carrying its description.
    pub fn new(message: String) -> (r: PolarBearRenderError)
        ensures
            r.message@ == message@,
    {
        PolarBearRenderError { message }
    }

    /// The error's description.
    pub fn message(&self) -> (r: &String)
        ensures
            r@ == self.message@,
    {
        &self.message
    }
}

/// Translate one damage rectangle into a bottom-left-origin convention:
/// the vertical coordinate flips against the drawable height, the rest
/// is unchanged.
pub fn flip_damage_rect(rect: Rect, drawable_height: i32) -> (r: Rect)
    requires
        0 <= rect.y,
        0 <= rect.h,
        rect.y + rect.h <= drawable_height,
    ensures
        r.x == rect.x,
        r.y == drawable_height - rect.y - rect.h,
        r.w == rect.w,
        r.h == rect.h,
{
    Rect { x: rect.x, y: drawable_height - rect.y - rect.h, w: rect.w, h: rect.h }
}

/// Translate a batch of damage rectangles into a bottom-left-origin
/// convention, in order.
pub fn flip_damage_rects(rects: &Vec<Rect>, drawable_height: i32) -> (r: Vec<Rect>)
    requires
        forall|i: int|
            0 <= i < rects@.len() ==> 0 <= (#[trigger] rects@[i]).y && 0 <= rects@[i].h
                && rects@[i].y + rects@[i].h <= drawable_height,
    ensures
        r@.len() == rects@.len(),
        forall|i: int|
            0 <= i < r@.len() ==> #[trigger] r@[i] == (Rect {
                x: rects@[i].x,
                y: (drawable_height - rects@[i].y - rects@[i].h) as i32,
                w: rects@[i].w,
                h: rects@[i].h,
            }),
{
    let mut r: Vec<Rect> = Vec::new();
    let mut i: usize = 0;
    while i < rects.len()
        invariant
            i <= rects@.len(),
            r@.len() == i,
            forall|j: int|
                0 <= j < rects@.len() ==> 0 <= (#[trigger] rects@[j]).y && 0 <= rects@[j].h
                    && rects@[j].y + rects@[j].h <= drawable_height,
            forall|j: int|
                0 <= j < i ==> #[trigger] r@[j] == (Rect {
                    x: rects@[j].x,
                    y: (drawable_height - rects@[j].y - rects@[j].h) as i32,
                    w: rects@[j].w,
                    h: rects@[j].h,
                }),
        decreases rects@.len() - i,
    {
        let rect = rects[i];
        r.push(flip_damage_rect(rect, drawable_height));
        i = i + 1;
    }
    r
}

/// Milliseconds since start as the wire's unsigned thirty-two bit
/// timestamp. The counter wraps after about forty-nine days; the wrap is
/// an accepted edge case and is taken as plain truncation.
pub fn timestamp_ms(elapsed_ms: u64) -> (r: u32)
    ensures
        r == elapsed_ms % 0x100000000u64,
{
    (elapsed_ms % 0x100000000u64) as u32
}

/// Extract a rectangular region out of source pixel bytes, four bytes a
/// pixel, honoring the source stride: row `row` of the result starts at
/// byte `(y + row) * stride + x * 4` of the source, never at an offset
/// computed from the region's own width.
pub fn copy_region(
    data: &Vec<u8>,
    stride: usize,
    x: usize,
    y: usize,
    w: usize,
    h: usize,
) -> (r: Vec<u8>)
    requires
        x <= 0x100000,
        y <= 0x100000,
        w <= 0x40000,
        h <= 0x100000,
        stride <= 0x100000,
        (x + w) * 4 <= stride,
        (y + h) * stride <= data@.len(),
    ensures
        r@.len() == h * (w * 4),
        forall|row: int, col: int|
            0 <= row < h && 0 <= col < w * 4 ==> #[trigger] r@[row * (w * 4) + col] == data@[(y
                + row) * stride + x * 4 + col],
{
    let data_len = data.len();
    let row_bytes: usize = w * 4;
    let mut r: Vec<u8> = Vec::new();
    let mut row: usize = 0;
    while row < h
        invariant
            data_len == data@.len(),
            row <= h,
            row_bytes == w * 4,
            x <= 0x100000,
            y <= 0x100000,
            w <= 0x40000,
            h <= 0x100000,
            stride <= 0x100000,
            (x + w) * 4 <= stride,
            (y + h) * stride <= data@.len(),
            r@.len() == row * row_bytes,
            forall|rr: int, col: int|
                0 <= rr < row && 0 <= col < row_bytes ==> #[trigger] r@[rr * (row_bytes as int)
                    + col] == data@[(y + rr) * stride + x * 4 + col],
        decreases h - row,
    {
        proof {
            assert((y + row) * stride + x * 4 + row_bytes <= data@.len()) by (nonlinear_arith)
                requires
                    row < h,
                    row_bytes == w * 4,
                    (x + w) * 4 <= stride,
                    (y + h) * stride <= data@.len(),
                    0 <= y,
                    0 <= row,
                    0 <= stride,
            ;
        }
        let start: usize = (y + row) * stride + x * 4;
        let mut col: usize = 0;
        while col < row_bytes
            invariant
                row < h,
                col <= row_bytes,
                row_bytes == w * 4,
                data_len == data@.len(),
                start == (y + row) * stride + x * 4,
                start + row_bytes <= data_len,
                r@.len() == row * row_bytes + col,
                forall|rr: int, c: int|
                    0 <= rr < row && 0 <= c < row_bytes ==> #[trigger] r@[rr * (row_bytes as int)
                        + c] == data@[(y + rr) * stride + x * 4 + c],
                forall|c: int|
                    0 <= c < col ==> #[trigger] r@[row * (row_bytes as int) + c] == data@[
                        start as int + c],
            decreases row_bytes - col,
        {
            r.push(data[start + col]);
            col = col + 1;
            proof {
                assert forall|rr: int, c: int|
                    0 <= rr < row && 0 <= c < row_bytes implies #[trigger] r@[rr * (
                    row_bytes as int) + c] == data@[(y + rr) * stride + x * 4 + c] by {
                    assert(0 <= rr * (row_bytes as int) + c < row * (row_bytes as int)) by (
                        nonlinear_arith)
                        requires
                            0 <= rr,
                            rr < row,
                            0 <= c,
                            c < row_bytes,
                    ;
                };
            }
        }
        row = row + 1;
        proof {
            assert forall|rr: int, c: int|
                0 <= rr < row && 0 <= c < row_bytes implies #[trigger] r@[rr * (row_bytes as int)
                + c] == data@[(y + rr) * stride + x * 4 + c] by {
                if rr == row - 1 {
                    assert((row - 1) * (row_bytes as int) == rr * (row_bytes as int));
                    assert(r@[rr * (row_bytes as int) + c] == data@[start as int + c]);
                    assert(start as int + c == (y + rr) * stride + x * 4 + c);
                }
            };
            assert(r@.len() == row * (row_bytes as int)) by (nonlinear_arith)
                requires
                    r@.len() == (row - 1) * (row_bytes as int) + row_bytes,
            ;
        }
    }
    proof {
        assert(r@.len() == h * (w * 4)) by (nonlinear_arith)
            requires
                r@.len() == h * (row_bytes as int),
                row_bytes == w * 4,
        ;
    }
    r
}

} // verus!
