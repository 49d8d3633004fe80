//! Painting on a frame buffer: rows of 240 pixels, three bytes each, red,
//! green, blue. A buffer may be shorter than a full frame; what does not fit
//! is not painted.

use vstd::prelude::*;
use crate::constants::{FRAME_HEIGHT, FRAME_WIDTH};

verus! {

/// One of the three bytes of a colour.
pub open spec fn channel(color: (u8, u8, u8), k: int) -> u8 {
    if k == 0 {
        color.0
    } else if k == 1 {
        color.1
    } else {
        color.2
    }
}

/// Offset of the pixel in column `x` of row `y`.
pub open spec fn pixel_offset(x: int, y: int) -> int {
    (y * 240 + x) * 3
}

/// Whether the pixel in column `x` of row `y` lies on the screen and, whole,
/// within a buffer of `len` bytes.
pub open spec fn on_canvas(len: int, x: int, y: int) -> bool {
    0 <= x < 240 && 0 <= y < 240 && pixel_offset(x, y) + 2 < len
}

/// The buffer with one pixel set, where that pixel is on the canvas.
pub open spec fn plot(buf: Seq<u8>, x: int, y: int, color: (u8, u8, u8)) -> Seq<u8> {
    if on_canvas(buf.len() as int, x, y) {
        buf.update(pixel_offset(x, y), color.0).update(pixel_offset(x, y) + 1, color.1).update(
            pixel_offset(x, y) + 2,
            color.2,
        )
    } else {
        buf
    }
}

/// A figure to paint.
pub enum Shape {
    /// The ellipse inscribed in the box of width `w` and height `h` whose top
    /// left corner is at (`x`, `y`).
    Ellipse { x: int, y: int, w: int, h: int },
    /// The disc of radius `r` around (`cx`, `cy`).
    Disc { cx: int, cy: int, r: int },
    /// The horizontal line of `w` pixels that starts at (`x`, `y`).
    Line { x: int, y: int, w: int },
}

impl Shape {
    /// Leftmost column of the figure's box.
    pub open spec fn left(self) -> int {
        match self {
            Shape::Ellipse { x, .. } => x,
            Shape::Disc { cx, r, .. } => cx - r,
            Shape::Line { x, .. } => x,
        }
    }

    /// Topmost row of the figure's box.
    pub open spec fn top(self) -> int {
        match self {
            Shape::Ellipse { y, .. } => y,
            Shape::Disc { cy, r, .. } => cy - r,
            Shape::Line { y, .. } => y,
        }
    }

    /// Width of the figure's box.
    pub open spec fn width(self) -> int {
        match self {
            Shape::Ellipse { w, .. } => w,
            Shape::Disc { r, .. } => 2 * r + 1,
            Shape::Line { w, .. } => w,
        }
    }

    /// Height of the figure's box.
    pub open spec fn height(self) -> int {
        match self {
            Shape::Ellipse { h, .. } => h,
            Shape::Disc { r, .. } => 2 * r + 1,
            Shape::Line { .. } => 1,
        }
    }

    /// Whether the point at column `px`, row `py` of the figure's box belongs
    /// to the figure. For the ellipse: the point's offsets from the centre,
    /// each as a fraction of the half axis, have squares that sum to at most
    /// one.
    pub open spec fn holds(self, px: int, py: int) -> bool {
        match self {
            Shape::Ellipse { w, h, .. } => (2 * px - w) * (2 * px - w) * (h * h) + (2 * py - h) * (2
                * py - h) * (w * w) <= (w * w) * (h * h),
            Shape::Disc { r, .. } => (px - r) * (px - r) + (py - r) * (py - r) <= r * r,
            Shape::Line { .. } => true,
        }
    }

    /// Whether the pixel in column `x` of row `y` belongs to the figure.
    pub open spec fn covers(self, x: int, y: int) -> bool {
        &&& 0 <= x - self.left() < self.width()
        &&& 0 <= y - self.top() < self.height()
        &&& self.holds(x - self.left(), y - self.top())
    }
}

/// Whether a pixel of the figure's box comes before row `rows`, column
/// `cols` of the box when the box is gone through row by row.
pub open spec fn scanned(shape: Shape, x: int, y: int, rows: int, cols: int) -> bool {
    y - shape.top() < rows || (y - shape.top() == rows && x - shape.left() < cols)
}

/// Whether byte `i` of a buffer of `len` bytes belongs to a pixel that the
/// figure covers and that lies on the canvas.
pub open spec fn painted(shape: Shape, len: int, i: int) -> bool {
    let p = i / 3;
    on_canvas(len, p % 240, p / 240) && shape.covers(p % 240, p / 240)
}

/// The buffer with the figure painted on it in one colour.
pub open spec fn paint(buf: Seq<u8>, shape: Shape, color: (u8, u8, u8)) -> Seq<u8> {
    Seq::new(
        buf.len(),
        |i: int|
            if painted(shape, buf.len() as int, i) {
                channel(color, i % 3)
            } else {
                buf[i]
            },
    )
}

/// The buffer with the part of the figure painted that comes before row
/// `rows`, column `cols` of its box.
pub open spec fn paint_upto(
    buf: Seq<u8>,
    shape: Shape,
    color: (u8, u8, u8),
    rows: int,
    cols: int,
) -> Seq<u8> {
    Seq::new(
        buf.len(),
        |i: int|
            if painted(shape, buf.len() as int, i) && scanned(
                shape,
                (i / 3) % 240,
                (i / 3) / 240,
                rows,
                cols,
            ) {
                channel(color, i % 3)
            } else {
                buf[i]
            },
    )
}

/// Before the first pixel of the box, nothing is painted.
pub proof fn lemma_paint_none(buf: Seq<u8>, shape: Shape, color: (u8, u8, u8))
    ensures
        paint_upto(buf, shape, color, 0, 0) == buf,
{
    assert(paint_upto(buf, shape, color, 0, 0) =~= buf);
}

/// The end of a row of the box is the beginning of the next.
pub proof fn lemma_paint_row(buf: Seq<u8>, shape: Shape, color: (u8, u8, u8), rows: int)
    ensures
        paint_upto(buf, shape, color, rows, shape.width()) == paint_upto(
            buf,
            shape,
            color,
            rows + 1,
            0,
        ),
{
    assert(paint_upto(buf, shape, color, rows, shape.width()) =~= paint_upto(
        buf,
        shape,
        color,
        rows + 1,
        0,
    ));
}

/// After the last row of the box, the figure is painted.
pub proof fn lemma_paint_all(buf: Seq<u8>, shape: Shape, color: (u8, u8, u8))
    ensures
        paint_upto(buf, shape, color, shape.height(), 0) == paint(buf, shape, color),
{
    assert(paint_upto(buf, shape, color, shape.height(), 0) =~= paint(buf, shape, color));
}

/// Going one pixel further in a row of the box: where the figure holds the
/// pixel, it is plotted; where not, nothing changes.
pub proof fn lemma_paint_step(
    buf: Seq<u8>,
    shape: Shape,
    color: (u8, u8, u8),
    rows: int,
    cols: int,
)
    requires
        0 <= rows < shape.height(),
        0 <= cols < shape.width(),
    ensures
        paint_upto(buf, shape, color, rows, cols + 1) == if shape.holds(cols, rows) {
            plot(
                paint_upto(buf, shape, color, rows, cols),
                shape.left() + cols,
                shape.top() + rows,
                color,
            )
        } else {
            paint_upto(buf, shape, color, rows, cols)
        },
{
    let x = shape.left() + cols;
    let y = shape.top() + rows;
    let before = paint_upto(buf, shape, color, rows, cols);
    let after = paint_upto(buf, shape, color, rows, cols + 1);
    let len = buf.len() as int;
    let target = if shape.holds(cols, rows) {
        plot(before, x, y, color)
    } else {
        before
    };
    assert(after.len() == target.len());
    assert forall|i: int| 0 <= i < len implies after[i] == target[i] by {
        let p = i / 3;
        let px = p % 240;
        let py = p / 240;
        if px == x && py == y {
            assert(p == y * 240 + x);
            assert(pixel_offset(x, y) <= i < pixel_offset(x, y) + 3);
            assert(i % 3 == i - pixel_offset(x, y));
        } else {
            if 0 <= x < 240 && 0 <= y < 240 {
                assert(p != y * 240 + x);
                assert(!(pixel_offset(x, y) <= i < pixel_offset(x, y) + 3));
            }
        }
    }
    assert(after =~= target);
}

/// Sets one pixel, where it is on the canvas.
pub fn set_pixel(pixels: &mut [u8], x: i32, y: i32, color: (u8, u8, u8))
    ensures
        final(pixels)@ == plot(old(pixels)@, x as int, y as int, color),
{
    if x >= 0 && x < FRAME_WIDTH as i32 && y >= 0 && y < FRAME_HEIGHT as i32 {
        let idx: usize = (y as usize * FRAME_WIDTH + x as usize) * 3;
        if idx + 2 < pixels.len() {
            pixels[idx] = color.0;
            pixels[idx + 1] = color.1;
            pixels[idx + 2] = color.2;
        }
    }
}

/// Makes every byte of the buffer zero: a black canvas.
pub fn clear(pixels: &mut [u8])
    ensures
        final(pixels)@ == Seq::new(old(pixels)@.len(), |i: int| 0u8),
{
    let n = pixels.len();
    let mut i: usize = 0;
    while i < n
        invariant
            0 <= i <= n,
            n == pixels@.len(),
            pixels@.len() == old(pixels)@.len(),
            forall|k: int| 0 <= k < i ==> pixels@[k] == 0u8,
        decreases n - i,
    {
        pixels[i] = 0;
        i += 1;
    }
    assert(pixels@ =~= Seq::new(old(pixels)@.len(), |i: int| 0u8));
}

} // verus!
