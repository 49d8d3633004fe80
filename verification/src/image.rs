//! Turning a picture into what the LCD takes: turned upside down, scaled to
//! fit the screen, and packed as red, green and blue.

use vstd::prelude::*;
use vstd::slice::slice_to_vec;

verus! {

/// Width of the LCD in pixels.
pub const FRAME_WIDTH: usize = 240;

/// Height of the LCD in pixels.
pub const FRAME_HEIGHT: usize = 240;

/// Bytes in one full LCD frame.
pub const IMAGE_FRAME_SIZE: usize = 172800;

/// Why a picture could not be taken.
#[derive(Clone, Copy, Debug, PartialEq, Eq, Structural)]
pub enum ImageError {
    /// The data is shorter than the width and height ask for.
    BufferTooSmall,
    /// What the scaling gave is not a picture that fits the screen.
    DoesNotFit,
}

/// Bytes that a picture of four bytes per pixel needs.
pub open spec fn rgba_len(width: u32, height: u32) -> int {
    4 * width * height
}

/// Whether data of `len` bytes holds a picture of that width and height:
/// the bytes of a row and of the whole picture can be counted in the
/// machine's word, and the data has that many.
pub open spec fn holds_picture(len: int, width: u32, height: u32) -> bool {
    4 * width <= usize::MAX && rgba_len(width, height) <= usize::MAX && rgba_len(width, height)
        <= len
}

/// The rows of a picture in the opposite order: the last row first.
pub open spec fn flip_rows(data: Seq<u8>, row_len: int, rows: int) -> Seq<u8> {
    Seq::new(
        (row_len * rows) as nat,
        |i: int| data[(rows - 1 - i / row_len) * row_len + i % row_len],
    )
}

/// Red, green and blue of every pixel of a picture of four bytes per pixel,
/// pixel after pixel.
pub open spec fn rgb_of(rgba: Seq<u8>) -> Seq<u8> {
    Seq::new((rgba.len() / 4 * 3) as nat, |i: int| rgba[(i / 3) * 4 + i % 3])
}

/// What the `image` crate's `DynamicImage::resize` gives, with its
/// nearest-neighbour filter, for a picture of four bytes per pixel and the
/// bounds `max_width` by `max_height`: the bytes of the scaled picture, its
/// width and its height.
pub uninterp spec fn resized_rgba(
    data: Seq<u8>,
    width: u32,
    height: u32,
    max_width: u32,
    max_height: u32,
) -> (Seq<u8>, u32, u32);

/// Scales a picture of four bytes per pixel to fit the given bounds, keeping
/// its proportions, with `DynamicImage::resize` of the `image` crate and its
/// nearest-neighbour filter. The result is the crate's; this contract only
/// names it. The crate lays out a picture of the old width and the new
/// height on the way, and one of the new size; both must be countable in the
/// machine's word, as the data must be a picture of the given size.
#[verifier::external_body]
fn resize_rgba(data: Vec<u8>, width: u32, height: u32, max_width: u32, max_height: u32) -> (out: (
    Vec<u8>,
    u32,
    u32,
))
    requires
        data@.len() == rgba_len(width, height),
        max_width >= 1,
        max_height >= 1,
        4 * width * max_height <= usize::MAX,
        4 * max_width * max_height <= usize::MAX,
    ensures
        (out.0@, out.1, out.2) == resized_rgba(data@, width, height, max_width, max_height),
{
    let source = image::RgbaImage::from_raw(width, height, data).unwrap();
    let scaled = image::DynamicImage::ImageRgba8(source).resize(
        max_width,
        max_height,
        image::imageops::FilterType::Nearest,
    );
    let (w, h) = (scaled.width(), scaled.height());
    (scaled.into_rgba8().into_raw(), w, h)
}

/// Whether a picture of that width, scaled to the height of the screen, can
/// be counted in the machine's word, four values to the pixel. On a machine
/// of 64 bits every picture can.
pub open spec fn fits_scaling(width: u32) -> bool {
    4 * width * FRAME_HEIGHT <= usize::MAX
}

/// What becomes of a picture, already upside down, when it is scaled to fit
/// the screen.
pub open spec fn resized_to_screen(data: Seq<u8>, width: u32, height: u32) -> (Seq<u8>, u32, u32) {
    resized_rgba(data, width, height, FRAME_WIDTH as u32, FRAME_HEIGHT as u32)
}

/// Within row `y` of a picture, the offset `i` lies in that row.
proof fn lemma_row_of(i: int, y: int, row_len: int)
    requires
        0 <= y,
        0 < row_len,
        y * row_len <= i < y * row_len + row_len,
    ensures
        i / row_len == y,
        i % row_len == i - y * row_len,
{
    vstd::arithmetic::div_mod::lemma_fundamental_div_mod_converse(i, row_len, y, i - y * row_len);
}

/// The first `rows` rows of `data`, the last of them first.
fn flip_vertical(data: &[u8], row_len: usize, rows: usize) -> (out: Vec<u8>)
    requires
        row_len * rows <= data@.len(),
    ensures
        out@ == flip_rows(data@, row_len as int, rows as int),
        out@.len() == row_len * rows,
{
    let mut out: Vec<u8> = Vec::new();
    if row_len == 0 {
        assert(row_len * rows == 0) by (nonlinear_arith)
            requires
                row_len == 0,
        ;
        assert(out@ =~= flip_rows(data@, row_len as int, rows as int));
        return out;
    }
    let total = data.len();
    let mut y: usize = 0;
    assert(0 * row_len == 0);
    while y < rows
        invariant
            0 <= y <= rows,
            0 < row_len,
            total == data@.len(),
            row_len * rows <= total,
            out@.len() == y * row_len,
            forall|i: int|
                0 <= i < y * row_len ==> out@[i] == #[trigger] flip_rows(
                    data@,
                    row_len as int,
                    rows as int,
                )[i],
        decreases rows - y,
    {
        let source_row: usize = rows - 1 - y;
        assert(0 <= source_row * row_len && source_row * row_len + row_len <= row_len * rows)
            by (nonlinear_arith)
            requires
                0 <= source_row,
                source_row + 1 <= rows,
                0 <= row_len,
        ;
        assert(y * row_len + row_len <= row_len * rows && (y + 1) * row_len == y * row_len
            + row_len) by (nonlinear_arith)
            requires
                y + 1 <= rows,
                0 <= row_len,
        ;
        let from: usize = source_row * row_len;
        let mut x: usize = 0;
        while x < row_len
            invariant
                0 <= x <= row_len,
                0 <= y < rows,
                0 < row_len,
                source_row == rows - 1 - y,
                from == source_row * row_len,
                total == data@.len(),
                from + row_len <= total,
                y * row_len + row_len <= row_len * rows,
                out@.len() == y * row_len + x,
                forall|i: int|
                    0 <= i < y * row_len + x ==> out@[i] == #[trigger] flip_rows(
                        data@,
                        row_len as int,
                        rows as int,
                    )[i],
            decreases row_len - x,
        {
            proof {
                lemma_row_of(y * row_len + x, y as int, row_len as int);
            }
            out.push(data[from + x]);
            x += 1;
        }
        y += 1;
    }
    assert(y * row_len == row_len * rows) by (nonlinear_arith)
        requires
            y == rows,
    ;
    assert(out@ =~= flip_rows(data@, row_len as int, rows as int));
    out
}

/// The picture processor: it holds the frame that it made last.
pub struct ImageProcessor {
    frame_buffer: [u8; IMAGE_FRAME_SIZE],
}

impl ImageProcessor {
    /// The frame: red, green and blue of pixel after pixel.
    pub closed spec fn spec_frame(&self) -> Seq<u8> {
        self.frame_buffer@
    }

    /// The frame after the scaled picture `scaled` was packed into it: the
    /// picture's red, green and blue from the first byte on, and behind them
    /// what the frame held there before.
    pub open spec fn packed(before: Seq<u8>, scaled: Seq<u8>) -> Seq<u8> {
        rgb_of(scaled) + before.subrange(rgb_of(scaled).len() as int, before.len() as int)
    }

    /// Whether what the scaling gave is a picture that fits the screen.
    pub open spec fn fits_screen(scaled: (Seq<u8>, u32, u32)) -> bool {
        &&& scaled.1 <= 240
        &&& scaled.2 <= 240
        &&& scaled.0.len() == rgba_len(scaled.1, scaled.2)
    }

    /// What becomes of a picture of four bytes per pixel, red first: it is
    /// turned upside down, then scaled.
    pub open spec fn prepared(data: Seq<u8>, width: u32, height: u32) -> (Seq<u8>, u32, u32) {
        resized_to_screen(flip_rows(data, 4 * width, height as int), width, height)
    }

    /// A processor with a black frame.
    pub fn new() -> (processor: Self)
        ensures
            processor.spec_frame() == Seq::new(172800, |i: int| 0u8),
    {
        let processor = ImageProcessor { frame_buffer: [0u8; IMAGE_FRAME_SIZE] };
        assert(processor.frame_buffer@ =~= Seq::new(172800, |i: int| 0u8));
        processor
    }

    /// Takes a picture of four bytes per pixel in the order blue, green,
    /// red, alpha. The data must consist of whole pixels, or of whole pixels
    /// and three bytes.
    pub fn load_from_bgra(&mut self, data: &[u8], width: u32, height: u32) -> (res: Result<
        (),
        ImageError,
    >)
        requires
            data@.len() % 4 == 0 || data@.len() % 4 == 3,
            holds_picture(data@.len() as int, width, height) ==> fits_scaling(width),
        ensures
            final(self).spec_frame().len() == 172800,
            res == Self::outcome(swap_red_blue_whole(data@), width, height),
            final(self).spec_frame() == if res is Ok {
                Self::packed(
                    old(self).spec_frame(),
                    Self::prepared(swap_red_blue_whole(data@), width, height).0,
                )
            } else {
                old(self).spec_frame()
            },
    {
        let mut rgba: Vec<u8> = slice_to_vec(data);
        let n = rgba.len();
        let mut at: usize = 0;
        while n - at >= 3
            invariant
                n == data@.len(),
                rgba@.len() == n,
                at <= n,
                at % 4 == 0 || at == n,
                n % 4 == 0 || n % 4 == 3,
                forall|i: int| 0 <= i < at ==> rgba@[i] == #[trigger] swap_red_blue_whole(data@)[i],
                forall|i: int| at <= i < n ==> rgba@[i] == data@[i],
            decreases n - at,
        {
            let blue = rgba[at];
            let red = rgba[at + 2];
            rgba[at] = red;
            rgba[at + 2] = blue;
            if n - at >= 4 {
                at += 4;
            } else {
                at = n;
            }
        }
        assert(rgba@ =~= swap_red_blue_whole(data@));
        self.process(rgba.as_slice(), width, height)
    }

    /// Takes a picture of four bytes per pixel in the order red, green,
    /// blue, alpha: turns it upside down, scales it to fit the screen and
    /// packs its red, green and blue into the frame, from the first byte on.
    /// Fails, and leaves the frame as it is, where the data is shorter than
    /// the width and height ask for. A picture must not be so wide that the
    /// scaling cannot count it in the machine's word.
    pub fn load_from_rgba(&mut self, data: &[u8], width: u32, height: u32) -> (res: Result<
        (),
        ImageError,
    >)
        requires
            holds_picture(data@.len() as int, width, height) ==> fits_scaling(width),
        ensures
            final(self).spec_frame().len() == 172800,
            res == Self::outcome(data@, width, height),
            final(self).spec_frame() == if res is Ok {
                Self::packed(old(self).spec_frame(), Self::prepared(data@, width, height).0)
            } else {
                old(self).spec_frame()
            },
    {
        self.process(data, width, height)
    }

    /// Whether a picture is taken, and why not.
    pub open spec fn outcome(data: Seq<u8>, width: u32, height: u32) -> Result<(), ImageError> {
        if !holds_picture(data.len() as int, width, height) {
            Err(ImageError::BufferTooSmall)
        } else if !Self::fits_screen(Self::prepared(data, width, height)) {
            Err(ImageError::DoesNotFit)
        } else {
            Ok(())
        }
    }

    /// Turns the picture upside down, scales it and packs it into the frame.
    fn process(&mut self, data: &[u8], width: u32, height: u32) -> (res: Result<(), ImageError>)
        requires
            holds_picture(data@.len() as int, width, height) ==> fits_scaling(width),
        ensures
            final(self).spec_frame().len() == 172800,
            res == Self::outcome(data@, width, height),
            final(self).spec_frame() == if res is Ok {
                Self::packed(old(self).spec_frame(), Self::prepared(data@, width, height).0)
            } else {
                old(self).spec_frame()
            },
    {
        let row_len: usize = match (width as usize).checked_mul(4) {
            Some(n) => n,
            None => {
                return Err(ImageError::BufferTooSmall);
            },
        };
        let needed: usize = match row_len.checked_mul(height as usize) {
            Some(n) => n,
            None => {
                assert(rgba_len(width, height) == row_len * height) by (nonlinear_arith)
                    requires
                        row_len == 4 * width,
                ;
                return Err(ImageError::BufferTooSmall);
            },
        };
        assert(rgba_len(width, height) == needed) by (nonlinear_arith)
            requires
                row_len == 4 * width,
                needed == row_len * height,
        ;
        if needed > data.len() {
            return Err(ImageError::BufferTooSmall);
        }
        let flipped = flip_vertical(data, row_len, height as usize);
        self.pack(flipped, width, height)
    }

    /// Scales the picture, already upside down, and packs it into the frame.
    fn pack(&mut self, flipped: Vec<u8>, width: u32, height: u32) -> (res: Result<(), ImageError>)
        requires
            flipped@.len() == rgba_len(width, height),
            fits_scaling(width),
        ensures
            final(self).spec_frame().len() == 172800,
            res == if Self::fits_screen(resized_to_screen(flipped@, width, height)) {
                Ok::<(), ImageError>(())
            } else {
                Err::<(), ImageError>(ImageError::DoesNotFit)
            },
            final(self).spec_frame() == if res is Ok {
                Self::packed(
                    old(self).spec_frame(),
                    resized_to_screen(flipped@, width, height).0,
                )
            } else {
                old(self).spec_frame()
            },
    {
        let (scaled, w, h) = resize_rgba(
            flipped,
            width,
            height,
            FRAME_WIDTH as u32,
            FRAME_HEIGHT as u32,
        );
        if w > 240 || h > 240 {
            return Err(ImageError::DoesNotFit);
        }
        assert(w * h <= 57600 && rgba_len(w, h) == 4 * (w * h)) by (nonlinear_arith)
            requires
                0 <= w <= 240,
                0 <= h <= 240,
        ;
        let count: usize = w as usize * h as usize;
        if scaled.len() != 4 * count {
            return Err(ImageError::DoesNotFit);
        }
        let ghost before = self.frame_buffer@;
        let mut p: usize = 0;
        while p < count
            invariant
                0 <= p <= count,
                count <= 57600,
                scaled@.len() == 4 * count,
                self.frame_buffer@.len() == 172800,
                before.len() == 172800,
                forall|i: int| 0 <= i < 3 * p ==> self.frame_buffer@[i] == rgb_of(scaled@)[i],
                forall|i: int| 3 * p <= i < 172800 ==> self.frame_buffer@[i] == before[i],
            decreases count - p,
        {
            self.frame_buffer[3 * p] = scaled[4 * p];
            self.frame_buffer[3 * p + 1] = scaled[4 * p + 1];
            self.frame_buffer[3 * p + 2] = scaled[4 * p + 2];
            p += 1;
        }
        assert(self.frame_buffer@ =~= Self::packed(before, scaled@));
        Ok(())
    }

    /// The frame.
    pub fn frame_data(&self) -> (frame: &[u8; IMAGE_FRAME_SIZE])
        ensures
            frame@ == self.spec_frame(),
    {
        &self.frame_buffer
    }

    /// A copy of the frame.
    pub fn frame_data_vec(&self) -> (frame: Vec<u8>)
        ensures
            frame@ == self.spec_frame(),
    {
        let mut frame: Vec<u8> = Vec::with_capacity(IMAGE_FRAME_SIZE);
        let mut i: usize = 0;
        while i < IMAGE_FRAME_SIZE
            invariant
                0 <= i <= 172800,
                frame@ == self.frame_buffer@.subrange(0, i as int),
            decreases 172800 - i,
        {
            frame.push(self.frame_buffer[i]);
            i += 1;
            assert(frame@ =~= self.frame_buffer@.subrange(0, i as int));
        }
        assert(self.frame_buffer@.subrange(0, 172800) =~= self.frame_buffer@);
        frame
    }
}

/// The bytes of a picture with the red and the blue of every whole pixel
/// exchanged; of a last, broken pixel that has three bytes too.
pub open spec fn swap_red_blue_whole(data: Seq<u8>) -> Seq<u8> {
    Seq::new(
        data.len(),
        |i: int|
            if i % 4 == 0 && i + 2 < data.len() {
                data[i + 2]
            } else if i % 4 == 2 {
                data[i - 2]
            } else {
                data[i]
            },
    )
}

impl Default for ImageProcessor {
    /// A processor with a black frame.
    fn default() -> (processor: Self)
        ensures
            processor.spec_frame() == Seq::new(172800, |i: int| 0u8),
    {
        ImageProcessor::new()
    }
}

} // verus!
