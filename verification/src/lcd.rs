//! The LCD of the robot: a frame of 240 by 240 pixels that shows a picture,
//! the eyes, or a test pattern.
//!
//! The eyes are drawn elsewhere, in shades of grey, one byte per pixel. They
//! are taken into the frame only where they differ from the eyes that were
//! taken last, which a hash of the grey picture tells.

use vstd::prelude::*;
use vstd::slice::slice_to_vec;

verus! {

/// Width of the LCD in pixels.
pub const LCD_WIDTH: usize = 240;

/// Height of the LCD in pixels.
pub const LCD_HEIGHT: usize = 240;

/// Bytes in one frame.
pub const FRAME_SIZE: usize = 172800;

/// Number of frame buffers that the device alternates between.
pub const BUFFER_COUNT: usize = 2;

/// Bytes in a grey picture of the eyes.
pub const GRAY_SIZE: usize = 57600;

/// Milliseconds by which the eyes' clock moves with every frame of eyes.
pub const EYES_TICK: u64 = 50;

/// Number of colour bars in the test pattern.
pub const TEST_BARS: usize = 6;

/// The value from which the hash starts.
pub const HASH_BASIS: u64 = 0xcbf29ce484222325;

/// The factor of the hash.
pub const HASH_PRIME: u64 = 0x100000001b3;

/// The FNV-1a hash of a sequence of bytes, in 64 bits: from the basis, every
/// byte in turn is combined in by exclusive or, and the result multiplied by
/// the prime, modulo two to the sixty-fourth.
pub open spec fn fnv1a(data: Seq<u8>) -> u64
    decreases data.len(),
{
    if data.len() == 0 {
        HASH_BASIS
    } else {
        (fnv1a(data.drop_last()) ^ (data.last() as u64)).wrapping_mul(HASH_PRIME)
    }
}

/// The FNV-1a hash of the data, by which a change of content is noticed.
pub fn compute_hash(data: &[u8]) -> (hash: u64)
    ensures
        hash == fnv1a(data@),
{
    let mut hash: u64 = HASH_BASIS;
    let mut i: usize = 0;
    while i < data.len()
        invariant
            0 <= i <= data@.len(),
            hash == fnv1a(data@.subrange(0, i as int)),
        decreases data@.len() - i,
    {
        proof {
            let next = data@.subrange(0, i + 1);
            assert(next.drop_last() =~= data@.subrange(0, i as int));
            assert(next.last() == data@[i as int]);
        }
        hash = (hash ^ (data[i] as u64)).wrapping_mul(HASH_PRIME);
        i += 1;
    }
    assert(data@.subrange(0, data@.len() as int) =~= data@);
    hash
}

/// What the LCD shows.
#[derive(Clone, Copy, Debug, PartialEq, Eq, Structural)]
pub enum DisplayMode {
    /// The picture that was loaded.
    Static,
    /// The eyes.
    Eyes,
    /// Colour bars.
    TestPattern,
}

impl Default for DisplayMode {
    /// The eyes.
    fn default() -> (mode: Self)
        ensures
            mode == DisplayMode::Eyes,
    {
        DisplayMode::Eyes
    }
}

/// A grey picture as red, green and blue: every grey byte three times.
pub open spec fn gray_as_rgb(gray: Seq<u8>) -> Seq<u8> {
    Seq::new(3 * gray.len(), |i: int| gray[i / 3])
}

/// The rows that bar `index` of the test pattern covers: its first row and
/// its height.
pub open spec fn test_bar_rows(index: int) -> (int, int) {
    (index * 40, 40)
}

/// The LCD.
pub struct Lcd {
    buffer: Vec<u8>,
    mode: DisplayMode,
    image_data: Option<Vec<u8>>,
    eyes_timer: u64,
    last_eyes_hash: Option<u64>,
}

impl Lcd {
    /// The frame.
    pub closed spec fn spec_frame(&self) -> Seq<u8> {
        self.buffer@
    }

    /// What the LCD shows.
    pub closed spec fn spec_mode(&self) -> DisplayMode {
        self.mode
    }

    /// The picture that was loaded, if one was.
    pub closed spec fn spec_image(&self) -> Option<Seq<u8>> {
        match self.image_data {
            Some(data) => Some(data@),
            None => None,
        }
    }

    /// The eyes' clock, in milliseconds.
    pub closed spec fn spec_eyes_timer(&self) -> u64 {
        self.eyes_timer
    }

    /// The hash of the eyes that were taken into the frame last.
    pub closed spec fn spec_last_eyes_hash(&self) -> Option<u64> {
        self.last_eyes_hash
    }

    /// The frame is a full frame.
    pub open spec fn wf(&self) -> bool {
        self.spec_frame().len() == FRAME_SIZE
    }

    /// Whether the next frame is one of eyes: the eyes are shown, or a
    /// picture is, and none was loaded.
    pub open spec fn spec_shows_eyes(&self) -> bool {
        self.spec_mode() == DisplayMode::Eyes || (self.spec_mode() == DisplayMode::Static
            && self.spec_image() is None)
    }

    /// `post` is `pre` but for the frame, the eyes' clock and the hash of
    /// the eyes.
    pub open spec fn same_settings(pre: &Lcd, post: &Lcd) -> bool {
        post.spec_mode() == pre.spec_mode() && post.spec_image() == pre.spec_image()
    }

    /// `post` is `pre` after the grey picture `gray` of the eyes was handed
    /// in: the clock has moved on, and the frame shows the picture where its
    /// hash differs from that of the eyes taken last.
    pub open spec fn eyes_rendered(pre: &Lcd, post: &Lcd, gray: Seq<u8>) -> bool {
        &&& Self::same_settings(pre, post)
        &&& post.spec_eyes_timer() == pre.spec_eyes_timer().wrapping_add(EYES_TICK)
        &&& post.spec_last_eyes_hash() == Some(fnv1a(gray))
        &&& post.spec_frame() == if pre.spec_last_eyes_hash() == Some(fnv1a(gray)) {
            pre.spec_frame()
        } else {
            gray_as_rgb(gray)
        }
    }

    /// `post` is `pre` after the loaded picture was put into the frame, or,
    /// where the picture is not of a frame's size, left out.
    pub open spec fn image_rendered(pre: &Lcd, post: &Lcd, image: Seq<u8>) -> bool {
        &&& Self::same_settings(pre, post)
        &&& post.spec_eyes_timer() == pre.spec_eyes_timer()
        &&& post.spec_last_eyes_hash() == pre.spec_last_eyes_hash()
        &&& post.spec_frame() == if image.len() == FRAME_SIZE {
            image
        } else {
            pre.spec_frame()
        }
    }

    /// An LCD with a black frame that shows the eyes.
    pub fn new() -> (lcd: Self)
        ensures
            lcd.wf(),
            lcd.spec_frame() == Seq::new(172800, |i: int| 0u8),
            lcd.spec_mode() == DisplayMode::Eyes,
            lcd.spec_image() is None,
            lcd.spec_eyes_timer() == 0,
            lcd.spec_last_eyes_hash() is None,
    {
        let mut buffer: Vec<u8> = Vec::with_capacity(FRAME_SIZE);
        let mut i: usize = 0;
        while i < FRAME_SIZE
            invariant
                0 <= i <= 172800,
                buffer@ == Seq::new(i as nat, |k: int| 0u8),
            decreases 172800 - i,
        {
            buffer.push(0u8);
            i += 1;
            assert(buffer@ =~= Seq::new(i as nat, |k: int| 0u8));
        }
        Lcd {
            buffer,
            mode: DisplayMode::Eyes,
            image_data: None,
            eyes_timer: 0,
            last_eyes_hash: None,
        }
    }

    /// What the LCD shows.
    pub fn mode(&self) -> (mode: DisplayMode)
        ensures
            mode == self.spec_mode(),
    {
        self.mode
    }

    /// The eyes' clock, in milliseconds: the time for which the next picture
    /// of the eyes is to be drawn.
    pub fn eyes_timer(&self) -> (timer: u64)
        ensures
            timer == self.spec_eyes_timer(),
    {
        self.eyes_timer
    }

    /// Whether the next frame is one of eyes, so that a picture of the eyes
    /// is needed for it.
    pub fn shows_eyes(&self) -> (eyes: bool)
        ensures
            eyes == self.spec_shows_eyes(),
    {
        match self.mode {
            DisplayMode::Eyes => true,
            DisplayMode::Static => self.image_data.is_none(),
            DisplayMode::TestPattern => false,
        }
    }

    /// Makes the next frame. `gray` is the picture of the eyes for the time
    /// on the eyes' clock, in grey, one byte per pixel; it is read only
    /// where the frame is one of eyes. `pattern` is the test pattern, a full
    /// frame; it is read only where the test pattern is shown.
    pub fn generate_pixels(&mut self, gray: &[u8], pattern: &[u8])
        requires
            old(self).wf(),
            old(self).spec_shows_eyes() ==> gray@.len() == GRAY_SIZE,
            old(self).spec_mode() == DisplayMode::TestPattern ==> pattern@.len() == FRAME_SIZE,
        ensures
            final(self).wf(),
            match old(self).spec_mode() {
                DisplayMode::Eyes => Self::eyes_rendered(old(self), final(self), gray@),
                DisplayMode::Static => match old(self).spec_image() {
                    Some(image) => Self::image_rendered(old(self), final(self), image),
                    None => Self::eyes_rendered(old(self), final(self), gray@),
                },
                DisplayMode::TestPattern => Self::image_rendered(
                    old(self),
                    final(self),
                    pattern@,
                ),
            },
    {
        match self.mode {
            DisplayMode::Static => self.render_static_image(gray),
            DisplayMode::Eyes => self.render_eyes(gray),
            DisplayMode::TestPattern => self.render_test_pattern(pattern),
        }
    }

    /// Makes the next frame and hands out a copy of it.
    pub fn frame_vec(&mut self, gray: &[u8], pattern: &[u8]) -> (frame: Vec<u8>)
        requires
            old(self).wf(),
            old(self).spec_shows_eyes() ==> gray@.len() == GRAY_SIZE,
            old(self).spec_mode() == DisplayMode::TestPattern ==> pattern@.len() == FRAME_SIZE,
        ensures
            final(self).wf(),
            frame@ == final(self).spec_frame(),
            match old(self).spec_mode() {
                DisplayMode::Eyes => Self::eyes_rendered(old(self), final(self), gray@),
                DisplayMode::Static => match old(self).spec_image() {
                    Some(image) => Self::image_rendered(old(self), final(self), image),
                    None => Self::eyes_rendered(old(self), final(self), gray@),
                },
                DisplayMode::TestPattern => Self::image_rendered(
                    old(self),
                    final(self),
                    pattern@,
                ),
            },
    {
        self.generate_pixels(gray, pattern);
        slice_to_vec(self.buffer.as_slice())
    }

    /// Sets what the LCD shows.
    pub fn set_mode(&mut self, mode: DisplayMode)
        ensures
            final(self).spec_mode() == mode,
            final(self).spec_frame() == old(self).spec_frame(),
            final(self).spec_image() == old(self).spec_image(),
            final(self).spec_eyes_timer() == old(self).spec_eyes_timer(),
            final(self).spec_last_eyes_hash() == old(self).spec_last_eyes_hash(),
    {
        self.mode = mode;
    }

    /// Takes a picture that was loaded, a full frame of red, green and blue:
    /// it becomes the frame and the picture to show.
    pub fn load_image(&mut self, data: &[u8])
        requires
            data@.len() == FRAME_SIZE,
        ensures
            final(self).wf(),
            final(self).spec_frame() == data@,
            final(self).spec_image() == Some(data@),
            final(self).spec_mode() == old(self).spec_mode(),
            final(self).spec_eyes_timer() == old(self).spec_eyes_timer(),
            final(self).spec_last_eyes_hash() == old(self).spec_last_eyes_hash(),
    {
        self.buffer = slice_to_vec(data);
        self.image_data = Some(slice_to_vec(data));
    }

    /// Puts the loaded picture into the frame; draws the eyes where no
    /// picture was loaded.
    fn render_static_image(&mut self, gray: &[u8])
        requires
            old(self).wf(),
            old(self).spec_image() is None ==> gray@.len() == GRAY_SIZE,
        ensures
            final(self).wf(),
            match old(self).spec_image() {
                Some(image) => Self::image_rendered(old(self), final(self), image),
                None => Self::eyes_rendered(old(self), final(self), gray@),
            },
    {
        let copy: Option<Vec<u8>> = match &self.image_data {
            Some(img) => {
                if img.len() == FRAME_SIZE {
                    Some(slice_to_vec(img.as_slice()))
                } else {
                    Some(Vec::new())
                }
            },
            None => None,
        };
        match copy {
            Some(frame) => {
                if frame.len() == FRAME_SIZE {
                    self.buffer = frame;
                }
            },
            None => {
                self.render_eyes(gray);
            },
        }
    }

    /// Takes the picture of the eyes into the frame, unless it is the one
    /// taken last, and moves the eyes' clock on.
    fn render_eyes(&mut self, gray: &[u8])
        requires
            old(self).wf(),
            gray@.len() == GRAY_SIZE,
        ensures
            final(self).wf(),
            Self::eyes_rendered(old(self), final(self), gray@),
    {
        self.eyes_timer = self.eyes_timer.wrapping_add(EYES_TICK);
        let current_hash = compute_hash(gray);
        let changed = match self.last_eyes_hash {
            Some(last) => last != current_hash,
            None => true,
        };
        if changed {
            self.last_eyes_hash = Some(current_hash);
            let mut i: usize = 0;
            while i < GRAY_SIZE
                invariant
                    0 <= i <= 57600,
                    gray@.len() == 57600,
                    self.buffer@.len() == 172800,
                    self.mode == old(self).mode,
                    self.image_data == old(self).image_data,
                    self.eyes_timer == old(self).eyes_timer.wrapping_add(EYES_TICK),
                    self.last_eyes_hash == Some(current_hash),
                    forall|k: int| 0 <= k < 3 * i ==> self.buffer@[k] == gray@[k / 3],
                decreases 57600 - i,
            {
                let shade = gray[i];
                let at: usize = i * 3;
                self.buffer[at] = shade;
                self.buffer[at + 1] = shade;
                self.buffer[at + 2] = shade;
                i += 1;
            }
            assert(self.buffer@ =~= gray_as_rgb(gray@));
        }
    }

    /// Puts the test pattern into the frame.
    fn render_test_pattern(&mut self, pattern: &[u8])
        requires
            old(self).wf(),
            pattern@.len() == FRAME_SIZE,
        ensures
            final(self).wf(),
            Self::image_rendered(old(self), final(self), pattern@),
    {
        self.buffer = slice_to_vec(pattern);
    }

    /// The rows that bar `index` of the six bars of the test pattern
    /// covers: its first row and its height.
    pub fn test_pattern_bar(index: usize) -> (rows: (usize, usize))
        requires
            index < TEST_BARS,
        ensures
            rows.0 == test_bar_rows(index as int).0,
            rows.1 == test_bar_rows(index as int).1,
            rows.0 + rows.1 <= LCD_HEIGHT,
    {
        let block_height: usize = LCD_HEIGHT / TEST_BARS;
        assert(block_height == 40);
        (index * block_height, block_height)
    }
}

impl Default for Lcd {
    /// An LCD with a black frame that shows the eyes.
    fn default() -> (lcd: Self)
        ensures
            lcd.wf(),
            lcd.spec_frame() == Seq::new(172800, |i: int| 0u8),
            lcd.spec_mode() == DisplayMode::Eyes,
            lcd.spec_image() is None,
            lcd.spec_eyes_timer() == 0,
            lcd.spec_last_eyes_hash() is None,
    {
        Lcd::new()
    }
}

} // verus!
