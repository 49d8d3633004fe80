//! The robot's eyes, drawn on the 240 by 240 LCD: two ellipses with pupils,
//! or two lines while the eyes are shut, and a blink now and then.

use vstd::prelude::*;
use crate::canvas::{
    clear, lemma_paint_all, lemma_paint_none, lemma_paint_row, lemma_paint_step, paint,
    paint_upto, set_pixel, Shape,
};
use crate::constants::FRAME_WIDTH;

verus! {

/// Colour of the eyes.
#[derive(Clone, Copy, Debug, PartialEq, Eq, Structural)]
pub enum EyeColor {
    White,
    Blue,
    Green,
    Red,
    Yellow,
}

/// What the eyes express.
#[derive(Clone, Copy, Debug, PartialEq, Eq, Structural)]
pub enum Expression {
    Neutral,
    Happy,
    Sad,
    Angry,
    Surprised,
    Wink,
    Blink,
    LookLeft,
    LookRight,
    LookUp,
    LookDown,
}

/// Size of the eyes.
#[derive(Clone, Copy, Debug, PartialEq, Eq, Structural)]
pub enum EyeSize {
    Small,
    Medium,
    Large,
}

/// Gap between the eyes, in pixels.
pub const EYE_GAP: i32 = 20;

/// Frames that a blink lasts.
pub const BLINK_FRAMES: u32 = 10;

/// The colour of shut eyes.
pub open spec fn lid_color() -> (u8, u8, u8) {
    (100u8, 100u8, 100u8)
}

/// The colour of the pupils.
pub open spec fn pupil_color() -> (u8, u8, u8) {
    (0u8, 0u8, 0u8)
}

impl EyeColor {
    /// The colour as red, green and blue.
    pub open spec fn spec_rgb(self) -> (u8, u8, u8) {
        match self {
            EyeColor::White => (255u8, 255u8, 255u8),
            EyeColor::Blue => (50u8, 100u8, 255u8),
            EyeColor::Green => (50u8, 255u8, 50u8),
            EyeColor::Red => (255u8, 50u8, 50u8),
            EyeColor::Yellow => (255u8, 255u8, 50u8),
        }
    }

    /// The colour as red, green and blue.
    pub fn rgb(self) -> (color: (u8, u8, u8))
        ensures
            color == self.spec_rgb(),
    {
        match self {
            EyeColor::White => (255, 255, 255),
            EyeColor::Blue => (50, 100, 255),
            EyeColor::Green => (50, 255, 50),
            EyeColor::Red => (255, 50, 50),
            EyeColor::Yellow => (255, 255, 50),
        }
    }
}

impl EyeSize {
    /// Width of one eye, in pixels.
    pub open spec fn spec_width(self) -> int {
        match self {
            EyeSize::Small => 60,
            EyeSize::Medium => 80,
            EyeSize::Large => 100,
        }
    }

    /// Height of one eye, in pixels.
    pub open spec fn spec_height(self) -> int {
        match self {
            EyeSize::Small => 45,
            EyeSize::Medium => 60,
            EyeSize::Large => 75,
        }
    }

    /// Row of the top of the eyes.
    pub open spec fn spec_top(self) -> int {
        match self {
            EyeSize::Small => 70,
            EyeSize::Medium => 60,
            EyeSize::Large => 50,
        }
    }

    /// Column of the left edge of the left eye: the two eyes and the gap
    /// between them are centred on the screen.
    pub open spec fn spec_left_x(self) -> int {
        (240 - 20 - self.spec_width()) / 2
    }

    /// Column of the left edge of the right eye.
    pub open spec fn spec_right_x(self) -> int {
        self.spec_left_x() + 20 + self.spec_width()
    }

    /// Width, height and top row of one eye.
    pub fn dimensions(self) -> (dims: (usize, usize, i32))
        ensures
            dims.0 == self.spec_width(),
            dims.1 == self.spec_height(),
            dims.2 == self.spec_top(),
    {
        match self {
            EyeSize::Small => (60, 45, 70),
            EyeSize::Medium => (80, 60, 60),
            EyeSize::Large => (100, 75, 50),
        }
    }
}

impl Expression {
    /// Whether the eyes are shut in this expression.
    pub open spec fn spec_shut(self) -> bool {
        self == Expression::Blink || self == Expression::Wink
    }
}

/// The buffer with an open eye painted in the box at (`x`, `y`): the ellipse
/// inscribed in the box, and on it the pupil, a black disc of an eighth of
/// the box's width around the middle of the box.
pub open spec fn with_eye(buf: Seq<u8>, x: int, y: int, w: int, h: int, color: (u8, u8, u8)) -> Seq<
    u8,
> {
    paint(
        paint(buf, Shape::Ellipse { x, y, w, h }, color),
        Shape::Disc { cx: x + w / 2, cy: y + h / 2, r: w / 8 },
        pupil_color(),
    )
}

/// The buffer with a shut eye painted in the box at (`x`, `y`): a grey line
/// across the middle of the box.
pub open spec fn with_eye_line(buf: Seq<u8>, x: int, y: int, w: int, h: int) -> Seq<u8> {
    paint(buf, Shape::Line { x, y: y + h / 2, w }, lid_color())
}

/// The picture of the eyes in a buffer of `len` bytes: black, with the left
/// eye and then the right eye painted on it, open or shut as the expression
/// has it.
pub open spec fn eyes_frame(len: nat, size: EyeSize, color: EyeColor, expression: Expression) -> Seq<
    u8,
> {
    let black = Seq::new(len, |i: int| 0u8);
    let w = size.spec_width();
    let h = size.spec_height();
    let y = size.spec_top();
    if expression.spec_shut() {
        with_eye_line(with_eye_line(black, size.spec_left_x(), y, w, h), size.spec_right_x(), y, w, h)
    } else {
        with_eye(
            with_eye(black, size.spec_left_x(), y, w, h, color.spec_rgb()),
            size.spec_right_x(),
            y,
            w,
            h,
            color.spec_rgb(),
        )
    }
}

/// A number from the thread's random generator, as `rand::random` gives it.
/// Any value may come.
#[verifier::external_body]
fn random_u32() -> (roll: u32) {
    rand::random::<u32>()
}

/// The eyes and their blinking.
pub struct RobotEyes {
    expression: Expression,
    eye_color: EyeColor,
    eye_size: EyeSize,
    blink_timer: u32,
    is_blinking: bool,
    blink_progress: u32,
    frame_counter: u32,
}

impl Default for RobotEyes {
    /// White eyes of medium size, neutral, not blinking.
    fn default() -> (eyes: Self)
        ensures
            eyes.spec_expression() == Expression::Neutral,
            eyes.spec_eye_color() == EyeColor::White,
            eyes.spec_eye_size() == EyeSize::Medium,
            eyes.spec_blink_timer() == 0,
            !eyes.spec_is_blinking(),
            eyes.spec_blink_progress() == 0,
            eyes.spec_frame_counter() == 0,
    {
        RobotEyes {
            expression: Expression::Neutral,
            eye_color: EyeColor::White,
            eye_size: EyeSize::Medium,
            blink_timer: 0,
            is_blinking: false,
            blink_progress: 0,
            frame_counter: 0,
        }
    }
}

impl RobotEyes {
    #[verifier::type_invariant]
    spec fn inv(&self) -> bool {
        self.is_blinking ==> self.blink_progress < BLINK_FRAMES
    }

    /// What the eyes express.
    pub closed spec fn spec_expression(&self) -> Expression {
        self.expression
    }

    /// Colour of the eyes.
    pub closed spec fn spec_eye_color(&self) -> EyeColor {
        self.eye_color
    }

    /// Size of the eyes.
    pub closed spec fn spec_eye_size(&self) -> EyeSize {
        self.eye_size
    }

    /// Frames to go before the eyes may blink again.
    pub closed spec fn spec_blink_timer(&self) -> u32 {
        self.blink_timer
    }

    /// Whether a blink is under way.
    pub closed spec fn spec_is_blinking(&self) -> bool {
        self.is_blinking
    }

    /// Frames that the blink under way has lasted.
    pub closed spec fn spec_blink_progress(&self) -> u32 {
        self.blink_progress
    }

    /// Frames drawn so far, counted modulo two to the thirty-second.
    pub closed spec fn spec_frame_counter(&self) -> u32 {
        self.frame_counter
    }

    /// The eyes may start a blink: none is under way and the timer has run
    /// out.
    pub open spec fn may_blink(&self) -> bool {
        !self.spec_is_blinking() && self.spec_blink_timer() == 0
    }

    /// `post` has the looks of `pre`: expression, colour and size.
    pub open spec fn same_looks(pre: &RobotEyes, post: &RobotEyes) -> bool {
        &&& post.spec_expression() == pre.spec_expression()
        &&& post.spec_eye_color() == pre.spec_eye_color()
        &&& post.spec_eye_size() == pre.spec_eye_size()
    }

    /// `post` blinks as `pre`, and has drawn as many frames.
    pub open spec fn same_blinking(pre: &RobotEyes, post: &RobotEyes) -> bool {
        &&& post.spec_blink_timer() == pre.spec_blink_timer()
        &&& post.spec_is_blinking() == pre.spec_is_blinking()
        &&& post.spec_blink_progress() == pre.spec_blink_progress()
        &&& post.spec_frame_counter() == pre.spec_frame_counter()
    }

    /// The number of frames after `count`, modulo two to the thirty-second.
    pub open spec fn next_count(count: u32) -> u32 {
        if count == u32::MAX {
            0u32
        } else {
            (count + 1) as u32
        }
    }

    /// `post` is `pre` after a blink was started, if one could be, with
    /// `roll` deciding how long the eyes then stay open, and one frame was
    /// drawn.
    pub open spec fn blinked_and_drawn(pre: &RobotEyes, post: &RobotEyes, roll: u32) -> bool {
        &&& post.spec_eye_color() == pre.spec_eye_color()
        &&& post.spec_eye_size() == pre.spec_eye_size()
        &&& post.spec_frame_counter() == Self::next_count(pre.spec_frame_counter())
        &&& if pre.may_blink() {
            &&& post.spec_is_blinking()
            &&& post.spec_blink_progress() == 1
            &&& post.spec_blink_timer() == 120 + roll % 180
            &&& post.spec_expression() == pre.spec_expression()
        } else {
            Self::blink_ticked(pre, post)
        }
    }

    /// `post` is `pre` after a blink was started, if one could be, with the
    /// number `roll` deciding how long the eyes then stay open: between 120
    /// and 299 frames.
    pub open spec fn blink_started(pre: &RobotEyes, post: &RobotEyes, roll: u32) -> bool {
        &&& Self::same_looks(pre, post)
        &&& post.spec_frame_counter() == pre.spec_frame_counter()
        &&& if pre.may_blink() {
            &&& post.spec_is_blinking()
            &&& post.spec_blink_progress() == 0
            &&& post.spec_blink_timer() == 120 + roll % 180
        } else {
            &&& post.spec_is_blinking() == pre.spec_is_blinking()
            &&& post.spec_blink_progress() == pre.spec_blink_progress()
            &&& post.spec_blink_timer() == pre.spec_blink_timer()
        }
    }

    /// `post` is `pre` one frame later, as far as blinking goes: a blink
    /// under way has lasted one frame more, and is over with the tenth, which
    /// leaves the eyes neutral; with no blink under way the timer runs down.
    pub open spec fn blink_ticked(pre: &RobotEyes, post: &RobotEyes) -> bool {
        &&& post.spec_eye_color() == pre.spec_eye_color()
        &&& post.spec_eye_size() == pre.spec_eye_size()
        &&& if pre.spec_is_blinking() {
            &&& post.spec_blink_progress() == pre.spec_blink_progress() + 1
            &&& post.spec_is_blinking() == (pre.spec_blink_progress() + 1 < BLINK_FRAMES)
            &&& post.spec_expression() == if pre.spec_blink_progress() + 1 < BLINK_FRAMES {
                pre.spec_expression()
            } else {
                Expression::Neutral
            }
            &&& post.spec_blink_timer() == pre.spec_blink_timer()
        } else {
            &&& post.spec_blink_progress() == pre.spec_blink_progress()
            &&& !post.spec_is_blinking()
            &&& post.spec_expression() == pre.spec_expression()
            &&& post.spec_blink_timer() == if pre.spec_blink_timer() > 0 {
                (pre.spec_blink_timer() - 1) as u32
            } else {
                0u32
            }
        }
    }

    /// White eyes of medium size, neutral, not blinking.
    pub fn new() -> (eyes: Self)
        ensures
            eyes.spec_expression() == Expression::Neutral,
            eyes.spec_eye_color() == EyeColor::White,
            eyes.spec_eye_size() == EyeSize::Medium,
            eyes.spec_blink_timer() == 0,
            !eyes.spec_is_blinking(),
            eyes.spec_blink_progress() == 0,
            eyes.spec_frame_counter() == 0,
    {
        RobotEyes {
            expression: Expression::Neutral,
            eye_color: EyeColor::White,
            eye_size: EyeSize::Medium,
            blink_timer: 0,
            is_blinking: false,
            blink_progress: 0,
            frame_counter: 0,
        }
    }

    /// Sets what the eyes express.
    pub fn set_expression(&mut self, expression: Expression)
        ensures
            final(self).spec_expression() == expression,
            final(self).spec_eye_color() == old(self).spec_eye_color(),
            final(self).spec_eye_size() == old(self).spec_eye_size(),
            final(self).spec_blink_timer() == old(self).spec_blink_timer(),
            final(self).spec_is_blinking() == old(self).spec_is_blinking(),
            final(self).spec_blink_progress() == old(self).spec_blink_progress(),
            final(self).spec_frame_counter() == old(self).spec_frame_counter(),
    {
        proof {
            use_type_invariant(&*self);
        }
        self.expression = expression;
    }

    /// What the eyes express.
    pub fn get_expression(&self) -> (expression: Expression)
        ensures
            expression == self.spec_expression(),
    {
        self.expression
    }

    /// Sets the colour of the eyes.
    pub fn set_eye_color(&mut self, color: EyeColor)
        ensures
            final(self).spec_eye_color() == color,
            final(self).spec_expression() == old(self).spec_expression(),
            final(self).spec_eye_size() == old(self).spec_eye_size(),
            final(self).spec_blink_timer() == old(self).spec_blink_timer(),
            final(self).spec_is_blinking() == old(self).spec_is_blinking(),
            final(self).spec_blink_progress() == old(self).spec_blink_progress(),
            final(self).spec_frame_counter() == old(self).spec_frame_counter(),
    {
        proof {
            use_type_invariant(&*self);
        }
        self.eye_color = color;
    }

    /// Sets the size of the eyes.
    pub fn set_eye_size(&mut self, size: EyeSize)
        ensures
            final(self).spec_eye_size() == size,
            final(self).spec_expression() == old(self).spec_expression(),
            final(self).spec_eye_color() == old(self).spec_eye_color(),
            final(self).spec_blink_timer() == old(self).spec_blink_timer(),
            final(self).spec_is_blinking() == old(self).spec_is_blinking(),
            final(self).spec_blink_progress() == old(self).spec_blink_progress(),
            final(self).spec_frame_counter() == old(self).spec_frame_counter(),
    {
        proof {
            use_type_invariant(&*self);
        }
        self.eye_size = size;
    }

    /// Starts a blink if none is under way and the timer has run out; `roll`
    /// decides how long the eyes stay open afterwards.
    pub fn start_blink(&mut self, roll: u32)
        ensures
            Self::blink_started(old(self), final(self), roll),
    {
        proof {
            use_type_invariant(&*self);
        }
        if !self.is_blinking && self.blink_timer == 0 {
            self.blink_progress = 0;
            self.is_blinking = true;
            self.blink_timer = 120 + roll % 180;
        }
    }

    /// Starts a blink if none is under way and the timer has run out. How
    /// long the eyes stay open afterwards is left to chance.
    pub fn random_blink(&mut self)
        ensures
            exists|roll: u32| Self::blink_started(old(self), final(self), roll),
    {
        let roll = random_u32();
        self.start_blink(roll);
        assert(Self::blink_started(old(self), self, roll));
    }

    /// Whether a blink is under way.
    pub fn is_blinking(&self) -> (blinking: bool)
        ensures
            blinking == self.spec_is_blinking(),
    {
        self.is_blinking
    }

    /// Draws one frame into the buffer, which is a full frame or the
    /// beginning of one, and lets one frame's time pass for the blinking.
    pub fn generate_frame(&mut self, pixels: &mut [u8])
        ensures
            Self::blink_ticked(old(self), final(self)),
            final(self).spec_frame_counter() == Self::next_count(old(self).spec_frame_counter()),
            final(pixels)@ == eyes_frame(
                old(pixels)@.len(),
                final(self).spec_eye_size(),
                final(self).spec_eye_color(),
                final(self).spec_expression(),
            ),
    {
        proof {
            use_type_invariant(&*self);
        }
        self.frame_counter = if self.frame_counter == u32::MAX {
            0
        } else {
            self.frame_counter + 1
        };
        self.update_blink();
        clear(pixels);
        let (eye_width, eye_height, eye_y) = self.eye_size.dimensions();
        let left_eye_x: i32 = (FRAME_WIDTH as i32 - EYE_GAP - eye_width as i32) / 2;
        let right_eye_x: i32 = left_eye_x + EYE_GAP + eye_width as i32;
        match self.expression {
            Expression::Blink | Expression::Wink => {
                Self::draw_eye_line(pixels, left_eye_x, eye_y, eye_width, eye_height);
                Self::draw_eye_line(pixels, right_eye_x, eye_y, eye_width, eye_height);
            },
            _ => {
                let color = self.eye_color.rgb();
                Self::draw_eye(pixels, left_eye_x, eye_y, eye_width, eye_height, color);
                Self::draw_eye(pixels, right_eye_x, eye_y, eye_width, eye_height, color);
            },
        }
    }

    /// Lets one frame's time pass for the blinking.
    fn update_blink(&mut self)
        ensures
            Self::blink_ticked(old(self), final(self)),
            final(self).spec_frame_counter() == old(self).spec_frame_counter(),
    {
        proof {
            use_type_invariant(&*self);
        }
        if self.is_blinking {
            let progress = self.blink_progress + 1;
            if progress >= BLINK_FRAMES {
                self.is_blinking = false;
                self.expression = Expression::Neutral;
            }
            self.blink_progress = progress;
        } else if self.blink_timer > 0 {
            self.blink_timer = self.blink_timer - 1;
        }
    }

    /// Paints an open eye in the box at (`x`, `y`).
    fn draw_eye(pixels: &mut [u8], x: i32, y: i32, w: usize, h: usize, color: (u8, u8, u8))
        requires
            -10000 <= x <= 10000,
            -10000 <= y <= 10000,
            w <= 1000,
            h <= 1000,
        ensures
            final(pixels)@ == with_eye(old(pixels)@, x as int, y as int, w as int, h as int, color),
    {
        let ghost shape = Shape::Ellipse { x: x as int, y: y as int, w: w as int, h: h as int };
        let ghost start = pixels@;
        proof {
            lemma_paint_none(start, shape, color);
        }
        assert(0 <= w * w <= 1_000_000 && 0 <= h * h <= 1_000_000) by (nonlinear_arith)
            requires
                0 <= w <= 1000,
                0 <= h <= 1000,
        ;
        let ww: i64 = (w * w) as i64;
        let hh: i64 = (h * h) as i64;
        assert(ww * hh <= 1_000_000_000_000) by (nonlinear_arith)
            requires
                0 <= ww <= 1_000_000,
                0 <= hh <= 1_000_000,
        ;
        let mut py: usize = 0;
        while py < h
            invariant
                0 <= py <= h,
                -10000 <= x <= 10000,
                -10000 <= y <= 10000,
                w <= 1000,
                h <= 1000,
                ww == w * w,
                hh == h * h,
                0 <= ww <= 1_000_000,
                0 <= hh <= 1_000_000,
                ww * hh <= 1_000_000_000_000,
                shape == (Shape::Ellipse { x: x as int, y: y as int, w: w as int, h: h as int }),
                pixels@ == paint_upto(start, shape, color, py as int, 0),
            decreases h - py,
        {
            let mut px: usize = 0;
            while px < w
                invariant
                    0 <= px <= w,
                    0 <= py < h,
                    -10000 <= x <= 10000,
                    -10000 <= y <= 10000,
                    w <= 1000,
                    h <= 1000,
                    ww == w * w,
                    hh == h * h,
                    0 <= ww <= 1_000_000,
                    0 <= hh <= 1_000_000,
                    ww * hh <= 1_000_000_000_000,
                    shape == (Shape::Ellipse {
                        x: x as int,
                        y: y as int,
                        w: w as int,
                        h: h as int,
                    }),
                    pixels@ == paint_upto(start, shape, color, py as int, px as int),
                decreases w - px,
            {
                proof {
                    lemma_paint_step(start, shape, color, py as int, px as int);
                }
                let a: i64 = 2 * (px as i64) - w as i64;
                let b: i64 = 2 * (py as i64) - h as i64;
                assert(0 <= a * a <= 1_000_000) by (nonlinear_arith)
                    requires
                        -1000 <= a <= 1000,
                ;
                assert(0 <= b * b <= 1_000_000) by (nonlinear_arith)
                    requires
                        -1000 <= b <= 1000,
                ;
                assert(0 <= (a * a) * hh <= 1_000_000_000_000) by (nonlinear_arith)
                    requires
                        0 <= a * a <= 1_000_000,
                        0 <= hh <= 1_000_000,
                ;
                assert(0 <= (b * b) * ww <= 1_000_000_000_000) by (nonlinear_arith)
                    requires
                        0 <= b * b <= 1_000_000,
                        0 <= ww <= 1_000_000,
                ;
                if a * a * hh + b * b * ww <= ww * hh {
                    set_pixel(pixels, x + px as i32, y + py as i32, color);
                }
                px += 1;
            }
            proof {
                lemma_paint_row(start, shape, color, py as int);
            }
            py += 1;
        }
        proof {
            lemma_paint_all(start, shape, color);
        }
        let pupil_radius: i32 = (w / 8) as i32;
        let pupil_x: i32 = x + (w as i32 / 2);
        let pupil_y: i32 = y + (h as i32 / 2);
        Self::draw_circle(pixels, pupil_x, pupil_y, pupil_radius, (0, 0, 0));
    }

    /// Paints a shut eye in the box at (`x`, `y`).
    fn draw_eye_line(pixels: &mut [u8], x: i32, y: i32, w: usize, h: usize)
        requires
            -10000 <= x <= 10000,
            -10000 <= y <= 10000,
            w <= 1000,
            h <= 1000,
        ensures
            final(pixels)@ == with_eye_line(old(pixels)@, x as int, y as int, w as int, h as int),
    {
        let line_y: i32 = y + (h as i32 / 2);
        let ghost shape = Shape::Line { x: x as int, y: line_y as int, w: w as int };
        let ghost start = pixels@;
        proof {
            lemma_paint_none(start, shape, lid_color());
        }
        let mut px: usize = 0;
        while px < w
            invariant
                0 <= px <= w,
                -10000 <= x <= 10000,
                w <= 1000,
                shape == (Shape::Line { x: x as int, y: line_y as int, w: w as int }),
                pixels@ == paint_upto(start, shape, lid_color(), 0, px as int),
            decreases w - px,
        {
            proof {
                lemma_paint_step(start, shape, lid_color(), 0, px as int);
            }
            set_pixel(pixels, x + px as i32, line_y, (100, 100, 100));
            px += 1;
        }
        proof {
            lemma_paint_row(start, shape, lid_color(), 0);
            lemma_paint_all(start, shape, lid_color());
        }
    }

    /// Paints a disc of radius `r` around (`cx`, `cy`).
    fn draw_circle(pixels: &mut [u8], cx: i32, cy: i32, r: i32, color: (u8, u8, u8))
        requires
            -20000 <= cx <= 20000,
            -20000 <= cy <= 20000,
            0 <= r <= 1000,
        ensures
            final(pixels)@ == paint(
                old(pixels)@,
                Shape::Disc { cx: cx as int, cy: cy as int, r: r as int },
                color,
            ),
    {
        let ghost shape = Shape::Disc { cx: cx as int, cy: cy as int, r: r as int };
        let ghost start = pixels@;
        proof {
            lemma_paint_none(start, shape, color);
        }
        assert(0 <= r * r <= 1_000_000) by (nonlinear_arith)
            requires
                0 <= r <= 1000,
        ;
        let r_sq: i32 = r * r;
        let side: i32 = 2 * r + 1;
        let mut py: i32 = 0;
        while py < side
            invariant
                0 <= py <= side,
                side == 2 * r + 1,
                -20000 <= cx <= 20000,
                -20000 <= cy <= 20000,
                0 <= r <= 1000,
                r_sq == r * r,
                shape == (Shape::Disc { cx: cx as int, cy: cy as int, r: r as int }),
                pixels@ == paint_upto(start, shape, color, py as int, 0),
            decreases side - py,
        {
            let mut px: i32 = 0;
            while px < side
                invariant
                    0 <= px <= side,
                    0 <= py < side,
                    side == 2 * r + 1,
                    -20000 <= cx <= 20000,
                    -20000 <= cy <= 20000,
                    0 <= r <= 1000,
                    r_sq == r * r,
                    shape == (Shape::Disc { cx: cx as int, cy: cy as int, r: r as int }),
                    pixels@ == paint_upto(start, shape, color, py as int, px as int),
                decreases side - px,
            {
                proof {
                    lemma_paint_step(start, shape, color, py as int, px as int);
                }
                let dx: i32 = px - r;
                let dy: i32 = py - r;
                assert(0 <= dx * dx <= 1_000_000) by (nonlinear_arith)
                    requires
                        -1000 <= dx <= 1000,
                ;
                assert(0 <= dy * dy <= 1_000_000) by (nonlinear_arith)
                    requires
                        -1000 <= dy <= 1000,
                ;
                if dx * dx + dy * dy <= r_sq {
                    set_pixel(pixels, cx + dx, cy + dy, color);
                }
                px += 1;
            }
            proof {
                lemma_paint_row(start, shape, color, py as int);
            }
            py += 1;
        }
        proof {
            lemma_paint_all(start, shape, color);
        }
    }
}

/// The eyes with a blink of their own now and then.
pub struct EyeController {
    eyes: RobotEyes,
}

impl Default for EyeController {
    /// White eyes of medium size, neutral, not blinking.
    fn default() -> (controller: Self)
        ensures
            controller.spec_eyes().spec_expression() == Expression::Neutral,
            controller.spec_eyes().spec_eye_color() == EyeColor::White,
            controller.spec_eyes().spec_eye_size() == EyeSize::Medium,
            controller.spec_eyes().spec_blink_timer() == 0,
            !controller.spec_eyes().spec_is_blinking(),
            controller.spec_eyes().spec_blink_progress() == 0,
            controller.spec_eyes().spec_frame_counter() == 0,
    {
        EyeController { eyes: RobotEyes::new() }
    }
}

impl EyeController {
    /// The eyes.
    pub closed spec fn spec_eyes(&self) -> RobotEyes {
        self.eyes
    }

    /// White eyes of medium size, neutral, not blinking.
    pub fn new() -> (controller: Self)
        ensures
            controller.spec_eyes().spec_expression() == Expression::Neutral,
            controller.spec_eyes().spec_eye_color() == EyeColor::White,
            controller.spec_eyes().spec_eye_size() == EyeSize::Medium,
            controller.spec_eyes().spec_blink_timer() == 0,
            !controller.spec_eyes().spec_is_blinking(),
            controller.spec_eyes().spec_blink_progress() == 0,
            controller.spec_eyes().spec_frame_counter() == 0,
    {
        EyeController { eyes: RobotEyes::new() }
    }

    /// Draws one frame into the buffer, after starting a blink where one is
    /// due.
    pub fn generate_frame(&mut self, pixels: &mut [u8])
        ensures
            exists|roll: u32|
                RobotEyes::blinked_and_drawn(
                    &old(self).spec_eyes(),
                    &final(self).spec_eyes(),
                    roll,
                ),
            final(pixels)@ == eyes_frame(
                old(pixels)@.len(),
                final(self).spec_eyes().spec_eye_size(),
                final(self).spec_eyes().spec_eye_color(),
                final(self).spec_eyes().spec_expression(),
            ),
    {
        self.eyes.random_blink();
        let ghost started = self.eyes;
        self.eyes.generate_frame(pixels);
        proof {
            let roll = choose|roll: u32|
                RobotEyes::blink_started(&old(self).spec_eyes(), &started, roll);
            assert(RobotEyes::blinked_and_drawn(&old(self).spec_eyes(), &self.spec_eyes(), roll));
        }
    }

    /// Sets what the eyes express.
    pub fn set_expression(&mut self, expression: Expression)
        ensures
            final(self).spec_eyes().spec_expression() == expression,
            final(self).spec_eyes().spec_eye_color() == old(self).spec_eyes().spec_eye_color(),
            final(self).spec_eyes().spec_eye_size() == old(self).spec_eyes().spec_eye_size(),
            RobotEyes::same_blinking(&old(self).spec_eyes(), &final(self).spec_eyes()),
    {
        self.eyes.set_expression(expression);
    }

    /// Sets the colour of the eyes.
    pub fn set_eye_color(&mut self, color: EyeColor)
        ensures
            final(self).spec_eyes().spec_eye_color() == color,
            final(self).spec_eyes().spec_expression() == old(self).spec_eyes().spec_expression(),
            final(self).spec_eyes().spec_eye_size() == old(self).spec_eyes().spec_eye_size(),
            RobotEyes::same_blinking(&old(self).spec_eyes(), &final(self).spec_eyes()),
    {
        self.eyes.set_eye_color(color);
    }

    /// Sets the size of the eyes.
    pub fn set_eye_size(&mut self, size: EyeSize)
        ensures
            final(self).spec_eyes().spec_eye_size() == size,
            final(self).spec_eyes().spec_expression() == old(self).spec_eyes().spec_expression(),
            final(self).spec_eyes().spec_eye_color() == old(self).spec_eyes().spec_eye_color(),
            RobotEyes::same_blinking(&old(self).spec_eyes(), &final(self).spec_eyes()),
    {
        self.eyes.set_eye_size(size);
    }
}

} // verus!
