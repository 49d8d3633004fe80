//! What the LCD shows: the robot's eyes, or a picture that was set.

use vstd::prelude::*;
use vstd::slice::slice_to_vec;
use crate::eyes::{eyes_frame, EyeColor, EyeSize, Expression, RobotEyes};

verus! {

/// What the LCD shows.
#[derive(Clone, Copy, Debug, PartialEq, Eq, Structural)]
pub enum DisplayMode {
    RobotEyes,
    Image,
}

/// Chooses what the LCD shows, and keeps the picture to show.
pub struct DisplayController {
    mode: DisplayMode,
    image_data: Option<Vec<u8>>,
}

impl Default for DisplayController {
    /// A controller that shows the eyes and holds no picture.
    fn default() -> (controller: Self)
        ensures
            controller.spec_mode() == DisplayMode::RobotEyes,
            controller.spec_image() is None,
    {
        DisplayController { mode: DisplayMode::RobotEyes, image_data: None }
    }
}

impl DisplayController {
    /// What the LCD shows.
    pub closed spec fn spec_mode(&self) -> DisplayMode {
        self.mode
    }

    /// The bytes of the picture that was set, if one was.
    pub closed spec fn spec_image(&self) -> Option<Seq<u8>> {
        match self.image_data {
            Some(data) => Some(data@),
            None => None,
        }
    }

    /// What a buffer holds after a frame was drawn into it: the eyes in
    /// their first frame, wide open; or the picture; or, with no picture
    /// set, what it held before.
    pub open spec fn frame(&self, before: Seq<u8>) -> Seq<u8> {
        match self.spec_mode() {
            DisplayMode::RobotEyes => eyes_frame(
                before.len(),
                EyeSize::Medium,
                EyeColor::White,
                Expression::Neutral,
            ),
            DisplayMode::Image => match self.spec_image() {
                Some(image) => image,
                None => before,
            },
        }
    }

    /// A controller that shows the eyes and holds no picture.
    pub fn new() -> (controller: Self)
        ensures
            controller.spec_mode() == DisplayMode::RobotEyes,
            controller.spec_image() is None,
    {
        DisplayController { mode: DisplayMode::RobotEyes, image_data: None }
    }

    /// Draws the frame to show into the buffer. A picture, where one is
    /// shown, must be of the buffer's size.
    pub fn generate_pixels(&mut self, pixels: &mut [u8])
        requires
            old(self).spec_mode() == DisplayMode::Image ==> match old(self).spec_image() {
                Some(image) => image.len() == old(pixels)@.len(),
                None => true,
            },
        ensures
            final(self).spec_mode() == old(self).spec_mode(),
            final(self).spec_image() == old(self).spec_image(),
            final(pixels)@ == old(self).frame(old(pixels)@),
    {
        match self.mode {
            DisplayMode::RobotEyes => self.generate_eyes_pixels(pixels),
            DisplayMode::Image => self.generate_image_pixels(pixels),
        }
    }

    /// Draws the eyes in their first frame.
    fn generate_eyes_pixels(&self, pixels: &mut [u8])
        ensures
            final(pixels)@ == eyes_frame(
                old(pixels)@.len(),
                EyeSize::Medium,
                EyeColor::White,
                Expression::Neutral,
            ),
    {
        let mut eyes = RobotEyes::new();
        eyes.random_blink();
        eyes.generate_frame(pixels);
    }

    /// Copies the picture into the buffer, where a picture was set.
    fn generate_image_pixels(&self, pixels: &mut [u8])
        requires
            match self.spec_image() {
                Some(image) => image.len() == old(pixels)@.len(),
                None => true,
            },
        ensures
            final(pixels)@ == match self.spec_image() {
                Some(image) => image,
                None => old(pixels)@,
            },
    {
        if let Some(ref image_data) = self.image_data {
            let n = pixels.len();
            let mut i: usize = 0;
            while i < n
                invariant
                    0 <= i <= n,
                    n == pixels@.len(),
                    n == image_data@.len(),
                    forall|k: int| 0 <= k < i ==> pixels@[k] == image_data@[k],
                decreases n - i,
            {
                pixels[i] = image_data[i];
                i += 1;
            }
            assert(pixels@ =~= image_data@);
        }
    }

    /// Sets what the LCD shows.
    pub fn set_mode(&mut self, mode: DisplayMode)
        ensures
            final(self).spec_mode() == mode,
            final(self).spec_image() == old(self).spec_image(),
    {
        self.mode = mode;
    }

    /// What the LCD shows.
    pub fn get_mode(&self) -> (mode: DisplayMode)
        ensures
            mode == self.spec_mode(),
    {
        self.mode
    }

    /// Sets the picture, and shows it from now on.
    pub fn set_image(&mut self, image_data: &[u8])
        ensures
            final(self).spec_mode() == DisplayMode::Image,
            final(self).spec_image() == Some(image_data@),
    {
        self.image_data = Some(slice_to_vec(image_data));
        self.mode = DisplayMode::Image;
    }
}

} // verus!
