//! Sizes and limits shared by the whole crate.

use vstd::prelude::*;

verus! {

/// Number of servos on the robot.
pub const SERVO_COUNT: usize = 6;

/// Lowest angle, in degrees, that the console lets a servo take.
pub const SERVO_MIN: i16 = -180;

/// Highest angle, in degrees, that the console lets a servo take.
pub const SERVO_MAX: i16 = 180;

/// Number of entries the message log keeps.
pub const MAX_LOG_ENTRIES: usize = 50;

/// Width of the LCD in pixels.
pub const FRAME_WIDTH: usize = 240;

/// Height of the LCD in pixels.
pub const FRAME_HEIGHT: usize = 240;

/// Bytes per pixel (RGB888).
pub const FRAME_DEPTH: usize = 3;

/// Bytes in one full LCD frame.
pub const FRAME_SIZE: usize = 172800;

/// Bytes in the slice of a frame that one exchange round carries.
pub const FRAME_CHUNK_SIZE: usize = 43200;

/// The frame sizes are the products of the LCD's dimensions.
pub proof fn lemma_frame_sizes()
    ensures
        FRAME_SIZE == FRAME_WIDTH * FRAME_HEIGHT * FRAME_DEPTH,
        FRAME_CHUNK_SIZE == 60 * FRAME_WIDTH * FRAME_DEPTH,
        FRAME_SIZE == 4 * FRAME_CHUNK_SIZE,
{
}

} // verus!
