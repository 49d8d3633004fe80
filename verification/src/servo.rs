//! The six servo angles as the console's control page keeps them: whole
//! degrees within one range that is the same for every servo.

use vstd::prelude::*;
use crate::codec::{angle_bits, single_bits};
use crate::constants::{SERVO_COUNT, SERVO_MAX, SERVO_MIN};
use crate::joint::JointConfig;

verus! {

/// The angles of the six servos and the servo that the operator has
/// selected.
#[derive(Clone, Debug)]
pub struct ServoState {
    pub values: [i16; SERVO_COUNT],
    pub selected: usize,
}

impl Default for ServoState {
    /// All servos at zero degrees, the first one selected.
    fn default() -> (state: Self)
        ensures
            state.selected == 0,
            state.values@ == Seq::new(6, |i: int| 0i16),
    {
        let state = ServoState { values: [0i16; SERVO_COUNT], selected: 0 };
        assert(state.values@ =~= Seq::new(6, |i: int| 0i16));
        state
    }
}

/// The name of servo `index`.
pub open spec fn servo_name_text(index: int) -> Seq<char> {
    if index == 0 {
        "头部"@
    } else if index == 1 {
        "腰部"@
    } else if index == 2 {
        "左肩膀"@
    } else if index == 3 {
        "左臂"@
    } else if index == 4 {
        "右肩膀"@
    } else if index == 5 {
        "右臂"@
    } else {
        "未知"@
    }
}

/// The angle `angle` moved up by `step` degrees, but not beyond the highest
/// angle; an angle at or above the highest stays.
pub open spec fn raised(angle: int, step: int) -> int {
    if angle >= SERVO_MAX {
        angle
    } else if angle + step > SERVO_MAX {
        SERVO_MAX as int
    } else {
        angle + step
    }
}

/// The angle `angle` moved down by `step` degrees, but not beyond the lowest
/// angle; an angle at or below the lowest stays.
pub open spec fn lowered(angle: int, step: int) -> int {
    if angle <= SERVO_MIN {
        angle
    } else if angle - step < SERVO_MIN {
        SERVO_MIN as int
    } else {
        angle - step
    }
}

/// Where an angle lies in the servo range, in percent: 0 at the lowest
/// angle, 100 at the highest, rounded down.
pub open spec fn percent_of(angle: int) -> int {
    (angle - SERVO_MIN) * 100 / (SERVO_MAX - SERVO_MIN)
}

/// The angle held to the servo range.
pub open spec fn clamped(angle: int) -> int {
    if angle < SERVO_MIN {
        SERVO_MIN as int
    } else if angle > SERVO_MAX {
        SERVO_MAX as int
    } else {
        angle
    }
}

impl ServoState {
    /// The name of servo `index`; a word for "unknown" beyond the sixth.
    pub fn servo_name(index: usize) -> (name: &'static str)
        ensures
            name@ == servo_name_text(index as int),
    {
        if index == 0 {
            "头部"
        } else if index == 1 {
            "腰部"
        } else if index == 2 {
            "左肩膀"
        } else if index == 3 {
            "左臂"
        } else if index == 4 {
            "右肩膀"
        } else if index == 5 {
            "右臂"
        } else {
            "未知"
        }
    }

    /// Selects the next servo, the first after the last.
    pub fn next_servo(&mut self)
        requires
            old(self).selected < usize::MAX,
        ensures
            final(self).selected == (old(self).selected + 1) % 6,
            final(self).values == old(self).values,
    {
        self.selected = (self.selected + 1) % SERVO_COUNT;
    }

    /// Selects the servo before, the last before the first.
    pub fn prev_servo(&mut self)
        requires
            old(self).selected <= usize::MAX - 6,
        ensures
            final(self).selected == (old(self).selected + 5) % 6,
            final(self).values == old(self).values,
    {
        self.selected = (self.selected + SERVO_COUNT - 1) % SERVO_COUNT;
    }

    /// Moves the selected servo by `step` degrees up, or down where `up` is
    /// false, within the servo range.
    fn nudge(&mut self, step: i16, up: bool)
        requires
            old(self).selected < 6,
            1 <= step <= 5,
        ensures
            final(self).selected == old(self).selected,
            final(self).values@ == old(self).values@.update(
                old(self).selected as int,
                (if up {
                    raised(old(self).values@[old(self).selected as int] as int, step as int)
                } else {
                    lowered(old(self).values@[old(self).selected as int] as int, step as int)
                }) as i16,
            ),
    {
        let angle: i16 = self.values[self.selected];
        let moved: i16 = if up {
            if angle >= SERVO_MAX {
                angle
            } else if angle + step > SERVO_MAX {
                SERVO_MAX
            } else {
                angle + step
            }
        } else {
            if angle <= SERVO_MIN {
                angle
            } else if angle - step < SERVO_MIN {
                SERVO_MIN
            } else {
                angle - step
            }
        };
        self.values[self.selected] = moved;
    }

    /// Raises the selected servo by one degree, not beyond the highest angle.
    pub fn increase(&mut self)
        requires
            old(self).selected < 6,
        ensures
            final(self).selected == old(self).selected,
            final(self).values@ == old(self).values@.update(
                old(self).selected as int,
                raised(old(self).values@[old(self).selected as int] as int, 1) as i16,
            ),
    {
        self.nudge(1, true);
    }

    /// Lowers the selected servo by one degree, not beyond the lowest angle.
    pub fn decrease(&mut self)
        requires
            old(self).selected < 6,
        ensures
            final(self).selected == old(self).selected,
            final(self).values@ == old(self).values@.update(
                old(self).selected as int,
                lowered(old(self).values@[old(self).selected as int] as int, 1) as i16,
            ),
    {
        self.nudge(1, false);
    }

    /// Raises the selected servo by five degrees, not beyond the highest
    /// angle.
    pub fn increase_big(&mut self)
        requires
            old(self).selected < 6,
        ensures
            final(self).selected == old(self).selected,
            final(self).values@ == old(self).values@.update(
                old(self).selected as int,
                raised(old(self).values@[old(self).selected as int] as int, 5) as i16,
            ),
    {
        self.nudge(5, true);
    }

    /// Lowers the selected servo by five degrees, not beyond the lowest
    /// angle.
    pub fn decrease_big(&mut self)
        requires
            old(self).selected < 6,
        ensures
            final(self).selected == old(self).selected,
            final(self).values@ == old(self).values@.update(
                old(self).selected as int,
                lowered(old(self).values@[old(self).selected as int] as int, 5) as i16,
            ),
    {
        self.nudge(5, false);
    }

    /// Where an angle lies in the servo range, in percent, for an angle that
    /// is not below the range.
    pub fn to_percent(value: i16) -> (percent: u16)
        requires
            value >= SERVO_MIN,
        ensures
            percent == percent_of(value as int),
    {
        let wide: i32 = value as i32;
        ((wide + 180) * 100 / 360) as u16
    }

    /// Where an angle lies in the servo range, in percent. An angle outside
    /// the range counts as the end of the range that it lies beyond.
    pub fn percent(value: i16) -> (percent: u16)
        ensures
            percent == percent_of(clamped(value as int)),
            percent <= 100,
    {
        let held: i16 = if value < SERVO_MIN {
            SERVO_MIN
        } else if value > SERVO_MAX {
            SERVO_MAX
        } else {
            value
        };
        Self::to_percent(held)
    }

    /// The command that powers the servos and asks for these angles.
    pub fn to_joint_config(&self) -> (cfg: JointConfig)
        ensures
            cfg.enable == 1,
            cfg.angles@.len() == 6,
            forall|i: int| 0 <= i < 6 ==> cfg.angles@[i] == single_bits(self.values@[i] as int),
    {
        let mut angles = [0u32; SERVO_COUNT];
        let mut i: usize = 0;
        while i < SERVO_COUNT
            invariant
                0 <= i <= 6,
                forall|k: int| 0 <= k < i ==> angles@[k] == single_bits(self.values@[k] as int),
            decreases 6 - i,
        {
            angles[i] = angle_bits(self.values[i]);
            i += 1;
        }
        JointConfig { enable: 1, angles }
    }
}

} // verus!
