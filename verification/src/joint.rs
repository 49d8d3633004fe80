//! Joint control: the command record, and the six servo angles the operator
//! steers.

use vstd::prelude::*;
use vstd::string::StringExecFns;
use crate::codec::{angle_bits, command_record, encode_command, single_bits};
use crate::constants::SERVO_COUNT;
use crate::text::{integer_text, push_integer};

verus! {

/// A joint command: whether the servo bus is powered, and one angle per
/// servo, in degrees, each held as the bit pattern of an IEEE-754 single.
#[derive(Clone, Copy, Debug)]
pub struct JointConfig {
    pub enable: u8,
    pub angles: [u32; SERVO_COUNT],
}

impl Default for JointConfig {
    /// The command that powers the servos down, all angles at zero.
    fn default() -> (cfg: Self)
        ensures
            cfg.enable == 0,
            cfg.angles@ == Seq::new(6, |i: int| 0u32),
    {
        let cfg = JointConfig { enable: 0, angles: [0u32; SERVO_COUNT] };
        assert(cfg.angles@ =~= Seq::new(6, |i: int| 0u32));
        cfg
    }
}

impl JointConfig {
    /// The 32-byte wire form of this command.
    pub fn as_bytes(self) -> (bytes: [u8; 32])
        ensures
            bytes@ == command_record(self.enable, self.angles@),
    {
        encode_command(&self)
    }

    /// The 32-byte wire form of this command.
    pub fn to_bytes(self) -> (bytes: [u8; 32])
        ensures
            bytes@ == command_record(self.enable, self.angles@),
    {
        encode_command(&self)
    }
}

/// The name of servo `index`.
pub open spec fn joint_name_text(index: int) -> Seq<char> {
    if index == 0 {
        "头部"@
    } else if index == 1 {
        "左肩"@
    } else if index == 2 {
        "左臂"@
    } else if index == 3 {
        "右肩"@
    } else if index == 4 {
        "右臂"@
    } else if index == 5 {
        "身体"@
    } else {
        "Unknown"@
    }
}

/// The lowest angle of servo `index`, in degrees.
pub open spec fn joint_min(index: int) -> int {
    if index == 0 {
        -15
    } else if index == 1 || index == 3 {
        -30
    } else if index == 2 || index == 4 {
        -180
    } else if index == 5 {
        -90
    } else {
        -125
    }
}

/// The highest angle of servo `index`, in degrees.
pub open spec fn joint_max(index: int) -> int {
    if index == 0 {
        15
    } else if index == 1 || index == 3 {
        30
    } else if index == 2 || index == 4 {
        180
    } else if index == 5 {
        90
    } else {
        125
    }
}

/// The range of servo `index` as text.
pub open spec fn joint_range_text(index: int) -> Seq<char> {
    integer_text(joint_min(index)) + "° ~ "@ + integer_text(joint_max(index)) + "°"@
}

/// The smaller of two angles.
pub open spec fn lesser(a: int, b: int) -> int {
    if a <= b {
        a
    } else {
        b
    }
}

/// The larger of two angles.
pub open spec fn greater(a: int, b: int) -> int {
    if a >= b {
        a
    } else {
        b
    }
}

/// The angles of the six servos, each with a range of its own, and the servo
/// that the operator has selected.
#[derive(Clone, Debug)]
pub struct ServoState {
    pub values: [i16; SERVO_COUNT],
    pub selected: usize,
}

impl Default for ServoState {
    /// All servos at zero degrees, the first one selected.
    fn default() -> (state: Self)
        ensures
            state.selected == 0,
            state.values@ == Seq::new(6, |i: int| 0i16),
    {
        let state = ServoState { values: [0i16; SERVO_COUNT], selected: 0 };
        assert(state.values@ =~= Seq::new(6, |i: int| 0i16));
        state
    }
}

impl ServoState {
    /// A servo is selected and every angle lies within its servo's range.
    pub open spec fn within_limits(&self) -> bool {
        &&& self.selected < 6
        &&& forall|i: int|
            0 <= i < 6 ==> joint_min(i) <= #[trigger] self.values@[i] <= joint_max(i)
    }

    /// The name of servo `index`; "Unknown" beyond the sixth.
    pub fn name(index: usize) -> (name: &'static str)
        ensures
            name@ == joint_name_text(index as int),
    {
        if index == 0 {
            "头部"
        } else if index == 1 {
            "左肩"
        } else if index == 2 {
            "左臂"
        } else if index == 3 {
            "右肩"
        } else if index == 4 {
            "右臂"
        } else if index == 5 {
            "身体"
        } else {
            "Unknown"
        }
    }

    /// The lowest angle of servo `index`; -125 beyond the sixth.
    pub fn min_angle(index: usize) -> (angle: i16)
        ensures
            angle == joint_min(index as int),
        no_unwind
    {
        if index == 0 {
            -15
        } else if index == 1 || index == 3 {
            -30
        } else if index == 2 || index == 4 {
            -180
        } else if index == 5 {
            -90
        } else {
            -125
        }
    }

    /// The highest angle of servo `index`; 125 beyond the sixth.
    pub fn max_angle(index: usize) -> (angle: i16)
        ensures
            angle == joint_max(index as int),
        no_unwind
    {
        if index == 0 {
            15
        } else if index == 1 || index == 3 {
            30
        } else if index == 2 || index == 4 {
            180
        } else if index == 5 {
            90
        } else {
            125
        }
    }

    /// The range of one of the six servos as text, such as "-15° ~ 15°".
    pub fn range_str(index: usize) -> (text: String)
        requires
            index < 6,
        ensures
            text@ == joint_range_text(index as int),
    {
        let mut text = String::new();
        push_integer(&mut text, Self::min_angle(index) as i32);
        text.append("° ~ ");
        push_integer(&mut text, Self::max_angle(index) as i32);
        text.append("°");
        assert(text@ =~= joint_range_text(index as int));
        text
    }

    /// Selects the next servo, the first after the last.
    pub fn next(&mut self)
        requires
            old(self).selected < usize::MAX,
        ensures
            final(self).selected == (old(self).selected + 1) % 6,
            final(self).values == old(self).values,
        no_unwind
    {
        self.selected = (self.selected + 1) % SERVO_COUNT;
    }

    /// Selects the servo before, the last before the first.
    pub fn prev(&mut self)
        requires
            old(self).selected <= usize::MAX - 6,
        ensures
            final(self).selected == (old(self).selected + 5) % 6,
            final(self).values == old(self).values,
        no_unwind
    {
        self.selected = (self.selected + SERVO_COUNT - 1) % SERVO_COUNT;
    }

    /// Raises the selected servo by one degree, not beyond its highest angle.
    pub fn increase(&mut self)
        requires
            old(self).selected < 6,
            old(self).values@[old(self).selected as int] < i16::MAX,
        ensures
            final(self).selected == old(self).selected,
            final(self).values@ == old(self).values@.update(
                old(self).selected as int,
                lesser(
                    old(self).values@[old(self).selected as int] + 1,
                    joint_max(old(self).selected as int),
                ) as i16,
            ),
            old(self).within_limits() ==> final(self).within_limits(),
        no_unwind
    {
        let max = Self::max_angle(self.selected);
        let raised: i16 = self.values[self.selected] + 1;
        self.values[self.selected] = if raised <= max {
            raised
        } else {
            max
        };
    }

    /// Lowers the selected servo by one degree, not beyond its lowest angle.
    pub fn decrease(&mut self)
        requires
            old(self).selected < 6,
            old(self).values@[old(self).selected as int] > i16::MIN,
        ensures
            final(self).selected == old(self).selected,
            final(self).values@ == old(self).values@.update(
                old(self).selected as int,
                greater(
                    old(self).values@[old(self).selected as int] - 1,
                    joint_min(old(self).selected as int),
                ) as i16,
            ),
            old(self).within_limits() ==> final(self).within_limits(),
        no_unwind
    {
        let min = Self::min_angle(self.selected);
        let lowered: i16 = self.values[self.selected] - 1;
        self.values[self.selected] = if lowered >= min {
            lowered
        } else {
            min
        };
    }

    /// The command that powers the servos and asks for these angles.
    pub fn as_config(&self) -> (cfg: JointConfig)
        ensures
            cfg.enable == 1,
            cfg.angles@.len() == 6,
            forall|i: int| 0 <= i < 6 ==> cfg.angles@[i] == single_bits(self.values@[i] as int),
    {
        let mut angles = [0u32; SERVO_COUNT];
        let mut i: usize = 0;
        while i < SERVO_COUNT
            invariant
                0 <= i <= 6,
                forall|k: int| 0 <= k < i ==> angles@[k] == single_bits(self.values@[k] as int),
            decreases 6 - i,
        {
            angles[i] = angle_bits(self.values[i]);
            i += 1;
        }
        JointConfig { enable: 1, angles }
    }
}

/// The joint controller: the servo angles, always within their ranges.
#[derive(Debug)]
pub struct Joint {
    state: ServoState,
}

impl Default for Joint {
    /// All servos at zero degrees, the first one selected.
    fn default() -> (joint: Self)
        ensures
            joint.spec_selected() == 0,
            joint.spec_values() == Seq::new(6, |i: int| 0i16),
    {
        Joint { state: ServoState::default() }
    }
}

impl Joint {
    #[verifier::type_invariant]
    spec fn inv(&self) -> bool {
        self.state.within_limits()
    }

    /// The angles of the six servos.
    pub closed spec fn spec_values(&self) -> Seq<i16> {
        self.state.values@
    }

    /// The index of the selected servo.
    pub closed spec fn spec_selected(&self) -> int {
        self.state.selected as int
    }

    /// A controller with all servos at zero degrees, the first one selected.
    pub fn new() -> (joint: Self)
        ensures
            joint.spec_selected() == 0,
            joint.spec_values() == Seq::new(6, |i: int| 0i16),
    {
        Joint { state: ServoState::default() }
    }

    /// The angles of the six servos, each within its servo's range.
    pub fn values(&self) -> (values: &[i16; SERVO_COUNT])
        ensures
            values@ == self.spec_values(),
            forall|i: int| 0 <= i < 6 ==> joint_min(i) <= #[trigger] values@[i] <= joint_max(i),
    {
        proof {
            use_type_invariant(self);
        }
        &self.state.values
    }

    /// The index of the selected servo.
    pub fn selected(&self) -> (index: usize)
        ensures
            index == self.spec_selected(),
            index < 6,
    {
        proof {
            use_type_invariant(self);
        }
        self.state.selected
    }

    /// Selects the next servo, the first after the last.
    pub fn next_servo(&mut self)
        ensures
            final(self).spec_selected() == (old(self).spec_selected() + 1) % 6,
            final(self).spec_values() == old(self).spec_values(),
    {
        proof {
            use_type_invariant(&*self);
        }
        self.state.next();
    }

    /// Selects the servo before, the last before the first.
    pub fn prev_servo(&mut self)
        ensures
            final(self).spec_selected() == (old(self).spec_selected() + 5) % 6,
            final(self).spec_values() == old(self).spec_values(),
    {
        proof {
            use_type_invariant(&*self);
        }
        self.state.prev();
    }

    /// Raises the selected servo by one degree, not beyond its highest angle.
    pub fn increase(&mut self)
        ensures
            final(self).spec_selected() == old(self).spec_selected(),
            final(self).spec_values() == old(self).spec_values().update(
                old(self).spec_selected(),
                lesser(
                    old(self).spec_values()[old(self).spec_selected()] + 1,
                    joint_max(old(self).spec_selected()),
                ) as i16,
            ),
    {
        proof {
            use_type_invariant(&*self);
        }
        self.state.increase();
    }

    /// Lowers the selected servo by one degree, not beyond its lowest angle.
    pub fn decrease(&mut self)
        ensures
            final(self).spec_selected() == old(self).spec_selected(),
            final(self).spec_values() == old(self).spec_values().update(
                old(self).spec_selected(),
                greater(
                    old(self).spec_values()[old(self).spec_selected()] - 1,
                    joint_min(old(self).spec_selected()),
                ) as i16,
            ),
    {
        proof {
            use_type_invariant(&*self);
        }
        self.state.decrease();
    }

    /// The command that powers the servos and asks for the current angles.
    pub fn config(&self) -> (cfg: JointConfig)
        ensures
            cfg.enable == 1,
            cfg.angles@.len() == 6,
            forall|i: int| 0 <= i < 6 ==> cfg.angles@[i] == single_bits(self.spec_values()[i] as int),
    {
        self.state.as_config()
    }
}

} // verus!
