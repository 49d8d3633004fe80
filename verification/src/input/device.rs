//! Events of the servo control.

use vstd::prelude::*;
use crate::console::{App, Effect};
use crate::joint::{greater, joint_max, joint_min, lesser};

verus! {

/// An event of the servo control.
#[derive(Debug, Clone, Copy, PartialEq, Eq, Structural)]
pub enum DeviceEvent {
    Exit,
    Next,
    Prev,
    Increase,
    Decrease,
    Screenshot,
}

/// What an event of the servo control makes of the console. Nothing unless
/// the servos are steered. Otherwise: the steering ends; or another servo is
/// selected; or the selected servo moves by a degree within its range; or a
/// picture of the LCD is asked for.
pub open spec fn device_handled(pre: &App, event: DeviceEvent, post: &App, effect: Effect) -> bool {
    let selected = pre.joint.spec_selected();
    let values = pre.joint.spec_values();
    if !pre.in_servo_mode {
        effect == Effect::Nothing && App::unchanged(pre, post)
    } else {
        match event {
            DeviceEvent::Exit => effect == Effect::Nothing && App::with_modes(
                pre,
                post,
                false,
                pre.in_settings,
                pre.left_focused,
            ),
            DeviceEvent::Next => {
                &&& effect == Effect::Nothing
                &&& App::same_but_joint(pre, post)
                &&& post.joint.spec_selected() == (selected + 1) % 6
                &&& post.joint.spec_values() == values
            },
            DeviceEvent::Prev => {
                &&& effect == Effect::Nothing
                &&& App::same_but_joint(pre, post)
                &&& post.joint.spec_selected() == (selected + 5) % 6
                &&& post.joint.spec_values() == values
            },
            DeviceEvent::Increase => {
                &&& effect == Effect::Nothing
                &&& App::same_but_joint(pre, post)
                &&& post.joint.spec_selected() == selected
                &&& post.joint.spec_values() == values.update(
                    selected,
                    lesser(values[selected] + 1, joint_max(selected)) as i16,
                )
            },
            DeviceEvent::Decrease => {
                &&& effect == Effect::Nothing
                &&& App::same_but_joint(pre, post)
                &&& post.joint.spec_selected() == selected
                &&& post.joint.spec_values() == values.update(
                    selected,
                    greater(values[selected] - 1, joint_min(selected)) as i16,
                )
            },
            DeviceEvent::Screenshot => effect == Effect::Screenshot && App::unchanged(pre, post),
        }
    }
}

/// Lets an event of the servo control act on the console.
pub fn handle(app: &mut App, event: DeviceEvent) -> (effect: Effect)
    ensures
        device_handled(old(app), event, final(app), effect),
        old(app).wf() ==> final(app).wf(),
{
    if !app.in_servo_mode {
        return Effect::Nothing;
    }
    match event {
        DeviceEvent::Exit => {
            app.in_servo_mode = false;
            Effect::Nothing
        },
        DeviceEvent::Next => {
            app.joint.next_servo();
            Effect::Nothing
        },
        DeviceEvent::Prev => {
            app.joint.prev_servo();
            Effect::Nothing
        },
        DeviceEvent::Increase => {
            app.joint.increase();
            Effect::Nothing
        },
        DeviceEvent::Decrease => {
            app.joint.decrease();
            Effect::Nothing
        },
        DeviceEvent::Screenshot => app.take_screenshot(),
    }
}

} // verus!
