//! Events of the menu.

use vstd::prelude::*;
use crate::console::{App, Effect};
use crate::menu::MenuItem;

verus! {

/// An event of the menu.
#[derive(Debug, Clone, Copy, PartialEq, Eq, Structural)]
pub enum MenuEvent {
    Up,
    Down,
    ConnectDevice,
    EnterServoMode,
    EnterSettingMode,
}

/// What an event of the menu makes of the console. Nothing while the servos
/// are steered or the settings gone through. Otherwise: up and down move
/// through the pages; connecting gives up the worker where there is one,
/// and begins a connection where there is none; the servo mode is entered
/// from the control page and the settings from the settings page, both with
/// the focus on the page.
pub open spec fn menu_handled(pre: &App, event: MenuEvent, post: &App, effect: Effect) -> bool {
    if pre.in_servo_mode || pre.in_settings {
        effect == Effect::Nothing && App::unchanged(pre, post)
    } else {
        match event {
            MenuEvent::Up => {
                &&& effect == Effect::Nothing
                &&& post.menu_index == Some(App::page_before(pre.menu_index) as usize)
                &&& App::same_but_menu(pre, post)
            },
            MenuEvent::Down => {
                &&& effect == Effect::Nothing
                &&& post.menu_index == Some(App::page_after(pre.menu_index) as usize)
                &&& App::same_but_menu(pre, post)
            },
            MenuEvent::ConnectDevice => {
                &&& effect == if pre.connected {
                    Effect::Disconnect
                } else {
                    Effect::Connect
                }
                &&& !post.connected
                &&& post.popup.visible == !pre.connected
                &&& pre.connected ==> post.popup.config == pre.popup.config
                &&& !pre.connected ==> post.popup.config.is_connecting()
                &&& post.joint == pre.joint
                &&& App::same_but_joint(
                    &App { connected: false, popup: post.popup, ..*pre },
                    post,
                )
            },
            MenuEvent::EnterServoMode => {
                &&& effect == Effect::Nothing
                &&& if pre.selected_menu == MenuItem::DeviceControl {
                    App::with_modes(pre, post, true, pre.in_settings, false)
                } else {
                    App::unchanged(pre, post)
                }
            },
            MenuEvent::EnterSettingMode => {
                &&& effect == Effect::Nothing
                &&& if pre.selected_menu == MenuItem::Settings {
                    App::with_modes(pre, post, pre.in_servo_mode, true, false)
                } else {
                    App::unchanged(pre, post)
                }
            },
        }
    }
}

/// Lets an event of the menu act on the console.
pub fn handle(app: &mut App, event: MenuEvent) -> (effect: Effect)
    requires
        old(app).wf(),
    ensures
        final(app).wf(),
        menu_handled(old(app), event, final(app), effect),
{
    if app.in_servo_mode || app.in_settings {
        return Effect::Nothing;
    }
    match event {
        MenuEvent::Up => {
            app.prev_menu();
            Effect::Nothing
        },
        MenuEvent::Down => {
            app.next_menu();
            Effect::Nothing
        },
        MenuEvent::ConnectDevice => {
            if app.is_connected() {
                app.stop_comm_thread()
            } else {
                app.begin_connect()
            }
        },
        MenuEvent::EnterServoMode => {
            if app.selected_menu == MenuItem::DeviceControl {
                app.in_servo_mode = true;
                app.left_focused = false;
            }
            Effect::Nothing
        },
        MenuEvent::EnterSettingMode => {
            if app.selected_menu == MenuItem::Settings {
                app.in_settings = true;
                app.left_focused = false;
            }
            Effect::Nothing
        },
    }
}

} // verus!
