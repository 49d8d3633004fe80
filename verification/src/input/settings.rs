//! Events of the settings.

use vstd::prelude::*;
use crate::console::{App, Effect};

verus! {

/// An event of the settings.
#[derive(Debug, Clone, Copy, PartialEq, Eq, Structural)]
pub enum SettingsEvent {
    Exit,
    Up,
    Down,
    EnterEdit,
    Save,
}

/// What an event of the settings makes of the console. Nothing unless the
/// settings are gone through, and nothing while one of them is edited.
/// Otherwise: the settings are left; or another setting is highlighted; or
/// the editing of the highlighted setting begins, on a copy of its text.
/// Saving changes nothing here.
pub open spec fn settings_handled(
    pre: &App,
    event: SettingsEvent,
    post: &App,
    effect: Effect,
) -> bool {
    &&& effect == Effect::Nothing
    &&& if !pre.in_settings || pre.in_edit_mode {
        App::unchanged(pre, post)
    } else {
        match event {
            SettingsEvent::Exit => App::with_modes(
                pre,
                post,
                pre.in_servo_mode,
                false,
                pre.left_focused,
            ),
            SettingsEvent::Up => {
                &&& App::same_but_modes(pre, post)
                &&& App::with_modes(
                    &App { settings_selected: post.settings_selected, ..*pre },
                    post,
                    pre.in_servo_mode,
                    pre.in_settings,
                    pre.left_focused,
                )
                &&& post.settings_selected == (pre.settings_selected + 2) % 3
            },
            SettingsEvent::Down => {
                &&& App::same_but_modes(pre, post)
                &&& App::with_modes(
                    &App { settings_selected: post.settings_selected, ..*pre },
                    post,
                    pre.in_servo_mode,
                    pre.in_settings,
                    pre.left_focused,
                )
                &&& post.settings_selected == (pre.settings_selected + 1) % 3
            },
            SettingsEvent::EnterEdit => {
                &&& App::same_but_text(&App { in_edit_mode: true, ..*pre }, post)
                &&& post.in_edit_mode
                &&& post.edit_buffer@ == pre.setting_text()
            },
            SettingsEvent::Save => App::unchanged(pre, post),
        }
    }
}

/// Lets an event of the settings act on the console.
pub fn handle(app: &mut App, event: SettingsEvent) -> (effect: Effect)
    requires
        old(app).wf(),
    ensures
        final(app).wf(),
        settings_handled(old(app), event, final(app), effect),
{
    if !app.in_settings {
        return Effect::Nothing;
    }
    if app.in_edit_mode {
        return Effect::Nothing;
    }
    match event {
        SettingsEvent::Exit => {
            app.in_settings = false;
        },
        SettingsEvent::Up => app.settings_prev(),
        SettingsEvent::Down => app.settings_next(),
        SettingsEvent::EnterEdit => {
            app.in_edit_mode = true;
            app.edit_buffer = if app.settings_selected == 0 {
                app.config.wifi_ssid.clone()
            } else if app.settings_selected == 1 {
                app.config.wifi_password.clone()
            } else if app.settings_selected == 2 {
                app.config.speech_name.clone()
            } else {
                String::new()
            };
        },
        SettingsEvent::Save => {},
    }
    Effect::Nothing
}

} // verus!
