//! What the operator's keys mean: events, sorted by the part of the console
//! that they concern, and the modes that decide which event a key stands
//! for.

pub mod device;
pub mod menu;
pub mod settings;

use vstd::prelude::*;
use crate::console::{pop_char, push_char, App, Effect};
use crate::menu::MenuItem;
pub use crate::input::device::DeviceEvent;
pub use crate::input::menu::MenuEvent;
pub use crate::input::settings::SettingsEvent;

verus! {

/// An event that concerns the console as a whole.
#[derive(Debug, Clone, Copy, PartialEq, Eq, Structural)]
pub enum CommonEvent {
    Quit,
    Nothing,
}

/// An event of the console.
#[derive(Debug, Clone, Copy, PartialEq, Eq, Structural)]
pub enum AppEvent {
    Common(CommonEvent),
    Menu(MenuEvent),
    Device(DeviceEvent),
    Settings(SettingsEvent),
}

impl vstd::std_specs::convert::FromSpecImpl<CommonEvent> for AppEvent {
    open spec fn obeys_from_spec() -> bool {
        true
    }

    open spec fn from_spec(e: CommonEvent) -> Self {
        AppEvent::Common(e)
    }
}

impl From<CommonEvent> for AppEvent {
    fn from(e: CommonEvent) -> (event: Self) {
        AppEvent::Common(e)
    }
}

impl vstd::std_specs::convert::FromSpecImpl<MenuEvent> for AppEvent {
    open spec fn obeys_from_spec() -> bool {
        true
    }

    open spec fn from_spec(e: MenuEvent) -> Self {
        AppEvent::Menu(e)
    }
}

impl From<MenuEvent> for AppEvent {
    fn from(e: MenuEvent) -> (event: Self) {
        AppEvent::Menu(e)
    }
}

impl vstd::std_specs::convert::FromSpecImpl<DeviceEvent> for AppEvent {
    open spec fn obeys_from_spec() -> bool {
        true
    }

    open spec fn from_spec(e: DeviceEvent) -> Self {
        AppEvent::Device(e)
    }
}

impl From<DeviceEvent> for AppEvent {
    fn from(e: DeviceEvent) -> (event: Self) {
        AppEvent::Device(e)
    }
}

impl vstd::std_specs::convert::FromSpecImpl<SettingsEvent> for AppEvent {
    open spec fn obeys_from_spec() -> bool {
        true
    }

    open spec fn from_spec(e: SettingsEvent) -> Self {
        AppEvent::Settings(e)
    }
}

impl From<SettingsEvent> for AppEvent {
    fn from(e: SettingsEvent) -> (event: Self) {
        AppEvent::Settings(e)
    }
}

/// A key, as far as the console tells keys apart.
#[derive(Debug, Clone, Copy, PartialEq, Eq, Structural)]
pub enum KeyCode {
    Esc,
    Enter,
    Up,
    Down,
    Left,
    Right,
    Backspace,
    Char(char),
    Other,
}

/// The event that the Enter key stands for in the menu: it depends on the
/// page on show.
pub open spec fn menu_enter_event(page: MenuItem) -> AppEvent {
    match page {
        MenuItem::DeviceControl => AppEvent::Menu(MenuEvent::EnterServoMode),
        MenuItem::Settings => AppEvent::Menu(MenuEvent::EnterSettingMode),
        _ => AppEvent::Menu(MenuEvent::ConnectDevice),
    }
}

/// The event that a key stands for in the menu. `ctrl` says whether the
/// control key, and no other modifier, was held.
pub open spec fn menu_key_event(code: KeyCode, ctrl: bool, page: MenuItem) -> AppEvent {
    match code {
        KeyCode::Esc => AppEvent::Common(CommonEvent::Quit),
        KeyCode::Up => AppEvent::Menu(MenuEvent::Up),
        KeyCode::Down => AppEvent::Menu(MenuEvent::Down),
        KeyCode::Enter => menu_enter_event(page),
        KeyCode::Char(c) => if c == 's' && ctrl {
            AppEvent::Settings(SettingsEvent::Save)
        } else {
            AppEvent::Common(CommonEvent::Nothing)
        },
        _ => AppEvent::Common(CommonEvent::Nothing),
    }
}

/// The event that a key stands for while the servos are steered.
pub open spec fn joint_key_event(code: KeyCode) -> AppEvent {
    match code {
        KeyCode::Esc => AppEvent::Device(DeviceEvent::Exit),
        KeyCode::Up => AppEvent::Device(DeviceEvent::Prev),
        KeyCode::Down => AppEvent::Device(DeviceEvent::Next),
        KeyCode::Left => AppEvent::Device(DeviceEvent::Decrease),
        KeyCode::Right => AppEvent::Device(DeviceEvent::Increase),
        KeyCode::Char(c) => if c == 's' {
            AppEvent::Device(DeviceEvent::Screenshot)
        } else {
            AppEvent::Common(CommonEvent::Nothing)
        },
        _ => AppEvent::Common(CommonEvent::Nothing),
    }
}

/// The event that a key stands for among the settings.
pub open spec fn settings_key_event(code: KeyCode) -> AppEvent {
    match code {
        KeyCode::Esc => AppEvent::Settings(SettingsEvent::Exit),
        KeyCode::Up => AppEvent::Settings(SettingsEvent::Up),
        KeyCode::Down => AppEvent::Settings(SettingsEvent::Down),
        KeyCode::Enter => AppEvent::Settings(SettingsEvent::EnterEdit),
        _ => AppEvent::Common(CommonEvent::Nothing),
    }
}

/// What an event makes of the console: `post` is `pre` after `event`, with
/// `effect` left for the caller to do.
pub open spec fn event_handled(pre: &App, event: AppEvent, post: &App, effect: Effect) -> bool {
    match event {
        AppEvent::Common(CommonEvent::Quit) => {
            &&& effect == Effect::Nothing
            &&& !post.running
            &&& post.menu_index == pre.menu_index
            &&& post.selected_menu == pre.selected_menu
            &&& App::same_but_menu(&App { running: false, ..*pre }, post)
        },
        AppEvent::Common(CommonEvent::Nothing) => effect == Effect::Nothing && App::unchanged(
            pre,
            post,
        ),
        AppEvent::Menu(e) => menu::menu_handled(pre, e, post, effect),
        AppEvent::Device(e) => device::device_handled(pre, e, post, effect),
        AppEvent::Settings(e) => settings::settings_handled(pre, e, post, effect),
    }
}

/// Lets an event act on the console.
pub fn handle_event(app: &mut App, event: AppEvent) -> (effect: Effect)
    requires
        old(app).wf(),
    ensures
        final(app).wf(),
        event_handled(old(app), event, final(app), effect),
{
    match event {
        AppEvent::Common(CommonEvent::Quit) => {
            app.quit();
            Effect::Nothing
        },
        AppEvent::Common(CommonEvent::Nothing) => Effect::Nothing,
        AppEvent::Menu(e) => menu::handle(app, e),
        AppEvent::Device(e) => device::handle(app, e),
        AppEvent::Settings(e) => settings::handle(app, e),
    }
}

/// The event that a key stands for in the menu.
pub fn handle_menu_mode_input(code: KeyCode, ctrl: bool, app: &App) -> (event: AppEvent)
    ensures
        event == menu_key_event(code, ctrl, app.selected_menu),
{
    match code {
        KeyCode::Esc => AppEvent::Common(CommonEvent::Quit),
        KeyCode::Up => AppEvent::Menu(MenuEvent::Up),
        KeyCode::Down => AppEvent::Menu(MenuEvent::Down),
        KeyCode::Char(c) => {
            if c == 's' && ctrl {
                AppEvent::Settings(SettingsEvent::Save)
            } else {
                AppEvent::Common(CommonEvent::Nothing)
            }
        },
        KeyCode::Enter => handle_menu_enter(app),
        _ => AppEvent::Common(CommonEvent::Nothing),
    }
}

/// The event that the Enter key stands for in the menu.
pub fn handle_menu_enter(app: &App) -> (event: AppEvent)
    ensures
        event == menu_enter_event(app.selected_menu),
{
    match app.selected_menu {
        MenuItem::DeviceControl => AppEvent::Menu(MenuEvent::EnterServoMode),
        MenuItem::Settings => AppEvent::Menu(MenuEvent::EnterSettingMode),
        _ => AppEvent::Menu(MenuEvent::ConnectDevice),
    }
}

/// The event that a key stands for while the servos are steered.
pub fn handle_joint_mode_input(code: KeyCode) -> (event: AppEvent)
    ensures
        event == joint_key_event(code),
{
    match code {
        KeyCode::Esc => AppEvent::Device(DeviceEvent::Exit),
        KeyCode::Up => AppEvent::Device(DeviceEvent::Prev),
        KeyCode::Down => AppEvent::Device(DeviceEvent::Next),
        KeyCode::Left => AppEvent::Device(DeviceEvent::Decrease),
        KeyCode::Right => AppEvent::Device(DeviceEvent::Increase),
        KeyCode::Char(c) => {
            if c == 's' {
                AppEvent::Device(DeviceEvent::Screenshot)
            } else {
                AppEvent::Common(CommonEvent::Nothing)
            }
        },
        _ => AppEvent::Common(CommonEvent::Nothing),
    }
}

/// The event that a key stands for among the settings.
pub fn handle_settings_mode_input(code: KeyCode) -> (event: AppEvent)
    ensures
        event == settings_key_event(code),
{
    match code {
        KeyCode::Esc => AppEvent::Settings(SettingsEvent::Exit),
        KeyCode::Up => AppEvent::Settings(SettingsEvent::Up),
        KeyCode::Down => AppEvent::Settings(SettingsEvent::Down),
        KeyCode::Enter => AppEvent::Settings(SettingsEvent::EnterEdit),
        _ => AppEvent::Common(CommonEvent::Nothing),
    }
}

/// What a key makes of the console while a setting is edited: Esc drops the
/// edited text, Enter takes it as the setting, Backspace removes its last
/// character, any character is appended, and other keys do nothing.
pub open spec fn edit_key_handled(pre: &App, code: KeyCode, post: &App, effect: Effect) -> bool {
    match code {
        KeyCode::Esc => {
            &&& effect == Effect::Nothing
            &&& App::same_but_modes(pre, post)
            &&& App::with_modes(
                &App { in_edit_mode: false, edit_buffer: post.edit_buffer, ..*pre },
                post,
                pre.in_servo_mode,
                pre.in_settings,
                pre.left_focused,
            )
            &&& post.edit_buffer@ == Seq::<char>::empty()
        },
        KeyCode::Enter => {
            &&& effect == Effect::SaveConfig
            &&& App::same_but_modes(pre, post)
            &&& post.config == pre.edited_config()
            &&& !post.in_edit_mode
            &&& post.edit_buffer@ == Seq::<char>::empty()
            &&& post.settings_selected == pre.settings_selected
            &&& post.in_servo_mode == pre.in_servo_mode
            &&& post.in_settings == pre.in_settings
            &&& post.left_focused == pre.left_focused
        },
        KeyCode::Backspace => {
            &&& effect == Effect::Nothing
            &&& App::same_but_text(pre, post)
            &&& post.edit_buffer@ == if pre.edit_buffer@.len() > 0 {
                pre.edit_buffer@.drop_last()
            } else {
                pre.edit_buffer@
            }
        },
        KeyCode::Char(c) => {
            &&& effect == Effect::Nothing
            &&& App::same_but_text(pre, post)
            &&& post.edit_buffer@ == pre.edit_buffer@.push(c)
        },
        _ => effect == Effect::Nothing && App::unchanged(pre, post),
    }
}

/// Lets a key act on the setting that is being edited.
pub fn handle_edit_mode_input(app: &mut App, code: KeyCode) -> (effect: Effect)
    ensures
        edit_key_handled(old(app), code, final(app), effect),
        old(app).wf() ==> final(app).wf(),
{
    match code {
        KeyCode::Esc => {
            app.cancel_settings_edit();
            Effect::Nothing
        },
        KeyCode::Enter => app.save_settings_edit(),
        KeyCode::Backspace => {
            let _ = pop_char(&mut app.edit_buffer);
            Effect::Nothing
        },
        KeyCode::Char(c) => {
            push_char(&mut app.edit_buffer, c);
            Effect::Nothing
        },
        _ => Effect::Nothing,
    }
}

/// Lets a key act on the setting that is being edited.
pub fn handle_edit_settings_mode(app: &mut App, code: KeyCode) -> (effect: Effect)
    ensures
        edit_key_handled(old(app), code, final(app), effect),
        old(app).wf() ==> final(app).wf(),
{
    handle_edit_mode_input(app, code)
}

/// What a key makes of the console while the popup is shown: Esc gives up
/// the worker; other keys do nothing.
pub open spec fn popup_key_handled(pre: &App, code: KeyCode, post: &App, effect: Effect) -> bool {
    if code == KeyCode::Esc {
        &&& effect == Effect::Disconnect
        &&& !post.connected
        &&& !post.popup.visible
        &&& post.popup.config == pre.popup.config
        &&& App::same_but_joint(
            &App { connected: false, popup: post.popup, ..*pre },
            post,
        )
        &&& post.joint == pre.joint
    } else {
        effect == Effect::Nothing && App::unchanged(pre, post)
    }
}

/// Lets a key act on the console while the popup is shown.
pub fn handle_popup_mode(app: &mut App, code: KeyCode) -> (effect: Effect)
    ensures
        popup_key_handled(old(app), code, final(app), effect),
        old(app).wf() ==> final(app).wf(),
{
    match code {
        KeyCode::Esc => app.stop_comm_thread(),
        _ => Effect::Nothing,
    }
}

/// Lets a key act on the console while the popup is shown.
pub fn handle_comm_popup_input(code: KeyCode, app: &mut App) -> (effect: Effect)
    ensures
        popup_key_handled(old(app), code, final(app), effect),
        old(app).wf() ==> final(app).wf(),
{
    handle_popup_mode(app, code)
}

/// What a key makes of the console in the menu: what its event makes of it.
pub fn handle_menu_mode(app: &mut App, code: KeyCode, ctrl: bool) -> (effect: Effect)
    requires
        old(app).wf(),
    ensures
        final(app).wf(),
        event_handled(
            old(app),
            menu_key_event(code, ctrl, old(app).selected_menu),
            final(app),
            effect,
        ),
{
    let evt = handle_menu_mode_input(code, ctrl, app);
    handle_event(app, evt)
}

/// What a key makes of the console while the servos are steered. With the
/// focus on the menu, any key ends the steering. Otherwise Esc and Enter
/// end it and give the focus to the menu, and the arrows and `s` act as
/// their events do.
pub open spec fn servo_key_handled(pre: &App, code: KeyCode, post: &App, effect: Effect) -> bool {
    if pre.left_focused {
        effect == Effect::Nothing && App::with_modes(pre, post, false, pre.in_settings, true)
    } else if code == KeyCode::Esc || code == KeyCode::Enter {
        effect == Effect::Nothing && App::with_modes(pre, post, false, pre.in_settings, true)
    } else if joint_key_event(code) is Device {
        event_handled(pre, joint_key_event(code), post, effect)
    } else {
        effect == Effect::Nothing && App::unchanged(pre, post)
    }
}

/// Lets a key act on the console while the servos are steered.
pub fn handle_servo_mode(app: &mut App, code: KeyCode) -> (effect: Effect)
    requires
        old(app).wf(),
    ensures
        final(app).wf(),
        servo_key_handled(old(app), code, final(app), effect),
{
    if app.left_focused {
        app.in_servo_mode = false;
        return Effect::Nothing;
    }
    match code {
        KeyCode::Esc => {
            app.toggle_focus();
            app.in_servo_mode = false;
            Effect::Nothing
        },
        KeyCode::Enter => {
            app.toggle_focus();
            app.in_servo_mode = false;
            Effect::Nothing
        },
        KeyCode::Up => handle_event(app, AppEvent::Device(DeviceEvent::Prev)),
        KeyCode::Down => handle_event(app, AppEvent::Device(DeviceEvent::Next)),
        KeyCode::Left => handle_event(app, AppEvent::Device(DeviceEvent::Decrease)),
        KeyCode::Right => handle_event(app, AppEvent::Device(DeviceEvent::Increase)),
        KeyCode::Char(c) => {
            if c == 's' {
                handle_event(app, AppEvent::Device(DeviceEvent::Screenshot))
            } else {
                Effect::Nothing
            }
        },
        _ => Effect::Nothing,
    }
}

/// What a key makes of the console among the settings. With the focus on
/// the menu, any key leaves the settings. Otherwise Esc gives the focus to
/// the menu and leaves the settings, and the other keys act as their events
/// do.
pub open spec fn settings_mode_key_handled(
    pre: &App,
    code: KeyCode,
    post: &App,
    effect: Effect,
) -> bool {
    if pre.left_focused {
        effect == Effect::Nothing && App::with_modes(pre, post, pre.in_servo_mode, false, true)
    } else if code == KeyCode::Esc {
        effect == Effect::Nothing && App::with_modes(pre, post, pre.in_servo_mode, false, true)
    } else {
        event_handled(pre, settings_key_event(code), post, effect)
    }
}

/// Lets a key act on the console among the settings.
pub fn handle_settings_mode(app: &mut App, code: KeyCode) -> (effect: Effect)
    requires
        old(app).wf(),
    ensures
        final(app).wf(),
        settings_mode_key_handled(old(app), code, final(app), effect),
{
    if app.left_focused {
        app.in_settings = false;
        return Effect::Nothing;
    }
    let evt = match code {
        KeyCode::Esc => {
            app.toggle_focus();
            app.in_settings = false;
            AppEvent::Settings(SettingsEvent::Exit)
        },
        KeyCode::Enter => AppEvent::Settings(SettingsEvent::EnterEdit),
        KeyCode::Up => AppEvent::Settings(SettingsEvent::Up),
        KeyCode::Down => AppEvent::Settings(SettingsEvent::Down),
        _ => AppEvent::Common(CommonEvent::Nothing),
    };
    handle_event(app, evt)
}

/// The mode that decides what a key means.
#[derive(Debug, Clone, Copy, PartialEq, Eq, Structural)]
pub enum InputMode {
    /// The popup is shown.
    Popup,
    /// A setting is edited.
    Edit,
    /// The servos are steered.
    Servo,
    /// The settings are gone through.
    Settings,
    /// The menu is gone through.
    Menu,
}

/// The mode of the console: the popup comes first, then the editing of a
/// setting, the steering of the servos, the settings, and last the menu.
pub open spec fn input_mode(app: &App) -> InputMode {
    if app.popup.visible {
        InputMode::Popup
    } else if app.in_edit_mode {
        InputMode::Edit
    } else if app.in_servo_mode {
        InputMode::Servo
    } else if app.in_settings {
        InputMode::Settings
    } else {
        InputMode::Menu
    }
}

/// What a key makes of the console, by the mode that the console is in.
pub open spec fn key_handled_by_mode(
    pre: &App,
    code: KeyCode,
    ctrl: bool,
    post: &App,
    effect: Effect,
) -> bool {
    match input_mode(pre) {
        InputMode::Popup => popup_key_handled(pre, code, post, effect),
        InputMode::Edit => edit_key_handled(pre, code, post, effect),
        InputMode::Servo => servo_key_handled(pre, code, post, effect),
        InputMode::Settings => settings_mode_key_handled(pre, code, post, effect),
        InputMode::Menu => event_handled(
            pre,
            menu_key_event(code, ctrl, pre.selected_menu),
            post,
            effect,
        ),
    }
}

/// Lets a key act on the console, by the mode that the console is in.
pub fn handle_by_mode(app: &mut App, code: KeyCode, ctrl: bool) -> (effect: Effect)
    requires
        old(app).wf(),
    ensures
        final(app).wf(),
        key_handled_by_mode(old(app), code, ctrl, final(app), effect),
{
    if app.popup.is_visible() {
        return handle_popup_mode(app, code);
    }
    if app.in_edit_mode {
        handle_edit_settings_mode(app, code)
    } else if app.in_servo_mode {
        handle_servo_mode(app, code)
    } else if app.in_settings {
        handle_settings_mode(app, code)
    } else {
        handle_menu_mode(app, code, ctrl)
    }
}

/// What a pressed key makes of the console in the main loop. Control with
/// `q` leaves; control with `s` saves the settings. Enter and Esc act by the
/// mode, the editing of a setting first, then the steering of the servos,
/// then the settings, and last the menu. Any other key acts by the same
/// modes, with the popup in the place before the menu.
pub open spec fn key_handled(pre: &App, code: KeyCode, ctrl: bool, post: &App, effect: Effect) -> bool {
    if ctrl && code == KeyCode::Char('q') {
        event_handled(pre, AppEvent::Common(CommonEvent::Quit), post, effect)
    } else if ctrl && code == KeyCode::Char('s') {
        effect == Effect::SaveConfig && App::unchanged(pre, post)
    } else if code == KeyCode::Enter {
        if pre.in_edit_mode {
            edit_key_handled(pre, code, post, effect)
        } else if pre.in_servo_mode {
            effect == Effect::Nothing && App::with_modes(
                pre,
                post,
                false,
                pre.in_settings,
                !pre.left_focused,
            )
        } else if pre.in_settings {
            event_handled(pre, settings_key_event(code), post, effect)
        } else {
            event_handled(pre, menu_key_event(code, ctrl, pre.selected_menu), post, effect)
        }
    } else if code == KeyCode::Esc {
        if pre.in_edit_mode {
            edit_key_handled(pre, code, post, effect)
        } else if pre.in_servo_mode {
            effect == Effect::Nothing && App::with_modes(pre, post, false, pre.in_settings, true)
        } else if pre.in_settings {
            effect == Effect::Nothing && App::with_modes(pre, post, pre.in_servo_mode, false, true)
        } else {
            event_handled(pre, menu_key_event(code, ctrl, pre.selected_menu), post, effect)
        }
    } else if pre.in_edit_mode {
        edit_key_handled(pre, code, post, effect)
    } else if pre.in_servo_mode {
        if !pre.left_focused {
            event_handled(pre, joint_key_event(code), post, effect)
        } else {
            effect == Effect::Nothing && App::with_modes(
                pre,
                post,
                false,
                pre.in_settings,
                pre.left_focused,
            )
        }
    } else if pre.in_settings {
        if !pre.left_focused {
            event_handled(pre, settings_key_event(code), post, effect)
        } else {
            effect == Effect::Nothing && App::with_modes(
                pre,
                post,
                pre.in_servo_mode,
                false,
                pre.left_focused,
            )
        }
    } else if pre.popup.visible {
        popup_key_handled(pre, code, post, effect)
    } else {
        event_handled(pre, menu_key_event(code, ctrl, pre.selected_menu), post, effect)
    }
}

/// Lets a pressed key act on the console in the main loop.
pub fn handle_input(app: &mut App, code: KeyCode, ctrl: bool) -> (effect: Effect)
    requires
        old(app).wf(),
    ensures
        final(app).wf(),
        key_handled(old(app), code, ctrl, final(app), effect),
{
    let is_q = match code {
        KeyCode::Char(c) => c == 'q',
        _ => false,
    };
    let is_s = match code {
        KeyCode::Char(c) => c == 's',
        _ => false,
    };
    if ctrl && is_q {
        app.quit();
        Effect::Nothing
    } else if ctrl && is_s {
        Effect::SaveConfig
    } else if code == KeyCode::Enter {
        if app.in_edit_mode {
            app.save_settings_edit()
        } else if app.in_servo_mode {
            app.toggle_focus();
            app.in_servo_mode = false;
            Effect::Nothing
        } else if app.in_settings {
            let evt = handle_settings_mode_input(code);
            handle_event(app, evt)
        } else {
            let evt = handle_menu_mode_input(code, ctrl, app);
            handle_event(app, evt)
        }
    } else if code == KeyCode::Esc {
        if app.in_edit_mode {
            app.cancel_settings_edit();
            Effect::Nothing
        } else if app.in_servo_mode {
            app.in_servo_mode = false;
            app.left_focused = true;
            Effect::Nothing
        } else if app.in_settings {
            app.in_settings = false;
            app.left_focused = true;
            Effect::Nothing
        } else {
            let evt = handle_menu_mode_input(code, ctrl, app);
            handle_event(app, evt)
        }
    } else if app.in_edit_mode {
        handle_edit_mode_input(app, code)
    } else if app.in_servo_mode {
        if !app.left_focused {
            let evt = handle_joint_mode_input(code);
            handle_event(app, evt)
        } else {
            app.in_servo_mode = false;
            Effect::Nothing
        }
    } else if app.in_settings {
        if !app.left_focused {
            let evt = handle_settings_mode_input(code);
            handle_event(app, evt)
        } else {
            app.in_settings = false;
            Effect::Nothing
        }
    } else if app.popup.is_visible() {
        handle_comm_popup_input(code, app)
    } else {
        let evt = handle_menu_mode_input(code, ctrl, app);
        handle_event(app, evt)
    }
}

} // verus!
