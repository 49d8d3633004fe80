//! The state of the operator's console: the menu, the modes that decide what
//! a key means, the settings being edited, and whether a robot is connected.
//!
//! The console does no input or output of its own. Where a key calls for
//! some, the function that takes the key says so in the `Effect` it returns,
//! and the caller does the work.

use vstd::prelude::*;
use vstd::string::StringExecFns;
use crate::codec::single_bits;
use crate::config::AppConfig;
use crate::joint::{Joint, JointConfig};
use crate::menu::MenuItem;

verus! {

/// Work that the console asks its caller to do.
#[derive(Clone, Copy, Debug, PartialEq, Eq, Structural)]
pub enum Effect {
    /// Nothing.
    Nothing,
    /// Stop the worker that talks to the robot, if there is one, and start a
    /// new one; then report with `connect_robot` how that went.
    Connect,
    /// Stop the worker that talks to the robot and wait for its end.
    Disconnect,
    /// Save the frame on the LCD as a picture.
    Screenshot,
    /// Write the settings to their file.
    SaveConfig,
}

/// A colour of the popup.
#[derive(Clone, Copy, Debug, PartialEq, Eq, Structural)]
pub enum PopupColor {
    Green,
    DarkGray,
    Cyan,
    Yellow,
    Red,
    White,
}

/// How a popup looks.
#[derive(Debug)]
pub struct PopupConfig {
    pub title: String,
    pub content: String,
    pub width: u16,
    pub height: u16,
    pub border_color: PopupColor,
    pub bg_color: PopupColor,
    pub title_color: PopupColor,
}

impl Clone for PopupConfig {
    fn clone(&self) -> (copy: Self)
        ensures
            copy == *self,
    {
        PopupConfig {
            title: self.title.clone(),
            content: self.content.clone(),
            width: self.width,
            height: self.height,
            border_color: self.border_color,
            bg_color: self.bg_color,
            title_color: self.title_color,
        }
    }
}

impl PopupConfig {
    /// The looks of a popup with the given title and content: forty by five
    /// cells, a green border on dark grey, a cyan title.
    pub open spec fn is_standard(&self, title: Seq<char>, content: Seq<char>) -> bool {
        &&& self.title@ == title
        &&& self.content@ == content
        &&& self.width == 40
        &&& self.height == 5
        &&& self.border_color == PopupColor::Green
        &&& self.bg_color == PopupColor::DarkGray
        &&& self.title_color == PopupColor::Cyan
    }

    /// The looks of an empty popup.
    pub open spec fn is_default(&self) -> bool {
        self.is_standard("弹窗"@, Seq::<char>::empty())
    }

    /// The looks of the popup that tells of a connection being made.
    pub open spec fn is_connecting(&self) -> bool {
        self.is_standard(" 连接设备 "@, "正在通过 USB 连接设备..."@)
    }
}

impl Default for PopupConfig {
    /// An empty popup of forty by five cells.
    fn default() -> (config: Self)
        ensures
            config.title@ == "弹窗"@,
            config.content@ == Seq::<char>::empty(),
            config.width == 40,
            config.height == 5,
            config.border_color == PopupColor::Green,
            config.bg_color == PopupColor::DarkGray,
            config.title_color == PopupColor::Cyan,
    {
        PopupConfig {
            title: String::from_str("弹窗"),
            content: String::new(),
            width: 40,
            height: 5,
            border_color: PopupColor::Green,
            bg_color: PopupColor::DarkGray,
            title_color: PopupColor::Cyan,
        }
    }
}

/// A popup over the console.
#[derive(Debug)]
pub struct Popup {
    pub visible: bool,
    pub config: PopupConfig,
}

impl Default for Popup {
    /// A hidden popup that looks as popups do by default.
    fn default() -> (popup: Self)
        ensures
            !popup.visible,
            popup.config.title@ == "弹窗"@,
            popup.config.content@ == Seq::<char>::empty(),
            popup.config.width == 40,
            popup.config.height == 5,
            popup.config.border_color == PopupColor::Green,
            popup.config.bg_color == PopupColor::DarkGray,
            popup.config.title_color == PopupColor::Cyan,
    {
        Popup { visible: false, config: PopupConfig::default() }
    }
}

impl Popup {
    /// A hidden popup that looks as popups do by default.
    pub fn new() -> (popup: Self)
        ensures
            !popup.visible,
            popup.config.title@ == "弹窗"@,
            popup.config.content@ == Seq::<char>::empty(),
            popup.config.width == 40,
            popup.config.height == 5,
            popup.config.border_color == PopupColor::Green,
            popup.config.bg_color == PopupColor::DarkGray,
            popup.config.title_color == PopupColor::Cyan,
    {
        Popup { visible: false, config: PopupConfig::default() }
    }

    /// Shows the popup.
    pub fn show(&mut self)
        ensures
            final(self).visible,
            final(self).config == old(self).config,
    {
        self.visible = true;
    }

    /// Hides the popup.
    pub fn close(&mut self)
        ensures
            !final(self).visible,
            final(self).config == old(self).config,
    {
        self.visible = false;
    }

    /// Whether the popup is shown.
    pub fn is_visible(&self) -> (visible: bool)
        ensures
            visible == self.visible,
    {
        self.visible
    }

    /// Sets how the popup looks.
    pub fn configure(&mut self, config: PopupConfig)
        ensures
            final(self).config == config,
            final(self).visible == old(self).visible,
    {
        self.config = config;
    }

    /// Shows the popup that tells of a connection being made.
    pub fn show_connecting(&mut self)
        ensures
            final(self).visible,
            final(self).config.title@ == " 连接设备 "@,
            final(self).config.content@ == "正在通过 USB 连接设备..."@,
            final(self).config.width == 40,
            final(self).config.height == 5,
            final(self).config.border_color == PopupColor::Green,
            final(self).config.bg_color == PopupColor::DarkGray,
            final(self).config.title_color == PopupColor::Cyan,
    {
        self.configure(
            PopupConfig {
                title: String::from_str(" 连接设备 "),
                content: String::from_str("正在通过 USB 连接设备..."),
                width: 40,
                height: 5,
                border_color: PopupColor::Green,
                bg_color: PopupColor::DarkGray,
                title_color: PopupColor::Cyan,
            },
        );
        self.show();
    }
}

/// Number of settings that can be edited: the network's name, its password,
/// and the microphone's name.
pub const SETTINGS_ITEMS: usize = 3;

/// Appends a character to a string, as `String::push` does.
#[verifier::external_body]
pub(crate) fn push_char(text: &mut String, c: char)
    ensures
        final(text)@ == old(text)@.push(c),
{
    text.push(c);
}

/// Removes the last character of a string, if it has one, as `String::pop`
/// does, and hands it back.
#[verifier::external_body]
pub(crate) fn pop_char(text: &mut String) -> (last: Option<char>)
    ensures
        old(text)@.len() == 0 ==> last is None && final(text)@ == old(text)@,
        old(text)@.len() > 0 ==> last == Some(old(text)@.last()) && final(text)@ == old(
            text,
        )@.drop_last(),
{
    text.pop()
}

/// The console.
pub struct App {
    /// Position of the highlighted menu entry, if one is highlighted.
    pub menu_index: Option<usize>,
    /// The page on show.
    pub selected_menu: MenuItem,
    /// False once the operator has asked to leave.
    pub running: bool,
    /// The servo angles.
    pub joint: Joint,
    /// Whether keys steer the servos.
    pub in_servo_mode: bool,
    /// Whether keys move through the settings.
    pub in_settings: bool,
    /// Position of the highlighted setting.
    pub settings_selected: usize,
    /// Whether keys edit the highlighted setting.
    pub in_edit_mode: bool,
    /// The text being edited.
    pub edit_buffer: String,
    /// The settings.
    pub config: AppConfig,
    /// The popup.
    pub popup: Popup,
    /// Whether the menu has the focus, rather than the page.
    pub left_focused: bool,
    /// Whether a worker talks to the robot.
    pub connected: bool,
}

impl App {
    /// The positions are within the menu and the settings, and the page on
    /// show is the highlighted menu entry.
    pub open spec fn wf(&self) -> bool {
        &&& self.settings_selected < SETTINGS_ITEMS
        &&& match self.menu_index {
            Some(i) => i < 4 && self.selected_menu.spec_index() == i,
            None => true,
        }
    }

    /// The page after `item`, the first after the last.
    pub open spec fn page_after(index: Option<usize>) -> int {
        match index {
            Some(i) => (i + 1) % 4,
            None => 0,
        }
    }

    /// The page before `item`, the last before the first.
    pub open spec fn page_before(index: Option<usize>) -> int {
        match index {
            Some(i) => (i + 3) % 4,
            None => 0,
        }
    }

    /// `post` differs from `pre` at most in the menu position and the page.
    pub open spec fn same_but_menu(pre: &App, post: &App) -> bool {
        &&& post.running == pre.running
        &&& post.joint == pre.joint
        &&& post.in_servo_mode == pre.in_servo_mode
        &&& post.in_settings == pre.in_settings
        &&& post.settings_selected == pre.settings_selected
        &&& post.in_edit_mode == pre.in_edit_mode
        &&& post.edit_buffer == pre.edit_buffer
        &&& post.config == pre.config
        &&& post.popup == pre.popup
        &&& post.left_focused == pre.left_focused
        &&& post.connected == pre.connected
    }

    /// `post` differs from `pre` at most in the modes, the focus and what
    /// belongs to the editing of a setting.
    pub open spec fn same_but_modes(pre: &App, post: &App) -> bool {
        &&& post.menu_index == pre.menu_index
        &&& post.selected_menu == pre.selected_menu
        &&& post.running == pre.running
        &&& post.joint == pre.joint
        &&& post.popup == pre.popup
        &&& post.connected == pre.connected
    }

    /// `post` differs from `pre` at most in the servo angles and the servo
    /// selected.
    pub open spec fn same_but_joint(pre: &App, post: &App) -> bool {
        &&& post.menu_index == pre.menu_index
        &&& post.selected_menu == pre.selected_menu
        &&& post.running == pre.running
        &&& post.in_servo_mode == pre.in_servo_mode
        &&& post.in_settings == pre.in_settings
        &&& post.settings_selected == pre.settings_selected
        &&& post.in_edit_mode == pre.in_edit_mode
        &&& post.edit_buffer == pre.edit_buffer
        &&& post.config == pre.config
        &&& post.popup == pre.popup
        &&& post.left_focused == pre.left_focused
        &&& post.connected == pre.connected
    }

    /// `post` differs from `pre` in nothing.
    pub open spec fn unchanged(pre: &App, post: &App) -> bool {
        Self::same_but_joint(pre, post) && post.joint == pre.joint
    }

    /// `post` differs from `pre` at most in the text being edited.
    pub open spec fn same_but_text(pre: &App, post: &App) -> bool {
        &&& post.menu_index == pre.menu_index
        &&& post.selected_menu == pre.selected_menu
        &&& post.running == pre.running
        &&& post.joint == pre.joint
        &&& post.in_servo_mode == pre.in_servo_mode
        &&& post.in_settings == pre.in_settings
        &&& post.settings_selected == pre.settings_selected
        &&& post.in_edit_mode == pre.in_edit_mode
        &&& post.config == pre.config
        &&& post.popup == pre.popup
        &&& post.left_focused == pre.left_focused
        &&& post.connected == pre.connected
    }

    /// `post` is `pre` with the servo mode, the settings mode and the focus
    /// as given, and nothing else changed.
    pub open spec fn with_modes(
        pre: &App,
        post: &App,
        servo: bool,
        settings: bool,
        left: bool,
    ) -> bool {
        &&& Self::same_but_modes(pre, post)
        &&& post.in_servo_mode == servo
        &&& post.in_settings == settings
        &&& post.left_focused == left
        &&& post.settings_selected == pre.settings_selected
        &&& post.in_edit_mode == pre.in_edit_mode
        &&& post.edit_buffer == pre.edit_buffer
        &&& post.config == pre.config
    }

    /// A console at its start: the first page highlighted, the menu focused,
    /// no robot connected.
    pub fn new(config: AppConfig) -> (app: Self)
        ensures
            app.wf(),
            app.menu_index == Some(0usize),
            app.selected_menu == MenuItem::DeviceStatus,
            app.running,
            !app.in_servo_mode,
            !app.in_settings,
            app.settings_selected == 0,
            !app.in_edit_mode,
            app.edit_buffer@ == Seq::<char>::empty(),
            app.config == config,
            !app.popup.visible,
            app.popup.config.is_default(),
            app.left_focused,
            !app.connected,
            app.joint.spec_selected() == 0,
            app.joint.spec_values() == Seq::new(6, |i: int| 0i16),
    {
        App {
            menu_index: Some(0),
            selected_menu: MenuItem::DeviceStatus,
            running: true,
            joint: Joint::new(),
            in_servo_mode: false,
            in_settings: false,
            settings_selected: 0,
            in_edit_mode: false,
            edit_buffer: String::new(),
            config,
            popup: Popup::new(),
            left_focused: true,
            connected: false,
        }
    }

    /// Begins a connection: any worker is given up, and the popup tells of
    /// the connection being made. The caller stops the old worker, starts a
    /// new one, and reports with `connect_robot`.
    pub fn begin_connect(&mut self) -> (effect: Effect)
        ensures
            effect == Effect::Connect,
            !final(self).connected,
            final(self).popup.visible,
            final(self).popup.config.is_connecting(),
            final(self).menu_index == old(self).menu_index,
            final(self).selected_menu == old(self).selected_menu,
            final(self).running == old(self).running,
            final(self).joint == old(self).joint,
            final(self).in_servo_mode == old(self).in_servo_mode,
            final(self).in_settings == old(self).in_settings,
            final(self).settings_selected == old(self).settings_selected,
            final(self).in_edit_mode == old(self).in_edit_mode,
            final(self).edit_buffer == old(self).edit_buffer,
            final(self).config == old(self).config,
            final(self).left_focused == old(self).left_focused,
    {
        self.connected = false;
        self.popup.show_connecting();
        Effect::Connect
    }

    /// Takes note of how starting the worker went, and hides the popup. The
    /// console is connected exactly where the worker was started.
    pub fn connect_robot(&mut self, started: bool)
        ensures
            final(self).connected == started,
            !final(self).popup.visible,
            final(self).popup.config == old(self).popup.config,
            final(self).menu_index == old(self).menu_index,
            final(self).selected_menu == old(self).selected_menu,
            final(self).running == old(self).running,
            final(self).joint == old(self).joint,
            final(self).in_servo_mode == old(self).in_servo_mode,
            final(self).in_settings == old(self).in_settings,
            final(self).settings_selected == old(self).settings_selected,
            final(self).in_edit_mode == old(self).in_edit_mode,
            final(self).edit_buffer == old(self).edit_buffer,
            final(self).config == old(self).config,
            final(self).left_focused == old(self).left_focused,
    {
        self.connected = started;
        self.popup.close();
    }

    /// Gives up the worker and hides the popup. The caller stops the worker
    /// and waits for its end.
    pub fn stop_comm_thread(&mut self) -> (effect: Effect)
        ensures
            effect == Effect::Disconnect,
            !final(self).connected,
            !final(self).popup.visible,
            final(self).popup.config == old(self).popup.config,
            final(self).menu_index == old(self).menu_index,
            final(self).selected_menu == old(self).selected_menu,
            final(self).running == old(self).running,
            final(self).joint == old(self).joint,
            final(self).in_servo_mode == old(self).in_servo_mode,
            final(self).in_settings == old(self).in_settings,
            final(self).settings_selected == old(self).settings_selected,
            final(self).in_edit_mode == old(self).in_edit_mode,
            final(self).edit_buffer == old(self).edit_buffer,
            final(self).config == old(self).config,
            final(self).left_focused == old(self).left_focused,
    {
        self.connected = false;
        self.popup.close();
        Effect::Disconnect
    }

    /// The joint command to send with the next frame: the one that powers
    /// the servos and asks for the angles that the operator has set. None
    /// where no robot is connected.
    pub fn send_frame(&self) -> (command: Option<JointConfig>)
        ensures
            match command {
                Some(cfg) => {
                    &&& self.connected
                    &&& cfg.enable == 1
                    &&& cfg.angles@.len() == 6
                    &&& forall|i: int|
                        0 <= i < 6 ==> cfg.angles@[i] == single_bits(
                            self.joint.spec_values()[i] as int,
                        )
                },
                None => !self.connected,
            },
    {
        if self.connected {
            Some(self.joint.config())
        } else {
            None
        }
    }

    /// Asks for a picture of the LCD to be saved.
    pub fn take_screenshot(&self) -> (effect: Effect)
        ensures
            effect == Effect::Screenshot,
    {
        Effect::Screenshot
    }

    /// Notes that the operator wants to leave.
    pub fn quit(&mut self)
        ensures
            !final(self).running,
            final(self).menu_index == old(self).menu_index,
            final(self).selected_menu == old(self).selected_menu,
            Self::same_but_menu(&App { running: false, ..*old(self) }, final(self)),
    {
        self.running = false;
    }

    /// Highlights the next menu entry, the first after the last, and shows
    /// its page.
    pub fn next_menu(&mut self)
        requires
            old(self).wf(),
        ensures
            final(self).wf(),
            final(self).menu_index == Some(Self::page_after(old(self).menu_index) as usize),
            Self::same_but_menu(old(self), final(self)),
    {
        let items = MenuItem::all();
        let i: usize = match self.menu_index {
            Some(i) => (i + 1) % 4,
            None => 0,
        };
        self.menu_index = Some(i);
        self.selected_menu = items[i];
    }

    /// Highlights the menu entry before, the last before the first, and
    /// shows its page.
    pub fn prev_menu(&mut self)
        requires
            old(self).wf(),
        ensures
            final(self).wf(),
            final(self).menu_index == Some(Self::page_before(old(self).menu_index) as usize),
            Self::same_but_menu(old(self), final(self)),
    {
        let items = MenuItem::all();
        let i: usize = match self.menu_index {
            Some(i) => (i + 4 - 1) % 4,
            None => 0,
        };
        self.menu_index = Some(i);
        self.selected_menu = items[i];
    }

    /// Moves the focus from the menu to the page, or back.
    pub fn toggle_focus(&mut self)
        ensures
            final(self).left_focused == !old(self).left_focused,
            final(self).in_servo_mode == old(self).in_servo_mode,
            final(self).in_settings == old(self).in_settings,
            final(self).settings_selected == old(self).settings_selected,
            final(self).in_edit_mode == old(self).in_edit_mode,
            final(self).edit_buffer == old(self).edit_buffer,
            final(self).config == old(self).config,
            Self::same_but_modes(old(self), final(self)),
    {
        self.left_focused = !self.left_focused;
    }

    /// Number of settings that can be edited.
    pub fn settings_item_count(&self) -> (count: usize)
        ensures
            count == SETTINGS_ITEMS,
    {
        SETTINGS_ITEMS
    }

    /// Highlights the setting before, the last before the first.
    pub fn settings_prev(&mut self)
        requires
            old(self).wf(),
        ensures
            final(self).wf(),
            final(self).settings_selected == (old(self).settings_selected + 2) % 3,
            final(self).left_focused == old(self).left_focused,
            final(self).in_servo_mode == old(self).in_servo_mode,
            final(self).in_settings == old(self).in_settings,
            final(self).in_edit_mode == old(self).in_edit_mode,
            final(self).edit_buffer == old(self).edit_buffer,
            final(self).config == old(self).config,
            Self::same_but_modes(old(self), final(self)),
    {
        let count = self.settings_item_count();
        self.settings_selected = (self.settings_selected + count - 1) % count;
    }

    /// Highlights the next setting, the first after the last.
    pub fn settings_next(&mut self)
        requires
            old(self).wf(),
        ensures
            final(self).wf(),
            final(self).settings_selected == (old(self).settings_selected + 1) % 3,
            final(self).left_focused == old(self).left_focused,
            final(self).in_servo_mode == old(self).in_servo_mode,
            final(self).in_settings == old(self).in_settings,
            final(self).in_edit_mode == old(self).in_edit_mode,
            final(self).edit_buffer == old(self).edit_buffer,
            final(self).config == old(self).config,
            Self::same_but_modes(old(self), final(self)),
    {
        let count = self.settings_item_count();
        self.settings_selected = (self.settings_selected + 1) % count;
    }

    /// The settings with the edited text in the highlighted place.
    pub open spec fn edited_config(&self) -> AppConfig {
        if self.settings_selected == 0 {
            AppConfig { wifi_ssid: self.edit_buffer, ..self.config }
        } else if self.settings_selected == 1 {
            AppConfig { wifi_password: self.edit_buffer, ..self.config }
        } else if self.settings_selected == 2 {
            AppConfig { speech_name: self.edit_buffer, ..self.config }
        } else {
            self.config
        }
    }

    /// The text of the highlighted setting.
    pub open spec fn setting_text(&self) -> Seq<char> {
        if self.settings_selected == 0 {
            self.config.wifi_ssid@
        } else if self.settings_selected == 1 {
            self.config.wifi_password@
        } else if self.settings_selected == 2 {
            self.config.speech_name@
        } else {
            Seq::<char>::empty()
        }
    }

    /// Takes the edited text as the highlighted setting and ends the
    /// editing. The caller then saves the settings.
    pub fn save_settings_edit(&mut self) -> (effect: Effect)
        ensures
            effect == Effect::SaveConfig,
            final(self).config == old(self).edited_config(),
            !final(self).in_edit_mode,
            final(self).edit_buffer@ == Seq::<char>::empty(),
            final(self).settings_selected == old(self).settings_selected,
            final(self).in_servo_mode == old(self).in_servo_mode,
            final(self).in_settings == old(self).in_settings,
            final(self).left_focused == old(self).left_focused,
            Self::same_but_modes(old(self), final(self)),
    {
        if self.settings_selected == 0 {
            self.config.wifi_ssid = self.edit_buffer.clone();
        } else if self.settings_selected == 1 {
            self.config.wifi_password = self.edit_buffer.clone();
        } else if self.settings_selected == 2 {
            self.config.speech_name = self.edit_buffer.clone();
        }
        self.in_edit_mode = false;
        self.edit_buffer = String::new();
        Effect::SaveConfig
    }

    /// Ends the editing and drops the edited text.
    pub fn cancel_settings_edit(&mut self)
        ensures
            final(self).config == old(self).config,
            !final(self).in_edit_mode,
            final(self).edit_buffer@ == Seq::<char>::empty(),
            final(self).settings_selected == old(self).settings_selected,
            final(self).in_servo_mode == old(self).in_servo_mode,
            final(self).in_settings == old(self).in_settings,
            final(self).left_focused == old(self).left_focused,
            Self::same_but_modes(old(self), final(self)),
    {
        self.in_edit_mode = false;
        self.edit_buffer = String::new();
    }

    /// Whether a worker talks to the robot.
    pub fn is_connected(&self) -> (connected: bool)
        ensures
            connected == self.connected,
    {
        self.connected
    }
}

} // verus!
