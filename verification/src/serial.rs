//! The console of the robot on a serial line: a menu, a page that steers the
//! servos in one range for all, and a popup from which the operator picks
//! the port.

use vstd::prelude::*;
use vstd::string::StringExecFns;
use crate::device::{CdcDevice, FrameData, FRAME_SIZE};
use crate::codec::command_record;
use crate::menu::MenuItem;
use crate::servo::{lowered, raised, ServoState};
use crate::text::{contains, occurs_in};

verus! {

/// An event of the console.
#[derive(Clone, Copy, Debug, PartialEq, Eq, Structural)]
pub enum AppEvent {
    Quit,
    MenuUp,
    MenuDown,
    ConnectDevice,
    EnterServoMode,
    ExitServoMode,
    ServoNext,
    ServoPrev,
    ServoIncrease,
    ServoDecrease,
    ServoIncreaseBig,
    ServoDecreaseBig,
    Nothing,
}

/// The popup from which the operator picks a port.
pub struct PortSelectPopup {
    pub ports: Vec<String>,
    pub selected_index: usize,
    pub visible: bool,
}

impl PortSelectPopup {
    /// A hidden popup that lists the given ports, the first one picked.
    pub fn new(ports: Vec<String>) -> (popup: Self)
        ensures
            popup.ports == ports,
            popup.selected_index == 0,
            !popup.visible,
    {
        PortSelectPopup { ports, selected_index: 0, visible: false }
    }

    /// Whether the popup is shown.
    pub fn is_visible(&self) -> (visible: bool)
        ensures
            visible == self.visible,
    {
        self.visible
    }

    /// Shows the popup.
    pub fn show(&mut self)
        ensures
            final(self).visible,
            final(self).ports == old(self).ports,
            final(self).selected_index == old(self).selected_index,
    {
        self.visible = true;
    }

    /// Number of ports listed.
    pub fn len(&self) -> (n: usize)
        ensures
            n == self.ports@.len(),
    {
        self.ports.len()
    }

    /// The port that is picked, where the list reaches that far.
    pub fn selected_port(&self) -> (port: Option<&String>)
        ensures
            match port {
                Some(name) => self.selected_index < self.ports@.len() && *name
                    == self.ports@[self.selected_index as int],
                None => self.selected_index >= self.ports@.len(),
            },
    {
        if self.selected_index < self.ports.len() {
            Some(&self.ports[self.selected_index])
        } else {
            None
        }
    }
}

/// The entry of a port in the list: its name, marked where the name tells
/// that the port is a USB serial line.
pub open spec fn port_label_text(port: Seq<char>) -> Seq<char> {
    if occurs_in(port, "USB"@) || occurs_in(port, "ACM"@) {
        port + " [CDC]"@
    } else {
        port
    }
}

/// The entry of a port in the list.
pub fn port_label(port: &str) -> (label: String)
    ensures
        label@ == port_label_text(port@),
{
    let mut label = String::from_str(port);
    if contains(port, "USB") || contains(port, "ACM") {
        label.append(" [CDC]");
    }
    label
}

/// Work that the console asks its caller to do.
#[derive(Debug)]
pub enum Effect {
    /// Nothing.
    Nothing,
    /// Open the port of this name, and report to the device how that went.
    Connect(String),
}

/// The console.
pub struct App {
    /// Position of the highlighted menu entry, if one is highlighted.
    pub menu_index: Option<usize>,
    /// The page on show.
    pub selected_menu: MenuItem,
    /// False once the operator has asked to leave.
    pub running: bool,
    /// The device.
    pub device: CdcDevice,
    /// Frames made so far, counted modulo two to the thirty-second.
    pub frame_counter: u32,
    /// The bytes of the frame that was sent last.
    pub lcd_buffer: Vec<u8>,
    /// The servo angles.
    pub servo_state: ServoState,
    /// Whether keys steer the servos.
    pub in_servo_mode: bool,
    /// The popup from which the operator picks a port.
    pub port_select_popup: PortSelectPopup,
}

impl App {
    /// The highlighted menu entry is within the menu and is the page on
    /// show, and a servo is selected.
    pub open spec fn wf(&self) -> bool {
        &&& self.servo_state.selected < 6
        &&& match self.menu_index {
            Some(i) => i < 4 && self.selected_menu.spec_index() == i,
            None => true,
        }
    }

    /// `post` differs from `pre` at most in the menu position and the page.
    pub open spec fn same_but_menu(pre: &App, post: &App) -> bool {
        &&& post.running == pre.running
        &&& post.device == pre.device
        &&& post.frame_counter == pre.frame_counter
        &&& post.lcd_buffer == pre.lcd_buffer
        &&& post.servo_state == pre.servo_state
        &&& post.in_servo_mode == pre.in_servo_mode
        &&& post.port_select_popup == pre.port_select_popup
    }

    /// `post` differs from `pre` at most in the servo angles and the servo
    /// selected.
    pub open spec fn same_but_servos(pre: &App, post: &App) -> bool {
        &&& post.menu_index == pre.menu_index
        &&& post.selected_menu == pre.selected_menu
        &&& post.running == pre.running
        &&& post.device == pre.device
        &&& post.frame_counter == pre.frame_counter
        &&& post.lcd_buffer == pre.lcd_buffer
        &&& post.in_servo_mode == pre.in_servo_mode
        &&& post.port_select_popup == pre.port_select_popup
    }

    /// `post` is `pre` with the selected servo at `angle`.
    pub open spec fn servo_moved(pre: &App, post: &App, angle: int) -> bool {
        &&& Self::same_but_servos(pre, post)
        &&& post.servo_state.selected == pre.servo_state.selected
        &&& post.servo_state.values@ == pre.servo_state.values@.update(
            pre.servo_state.selected as int,
            angle as i16,
        )
    }

    /// A console at its start: the first page highlighted, the device not
    /// connected, an empty frame, the given ports to pick from.
    pub fn new(ports: Vec<String>) -> (app: Self)
        ensures
            app.wf(),
            app.menu_index == Some(0usize),
            app.selected_menu == MenuItem::DeviceStatus,
            app.running,
            !app.device.spec_connected(),
            app.device.spec_state() is Disconnected,
            app.device.spec_ping_pong() == 0,
            app.frame_counter == 0,
            app.lcd_buffer@ == Seq::new(FRAME_SIZE as nat, |i: int| 0u8),
            app.servo_state.selected == 0,
            app.servo_state.values@ == Seq::new(6, |i: int| 0i16),
            !app.in_servo_mode,
            !app.port_select_popup.visible,
            app.port_select_popup.ports == ports,
            app.port_select_popup.selected_index == 0,
    {
        let lcd_buffer = vec![0u8; FRAME_SIZE];
        assert(lcd_buffer@ =~= Seq::new(FRAME_SIZE as nat, |i: int| 0u8));
        App {
            menu_index: Some(0),
            selected_menu: MenuItem::DeviceStatus,
            running: true,
            device: CdcDevice::new(),
            frame_counter: 0,
            lcd_buffer,
            servo_state: ServoState::default(),
            in_servo_mode: false,
            port_select_popup: PortSelectPopup::new(ports),
        }
    }

    /// Notes that the operator wants to leave.
    pub fn quit(&mut self)
        ensures
            !final(self).running,
            final(self).menu_index == old(self).menu_index,
            final(self).selected_menu == old(self).selected_menu,
            Self::same_but_menu(&App { running: false, ..*old(self) }, final(self)),
    {
        self.running = false;
    }

    /// Highlights the next menu entry, the first after the last, and shows
    /// its page.
    pub fn next_menu(&mut self)
        requires
            old(self).wf(),
        ensures
            final(self).wf(),
            final(self).menu_index == Some(
                (match old(self).menu_index {
                    Some(i) => (i + 1) % 4,
                    None => 0,
                }) as usize,
            ),
            Self::same_but_menu(old(self), final(self)),
    {
        let items = MenuItem::all();
        let i: usize = match self.menu_index {
            Some(i) => (i + 1) % 4,
            None => 0,
        };
        self.menu_index = Some(i);
        self.selected_menu = items[i];
    }

    /// Highlights the menu entry before, the last before the first, and
    /// shows its page.
    pub fn prev_menu(&mut self)
        requires
            old(self).wf(),
        ensures
            final(self).wf(),
            final(self).menu_index == Some(
                (match old(self).menu_index {
                    Some(i) => (i + 3) % 4,
                    None => 0,
                }) as usize,
            ),
            Self::same_but_menu(old(self), final(self)),
    {
        let items = MenuItem::all();
        let i: usize = match self.menu_index {
            Some(i) => (i + 4 - 1) % 4,
            None => 0,
        };
        self.menu_index = Some(i);
        self.selected_menu = items[i];
    }

    /// Closes the connection to the device.
    pub fn disconnect_device(&mut self)
        ensures
            !final(self).device.spec_connected(),
            final(self).device.spec_state() is Disconnected,
            final(self).menu_index == old(self).menu_index,
            final(self).selected_menu == old(self).selected_menu,
            final(self).running == old(self).running,
            final(self).frame_counter == old(self).frame_counter,
            final(self).lcd_buffer == old(self).lcd_buffer,
            final(self).servo_state == old(self).servo_state,
            final(self).in_servo_mode == old(self).in_servo_mode,
            final(self).port_select_popup == old(self).port_select_popup,
    {
        self.device.disconnect();
    }

    /// Keeps the bytes of a frame as the frame that was sent last.
    pub fn update_lcd_buffer(&mut self, frame: &FrameData)
        ensures
            final(self).lcd_buffer@ == command_record(frame.joint.enable, frame.joint.angles@)
                + frame.pixels@,
            final(self).menu_index == old(self).menu_index,
            final(self).selected_menu == old(self).selected_menu,
            final(self).running == old(self).running,
            final(self).device == old(self).device,
            final(self).frame_counter == old(self).frame_counter,
            final(self).servo_state == old(self).servo_state,
            final(self).in_servo_mode == old(self).in_servo_mode,
            final(self).port_select_popup == old(self).port_select_popup,
    {
        self.lcd_buffer = frame.to_bytes();
    }
}

/// What an event makes of the console: `post` is `pre` after `event`, with
/// `effect` left for the caller to do. While the servos are steered, only
/// the events of the servos count, and leaving means leaving the steering.
/// Otherwise the menu is gone through; connecting closes an open connection,
/// or opens the popup, or, with the popup open, asks for the port that is
/// picked there.
pub open spec fn event_handled(pre: &App, event: AppEvent, post: &App, effect: Effect) -> bool {
    let angle = pre.servo_state.values@[pre.servo_state.selected as int] as int;
    if pre.in_servo_mode {
        &&& effect is Nothing
        &&& match event {
            AppEvent::Quit | AppEvent::ExitServoMode => {
                &&& !post.in_servo_mode
                &&& post.servo_state == pre.servo_state
                &&& App::same_but_servos(&App { in_servo_mode: false, ..*pre }, post)
            },
            AppEvent::ServoNext => {
                &&& App::same_but_servos(pre, post)
                &&& post.servo_state.selected == (pre.servo_state.selected + 1) % 6
                &&& post.servo_state.values == pre.servo_state.values
            },
            AppEvent::ServoPrev => {
                &&& App::same_but_servos(pre, post)
                &&& post.servo_state.selected == (pre.servo_state.selected + 5) % 6
                &&& post.servo_state.values == pre.servo_state.values
            },
            AppEvent::ServoIncrease => App::servo_moved(pre, post, raised(angle, 1)),
            AppEvent::ServoDecrease => App::servo_moved(pre, post, lowered(angle, 1)),
            AppEvent::ServoIncreaseBig => App::servo_moved(pre, post, raised(angle, 5)),
            AppEvent::ServoDecreaseBig => App::servo_moved(pre, post, lowered(angle, 5)),
            _ => *post == *pre,
        }
    } else {
        match event {
            AppEvent::Quit => {
                &&& effect is Nothing
                &&& !post.running
                &&& post.menu_index == pre.menu_index
                &&& post.selected_menu == pre.selected_menu
                &&& App::same_but_menu(&App { running: false, ..*pre }, post)
            },
            AppEvent::MenuUp => {
                &&& effect is Nothing
                &&& App::same_but_menu(pre, post)
                &&& post.menu_index == Some(
                    (match pre.menu_index {
                        Some(i) => (i + 3) % 4,
                        None => 0,
                    }) as usize,
                )
            },
            AppEvent::MenuDown => {
                &&& effect is Nothing
                &&& App::same_but_menu(pre, post)
                &&& post.menu_index == Some(
                    (match pre.menu_index {
                        Some(i) => (i + 1) % 4,
                        None => 0,
                    }) as usize,
                )
            },
            AppEvent::ConnectDevice => if pre.device.spec_connected() {
                &&& effect is Nothing
                &&& !post.device.spec_connected()
                &&& post.device.spec_state() is Disconnected
                &&& App::same_but_menu(&App { device: post.device, ..*pre }, post)
                &&& post.menu_index == pre.menu_index
                &&& post.selected_menu == pre.selected_menu
            } else if pre.port_select_popup.visible {
                &&& *post == *pre
                &&& if pre.port_select_popup.selected_index < pre.port_select_popup.ports@.len() {
                    effect matches Effect::Connect(name) && name@
                        == pre.port_select_popup.ports@[pre.port_select_popup.selected_index as int]@
                } else {
                    effect is Nothing
                }
            } else {
                &&& effect is Nothing
                &&& post.port_select_popup.visible
                &&& post.port_select_popup.ports == pre.port_select_popup.ports
                &&& post.port_select_popup.selected_index == pre.port_select_popup.selected_index
                &&& App::same_but_menu(
                    &App { port_select_popup: post.port_select_popup, ..*pre },
                    post,
                )
                &&& post.menu_index == pre.menu_index
                &&& post.selected_menu == pre.selected_menu
            },
            AppEvent::EnterServoMode => {
                &&& effect is Nothing
                &&& post.in_servo_mode == (pre.selected_menu == MenuItem::DeviceControl)
                &&& post.servo_state == pre.servo_state
                &&& App::same_but_servos(
                    &App { in_servo_mode: post.in_servo_mode, ..*pre },
                    post,
                )
            },
            _ => effect is Nothing && *post == *pre,
        }
    }
}

/// Lets an event act on the console.
pub fn handle_event(app: &mut App, event: AppEvent) -> (effect: Effect)
    requires
        old(app).wf(),
    ensures
        final(app).wf(),
        event_handled(old(app), event, final(app), effect),
{
    if app.in_servo_mode {
        match event {
            AppEvent::Quit => {
                app.in_servo_mode = false;
            },
            AppEvent::ExitServoMode => {
                app.in_servo_mode = false;
            },
            AppEvent::ServoNext => app.servo_state.next_servo(),
            AppEvent::ServoPrev => app.servo_state.prev_servo(),
            AppEvent::ServoIncrease => app.servo_state.increase(),
            AppEvent::ServoDecrease => app.servo_state.decrease(),
            AppEvent::ServoIncreaseBig => app.servo_state.increase_big(),
            AppEvent::ServoDecreaseBig => app.servo_state.decrease_big(),
            _ => {},
        }
        return Effect::Nothing;
    }
    match event {
        AppEvent::Quit => {
            app.quit();
            Effect::Nothing
        },
        AppEvent::MenuUp => {
            app.prev_menu();
            Effect::Nothing
        },
        AppEvent::MenuDown => {
            app.next_menu();
            Effect::Nothing
        },
        AppEvent::ConnectDevice => {
            if app.device.is_connected() {
                app.disconnect_device();
                Effect::Nothing
            } else if app.port_select_popup.is_visible() {
                match app.port_select_popup.selected_port() {
                    Some(port) => Effect::Connect(port.clone()),
                    None => Effect::Nothing,
                }
            } else {
                app.port_select_popup.show();
                Effect::Nothing
            }
        },
        AppEvent::EnterServoMode => {
            if app.selected_menu == MenuItem::DeviceControl {
                app.in_servo_mode = true;
            }
            Effect::Nothing
        },
        _ => Effect::Nothing,
    }
}

} // verus!
