use ele_bot::device::{DeviceState, FrameData};
use ele_bot::joint::JointConfig;
use ele_bot::layout::{port_popup_area, Rect};
use ele_bot::menu::MenuItem;
use ele_bot::serial::{handle_event, port_label, App, AppEvent, Effect, PortSelectPopup};

fn app() -> App {
    App::new(vec!["/dev/ttyACM0".to_string(), "COM3".to_string()])
}

#[test]
fn serial_console_starts_idle() {
    let a = app();
    assert_eq!(a.menu_index, Some(0));
    assert_eq!(a.selected_menu, MenuItem::DeviceStatus);
    assert!(a.running);
    assert!(!a.device.is_connected());
    assert_eq!(a.lcd_buffer, vec![0u8; 43232]);
    assert!(!a.in_servo_mode);
    assert!(!a.port_select_popup.is_visible());
    assert_eq!(a.port_select_popup.len(), 2);
}

#[test]
fn serial_console_menu_and_servos() {
    let mut a = app();
    assert!(matches!(handle_event(&mut a, AppEvent::MenuDown), Effect::Nothing));
    assert_eq!(a.selected_menu, MenuItem::DeviceControl);
    handle_event(&mut a, AppEvent::ServoIncrease);
    assert_eq!(a.servo_state.values, [0i16; 6]);
    handle_event(&mut a, AppEvent::EnterServoMode);
    assert!(a.in_servo_mode);
    handle_event(&mut a, AppEvent::ServoIncrease);
    handle_event(&mut a, AppEvent::ServoIncreaseBig);
    assert_eq!(a.servo_state.values, [6, 0, 0, 0, 0, 0]);
    handle_event(&mut a, AppEvent::ServoNext);
    handle_event(&mut a, AppEvent::ServoDecrease);
    handle_event(&mut a, AppEvent::ServoDecreaseBig);
    assert_eq!(a.servo_state.values, [6, -6, 0, 0, 0, 0]);
    handle_event(&mut a, AppEvent::ServoPrev);
    handle_event(&mut a, AppEvent::ServoPrev);
    assert_eq!(a.servo_state.selected, 5);
    handle_event(&mut a, AppEvent::MenuDown);
    assert_eq!(a.selected_menu, MenuItem::DeviceControl);
    handle_event(&mut a, AppEvent::ConnectDevice);
    assert!(!a.port_select_popup.is_visible());
    handle_event(&mut a, AppEvent::Nothing);
    handle_event(&mut a, AppEvent::Quit);
    assert!(!a.in_servo_mode);
    assert!(a.running);
    handle_event(&mut a, AppEvent::EnterServoMode);
    handle_event(&mut a, AppEvent::ExitServoMode);
    assert!(!a.in_servo_mode);
    handle_event(&mut a, AppEvent::MenuUp);
    handle_event(&mut a, AppEvent::MenuUp);
    assert_eq!(a.selected_menu, MenuItem::About);
    handle_event(&mut a, AppEvent::EnterServoMode);
    assert!(!a.in_servo_mode);
    handle_event(&mut a, AppEvent::ExitServoMode);
    handle_event(&mut a, AppEvent::Quit);
    assert!(!a.running);
}

#[test]
fn serial_console_connects_through_the_popup() {
    let mut a = app();
    assert!(matches!(handle_event(&mut a, AppEvent::ConnectDevice), Effect::Nothing));
    assert!(a.port_select_popup.is_visible());
    match handle_event(&mut a, AppEvent::ConnectDevice) {
        Effect::Connect(name) => assert_eq!(name, "/dev/ttyACM0"),
        Effect::Nothing => panic!("a port was picked"),
    }
    a.port_select_popup.selected_index = 1;
    match handle_event(&mut a, AppEvent::ConnectDevice) {
        Effect::Connect(name) => assert_eq!(name, "COM3"),
        Effect::Nothing => panic!("a port was picked"),
    }
    a.port_select_popup.selected_index = 2;
    assert!(matches!(handle_event(&mut a, AppEvent::ConnectDevice), Effect::Nothing));
    a.device.connect("COM3", Ok(())).unwrap();
    assert!(a.device.is_connected());
    assert!(matches!(handle_event(&mut a, AppEvent::ConnectDevice), Effect::Nothing));
    assert!(!a.device.is_connected());
    assert_eq!(a.device.state(), &DeviceState::Disconnected);
    a.device.connect("COM3", Ok(())).unwrap();
    a.disconnect_device();
    assert!(!a.device.is_connected());
    let mut empty = PortSelectPopup::new(Vec::new());
    empty.show();
    assert!(empty.selected_port().is_none());
    assert_eq!(empty.len(), 0);
}

#[test]
fn sent_frame_is_kept() {
    let mut a = app();
    let frame = FrameData {
        joint: JointConfig { enable: 1, angles: [0; 6] },
        pixels: vec![5, 6, 7],
    };
    a.update_lcd_buffer(&frame);
    assert_eq!(a.lcd_buffer.len(), 35);
    assert_eq!(a.lcd_buffer[0], 1);
    assert_eq!(&a.lcd_buffer[32..], &[5, 6, 7][..]);
}

#[test]
fn ports_are_labelled_and_listed() {
    assert_eq!(port_label("/dev/ttyUSB0"), "/dev/ttyUSB0 [CDC]");
    assert_eq!(port_label("/dev/ttyACM1"), "/dev/ttyACM1 [CDC]");
    assert_eq!(port_label("COM3"), "COM3");
    assert_eq!(port_label("usb"), "usb");
    assert_eq!(port_label(""), "");
    let area = Rect { x: 0, y: 0, width: 100, height: 30 };
    assert_eq!(port_popup_area(area, 3), Rect { x: 30, y: 12, width: 40, height: 5 });
    assert_eq!(port_popup_area(area, 40), Rect { x: 30, y: 2, width: 40, height: 26 });
    let low = Rect { x: 0, y: 0, width: 30, height: 3 };
    assert_eq!(port_popup_area(low, 3), Rect { x: 2, y: 1, width: 26, height: 0 });
}
