use ele_bot::config::AppConfig;
use ele_bot::console::{App, Effect, Popup, PopupColor, PopupConfig};
use ele_bot::input::{
    handle_by_mode, handle_event, handle_input, handle_joint_mode_input, handle_menu_enter,
    handle_menu_mode_input, handle_settings_mode_input, AppEvent, CommonEvent, DeviceEvent,
    KeyCode, MenuEvent, SettingsEvent,
};
use ele_bot::layout::{
    gauge_bar, gauge_row, get_indicator, log_popup_area, log_popup_entries, popup_area,
    popup_content_area, status_color, LogPopup, Rect, StatusColor,
};
use ele_bot::log::LogQueue;
use ele_bot::menu::MenuItem;

fn app() -> App {
    App::new(AppConfig::default())
}

#[test]
fn default_settings() {
    let config = AppConfig::default();
    assert_eq!(config.speech_name, "麦克风阵列");
    assert_eq!(config.wifi_ssid, "");
    assert_eq!(config.wifi_password, "");
    assert_eq!(AppConfig::CONFIG_PATH, "config.toml");
    let mut config = config.clone();
    config.set_speech_name("mic".to_string());
    config.set_wifi("home".to_string(), "secret-word".to_string());
    assert_eq!(config.speech_name, "mic");
    assert_eq!(config.wifi_ssid, "home");
    assert_eq!(config.wifi_password, "secret-word");
}

#[test]
fn console_starts_on_the_first_page() {
    let a = app();
    assert_eq!(a.menu_index, Some(0));
    assert_eq!(a.selected_menu, MenuItem::DeviceStatus);
    assert!(a.running);
    assert!(a.left_focused);
    assert!(!a.is_connected());
    assert!(!a.popup.is_visible());
    assert_eq!(a.settings_item_count(), 3);
    assert!(a.send_frame().is_none());
}

#[test]
fn menu_moves_in_a_circle() {
    let mut a = app();
    a.prev_menu();
    assert_eq!(a.menu_index, Some(3));
    assert_eq!(a.selected_menu, MenuItem::About);
    a.next_menu();
    assert_eq!(a.selected_menu, MenuItem::DeviceStatus);
    a.next_menu();
    assert_eq!(a.selected_menu, MenuItem::DeviceControl);
    a.next_menu();
    assert_eq!(a.selected_menu, MenuItem::Settings);
    a.menu_index = None;
    a.next_menu();
    assert_eq!(a.menu_index, Some(0));
    assert_eq!(a.selected_menu, MenuItem::DeviceStatus);
    a.menu_index = None;
    a.prev_menu();
    assert_eq!(a.menu_index, Some(0));
}

#[test]
fn connecting_and_disconnecting() {
    let mut a = app();
    assert_eq!(handle_input(&mut a, KeyCode::Enter, false), Effect::Connect);
    assert!(a.popup.is_visible());
    assert_eq!(a.popup.config.content, "正在通过 USB 连接设备...");
    assert_eq!(a.popup.config.title, " 连接设备 ");
    a.connect_robot(true);
    assert!(a.is_connected());
    assert!(!a.popup.is_visible());
    let command = a.send_frame().unwrap();
    assert_eq!(command.enable, 1);
    assert_eq!(handle_input(&mut a, KeyCode::Enter, false), Effect::Disconnect);
    assert!(!a.is_connected());
    assert_eq!(a.begin_connect(), Effect::Connect);
    a.connect_robot(false);
    assert!(!a.is_connected());
    assert!(!a.popup.is_visible());
    assert_eq!(a.begin_connect(), Effect::Connect);
    assert_eq!(handle_input(&mut a, KeyCode::Char('x'), false), Effect::Nothing);
    assert!(a.popup.is_visible());
    assert_eq!(handle_input(&mut a, KeyCode::Esc, false), Effect::Nothing);
    assert!(!a.running);
    let mut b = app();
    b.begin_connect();
    assert_eq!(handle_by_mode(&mut b, KeyCode::Up, false), Effect::Nothing);
    assert_eq!(b.selected_menu, MenuItem::DeviceStatus);
    assert_eq!(handle_by_mode(&mut b, KeyCode::Esc, false), Effect::Disconnect);
    assert!(!b.popup.is_visible());
    assert!(b.running);
    assert_eq!(b.take_screenshot(), Effect::Screenshot);
    assert_eq!(b.stop_comm_thread(), Effect::Disconnect);
}

#[test]
fn steering_the_servos() {
    let mut a = app();
    assert_eq!(handle_input(&mut a, KeyCode::Down, false), Effect::Nothing);
    assert_eq!(a.selected_menu, MenuItem::DeviceControl);
    assert_eq!(handle_input(&mut a, KeyCode::Enter, false), Effect::Nothing);
    assert!(a.in_servo_mode);
    assert!(!a.left_focused);
    handle_input(&mut a, KeyCode::Right, false);
    handle_input(&mut a, KeyCode::Right, false);
    assert_eq!(a.joint.values(), &[2, 0, 0, 0, 0, 0]);
    handle_input(&mut a, KeyCode::Down, false);
    assert_eq!(a.joint.selected(), 1);
    handle_input(&mut a, KeyCode::Left, false);
    assert_eq!(a.joint.values(), &[2, -1, 0, 0, 0, 0]);
    handle_input(&mut a, KeyCode::Up, false);
    handle_input(&mut a, KeyCode::Up, false);
    assert_eq!(a.joint.selected(), 5);
    assert_eq!(a.selected_menu, MenuItem::DeviceControl);
    assert_eq!(handle_input(&mut a, KeyCode::Char('s'), false), Effect::Screenshot);
    assert_eq!(handle_input(&mut a, KeyCode::Char('x'), false), Effect::Nothing);
    assert_eq!(handle_input(&mut a, KeyCode::Enter, false), Effect::Nothing);
    assert!(!a.in_servo_mode);
    assert!(a.left_focused);
    handle_input(&mut a, KeyCode::Enter, false);
    assert!(a.in_servo_mode);
    assert_eq!(handle_input(&mut a, KeyCode::Esc, false), Effect::Nothing);
    assert!(!a.in_servo_mode);
    assert!(a.left_focused);
    assert!(a.running);
    a.in_servo_mode = true;
    a.left_focused = true;
    handle_input(&mut a, KeyCode::Right, false);
    assert!(!a.in_servo_mode);
    assert_eq!(a.joint.values(), &[2, -1, 0, 0, 0, 0]);
    a.in_servo_mode = true;
    a.left_focused = false;
    assert_eq!(handle_by_mode(&mut a, KeyCode::Right, false), Effect::Nothing);
    assert_eq!(a.joint.values()[5], 1);
    assert_eq!(handle_by_mode(&mut a, KeyCode::Esc, false), Effect::Nothing);
    assert!(!a.in_servo_mode);
    assert!(a.left_focused);
}

#[test]
fn editing_a_setting() {
    let mut a = app();
    handle_input(&mut a, KeyCode::Down, false);
    handle_input(&mut a, KeyCode::Down, false);
    assert_eq!(a.selected_menu, MenuItem::Settings);
    handle_input(&mut a, KeyCode::Enter, false);
    assert!(a.in_settings);
    assert!(!a.left_focused);
    handle_input(&mut a, KeyCode::Up, false);
    assert_eq!(a.settings_selected, 2);
    handle_input(&mut a, KeyCode::Down, false);
    assert_eq!(a.settings_selected, 0);
    handle_input(&mut a, KeyCode::Down, false);
    handle_input(&mut a, KeyCode::Down, false);
    assert_eq!(a.settings_selected, 2);
    handle_input(&mut a, KeyCode::Enter, false);
    assert!(a.in_edit_mode);
    assert_eq!(a.edit_buffer, "麦克风阵列");
    handle_input(&mut a, KeyCode::Backspace, false);
    handle_input(&mut a, KeyCode::Backspace, false);
    handle_input(&mut a, KeyCode::Char('A'), false);
    handle_input(&mut a, KeyCode::Char('s'), false);
    assert_eq!(a.edit_buffer, "麦克风As");
    handle_input(&mut a, KeyCode::Up, false);
    assert_eq!(a.settings_selected, 2);
    assert_eq!(handle_input(&mut a, KeyCode::Enter, false), Effect::SaveConfig);
    assert!(!a.in_edit_mode);
    assert_eq!(a.edit_buffer, "");
    assert_eq!(a.config.speech_name, "麦克风As");
    handle_input(&mut a, KeyCode::Up, false);
    assert_eq!(a.settings_selected, 1);
    handle_input(&mut a, KeyCode::Enter, false);
    assert_eq!(a.edit_buffer, "");
    handle_input(&mut a, KeyCode::Backspace, false);
    handle_input(&mut a, KeyCode::Char('p'), false);
    assert_eq!(handle_input(&mut a, KeyCode::Esc, false), Effect::Nothing);
    assert!(!a.in_edit_mode);
    assert_eq!(a.config.wifi_password, "");
    handle_input(&mut a, KeyCode::Enter, false);
    handle_input(&mut a, KeyCode::Char('p'), false);
    handle_input(&mut a, KeyCode::Char('w'), false);
    assert_eq!(handle_by_mode(&mut a, KeyCode::Enter, false), Effect::SaveConfig);
    assert_eq!(a.config.wifi_password, "pw");
    assert_eq!(handle_input(&mut a, KeyCode::Esc, false), Effect::Nothing);
    assert!(!a.in_settings);
    assert!(a.left_focused);
    assert!(a.running);
    assert_eq!(handle_input(&mut a, KeyCode::Char('s'), true), Effect::SaveConfig);
    assert_eq!(handle_input(&mut a, KeyCode::Char('q'), true), Effect::Nothing);
    assert!(!a.running);
}

#[test]
fn keys_stand_for_events() {
    let mut a = app();
    assert_eq!(handle_menu_enter(&a), AppEvent::Menu(MenuEvent::ConnectDevice));
    a.next_menu();
    assert_eq!(handle_menu_enter(&a), AppEvent::Menu(MenuEvent::EnterServoMode));
    a.next_menu();
    assert_eq!(handle_menu_enter(&a), AppEvent::Menu(MenuEvent::EnterSettingMode));
    a.next_menu();
    assert_eq!(handle_menu_mode_input(KeyCode::Enter, false, &a), AppEvent::Menu(MenuEvent::ConnectDevice));
    assert_eq!(handle_menu_mode_input(KeyCode::Esc, false, &a), AppEvent::Common(CommonEvent::Quit));
    assert_eq!(handle_menu_mode_input(KeyCode::Up, false, &a), AppEvent::Menu(MenuEvent::Up));
    assert_eq!(handle_menu_mode_input(KeyCode::Down, true, &a), AppEvent::Menu(MenuEvent::Down));
    assert_eq!(
        handle_menu_mode_input(KeyCode::Char('s'), true, &a),
        AppEvent::Settings(SettingsEvent::Save)
    );
    assert_eq!(
        handle_menu_mode_input(KeyCode::Char('s'), false, &a),
        AppEvent::Common(CommonEvent::Nothing)
    );
    assert_eq!(handle_menu_mode_input(KeyCode::Left, false, &a), AppEvent::Common(CommonEvent::Nothing));
    assert_eq!(handle_joint_mode_input(KeyCode::Esc), AppEvent::Device(DeviceEvent::Exit));
    assert_eq!(handle_joint_mode_input(KeyCode::Up), AppEvent::Device(DeviceEvent::Prev));
    assert_eq!(handle_joint_mode_input(KeyCode::Down), AppEvent::Device(DeviceEvent::Next));
    assert_eq!(handle_joint_mode_input(KeyCode::Left), AppEvent::Device(DeviceEvent::Decrease));
    assert_eq!(handle_joint_mode_input(KeyCode::Right), AppEvent::Device(DeviceEvent::Increase));
    assert_eq!(handle_joint_mode_input(KeyCode::Char('s')), AppEvent::Device(DeviceEvent::Screenshot));
    assert_eq!(handle_joint_mode_input(KeyCode::Enter), AppEvent::Common(CommonEvent::Nothing));
    assert_eq!(handle_settings_mode_input(KeyCode::Esc), AppEvent::Settings(SettingsEvent::Exit));
    assert_eq!(handle_settings_mode_input(KeyCode::Up), AppEvent::Settings(SettingsEvent::Up));
    assert_eq!(handle_settings_mode_input(KeyCode::Down), AppEvent::Settings(SettingsEvent::Down));
    assert_eq!(handle_settings_mode_input(KeyCode::Enter), AppEvent::Settings(SettingsEvent::EnterEdit));
    assert_eq!(handle_settings_mode_input(KeyCode::Other), AppEvent::Common(CommonEvent::Nothing));
    assert_eq!(AppEvent::from(CommonEvent::Quit), AppEvent::Common(CommonEvent::Quit));
    assert_eq!(AppEvent::from(MenuEvent::Up), AppEvent::Menu(MenuEvent::Up));
    assert_eq!(AppEvent::from(DeviceEvent::Next), AppEvent::Device(DeviceEvent::Next));
    assert_eq!(AppEvent::from(SettingsEvent::Save), AppEvent::Settings(SettingsEvent::Save));
}

#[test]
fn events_outside_their_mode_do_nothing() {
    let mut a = app();
    assert_eq!(handle_event(&mut a, AppEvent::Device(DeviceEvent::Increase)), Effect::Nothing);
    assert_eq!(a.joint.values(), &[0i16; 6]);
    assert_eq!(handle_event(&mut a, AppEvent::Device(DeviceEvent::Screenshot)), Effect::Nothing);
    assert_eq!(handle_event(&mut a, AppEvent::Settings(SettingsEvent::Down)), Effect::Nothing);
    assert_eq!(a.settings_selected, 0);
    assert_eq!(handle_event(&mut a, AppEvent::Menu(MenuEvent::EnterServoMode)), Effect::Nothing);
    assert!(!a.in_servo_mode);
    assert_eq!(handle_event(&mut a, AppEvent::Menu(MenuEvent::EnterSettingMode)), Effect::Nothing);
    assert!(!a.in_settings);
    a.in_settings = true;
    assert_eq!(handle_event(&mut a, AppEvent::Menu(MenuEvent::Down)), Effect::Nothing);
    assert_eq!(a.selected_menu, MenuItem::DeviceStatus);
    assert_eq!(handle_event(&mut a, AppEvent::Menu(MenuEvent::ConnectDevice)), Effect::Nothing);
    assert_eq!(handle_event(&mut a, AppEvent::Settings(SettingsEvent::Save)), Effect::Nothing);
    assert_eq!(handle_event(&mut a, AppEvent::Settings(SettingsEvent::Exit)), Effect::Nothing);
    assert!(!a.in_settings);
    assert_eq!(handle_event(&mut a, AppEvent::Common(CommonEvent::Nothing)), Effect::Nothing);
    assert!(a.running);
    assert_eq!(handle_event(&mut a, AppEvent::Common(CommonEvent::Quit)), Effect::Nothing);
    assert!(!a.running);
}

#[test]
fn popup_looks() {
    let mut popup = Popup::new();
    assert!(!popup.is_visible());
    assert_eq!(popup.config.title, "弹窗");
    assert_eq!(popup.config.width, 40);
    assert_eq!(popup.config.height, 5);
    assert_eq!(popup.config.border_color, PopupColor::Green);
    assert_eq!(popup.config.bg_color, PopupColor::DarkGray);
    assert_eq!(popup.config.title_color, PopupColor::Cyan);
    popup.show();
    assert!(popup.is_visible());
    popup.close();
    assert!(!popup.is_visible());
    let mut config = PopupConfig::default();
    config.title = "t".to_string();
    config.width = 12;
    popup.configure(config.clone());
    assert_eq!(popup.config.title, "t");
    assert_eq!(popup.config.width, 12);
    popup.show_connecting();
    assert!(popup.is_visible());
    assert_eq!(popup.config.width, 40);
    assert!(!Popup::default().is_visible());
}

#[test]
fn popups_are_centred() {
    let area = Rect { x: 0, y: 0, width: 100, height: 30 };
    assert_eq!(popup_area(area, 40, 5), Rect { x: 30, y: 12, width: 40, height: 5 });
    let narrow = Rect { x: 3, y: 1, width: 20, height: 4 };
    assert_eq!(popup_area(narrow, 40, 5), Rect { x: 5, y: 1, width: 16, height: 5 });
    let tiny = Rect { x: 0, y: 0, width: 3, height: 3 };
    assert_eq!(popup_area(tiny, 40, 5), Rect { x: 1, y: 0, width: 0, height: 5 });
    assert_eq!(
        popup_content_area(Rect { x: 30, y: 12, width: 40, height: 5 }),
        Rect { x: 31, y: 14, width: 38, height: 1 }
    );
    assert_eq!(log_popup_area(area), Rect { x: 2, y: 2, width: 80, height: 15 });
    assert_eq!(log_popup_area(narrow), Rect { x: 5, y: 3, width: 16, height: 0 });
    assert_eq!(log_popup_entries(12, 15), (7, 12, false));
    assert_eq!(log_popup_entries(14, 15), (9, 14, true));
    assert_eq!(log_popup_entries(3, 15), (0, 3, false));
    assert_eq!(log_popup_entries(10, 5), (7, 10, true));
    assert_eq!(log_popup_entries(10, 2), (10, 10, true));
    assert_eq!(log_popup_entries(0, 2), (0, 0, false));
}

#[test]
fn gauges_share_the_rows() {
    let rows: Vec<(u16, u16)> = (0..6).map(|i| gauge_row(20, i)).collect();
    assert_eq!(rows, vec![(0, 4), (4, 4), (8, 3), (11, 3), (14, 3), (17, 3)]);
    let rows: Vec<(u16, u16)> = (0..6).map(|i| gauge_row(18, i)).collect();
    assert_eq!(rows, vec![(0, 3), (3, 3), (6, 3), (9, 3), (12, 3), (15, 3)]);
    assert_eq!(gauge_row(5, 5), (5, 0));
    assert_eq!(gauge_row(u16::MAX, 5), (54613, 10922));
    assert_eq!(gauge_bar(70, 50), (25, 25));
    assert_eq!(gauge_bar(70, 0), (0, 50));
    assert_eq!(gauge_bar(70, 100), (50, 0));
    assert_eq!(gauge_bar(53, 75), (24, 9));
    assert_eq!(gauge_bar(10, 75), (0, 0));
    assert_eq!(gauge_bar(u16::MAX, 100), (65515, 0));
    assert_eq!(get_indicator(false, false), " ");
    assert_eq!(get_indicator(false, true), " ");
    assert_eq!(get_indicator(true, false), "○");
    assert_eq!(get_indicator(true, true), "▶");
    assert_eq!(status_color(true), StatusColor::Green);
    assert_eq!(status_color(false), StatusColor::Red);
}

#[test]
fn log_popup_opens_on_important_news() {
    let mut popup = LogPopup::new();
    let mut log = LogQueue::new();
    assert!(!popup.prepare(&mut log));
    log.info("fine".to_string());
    assert!(!popup.prepare(&mut log));
    assert!(!popup.is_visible());
    log.warn("careful".to_string());
    assert!(popup.prepare(&mut log));
    assert!(popup.is_visible());
    assert!(!log.has_new_important());
    popup.scroll_down();
    popup.scroll_down();
    assert_eq!(popup.scroll_offset(), 2);
    popup.scroll_up();
    popup.scroll_up();
    popup.scroll_up();
    assert_eq!(popup.scroll_offset(), 0);
    popup.toggle();
    assert!(!popup.is_visible());
    assert!(!popup.prepare(&mut log));
    popup.toggle();
    assert!(popup.prepare(&mut log));
    log.clear();
    assert!(!popup.prepare(&mut log));
    popup.close();
    popup.show();
    assert!(popup.is_visible());
    assert!(!LogPopup::default().is_visible());
}

#[test]
fn the_command_sent_holds_the_angles_set() {
    let mut a = app();
    a.connect_robot(true);
    a.in_servo_mode = true;
    a.left_focused = false;
    for _ in 0..3 {
        handle_input(&mut a, KeyCode::Right, false);
    }
    handle_input(&mut a, KeyCode::Down, false);
    for _ in 0..40 {
        handle_input(&mut a, KeyCode::Left, false);
    }
    let command = a.send_frame().unwrap();
    assert_eq!(command.enable, 1);
    assert_eq!(command.angles.map(f32::from_bits), [3.0, -30.0, 0.0, 0.0, 0.0, 0.0]);
    a.connect_robot(false);
    assert!(a.send_frame().is_none());
}

#[test]
fn default_popup_is_the_new_popup() {
    let popup = Popup::default();
    assert!(!popup.is_visible());
    assert_eq!(popup.config.title, "弹窗");
    assert_eq!(popup.config.content, "");
    assert_eq!(popup.config.width, 40);
    assert_eq!(popup.config.height, 5);
    assert_eq!(popup.config.border_color, PopupColor::Green);
    assert_eq!(popup.config.bg_color, PopupColor::DarkGray);
    assert_eq!(popup.config.title_color, PopupColor::Cyan);
}
