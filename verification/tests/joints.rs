use ele_bot::codec::angle_bits;
use ele_bot::joint::{Joint, JointConfig, ServoState};
use ele_bot::menu::MenuItem;

#[test]
fn angle_bits_match_the_machine_for_every_degree() {
    for degrees in i16::MIN..=i16::MAX {
        assert_eq!(angle_bits(degrees), (degrees as f32).to_bits(), "degrees {}", degrees);
    }
}

#[test]
fn angle_bits_of_known_values() {
    assert_eq!(angle_bits(0), 0);
    assert_eq!(angle_bits(1), 0x3f80_0000);
    assert_eq!(angle_bits(-1), 0xbf80_0000);
    assert_eq!(angle_bits(2), 0x4000_0000);
    assert_eq!(angle_bits(180), 0x4334_0000);
    assert_eq!(angle_bits(-180), 0xc334_0000);
    assert_eq!(angle_bits(90), 0x42b4_0000);
    assert_eq!(angle_bits(i16::MIN), 0xc700_0000);
    assert_eq!(angle_bits(i16::MAX), 0x46ff_fe00);
}

#[test]
fn joint_limits_and_names() {
    let names = ["头部", "左肩", "左臂", "右肩", "右臂", "身体"];
    let mins = [-15, -30, -180, -30, -180, -90];
    let maxs = [15, 30, 180, 30, 180, 90];
    for i in 0..6 {
        assert_eq!(ServoState::name(i), names[i]);
        assert_eq!(ServoState::min_angle(i), mins[i]);
        assert_eq!(ServoState::max_angle(i), maxs[i]);
        assert_eq!(ServoState::range_str(i), format!("{}° ~ {}°", mins[i], maxs[i]));
    }
    assert_eq!(ServoState::range_str(0), "-15° ~ 15°");
    assert_eq!(ServoState::range_str(2), "-180° ~ 180°");
    assert_eq!(ServoState::name(6), "Unknown");
    assert_eq!(ServoState::min_angle(6), -125);
    assert_eq!(ServoState::max_angle(6), 125);
    assert_eq!(ServoState::min_angle(usize::MAX), -125);
}

#[test]
fn joint_servo_state_steps() {
    let mut s = ServoState::default();
    assert_eq!(s.selected, 0);
    for _ in 0..20 {
        s.increase();
    }
    assert_eq!(s.values[0], 15);
    for _ in 0..40 {
        s.decrease();
    }
    assert_eq!(s.values[0], -15);
    s.next();
    assert_eq!(s.selected, 1);
    s.prev();
    s.prev();
    assert_eq!(s.selected, 5);
    s.values[5] = -200;
    s.increase();
    assert_eq!(s.values[5], -199);
    s.values[5] = 150;
    s.increase();
    assert_eq!(s.values[5], 90);
    s.values[5] = 150;
    s.decrease();
    assert_eq!(s.values[5], 149);
    s.values[5] = -150;
    s.decrease();
    assert_eq!(s.values[5], -90);
    let cfg = s.as_config();
    assert_eq!(cfg.enable, 1);
    assert_eq!(f32::from_bits(cfg.angles[0]), -15.0);
    assert_eq!(f32::from_bits(cfg.angles[5]), -90.0);
}

#[test]
fn joint_controller() {
    let mut joint = Joint::new();
    assert_eq!(joint.values(), &[0i16; 6]);
    assert_eq!(joint.selected(), 0);
    joint.prev_servo();
    assert_eq!(joint.selected(), 5);
    joint.next_servo();
    joint.next_servo();
    assert_eq!(joint.selected(), 1);
    for _ in 0..100 {
        joint.increase();
    }
    assert_eq!(joint.values(), &[0, 30, 0, 0, 0, 0]);
    joint.next_servo();
    for _ in 0..200 {
        joint.decrease();
    }
    assert_eq!(joint.values(), &[0, 30, -180, 0, 0, 0]);
    let cfg: JointConfig = joint.config();
    assert_eq!(cfg.enable, 1);
    assert_eq!(f32::from_bits(cfg.angles[1]), 30.0);
    assert_eq!(f32::from_bits(cfg.angles[2]), -180.0);
    assert_eq!(f32::from_bits(cfg.angles[0]), 0.0);
    let bytes = cfg.as_bytes();
    assert_eq!(&bytes[9..13], &(-180.0f32).to_le_bytes()[..]);
    let fresh = Joint::default();
    assert_eq!(fresh.selected(), 0);
}

#[test]
fn menu_items() {
    assert_eq!(MenuItem::DeviceStatus.title(), "设备状态");
    assert_eq!(MenuItem::DeviceControl.title(), "设备控制");
    assert_eq!(MenuItem::Settings.title(), "设置");
    assert_eq!(MenuItem::About.title(), "关于");
    assert_eq!(
        MenuItem::all(),
        [MenuItem::DeviceStatus, MenuItem::DeviceControl, MenuItem::Settings, MenuItem::About]
    );
}
