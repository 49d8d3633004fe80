use ele_bot::servo::ServoState;

#[test]
fn console_servo_names() {
    assert_eq!(ServoState::servo_name(0), "头部");
    assert_eq!(ServoState::servo_name(1), "腰部");
    assert_eq!(ServoState::servo_name(2), "左肩膀");
    assert_eq!(ServoState::servo_name(3), "左臂");
    assert_eq!(ServoState::servo_name(4), "右肩膀");
    assert_eq!(ServoState::servo_name(5), "右臂");
    assert_eq!(ServoState::servo_name(6), "未知");
    assert_eq!(ServoState::servo_name(usize::MAX), "未知");
}

#[test]
fn console_servo_selection_wraps() {
    let mut s = ServoState::default();
    assert_eq!(s.selected, 0);
    assert_eq!(s.values, [0i16; 6]);
    s.prev_servo();
    assert_eq!(s.selected, 5);
    s.next_servo();
    assert_eq!(s.selected, 0);
    for expected in [1, 2, 3, 4, 5, 0, 1] {
        s.next_servo();
        assert_eq!(s.selected, expected);
    }
    s.selected = 7;
    s.next_servo();
    assert_eq!(s.selected, 2);
    s.selected = 8;
    s.prev_servo();
    assert_eq!(s.selected, 1);
}

#[test]
fn console_servo_steps_stay_in_range() {
    let mut s = ServoState::default();
    s.increase();
    assert_eq!(s.values, [1, 0, 0, 0, 0, 0]);
    s.increase_big();
    assert_eq!(s.values[0], 6);
    s.decrease_big();
    s.decrease();
    assert_eq!(s.values[0], 0);
    s.values[0] = 178;
    s.increase_big();
    assert_eq!(s.values[0], 180);
    s.increase();
    assert_eq!(s.values[0], 180);
    s.increase_big();
    assert_eq!(s.values[0], 180);
    s.selected = 3;
    s.values[3] = -177;
    s.decrease_big();
    assert_eq!(s.values[3], -180);
    s.decrease();
    assert_eq!(s.values[3], -180);
    s.values[3] = 200;
    s.increase();
    assert_eq!(s.values[3], 200);
    s.decrease();
    assert_eq!(s.values[3], 199);
    s.values[3] = -300;
    s.decrease_big();
    assert_eq!(s.values[3], -300);
    s.increase_big();
    assert_eq!(s.values[3], -295);
    assert_eq!(s.values[0], 180);
}

#[test]
fn console_servo_percent() {
    assert_eq!(ServoState::percent(-180), 0);
    assert_eq!(ServoState::percent(0), 50);
    assert_eq!(ServoState::percent(180), 100);
    assert_eq!(ServoState::percent(90), 75);
    assert_eq!(ServoState::percent(-90), 25);
    assert_eq!(ServoState::percent(1), 50);
    assert_eq!(ServoState::percent(-179), 0);
    assert_eq!(ServoState::percent(147), 90);
    assert_eq!(ServoState::percent(148), 91);
    assert_eq!(ServoState::percent(179), 99);
    assert_eq!(ServoState::percent(i16::MAX), 100);
    assert_eq!(ServoState::percent(i16::MIN), 0);
    assert_eq!(ServoState::to_percent(-180), 0);
    assert_eq!(ServoState::to_percent(0), 50);
    assert_eq!(ServoState::to_percent(147), 90);
    assert_eq!(ServoState::to_percent(180), 100);
    assert_eq!(ServoState::to_percent(540), 200);
    for v in -180i16..=147 {
        let reference = ((v - (-180)) * 100 / (180 - (-180))) as u16;
        assert_eq!(ServoState::to_percent(v), reference);
        assert_eq!(ServoState::percent(v), reference);
    }
}

#[test]
fn console_servo_command() {
    let mut s = ServoState::default();
    s.values = [0, -15, 30, 180, -180, 7];
    let cfg = s.to_joint_config();
    assert_eq!(cfg.enable, 1);
    for i in 0..6 {
        assert_eq!(f32::from_bits(cfg.angles[i]), s.values[i] as f32);
    }
    let bytes = cfg.to_bytes();
    assert_eq!(bytes[0], 1);
    assert_eq!(&bytes[5..9], &(-15.0f32).to_le_bytes()[..]);
}

