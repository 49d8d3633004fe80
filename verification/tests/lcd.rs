use ele_bot::lcd::{compute_hash, DisplayMode, Lcd};

#[test]
fn hash_of_known_values() {
    assert_eq!(compute_hash(&[]), 0xcbf29ce484222325);
    assert_eq!(compute_hash(b"a"), 0xaf63dc4c8601ec8c);
    assert_eq!(compute_hash(b"foobar"), 0x85944171f73967e8);
    assert_eq!(compute_hash(&[0]), 0xaf63bd4c8601b7df);
    assert_ne!(compute_hash(&[1, 2]), compute_hash(&[2, 1]));
}

#[test]
fn eyes_are_taken_into_the_frame_when_they_change() {
    let mut lcd = Lcd::new();
    assert_eq!(lcd.mode(), DisplayMode::Eyes);
    assert_eq!(DisplayMode::default(), DisplayMode::Eyes);
    assert!(lcd.shows_eyes());
    assert_eq!(lcd.eyes_timer(), 0);
    let gray: Vec<u8> = (0..57600).map(|i| (i % 256) as u8).collect();
    let frame = lcd.frame_vec(&gray, &[]);
    assert_eq!(frame.len(), 172800);
    for i in 0..57600 {
        assert_eq!(frame[3 * i], gray[i]);
        assert_eq!(frame[3 * i + 1], gray[i]);
        assert_eq!(frame[3 * i + 2], gray[i]);
    }
    assert_eq!(lcd.eyes_timer(), 50);
    let picture = vec![9u8; 172800];
    lcd.load_image(&picture);
    assert!(lcd.shows_eyes());
    let again = lcd.frame_vec(&gray, &[]);
    assert_eq!(again, picture);
    assert_eq!(lcd.eyes_timer(), 100);
    let other = vec![1u8; 57600];
    let changed = lcd.frame_vec(&other, &[]);
    assert_eq!(changed, vec![1u8; 172800]);
    assert_eq!(lcd.eyes_timer(), 150);
}

#[test]
fn static_mode_shows_the_picture_or_the_eyes() {
    let mut lcd = Lcd::default();
    lcd.set_mode(DisplayMode::Static);
    assert!(lcd.shows_eyes());
    let gray = vec![4u8; 57600];
    assert_eq!(lcd.frame_vec(&gray, &[]), vec![4u8; 172800]);
    assert_eq!(lcd.eyes_timer(), 50);
    let picture: Vec<u8> = (0..172800).map(|i| (i % 7) as u8).collect();
    lcd.load_image(&picture);
    assert!(!lcd.shows_eyes());
    lcd.generate_pixels(&[], &[]);
    assert_eq!(lcd.frame_vec(&[], &[]), picture);
    assert_eq!(lcd.eyes_timer(), 50);
    lcd.set_mode(DisplayMode::TestPattern);
    assert!(!lcd.shows_eyes());
    let pattern = vec![0xabu8; 172800];
    assert_eq!(lcd.frame_vec(&[], &pattern), pattern);
    lcd.set_mode(DisplayMode::Static);
    assert_eq!(lcd.frame_vec(&[], &[]), picture);
}

#[test]
fn test_pattern_bars_share_the_screen() {
    for i in 0..6 {
        assert_eq!(Lcd::test_pattern_bar(i), (i * 40, 40));
    }
}
