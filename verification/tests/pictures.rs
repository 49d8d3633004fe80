use ele_bot::canvas::{clear, set_pixel};
use ele_bot::device::{
    enable_packet, find_device, CdcDevice, DeviceCmd, DeviceState, FindError, FrameData, UsbId,
    DEVICE_PID, DEVICE_VID,
};
use ele_bot::display::{DisplayController, DisplayMode};
use ele_bot::eyes::{EyeColor, EyeController, EyeSize, Expression, RobotEyes};
use ele_bot::image::{ImageError, ImageProcessor};
use ele_bot::joint::JointConfig;
use ele_bot::session::{Action, Event, FeedbackOrder};
use ele_bot::transport::TransportError;

const W: usize = 240;
const H: usize = 240;

fn plot(pixels: &mut [u8], x: i32, y: i32, color: (u8, u8, u8)) {
    if x >= 0 && x < W as i32 && y >= 0 && y < H as i32 {
        let idx = (y as usize * W + x as usize) * 3;
        if idx + 2 < pixels.len() {
            pixels[idx] = color.0;
            pixels[idx + 1] = color.1;
            pixels[idx + 2] = color.2;
        }
    }
}

fn reference_eye(pixels: &mut [u8], x: i32, y: i32, w: usize, h: usize, color: (u8, u8, u8)) {
    for py in 0..h {
        for px in 0..w {
            let cx = w as f32 / 2.0;
            let cy = h as f32 / 2.0;
            let dx = (px as f32 - cx) / cx;
            let dy = (py as f32 - cy) / cy;
            if dx * dx + dy * dy <= 1.0 {
                plot(pixels, x + px as i32, y + py as i32, color);
            }
        }
    }
    let r = (w / 8) as i32;
    let cx = x + (w as i32 / 2);
    let cy = y + (h as i32 / 2);
    for dy in -r..=r {
        for dx in -r..=r {
            if dx * dx + dy * dy <= r * r {
                plot(pixels, cx + dx, cy + dy, (0, 0, 0));
            }
        }
    }
}

fn reference_frame(len: usize, size: EyeSize, color: (u8, u8, u8), shut: bool) -> Vec<u8> {
    let mut pixels = vec![0u8; len];
    let (w, h, y) = match size {
        EyeSize::Small => (60usize, 45usize, 70i32),
        EyeSize::Medium => (80, 60, 60),
        EyeSize::Large => (100, 75, 50),
    };
    let left = (240 - 20 - w as i32) / 2;
    let right = left + 20 + w as i32;
    if shut {
        for x0 in [left, right] {
            for px in 0..w {
                plot(&mut pixels, x0 + px as i32, y + (h as i32 / 2), (100, 100, 100));
            }
        }
    } else {
        reference_eye(&mut pixels, left, y, w, h, color);
        reference_eye(&mut pixels, right, y, w, h, color);
    }
    pixels
}

#[test]
fn set_pixel_stays_on_the_canvas() {
    let mut pixels = vec![0u8; 172800];
    set_pixel(&mut pixels, 0, 0, (1, 2, 3));
    assert_eq!(&pixels[..3], &[1, 2, 3][..]);
    set_pixel(&mut pixels, 239, 239, (4, 5, 6));
    assert_eq!(&pixels[172797..], &[4, 5, 6][..]);
    set_pixel(&mut pixels, 5, 2, (7, 8, 9));
    assert_eq!(&pixels[(2 * 240 + 5) * 3..(2 * 240 + 5) * 3 + 3], &[7, 8, 9][..]);
    let before = pixels.clone();
    set_pixel(&mut pixels, 240, 0, (9, 9, 9));
    set_pixel(&mut pixels, -1, 0, (9, 9, 9));
    set_pixel(&mut pixels, 0, 240, (9, 9, 9));
    set_pixel(&mut pixels, 0, -1, (9, 9, 9));
    assert_eq!(pixels, before);
    let mut short = vec![0u8; 8];
    set_pixel(&mut short, 2, 0, (9, 9, 9));
    assert_eq!(short, vec![0u8; 8]);
    set_pixel(&mut short, 1, 0, (9, 8, 7));
    assert_eq!(short, vec![0, 0, 0, 9, 8, 7, 0, 0]);
    clear(&mut short);
    assert_eq!(short, vec![0u8; 8]);
}

#[test]
fn eyes_match_the_floating_point_drawing() {
    let colors = [
        (EyeColor::White, (255, 255, 255)),
        (EyeColor::Blue, (50, 100, 255)),
        (EyeColor::Green, (50, 255, 50)),
        (EyeColor::Red, (255, 50, 50)),
        (EyeColor::Yellow, (255, 255, 50)),
    ];
    for size in [EyeSize::Small, EyeSize::Medium, EyeSize::Large] {
        for (color, rgb) in colors {
            let mut eyes = RobotEyes::new();
            eyes.set_eye_size(size);
            eyes.set_eye_color(color);
            eyes.set_expression(Expression::Happy);
            let mut pixels = vec![0x55u8; 172800];
            eyes.generate_frame(&mut pixels);
            assert_eq!(pixels, reference_frame(172800, size, rgb, false));
            assert_eq!(eyes.get_expression(), Expression::Happy);
        }
    }
}

#[test]
fn shut_eyes_are_lines() {
    for expression in [Expression::Blink, Expression::Wink] {
        for size in [EyeSize::Small, EyeSize::Medium, EyeSize::Large] {
            let mut eyes = RobotEyes::new();
            eyes.set_eye_size(size);
            eyes.set_expression(expression);
            let mut pixels = vec![0xffu8; 172800];
            eyes.generate_frame(&mut pixels);
            assert_eq!(pixels, reference_frame(172800, size, (255, 255, 255), true));
        }
    }
    let mut eyes = RobotEyes::new();
    eyes.set_expression(Expression::Blink);
    let mut pixels = vec![0u8; 172800];
    eyes.generate_frame(&mut pixels);
    let row = 60 + 30;
    let lit: usize = pixels.chunks(3).filter(|p| p[0] == 100 && p[1] == 100 && p[2] == 100).count();
    assert_eq!(lit, 80 + 70);
    assert_eq!(&pixels[(row * 240 + 70) * 3..(row * 240 + 70) * 3 + 3], &[100, 100, 100][..]);
    assert_eq!(&pixels[(row * 240 + 69) * 3..(row * 240 + 69) * 3 + 3], &[0, 0, 0][..]);
}

#[test]
fn eyes_in_a_short_buffer() {
    let mut eyes = RobotEyes::new();
    let len = 240 * 3 * 100 + 2;
    let mut pixels = vec![9u8; len];
    eyes.generate_frame(&mut pixels);
    assert_eq!(pixels, reference_frame(len, EyeSize::Medium, (255, 255, 255), false));
    let mut none: Vec<u8> = Vec::new();
    eyes.generate_frame(&mut none);
    assert!(none.is_empty());
}

#[test]
fn a_blink_lasts_ten_frames() {
    let mut eyes = RobotEyes::new();
    eyes.set_expression(Expression::Blink);
    assert!(!eyes.is_blinking());
    eyes.start_blink(77);
    assert!(eyes.is_blinking());
    let mut pixels = vec![0u8; 300];
    for _ in 0..9 {
        eyes.generate_frame(&mut pixels);
        assert!(eyes.is_blinking());
        assert_eq!(eyes.get_expression(), Expression::Blink);
    }
    eyes.generate_frame(&mut pixels);
    assert!(!eyes.is_blinking());
    assert_eq!(eyes.get_expression(), Expression::Neutral);
    eyes.start_blink(5);
    assert!(!eyes.is_blinking());
    for _ in 0..(120 + 77) {
        eyes.start_blink(5);
        assert!(!eyes.is_blinking());
        eyes.generate_frame(&mut pixels);
    }
    eyes.start_blink(5);
    assert!(eyes.is_blinking());
    let mut other = RobotEyes::default();
    other.random_blink();
    assert!(other.is_blinking());
}

#[test]
fn eye_controller_draws_the_eyes() {
    let mut controller = EyeController::new();
    controller.set_eye_size(EyeSize::Large);
    controller.set_eye_color(EyeColor::Green);
    controller.set_expression(Expression::Surprised);
    let mut pixels = vec![0u8; 172800];
    controller.generate_frame(&mut pixels);
    assert_eq!(pixels, reference_frame(172800, EyeSize::Large, (50, 255, 50), false));
    let mut fresh = EyeController::default();
    fresh.generate_frame(&mut pixels);
    assert_eq!(pixels, reference_frame(172800, EyeSize::Medium, (255, 255, 255), false));
}

#[test]
fn display_controller_shows_eyes_or_picture() {
    let mut display = DisplayController::new();
    assert_eq!(display.get_mode(), DisplayMode::RobotEyes);
    let mut pixels = vec![7u8; 172800];
    display.generate_pixels(&mut pixels);
    assert_eq!(pixels, reference_frame(172800, EyeSize::Medium, (255, 255, 255), false));
    display.set_mode(DisplayMode::Image);
    let mut untouched = vec![3u8; 172800];
    display.generate_pixels(&mut untouched);
    assert_eq!(untouched, vec![3u8; 172800]);
    let picture: Vec<u8> = (0..172800).map(|i| (i % 251) as u8).collect();
    display.set_mode(DisplayMode::RobotEyes);
    display.set_image(&picture);
    assert_eq!(display.get_mode(), DisplayMode::Image);
    display.generate_pixels(&mut pixels);
    assert_eq!(pixels, picture);
    display.set_mode(DisplayMode::RobotEyes);
    display.generate_pixels(&mut pixels);
    assert_eq!(pixels, reference_frame(172800, EyeSize::Medium, (255, 255, 255), false));
    let other = DisplayController::default();
    assert_eq!(other.get_mode(), DisplayMode::RobotEyes);
}

#[test]
fn picture_of_screen_size_is_turned_and_packed() {
    let mut data = Vec::new();
    for y in 0..240u32 {
        for x in 0..240u32 {
            data.extend_from_slice(&[(x % 256) as u8, (y % 256) as u8, ((x + y) % 256) as u8, 255]);
        }
    }
    let mut processor = ImageProcessor::new();
    assert_eq!(processor.frame_data(), &[0u8; 172800]);
    assert_eq!(processor.load_from_rgba(&data, 240, 240), Ok(()));
    let frame = processor.frame_data_vec();
    assert_eq!(frame.len(), 172800);
    for y in 0..240usize {
        for x in 0..240usize {
            let source_y = 239 - y;
            let at = (y * 240 + x) * 3;
            assert_eq!(frame[at], x as u8);
            assert_eq!(frame[at + 1], source_y as u8);
            assert_eq!(frame[at + 2], ((x + source_y) % 256) as u8);
        }
    }
    assert_eq!(&processor.frame_data()[..], &frame[..]);
}

#[test]
fn larger_picture_is_scaled_down() {
    let mut data = Vec::new();
    for y in 0..480u32 {
        for _x in 0..480u32 {
            let shade = if y < 240 { 10 } else { 200 };
            data.extend_from_slice(&[shade, shade, shade, 255]);
        }
    }
    let mut processor = ImageProcessor::new();
    assert_eq!(processor.load_from_rgba(&data, 480, 480), Ok(()));
    let frame = processor.frame_data_vec();
    assert_eq!(&frame[..3], &[200, 200, 200][..]);
    assert_eq!(&frame[172797..], &[10, 10, 10][..]);
    assert_eq!(frame[(60 * 240 + 17) * 3], 200);
    assert_eq!(frame[(200 * 240 + 17) * 3], 10);
}

#[test]
fn wide_picture_fills_the_front_of_the_frame() {
    let data: Vec<u8> = vec![50u8; 480 * 2 * 4];
    let mut processor = ImageProcessor::new();
    assert_eq!(processor.load_from_rgba(&data, 480, 2), Ok(()));
    let frame = processor.frame_data_vec();
    assert_eq!(&frame[..240 * 3], &vec![50u8; 240 * 3][..]);
    assert_eq!(&frame[240 * 3..], &vec![0u8; 172800 - 240 * 3][..]);
}

#[test]
fn blue_first_pictures_have_red_and_blue_exchanged() {
    let mut data = Vec::new();
    for _ in 0..240 * 240 {
        data.extend_from_slice(&[1u8, 2, 3, 4]);
    }
    let mut processor = ImageProcessor::default();
    assert_eq!(processor.load_from_bgra(&data, 240, 240), Ok(()));
    let frame = processor.frame_data_vec();
    assert_eq!(&frame[..6], &[3, 2, 1, 3, 2, 1][..]);
    assert_eq!(&frame[172794..], &[3, 2, 1, 3, 2, 1][..]);
}

#[test]
fn short_data_is_no_picture() {
    let mut processor = ImageProcessor::new();
    let before = processor.frame_data_vec();
    assert_eq!(processor.load_from_rgba(&[0u8; 15], 2, 2), Err(ImageError::BufferTooSmall));
    assert_eq!(processor.load_from_bgra(&[0u8; 15], 2, 2), Err(ImageError::BufferTooSmall));
    assert_eq!(
        processor.load_from_rgba(&[0u8; 16], u32::MAX, u32::MAX),
        Err(ImageError::BufferTooSmall)
    );
    assert_eq!(processor.frame_data_vec(), before);
    assert_eq!(processor.load_from_rgba(&[9u8; 16], 2, 2), Ok(()));
}

#[test]
fn single_chunk_frame() {
    let frame = FrameData::default();
    assert_eq!(frame.pixels.len(), 43200);
    assert_eq!(frame.joint.enable, 0);
    let bytes = frame.to_bytes();
    assert_eq!(bytes.len(), 43232);
    assert_eq!(bytes, vec![0u8; 43232]);
    let frame = FrameData {
        joint: JointConfig { enable: 1, angles: [1.0f32.to_bits(); 6] },
        pixels: vec![7, 8, 9],
    };
    let bytes = frame.to_bytes();
    assert_eq!(bytes.len(), 35);
    assert_eq!(&bytes[..5], &[1, 0, 0, 0x80, 0x3f][..]);
    assert_eq!(&bytes[32..], &[7, 8, 9][..]);
    let packet = enable_packet();
    assert_eq!(packet[0], 1);
    assert_eq!(&packet[1..], &[0u8; 223][..]);
}

#[test]
fn robot_is_found_among_the_devices() {
    let robot = Some(UsbId { vendor: DEVICE_VID, product: DEVICE_PID });
    let other = Some(UsbId { vendor: 0x1001, product: 0x8024 });
    let another = Some(UsbId { vendor: 0x1d6b, product: 0x8023 });
    assert_eq!(find_device(&[]), Err(FindError::NoDevice));
    assert_eq!(find_device(&[other, another]), Err(FindError::NoDevice));
    assert_eq!(find_device(&[other, robot, robot]), Ok(1));
    assert_eq!(find_device(&[robot]), Ok(0));
    assert_eq!(find_device(&[other, None, robot]), Err(FindError::Descriptor(1)));
    assert_eq!(find_device(&[robot, None]), Ok(0));
    assert_eq!(DEVICE_VID, 0x1001);
    assert_eq!(DEVICE_PID, 0x8023);
}

#[test]
fn serial_device_state() {
    let mut device = CdcDevice::new();
    assert!(!device.is_connected());
    assert_eq!(device.state(), &DeviceState::Disconnected);
    assert!(device.send_frame(&FrameData::default()).is_none());
    assert!(device.sync_frame(vec![0u8; 172800], &JointConfig::default()).is_none());
    let failed = device.connect("COM3", Err("port busy".to_string()));
    assert_eq!(failed, Err("连接失败: port busy".to_string()));
    assert_eq!(device.state(), &DeviceState::Error("连接失败: port busy".to_string()));
    assert!(!device.is_connected());
    assert_eq!(device.connect("COM3", Ok(())), Ok(()));
    assert!(device.is_connected());
    assert_eq!(device.state(), &DeviceState::Connected("COM3".to_string()));
    assert_eq!(device.send_frame(&FrameData::default()).unwrap().len(), 43232);
    let command = JointConfig { enable: 1, angles: [0; 6] };
    let fx = device.sync_frame(vec![5u8; 172800], &command).unwrap();
    match fx.action() {
        Action::Write(bytes) => assert_eq!(bytes, vec![5u8; 512]),
        _ => panic!("expected a write"),
    }
    assert_eq!(FeedbackOrder::AfterTail, FeedbackOrder::AfterTail);
    let frame = FrameData { joint: command, pixels: vec![1, 2] };
    let bytes = device.handle_command(&DeviceCmd::SendFrame(frame)).unwrap();
    assert_eq!(bytes.len(), 34);
    assert_eq!(&bytes[..2], &[1, 0][..]);
    assert_eq!(&bytes[32..], &[1, 2][..]);
    assert!(device.handle_command(&DeviceCmd::Disconnect).is_none());
    assert!(!device.is_connected());
    assert!(device.handle_command(&DeviceCmd::SendFrame(FrameData::default())).is_none());
    device.connect("COM3", Ok(())).unwrap();
    device.disconnect();
    assert!(!device.is_connected());
    assert_eq!(device.state(), &DeviceState::Disconnected);
    assert!(!CdcDevice::default().is_connected());
}

#[test]
fn a_frame_without_feedback_reads_zeros() {
    let mut device = CdcDevice::new();
    device.connect("COM3", Ok(())).unwrap();
    let command = JointConfig { enable: 1, angles: [90.0f32.to_bits(); 6] };
    let mut fx = device.sync_frame(vec![3u8; 172800], &command).unwrap();
    assert_eq!(fx.feedback(), [0u32; 6]);
    let mut written = 0usize;
    let mut reads = 0;
    loop {
        match fx.action() {
            Action::Write(bytes) => {
                written += bytes.len();
                fx.advance(Event::Written(bytes.len()));
            }
            Action::Read(_) => {
                reads += 1;
                if reads % 2 == 0 {
                    fx.advance(Event::Received(vec![1u8; 7]));
                    fx.advance(Event::ReadFailed(TransportError::Timeout));
                } else {
                    fx.advance(Event::ReadFailed(TransportError::Timeout));
                }
            }
            Action::Done => break,
            Action::Failed => panic!("the exchange failed"),
        }
    }
    assert_eq!(written, 172928);
    assert_eq!(reads, 4);
    assert_eq!(fx.outcome(), Some(Ok([0u32; 6])));
    assert_eq!(fx.feedback().map(f32::from_bits), [0.0f32; 6]);
}

#[test]
fn the_last_feedback_read_is_the_reading_of_the_frame() {
    let mut device = CdcDevice::default();
    device.connect("COM3", Ok(())).unwrap();
    let mut fx = device.sync_frame(vec![0u8; 172800], &JointConfig::default()).unwrap();
    let mut reads = 0;
    loop {
        match fx.action() {
            Action::Write(bytes) => fx.advance(Event::Written(bytes.len())),
            Action::Read(_) => {
                reads += 1;
                if reads == 2 {
                    let mut record = vec![0u8; 32];
                    for i in 0..6 {
                        record[1 + 4 * i..5 + 4 * i]
                            .copy_from_slice(&(12.5f32 + i as f32).to_le_bytes());
                    }
                    fx.advance(Event::Received(record));
                } else {
                    fx.advance(Event::ReadFailed(TransportError::Timeout));
                }
            }
            Action::Done => break,
            Action::Failed => panic!("the exchange failed"),
        }
    }
    assert_eq!(fx.feedback().map(f32::from_bits), [12.5, 13.5, 14.5, 15.5, 16.5, 17.5]);
}
