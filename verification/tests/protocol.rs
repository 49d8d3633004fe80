use ele_bot::codec::{decode_feedback, encode_command};
use ele_bot::geometry::{Geometry, GeometryError};
use ele_bot::joint::JointConfig;
use ele_bot::partition::{build_tail_packet, partition};
use ele_bot::session::{Action, Event, FeedbackOrder, FrameExchange, Phase, SessionError};
use ele_bot::transport::TransportError;

fn sample_pixels(len: usize) -> Vec<u8> {
    let mut pixels = Vec::with_capacity(len);
    for i in 0..len {
        pixels.push(((i * 7 + i / 251) % 256) as u8);
    }
    pixels
}

fn sample_command() -> JointConfig {
    JointConfig {
        enable: 1,
        angles: [
            10.5f32.to_bits(),
            (-20.0f32).to_bits(),
            0.0f32.to_bits(),
            179.75f32.to_bits(),
            (-180.0f32).to_bits(),
            1.0e-3f32.to_bits(),
        ],
    }
}

#[test]
fn command_record_layout() {
    let cmd = sample_command();
    let bytes = encode_command(&cmd);
    assert_eq!(bytes.len(), 32);
    assert_eq!(bytes[0], 1);
    for i in 0..6 {
        let expected = f32::from_bits(cmd.angles[i]).to_le_bytes();
        assert_eq!(&bytes[1 + 4 * i..5 + 4 * i], &expected[..]);
    }
    assert_eq!(&bytes[25..], &[0u8; 7][..]);
    assert_eq!(cmd.as_bytes(), bytes);
    assert_eq!(cmd.to_bytes(), bytes);
}

#[test]
fn command_record_of_known_angle() {
    let mut cmd = JointConfig::default();
    cmd.enable = 1;
    cmd.angles[0] = 1.0f32.to_bits();
    let bytes = encode_command(&cmd);
    assert_eq!(&bytes[..5], &[1u8, 0x00, 0x00, 0x80, 0x3f][..]);
    assert_eq!(&bytes[5..], &[0u8; 27][..]);
}

#[test]
fn default_command_is_all_zero() {
    let cmd = JointConfig::default();
    assert_eq!(cmd.enable, 0);
    assert_eq!(cmd.angles, [0u32; 6]);
    assert_eq!(cmd.as_bytes(), [0u8; 32]);
}

#[test]
fn codec_round_trip() {
    let cmd = sample_command();
    let decoded = decode_feedback(&encode_command(&cmd));
    assert_eq!(decoded, cmd.angles);
    for i in 0..6 {
        assert_eq!(f32::from_bits(decoded[i]), f32::from_bits(cmd.angles[i]));
    }
}

#[test]
fn decode_feedback_ignores_marker_and_padding() {
    let mut bytes = [0xffu8; 32];
    for i in 0..6 {
        let le = (i as f32 * 1.5 - 3.0).to_le_bytes();
        bytes[1 + 4 * i..5 + 4 * i].copy_from_slice(&le);
    }
    let angles = decode_feedback(&bytes);
    for i in 0..6 {
        assert_eq!(f32::from_bits(angles[i]), i as f32 * 1.5 - 3.0);
    }
}

#[test]
fn standard_geometry_adds_up() {
    let g = Geometry::standard();
    assert_eq!(g.frame_size(), 172800);
    assert_eq!(g.row_bytes(), 720);
    assert_eq!(g.rows_per_round(), 60);
    assert_eq!(g.rounds(), 4);
    assert_eq!(g.packet_size(), 512);
    assert_eq!(g.tail_pixel_bytes(), 192);
    assert_eq!(g.round_len(), 43200);
    assert_eq!(g.body_len(), 43008);
    assert_eq!(g.packets_per_round(), 84);
    assert_eq!(g.tail_len(), 224);
    assert_eq!(g.round_wire_len(), 43232);
    assert_eq!(g.frame_wire_len(), Some(172928));
    assert_eq!(g.rounds() * (g.rows_per_round() * g.row_bytes()), g.frame_size());
    assert_eq!((g.rows_per_round() * g.row_bytes() - g.tail_pixel_bytes()) % g.packet_size(), 0);
}

#[test]
fn geometry_new_accepts_what_adds_up() {
    let g = Geometry::new(172800, 720, 60, 4, 512, 192).unwrap();
    assert_eq!(g.packets_per_round(), 84);
    assert_eq!(g.body_len(), 43008);
    let small = Geometry::new(24, 4, 3, 2, 2, 4).unwrap();
    assert_eq!(small.round_len(), 12);
    assert_eq!(small.packets_per_round(), 4);
    let empty = Geometry::new(0, 720, 60, 0, 512, 192).unwrap();
    assert_eq!(empty.frame_wire_len(), Some(0));
}

#[test]
fn geometry_new_fails_fast() {
    assert_eq!(
        Geometry::new(172801, 720, 60, 4, 512, 192).err(),
        Some(GeometryError::FrameSizeMismatch)
    );
    assert_eq!(
        Geometry::new(172800, 720, 60, 3, 512, 192).err(),
        Some(GeometryError::FrameSizeMismatch)
    );
    assert_eq!(
        Geometry::new(172800, 720, 60, 4, 0, 192).err(),
        Some(GeometryError::ZeroPacketSize)
    );
    assert_eq!(
        Geometry::new(172800, 720, 60, 4, 512, 43201).err(),
        Some(GeometryError::TailExceedsRound)
    );
    assert_eq!(
        Geometry::new(172800, 720, 60, 4, 512, 191).err(),
        Some(GeometryError::BodyNotPacketAligned)
    );
    assert_eq!(
        Geometry::new(172800, 720, 60, 4, 500, 192).err(),
        Some(GeometryError::BodyNotPacketAligned)
    );
    assert_eq!(
        Geometry::new(0, usize::MAX, 2, 0, 512, 192).err(),
        Some(GeometryError::TooLarge)
    );
    assert_eq!(
        Geometry::new(0, usize::MAX - 16, 1, 0, 512, 192).err(),
        Some(GeometryError::TooLarge)
    );
    assert_eq!(
        Geometry::new(usize::MAX, usize::MAX / 2, 1, 3, 512, 192).err(),
        Some(GeometryError::FrameSizeMismatch)
    );
}

#[test]
fn partition_reassembles_the_frame() {
    let g = Geometry::standard();
    let pixels = sample_pixels(g.frame_size());
    let command = sample_command().as_bytes();
    let rounds = partition(&pixels, &command, &g);
    assert_eq!(rounds.len(), 4);
    let mut payload = Vec::new();
    for round in &rounds {
        assert_eq!(round.body.len(), 84);
        for packet in &round.body {
            assert_eq!(packet.len(), 512);
            payload.extend_from_slice(packet);
        }
        assert_eq!(round.tail.len(), 224);
        payload.extend_from_slice(&round.tail[..192]);
        assert_eq!(&round.tail[192..], &command[..]);
    }
    assert_eq!(payload, pixels);
}

#[test]
fn partition_of_a_small_frame() {
    let g = Geometry::new(24, 4, 3, 2, 5, 2).unwrap();
    let pixels: Vec<u8> = (100..124).collect();
    let command = [7u8; 32];
    let rounds = partition(&pixels, &command, &g);
    assert_eq!(rounds.len(), 2);
    assert_eq!(rounds[0].body, vec![vec![100, 101, 102, 103, 104], vec![105, 106, 107, 108, 109]]);
    assert_eq!(&rounds[0].tail[..2], &[110, 111][..]);
    assert_eq!(rounds[1].body, vec![vec![112, 113, 114, 115, 116], vec![117, 118, 119, 120, 121]]);
    assert_eq!(&rounds[1].tail[..2], &[122, 123][..]);
    assert_eq!(&rounds[1].tail[2..], &command[..]);
    assert_eq!(build_tail_packet(&pixels, &command, &g, 1), rounds[1].tail);
}

#[test]
fn frame_byte_accounting() {
    let g = Geometry::new(172800, 720, 60, 4, 512, 192).unwrap();
    let pixels = sample_pixels(172800);
    let command = sample_command().as_bytes();
    let rounds = partition(&pixels, &command, &g);
    let mut total = 0usize;
    let mut pixel_payload = 0usize;
    let mut command_bytes = 0usize;
    for round in &rounds {
        let body: usize = round.body.iter().map(|p| p.len()).sum();
        assert_eq!(body, 43008);
        assert_eq!(round.body.len(), 84);
        assert!(round.body.iter().all(|p| p.len() == 512));
        assert_eq!(round.tail.len(), 224);
        assert_eq!(&round.tail[192..], &command[..]);
        total += body + round.tail.len();
        pixel_payload += body + 192;
        command_bytes += 32;
    }
    assert_eq!(total, 172928);
    assert_eq!(total, 4 * (43008 + 224));
    assert_eq!(pixel_payload, 172800);
    assert_eq!(command_bytes, 128);
}

fn feedback_record(seed: f32) -> [u8; 32] {
    let mut bytes = [0u8; 32];
    bytes[0] = 0xa5;
    for i in 0..6 {
        bytes[1 + 4 * i..5 + 4 * i].copy_from_slice(&(seed + i as f32).to_le_bytes());
    }
    bytes
}

#[test]
fn exchange_writes_the_frame_in_order() {
    let g = Geometry::standard();
    let pixels = sample_pixels(g.frame_size());
    let command = sample_command().as_bytes();
    let mut fx = FrameExchange::new(g, FeedbackOrder::AfterTail, pixels.clone(), command);
    let mut wire: Vec<u8> = Vec::new();
    let mut writes = 0usize;
    let mut reads = 0usize;
    let mut log: Vec<char> = Vec::new();
    loop {
        match fx.action() {
            Action::Write(bytes) => {
                assert!(bytes.len() == 512 || bytes.len() == 224);
                log.push(if bytes.len() == 512 { 'b' } else { 't' });
                wire.extend_from_slice(&bytes);
                writes += 1;
                fx.advance(Event::Written(bytes.len()));
            }
            Action::Read(_) => {
                log.push('r');
                reads += 1;
                fx.advance(Event::Received(feedback_record(reads as f32).to_vec()));
            }
            Action::Done => break,
            Action::Failed => panic!("the exchange failed"),
        }
    }
    assert_eq!(writes, 4 * 85);
    assert_eq!(reads, 4);
    assert_eq!(wire.len(), 172928);
    assert_eq!(fx.sent(), Some(172928));
    let mut expected_log = Vec::new();
    for _ in 0..4 {
        for _ in 0..84 {
            expected_log.push('b');
        }
        expected_log.push('t');
        expected_log.push('r');
    }
    assert_eq!(log, expected_log);
    let mut expected = Vec::new();
    for r in 0..4 {
        expected.extend_from_slice(&pixels[r * 43200..(r + 1) * 43200]);
        expected.extend_from_slice(&command);
    }
    assert_eq!(wire, expected);
    assert!(fx.is_done());
    assert_eq!(fx.phase(), Phase::Done);
    let angles = fx.feedback();
    for i in 0..6 {
        assert_eq!(f32::from_bits(angles[i]), 4.0 + i as f32);
    }
    assert_eq!(fx.outcome(), Some(Ok(angles)));
    assert_eq!(fx.error(), None);
}

#[test]
fn exchange_continues_short_writes() {
    let g = Geometry::new(24, 4, 3, 2, 5, 2).unwrap();
    let pixels: Vec<u8> = (0..24).collect();
    let command = [9u8; 32];
    let mut fx = FrameExchange::new(g, FeedbackOrder::AfterTail, pixels.clone(), command);
    let mut wire: Vec<u8> = Vec::new();
    let mut step = 0usize;
    loop {
        match fx.action() {
            Action::Write(bytes) => {
                let n = 1 + step % bytes.len().min(3);
                wire.extend_from_slice(&bytes[..n]);
                fx.advance(Event::Written(n));
            }
            Action::Read(_) => fx.advance(Event::ReadFailed(TransportError::Timeout)),
            Action::Done => break,
            Action::Failed => panic!("the exchange failed"),
        }
        step += 1;
    }
    let mut expected = Vec::new();
    for r in 0..2 {
        expected.extend_from_slice(&pixels[r * 12..(r + 1) * 12]);
        expected.extend_from_slice(&command);
    }
    assert_eq!(wire, expected);
    assert_eq!(fx.feedback(), [0u32; 6]);
    assert_eq!(fx.outcome(), Some(Ok([0u32; 6])));
}

#[test]
fn exchange_never_crosses_a_packet_boundary() {
    let g = Geometry::new(24, 4, 3, 2, 5, 2).unwrap();
    let pixels: Vec<u8> = (0..24).collect();
    let mut fx = FrameExchange::new(g, FeedbackOrder::AfterTail, pixels, [0u8; 32]);
    match fx.action() {
        Action::Write(bytes) => assert_eq!(bytes, vec![0, 1, 2, 3, 4]),
        _ => panic!("expected a write"),
    }
    fx.advance(Event::Written(3));
    match fx.action() {
        Action::Write(bytes) => assert_eq!(bytes, vec![3, 4]),
        _ => panic!("expected a write"),
    }
    fx.advance(Event::Written(2));
    match fx.action() {
        Action::Write(bytes) => assert_eq!(bytes, vec![5, 6, 7, 8, 9]),
        _ => panic!("expected a write"),
    }
    fx.advance(Event::Written(5));
    match fx.action() {
        Action::Write(bytes) => {
            assert_eq!(bytes.len(), 34);
            assert_eq!(&bytes[..2], &[10, 11][..]);
        }
        _ => panic!("expected a write"),
    }
    fx.advance(Event::Written(1));
    match fx.action() {
        Action::Write(bytes) => {
            assert_eq!(bytes.len(), 33);
            assert_eq!(bytes[0], 11);
        }
        _ => panic!("expected a write"),
    }
    fx.advance(Event::Written(3));
    match fx.action() {
        Action::Write(bytes) => assert_eq!(bytes, vec![0u8; 30]),
        _ => panic!("expected a write"),
    }
    assert_eq!(fx.sent(), Some(14));
    assert_eq!(fx.round(), 0);
}

#[test]
fn stale_feedback_survives_a_failed_read() {
    let g = Geometry::new(8, 4, 1, 2, 2, 0).unwrap();
    let mut fx = FrameExchange::new(g, FeedbackOrder::AfterTail, vec![0u8; 8], [0u8; 32]);
    let mut reads = 0;
    loop {
        match fx.action() {
            Action::Write(bytes) => fx.advance(Event::Written(bytes.len())),
            Action::Read(_) => {
                reads += 1;
                if reads == 1 {
                    fx.advance(Event::Received(feedback_record(40.0).to_vec()));
                } else {
                    fx.advance(Event::ReadFailed(TransportError::Timeout));
                }
            }
            Action::Done => break,
            Action::Failed => panic!("the exchange failed"),
        }
    }
    assert_eq!(reads, 2);
    assert_eq!(f32::from_bits(fx.feedback()[0]), 40.0);
    assert_eq!(f32::from_bits(fx.feedback()[5]), 45.0);
}

#[test]
fn write_failure_is_fatal() {
    let g = Geometry::standard();
    let mut fx = FrameExchange::new(g, FeedbackOrder::AfterTail, vec![0u8; 172800], [0u8; 32]);
    fx.advance(Event::Written(512));
    fx.advance(Event::WriteFailed(TransportError::Disconnected));
    assert_eq!(fx.phase(), Phase::Failed);
    assert_eq!(fx.error(), Some(SessionError::Write(TransportError::Disconnected)));
    assert_eq!(fx.outcome(), Some(Err(SessionError::Write(TransportError::Disconnected))));
    assert!(matches!(fx.action(), Action::Failed));
    fx.advance(Event::Written(512));
    assert_eq!(fx.error(), Some(SessionError::Write(TransportError::Disconnected)));
    assert_eq!(fx.sent(), Some(512));
}

#[test]
fn empty_and_oversized_writes_are_fatal() {
    let g = Geometry::standard();
    let mut fx = FrameExchange::new(g, FeedbackOrder::AfterTail, vec![0u8; 172800], [0u8; 32]);
    fx.advance(Event::Written(0));
    assert_eq!(fx.error(), Some(SessionError::NoProgress));
    let mut fx = FrameExchange::new(g, FeedbackOrder::AfterTail, vec![0u8; 172800], [0u8; 32]);
    fx.advance(Event::Written(513));
    assert_eq!(fx.error(), Some(SessionError::Overrun));
    let mut fx = FrameExchange::new(g, FeedbackOrder::AfterTail, vec![0u8; 172800], [0u8; 32]);
    fx.advance(Event::Received(vec![0u8; 32]));
    assert_eq!(fx.error(), Some(SessionError::OutOfOrder));
    let mut fx = FrameExchange::new(g, FeedbackOrder::BeforeBody, vec![0u8; 172800], [0u8; 32]);
    fx.advance(Event::Written(1));
    assert_eq!(fx.error(), Some(SessionError::OutOfOrder));
}

#[test]
fn feedback_first_order() {
    let g = Geometry::new(24, 4, 3, 2, 5, 2).unwrap();
    let pixels: Vec<u8> = (0..24).collect();
    let command = [3u8; 32];
    let mut fx = FrameExchange::new(g, FeedbackOrder::BeforeBody, pixels.clone(), command);
    let mut log = String::new();
    let mut wire = Vec::new();
    let mut reads = 0;
    loop {
        match fx.action() {
            Action::Write(bytes) => {
                log.push('w');
                wire.extend_from_slice(&bytes);
                fx.advance(Event::Written(bytes.len()));
            }
            Action::Read(_) => {
                log.push('r');
                reads += 1;
                fx.advance(Event::Received(feedback_record(reads as f32 * 10.0).to_vec()));
            }
            Action::Done => break,
            Action::Failed => panic!("the exchange failed"),
        }
    }
    assert_eq!(log, "rwwwrwww");
    assert_eq!(wire.len(), 2 * (12 + 32));
    assert_eq!(&wire[..12], &pixels[..12]);
    assert_eq!(&wire[12..44], &command[..]);
    assert_eq!(f32::from_bits(fx.feedback()[0]), 20.0);
}

#[test]
fn exchange_of_no_rounds_is_done_at_once() {
    let g = Geometry::new(0, 720, 60, 0, 512, 192).unwrap();
    let fx = FrameExchange::new(g, FeedbackOrder::AfterTail, Vec::new(), [0u8; 32]);
    assert!(fx.is_done());
    assert!(matches!(fx.action(), Action::Done));
    assert_eq!(fx.outcome(), Some(Ok([0u32; 6])));
}

#[test]
fn feedback_is_gathered_from_partial_reads() {
    let g = Geometry::new(8, 4, 1, 2, 2, 0).unwrap();
    let mut fx = FrameExchange::new(g, FeedbackOrder::AfterTail, vec![0u8; 8], [0u8; 32]);
    let record = feedback_record(7.0);
    let mut asked = Vec::new();
    let mut round = 0;
    loop {
        match fx.action() {
            Action::Write(bytes) => fx.advance(Event::Written(bytes.len())),
            Action::Read(n) => {
                asked.push(n);
                if round == 0 {
                    let from = 32 - n;
                    let to = (from + 10).min(32);
                    if to == 32 {
                        round = 1;
                    }
                    fx.advance(Event::Received(record[from..to].to_vec()));
                } else {
                    round += 1;
                    if n == 32 {
                        fx.advance(Event::Received(record[..5].to_vec()));
                    } else {
                        fx.advance(Event::Received(Vec::new()));
                    }
                }
            }
            Action::Done => break,
            Action::Failed => panic!("the exchange failed"),
        }
    }
    assert_eq!(asked, vec![32, 22, 12, 2, 32, 27]);
    assert_eq!(f32::from_bits(fx.feedback()[0]), 7.0);
    assert_eq!(f32::from_bits(fx.feedback()[5]), 12.0);
    assert!(fx.is_done());
}

#[test]
fn a_read_that_brings_too_much_costs_the_reading() {
    let g = Geometry::new(8, 4, 2, 1, 2, 0).unwrap();
    let mut fx = FrameExchange::new(g, FeedbackOrder::BeforeBody, vec![1u8; 8], [0u8; 32]);
    assert!(matches!(fx.action(), Action::Read(32)));
    fx.advance(Event::Received(vec![0x11u8; 33]));
    assert_eq!(fx.phase(), Phase::Write);
    assert_eq!(fx.feedback(), [0u32; 6]);
    assert_eq!(fx.error(), None);
}

#[test]
fn an_exchange_ends_within_its_bound_of_events() {
    for order in [FeedbackOrder::AfterTail, FeedbackOrder::BeforeBody] {
        let g = Geometry::new(24, 4, 3, 2, 5, 2).unwrap();
        let bound = g.frame_wire_len().unwrap() + 32 * g.rounds();
        let mut fx = FrameExchange::new(g, order, (0..24).collect(), [1u8; 32]);
        let mut events = 0usize;
        loop {
            match fx.action() {
                Action::Write(_) => fx.advance(Event::Written(1)),
                Action::Read(_) => fx.advance(Event::Received(vec![0u8])),
                Action::Done => break,
                Action::Failed => panic!("the exchange failed"),
            }
            events += 1;
            assert!(events <= bound);
        }
        assert_eq!(events, bound);
        assert_eq!(events, 2 * (12 + 32) + 2 * 32);

        let mut fx = FrameExchange::new(g, order, (0..24).collect(), [1u8; 32]);
        let mut events = 0usize;
        loop {
            match fx.action() {
                Action::Write(_) => fx.advance(Event::Written(0)),
                Action::Read(_) => fx.advance(Event::ReadFailed(TransportError::Timeout)),
                Action::Done => panic!("nothing was written"),
                Action::Failed => break,
            }
            events += 1;
            assert!(events <= 2);
        }
        assert_eq!(fx.error(), Some(SessionError::NoProgress));
    }
}

#[test]
fn an_unresponsive_device_costs_only_the_feedback() {
    let g = Geometry::standard();
    let mut fx = FrameExchange::new(g, FeedbackOrder::AfterTail, vec![0u8; 172800], [0u8; 32]);
    let mut reads = 0;
    let mut writes = 0;
    loop {
        match fx.action() {
            Action::Write(bytes) => {
                writes += 1;
                fx.advance(Event::Written(bytes.len()));
            }
            Action::Read(n) => {
                assert_eq!(n, 32);
                reads += 1;
                fx.advance(Event::ReadFailed(TransportError::Timeout));
            }
            Action::Done => break,
            Action::Failed => panic!("the exchange failed"),
        }
    }
    assert_eq!((writes, reads), (340, 4));
    assert_eq!(fx.outcome(), Some(Ok([0u32; 6])));
}

#[test]
fn errors_in_words() {
    assert_eq!(TransportError::Timeout.message(), "the transport timed out");
    assert_eq!(TransportError::Disconnected.message(), "the device is gone");
    assert_eq!(TransportError::Other.message(), "the transport failed");
    assert_eq!(
        SessionError::Write(TransportError::Timeout).message(),
        "write failed: the transport timed out"
    );
    assert_eq!(SessionError::NoProgress.message(), "the transport took no byte of a write");
    assert_eq!(SessionError::Overrun.message(), "the transport took more bytes than it was given");
    assert_eq!(SessionError::OutOfOrder.message(), "the report does not answer the action");
    assert_eq!(GeometryError::TooLarge.message(), "a round is longer than the machine can address");
    assert_eq!(GeometryError::FrameSizeMismatch.message(), "the rounds do not add up to the frame");
    assert_eq!(GeometryError::ZeroPacketSize.message(), "the packet size is zero");
    assert_eq!(GeometryError::TailExceedsRound.message(), "the tail is longer than a round");
    assert_eq!(
        GeometryError::BodyNotPacketAligned.message(),
        "the body of a round is not a whole number of packets"
    );
}
