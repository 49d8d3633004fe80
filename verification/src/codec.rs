//! The fixed 32-byte records that travel with every exchange round: the joint
//! command sent to the device and the joint feedback it answers with.
//!
//! An angle is a 32-bit IEEE-754 single on the wire. This crate carries every
//! angle as the 32-bit pattern of that single, so a record is a matter of
//! integers only: byte 0 is the enable flag (or, in feedback, a marker that is
//! not read), bytes 1 to 24 hold the six angles, least significant byte
//! first, and bytes 25 to 31 are zero.

use vstd::prelude::*;
use crate::constants::SERVO_COUNT;
use crate::joint::JointConfig;

verus! {

/// Bytes in a command record and in a feedback record.
pub const RECORD_SIZE: usize = 32;

/// Offset of the first angle inside a record.
pub const ANGLES_OFFSET: usize = 1;

/// Byte `k` (0 is the least significant) of the word `x`.
pub open spec fn le_byte(x: u32, k: int) -> u8 {
    if k == 0 {
        (x % 256) as u8
    } else if k == 1 {
        ((x / 256) % 256) as u8
    } else if k == 2 {
        ((x / 65536) % 256) as u8
    } else {
        ((x / 16777216) % 256) as u8
    }
}

/// The word whose four bytes, least significant first, are `b0` to `b3`.
pub open spec fn le_word(b0: u8, b1: u8, b2: u8, b3: u8) -> u32 {
    (b0 + 256 * b1 + 65536 * b2 + 16777216 * b3) as u32
}

/// The wire form of a command: the enable flag, the six angles, zero padding.
pub open spec fn command_record(enable: u8, angles: Seq<u32>) -> Seq<u8> {
    Seq::new(
        32,
        |i: int|
            if i == 0 {
                enable
            } else if i < 25 {
                le_byte(angles[(i - 1) / 4], (i - 1) % 4)
            } else {
                0u8
            },
    )
}

/// The six angles that a 32-byte record holds after its first byte.
pub open spec fn feedback_angles(bytes: Seq<u8>) -> Seq<u32> {
    Seq::new(
        6,
        |j: int|
            le_word(bytes[1 + 4 * j], bytes[2 + 4 * j], bytes[3 + 4 * j], bytes[4 + 4 * j]),
    )
}

/// Splitting a word into bytes and joining them again gives the word back.
pub proof fn lemma_le_word_of_bytes(x: u32)
    ensures
        le_word(le_byte(x, 0), le_byte(x, 1), le_byte(x, 2), le_byte(x, 3)) == x,
{
}

/// Decoding an encoded command recovers its six angles, whatever the enable
/// flag and whatever bit patterns the angles hold.
pub proof fn lemma_codec_round_trip(cmd: JointConfig)
    ensures
        feedback_angles(command_record(cmd.enable, cmd.angles@)) == cmd.angles@,
{
    let enable = cmd.enable;
    let angles = cmd.angles@;
    assert(angles.len() == 6);
    let record = command_record(enable, angles);
    let decoded = feedback_angles(record);
    assert forall|j: int| 0 <= j < 6 implies decoded[j] == angles[j] by {
        assert(record[1 + 4 * j] == le_byte(angles[j], 0));
        assert(record[2 + 4 * j] == le_byte(angles[j], 1));
        assert(record[3 + 4 * j] == le_byte(angles[j], 2));
        assert(record[4 + 4 * j] == le_byte(angles[j], 3));
        lemma_le_word_of_bytes(angles[j]);
    }
    assert(decoded =~= angles);
}

/// Two to the power `e`.
pub open spec fn two_to(e: nat) -> nat
    decreases e,
{
    if e == 0 {
        1
    } else {
        2 * two_to((e - 1) as nat)
    }
}

/// The exponent of the leading binary digit of `m`: the largest `e` with
/// two to the `e` not above `m`. Zero for `m` below 2.
pub open spec fn top_exponent(m: nat) -> nat
    decreases m,
{
    if m < 2 {
        0
    } else {
        1 + top_exponent(m / 2)
    }
}

/// The bit pattern of the IEEE-754 single that equals the whole number `v`,
/// for a `v` of at most 24 binary digits, which a single holds exactly: the
/// sign in bit 31; the exponent of the leading binary digit, biased by 127,
/// in bits 23 to 30; the digits after the leading one, left-aligned, in bits
/// 0 to 22. Zero is all zeros.
pub open spec fn single_bits(v: int) -> int {
    let m: nat = if v < 0 {
        (-v) as nat
    } else {
        v as nat
    };
    let sign: int = if v < 0 {
        0x8000_0000
    } else {
        0
    };
    let e = top_exponent(m);
    if v == 0 {
        0
    } else {
        sign + (127 + e) * 0x80_0000 + (m - two_to(e)) * two_to((23 - e) as nat)
    }
}

/// Two to the sixteenth is 65536, and the powers below it are smaller.
proof fn lemma_two_to_sixteen(e: nat)
    ensures
        two_to(16) == 65536,
        e >= 16 ==> two_to(e) >= 65536,
    decreases e,
{
    reveal_with_fuel(two_to, 17);
    if e > 16 {
        lemma_two_to_sixteen((e - 1) as nat);
    }
}

/// The exponent `e` of the leading binary digit of `m`, with two to the `e`
/// and two to the `23 - e`.
fn leading_digit(m: u32) -> (res: (u32, u32, u32))
    requires
        1 <= m <= 0x8000,
    ensures
        res.0 == top_exponent(m as nat),
        res.1 == two_to(res.0 as nat),
        res.2 == two_to((23 - res.0) as nat),
        res.0 <= 15,
        res.1 <= m < 2 * res.1,
        res.1 * res.2 == 0x80_0000,
    decreases m,
{
    if m < 2 {
        proof {
            reveal_with_fuel(two_to, 24);
        }
        (0, 1, 0x80_0000)
    } else {
        let (e, p, scale) = leading_digit(m / 2);
        proof {
            lemma_two_to_sixteen((e + 1) as nat);
            assert(two_to((23 - e) as nat) == 2 * two_to((22 - e) as nat));
        }
        assert((2 * p) * (scale / 2) == 0x80_0000) by (nonlinear_arith)
            requires
                p * scale == 0x80_0000,
                scale % 2 == 0,
        ;
        (e + 1, 2 * p, scale / 2)
    }
}

/// The bit pattern of the single that equals a whole number of degrees.
pub fn angle_bits(degrees: i16) -> (bits: u32)
    ensures
        bits == single_bits(degrees as int),
{
    if degrees == 0 {
        return 0;
    }
    let wide: i32 = degrees as i32;
    let m: u32 = if wide < 0 {
        (-wide) as u32
    } else {
        wide as u32
    };
    let sign: u32 = if wide < 0 {
        0x8000_0000
    } else {
        0
    };
    let (e, p, scale) = leading_digit(m);
    assert((m - p) * scale < 0x80_0000) by (nonlinear_arith)
        requires
            p <= m < 2 * p,
            p * scale == 0x80_0000,
            p >= 1,
            scale >= 0,
    ;
    sign + (127 + e) * 0x80_0000 + (m - p) * scale
}

/// Serialises a command to its 32-byte wire form. Total: every command has
/// one.
pub fn encode_command(cmd: &JointConfig) -> (bytes: [u8; 32])
    ensures
        bytes@ == command_record(cmd.enable, cmd.angles@),
{
    let mut bytes = [0u8; 32];
    bytes[0] = cmd.enable;
    let mut i: usize = 0;
    while i < SERVO_COUNT
        invariant
            0 <= i <= 6,
            bytes@.len() == 32,
            bytes@[0] == cmd.enable,
            forall|k: int| 1 <= k < 1 + 4 * i ==> bytes@[k] == command_record(cmd.enable, cmd.angles@)[k],
            forall|k: int| 1 + 4 * i <= k < 32 ==> bytes@[k] == 0u8,
        decreases 6 - i,
    {
        let x: u32 = cmd.angles[i];
        let at: usize = ANGLES_OFFSET + 4 * i;
        bytes[at] = (x % 256) as u8;
        bytes[at + 1] = ((x / 256) % 256) as u8;
        bytes[at + 2] = ((x / 65536) % 256) as u8;
        bytes[at + 3] = ((x / 16777216) % 256) as u8;
        i += 1;
    }
    assert(bytes@ =~= command_record(cmd.enable, cmd.angles@));
    bytes
}

/// Reads the six angles out of a 32-byte feedback record. The first byte is a
/// marker and is not read; neither are the last seven.
pub fn decode_feedback(bytes: &[u8; 32]) -> (angles: [u32; 6])
    ensures
        angles@ == feedback_angles(bytes@),
{
    let mut angles = [0u32; 6];
    let mut j: usize = 0;
    while j < SERVO_COUNT
        invariant
            0 <= j <= 6,
            angles@.len() == 6,
            forall|k: int| 0 <= k < j ==> angles@[k] == feedback_angles(bytes@)[k],
        decreases 6 - j,
    {
        let at: usize = ANGLES_OFFSET + 4 * j;
        let b0: u32 = bytes[at] as u32;
        let b1: u32 = bytes[at + 1] as u32;
        let b2: u32 = bytes[at + 2] as u32;
        let b3: u32 = bytes[at + 3] as u32;
        angles[j] = b0 + 256 * b1 + 65536 * b2 + 16777216 * b3;
        j += 1;
    }
    assert(angles@ =~= feedback_angles(bytes@));
    angles
}

} // verus!
