//! Frame geometry: how a full frame is cut into exchange rounds, and a round
//! into packets. The numbers must agree with the firmware, and with each
//! other: a geometry whose parts do not add up to the frame is never built.

use vstd::prelude::*;
use crate::codec::RECORD_SIZE;

verus! {

/// Why a set of dimensions is not a geometry.
#[derive(Clone, Copy, Debug, PartialEq, Eq, Structural)]
pub enum GeometryError {
    /// One round, with its command record, is longer than the machine can
    /// address.
    TooLarge,
    /// The rounds do not add up to the frame.
    FrameSizeMismatch,
    /// Packets of no bytes.
    ZeroPacketSize,
    /// More tail pixel bytes than a round has bytes.
    TailExceedsRound,
    /// The body of a round is not a whole number of packets.
    BodyNotPacketAligned,
}

impl GeometryError {
    /// The error in words.
    pub open spec fn spec_message(self) -> Seq<char> {
        match self {
            GeometryError::TooLarge => "a round is longer than the machine can address"@,
            GeometryError::FrameSizeMismatch => "the rounds do not add up to the frame"@,
            GeometryError::ZeroPacketSize => "the packet size is zero"@,
            GeometryError::TailExceedsRound => "the tail is longer than a round"@,
            GeometryError::BodyNotPacketAligned => "the body of a round is not a whole number of packets"@,
        }
    }

    /// The error in words.
    pub fn message(self) -> (text: &'static str)
        ensures
            text@ == self.spec_message(),
    {
        match self {
            GeometryError::TooLarge => "a round is longer than the machine can address",
            GeometryError::FrameSizeMismatch => "the rounds do not add up to the frame",
            GeometryError::ZeroPacketSize => "the packet size is zero",
            GeometryError::TailExceedsRound => "the tail is longer than a round",
            GeometryError::BodyNotPacketAligned => "the body of a round is not a whole number of packets",
        }
    }
}

/// The first reason, in a fixed order, why the dimensions are no geometry;
/// `None` where they are one.
pub open spec fn geometry_defect(
    frame_size: int,
    row_bytes: int,
    rows_per_round: int,
    rounds: int,
    packet_size: int,
    tail_pixel_bytes: int,
) -> Option<GeometryError> {
    let round_len = rows_per_round * row_bytes;
    if round_len + 32 > usize::MAX {
        Some(GeometryError::TooLarge)
    } else if rounds * round_len != frame_size {
        Some(GeometryError::FrameSizeMismatch)
    } else if packet_size == 0 {
        Some(GeometryError::ZeroPacketSize)
    } else if tail_pixel_bytes > round_len {
        Some(GeometryError::TailExceedsRound)
    } else if (round_len - tail_pixel_bytes) % packet_size != 0 {
        Some(GeometryError::BodyNotPacketAligned)
    } else {
        None
    }
}

/// A frame geometry that adds up.
#[derive(Clone, Copy, Debug)]
pub struct Geometry {
    frame_size: usize,
    row_bytes: usize,
    rows_per_round: usize,
    rounds: usize,
    packet_size: usize,
    tail_pixel_bytes: usize,
    round_len: usize,
    packets_per_round: usize,
}

impl Geometry {
    /// Bytes in a full frame.
    pub closed spec fn spec_frame_size(&self) -> int {
        self.frame_size as int
    }

    /// Bytes in one pixel row.
    pub closed spec fn spec_row_bytes(&self) -> int {
        self.row_bytes as int
    }

    /// Pixel rows that one round carries.
    pub closed spec fn spec_rows_per_round(&self) -> int {
        self.rows_per_round as int
    }

    /// Rounds in a frame.
    pub closed spec fn spec_rounds(&self) -> int {
        self.rounds as int
    }

    /// Bytes in a body packet.
    pub closed spec fn spec_packet_size(&self) -> int {
        self.packet_size as int
    }

    /// Pixel bytes that ride in the tail packet of a round.
    pub closed spec fn spec_tail_pixel_bytes(&self) -> int {
        self.tail_pixel_bytes as int
    }

    /// Pixel bytes in one round.
    pub closed spec fn spec_round_len(&self) -> int {
        self.round_len as int
    }

    /// Body packets in one round.
    pub closed spec fn spec_packets_per_round(&self) -> int {
        self.packets_per_round as int
    }

    /// Pixel bytes in the body of one round.
    pub open spec fn spec_body_len(&self) -> int {
        self.spec_round_len() - self.spec_tail_pixel_bytes()
    }

    /// Bytes in the tail packet: the tail pixels and the command record.
    pub open spec fn spec_tail_len(&self) -> int {
        self.spec_tail_pixel_bytes() + 32
    }

    /// Bytes written to the device in one round.
    pub open spec fn spec_round_wire_len(&self) -> int {
        self.spec_round_len() + 32
    }

    /// Bytes written to the device for one frame.
    pub open spec fn spec_frame_wire_len(&self) -> int {
        self.spec_rounds() * self.spec_round_wire_len()
    }

    /// The parts add up: the rounds make the frame, the packets make the body
    /// of a round, with nothing left over.
    pub open spec fn valid(&self) -> bool {
        &&& self.spec_round_len() == self.spec_rows_per_round() * self.spec_row_bytes()
        &&& self.spec_rounds() * self.spec_round_len() == self.spec_frame_size()
        &&& self.spec_packet_size() > 0
        &&& 0 <= self.spec_tail_pixel_bytes() <= self.spec_round_len()
        &&& self.spec_body_len() % self.spec_packet_size() == 0
        &&& self.spec_packets_per_round() * self.spec_packet_size() == self.spec_body_len()
        &&& 0 <= self.spec_packets_per_round()
        &&& 0 <= self.spec_rounds()
        &&& 0 <= self.spec_rows_per_round()
        &&& 0 <= self.spec_row_bytes()
        &&& self.spec_round_len() + 32 <= usize::MAX
        &&& geometry_defect(
            self.spec_frame_size(),
            self.spec_row_bytes(),
            self.spec_rows_per_round(),
            self.spec_rounds(),
            self.spec_packet_size(),
            self.spec_tail_pixel_bytes(),
        ) is None
    }

    #[verifier::type_invariant]
    spec fn inv(&self) -> bool {
        self.valid()
    }

    /// Builds a geometry from its dimensions, or says what is wrong with
    /// them. Succeeds exactly on dimensions that add up.
    pub fn new(
        frame_size: usize,
        row_bytes: usize,
        rows_per_round: usize,
        rounds: usize,
        packet_size: usize,
        tail_pixel_bytes: usize,
    ) -> (res: Result<Geometry, GeometryError>)
        ensures
            match res {
                Ok(g) => {
                    &&& geometry_defect(
                        frame_size as int,
                        row_bytes as int,
                        rows_per_round as int,
                        rounds as int,
                        packet_size as int,
                        tail_pixel_bytes as int,
                    ) is None
                    &&& g.valid()
                    &&& g.spec_frame_size() == frame_size
                    &&& g.spec_row_bytes() == row_bytes
                    &&& g.spec_rows_per_round() == rows_per_round
                    &&& g.spec_rounds() == rounds
                    &&& g.spec_packet_size() == packet_size
                    &&& g.spec_tail_pixel_bytes() == tail_pixel_bytes
                },
                Err(e) => geometry_defect(
                    frame_size as int,
                    row_bytes as int,
                    rows_per_round as int,
                    rounds as int,
                    packet_size as int,
                    tail_pixel_bytes as int,
                ) == Some(e),
            },
    {
        let round_len: usize = match rows_per_round.checked_mul(row_bytes) {
            Some(n) => n,
            None => {
                return Err(GeometryError::TooLarge);
            },
        };
        if round_len > usize::MAX - RECORD_SIZE {
            return Err(GeometryError::TooLarge);
        }
        match rounds.checked_mul(round_len) {
            Some(total) => {
                if total != frame_size {
                    return Err(GeometryError::FrameSizeMismatch);
                }
            },
            None => {
                return Err(GeometryError::FrameSizeMismatch);
            },
        }
        if packet_size == 0 {
            return Err(GeometryError::ZeroPacketSize);
        }
        if tail_pixel_bytes > round_len {
            return Err(GeometryError::TailExceedsRound);
        }
        let body_len: usize = round_len - tail_pixel_bytes;
        if body_len % packet_size != 0 {
            return Err(GeometryError::BodyNotPacketAligned);
        }
        let packets_per_round: usize = body_len / packet_size;
        proof {
            lemma_exact_division(body_len as int, packet_size as int);
        }
        Ok(
            Geometry {
                frame_size,
                row_bytes,
                rows_per_round,
                rounds,
                packet_size,
                tail_pixel_bytes,
                round_len,
                packets_per_round,
            },
        )
    }

    /// The geometry of the robot's 240 by 240 LCD: four rounds of sixty rows,
    /// each eighty-four packets of 512 bytes and a tail of 192 pixel bytes.
    pub fn standard() -> (g: Geometry)
        ensures
            g.valid(),
            g.spec_frame_size() == 172800,
            g.spec_row_bytes() == 720,
            g.spec_rows_per_round() == 60,
            g.spec_rounds() == 4,
            g.spec_packet_size() == 512,
            g.spec_tail_pixel_bytes() == 192,
            g.spec_round_len() == 43200,
            g.spec_packets_per_round() == 84,
    {
        Geometry {
            frame_size: 172800,
            row_bytes: 720,
            rows_per_round: 60,
            rounds: 4,
            packet_size: 512,
            tail_pixel_bytes: 192,
            round_len: 43200,
            packets_per_round: 84,
        }
    }

    /// Bytes in a full frame.
    pub fn frame_size(&self) -> (n: usize)
        ensures
            n == self.spec_frame_size(),
    {
        self.frame_size
    }

    /// Bytes in one pixel row.
    pub fn row_bytes(&self) -> (n: usize)
        ensures
            n == self.spec_row_bytes(),
    {
        self.row_bytes
    }

    /// Pixel rows that one round carries.
    pub fn rows_per_round(&self) -> (n: usize)
        ensures
            n == self.spec_rows_per_round(),
    {
        self.rows_per_round
    }

    /// Rounds in a frame.
    pub fn rounds(&self) -> (n: usize)
        ensures
            n == self.spec_rounds(),
    {
        self.rounds
    }

    /// Bytes in a body packet.
    pub fn packet_size(&self) -> (n: usize)
        ensures
            n == self.spec_packet_size(),
    {
        self.packet_size
    }

    /// Pixel bytes that ride in the tail packet of a round.
    pub fn tail_pixel_bytes(&self) -> (n: usize)
        ensures
            n == self.spec_tail_pixel_bytes(),
    {
        self.tail_pixel_bytes
    }

    /// Pixel bytes in one round.
    pub fn round_len(&self) -> (n: usize)
        ensures
            n == self.spec_round_len(),
    {
        self.round_len
    }

    /// Pixel bytes in the body of one round.
    pub fn body_len(&self) -> (n: usize)
        ensures
            n == self.spec_body_len(),
            self.valid(),
    {
        proof {
            use_type_invariant(self);
        }
        self.round_len - self.tail_pixel_bytes
    }

    /// Body packets in one round.
    pub fn packets_per_round(&self) -> (n: usize)
        ensures
            n == self.spec_packets_per_round(),
    {
        self.packets_per_round
    }

    /// Bytes in the tail packet of a round.
    pub fn tail_len(&self) -> (n: usize)
        ensures
            n == self.spec_tail_len(),
            self.valid(),
    {
        proof {
            use_type_invariant(self);
        }
        self.tail_pixel_bytes + RECORD_SIZE
    }

    /// Bytes written to the device in one round: its pixels and one command
    /// record.
    pub fn round_wire_len(&self) -> (n: usize)
        ensures
            n == self.spec_round_wire_len(),
            self.valid(),
    {
        proof {
            use_type_invariant(self);
        }
        self.round_len + RECORD_SIZE
    }

    /// Bytes written to the device for one frame, where that number fits the
    /// machine's word.
    pub fn frame_wire_len(&self) -> (n: Option<usize>)
        ensures
            self.valid(),
            match n {
                Some(len) => len == self.spec_frame_wire_len(),
                None => self.spec_frame_wire_len() > usize::MAX,
            },
    {
        proof {
            use_type_invariant(self);
        }
        self.rounds.checked_mul(self.round_len + RECORD_SIZE)
    }
}

/// A number that leaves no remainder is the quotient times the divisor.
pub proof fn lemma_exact_division(n: int, d: int)
    requires
        0 <= n,
        0 < d,
        n % d == 0,
    ensures
        (n / d) * d == n,
        0 <= n / d,
{
    vstd::arithmetic::div_mod::lemma_fundamental_div_mod(n, d);
    vstd::arithmetic::div_mod::lemma_div_pos_is_pos(n, d);
    assert(d * (n / d) == (n / d) * d) by (nonlinear_arith);
}

/// Every geometry that `new` accepts satisfies both parts of the geometry
/// invariant: the rounds make up the frame exactly, and the body of a round
/// is a whole number of packets.
pub proof fn lemma_geometry_invariant(g: Geometry)
    requires
        g.valid(),
    ensures
        g.spec_rounds() * (g.spec_rows_per_round() * g.spec_row_bytes()) == g.spec_frame_size(),
        (g.spec_rows_per_round() * g.spec_row_bytes() - g.spec_tail_pixel_bytes())
            % g.spec_packet_size() == 0,
{
}

} // verus!
