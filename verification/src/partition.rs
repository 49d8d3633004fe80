//! Cutting a frame into what goes over the wire: for each round, body
//! packets of raw pixel bytes, then a tail packet that carries the last
//! pixel bytes of the round and the joint command.

use vstd::prelude::*;
use vstd::slice::{slice_subrange, slice_to_vec};
use crate::geometry::Geometry;

verus! {

/// The packets of one exchange round.
#[derive(Clone, Debug)]
pub struct RoundPackets {
    /// The body packets, in the order they are written.
    pub body: Vec<Vec<u8>>,
    /// The tail packet: the remaining pixel bytes, then the command record.
    pub tail: Vec<u8>,
}

impl RoundPackets {
    /// The body packets as sequences of bytes.
    pub open spec fn body_view(&self) -> Seq<Seq<u8>> {
        Seq::new(self.body@.len(), |k: int| self.body@[k]@)
    }
}

/// Offset in the frame at which round `r` begins.
pub open spec fn round_start(g: Geometry, r: int) -> int {
    r * g.spec_round_len()
}

/// The pixel bytes of round `r`.
pub open spec fn round_pixels(pixels: Seq<u8>, g: Geometry, r: int) -> Seq<u8> {
    pixels.subrange(round_start(g, r), round_start(g, r) + g.spec_round_len())
}

/// Body packet `k` of round `r`.
pub open spec fn body_packet(pixels: Seq<u8>, g: Geometry, r: int, k: int) -> Seq<u8> {
    pixels.subrange(
        round_start(g, r) + k * g.spec_packet_size(),
        round_start(g, r) + k * g.spec_packet_size() + g.spec_packet_size(),
    )
}

/// The first `n` body packets of round `r`.
pub open spec fn body_packets(pixels: Seq<u8>, g: Geometry, r: int, n: int) -> Seq<Seq<u8>> {
    Seq::new(n as nat, |k: int| body_packet(pixels, g, r, k))
}

/// The pixel bytes that ride in the tail packet of round `r`: those that
/// follow its body.
pub open spec fn tail_pixels(pixels: Seq<u8>, g: Geometry, r: int) -> Seq<u8> {
    pixels.subrange(
        round_start(g, r) + g.spec_body_len(),
        round_start(g, r) + g.spec_round_len(),
    )
}

/// The tail packet of round `r`: its tail pixels, then the command record.
pub open spec fn tail_packet(pixels: Seq<u8>, command: Seq<u8>, g: Geometry, r: int) -> Seq<u8> {
    tail_pixels(pixels, g, r) + command
}

/// The packets laid end to end.
pub open spec fn join(parts: Seq<Seq<u8>>) -> Seq<u8>
    decreases parts.len(),
{
    if parts.len() == 0 {
        Seq::empty()
    } else {
        join(parts.drop_last()) + parts.last()
    }
}

/// The pixel bytes that round `r` carries: its body packets end to end, then
/// its tail pixels.
pub open spec fn round_payload(pixels: Seq<u8>, g: Geometry, r: int) -> Seq<u8> {
    join(body_packets(pixels, g, r, g.spec_packets_per_round())) + tail_pixels(pixels, g, r)
}

/// The pixel bytes that the first `n` rounds carry, in order.
pub open spec fn frame_payload(pixels: Seq<u8>, g: Geometry, n: int) -> Seq<u8>
    decreases n,
{
    if n <= 0 {
        Seq::empty()
    } else {
        frame_payload(pixels, g, n - 1) + round_payload(pixels, g, n - 1)
    }
}

/// Every byte that round `r` puts on the wire: its pixels, then the command.
pub open spec fn round_wire(pixels: Seq<u8>, command: Seq<u8>, g: Geometry, r: int) -> Seq<u8> {
    round_pixels(pixels, g, r) + command
}

/// Every byte that the first `n` rounds put on the wire, in order.
pub open spec fn frame_wire(pixels: Seq<u8>, command: Seq<u8>, g: Geometry, n: int) -> Seq<u8>
    decreases n,
{
    if n <= 0 {
        Seq::empty()
    } else {
        frame_wire(pixels, command, g, n - 1) + round_wire(pixels, command, g, n - 1)
    }
}

/// What `partition` returns, round by round.
pub open spec fn is_partition(
    rounds: Seq<RoundPackets>,
    pixels: Seq<u8>,
    command: Seq<u8>,
    g: Geometry,
) -> bool {
    &&& rounds.len() == g.spec_rounds()
    &&& forall|r: int|
        0 <= r < rounds.len() ==> {
            &&& (#[trigger] rounds[r]).body_view() == body_packets(
                pixels,
                g,
                r,
                g.spec_packets_per_round(),
            )
            &&& rounds[r].tail@ == tail_packet(pixels, command, g, r)
        }
}

/// Round `r` of a valid geometry lies inside the frame.
pub proof fn lemma_round_bounds(g: Geometry, r: int)
    requires
        g.valid(),
        0 <= r < g.spec_rounds(),
    ensures
        0 <= round_start(g, r),
        round_start(g, r + 1) == round_start(g, r) + g.spec_round_len(),
        round_start(g, r) + g.spec_round_len() <= g.spec_frame_size(),
{
    let len = g.spec_round_len();
    let n = g.spec_rounds();
    assert(0 <= r * len) by (nonlinear_arith)
        requires
            0 <= r,
            0 <= len,
    ;
    assert((r + 1) * len == r * len + len) by (nonlinear_arith);
    assert((r + 1) * len <= n * len) by (nonlinear_arith)
        requires
            r + 1 <= n,
            0 <= len,
    ;
}

/// Body packet `k` of a valid geometry lies inside the body of its round.
pub proof fn lemma_packet_bounds(g: Geometry, k: int)
    requires
        g.valid(),
        0 <= k < g.spec_packets_per_round(),
    ensures
        0 <= k * g.spec_packet_size(),
        (k + 1) * g.spec_packet_size() == k * g.spec_packet_size() + g.spec_packet_size(),
        k * g.spec_packet_size() + g.spec_packet_size() <= g.spec_body_len(),
{
    let size = g.spec_packet_size();
    let n = g.spec_packets_per_round();
    assert(0 <= k * size) by (nonlinear_arith)
        requires
            0 <= k,
            0 <= size,
    ;
    assert((k + 1) * size == k * size + size) by (nonlinear_arith);
    assert((k + 1) * size <= n * size) by (nonlinear_arith)
        requires
            k + 1 <= n,
            0 <= size,
    ;
}

/// The first `n` body packets of a round, end to end, are the first `n`
/// packets' worth of the round's pixels.
pub proof fn lemma_join_body_packets(pixels: Seq<u8>, g: Geometry, r: int, n: int)
    requires
        g.valid(),
        pixels.len() == g.spec_frame_size(),
        0 <= r < g.spec_rounds(),
        0 <= n <= g.spec_packets_per_round(),
    ensures
        join(body_packets(pixels, g, r, n)) == pixels.subrange(
            round_start(g, r),
            round_start(g, r) + n * g.spec_packet_size(),
        ),
    decreases n,
{
    lemma_round_bounds(g, r);
    let start = round_start(g, r);
    let size = g.spec_packet_size();
    if n == 0 {
        assert(join(body_packets(pixels, g, r, 0)) =~= pixels.subrange(start, start + 0 * size));
    } else {
        lemma_join_body_packets(pixels, g, r, n - 1);
        lemma_packet_bounds(g, n - 1);
        let parts = body_packets(pixels, g, r, n);
        assert(parts.drop_last() =~= body_packets(pixels, g, r, n - 1));
        assert(parts.last() == body_packet(pixels, g, r, n - 1));
        assert(join(parts) =~= pixels.subrange(start, start + n * size));
    }
}

/// The pixel bytes that a round carries are the round's pixels.
pub proof fn lemma_round_payload(pixels: Seq<u8>, g: Geometry, r: int)
    requires
        g.valid(),
        pixels.len() == g.spec_frame_size(),
        0 <= r < g.spec_rounds(),
    ensures
        round_payload(pixels, g, r) == round_pixels(pixels, g, r),
        round_payload(pixels, g, r).len() == g.spec_round_len(),
{
    lemma_round_bounds(g, r);
    lemma_join_body_packets(pixels, g, r, g.spec_packets_per_round());
    assert(round_payload(pixels, g, r) =~= round_pixels(pixels, g, r));
}

/// The pixel bytes that the first `n` rounds carry are the first `n` rounds
/// of the frame.
pub proof fn lemma_frame_payload_prefix(pixels: Seq<u8>, g: Geometry, n: int)
    requires
        g.valid(),
        pixels.len() == g.spec_frame_size(),
        0 <= n <= g.spec_rounds(),
    ensures
        0 <= round_start(g, n) <= g.spec_frame_size(),
        frame_payload(pixels, g, n) == pixels.subrange(0, round_start(g, n)),
    decreases n,
{
    if n == 0 {
        assert(frame_payload(pixels, g, 0) =~= pixels.subrange(0, round_start(g, 0)));
    } else {
        lemma_frame_payload_prefix(pixels, g, n - 1);
        lemma_round_bounds(g, n - 1);
        lemma_round_payload(pixels, g, n - 1);
        assert(frame_payload(pixels, g, n) =~= pixels.subrange(0, round_start(g, n)));
    }
}

/// Partition is complete: for a buffer of the geometry's frame size, the body
/// packets and tail pixels of all rounds, laid end to end in the order they
/// are sent, are the buffer itself, byte for byte. Nothing is sent twice and
/// nothing is left out.
pub proof fn lemma_partition_complete(pixels: Seq<u8>, g: Geometry)
    requires
        g.valid(),
        pixels.len() == g.spec_frame_size(),
    ensures
        frame_payload(pixels, g, g.spec_rounds()) == pixels,
{
    lemma_frame_payload_prefix(pixels, g, g.spec_rounds());
    assert(pixels.subrange(0, g.spec_frame_size()) =~= pixels);
}

/// A round's body packets and its tail packet, end to end, are what the
/// round puts on the wire.
pub proof fn lemma_round_wire(pixels: Seq<u8>, command: Seq<u8>, g: Geometry, r: int)
    requires
        g.valid(),
        pixels.len() == g.spec_frame_size(),
        0 <= r < g.spec_rounds(),
    ensures
        join(body_packets(pixels, g, r, g.spec_packets_per_round())) + tail_packet(
            pixels,
            command,
            g,
            r,
        ) == round_wire(pixels, command, g, r),
        round_wire(pixels, command, g, r).len() == g.spec_round_len() + command.len(),
{
    lemma_round_bounds(g, r);
    lemma_round_payload(pixels, g, r);
    assert(join(body_packets(pixels, g, r, g.spec_packets_per_round())) + tail_packet(
        pixels,
        command,
        g,
        r,
    ) =~= round_wire(pixels, command, g, r));
}

/// The wire of the first `n` rounds has `n` rounds' worth of bytes.
pub proof fn lemma_frame_wire_len(pixels: Seq<u8>, command: Seq<u8>, g: Geometry, n: int)
    requires
        g.valid(),
        pixels.len() == g.spec_frame_size(),
        0 <= n <= g.spec_rounds(),
    ensures
        frame_wire(pixels, command, g, n).len() == n * (g.spec_round_len() + command.len()),
    decreases n,
{
    if n > 0 {
        lemma_frame_wire_len(pixels, command, g, n - 1);
        lemma_round_bounds(g, n - 1);
        let per = g.spec_round_len() + command.len();
        assert(n * per == (n - 1) * per + per) by (nonlinear_arith);
    } else {
        assert(0 * (g.spec_round_len() + command.len()) == 0);
    }
}

/// Copies `pixels[from..to]` into a packet of its own.
fn copy_range(pixels: &[u8], from: usize, to: usize) -> (out: Vec<u8>)
    requires
        from <= to <= pixels@.len(),
    ensures
        out@ == pixels@.subrange(from as int, to as int),
{
    slice_to_vec(slice_subrange(pixels, from, to))
}

/// Builds the tail packet of a round: the pixel bytes after the round's
/// body, then the command record.
pub fn build_tail_packet(
    pixels: &[u8],
    command: &[u8; 32],
    geometry: &Geometry,
    round: usize,
) -> (tail: Vec<u8>)
    requires
        pixels@.len() == geometry.spec_frame_size(),
        round < geometry.spec_rounds(),
    ensures
        tail@ == tail_packet(pixels@, command@, *geometry, round as int),
        tail@.len() == geometry.spec_tail_len(),
{
    let body_len = geometry.body_len();
    let round_len = geometry.round_len();
    let frame_size = geometry.frame_size();
    proof {
        lemma_round_bounds(*geometry, round as int);
    }
    let start: usize = round * round_len;
    let mut tail = copy_range(pixels, start + body_len, start + round_len);
    let mut i: usize = 0;
    while i < 32
        invariant
            0 <= i <= 32,
            tail@ == tail_pixels(pixels@, *geometry, round as int) + command@.subrange(0, i as int),
        decreases 32 - i,
    {
        tail.push(command[i]);
        i += 1;
        assert(tail@ =~= tail_pixels(pixels@, *geometry, round as int) + command@.subrange(
            0,
            i as int,
        ));
    }
    assert(command@.subrange(0, 32) =~= command@);
    tail
}

/// Cuts a frame into the packets of its rounds. For every round it gives the
/// body packets, each of the geometry's packet size, and the tail packet,
/// which holds the round's last pixel bytes followed by the command record.
pub fn partition(pixels: &[u8], command: &[u8; 32], geometry: &Geometry) -> (rounds: Vec<
    RoundPackets,
>)
    requires
        pixels@.len() == geometry.spec_frame_size(),
    ensures
        is_partition(rounds@, pixels@, command@, *geometry),
{
    let packets = geometry.packets_per_round();
    let size = geometry.packet_size();
    let round_len = geometry.round_len();
    let count = geometry.rounds();
    let body_len = geometry.body_len();
    let frame_size = geometry.frame_size();
    let mut rounds: Vec<RoundPackets> = Vec::new();
    let mut r: usize = 0;
    let mut start: usize = 0;
    assert(0 * geometry.spec_round_len() == 0);
    while r < count
        invariant
            geometry.valid(),
            pixels@.len() == geometry.spec_frame_size(),
            packets == geometry.spec_packets_per_round(),
            size == geometry.spec_packet_size(),
            round_len == geometry.spec_round_len(),
            count == geometry.spec_rounds(),
            body_len == geometry.spec_body_len(),
            frame_size == geometry.spec_frame_size(),
            0 <= r <= count,
            start == round_start(*geometry, r as int),
            rounds@.len() == r,
            forall|q: int|
                0 <= q < r ==> {
                    &&& (#[trigger] rounds@[q]).body_view() == body_packets(
                        pixels@,
                        *geometry,
                        q,
                        packets as int,
                    )
                    &&& rounds@[q].tail@ == tail_packet(pixels@, command@, *geometry, q)
                },
        decreases count - r,
    {
        proof {
            lemma_round_bounds(*geometry, r as int);
        }
        let mut body: Vec<Vec<u8>> = Vec::new();
        let mut k: usize = 0;
        let mut at: usize = start;
        assert(0 * geometry.spec_packet_size() == 0);
        while k < packets
            invariant
                geometry.valid(),
                pixels@.len() == geometry.spec_frame_size(),
                packets == geometry.spec_packets_per_round(),
                size == geometry.spec_packet_size(),
                frame_size == geometry.spec_frame_size(),
                0 <= r < geometry.spec_rounds(),
                start == round_start(*geometry, r as int),
                start + geometry.spec_round_len() <= geometry.spec_frame_size(),
                0 <= k <= packets,
                at == start + k * size,
                body@.len() == k,
                forall|j: int|
                    0 <= j < k ==> (#[trigger] body@[j])@ == body_packet(
                        pixels@,
                        *geometry,
                        r as int,
                        j,
                    ),
            decreases packets - k,
        {
            proof {
                lemma_packet_bounds(*geometry, k as int);
            }
            let packet = copy_range(pixels, at, at + size);
            body.push(packet);
            at = at + size;
            k += 1;
        }
        let tail = build_tail_packet(pixels, command, geometry, r);
        let round = RoundPackets { body, tail };
        assert(round.body_view() =~= body_packets(pixels@, *geometry, r as int, packets as int));
        rounds.push(round);
        start = start + round_len;
        r += 1;
    }
    rounds
}

/// Within the wire of the first `n` rounds, the bytes of round `r` are the
/// wire of round `r`: the rounds follow one another in order, each in full.
pub proof fn lemma_frame_wire_round(
    pixels: Seq<u8>,
    command: Seq<u8>,
    g: Geometry,
    n: int,
    r: int,
)
    requires
        g.valid(),
        pixels.len() == g.spec_frame_size(),
        command.len() == 32,
        0 <= r < n <= g.spec_rounds(),
    ensures
        0 <= r * g.spec_round_wire_len(),
        r * g.spec_round_wire_len() + g.spec_round_wire_len() <= frame_wire(
            pixels,
            command,
            g,
            n,
        ).len(),
        frame_wire(pixels, command, g, n).subrange(
            r * g.spec_round_wire_len(),
            r * g.spec_round_wire_len() + g.spec_round_wire_len(),
        ) == round_wire(pixels, command, g, r),
    decreases n,
{
    let len = g.spec_round_wire_len();
    lemma_frame_wire_len(pixels, command, g, n);
    lemma_frame_wire_len(pixels, command, g, n - 1);
    lemma_round_bounds(g, n - 1);
    assert(n * len == (n - 1) * len + len) by (nonlinear_arith);
    assert(0 <= r * len) by (nonlinear_arith)
        requires
            0 <= r,
            0 <= len,
    ;
    assert(r * len + len <= n * len) by (nonlinear_arith)
        requires
            r + 1 <= n,
            0 <= len,
    ;
    let whole = frame_wire(pixels, command, g, n);
    let before = frame_wire(pixels, command, g, n - 1);
    let last = round_wire(pixels, command, g, n - 1);
    assert(whole == before + last);
    if r == n - 1 {
        assert(whole.subrange(r * len, r * len + len) =~= last);
    } else {
        lemma_frame_wire_round(pixels, command, g, n - 1, r);
        assert(r * len + len <= (n - 1) * len) by (nonlinear_arith)
            requires
                r + 1 <= n - 1,
                0 <= len,
        ;
        assert(whole.subrange(r * len, r * len + len) =~= before.subrange(
            r * len,
            r * len + len,
        ));
    }
}

} // verus!
