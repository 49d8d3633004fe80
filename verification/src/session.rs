//! The frame exchange of a device session, as a machine that decides and
//! leaves the input and output to its driver.
//!
//! One logical frame is sent in rounds. In every round the body packets are
//! written in order, then the tail packet, and 32 bytes of joint feedback are
//! read. The machine says what to do next (`action`); the driver does it on
//! the transport and reports what happened (`advance`). A write that the
//! transport takes only in part is continued at the byte after the last one
//! taken; a write that fails, or takes nothing, ends the session. A read
//! that brings only part of the feedback is continued until all 32 bytes are
//! in; a read that fails, or brings nothing, costs only the reading: the
//! frame goes on with the feedback it had.

use vstd::prelude::*;
use vstd::slice::{slice_subrange, slice_to_vec};
use vstd::string::StringExecFns;
use crate::codec::{decode_feedback, feedback_angles};
use crate::geometry::Geometry;
use crate::partition::{
    body_packet, frame_wire, lemma_frame_wire_len, lemma_frame_wire_round, lemma_round_bounds,
    round_start, round_wire, tail_packet,
};
use crate::transport::TransportError;

verus! {

/// Why a session can no longer be used.
#[derive(Clone, Copy, Debug, PartialEq, Eq, Structural)]
pub enum SessionError {
    /// The transport failed to write.
    Write(TransportError),
    /// The transport took no byte of a write.
    NoProgress,
    /// The transport claims to have taken more bytes than it was given.
    Overrun,
    /// The driver reported something that does not answer the action it was
    /// given.
    OutOfOrder,
}

impl SessionError {
    /// The error in words.
    pub open spec fn spec_message(self) -> Seq<char> {
        match self {
            SessionError::Write(e) => "write failed: "@ + e.spec_message(),
            SessionError::NoProgress => "the transport took no byte of a write"@,
            SessionError::Overrun => "the transport took more bytes than it was given"@,
            SessionError::OutOfOrder => "the report does not answer the action"@,
        }
    }

    /// The error in words.
    pub fn message(self) -> (text: String)
        ensures
            text@ == self.spec_message(),
    {
        match self {
            SessionError::Write(e) => {
                let mut text = String::from_str("write failed: ");
                text.append(e.message());
                text
            },
            SessionError::NoProgress => String::from_str("the transport took no byte of a write"),
            SessionError::Overrun => String::from_str(
                "the transport took more bytes than it was given",
            ),
            SessionError::OutOfOrder => String::from_str("the report does not answer the action"),
        }
    }
}

/// Where in a round the feedback is read.
#[derive(Clone, Copy, Debug, PartialEq, Eq, Structural)]
pub enum FeedbackOrder {
    /// After the tail packet of the round. The regular protocol.
    AfterTail,
    /// Before the first body packet of the round: the order of some firmware
    /// versions, to be chosen on purpose.
    BeforeBody,
}

/// What the machine waits for.
#[derive(Clone, Copy, Debug, PartialEq, Eq, Structural)]
pub enum Phase {
    /// Bytes are to be written.
    Write,
    /// Feedback is to be read.
    Read,
    /// The frame has been exchanged.
    Done,
    /// The session has failed.
    Failed,
}

/// What the driver has to do next.
#[derive(Clone, Debug)]
pub enum Action {
    /// Write these bytes, in one call; report how many were taken.
    Write(Vec<u8>),
    /// Read at most this many bytes of feedback, in one call, within the
    /// transport's timeout; report what came.
    Read(usize),
    /// Nothing: the frame has been exchanged.
    Done,
    /// Nothing: the session has failed and must be closed.
    Failed,
}

/// What the driver reports.
#[derive(Clone, Debug)]
pub enum Event {
    /// The transport took this many bytes of the write.
    Written(usize),
    /// The write failed.
    WriteFailed(TransportError),
    /// The read brought these bytes.
    Received(Vec<u8>),
    /// The read failed.
    ReadFailed(TransportError),
}

/// One frame on its way to the device.
pub struct FrameExchange {
    geometry: Geometry,
    order: FeedbackOrder,
    pixels: Vec<u8>,
    command: [u8; 32],
    round: usize,
    base: usize,
    pos: usize,
    fed: bool,
    error: Option<SessionError>,
    feedback: [u32; 6],
    rx: [u8; 32],
    rx_len: usize,
}

/// End, within a round's wire, of the packet that holds offset `pos`: the
/// end of a body packet, or the end of the tail packet.
pub open spec fn packet_end(g: Geometry, pos: int) -> int {
    if pos < g.spec_body_len() {
        (pos / g.spec_packet_size() + 1) * g.spec_packet_size()
    } else {
        g.spec_round_wire_len()
    }
}

impl FrameExchange {
    /// The geometry of the frame.
    pub closed spec fn spec_geometry(&self) -> Geometry {
        self.geometry
    }

    /// Where in a round the feedback is read.
    pub closed spec fn spec_order(&self) -> FeedbackOrder {
        self.order
    }

    /// The frame's pixel bytes.
    pub closed spec fn spec_pixels(&self) -> Seq<u8> {
        self.pixels@
    }

    /// The command record that rides in every tail packet.
    pub closed spec fn spec_command(&self) -> Seq<u8> {
        self.command@
    }

    /// The round in progress; the number of rounds once all are done.
    pub closed spec fn spec_round(&self) -> int {
        self.round as int
    }

    /// Bytes of the round in progress that the transport has taken.
    pub closed spec fn spec_pos(&self) -> int {
        self.pos as int
    }

    /// Whether the feedback of the round in progress has been read.
    pub closed spec fn spec_fed(&self) -> bool {
        self.fed
    }

    /// Why the session failed, if it did.
    pub closed spec fn spec_error(&self) -> Option<SessionError> {
        self.error
    }

    /// The latest feedback read during this frame; zeros before the first.
    pub closed spec fn spec_feedback(&self) -> Seq<u32> {
        self.feedback@
    }

    /// The bytes of the feedback record in progress that have been read.
    pub closed spec fn spec_received(&self) -> Seq<u8> {
        self.rx@.subrange(0, self.rx_len as int)
    }

    /// The state is one that the machine can be in.
    pub closed spec fn wf(&self) -> bool {
        &&& self.geometry.valid()
        &&& self.pixels@.len() == self.geometry.spec_frame_size()
        &&& self.round <= self.geometry.spec_rounds()
        &&& self.base == round_start(self.geometry, self.round as int)
        &&& self.pos <= self.geometry.spec_round_wire_len()
        &&& self.round == self.geometry.spec_rounds() ==> self.pos == 0 && !self.fed
        &&& self.order == FeedbackOrder::AfterTail ==> !self.fed
        &&& self.order == FeedbackOrder::BeforeBody ==> self.pos
            < self.geometry.spec_round_wire_len()
        &&& self.order == FeedbackOrder::BeforeBody && !self.fed ==> self.pos == 0
        &&& self.rx_len < 32
        &&& self.rx_len > 0 ==> self.round < self.geometry.spec_rounds() && (
        if self.order == FeedbackOrder::BeforeBody {
            !self.fed
        } else {
            self.pos == self.geometry.spec_round_wire_len()
        })
    }

    /// A well-formed state lies within its frame.
    pub proof fn lemma_wf_bounds(&self)
        requires
            self.wf(),
        ensures
            self.spec_geometry().valid(),
            self.spec_pixels().len() == self.spec_geometry().spec_frame_size(),
            self.spec_command().len() == 32,
            self.spec_feedback().len() == 6,
            0 <= self.spec_round() <= self.spec_geometry().spec_rounds(),
            0 <= self.spec_pos() <= self.spec_geometry().spec_round_wire_len(),
            self.spec_round() == self.spec_geometry().spec_rounds() ==> self.spec_pos() == 0
                && !self.spec_fed(),
            self.spec_order() == FeedbackOrder::AfterTail ==> !self.spec_fed(),
            self.spec_order() == FeedbackOrder::BeforeBody ==> self.spec_pos()
                < self.spec_geometry().spec_round_wire_len(),
            self.spec_order() == FeedbackOrder::BeforeBody && !self.spec_fed() ==> self.spec_pos()
                == 0,
            self.spec_received().len() < 32,
            self.spec_received().len() > 0 ==> self.spec_phase() == Phase::Read
                || self.spec_phase() == Phase::Failed,
    {
    }

    /// While bytes are to be written, the bytes to write next are as many as
    /// lie between the first byte not yet taken and the end of its packet.
    pub proof fn lemma_chunk_len(&self)
        requires
            self.wf(),
            self.spec_phase() == Phase::Write,
        ensures
            self.spec_pos() < packet_end(self.spec_geometry(), self.spec_pos())
                <= self.spec_geometry().spec_round_wire_len(),
            self.spec_chunk().len() == packet_end(self.spec_geometry(), self.spec_pos())
                - self.spec_pos(),
    {
        lemma_round_bounds(self.geometry, self.round as int);
        if self.pos < self.geometry.spec_body_len() {
            lemma_packet_of(self.geometry, self.pos as int);
        }
    }

    /// What the machine waits for.
    pub open spec fn spec_phase(&self) -> Phase {
        if self.spec_error() is Some {
            Phase::Failed
        } else if self.spec_round() == self.spec_geometry().spec_rounds() {
            Phase::Done
        } else if self.spec_order() == FeedbackOrder::BeforeBody && !self.spec_fed() {
            Phase::Read
        } else if self.spec_pos() < self.spec_geometry().spec_round_wire_len() {
            Phase::Write
        } else {
            Phase::Read
        }
    }

    /// The bytes to write next: from the first byte of the round's wire that
    /// the transport has not taken, to the end of the packet that holds it.
    pub open spec fn spec_chunk(&self) -> Seq<u8> {
        round_wire(
            self.spec_pixels(),
            self.spec_command(),
            self.spec_geometry(),
            self.spec_round(),
        ).subrange(self.spec_pos(), packet_end(self.spec_geometry(), self.spec_pos()))
    }

    /// Wire bytes of this frame that the transport has taken so far.
    pub open spec fn spec_sent(&self) -> int {
        self.spec_round() * self.spec_geometry().spec_round_wire_len() + self.spec_pos()
    }

    /// `post` sends the same frame as `pre`, under the same geometry and
    /// feedback order.
    pub open spec fn same_frame(pre: &FrameExchange, post: &FrameExchange) -> bool {
        &&& post.spec_geometry() == pre.spec_geometry()
        &&& post.spec_order() == pre.spec_order()
        &&& post.spec_pixels() == pre.spec_pixels()
        &&& post.spec_command() == pre.spec_command()
    }

    /// `post` differs from `pre` in nothing.
    pub open spec fn unchanged(pre: &FrameExchange, post: &FrameExchange) -> bool {
        &&& Self::same_frame(pre, post)
        &&& post.spec_round() == pre.spec_round()
        &&& post.spec_pos() == pre.spec_pos()
        &&& post.spec_fed() == pre.spec_fed()
        &&& post.spec_error() == pre.spec_error()
        &&& post.spec_feedback() == pre.spec_feedback()
        &&& post.spec_received() == pre.spec_received()
    }

    /// `post` is `pre` with the session failed for the reason `e`.
    pub open spec fn failed_with(pre: &FrameExchange, post: &FrameExchange, e: SessionError) -> bool {
        &&& Self::same_frame(pre, post)
        &&& post.spec_round() == pre.spec_round()
        &&& post.spec_pos() == pre.spec_pos()
        &&& post.spec_fed() == pre.spec_fed()
        &&& post.spec_error() == Some(e)
        &&& post.spec_feedback() == pre.spec_feedback()
        &&& post.spec_received() == pre.spec_received()
    }

    /// `post` is `pre` after the transport took `n` more bytes.
    pub open spec fn wrote(pre: &FrameExchange, post: &FrameExchange, n: int) -> bool {
        let len = pre.spec_geometry().spec_round_wire_len();
        let round_over = pre.spec_order() == FeedbackOrder::BeforeBody && pre.spec_pos() + n == len;
        &&& Self::same_frame(pre, post)
        &&& post.spec_error() is None
        &&& post.spec_feedback() == pre.spec_feedback()
        &&& post.spec_received() == pre.spec_received()
        &&& post.spec_round() == if round_over {
            pre.spec_round() + 1
        } else {
            pre.spec_round()
        }
        &&& post.spec_pos() == if round_over {
            0
        } else {
            pre.spec_pos() + n
        }
        &&& post.spec_fed() == if round_over {
            false
        } else {
            pre.spec_fed()
        }
    }

    /// `post` is `pre` after one more part of the feedback record came in,
    /// with more to come.
    pub open spec fn received(pre: &FrameExchange, post: &FrameExchange, part: Seq<u8>) -> bool {
        &&& Self::same_frame(pre, post)
        &&& post.spec_round() == pre.spec_round()
        &&& post.spec_pos() == pre.spec_pos()
        &&& post.spec_fed() == pre.spec_fed()
        &&& post.spec_error() is None
        &&& post.spec_feedback() == pre.spec_feedback()
        &&& post.spec_received() == pre.spec_received() + part
    }

    /// `post` is `pre` after the feedback read of the round has come to its
    /// end, leaving `feedback` as the latest reading.
    pub open spec fn read(pre: &FrameExchange, post: &FrameExchange, feedback: Seq<u32>) -> bool {
        let round_over = pre.spec_order() == FeedbackOrder::AfterTail;
        &&& Self::same_frame(pre, post)
        &&& post.spec_error() is None
        &&& post.spec_received().len() == 0
        &&& post.spec_feedback() == feedback
        &&& post.spec_round() == if round_over {
            pre.spec_round() + 1
        } else {
            pre.spec_round()
        }
        &&& post.spec_pos() == 0
        &&& post.spec_fed() == !round_over
    }

    /// The machine's one step: what `post` is, given `pre` and the event the
    /// driver reports.
    pub open spec fn step(pre: &FrameExchange, event: Event, post: &FrameExchange) -> bool {
        match pre.spec_phase() {
            Phase::Done | Phase::Failed => Self::unchanged(pre, post),
            Phase::Write => match event {
                Event::Written(n) => if n == 0 {
                    Self::failed_with(pre, post, SessionError::NoProgress)
                } else if n > pre.spec_chunk().len() {
                    Self::failed_with(pre, post, SessionError::Overrun)
                } else {
                    Self::wrote(pre, post, n as int)
                },
                Event::WriteFailed(e) => Self::failed_with(pre, post, SessionError::Write(e)),
                _ => Self::failed_with(pre, post, SessionError::OutOfOrder),
            },
            Phase::Read => match event {
                Event::Received(bytes) => if bytes@.len() == 0 || pre.spec_received().len()
                    + bytes@.len() > 32 {
                    Self::read(pre, post, pre.spec_feedback())
                } else if pre.spec_received().len() + bytes@.len() == 32 {
                    Self::read(pre, post, feedback_angles(pre.spec_received() + bytes@))
                } else {
                    Self::received(pre, post, bytes@)
                },
                Event::ReadFailed(_) => Self::read(pre, post, pre.spec_feedback()),
                _ => Self::failed_with(pre, post, SessionError::OutOfOrder),
            },
        }
    }

    /// Steps that the machine can still take at most: one for every wire byte
    /// not yet taken and one for every feedback byte not yet read.
    pub open spec fn spec_remaining(&self) -> int {
        if self.spec_error() is Some {
            0
        } else {
            (self.spec_geometry().spec_rounds() - self.spec_round()) * (
            self.spec_geometry().spec_round_wire_len() + 32) - self.spec_pos() - if self.spec_fed() {
                32int
            } else {
                self.spec_received().len() as int
            }
        }
    }

    /// Starts the exchange of one frame. The pixel buffer must be a full
    /// frame of the geometry.
    pub fn new(geometry: Geometry, order: FeedbackOrder, pixels: Vec<u8>, command: [u8; 32]) -> (fx:
        FrameExchange)
        requires
            pixels@.len() == geometry.spec_frame_size(),
        ensures
            fx.wf(),
            fx.spec_geometry() == geometry,
            fx.spec_order() == order,
            fx.spec_pixels() == pixels@,
            fx.spec_command() == command@,
            fx.spec_round() == 0,
            fx.spec_pos() == 0,
            !fx.spec_fed(),
            fx.spec_error() is None,
            fx.spec_feedback() == Seq::new(6, |i: int| 0u32),
            fx.spec_received().len() == 0,
    {
        let _ = geometry.round_wire_len();
        let feedback = [0u32; 6];
        assert(feedback@ =~= Seq::new(6, |i: int| 0u32));
        assert(0 * geometry.spec_round_len() == 0);
        FrameExchange {
            geometry,
            order,
            pixels,
            command,
            round: 0,
            base: 0,
            pos: 0,
            fed: false,
            error: None,
            feedback,
            rx: [0u8; 32],
            rx_len: 0,
        }
    }

    /// What the machine waits for.
    pub fn phase(&self) -> (p: Phase)
        requires
            self.wf(),
        ensures
            p == self.spec_phase(),
    {
        if self.error.is_some() {
            Phase::Failed
        } else if self.round == self.geometry.rounds() {
            Phase::Done
        } else if self.order == FeedbackOrder::BeforeBody && !self.fed {
            Phase::Read
        } else if self.pos < self.geometry.round_wire_len() {
            Phase::Write
        } else {
            Phase::Read
        }
    }

    /// Whether the frame has been exchanged in full.
    pub fn is_done(&self) -> (b: bool)
        requires
            self.wf(),
        ensures
            b == (self.spec_phase() == Phase::Done),
    {
        self.phase() == Phase::Done
    }

    /// Why the session failed, if it did.
    pub fn error(&self) -> (e: Option<SessionError>)
        ensures
            e == self.spec_error(),
    {
        self.error
    }

    /// The latest feedback read during this frame: after the last round, the
    /// frame's reading. Zeros where no read has succeeded yet.
    pub fn feedback(&self) -> (angles: [u32; 6])
        ensures
            angles@ == self.spec_feedback(),
    {
        self.feedback
    }

    /// The round in progress.
    pub fn round(&self) -> (r: usize)
        ensures
            r == self.spec_round(),
    {
        self.round
    }

    /// Wire bytes of this frame that the transport has taken so far.
    pub fn sent(&self) -> (n: Option<usize>)
        requires
            self.wf(),
        ensures
            match n {
                Some(count) => count == self.spec_sent(),
                None => self.spec_sent() > usize::MAX,
            },
    {
        let len = self.geometry.round_wire_len();
        match self.round.checked_mul(len) {
            Some(whole) => whole.checked_add(self.pos),
            None => {
                assert(self.round * len + self.pos > usize::MAX);
                None
            },
        }
    }

    /// Hands the frame's outcome back once it is known: the feedback when
    /// the frame has been exchanged, the error when the session has failed,
    /// nothing while the exchange is under way.
    pub fn outcome(&self) -> (res: Option<Result<[u32; 6], SessionError>>)
        requires
            self.wf(),
        ensures
            match self.spec_phase() {
                Phase::Done => res matches Some(Ok(angles)) && angles@ == self.spec_feedback(),
                Phase::Failed => res matches Some(Err(e)) && Some(e) == self.spec_error(),
                _ => res is None,
            },
    {
        match self.error {
            Some(e) => Some(Err(e)),
            None => {
                if self.round == self.geometry.rounds() {
                    Some(Ok(self.feedback))
                } else {
                    None
                }
            },
        }
    }

    /// End, within the round's wire, of the packet that is being written.
    fn chunk_end(&self) -> (end: usize)
        requires
            self.wf(),
            self.spec_round() < self.spec_geometry().spec_rounds(),
            self.spec_pos() < self.spec_geometry().spec_round_wire_len(),
        ensures
            end == packet_end(self.spec_geometry(), self.spec_pos()),
            self.spec_pos() < end <= self.spec_geometry().spec_round_wire_len(),
            self.spec_pos() < self.spec_geometry().spec_body_len() ==> end
                <= self.spec_geometry().spec_body_len(),
    {
        let body_len = self.geometry.body_len();
        let size = self.geometry.packet_size();
        if self.pos < body_len {
            let k: usize = self.pos / size;
            proof {
                lemma_packet_of(self.geometry, self.pos as int);
            }
            (k + 1) * size
        } else {
            self.geometry.round_wire_len()
        }
    }

    /// What the driver has to do next. A `Write` holds what is left of the
    /// packet in progress, never bytes of two packets.
    pub fn action(&self) -> (a: Action)
        requires
            self.wf(),
        ensures
            match self.spec_phase() {
                Phase::Write => a matches Action::Write(bytes) && bytes@ == self.spec_chunk()
                    && bytes@.len() > 0,
                Phase::Read => a matches Action::Read(n) && n == 32 - self.spec_received().len()
                    && n > 0,
                Phase::Done => a is Done,
                Phase::Failed => a is Failed,
            },
    {
        match self.phase() {
            Phase::Failed => Action::Failed,
            Phase::Done => Action::Done,
            Phase::Read => Action::Read(32 - self.rx_len),
            Phase::Write => {
                let end = self.chunk_end();
                let round_len = self.geometry.round_len();
                let frame_size = self.geometry.frame_size();
                proof {
                    lemma_round_bounds(self.geometry, self.round as int);
                }
                let ghost wire = round_wire(
                    self.pixels@,
                    self.command@,
                    self.geometry,
                    self.round as int,
                );
                let pixel_end: usize = if end < round_len {
                    end
                } else {
                    round_len
                };
                let mut bytes: Vec<u8> = if self.pos < pixel_end {
                    slice_to_vec(
                        slice_subrange(
                            self.pixels.as_slice(),
                            self.base + self.pos,
                            self.base + pixel_end,
                        ),
                    )
                } else {
                    Vec::new()
                };
                let mut at: usize = if self.pos < round_len {
                    round_len
                } else {
                    self.pos
                };
                assert(bytes@ =~= wire.subrange(self.pos as int, at as int) || end < round_len);
                while at < end
                    invariant
                        self.wf(),
                        round_len == self.geometry.spec_round_len(),
                        wire == round_wire(
                            self.pixels@,
                            self.command@,
                            self.geometry,
                            self.round as int,
                        ),
                        wire.len() == round_len + 32,
                        round_len <= at,
                        self.pos <= at,
                        at <= end || end < round_len,
                        end <= round_len + 32,
                        end < round_len ==> bytes@ == wire.subrange(self.pos as int, end as int),
                        end >= round_len ==> bytes@ == wire.subrange(self.pos as int, at as int),
                    decreases end - at,
                {
                    bytes.push(self.command[at - round_len]);
                    at += 1;
                    assert(bytes@ =~= wire.subrange(self.pos as int, at as int));
                }
                Action::Write(bytes)
            },
        }
    }

    /// Takes the driver's report and moves on. An event that does not answer
    /// the action ends the session; events after the end change nothing.
    pub fn advance(&mut self, event: Event)
        requires
            old(self).wf(),
        ensures
            final(self).wf(),
            Self::step(old(self), event, final(self)),
    {
        match self.phase() {
            Phase::Done | Phase::Failed => {},
            Phase::Write => {
                match event {
                    Event::Written(n) => {
                        let end = self.chunk_end();
                        let rounds = self.geometry.rounds();
                        proof {
                            self.lemma_chunk_len();
                        }
                        if n == 0 {
                            self.error = Some(SessionError::NoProgress);
                        } else if n > end - self.pos {
                            self.error = Some(SessionError::Overrun);
                        } else {
                            let len = self.geometry.round_wire_len();
                            let round_len = self.geometry.round_len();
                            let frame_size = self.geometry.frame_size();
                            proof {
                                lemma_round_bounds(self.geometry, self.round as int);
                            }
                            if self.order == FeedbackOrder::BeforeBody && self.pos + n == len {
                                self.round = self.round + 1;
                                self.base = self.base + round_len;
                                self.pos = 0;
                                self.fed = false;
                            } else {
                                self.pos = self.pos + n;
                            }
                        }
                    },
                    Event::WriteFailed(e) => {
                        self.error = Some(SessionError::Write(e));
                    },
                    _ => {
                        self.error = Some(SessionError::OutOfOrder);
                    },
                }
            },
            Phase::Read => {
                let round_len = self.geometry.round_len();
                let frame_size = self.geometry.frame_size();
                proof {
                    lemma_round_bounds(self.geometry, self.round as int);
                }
                match event {
                    Event::Received(bytes) => {
                        let n = bytes.len();
                        if n == 0 || n > 32 - self.rx_len {
                            self.finish_read(round_len);
                        } else {
                            let ghost before = self.rx@.subrange(0, self.rx_len as int);
                            let start = self.rx_len;
                            let mut i: usize = 0;
                            while i < n
                                invariant
                                    0 <= i <= n,
                                    n == bytes@.len(),
                                    start + n <= 32,
                                    self.rx@.subrange(0, start + i) == before + bytes@.subrange(
                                        0,
                                        i as int,
                                    ),
                                    self.rx_len == start,
                                    self.geometry == old(self).geometry,
                                    self.order == old(self).order,
                                    self.pixels == old(self).pixels,
                                    self.command == old(self).command,
                                    self.round == old(self).round,
                                    self.base == old(self).base,
                                    self.pos == old(self).pos,
                                    self.fed == old(self).fed,
                                    self.error == old(self).error,
                                    self.feedback == old(self).feedback,
                                decreases n - i,
                            {
                                let ghost prior = self.rx@;
                                self.rx[start + i] = bytes[i];
                                assert(self.rx@ == prior.update(start + i, bytes@[i as int]));
                                i += 1;
                                assert(self.rx@.subrange(0, start + i) =~= prior.subrange(
                                    0,
                                    start + i - 1,
                                ).push(bytes@[i - 1]));
                                assert(bytes@.subrange(0, i as int) =~= bytes@.subrange(
                                    0,
                                    i - 1,
                                ).push(bytes@[i - 1]));
                                assert(self.rx@.subrange(0, start + i) =~= before
                                    + bytes@.subrange(0, i as int));
                            }
                            assert(bytes@.subrange(0, n as int) =~= bytes@);
                            if start + n == 32 {
                                assert(self.rx@ =~= self.rx@.subrange(0, 32));
                                self.feedback = decode_feedback(&self.rx);
                                self.finish_read(round_len);
                            } else {
                                self.rx_len = start + n;
                            }
                        }
                    },
                    Event::ReadFailed(_) => {
                        self.finish_read(round_len);
                    },
                    _ => {
                        self.error = Some(SessionError::OutOfOrder);
                    },
                }
            },
        }
    }

    /// Moves past the feedback read of the round in progress.
    fn finish_read(&mut self, round_len: usize)
        requires
            (FrameExchange { rx_len: 0, ..*old(self) }).wf(),
            old(self).spec_phase() == Phase::Read,
            round_len == old(self).spec_geometry().spec_round_len(),
            round_start(old(self).spec_geometry(), old(self).spec_round()) + round_len
                <= usize::MAX,
        ensures
            final(self).wf(),
            Self::read(old(self), final(self), old(self).spec_feedback()),
    {
        let rounds = self.geometry.rounds();
        proof {
            lemma_round_bounds(self.geometry, self.round as int);
        }
        self.rx_len = 0;
        match self.order {
            FeedbackOrder::AfterTail => {
                self.round = self.round + 1;
                self.base = self.base + round_len;
                self.pos = 0;
            },
            FeedbackOrder::BeforeBody => {
                self.fed = true;
            },
        }
    }
}

/// A body offset lies in the packet that its quotient by the packet size
/// names, and that packet ends within the body.
pub proof fn lemma_packet_of(g: Geometry, pos: int)
    requires
        g.valid(),
        0 <= pos < g.spec_body_len(),
    ensures
        0 <= pos / g.spec_packet_size() < g.spec_packets_per_round(),
        (pos / g.spec_packet_size()) * g.spec_packet_size() <= pos,
        pos < (pos / g.spec_packet_size() + 1) * g.spec_packet_size(),
        (pos / g.spec_packet_size() + 1) * g.spec_packet_size() <= g.spec_body_len(),
{
    let size = g.spec_packet_size();
    let n = g.spec_packets_per_round();
    let k = pos / size;
    vstd::arithmetic::div_mod::lemma_fundamental_div_mod(pos, size);
    vstd::arithmetic::div_mod::lemma_mod_bound(pos, size);
    vstd::arithmetic::div_mod::lemma_div_pos_is_pos(pos, size);
    assert(size * k == k * size) by (nonlinear_arith);
    assert((k + 1) * size == k * size + size) by (nonlinear_arith);
    assert(k < n) by (nonlinear_arith)
        requires
            k * size <= pos,
            pos < n * size,
            size > 0,
    ;
    assert((k + 1) * size <= n * size) by (nonlinear_arith)
        requires
            k + 1 <= n,
            size > 0,
    ;
}

/// The bytes that the machine hands out are the frame's wire, in order: what
/// it asks to write next begins at the first wire byte that the transport has
/// not taken, and does not reach beyond the round in progress. So no byte is
/// written out of order, none of a later round before the round in progress
/// is through.
pub proof fn lemma_chunk_continues_wire(fx: &FrameExchange)
    requires
        fx.wf(),
        fx.spec_phase() == Phase::Write,
    ensures
        0 <= fx.spec_sent(),
        fx.spec_sent() + fx.spec_chunk().len() <= (fx.spec_round() + 1)
            * fx.spec_geometry().spec_round_wire_len(),
        fx.spec_sent() + fx.spec_chunk().len() <= frame_wire(
            fx.spec_pixels(),
            fx.spec_command(),
            fx.spec_geometry(),
            fx.spec_geometry().spec_rounds(),
        ).len(),
        fx.spec_chunk() == frame_wire(
            fx.spec_pixels(),
            fx.spec_command(),
            fx.spec_geometry(),
            fx.spec_geometry().spec_rounds(),
        ).subrange(fx.spec_sent(), fx.spec_sent() + fx.spec_chunk().len()),
{
    fx.lemma_wf_bounds();
    fx.lemma_chunk_len();
    let g = fx.spec_geometry();
    let len = g.spec_round_wire_len();
    let r = fx.spec_round();
    let whole = frame_wire(fx.spec_pixels(), fx.spec_command(), g, g.spec_rounds());
    lemma_frame_wire_round(fx.spec_pixels(), fx.spec_command(), g, g.spec_rounds(), r);
    assert((r + 1) * len == r * len + len) by (nonlinear_arith);
    let end = packet_end(g, fx.spec_pos());
    assert(whole.subrange(r * len, r * len + len).subrange(fx.spec_pos(), end)
        =~= whole.subrange(r * len + fx.spec_pos(), r * len + end));
}

/// At the beginning of a packet the machine asks for the whole packet, as
/// the partition of the frame has it: body packet for body packet, then the
/// tail packet. A transport that takes what it is given is therefore called
/// once for every packet, and a frame costs as many writes as it has
/// packets.
pub proof fn lemma_whole_packets(fx: &FrameExchange)
    requires
        fx.wf(),
        fx.spec_phase() == Phase::Write,
    ensures
        fx.spec_pos() < fx.spec_geometry().spec_body_len() && fx.spec_pos()
            % fx.spec_geometry().spec_packet_size() == 0 ==> {
            &&& fx.spec_chunk().len() == fx.spec_geometry().spec_packet_size()
            &&& fx.spec_chunk() == body_packet(
                fx.spec_pixels(),
                fx.spec_geometry(),
                fx.spec_round(),
                fx.spec_pos() / fx.spec_geometry().spec_packet_size(),
            )
        },
        fx.spec_pos() == fx.spec_geometry().spec_body_len() ==> {
            &&& fx.spec_chunk().len() == fx.spec_geometry().spec_tail_len()
            &&& fx.spec_chunk() == tail_packet(
                fx.spec_pixels(),
                fx.spec_command(),
                fx.spec_geometry(),
                fx.spec_round(),
            )
        },
{
    fx.lemma_wf_bounds();
    fx.lemma_chunk_len();
    let g = fx.spec_geometry();
    let pos = fx.spec_pos();
    let size = g.spec_packet_size();
    lemma_round_bounds(g, fx.spec_round());
    if pos < g.spec_body_len() && pos % size == 0 {
        vstd::arithmetic::div_mod::lemma_fundamental_div_mod(pos, size);
        lemma_packet_of(g, pos);
        assert((pos / size + 1) * size == (pos / size) * size + size) by (nonlinear_arith);
        assert(size * (pos / size) == (pos / size) * size) by (nonlinear_arith);
        assert(fx.spec_chunk() =~= body_packet(
            fx.spec_pixels(),
            g,
            fx.spec_round(),
            pos / size,
        ));
    }
    if pos == g.spec_body_len() {
        assert(fx.spec_chunk() =~= tail_packet(
            fx.spec_pixels(),
            fx.spec_command(),
            g,
            fx.spec_round(),
        ));
    }
}

/// When the frame is done, the transport has taken every byte of the frame's
/// wire, and no more.
pub proof fn lemma_done_sent_all(fx: &FrameExchange)
    requires
        fx.wf(),
        fx.spec_phase() == Phase::Done,
    ensures
        fx.spec_sent() == fx.spec_geometry().spec_frame_wire_len(),
        fx.spec_sent() == frame_wire(
            fx.spec_pixels(),
            fx.spec_command(),
            fx.spec_geometry(),
            fx.spec_geometry().spec_rounds(),
        ).len(),
{
    fx.lemma_wf_bounds();
    lemma_frame_wire_len(
        fx.spec_pixels(),
        fx.spec_command(),
        fx.spec_geometry(),
        fx.spec_geometry().spec_rounds(),
    );
}

/// Every step of an exchange under way brings its end nearer: the number of
/// steps that can still be taken is never negative and falls with each event,
/// whatever the event. An exchange therefore ends, done or failed, after at
/// most as many events as the frame has wire bytes and feedback bytes.
pub proof fn lemma_step_decreases(pre: &FrameExchange, event: Event, post: &FrameExchange)
    requires
        pre.wf(),
        post.wf(),
        pre.spec_phase() == Phase::Write || pre.spec_phase() == Phase::Read,
        FrameExchange::step(pre, event, post),
    ensures
        0 <= post.spec_remaining() < pre.spec_remaining(),
        pre.spec_remaining() <= pre.spec_geometry().spec_rounds() * (
        pre.spec_geometry().spec_round_wire_len() + 32),
{
    pre.lemma_wf_bounds();
    post.lemma_wf_bounds();
    let g = pre.spec_geometry();
    let per = g.spec_round_wire_len() + 32;
    let left = g.spec_rounds() - pre.spec_round();
    assert(left * per >= per) by (nonlinear_arith)
        requires
            left >= 1,
            per >= 0,
    ;
    assert((left - 1) * per == left * per - per) by (nonlinear_arith);
    assert((left - 1) * per >= 0) by (nonlinear_arith)
        requires
            left >= 1,
            per >= 0,
    ;
    assert(left * per <= g.spec_rounds() * per) by (nonlinear_arith)
        requires
            left <= g.spec_rounds(),
            per >= 0,
    ;
    if pre.spec_phase() == Phase::Write {
        pre.lemma_chunk_len();
    }
}

/// The states that an exchange goes through under a sequence of events, each
/// state following from the one before by the machine's step, and the
/// exchange still under way in every state but the last.
pub open spec fn is_live_run(states: Seq<FrameExchange>, events: Seq<Event>) -> bool {
    &&& states.len() == events.len() + 1
    &&& forall|i: int| 0 <= i < states.len() ==> (#[trigger] states[i]).wf()
    &&& forall|i: int|
        0 <= i < events.len() ==> {
            &&& (states[i].spec_phase() == Phase::Write || states[i].spec_phase() == Phase::Read)
            &&& FrameExchange::step(&states[i], #[trigger] events[i], &states[i + 1])
        }
}

/// An exchange does not go on for ever: while it is under way it takes no
/// more events than its first state has steps left, whatever the transport
/// does. For a fresh exchange that is one event for every byte of the
/// frame's wire and of its feedback records.
pub proof fn lemma_run_is_bounded(states: Seq<FrameExchange>, events: Seq<Event>)
    requires
        is_live_run(states, events),
    ensures
        events.len() + states.last().spec_remaining() <= states[0].spec_remaining(),
        events.len() <= states[0].spec_remaining(),
    decreases events.len(),
{
    if events.len() == 0 {
        states[0].lemma_wf_bounds();
        lemma_remaining_is_natural(&states[0]);
    } else {
        let n = events.len() as int;
        let shorter_states = states.drop_last();
        let shorter_events = events.drop_last();
        assert(is_live_run(shorter_states, shorter_events)) by {
            assert forall|i: int| 0 <= i < shorter_events.len() implies {
                &&& (shorter_states[i].spec_phase() == Phase::Write
                    || shorter_states[i].spec_phase() == Phase::Read)
                &&& FrameExchange::step(
                    &shorter_states[i],
                    #[trigger] shorter_events[i],
                    &shorter_states[i + 1],
                )
            } by {
                assert(events[i] == shorter_events[i]);
            }
        }
        lemma_run_is_bounded(shorter_states, shorter_events);
        assert(shorter_states.last() == states[n - 1]);
        assert(FrameExchange::step(&states[n - 1], events[n - 1], &states[n]));
        lemma_step_decreases(&states[n - 1], events[n - 1], &states[n]);
    }
}

/// The number of steps left is never negative.
pub proof fn lemma_remaining_is_natural(fx: &FrameExchange)
    requires
        fx.wf(),
    ensures
        0 <= fx.spec_remaining(),
{
    fx.lemma_wf_bounds();
    let g = fx.spec_geometry();
    let per = g.spec_round_wire_len() + 32;
    let left = g.spec_rounds() - fx.spec_round();
    if fx.spec_error() is None {
        if left >= 1 {
            assert(left * per >= per) by (nonlinear_arith)
                requires
                    left >= 1,
                    per >= 0,
            ;
        } else {
            assert(left * per == 0) by (nonlinear_arith)
                requires
                    left == 0,
            ;
        }
    }
}

/// A fresh exchange can take at most one step for every wire byte of the
/// frame and one for every feedback byte.
pub proof fn lemma_fresh_remaining(fx: &FrameExchange)
    requires
        fx.wf(),
        fx.spec_round() == 0,
        fx.spec_pos() == 0,
        !fx.spec_fed(),
        fx.spec_error() is None,
        fx.spec_received().len() == 0,
    ensures
        fx.spec_remaining() == fx.spec_geometry().spec_frame_wire_len() + 32
            * fx.spec_geometry().spec_rounds(),
{
    let g = fx.spec_geometry();
    assert(g.spec_rounds() * (g.spec_round_wire_len() + 32) == g.spec_rounds()
        * g.spec_round_wire_len() + 32 * g.spec_rounds()) by (nonlinear_arith);
}

} // verus!
