//! Moving an exact number of bytes over a transport that may take or bring
//! fewer bytes at a time than it is asked for.
//!
//! The transport is a two-way byte channel, a serial line or a pair of USB
//! bulk endpoints, whose calls block for at most a timeout. A call may move
//! only part of what it is given. The counter here keeps track of a transfer
//! that has to be complete: after every call it says how much is left, and
//! it ends the transfer where a call moved nothing.

use vstd::prelude::*;

verus! {

/// How a transport call went wrong.
#[derive(Clone, Copy, Debug, PartialEq, Eq, Structural)]
pub enum TransportError {
    /// The call did not finish within the transport's timeout.
    Timeout,
    /// The device is gone.
    Disconnected,
    /// Any other failure of the transport.
    Other,
}

impl TransportError {
    /// The error in words.
    pub open spec fn spec_message(self) -> Seq<char> {
        match self {
            TransportError::Timeout => "the transport timed out"@,
            TransportError::Disconnected => "the device is gone"@,
            TransportError::Other => "the transport failed"@,
        }
    }

    /// The error in words.
    pub fn message(self) -> (text: &'static str)
        ensures
            text@ == self.spec_message(),
    {
        match self {
            TransportError::Timeout => "the transport timed out",
            TransportError::Disconnected => "the device is gone",
            TransportError::Other => "the transport failed",
        }
    }
}

/// Why a transfer ended before it was complete.
#[derive(Clone, Copy, Debug, PartialEq, Eq, Structural)]
pub enum TransferError {
    /// The transport failed.
    Transport(TransportError),
    /// A call moved no byte.
    NoProgress,
    /// A call claims to have moved more bytes than it was given.
    Overrun,
}

/// The progress of a transfer of an exact number of bytes.
#[derive(Clone, Copy, Debug)]
pub struct ExactTransfer {
    total: usize,
    done: usize,
}

impl ExactTransfer {
    #[verifier::type_invariant]
    spec fn inv(&self) -> bool {
        self.done <= self.total
    }

    /// Bytes to move in all.
    pub closed spec fn spec_total(&self) -> int {
        self.total as int
    }

    /// Bytes moved so far.
    pub closed spec fn spec_done(&self) -> int {
        self.done as int
    }

    /// Bytes still to move.
    pub open spec fn spec_remaining(&self) -> int {
        self.spec_total() - self.spec_done()
    }

    /// A transfer of `total` bytes, none of them moved yet.
    pub fn new(total: usize) -> (transfer: Self)
        ensures
            transfer.spec_total() == total,
            transfer.spec_done() == 0,
    {
        ExactTransfer { total, done: 0 }
    }

    /// Bytes moved so far: where the next call begins.
    pub fn done(&self) -> (n: usize)
        ensures
            n == self.spec_done(),
            0 <= self.spec_done() <= self.spec_total(),
    {
        proof {
            use_type_invariant(self);
        }
        self.done
    }

    /// Bytes still to move: what the next call is given.
    pub fn remaining(&self) -> (n: usize)
        ensures
            n == self.spec_remaining(),
            0 <= self.spec_done() <= self.spec_total(),
    {
        proof {
            use_type_invariant(self);
        }
        self.total - self.done
    }

    /// Whether all bytes have been moved.
    pub fn is_complete(&self) -> (complete: bool)
        ensures
            complete == (self.spec_remaining() == 0),
    {
        proof {
            use_type_invariant(self);
        }
        self.done == self.total
    }

    /// Takes note of what a call did. A call that moved between one byte
    /// and all that was left brings the transfer that much further; one that
    /// failed, moved nothing, or claims more than was left ends the transfer
    /// with an error and leaves the count as it was.
    pub fn advance(&mut self, outcome: Result<usize, TransportError>) -> (res: Result<
        (),
        TransferError,
    >)
        ensures
            final(self).spec_total() == old(self).spec_total(),
            match outcome {
                Ok(n) => if n == 0 {
                    res == Err::<(), TransferError>(TransferError::NoProgress)
                } else if n > old(self).spec_remaining() {
                    res == Err::<(), TransferError>(TransferError::Overrun)
                } else {
                    res is Ok && final(self).spec_done() == old(self).spec_done() + n
                },
                Err(e) => res == Err::<(), TransferError>(TransferError::Transport(e)),
            },
            res is Err ==> final(self).spec_done() == old(self).spec_done(),
    {
        proof {
            use_type_invariant(&*self);
        }
        match outcome {
            Ok(n) => {
                if n == 0 {
                    Err(TransferError::NoProgress)
                } else if n > self.total - self.done {
                    Err(TransferError::Overrun)
                } else {
                    self.done = self.done + n;
                    Ok(())
                }
            },
            Err(e) => Err(TransferError::Transport(e)),
        }
    }
}

/// Every call that does not end a transfer brings it nearer to its end, so
/// a transfer of `total` bytes is complete, or has failed, after at most
/// `total` calls.
pub proof fn lemma_transfer_progress(pre: ExactTransfer, n: usize, post: ExactTransfer)
    requires
        0 <= pre.spec_done() <= pre.spec_total(),
        1 <= n <= pre.spec_remaining(),
        post.spec_total() == pre.spec_total(),
        post.spec_done() == pre.spec_done() + n,
    ensures
        0 <= post.spec_remaining() < pre.spec_remaining(),
        post.spec_remaining() == 0 <==> n == pre.spec_remaining(),
{
}

} // verus!
