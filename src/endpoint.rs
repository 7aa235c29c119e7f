use vstd::prelude::*;

verus! {

/// Bytes each endpoint can hold before reads on its side stop.
pub const BUFFER_SIZE: usize = 4096;

/// Readiness flags accumulated from the poller for one socket.
#[derive(PartialEq, Eq, Structural, Debug, Copy, Clone)]
pub struct Readiness {
    pub readable: bool,
    pub writable: bool,
    pub hup: bool,
    pub error: bool,
}

impl Readiness {
    pub open spec fn none() -> Readiness {
        Readiness { readable: false, writable: false, hup: false, error: false }
    }

    /// Flag-wise or.
    pub open spec fn union(self, other: Readiness) -> Readiness {
        Readiness {
            readable: self.readable || other.readable,
            writable: self.writable || other.writable,
            hup: self.hup || other.hup,
            error: self.error || other.error,
        }
    }

    pub fn empty() -> (r: Readiness)
        ensures
            r == Readiness::none(),
    {
        Readiness { readable: false, writable: false, hup: false, error: false }
    }

    /// Adds the flags of `other`; nothing is cleared.
    pub fn insert(&mut self, other: Readiness)
        ensures
            *final(self) == old(self).union(other),
    {
        self.readable = self.readable || other.readable;
        self.writable = self.writable || other.writable;
        self.hup = self.hup || other.hup;
        self.error = self.error || other.error;
    }

    /// The socket hung up or failed.
    pub fn is_closed(&self) -> (r: bool)
        ensures
            r == (self.hup || self.error),
    {
        self.hup || self.error
    }
}

/// Why a non-blocking read or write moved no bytes.
#[derive(PartialEq, Eq, Structural, Debug, Copy, Clone)]
pub enum IoFailure {
    /// The socket was not ready; expected between events.
    WouldBlock,
    /// Any other failure (reset, broken pipe, ...).
    Other,
}

/// What the buffered bytes become after one read attempt delivered `read`.
/// A full buffer is not read from, so the attempt changes nothing.
pub open spec fn after_read(pending: Seq<u8>, read: Result<Vec<u8>, IoFailure>) -> Seq<u8> {
    if pending.len() >= BUFFER_SIZE {
        pending
    } else {
        match read {
            Ok(data) => pending + data@,
            Err(_) => pending,
        }
    }
}

/// How many bytes one read attempt absorbs.
pub open spec fn read_count(pending: Seq<u8>, read: Result<Vec<u8>, IoFailure>) -> nat {
    (after_read(pending, read).len() - pending.len()) as nat
}

/// A write is attempted only with bytes to send and a peer handle to send them on.
pub open spec fn attempts_write(pending: Seq<u8>, has_peer: bool) -> bool {
    pending.len() > 0 && has_peer
}

/// How many bytes one write attempt, which reported `written`, took off the buffer.
pub open spec fn write_count(pending: Seq<u8>, has_peer: bool, written: Result<usize, IoFailure>) -> nat {
    if attempts_write(pending, has_peer) {
        match written {
            Ok(n) => n as nat,
            Err(_) => 0,
        }
    } else {
        0
    }
}

/// What the buffered bytes become after a write took the first `write_count` of them:
/// the rest, in order, from the start.
pub open spec fn after_write(pending: Seq<u8>, has_peer: bool, written: Result<usize, IoFailure>) -> Seq<u8> {
    pending.subrange(write_count(pending, has_peer, written) as int, pending.len() as int)
}

/// A write that accepts `n` of the `pending` bytes leaves the other
/// `pending.len() - n`, in their order, at the front.
pub proof fn lemma_partial_write_compaction(pending: Seq<u8>, n: usize)
    requires
        n < pending.len(),
    ensures
        after_write(pending, true, Ok(n)).len() == pending.len() - n,
        forall|k: int|
            0 <= k < pending.len() - n ==> #[trigger] after_write(pending, true, Ok(n))[k] == pending[n + k],
{
}

/// A reply to a read attempt fits the free tail of the buffer.
pub open spec fn read_fits(pending: Seq<u8>, read: Result<Vec<u8>, IoFailure>) -> bool {
    pending.len() < BUFFER_SIZE ==> match read {
        Ok(data) => pending.len() + data@.len() <= BUFFER_SIZE,
        Err(_) => true,
    }
}

/// A reply to a write attempt counts no more bytes than were offered.
pub open spec fn write_fits(pending: Seq<u8>, has_peer: bool, written: Result<usize, IoFailure>) -> bool {
    attempts_write(pending, has_peer) ==> match written {
        Ok(n) => n <= pending.len(),
        Err(_) => true,
    }
}

/// One side of a relayed connection: its readiness, the bytes read from its
/// socket and not yet written to the peer's, and whether a write handle to
/// the peer's socket is installed.
pub struct EndPoint {
    state: Readiness,
    buffer: Vec<u8>,
    buffer_index: usize,
    peer_stream: bool,
}

impl EndPoint {
    /// The buffer has its full size and the cursor stays inside it.
    pub closed spec fn wf(&self) -> bool {
        &&& self.buffer@.len() == BUFFER_SIZE
        &&& self.buffer_index <= BUFFER_SIZE
    }

    /// The unsent bytes, oldest first.
    pub closed spec fn pending(&self) -> Seq<u8> {
        self.buffer@.subrange(0, self.buffer_index as int)
    }

    pub closed spec fn readiness(&self) -> Readiness {
        self.state
    }

    pub closed spec fn has_peer(&self) -> bool {
        self.peer_stream
    }

    /// The buffered bytes never exceed the capacity.
    pub proof fn lemma_used_len_bounded(ep: &EndPoint)
        requires
            ep.wf(),
        ensures
            ep.pending().len() <= BUFFER_SIZE,
    {
    }

    pub fn new() -> (r: EndPoint)
        ensures
            r.wf(),
            r.pending() == Seq::<u8>::empty(),
            r.readiness() == Readiness::none(),
            !r.has_peer(),
    {
        EndPoint {
            state: Readiness::empty(),
            buffer: vec![0u8; BUFFER_SIZE],
            buffer_index: 0,
            peer_stream: false,
        }
    }

    /// Records the outcome of duplicating the peer's socket for writing: a
    /// failed duplication leaves the endpoint as it was.
    pub fn set_peer_stream(&mut self, duplicated: bool)
        requires
            old(self).wf(),
        ensures
            final(self).wf(),
            final(self).has_peer() == (old(self).has_peer() || duplicated),
            final(self).pending() == old(self).pending(),
            final(self).readiness() == old(self).readiness(),
    {
        if duplicated {
            self.peer_stream = true;
        }
    }

    pub fn used_len(&self) -> (r: usize)
        requires
            self.wf(),
        ensures
            r == self.pending().len(),
            r <= BUFFER_SIZE,
    {
        self.buffer_index
    }

    /// Room left for the next read.
    pub fn free_space(&self) -> (r: usize)
        requires
            self.wf(),
        ensures
            r == BUFFER_SIZE - self.pending().len(),
    {
        BUFFER_SIZE - self.buffer_index
    }

    /// The whole buffer; its first `used_len()` bytes are the unsent ones.
    pub fn buffered(&self) -> (r: &[u8])
        requires
            self.wf(),
        ensures
            r@.len() == BUFFER_SIZE,
            r@.subrange(0, self.pending().len() as int) == self.pending(),
    {
        self.buffer.as_slice()
    }

    pub fn state(&self) -> (r: Readiness)
        ensures
            r == self.readiness(),
    {
        self.state
    }

    /// Whether a read of this side's socket would be attempted now: it was
    /// reported readable and the buffer has room.
    pub fn wants_read(&self) -> (r: bool)
        requires
            self.wf(),
        ensures
            r == (self.readiness().readable && self.pending().len() < BUFFER_SIZE),
    {
        self.state.readable && self.buffer_index < BUFFER_SIZE
    }

    /// Whether a write to the peer would be attempted now.
    pub fn has_pending_write(&self) -> (r: bool)
        requires
            self.wf(),
        ensures
            r == attempts_write(self.pending(), self.has_peer()),
    {
        self.buffer_index > 0 && self.peer_stream
    }

    pub fn set_state(&mut self, state: Readiness)
        requires
            old(self).wf(),
        ensures
            final(self).wf(),
            final(self).readiness() == state,
            final(self).pending() == old(self).pending(),
            final(self).has_peer() == old(self).has_peer(),
    {
        self.state = state;
    }

    /// Takes in what one non-blocking read of the socket delivered into the
    /// free tail of the buffer. A full buffer is not read from: nothing
    /// changes and 0 is returned. A failed read (would block or otherwise)
    /// also yields 0 and changes nothing.
    pub fn absorb(&mut self, read: Result<Vec<u8>, IoFailure>) -> (r: usize)
        requires
            old(self).wf(),
            read_fits(old(self).pending(), read),
        ensures
            final(self).wf(),
            final(self).pending() == after_read(old(self).pending(), read),
            r == read_count(old(self).pending(), read),
            old(self).pending().len() >= BUFFER_SIZE ==> r == 0 && *final(self) == *old(self),
            read is Err ==> *final(self) == *old(self),
            final(self).readiness() == old(self).readiness(),
            final(self).has_peer() == old(self).has_peer(),
    {
        if self.buffer_index >= BUFFER_SIZE {
            return 0;
        }
        match read {
            Ok(data) => {
                let start: usize = self.buffer_index;
                let n: usize = data.len();
                let mut i: usize = 0;
                while i < n
                    invariant
                        start + n <= BUFFER_SIZE,
                        n == data@.len(),
                        i <= n,
                        self.buffer@.len() == BUFFER_SIZE,
                        self.buffer_index == start,
                        self.buffer@.subrange(0, start as int) == old(self).buffer@.subrange(0, start as int),
                        forall|k: int| 0 <= k < i ==> self.buffer@[start + k] == data@[k],
                        self.state == old(self).state,
                        self.peer_stream == old(self).peer_stream,
                    decreases n - i,
                {
                    self.buffer.set(start + i, data[i]);
                    i = i + 1;
                }
                self.buffer_index = start + n;
                assert(self.buffer@.subrange(0, (start + n) as int) =~= old(self).pending() + data@);
                n
            },
            Err(_) => 0,
        }
    }

    /// Takes in the reply to one non-blocking write of the unsent bytes to
    /// the peer. With nothing to send, or no peer handle, no write happens:
    /// nothing changes and 0 is returned. When `n` bytes were accepted the
    /// rest moves to the front of the buffer, in order; a failed write
    /// changes nothing and yields 0.
    pub fn pipe_to_peer(&mut self, written: Result<usize, IoFailure>) -> (r: usize)
        requires
            old(self).wf(),
            write_fits(old(self).pending(), old(self).has_peer(), written),
        ensures
            final(self).wf(),
            final(self).pending() == after_write(old(self).pending(), old(self).has_peer(), written),
            r == write_count(old(self).pending(), old(self).has_peer(), written),
            !attempts_write(old(self).pending(), old(self).has_peer()) ==> r == 0 && *final(self) == *old(self),
            old(self).pending().len() == 0 ==> r == 0 && *final(self) == *old(self),
            written is Err ==> *final(self) == *old(self),
            final(self).readiness() == old(self).readiness(),
            final(self).has_peer() == old(self).has_peer(),
    {
        if self.buffer_index == 0 || !self.peer_stream {
            return 0;
        }
        match written {
            Ok(n_written) => {
                let len: usize = self.buffer_index;
                let left: usize = len - n_written;
                let mut i: usize = 0;
                while i < left
                    invariant
                        len <= BUFFER_SIZE,
                        n_written + left == len,
                        i <= left,
                        self.buffer@.len() == BUFFER_SIZE,
                        self.buffer_index == len,
                        forall|k: int| 0 <= k < i ==> self.buffer@[k] == old(self).buffer@[n_written + k],
                        forall|k: int| i <= k < BUFFER_SIZE ==> self.buffer@[k] == old(self).buffer@[k],
                        self.state == old(self).state,
                        self.peer_stream == old(self).peer_stream,
                    decreases left - i,
                {
                    let b: u8 = self.buffer[n_written + i];
                    self.buffer.set(i, b);
                    i = i + 1;
                }
                self.buffer_index = left;
                assert(self.pending() =~= old(self).pending().subrange(n_written as int, len as int));
                n_written
            },
            Err(_) => 0,
        }
    }
}

} // verus!
