//! Synchronous mock IO stream and listener.
//!
//! Every receive, send and accept call blocks the calling thread until data
//! or a terminal channel state is available.  A stream owns two independent
//! byte pipes, one per direction; reading never disturbs the write side and
//! writing never disturbs the read side.

use vstd::prelude::*;

use crate::error::{Error, ErrorKind, Inner};
use crate::pipe;

verus! {

/// Synchronous mock IO stream
pub struct MockStream {
    read_half: ReadHalf,
    write_half: WriteHalf,
}

impl MockStream {
    /// Unconsumed tail of the most recently dequeued inbound chunk.
    pub closed spec fn remainder(&self) -> Seq<u8> {
        self.read_half.remainder()
    }

    /// Connects to a mock IO listener
    pub fn connect(handle: &Handle) -> (r: Result<MockStream, Error>)
        ensures
            r matches Ok(stream) ==> stream.remainder().len() == 0,
            r matches Err(e) ==> e.kind_spec() == ErrorKind::StreamConnectError,
    {
        let (stream_1, stream_2) = Self::pair();
        match handle.send(stream_2) {
            Ok(_) => Ok(stream_1),
            Err(e) => Err(e),
        }
    }

    /// Creates a pair of connected mock streams.
    ///
    /// The two streams are cross-wired: whatever one writes, the other reads,
    /// and the two directions share no state.  Both start with an empty
    /// remainder.
    pub fn pair() -> (r: (MockStream, MockStream))
        ensures
            r.0.remainder().len() == 0,
            r.1.remainder().len() == 0,
    {
        let (sender_1, receiver_1) = std::sync::mpsc::channel();
        let (sender_2, receiver_2) = std::sync::mpsc::channel();

        let stream_1 = MockStream {
            read_half: ReadHalf { receiver: receiver_1, remaining: Vec::new() },
            write_half: WriteHalf { sender: sender_2 },
        };

        let stream_2 = MockStream {
            read_half: ReadHalf { receiver: receiver_2, remaining: Vec::new() },
            write_half: WriteHalf { sender: sender_1 },
        };

        (stream_1, stream_2)
    }

    /// Splits the stream into separate read and write halves
    pub fn split(self) -> (r: (ReadHalf, WriteHalf))
        ensures
            r.0.remainder() == self.remainder(),
            r.1 == self.write_side(),
    {
        (self.read_half, self.write_half)
    }

    /// The outbound half, as a specification-level observable: reads leave
    /// it untouched.
    pub closed spec fn write_side(&self) -> WriteHalf {
        self.write_half
    }

    /// Reads from the inbound direction, exactly as [`ReadHalf::receive`]
    /// does; the write side is not touched.
    pub fn read(&mut self, buf: &mut [u8]) -> (r: Result<usize, Error>)
        ensures
            final(self).write_side() == old(self).write_side(),
            old(self).remainder().len() > 0 ==> r is Ok,
            r matches Ok(n) ==> (if old(self).remainder().len() > 0 {
                pipe::delivers(
                    old(self).remainder(),
                    old(buf)@,
                    n,
                    final(buf)@,
                    final(self).remainder(),
                )
            } else {
                pipe::delivers_some(old(buf)@, n, final(buf)@, final(self).remainder())
            }),
            r matches Err(e) ==> {
                &&& e.kind_spec() == ErrorKind::ChannelRecvError
                &&& old(self).remainder().len() == 0
                &&& final(self).remainder() == old(self).remainder()
                &&& final(buf)@ == old(buf)@
            },
    {
        self.read_half.receive(buf)
    }

    /// Writes one chunk to the outbound direction, exactly as
    /// [`WriteHalf::send`] does; the inbound remainder is not touched.
    pub fn write(&mut self, buf: &[u8]) -> (r: Result<usize, Error>)
        ensures
            r matches Ok(n) ==> n == buf@.len(),
            r matches Err(e) ==> e.kind_spec() == ErrorKind::ChannelSendError,
            *final(self) == *old(self),
    {
        self.write_half.write(buf)
    }

    /// Flushes the outbound direction: a no-op success, nothing is buffered
    /// beyond the channel itself.
    pub fn flush(&mut self) -> (r: Result<(), Error>)
        ensures
            r is Ok,
            *final(self) == *old(self),
    {
        self.write_half.flush()
    }
}

/// Read half of synchronous mock IO stream
#[derive(Debug)]
pub struct ReadHalf {
    receiver: std::sync::mpsc::Receiver<Vec<u8>>,
    remaining: Vec<u8>,
}

impl ReadHalf {
    /// Unconsumed tail of the most recently dequeued chunk, served before
    /// anything still queued in the channel.
    pub closed spec fn remainder(&self) -> Seq<u8> {
        self.remaining@
    }

    /// Receives bytes from the stream.
    ///
    /// Bytes are served from the remainder first; only when it is empty is a
    /// new chunk dequeued, blocking until one arrives or no producer remains.
    /// Of whatever is then available, exactly as much as fits in `buf` is
    /// delivered, and the unconsumed suffix becomes the new remainder.
    ///
    /// A zero-capacity request returns zero at once, without suspending.
    /// End-of-stream never surfaces as a silent zero-length read: once every
    /// producer is gone and the queue is drained, the call fails instead.
    pub fn receive(&mut self, buf: &mut [u8]) -> (r: Result<usize, Error>)
        ensures
            old(self).remainder().len() > 0 ==> r is Ok,
            r matches Ok(n) ==> (if old(self).remainder().len() > 0 {
                pipe::delivers(
                    old(self).remainder(),
                    old(buf)@,
                    n,
                    final(buf)@,
                    final(self).remainder(),
                )
            } else {
                pipe::delivers_some(old(buf)@, n, final(buf)@, final(self).remainder())
            }),
            r matches Err(e) ==> {
                &&& e.kind_spec() == ErrorKind::ChannelRecvError
                &&& old(self).remainder().len() == 0
                &&& final(self).remainder() == old(self).remainder()
                &&& final(buf)@ == old(buf)@
            },
    {
        if buf.len() == 0 {
            proof {
                if self.remaining@.len() == 0 {
                    assert(pipe::delivers(Seq::<u8>::empty(), old(buf)@, 0usize, buf@, self.remaining@)) by {
                        assert(pipe::read_front(Seq::<u8>::empty(), 0) + old(buf)@.skip(0) =~= old(buf)@);
                        assert(pipe::read_back(Seq::<u8>::empty(), 0) =~= self.remaining@);
                    }
                } else {
                    assert(pipe::delivers(self.remaining@, old(buf)@, 0usize, buf@, self.remaining@)) by {
                        assert(pipe::read_front(self.remaining@, 0) + old(buf)@.skip(0) =~= old(buf)@);
                        assert(pipe::read_back(self.remaining@, 0) =~= self.remaining@);
                    }
                }
            }
            return Ok(0);
        }
        if self.remaining.is_empty() {
            match self.receiver.recv() {
                Ok(chunk) => {
                    self.remaining = chunk;
                },
                Err(e) => {
                    return Err(Error::from_inner(Inner::SyncRecvError(e)));
                },
            }
        }
        let ghost avail: Seq<u8> = self.remaining@;
        let n = pipe::drain_into(&mut self.remaining, buf);
        proof {
            assert(pipe::delivers(avail, old(buf)@, n, buf@, self.remaining@));
            assert(pipe::delivers_some(old(buf)@, n, buf@, self.remaining@));
        }
        Ok(n)
    }

    /// Reads from the stream; the same operation as [`ReadHalf::receive`].
    pub fn read(&mut self, buf: &mut [u8]) -> (r: Result<usize, Error>)
        ensures
            old(self).remainder().len() > 0 ==> r is Ok,
            r matches Ok(n) ==> (if old(self).remainder().len() > 0 {
                pipe::delivers(
                    old(self).remainder(),
                    old(buf)@,
                    n,
                    final(buf)@,
                    final(self).remainder(),
                )
            } else {
                pipe::delivers_some(old(buf)@, n, final(buf)@, final(self).remainder())
            }),
            r matches Err(e) ==> {
                &&& e.kind_spec() == ErrorKind::ChannelRecvError
                &&& old(self).remainder().len() == 0
                &&& final(self).remainder() == old(self).remainder()
                &&& final(buf)@ == old(buf)@
            },
    {
        self.receive(buf)
    }

    /// Like [`ReadHalf::receive`], but gives up once `timeout` has elapsed
    /// with nothing arrived, reporting a timed-out failure instead of
    /// blocking on; only this bounded-wait entry point can produce
    /// [`ErrorKind::ChannelRecvTimeoutError`].
    pub fn receive_timeout(&mut self, buf: &mut [u8], timeout: core::time::Duration) -> (r: Result<
        usize,
        Error,
    >)
        ensures
            old(self).remainder().len() > 0 ==> r is Ok,
            r matches Ok(n) ==> (if old(self).remainder().len() > 0 {
                pipe::delivers(
                    old(self).remainder(),
                    old(buf)@,
                    n,
                    final(buf)@,
                    final(self).remainder(),
                )
            } else {
                pipe::delivers_some(old(buf)@, n, final(buf)@, final(self).remainder())
            }),
            r matches Err(e) ==> {
                &&& e.kind_spec() == ErrorKind::ChannelRecvTimeoutError
                &&& old(self).remainder().len() == 0
                &&& final(self).remainder() == old(self).remainder()
                &&& final(buf)@ == old(buf)@
            },
    {
        if buf.len() == 0 {
            proof {
                if self.remaining@.len() == 0 {
                    assert(pipe::delivers(Seq::<u8>::empty(), old(buf)@, 0usize, buf@, self.remaining@)) by {
                        assert(pipe::read_front(Seq::<u8>::empty(), 0) + old(buf)@.skip(0) =~= old(buf)@);
                        assert(pipe::read_back(Seq::<u8>::empty(), 0) =~= self.remaining@);
                    }
                } else {
                    assert(pipe::delivers(self.remaining@, old(buf)@, 0usize, buf@, self.remaining@)) by {
                        assert(pipe::read_front(self.remaining@, 0) + old(buf)@.skip(0) =~= old(buf)@);
                        assert(pipe::read_back(self.remaining@, 0) =~= self.remaining@);
                    }
                }
            }
            return Ok(0);
        }
        if self.remaining.is_empty() {
            match self.receiver.recv_timeout(timeout) {
                Ok(chunk) => {
                    self.remaining = chunk;
                },
                Err(e) => {
                    return Err(Error::from_inner(Inner::SyncRecvTimeoutError(e)));
                },
            }
        }
        let ghost avail: Seq<u8> = self.remaining@;
        let n = pipe::drain_into(&mut self.remaining, buf);
        proof {
            assert(pipe::delivers(avail, old(buf)@, n, buf@, self.remaining@));
            assert(pipe::delivers_some(old(buf)@, n, buf@, self.remaining@));
        }
        Ok(n)
    }
}

/// Write half of synchronous mock IO stream
#[derive(Debug, Clone)]
pub struct WriteHalf {
    sender: std::sync::mpsc::Sender<Vec<u8>>,
}

impl WriteHalf {
    /// Sends bytes to the stream.
    ///
    /// The whole slice is copied into one new chunk and enqueued atomically;
    /// there are no partial writes.  On success the full input length is
    /// returned; once the peer's read half has been dropped, the failure is
    /// reported immediately.
    pub fn send(&self, bytes: &[u8]) -> (r: Result<usize, Error>)
        ensures
            r matches Ok(n) ==> n == bytes@.len(),
            r matches Err(e) ==> e.kind_spec() == ErrorKind::ChannelSendError,
    {
        let chunk: Vec<u8> = vstd::slice::slice_to_vec(bytes);
        match self.sender.send(chunk) {
            Ok(_) => Ok(bytes.len()),
            Err(e) => Err(Error::from_inner(Inner::SyncSendError(e))),
        }
    }

    /// Writes to the stream; the same operation as [`WriteHalf::send`].
    pub fn write(&mut self, buf: &[u8]) -> (r: Result<usize, Error>)
        ensures
            r matches Ok(n) ==> n == buf@.len(),
            r matches Err(e) ==> e.kind_spec() == ErrorKind::ChannelSendError,
            *final(self) == *old(self),
    {
        self.send(buf)
    }

    /// Flushes the stream: a no-op success.
    pub fn flush(&mut self) -> (r: Result<(), Error>)
        ensures
            r is Ok,
            *final(self) == *old(self),
    {
        Ok(())
    }
}

/// Synchronous mock IO listener
#[derive(Debug)]
pub struct MockListener {
    receiver: std::sync::mpsc::Receiver<MockStream>,
}

impl MockListener {
    /// Creates a new synchronous mock listener, with the handle connecting
    /// parties use to reach it.
    pub fn new() -> (r: (MockListener, Handle)) {
        let (sender, receiver) = std::sync::mpsc::channel();

        (MockListener { receiver }, Handle { sender })
    }

    /// Accept a new connection. Returns a mock stream supplied by the sender.
    ///
    /// Streams arrive in the order the corresponding connects completed.
    /// Once every handle clone has been dropped and all pending connects
    /// delivered, every accept fails.
    pub fn accept(&self) -> (r: Result<MockStream, Error>)
        ensures
            r matches Err(e) ==> e.kind_spec() == ErrorKind::ChannelRecvError,
    {
        match self.receiver.recv() {
            Ok(stream) => Ok(stream),
            Err(e) => Err(Error::from_inner(Inner::SyncRecvError(e))),
        }
    }
}

/// Handle for synchronous mock IO listener used to connect to the listener.
///
/// A handle may be cloned and shared among many connecting parties; each
/// clone feeds the same listener.
#[derive(Clone)]
pub struct Handle {
    sender: std::sync::mpsc::Sender<MockStream>,
}

impl Handle {
    pub(crate) fn send(&self, mock_stream: MockStream) -> (r: Result<(), Error>)
        ensures
            r matches Err(e) ==> e.kind_spec() == ErrorKind::StreamConnectError,
    {
        match self.sender.send(mock_stream) {
            Ok(_) => Ok(()),
            Err(e) => Err(Error::from_inner(Inner::from(e))),
        }
    }
}

} // verus!
