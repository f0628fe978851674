//! Byte queues: the plain [`Buffer`] and the per-socket [`EventBuffer`].
use psocket::{TcpSocket, SOCKET};
use vstd::prelude::*;

verus! {

/// `a - b`, or zero where `b` is larger.
pub open spec fn sub_or_zero(a: int, b: int) -> int {
    if a >= b {
        a - b
    } else {
        0
    }
}

/// The smaller of two numbers.
pub open spec fn min_of(a: int, b: int) -> int {
    if a <= b {
        a
    } else {
        b
    }
}

/// What a [`Buffer`] is: its bytes and its two cursors.
pub ghost struct BufferModel {
    /// The bytes held, first to last.
    pub data: Seq<u8>,
    /// The read cursor.
    pub rpos: nat,
    /// The write cursor.
    pub wpos: nat,
}

impl BufferModel {
    /// The empty buffer with both cursors at zero.
    pub open spec fn empty() -> BufferModel {
        BufferModel { data: Seq::empty(), rpos: 0, wpos: 0 }
    }

    /// How many of the first bytes a drain of `n` takes out.
    pub open spec fn cut(self, n: int) -> int {
        min_of(n, self.data.len() as int)
    }

    /// The bytes that a drain of `n` takes out.
    pub open spec fn drained_bytes(self, n: int) -> Seq<u8>
        recommends
            0 <= n,
    {
        self.data.subrange(0, self.cut(n))
    }

    /// The buffer after a drain of `n`: the first `min(n, len)` bytes are
    /// gone and both cursors are lower by `n`, or zero.
    pub open spec fn drained(self, n: int) -> BufferModel
        recommends
            0 <= n,
    {
        BufferModel {
            data: self.data.subrange(self.cut(n), self.data.len() as int),
            rpos: sub_or_zero(self.rpos as int, n) as nat,
            wpos: sub_or_zero(self.wpos as int, n) as nat,
        }
    }

    /// How many bytes a read into room for `room` bytes copies: what is left
    /// behind the read cursor, as far as it fits.
    pub open spec fn read_count(self, room: int) -> int {
        min_of(sub_or_zero(self.data.len() as int, self.rpos as int), room)
    }

    /// The buffer after a read into room for `room` bytes: only the read
    /// cursor has moved.
    pub open spec fn after_read(self, room: int) -> BufferModel {
        BufferModel { rpos: (self.rpos + self.read_count(room)) as nat, ..self }
    }

    /// The buffer after `bytes` were written: the bytes held before, filled
    /// up with zeros to `wpos + bytes.len()` where they were fewer, with
    /// `bytes` laid over them from the write cursor on, and the write cursor
    /// behind what was written.
    pub open spec fn written(self, bytes: Seq<u8>) -> BufferModel {
        BufferModel {
            data: Seq::new(
                if self.data.len() >= self.wpos + bytes.len() {
                    self.data.len()
                } else {
                    (self.wpos + bytes.len()) as nat
                },
                |i: int|
                    if self.wpos <= i < self.wpos + bytes.len() {
                        bytes[i - self.wpos]
                    } else if i < self.data.len() {
                        self.data[i]
                    } else {
                        0u8
                    },
            ),
            rpos: self.rpos,
            wpos: self.wpos + bytes.len(),
        }
    }
}

/// Bytes written at a write cursor of zero come out first: a drain of as
/// many bytes as were written hands back exactly those bytes.
pub proof fn lemma_write_then_drain_collect(m: BufferModel, bytes: Seq<u8>)
    requires
        m.wpos == 0,
    ensures
        m.written(bytes).drained_bytes(bytes.len() as int) == bytes,
{
    assert(m.written(bytes).drained_bytes(bytes.len() as int) =~= bytes);
}

/// Wherever the write cursor stood, the bytes written lie in the buffer from
/// there on.
pub proof fn lemma_written_bytes_in_place(m: BufferModel, bytes: Seq<u8>)
    ensures
        m.written(bytes).data.subrange(m.wpos as int, (m.wpos + bytes.len()) as int) == bytes,
        m.written(bytes).data.len() >= m.data.len(),
        forall|i: int| 0 <= i < m.wpos && i < m.data.len() ==> m.written(bytes).data[i] == m.data[i],
{
    assert(m.written(bytes).data.subrange(m.wpos as int, (m.wpos + bytes.len()) as int) =~= bytes);
}

/// A drain of more bytes than are held, and of no fewer than either cursor
/// counts, leaves the empty buffer with both cursors at zero.
pub proof fn lemma_drain_past_end(m: BufferModel, n: int)
    requires
        n > m.data.len(),
        m.rpos <= n,
        m.wpos <= n,
    ensures
        m.drained(n) == BufferModel::empty(),
{
    assert(m.drained(n).data =~= Seq::<u8>::empty());
}

/// Draining twice is draining once by the sum.
pub proof fn lemma_drain_twice(m: BufferModel, a: int, b: int)
    requires
        0 <= a,
        0 <= b,
    ensures
        m.drained(a).drained(b) == m.drained(a + b),
{
    assert(m.drained(a).drained(b).data =~= m.drained(a + b).data);
}

/// A read from a buffer that holds nothing copies nothing.
pub proof fn lemma_read_empty(m: BufferModel, room: int)
    requires
        m.data.len() == 0,
        0 <= room,
    ensures
        m.read_count(room) == 0,
        m.after_read(room) == m,
{
}

/// A growable byte queue with a read cursor and a write cursor. The two
/// cursors are independent positions: neither is held below the length.
pub struct Buffer {
    val: Vec<u8>,
    rpos: usize,
    wpos: usize,
}

impl View for Buffer {
    type V = BufferModel;

    closed spec fn view(&self) -> BufferModel {
        BufferModel { data: self.val@, rpos: self.rpos as nat, wpos: self.wpos as nat }
    }
}

impl Buffer {
    /// An empty buffer with both cursors at zero.
    pub fn new() -> (r: Buffer)
        ensures
            r@ == BufferModel::empty(),
    {
        Buffer { val: Vec::new(), rpos: 0, wpos: 0 }
    }

    /// The bytes held.
    pub fn get_data(&self) -> (r: &Vec<u8>)
        ensures
            r@ == self@.data,
    {
        &self.val
    }

    /// The number of bytes held.
    pub fn len(&self) -> (r: usize)
        ensures
            r == self@.data.len(),
    {
        self.val.len()
    }

    /// Whether no byte is held.
    pub fn empty(&self) -> (r: bool)
        ensures
            r == (self@.data.len() == 0),
    {
        self.val.len() == 0
    }

    /// Moves the read cursor.
    pub fn set_rpos(&mut self, rpos: usize)
        ensures
            final(self)@ == (BufferModel { rpos: rpos as nat, ..old(self)@ }),
    {
        self.rpos = rpos;
    }

    /// The read cursor.
    pub fn get_rpos(&self) -> (r: usize)
        ensures
            r == self@.rpos,
    {
        self.rpos
    }

    /// Moves the write cursor.
    pub fn set_wpos(&mut self, wpos: usize)
        ensures
            final(self)@ == (BufferModel { wpos: wpos as nat, ..old(self)@ }),
    {
        self.wpos = wpos;
    }

    /// The write cursor.
    pub fn get_wpos(&self) -> (r: usize)
        ensures
            r == self@.wpos,
    {
        self.wpos
    }

    /// Takes the first `min(pos, len)` bytes out and hands them back; both
    /// cursors move down by `pos`, stopping at zero.
    pub fn drain_collect(&mut self, pos: usize) -> (r: Vec<u8>)
        ensures
            r@ == old(self)@.drained_bytes(pos as int),
            final(self)@ == old(self)@.drained(pos as int),
    {
        self.rpos = if self.rpos >= pos {
            self.rpos - pos
        } else {
            0
        };
        self.wpos = if self.wpos >= pos {
            self.wpos - pos
        } else {
            0
        };
        let cut: usize = if pos <= self.val.len() {
            pos
        } else {
            self.val.len()
        };
        let mut head = self.val.split_off(cut);
        std::mem::swap(&mut self.val, &mut head);
        head
    }

    /// Takes the first `min(pos, len)` bytes out; both cursors move down by
    /// `pos`, stopping at zero.
    pub fn drain(&mut self, pos: usize)
        ensures
            final(self)@ == old(self)@.drained(pos as int),
    {
        let _ = self.drain_collect(pos);
    }

    /// Takes every byte out and hands them back; both cursors go to zero.
    pub fn drain_all_collect(&mut self) -> (r: Vec<u8>)
        ensures
            r@ == old(self)@.data,
            final(self)@ == BufferModel::empty(),
    {
        self.rpos = 0;
        self.wpos = 0;
        let mut all: Vec<u8> = Vec::new();
        std::mem::swap(&mut self.val, &mut all);
        all
    }

    /// Takes every byte out; both cursors go to zero.
    pub fn drain_all(&mut self)
        ensures
            final(self)@ == BufferModel::empty(),
    {
        self.clear();
    }

    /// Empties the buffer; both cursors go to zero. Clearing a cleared
    /// buffer changes nothing.
    pub fn clear(&mut self)
        ensures
            final(self)@ == BufferModel::empty(),
    {
        self.val.clear();
        self.rpos = 0;
        self.wpos = 0;
    }

    /// Copies bytes from the read cursor on into `buf`, as many as are left
    /// behind the cursor and fit into `buf`, and moves the cursor past them.
    /// Hands back their number. The bytes stay in the buffer.
    pub fn read(&mut self, buf: &mut [u8]) -> (count: usize)
        ensures
            count == old(self)@.read_count(old(buf)@.len() as int),
            final(self)@ == old(self)@.after_read(old(buf)@.len() as int),
            final(buf)@.len() == old(buf)@.len(),
            forall|k: int|
                0 <= k < count ==> #[trigger] final(buf)@[k] == old(self)@.data[old(self)@.rpos
                    + k],
            forall|k: int| count <= k < old(buf)@.len() ==> #[trigger] final(buf)@[k] == old(buf)@[k],
    {
        let left: usize = if self.val.len() >= self.rpos {
            self.val.len() - self.rpos
        } else {
            0
        };
        let count: usize = if left > buf.len() {
            buf.len()
        } else {
            left
        };
        let mut i: usize = 0;
        while i < count
            invariant
                i <= count,
                count <= buf@.len(),
                count > 0 ==> self.rpos + count <= self.val@.len(),
                self.val@.len() <= usize::MAX,
                buf@.len() == old(buf)@.len(),
                *self == *old(self),
                forall|k: int| 0 <= k < i ==> #[trigger] buf@[k] == self.val@[self.rpos + k],
                forall|k: int| i <= k < buf@.len() ==> #[trigger] buf@[k] == old(buf)@[k],
            decreases count - i,
        {
            buf[i] = self.val[self.rpos + i];
            i += 1;
        }
        self.rpos = self.rpos + count;
        count
    }

    /// Lays `buf` into the buffer from the write cursor on, growing the
    /// buffer with zeros where it is too short, and moves the cursor past
    /// what was written. Hands back the number of bytes written, which is
    /// all of them.
    pub fn write(&mut self, buf: &[u8]) -> (count: usize)
        requires
            old(self)@.wpos + buf@.len() <= usize::MAX,
        ensures
            count == buf@.len(),
            final(self)@ == old(self)@.written(buf@),
    {
        let n: usize = buf.len();
        let end: usize = self.wpos + n;
        if self.val.len() < end {
            self.val.resize(end, 0);
        }
        if n == 0 {
            proof {
                assert(self.val@ =~= old(self)@.written(buf@).data);
            }
            return n;
        }
        let ghost grown = self.val@;
        let mut i: usize = 0;
        while i < n
            invariant
                i <= n,
                n == buf@.len(),
                end == self.wpos + n,
                self.wpos == old(self).wpos,
                self.rpos == old(self).rpos,
                self.val@.len() == grown.len(),
                end <= grown.len(),
                forall|k: int|
                    0 <= k < grown.len() ==> #[trigger] self.val@[k] == (if self.wpos <= k
                        < self.wpos + i {
                        buf@[k - self.wpos]
                    } else {
                        grown[k]
                    }),
            decreases n - i,
        {
            self.val[self.wpos + i] = buf[i];
            i += 1;
        }
        proof {
            assert(self.val@ =~= old(self)@.written(buf@).data);
        }
        self.wpos = end;
        n
    }
}

/// The socket type of `psocket`: an operating-system TCP socket. The library
/// carries it and asks it for its descriptor; it never reads or writes it.
#[verifier::external_type_specification]
#[verifier::external_body]
pub struct ExTcpSocket(TcpSocket);

/// The error type of `std::io`, carried in the last-error slot of a buffer.
#[verifier::external_type_specification]
#[verifier::external_body]
pub struct ExIoError(std::io::Error);

/// The descriptor that `TcpSocket::as_raw_socket` hands out for a socket: the
/// number it was made with, which no call through a shared reference changes.
pub uninterp spec fn raw_socket_of(socket: TcpSocket) -> SOCKET;

/// `TcpSocket::as_raw_socket`: the descriptor held in the socket.
#[verifier::external_body]
fn socket_descriptor(socket: &TcpSocket) -> (fd: SOCKET)
    ensures
        fd == raw_socket_of(*socket),
{
    socket.as_raw_socket()
}

/// The least size of the scratch slab.
pub const MIN_SCRATCH: usize = 1024;

/// What an [`EventBuffer`] is.
pub ghost struct EventBufferModel {
    /// Bytes received and not yet taken by the application.
    pub read: BufferModel,
    /// Bytes queued for sending.
    pub write: BufferModel,
    /// The socket owned.
    pub socket: TcpSocket,
    /// The scratch slab that a receive fills.
    pub scratch: Seq<u8>,
    /// Whether a send is under way.
    pub is_in_write: bool,
    /// Whether a receive is under way.
    pub is_in_read: bool,
    /// The last error seen on the socket.
    pub error: Result<(), std::io::Error>,
}

impl EventBufferModel {
    /// The descriptor of the socket owned.
    pub open spec fn fd(self) -> SOCKET {
        raw_socket_of(self.socket)
    }

    /// The buffer after `n` received bytes, lying at the start of the
    /// scratch slab, were laid into the read queue.
    pub open spec fn received(self, n: int) -> EventBufferModel
        recommends
            0 <= n <= self.scratch.len(),
    {
        EventBufferModel { read: self.read.written(self.scratch.subrange(0, n)), ..self }
    }

    /// The buffer after `bytes` were laid into the write queue.
    pub open spec fn queued(self, bytes: Seq<u8>) -> EventBufferModel {
        EventBufferModel { write: self.write.written(bytes), ..self }
    }

    /// The buffer after the first `n` bytes of the write queue were sent.
    pub open spec fn sent(self, n: int) -> EventBufferModel
        recommends
            0 <= n,
    {
        EventBufferModel { write: self.write.drained(n), ..self }
    }
}

/// What the reactor keeps for one socket: the socket itself, the queue of
/// received bytes, the queue of bytes to send, a scratch slab for receives,
/// the two in-flight marks and the last error.
pub struct EventBuffer {
    /// Bytes received and not yet taken by the application.
    pub read: Buffer,
    /// Bytes queued for sending.
    pub write: Buffer,
    /// The socket owned.
    pub socket: TcpSocket,
    /// The scratch slab that a receive fills.
    pub read_cache: Vec<u8>,
    /// Whether a send is under way.
    pub is_in_write: bool,
    /// Whether a receive is under way.
    pub is_in_read: bool,
    /// The last error seen on the socket.
    pub error: Result<(), std::io::Error>,
}

impl View for EventBuffer {
    type V = EventBufferModel;

    open spec fn view(&self) -> EventBufferModel {
        EventBufferModel {
            read: self.read@,
            write: self.write@,
            socket: self.socket,
            scratch: self.read_cache@,
            is_in_write: self.is_in_write,
            is_in_read: self.is_in_read,
            error: self.error,
        }
    }
}

impl EventBuffer {
    /// What a fresh buffer for `socket` is: empty queues, nothing in
    /// flight, no error, and a zeroed scratch slab of `capacity` bytes, or
    /// of [`MIN_SCRATCH`] where `capacity` is less.
    pub open spec fn new_model(socket: TcpSocket, capacity: usize) -> EventBufferModel {
        EventBufferModel {
            read: BufferModel::empty(),
            write: BufferModel::empty(),
            socket: socket,
            scratch: Seq::new(
                if capacity >= MIN_SCRATCH {
                    capacity as nat
                } else {
                    MIN_SCRATCH as nat
                },
                |i: int| 0u8,
            ),
            is_in_write: false,
            is_in_read: false,
            error: Ok(()),
        }
    }

    /// A buffer for `socket` with empty queues, nothing in flight, no error,
    /// and a zeroed scratch slab of `capacity` bytes, or of [`MIN_SCRATCH`]
    /// where `capacity` is less.
    pub fn new(socket: TcpSocket, capacity: usize) -> (r: EventBuffer)
        ensures
            r@ == EventBuffer::new_model(socket, capacity),
    {
        let capacity: usize = if capacity >= MIN_SCRATCH {
            capacity
        } else {
            MIN_SCRATCH
        };
        let read_cache: Vec<u8> = vec![0u8; capacity];
        proof {
            assert(read_cache@ =~= Seq::new(capacity as nat, |i: int| 0u8));
        }
        EventBuffer {
            read: Buffer::new(),
            write: Buffer::new(),
            socket: socket,
            read_cache: read_cache,
            is_in_write: false,
            is_in_read: false,
            error: Ok(()),
        }
    }

    /// The descriptor of the socket owned.
    pub fn as_raw_socket(&self) -> (fd: SOCKET)
        ensures
            fd == self@.fd(),
    {
        socket_descriptor(&self.socket)
    }

    /// Whether received bytes wait for the application.
    pub fn has_read_buffer(&self) -> (r: bool)
        ensures
            r == (self@.read.data.len() > 0),
    {
        !self.read.empty()
    }
}

} // verus!
