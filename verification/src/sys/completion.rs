//! The selector of a completion backend: the driver posts an accept, a
//! receive or a send to the operating system and hears later that it is
//! done, and how many bytes it moved.
use crate::event_buffer::{EventBuffer, EventBufferModel};
use crate::event_entry::{Callbacks, EntryModel, EventEntry};
use crate::event_flags::{EventFlags, Flag};
use crate::event_loop::RetValue;
use crate::sys::{keyed_by_socket, Event, EventModel, EventTable, Outcome, SelectorError};
use crate::{secs_of, subsec_nanos_of};
use psocket::SOCKET;
use std::time::Duration;
use vstd::prelude::*;
use vstd::slice::slice_subrange;

verus! {

/// The wait that never ends, as the completion port takes it.
pub const INFINITE: u32 = 0xFFFF_FFFF;

/// The wait, in milliseconds, that stands for a span of `secs` seconds and
/// `subsec_nanos` nanoseconds, or for no limit where none is given: no
/// limit is [`INFINITE`]; a span is its whole milliseconds, the greatest
/// `u32` where they are more, and one less than [`INFINITE`] where they do
/// not fit into a `u64`.
pub open spec fn wait_millis(span: Option<(u64, u32)>) -> u32 {
    match span {
        None => INFINITE,
        Some((secs, subsec_nanos)) => {
            let ms = secs * 1000 + subsec_nanos / 1_000_000;
            if ms > u64::MAX {
                (INFINITE - 1) as u32
            } else if ms > u32::MAX {
                u32::MAX
            } else {
                ms as u32
            }
        },
    }
}

/// The wait, in milliseconds, for a span given by its parts; see
/// [`wait_millis`].
pub fn dur2ms_parts(span: Option<(u64, u32)>) -> (r: u32)
    ensures
        r == wait_millis(span),
{
    match span {
        None => INFINITE,
        Some((secs, subsec_nanos)) => {
            let extra: u64 = (subsec_nanos / 1_000_000) as u64;
            if secs > (u64::MAX - extra) / 1000 {
                assert(secs * 1000 + extra > u64::MAX) by (nonlinear_arith)
                    requires
                        secs > (u64::MAX - extra) / 1000,
                        extra <= u64::MAX,
                ;
                INFINITE - 1
            } else {
                assert(secs * 1000 + extra <= u64::MAX) by (nonlinear_arith)
                    requires
                        secs <= (u64::MAX - extra) / 1000,
                        extra <= u64::MAX,
                ;
                let ms: u64 = secs * 1000 + extra;
                if ms > 0xFFFF_FFFF {
                    u32::MAX
                } else {
                    ms as u32
                }
            }
        },
    }
}

/// The wait, in milliseconds, for `dur`, or for no limit where none is
/// given; see [`wait_millis`].
pub fn dur2ms(dur: Option<Duration>) -> (r: u32)
    ensures
        r == wait_millis(
            match dur {
                Some(d) => Some((secs_of(d), subsec_nanos_of(d))),
                None => None,
            },
        ),
{
    match dur {
        Some(d) => dur2ms_parts(Some((d.as_secs(), d.subsec_nanos()))),
        None => dur2ms_parts(None),
    }
}

/// The operations that the driver posts for a socket.
#[derive(Clone, Copy, Debug, PartialEq, Eq, Structural)]
pub struct PostPlan {
    /// Post an accept.
    pub accept: bool,
    /// Post a receive into the scratch slab.
    pub read: bool,
    /// Send the whole write queue.
    pub write: bool,
}

/// What the driver does with a completion on the read side of a socket.
#[derive(Clone, Copy, Debug, PartialEq, Eq, Structural)]
pub enum ReadDone {
    /// Nothing: the socket is not registered.
    Ignore,
    /// Finish the accept, hand the connection or the error to the accept
    /// callback, and report its answer.
    Accept,
    /// The completion is the sentinel that ends the registration: take the
    /// row out and run the end callback.
    Teardown,
    /// No byte came: the peer closed. Unregister the socket.
    Unregister,
    /// Bytes wait in the read queue: run the read callback and report its
    /// answer.
    Deliver,
    /// No callback is due: report `OK` as the answer.
    Idle,
}

/// What the driver does after a callback on a socket.
#[derive(Clone, Copy, Debug, PartialEq, Eq, Structural)]
pub enum Next {
    /// Unregister the socket.
    Unregister,
    /// Nothing more.
    Stop,
    /// Post the operation anew: the accept, the receive, or the send of the
    /// write queue.
    Post,
}

/// Whether an interest set is armed again after a delivery on the read
/// side.
pub open spec fn rearms_read(flags: Set<Flag>) -> bool {
    flags.contains(Flag::Persist) || flags.contains(Flag::ReadPersist)
}

impl<C: Callbacks> EventModel<C> {
    /// The row after `delta` was merged into its registration.
    pub open spec fn merged(self, is_del: bool, delta: EntryModel<C>) -> Self {
        EventModel { entry: self.entry.merged(is_del, delta), ..self }
    }

    /// The row with its read mark set to `mark`.
    pub open spec fn with_read_mark(self, mark: bool) -> Self {
        EventModel { buffer: EventBufferModel { is_in_read: mark, ..self.buffer }, ..self }
    }

    /// The row with its write mark set to `mark`.
    pub open spec fn with_write_mark(self, mark: bool) -> Self {
        EventModel { buffer: EventBufferModel { is_in_write: mark, ..self.buffer }, ..self }
    }

    /// Whether an accept is posted now, and the row then: one is posted
    /// where none and no receive is under way, and counts as under way from
    /// then on.
    pub open spec fn begin_accept(self) -> (Self, bool) {
        if self.buffer.is_in_read {
            (self, false)
        } else {
            (self.with_read_mark(true), true)
        }
    }

    /// Whether a receive is posted now, and the row then: one is posted
    /// where teardown has not begun and none is under way, and counts as
    /// under way from then on.
    pub open spec fn begin_read(self) -> (Self, bool) {
        if self.is_end || self.buffer.is_in_read {
            (self, false)
        } else {
            (self.with_read_mark(true), true)
        }
    }

    /// Whether the write queue is sent now: where no send is under way,
    /// bytes are queued and teardown has not begun.
    pub open spec fn begin_write(self) -> bool {
        !(self.buffer.is_in_write || self.buffer.write.data.len() == 0 || self.is_end)
    }

    /// What is posted for the row as its interest set asks, and the row
    /// then: for a listener an accept, else a receive for `Read` and a send
    /// for `Write`.
    pub open spec fn checked(self) -> (Self, PostPlan) {
        if self.entry.flags.contains(Flag::Accept) {
            (
                self.begin_accept().0,
                PostPlan { accept: self.begin_accept().1, read: false, write: false },
            )
        } else {
            let after = if self.entry.flags.contains(Flag::Read) {
                self.begin_read().0
            } else {
                self
            };
            (
                after,
                PostPlan {
                    accept: false,
                    read: self.entry.flags.contains(Flag::Read) && self.begin_read().1,
                    write: self.entry.flags.contains(Flag::Write) && after.begin_write(),
                },
            )
        }
    }

    /// The row after a post failed with `e`: the error is kept and nothing
    /// counts as under way on the read side.
    pub open spec fn post_failed(self, e: std::io::Error) -> Self {
        self.failed(e).with_read_mark(false)
    }

    /// The row after a completion on its read side, and what to do with
    /// it: `ended` says that the completion carries the sentinel, `bytes`
    /// how many bytes it moved.
    pub open spec fn read_done(self, ended: bool, bytes: usize) -> (Self, ReadDone) {
        if self.is_accept() {
            (self.with_read_mark(false), ReadDone::Accept)
        } else if ended {
            (self, ReadDone::Teardown)
        } else if bytes == 0 {
            (self, ReadDone::Unregister)
        } else {
            let after = (EventModel {
                buffer: self.buffer.received(bytes as int),
                ..self
            }).with_read_mark(false);
            (
                after,
                if after.buffer.read.data.len() > 0 {
                    ReadDone::Deliver
                } else {
                    ReadDone::Idle
                },
            )
        }
    }

    /// The row after the accept callback answered `ret`, and what to do
    /// next. `OVER` ends the registration. Else a listener that is not
    /// armed again loses its interest in input, and one that still listens
    /// gets its next accept.
    pub open spec fn accept_delivered(self, ret: RetValue) -> (Self, Next) {
        if ret == RetValue::OVER {
            (self, Next::Unregister)
        } else {
            let kept = if rearms_read(self.entry.flags) {
                self
            } else {
                self.with_flags(self.entry.flags.remove(Flag::Read).remove(Flag::Accept))
            };
            if !kept.entry.flags.contains(Flag::Accept) {
                (kept, Next::Stop)
            } else if kept.begin_accept().1 {
                (kept.begin_accept().0, Next::Post)
            } else {
                (kept, Next::Stop)
            }
        }
    }

    /// The row after the read callback answered `ret`, and what to do
    /// next. `OVER` ends the registration. Else a registration that is not
    /// armed again loses its interest in input, and one that still reads
    /// gets its next receive.
    pub open spec fn read_delivered(self, ret: RetValue) -> (Self, Next) {
        if ret == RetValue::OVER {
            (self, Next::Unregister)
        } else {
            let kept = if rearms_read(self.entry.flags) {
                self
            } else {
                self.with_flags(self.entry.flags.remove(Flag::Read))
            };
            if !kept.entry.flags.contains(Flag::Read) {
                (kept, Next::Stop)
            } else if kept.begin_read().1 {
                (kept.begin_read().0, Next::Post)
            } else {
                (kept, Next::Stop)
            }
        }
    }

    /// What to do after the write callback answered `ret`: `OVER` ends the
    /// registration; else what is left in the queue is sent.
    pub open spec fn write_delivered(self, ret: RetValue) -> Next {
        if ret == RetValue::OVER {
            Next::Unregister
        } else if self.buffer.write.data.len() > 0 && self.begin_write() {
            Next::Post
        } else {
            Next::Stop
        }
    }

    /// The row after the send of its queue was posted, and the number of
    /// bytes that went out at once: `sent` is that number where the
    /// operating system gave one. Those bytes leave the queue. While bytes
    /// are left in the queue a send counts as under way.
    pub open spec fn write_posted(self, sent: Option<usize>) -> (Self, usize) {
        let count: usize = match sent {
            Some(n) => n,
            None => 0,
        };
        let after = EventModel { buffer: self.buffer.sent(count as int), ..self };
        (after.with_write_mark(after.buffer.is_in_write || after.buffer.write.data.len() > 0), count)
    }
}

/// One where `posted` holds, else none.
pub open spec fn one_if(posted: bool) -> nat {
    if posted {
        1
    } else {
        0
    }
}

/// Whether the marks of a row cover the operations that are under way on
/// its socket: `reads` accepts or receives and `writes` sends. A side whose
/// mark is clear has none under way, and no side has more than one.
pub open spec fn covers<C: Callbacks>(row: EventModel<C>, reads: nat, writes: nat) -> bool {
    reads <= one_if(row.buffer.is_in_read) && writes <= one_if(row.buffer.is_in_write)
}

/// At most one accept or receive and at most one send is under way on a
/// socket at any time. The marks of a row cover what is under way, and
/// every step keeps it so: a step that posts an operation finds none under
/// way on that side and counts the new one; a completion, or a post that
/// failed, takes one away; a send that was posted counts as under way where
/// the operating system left it pending. A completion on the write side is
/// taken to come for a send that was left pending.
pub proof fn lemma_one_operation_in_flight<C: Callbacks>(
    row: EventModel<C>,
    reads: nat,
    writes: nat,
    ret: RetValue,
    sent: Option<usize>,
    ended: bool,
    bytes: usize,
    e: std::io::Error,
)
    requires
        covers(row, reads, writes),
    ensures
        reads <= 1,
        writes <= 1,
        covers(row.begin_accept().0, reads + one_if(row.begin_accept().1), writes),
        covers(row.begin_read().0, reads + one_if(row.begin_read().1), writes),
        covers(
            row.checked().0,
            reads + one_if(row.checked().1.accept) + one_if(row.checked().1.read),
            writes,
        ),
        covers(
            row.accept_delivered(ret).0,
            reads + one_if(row.accept_delivered(ret).1 == Next::Post),
            writes,
        ),
        covers(
            row.read_delivered(ret).0,
            reads + one_if(row.read_delivered(ret).1 == Next::Post),
            writes,
        ),
        reads >= 1 ==> covers(row.read_done(ended, bytes).0, (reads - 1) as nat, writes),
        reads >= 1 ==> covers(row.post_failed(e), (reads - 1) as nat, writes),
        reads == 0 ==> covers(row.post_failed(e), reads, writes),
        row.begin_write() ==> writes == 0 && covers(
            row.write_posted(sent).0,
            reads,
            one_if(sent is None),
        ),
        row.checked().1.write ==> row.checked().0.begin_write(),
        row.write_delivered(ret) == Next::Post ==> row.begin_write(),
        writes >= 1 ==> covers(row.with_write_mark(false), reads, (writes - 1) as nat),
        writes == 0 ==> covers(row.with_write_mark(false), reads, writes),
{
}

/// The socket and the scratch slab of a row stay as they are through
/// everything that the selector decides.
pub proof fn lemma_socket_and_scratch_stay<C: Callbacks>(
    row: EventModel<C>,
    ret: RetValue,
    sent: Option<usize>,
    ended: bool,
    bytes: usize,
    e: std::io::Error,
)
    ensures
        row.checked().0.buffer.socket == row.buffer.socket,
        row.checked().0.buffer.scratch == row.buffer.scratch,
        row.read_done(ended, bytes).0.buffer.socket == row.buffer.socket,
        row.read_done(ended, bytes).0.buffer.scratch == row.buffer.scratch,
        row.accept_delivered(ret).0.buffer.socket == row.buffer.socket,
        row.accept_delivered(ret).0.buffer.scratch == row.buffer.scratch,
        row.read_delivered(ret).0.buffer.socket == row.buffer.socket,
        row.read_delivered(ret).0.buffer.scratch == row.buffer.scratch,
        row.write_posted(sent).0.buffer.socket == row.buffer.socket,
        row.write_posted(sent).0.buffer.scratch == row.buffer.scratch,
        row.post_failed(e).buffer.socket == row.buffer.socket,
        row.post_failed(e).buffer.scratch == row.buffer.scratch,
{
}

/// A listener that is armed again goes on listening by itself: when its
/// accept callback answers anything but `OVER`, the next accept is posted
/// and its interest set stays as it was.
pub proof fn lemma_persistent_listener_rearms<C: Callbacks>(row: EventModel<C>, ret: RetValue)
    requires
        row.is_accept(),
        rearms_read(row.entry.flags),
        ret != RetValue::OVER,
    ensures
        row.read_done(false, 0).1 == ReadDone::Accept,
        row.read_done(false, 0).0.accept_delivered(ret).1 == Next::Post,
        row.read_done(false, 0).0.accept_delivered(ret).0.entry == row.entry,
        row.read_done(false, 0).0.accept_delivered(ret).0.buffer.is_in_read,
{
}

/// Once teardown has begun, no receive and no send is posted for the row.
pub proof fn lemma_ended_row_posts_nothing<C: Callbacks>(row: EventModel<C>, ret: RetValue)
    requires
        row.is_end,
    ensures
        !row.begin_read().1,
        !row.begin_write(),
        row.read_delivered(ret).1 != Next::Post,
        row.write_delivered(ret) != Next::Post,
{
}

/// The table and the answer after something was decided on the row of
/// `socket`: `outcome` is the row then and the answer. Where the socket
/// has no row, nothing changes and the answer is `absent`.
pub open spec fn on_row<C: Callbacks, R>(
    table: Map<SOCKET, EventModel<C>>,
    socket: SOCKET,
    outcome: (EventModel<C>, R),
    absent: R,
) -> (Map<SOCKET, EventModel<C>>, R) {
    if table.contains_key(socket) {
        (table.insert(socket, outcome.0), outcome.1)
    } else {
        (table, absent)
    }
}

/// The bytes of a slice that may be absent.
pub open spec fn bytes_of(data: Option<&[u8]>) -> Option<Seq<u8>> {
    match data {
        Some(bytes) => Some(bytes@),
        None => None,
    }
}

/// No operation is posted.
pub open spec fn no_post() -> PostPlan {
    PostPlan { accept: false, read: false, write: false }
}

/// The row of `socket` after `bytes`, if any, were queued for sending.
pub open spec fn queued_row<C: Callbacks>(row: EventModel<C>, data: Option<Seq<u8>>) -> EventModel<
    C,
> {
    match data {
        Some(bytes) => EventModel { buffer: row.buffer.queued(bytes), ..row },
        None => row,
    }
}

/// The table after the registration of `socket` ended, and the row that
/// the driver gets for the end callback.
pub open spec fn finished<C: Callbacks>(table: Map<SOCKET, EventModel<C>>, socket: SOCKET) -> (
    Map<SOCKET, EventModel<C>>,
    Option<EventModel<C>>,
) {
    if table.contains_key(socket) {
        (table.remove(socket), Some(table[socket]))
    } else {
        (table, None)
    }
}

/// Once the registration of a socket has ended, its row is gone, ending it
/// again hands out no row, and whatever is asked about the socket changes
/// nothing and gets the answer that stands for nothing to do. So the end
/// callback runs once, and no callback follows it.
pub proof fn lemma_finished_is_silent<C: Callbacks, R>(
    table: Map<SOCKET, EventModel<C>>,
    socket: SOCKET,
    outcome: (EventModel<C>, R),
    absent: R,
)
    ensures
        !finished(table, socket).0.contains_key(socket),
        finished(finished(table, socket).0, socket) == (
            finished(table, socket).0,
            None::<EventModel<C>>,
        ),
        begin_unregister(finished(table, socket).0, socket) == (finished(table, socket).0, false),
        on_row(finished(table, socket).0, socket, outcome, absent) == (
            finished(table, socket).0,
            absent,
        ),
{
}

/// The table after unregistering `socket` was asked for, and whether the
/// driver closes the socket and posts the sentinel: teardown begins once.
pub open spec fn begin_unregister<C: Callbacks>(
    table: Map<SOCKET, EventModel<C>>,
    socket: SOCKET,
) -> (Map<SOCKET, EventModel<C>>, bool) {
    if table.contains_key(socket) && !table[socket].is_end {
        (table.insert(socket, EventModel { is_end: true, ..table[socket] }), true)
    } else {
        (table, false)
    }
}

/// Teardown begins at most once for a registration: asking again to
/// unregister a socket changes nothing and posts no second sentinel, so
/// that its registration ends once.
pub proof fn lemma_teardown_begins_once<C: Callbacks>(
    table: Map<SOCKET, EventModel<C>>,
    socket: SOCKET,
)
    ensures
        begin_unregister(begin_unregister(table, socket).0, socket) == (
            begin_unregister(table, socket).0,
            false,
        ),
{
}

/// The selector of a completion backend: the socket table and its rules.
pub struct Selector<C: Callbacks> {
    table: EventTable<C>,
    capacity: usize,
}

impl<C: Callbacks> View for Selector<C> {
    type V = Map<SOCKET, EventModel<C>>;

    closed spec fn view(&self) -> Map<SOCKET, EventModel<C>> {
        self.table@
    }
}

impl<C: Callbacks> Selector<C> {
    /// Every row stands under the descriptor of its socket.
    pub open spec fn wf(&self) -> bool {
        keyed_by_socket(self@)
    }

    /// The room for completions that the driver gives each poll.
    pub closed spec fn spec_capacity(&self) -> usize {
        self.capacity
    }

    /// A selector without a socket, for polls of up to `capacity`
    /// completions.
    pub fn new(capacity: usize) -> (r: Selector<C>)
        ensures
            r.wf(),
            r@ == Map::<SOCKET, EventModel<C>>::empty(),
            r.spec_capacity() == capacity,
    {
        Selector { table: EventTable::new(), capacity: capacity }
    }

    /// The room for completions that the driver gives each poll.
    pub fn capacity(&self) -> (r: usize)
        ensures
            r == self.spec_capacity(),
    {
        self.capacity
    }

    /// The row of `socket`.
    pub fn get(&self, socket: SOCKET) -> (r: Option<&Event<C>>)
        ensures
            r is Some <==> self@.contains_key(socket),
            r matches Some(event) ==> event@ == self@[socket],
    {
        self.table.get(socket)
    }

    /// Takes the row of `socket` out, for the driver to work on the socket;
    /// [`Selector::put`] brings it back.
    pub fn take(&mut self, socket: SOCKET) -> (r: Option<Event<C>>)
        requires
            old(self).wf(),
        ensures
            final(self).wf(),
            final(self).spec_capacity() == old(self).spec_capacity(),
            final(self)@ == old(self)@.remove(socket),
            r is Some <==> old(self)@.contains_key(socket),
            r matches Some(event) ==> event@ == old(self)@[socket],
    {
        self.table.take(socket)
    }

    /// Puts a row in, under the descriptor of its socket.
    pub fn put(&mut self, event: Event<C>)
        requires
            old(self).wf(),
        ensures
            final(self).wf(),
            final(self).spec_capacity() == old(self).spec_capacity(),
            final(self)@ == old(self)@.insert(event@.buffer.fd(), event@),
    {
        let socket = event.as_raw_socket();
        self.table.put(socket, event);
    }

    /// Registers the socket of `buffer` with `entry`, after the driver has
    /// tied the socket to the completion port and got `added`. Any earlier
    /// registration of the socket is gone either way. Where the port
    /// refused, nothing is registered and its error is handed back. The
    /// driver then posts what [`Selector::check_socket_event`] says.
    pub fn register_socket(
        &mut self,
        buffer: EventBuffer,
        entry: EventEntry<C>,
        added: Result<(), std::io::Error>,
    ) -> (r: Result<(), std::io::Error>)
        requires
            old(self).wf(),
        ensures
            final(self).wf(),
            final(self).spec_capacity() == old(self).spec_capacity(),
            r == added,
            added is Ok ==> final(self)@ == old(self)@.insert(
                buffer@.fd(),
                EventModel { buffer: buffer@, entry: entry@, is_end: false },
            ),
            added is Err ==> final(self)@ == old(self)@.remove(buffer@.fd()),
    {
        let socket = buffer.as_raw_socket();
        if added.is_ok() {
            self.table.put(socket, Event::new(buffer, entry));
        } else {
            let _ = self.table.take(socket);
        }
        added
    }

    /// Takes in what came of the posts for a socket that was just
    /// registered: where they failed, the registration is dropped without
    /// a callback and the error is handed back.
    pub fn register_posted(&mut self, socket: SOCKET, posted: Result<(), std::io::Error>) -> (r:
        Result<(), std::io::Error>)
        requires
            old(self).wf(),
        ensures
            final(self).wf(),
            final(self).spec_capacity() == old(self).spec_capacity(),
            r == posted,
            posted is Ok ==> final(self)@ == old(self)@,
            posted is Err ==> final(self)@ == old(self)@.remove(socket),
    {
        if posted.is_err() {
            let _ = self.table.take(socket);
        }
        posted
    }

    /// Says whether the driver posts an accept for `socket` now, and marks
    /// it as under way: it does where the socket is registered and no
    /// accept is under way.
    pub fn post_accept_event(&mut self, socket: SOCKET) -> (r: bool)
        requires
            old(self).wf(),
        ensures
            final(self).wf(),
            final(self).spec_capacity() == old(self).spec_capacity(),
            (final(self)@, r) == on_row(
                old(self)@,
                socket,
                old(self)@[socket].begin_accept(),
                false,
            ),
    {
        match self.table.take(socket) {
            Some(event) => {
                let mut event = event;
                let r = !event.buffer.is_in_read;
                event.buffer.is_in_read = true;
                self.table.put(socket, event);
                proof {
                    assert(self@ =~= old(self)@.insert(socket, old(self)@[socket].begin_accept().0));
                }
                r
            },
            None => {
                proof {
                    assert(self@ =~= old(self)@);
                }
                false
            },
        }
    }

    /// Says whether the driver posts a receive for `socket` now, and marks
    /// it as under way: it does where the socket is registered, its
    /// teardown has not begun and no receive is under way.
    pub fn post_read_event(&mut self, socket: SOCKET) -> (r: bool)
        requires
            old(self).wf(),
        ensures
            final(self).wf(),
            final(self).spec_capacity() == old(self).spec_capacity(),
            (final(self)@, r) == on_row(
                old(self)@,
                socket,
                old(self)@[socket].begin_read(),
                false,
            ),
    {
        match self.table.take(socket) {
            Some(event) => {
                let mut event = event;
                let r = !event.is_end && !event.buffer.is_in_read;
                if r {
                    event.buffer.is_in_read = true;
                }
                self.table.put(socket, event);
                proof {
                    assert(self@ =~= old(self)@.insert(socket, old(self)@[socket].begin_read().0));
                }
                r
            },
            None => {
                proof {
                    assert(self@ =~= old(self)@);
                }
                false
            },
        }
    }

    /// Says what the driver posts for `socket` as its interest set asks,
    /// and marks what is then under way. Nothing for a socket that is not
    /// registered.
    pub fn check_socket_event(&mut self, socket: SOCKET) -> (r: PostPlan)
        requires
            old(self).wf(),
        ensures
            final(self).wf(),
            final(self).spec_capacity() == old(self).spec_capacity(),
            (final(self)@, r) == on_row(
                old(self)@,
                socket,
                old(self)@[socket].checked(),
                no_post(),
            ),
    {
        match self.table.take(socket) {
            Some(event) => {
                let mut event = event;
                let r = if event.entry.ev_events.has_flag(Flag::Accept) {
                    let post = !event.buffer.is_in_read;
                    if post {
                        event.buffer.is_in_read = true;
                    }
                    PostPlan { accept: post, read: false, write: false }
                } else {
                    let mut read = false;
                    if event.entry.ev_events.has_flag(Flag::Read) {
                        read = !event.is_end && !event.buffer.is_in_read;
                        if read {
                            event.buffer.is_in_read = true;
                        }
                    }
                    let write = event.entry.ev_events.has_flag(Flag::Write) && !(
                    event.buffer.is_in_write || event.buffer.write.empty() || event.is_end);
                    PostPlan { accept: false, read: read, write: write }
                };
                self.table.put(socket, event);
                proof {
                    assert(self@ =~= old(self)@.insert(socket, old(self)@[socket].checked().0));
                }
                r
            },
            None => {
                proof {
                    assert(self@ =~= old(self)@);
                }
                PostPlan { accept: false, read: false, write: false }
            },
        }
    }

    /// Merges `entry` into the registration of `socket` and says what the
    /// driver posts then; where a post fails the driver unregisters the
    /// socket. `None`, and nothing changed, where the socket is not
    /// registered.
    pub fn modify_socket(&mut self, is_del: bool, socket: SOCKET, entry: EventEntry<C>) -> (r:
        Option<PostPlan>)
        requires
            old(self).wf(),
        ensures
            final(self).wf(),
            final(self).spec_capacity() == old(self).spec_capacity(),
            (final(self)@, r) == on_row(
                old(self)@,
                socket,
                (
                    old(self)@[socket].merged(is_del, entry@).checked().0,
                    Some(old(self)@[socket].merged(is_del, entry@).checked().1),
                ),
                None,
            ),
    {
        match self.table.take(socket) {
            Some(event) => {
                let mut event = event;
                event.entry.merge(is_del, entry);
                self.table.put(socket, event);
                proof {
                    assert(self@ =~= old(self)@.insert(
                        socket,
                        old(self)@[socket].merged(is_del, entry@),
                    ));
                }
                let plan = self.check_socket_event(socket);
                proof {
                    let merged = old(self)@[socket].merged(is_del, entry@);
                    assert(self@ =~= old(self)@.insert(socket, merged.checked().0));
                }
                Some(plan)
            },
            None => {
                proof {
                    assert(self@ =~= old(self)@);
                }
                None
            },
        }
    }

    /// Begins the teardown of `socket`. Where this says `true` the driver
    /// closes the socket, which brings the operations under way to an end,
    /// and posts the sentinel; the row stays until the sentinel comes
    /// back. `false`, and nothing changed, where the socket is not
    /// registered or its teardown has begun already.
    pub fn unregister_socket(&mut self, socket: SOCKET) -> (r: bool)
        requires
            old(self).wf(),
        ensures
            final(self).wf(),
            final(self).spec_capacity() == old(self).spec_capacity(),
            (final(self)@, r) == begin_unregister(old(self)@, socket),
    {
        match self.table.take(socket) {
            Some(event) => {
                let mut event = event;
                let r = !event.is_end;
                event.is_end = true;
                self.table.put(socket, event);
                proof {
                    assert(self@ =~= begin_unregister(old(self)@, socket).0);
                }
                r
            },
            None => {
                proof {
                    assert(self@ =~= old(self)@);
                }
                false
            },
        }
    }

    /// Ends the registration of `socket` when its sentinel has come back:
    /// takes the row out and hands it to the driver, which runs the end
    /// callback. `None` where the socket is not registered.
    pub fn finish_unregister(&mut self, socket: SOCKET) -> (r: Option<Event<C>>)
        requires
            old(self).wf(),
        ensures
            final(self).wf(),
            final(self).spec_capacity() == old(self).spec_capacity(),
            final(self)@ == finished(old(self)@, socket).0,
            r is Some <==> old(self)@.contains_key(socket),
            r matches Some(event) ==> Some(event@) == finished(old(self)@, socket).1,
    {
        let r = self.table.take(socket);
        proof {
            assert(self@ =~= finished(old(self)@, socket).0);
        }
        r
    }

    /// Queues `data`, if any, for sending on `socket` and says whether the
    /// driver sends the queue now; it reports what came of that to
    /// [`Selector::write_posted`].
    pub fn post_write_event(&mut self, socket: SOCKET, data: Option<&[u8]>) -> (r: Result<
        bool,
        SelectorError,
    >)
        requires
            old(self).wf(),
            old(self)@.contains_key(socket) ==> (data matches Some(bytes) ==> old(
                self,
            )@[socket].buffer.write.wpos + bytes@.len() <= usize::MAX),
        ensures
            final(self).wf(),
            final(self).spec_capacity() == old(self).spec_capacity(),
            (final(self)@, r) == on_row(
                old(self)@,
                socket,
                (
                    queued_row(old(self)@[socket], bytes_of(data)),
                    Ok(queued_row(old(self)@[socket], bytes_of(data)).begin_write()),
                ),
                Err(SelectorError::NotRegistered),
            ),
    {
        match self.table.take(socket) {
            Some(event) => {
                let mut event = event;
                match data {
                    Some(bytes) => {
                        let _ = event.buffer.write.write(bytes);
                    },
                    None => {},
                }
                let r = !(event.buffer.is_in_write || event.buffer.write.empty() || event.is_end);
                self.table.put(socket, event);
                proof {
                    assert(self@ =~= old(self)@.insert(
                        socket,
                        queued_row(old(self)@[socket], bytes_of(data)),
                    ));
                }
                Ok(r)
            },
            None => {
                proof {
                    assert(self@ =~= old(self)@);
                }
                Err(SelectorError::NotRegistered)
            },
        }
    }

    /// Queues `data` for sending on `socket` and says whether the driver
    /// sends the queue now.
    pub fn send_socket(&mut self, socket: SOCKET, data: &[u8]) -> (r: Result<bool, SelectorError>)
        requires
            old(self).wf(),
            old(self)@.contains_key(socket) ==> old(self)@[socket].buffer.write.wpos + data@.len()
                <= usize::MAX,
        ensures
            final(self).wf(),
            final(self).spec_capacity() == old(self).spec_capacity(),
            (final(self)@, r) == on_row(
                old(self)@,
                socket,
                (
                    queued_row(old(self)@[socket], Some(data@)),
                    Ok(queued_row(old(self)@[socket], Some(data@)).begin_write()),
                ),
                Err(SelectorError::NotRegistered),
            ),
    {
        self.post_write_event(socket, Some(data))
    }

    /// Takes in what came of sending the queue of `socket`: the number of
    /// bytes that went out at once, where the operating system gave one.
    /// Hands back that number, or zero.
    pub fn write_posted(&mut self, socket: SOCKET, sent: Option<usize>) -> (count: usize)
        requires
            old(self).wf(),
        ensures
            final(self).wf(),
            final(self).spec_capacity() == old(self).spec_capacity(),
            (final(self)@, count) == on_row(
                old(self)@,
                socket,
                old(self)@[socket].write_posted(sent),
                0usize,
            ),
    {
        match self.table.take(socket) {
            Some(event) => {
                let mut event = event;
                let count: usize = match sent {
                    Some(n) => n,
                    None => 0,
                };
                event.buffer.write.drain(count);
                if !event.buffer.write.empty() {
                    event.buffer.is_in_write = true;
                }
                self.table.put(socket, event);
                proof {
                    assert(self@ =~= old(self)@.insert(
                        socket,
                        old(self)@[socket].write_posted(sent).0,
                    ));
                }
                count
            },
            None => {
                proof {
                    assert(self@ =~= old(self)@);
                }
                0
            },
        }
    }

    /// Takes in that a post for `socket` failed with `e`: the error is
    /// kept, nothing counts as under way on the read side, and the driver
    /// unregisters the socket.
    pub fn post_failed(&mut self, socket: SOCKET, e: std::io::Error) -> (r: Outcome)
        requires
            old(self).wf(),
        ensures
            final(self).wf(),
            final(self).spec_capacity() == old(self).spec_capacity(),
            (final(self)@, r) == on_row(
                old(self)@,
                socket,
                (old(self)@[socket].post_failed(e), Outcome::Unregister),
                Outcome::Unregister,
            ),
    {
        match self.table.take(socket) {
            Some(event) => {
                let mut event = event;
                event.buffer.error = Err(e);
                event.buffer.is_in_read = false;
                self.table.put(socket, event);
                proof {
                    assert(self@ =~= old(self)@.insert(socket, old(self)@[socket].post_failed(e)));
                }
            },
            None => {
                proof {
                    assert(self@ =~= old(self)@);
                }
            },
        }
        Outcome::Unregister
    }

    /// Takes in a completion on the read side of `socket`: `ended` says
    /// that it carries the sentinel, `bytes` how many bytes now lie at the
    /// start of the scratch slab.
    pub fn read_done(&mut self, socket: SOCKET, ended: bool, bytes: usize) -> (r: ReadDone)
        requires
            old(self).wf(),
            old(self)@.contains_key(socket) ==> bytes <= old(self)@[socket].buffer.scratch.len()
                && old(self)@[socket].buffer.read.wpos + bytes <= usize::MAX,
        ensures
            final(self).wf(),
            final(self).spec_capacity() == old(self).spec_capacity(),
            (final(self)@, r) == on_row(
                old(self)@,
                socket,
                old(self)@[socket].read_done(ended, bytes),
                ReadDone::Ignore,
            ),
    {
        match self.table.take(socket) {
            Some(event) => {
                let mut event = event;
                let r = if event.is_accept() {
                    event.buffer.is_in_read = false;
                    ReadDone::Accept
                } else if ended {
                    ReadDone::Teardown
                } else if bytes == 0 {
                    ReadDone::Unregister
                } else {
                    let taken = slice_subrange(event.buffer.read_cache.as_slice(), 0, bytes);
                    let _ = event.buffer.read.write(taken);
                    event.buffer.is_in_read = false;
                    if event.buffer.has_read_buffer() {
                        ReadDone::Deliver
                    } else {
                        ReadDone::Idle
                    }
                };
                self.table.put(socket, event);
                proof {
                    assert(self@ =~= old(self)@.insert(
                        socket,
                        old(self)@[socket].read_done(ended, bytes).0,
                    ));
                }
                r
            },
            None => {
                proof {
                    assert(self@ =~= old(self)@);
                }
                ReadDone::Ignore
            },
        }
    }

    /// Takes in the answer of the accept callback of `socket` and says what
    /// the driver does next. Where the driver posts the accept and that
    /// fails, it reports to [`Selector::post_failed`].
    pub fn accept_delivered(&mut self, socket: SOCKET, ret: RetValue) -> (r: Next)
        requires
            old(self).wf(),
        ensures
            final(self).wf(),
            final(self).spec_capacity() == old(self).spec_capacity(),
            (final(self)@, r) == on_row(
                old(self)@,
                socket,
                old(self)@[socket].accept_delivered(ret),
                Next::Stop,
            ),
    {
        match self.table.take(socket) {
            Some(event) => {
                let mut event = event;
                let r = match ret {
                    RetValue::OVER => Next::Unregister,
                    _ => {
                        if !event.entry.ev_events.has_flag(Flag::Persist)
                            && !event.entry.ev_events.has_flag(Flag::ReadPersist) {
                            event.entry.ev_events.remove(EventFlags::single(Flag::Read));
                            event.entry.ev_events.remove(EventFlags::single(Flag::Accept));
                            proof {
                                assert(event.entry.ev_events@ =~= old(
                                    self,
                                )@[socket].entry.flags.remove(Flag::Read).remove(Flag::Accept));
                            }
                        }
                        if !event.entry.ev_events.has_flag(Flag::Accept) {
                            Next::Stop
                        } else if event.buffer.is_in_read {
                            Next::Stop
                        } else {
                            event.buffer.is_in_read = true;
                            Next::Post
                        }
                    },
                };
                self.table.put(socket, event);
                proof {
                    assert(self@ =~= old(self)@.insert(
                        socket,
                        old(self)@[socket].accept_delivered(ret).0,
                    ));
                }
                r
            },
            None => {
                proof {
                    assert(self@ =~= old(self)@);
                }
                Next::Stop
            },
        }
    }

    /// Takes in the answer of the read callback of `socket`, or `OK` where
    /// none was due, and says what the driver does next. Where the driver
    /// posts the receive and that fails, it reports to
    /// [`Selector::post_failed`].
    pub fn read_delivered(&mut self, socket: SOCKET, ret: RetValue) -> (r: Next)
        requires
            old(self).wf(),
        ensures
            final(self).wf(),
            final(self).spec_capacity() == old(self).spec_capacity(),
            (final(self)@, r) == on_row(
                old(self)@,
                socket,
                old(self)@[socket].read_delivered(ret),
                Next::Stop,
            ),
    {
        match self.table.take(socket) {
            Some(event) => {
                let mut event = event;
                let r = match ret {
                    RetValue::OVER => Next::Unregister,
                    _ => {
                        if !event.entry.ev_events.has_flag(Flag::Persist)
                            && !event.entry.ev_events.has_flag(Flag::ReadPersist) {
                            event.entry.ev_events.remove(EventFlags::single(Flag::Read));
                            proof {
                                assert(event.entry.ev_events@ =~= old(
                                    self,
                                )@[socket].entry.flags.remove(Flag::Read));
                            }
                        }
                        if !event.entry.ev_events.has_flag(Flag::Read) {
                            Next::Stop
                        } else if event.is_end || event.buffer.is_in_read {
                            Next::Stop
                        } else {
                            event.buffer.is_in_read = true;
                            Next::Post
                        }
                    },
                };
                self.table.put(socket, event);
                proof {
                    assert(self@ =~= old(self)@.insert(
                        socket,
                        old(self)@[socket].read_delivered(ret).0,
                    ));
                }
                r
            },
            None => {
                proof {
                    assert(self@ =~= old(self)@);
                }
                Next::Stop
            },
        }
    }

    /// Takes in a completion on the write side of `socket`: no send is
    /// under way any more. Says whether the socket is registered; the
    /// driver then runs the write callback and reports its answer to
    /// [`Selector::write_delivered`].
    pub fn write_done(&mut self, socket: SOCKET) -> (r: bool)
        requires
            old(self).wf(),
        ensures
            final(self).wf(),
            final(self).spec_capacity() == old(self).spec_capacity(),
            (final(self)@, r) == on_row(
                old(self)@,
                socket,
                (old(self)@[socket].with_write_mark(false), true),
                false,
            ),
    {
        match self.table.take(socket) {
            Some(event) => {
                let mut event = event;
                event.buffer.is_in_write = false;
                self.table.put(socket, event);
                proof {
                    assert(self@ =~= old(self)@.insert(
                        socket,
                        old(self)@[socket].with_write_mark(false),
                    ));
                }
                true
            },
            None => {
                proof {
                    assert(self@ =~= old(self)@);
                }
                false
            },
        }
    }

    /// Takes in the answer of the write callback of `socket`, or `OK`
    /// where none is installed, and says what the driver does next: with
    /// `Post` it sends the queue and reports to [`Selector::write_posted`].
    pub fn write_delivered(&self, socket: SOCKET, ret: RetValue) -> (r: Next)
        ensures
            r == on_row(self@, socket, (self@[socket], self@[socket].write_delivered(ret)), Next::Stop).1,
    {
        match self.table.get(socket) {
            Some(event) => match ret {
                RetValue::OVER => Next::Unregister,
                _ => {
                    if !event.buffer.write.empty() && !(event.buffer.is_in_write || event.is_end) {
                        Next::Post
                    } else {
                        Next::Stop
                    }
                },
            },
            None => Next::Stop,
        }
    }
}

} // verus!
