//! The selector of a readiness backend: the poller says that a socket can
//! be read or written, and the driver then reads or writes it at once.
use crate::event_buffer::{EventBuffer, EventBufferModel};
use crate::event_entry::{Callbacks, EntryModel, EventEntry};
use crate::event_flags::{EventFlags, Flag};
use crate::event_loop::RetValue;
use crate::sys::{
    interest, interest_of, keyed_by_socket, outcome_of, Event, EventModel, EventTable, Interest,
    Outcome, SelectorError,
};
use psocket::SOCKET;
use vstd::prelude::*;
use vstd::slice::slice_subrange;

verus! {

/// What the driver does when a socket can be read.
#[derive(Clone, Copy, Debug, PartialEq, Eq, Structural)]
pub enum ReadStep {
    /// Nothing: the socket is not registered.
    Ignore,
    /// Accept a connection and hand it, or the error, to the accept
    /// callback.
    Accept,
    /// Read into the scratch slab and report what came of it.
    Read,
}

/// What the driver does after a read.
#[derive(Clone, Copy, Debug, PartialEq, Eq, Structural)]
pub enum ReadOutcome {
    /// Unregister the socket: the peer closed, or the read failed.
    Unregister,
    /// Run the read callback: bytes wait in the read queue.
    Deliver,
    /// Nothing.
    Idle,
}

/// What the driver does when a socket can be written.
#[derive(Clone, Copy, Debug, PartialEq, Eq, Structural)]
pub enum WriteStep {
    /// Nothing: the socket is not registered.
    Ignore,
    /// Nothing is queued: arm the socket anew with this interest, which has
    /// no output in it.
    Disarm(Interest),
    /// Write the queue to the socket and report what came of it.
    Write,
}

/// What the driver does after a write.
#[derive(Clone, Copy, Debug, PartialEq, Eq, Structural)]
pub enum WriteOutcome {
    /// Unregister the socket: the peer closed, or the write failed.
    Unregister,
    /// The queue is empty now: arm the socket anew with this interest,
    /// which has no output in it.
    Disarm(Interest),
    /// Bytes are left: the socket stays armed for output.
    Keep,
}

impl<C: Callbacks> EventModel<C> {
    /// What to do when the socket can be read.
    pub open spec fn read_step(self) -> ReadStep {
        if self.is_accept() {
            ReadStep::Accept
        } else {
            ReadStep::Read
        }
    }

    /// The row without interest in output and without a write under way.
    pub open spec fn disarmed(self) -> Self {
        EventModel {
            buffer: EventBufferModel { is_in_write: false, ..self.buffer },
            entry: EntryModel { flags: self.entry.flags.remove(Flag::Write), ..self.entry },
            ..self
        }
    }

    /// The row after a read that gave `result`, and what to do next. No
    /// byte means that the peer closed. Bytes go from the scratch slab
    /// into the read queue, and the read callback is due. An error is kept
    /// in the last-error slot.
    pub open spec fn read_completed(self, result: Result<usize, std::io::Error>) -> (
        Self,
        ReadOutcome,
    ) {
        match result {
            Ok(n) => if n == 0 {
                (self, ReadOutcome::Unregister)
            } else {
                let buffer = self.buffer.received(n as int);
                (
                    EventModel { buffer: buffer, ..self },
                    if buffer.read.data.len() > 0 {
                        ReadOutcome::Deliver
                    } else {
                        ReadOutcome::Idle
                    },
                )
            },
            Err(e) => (self.failed(e), ReadOutcome::Unregister),
        }
    }

    /// The row when the socket can be written, and what to do. With an
    /// empty queue the interest in output goes.
    pub open spec fn write_started(self) -> (Self, WriteStep) {
        if self.buffer.write.data.len() == 0 {
            (self.disarmed(), WriteStep::Disarm(interest_of(self.disarmed().entry.flags)))
        } else {
            (self, WriteStep::Write)
        }
    }

    /// The row after a write that gave `result`, and what to do next. No
    /// byte means that the peer closed. The bytes written leave the queue,
    /// and with the last of them the interest in output goes. An error is
    /// kept in the last-error slot.
    pub open spec fn write_completed(self, result: Result<usize, std::io::Error>) -> (
        Self,
        WriteOutcome,
    ) {
        match result {
            Ok(n) => if n == 0 {
                (self, WriteOutcome::Unregister)
            } else {
                let sent = EventModel { buffer: self.buffer.sent(n as int), ..self };
                if sent.buffer.write.data.len() == 0 {
                    (
                        sent.disarmed(),
                        WriteOutcome::Disarm(interest_of(sent.disarmed().entry.flags)),
                    )
                } else {
                    (sent, WriteOutcome::Keep)
                }
            },
            Err(e) => (self.failed(e), WriteOutcome::Unregister),
        }
    }

    /// The row after `bytes` were queued for sending, and the interest to
    /// arm the socket with, if any: where no write was under way and the
    /// queue is not empty, output joins the interest and a write counts as
    /// under way.
    pub open spec fn send_queued(self, bytes: Seq<u8>) -> (Self, Option<Interest>) {
        let queued = EventModel { buffer: self.buffer.queued(bytes), ..self };
        if queued.buffer.is_in_write || queued.buffer.write.data.len() == 0 {
            (queued, None)
        } else {
            let armed = EventModel {
                buffer: EventBufferModel { is_in_write: true, ..queued.buffer },
                entry: EntryModel {
                    flags: queued.entry.flags.insert(Flag::Write),
                    ..queued.entry
                },
                ..queued
            };
            (armed, Some(interest_of(armed.entry.flags)))
        }
    }
}

/// One event of a poll: a socket and what it is ready for.
#[derive(Clone, Copy, Debug, PartialEq, Eq, Structural)]
pub struct Ready {
    /// The socket.
    pub socket: SOCKET,
    /// Input is ready.
    pub readable: bool,
    /// Output is ready.
    pub writable: bool,
}

/// The flags that say what a socket is ready for.
pub open spec fn ready_flags(ready: Ready) -> Set<Flag> {
    Set::new(
        |f: Flag| (f == Flag::Read && ready.readable) || (f == Flag::Write && ready.writable),
    )
}

/// The entry that reports one event of a poll.
pub open spec fn ready_entry<C: Callbacks>(ready: Ready) -> EntryModel<C> {
    EntryModel { ev_fd: ready.socket, flags: ready_flags(ready), ..EntryModel::<C>::empty() }
}

/// One thing that the driver serves in a tick.
#[derive(Clone, Copy, Debug, PartialEq, Eq, Structural)]
pub enum Serve {
    /// The input of a socket: its accept or its read.
    Input(SOCKET),
    /// The output of a socket: the write of its queue.
    Output(SOCKET),
}

/// What is served for one event: its input where input is ready, then its
/// output where output is ready.
pub open spec fn served_for(ready: Ready) -> Seq<Serve> {
    (if ready.readable {
        seq![Serve::Input(ready.socket)]
    } else {
        Seq::empty()
    }) + (if ready.writable {
        seq![Serve::Output(ready.socket)]
    } else {
        Seq::empty()
    })
}

/// What is served in a tick: the events in the order in which the poll
/// handed them back, each with its input before its output.
pub open spec fn served(ready: Seq<Ready>) -> Seq<Serve>
    decreases ready.len(),
{
    if ready.len() == 0 {
        Seq::empty()
    } else {
        served(ready.drop_last()) + served_for(ready.last())
    }
}

/// The longest that a poll may block, as the poller takes it: `timeout`
/// milliseconds, or the greatest `isize` where `timeout` is larger.
pub fn poll_timeout(timeout: usize) -> (r: isize)
    ensures
        r >= 0,
        r == if timeout <= isize::MAX {
            timeout as int
        } else {
            isize::MAX as int
        },
{
    if timeout >= isize::MAX as usize {
        isize::MAX
    } else {
        timeout as isize
    }
}

/// A span of `timeout_ms` milliseconds as whole seconds and nanoseconds.
pub fn timeout_parts(timeout_ms: isize) -> (r: (i64, i64))
    requires
        timeout_ms >= 0,
    ensures
        r.0 == timeout_ms / 1000,
        r.1 == (timeout_ms % 1000) * 1_000_000,
        0 <= r.1 < 1_000_000_000,
        r.0 * 1000 + r.1 / 1_000_000 == timeout_ms,
{
    let secs: i64 = (timeout_ms / 1000) as i64;
    let rest: i64 = (timeout_ms % 1000) as i64;
    (secs, rest * 1_000_000)
}

/// What the table says when `socket` can be read.
pub open spec fn read_step_of<C: Callbacks>(
    table: Map<SOCKET, EventModel<C>>,
    socket: SOCKET,
) -> ReadStep {
    if table.contains_key(socket) {
        table[socket].read_step()
    } else {
        ReadStep::Ignore
    }
}

/// The table after a read on `socket` gave `result`, and what to do next.
pub open spec fn after_read<C: Callbacks>(
    table: Map<SOCKET, EventModel<C>>,
    socket: SOCKET,
    result: Result<usize, std::io::Error>,
) -> (Map<SOCKET, EventModel<C>>, ReadOutcome) {
    if table.contains_key(socket) {
        (
            table.insert(socket, table[socket].read_completed(result).0),
            table[socket].read_completed(result).1,
        )
    } else {
        (table, ReadOutcome::Idle)
    }
}

/// The table when `socket` can be written, and what to do.
pub open spec fn write_step_of<C: Callbacks>(
    table: Map<SOCKET, EventModel<C>>,
    socket: SOCKET,
) -> (Map<SOCKET, EventModel<C>>, WriteStep) {
    if table.contains_key(socket) {
        (table.insert(socket, table[socket].write_started().0), table[socket].write_started().1)
    } else {
        (table, WriteStep::Ignore)
    }
}

/// The table after a write on `socket` gave `result`, and what to do next.
pub open spec fn after_write<C: Callbacks>(
    table: Map<SOCKET, EventModel<C>>,
    socket: SOCKET,
    result: Result<usize, std::io::Error>,
) -> (Map<SOCKET, EventModel<C>>, WriteOutcome) {
    if table.contains_key(socket) {
        (
            table.insert(socket, table[socket].write_completed(result).0),
            table[socket].write_completed(result).1,
        )
    } else {
        (table, WriteOutcome::Keep)
    }
}

/// The table after `bytes` were sent to `socket`, and the interest to arm
/// the socket with, if any; an error where the socket is not registered.
pub open spec fn after_send<C: Callbacks>(
    table: Map<SOCKET, EventModel<C>>,
    socket: SOCKET,
    bytes: Seq<u8>,
) -> (Map<SOCKET, EventModel<C>>, Result<Option<Interest>, SelectorError>) {
    if table.contains_key(socket) {
        (
            table.insert(socket, table[socket].send_queued(bytes).0),
            Ok(table[socket].send_queued(bytes).1),
        )
    } else {
        (table, Err(SelectorError::NotRegistered))
    }
}

/// The table after `delta` was merged into the registration of `socket`,
/// and the interest to arm the socket with; nothing where the socket is
/// not registered.
pub open spec fn after_modify<C: Callbacks>(
    table: Map<SOCKET, EventModel<C>>,
    is_del: bool,
    socket: SOCKET,
    delta: EntryModel<C>,
) -> (Map<SOCKET, EventModel<C>>, Option<Interest>) {
    if table.contains_key(socket) {
        let entry = table[socket].entry.merged(is_del, delta);
        (
            table.insert(socket, EventModel { entry: entry, ..table[socket] }),
            Some(interest_of(entry.flags)),
        )
    } else {
        (table, None)
    }
}

/// The table after `socket` was unregistered, and whether it had a row.
pub open spec fn after_unregister<C: Callbacks>(
    table: Map<SOCKET, EventModel<C>>,
    socket: SOCKET,
) -> (Map<SOCKET, EventModel<C>>, Option<EventModel<C>>) {
    if table.contains_key(socket) {
        (table.remove(socket), Some(table[socket]))
    } else {
        (table, None)
    }
}

/// Once a socket is unregistered the selector is silent about it: it
/// can be neither read nor written, nothing can be sent to it or changed on
/// it, and unregistering it again hands out no row, so that no callback
/// and no second end of the registration can follow. This holds until the
/// socket is registered anew.
pub proof fn lemma_unregistered_is_silent<C: Callbacks>(
    table: Map<SOCKET, EventModel<C>>,
    socket: SOCKET,
    bytes: Seq<u8>,
    result: Result<usize, std::io::Error>,
    is_del: bool,
    delta: EntryModel<C>,
)
    ensures
        ({
            let gone = after_unregister(table, socket).0;
            &&& !gone.contains_key(socket)
            &&& read_step_of(gone, socket) == ReadStep::Ignore
            &&& after_read(gone, socket, result) == (gone, ReadOutcome::Idle)
            &&& write_step_of(gone, socket) == (gone, WriteStep::Ignore)
            &&& after_write(gone, socket, result) == (gone, WriteOutcome::Keep)
            &&& after_send(gone, socket, bytes) == (
                gone,
                Err::<Option<Interest>, SelectorError>(SelectorError::NotRegistered),
            )
            &&& after_modify(gone, is_del, socket, delta) == (gone, None::<Interest>)
            &&& after_unregister(gone, socket) == (gone, None::<EventModel<C>>)
        }),
{
}

/// A listener stays armed by itself: an accept leaves the table as it
/// was, and unless the accept callback answers `OVER` the registration goes
/// on, so that the next connection is accepted too.
pub proof fn lemma_listener_stays_armed<C: Callbacks>(
    table: Map<SOCKET, EventModel<C>>,
    socket: SOCKET,
    ret: RetValue,
)
    requires
        read_step_of(table, socket) == ReadStep::Accept,
        ret != RetValue::OVER,
    ensures
        outcome_of(ret) == Outcome::Keep,
        table.contains_key(socket),
        table[socket].is_accept(),
{
}

/// Unregistering one socket leaves every other row as it was.
pub proof fn lemma_unregister_keeps_others<C: Callbacks>(
    table: Map<SOCKET, EventModel<C>>,
    socket: SOCKET,
    other: SOCKET,
)
    requires
        other != socket,
    ensures
        after_unregister(table, socket).0.contains_key(other) == table.contains_key(other),
        table.contains_key(other) ==> after_unregister(table, socket).0[other] == table[other],
{
}

/// A write is marked as under way only while bytes are queued: sending,
/// becoming writable and the outcome of a write all keep it so.
pub proof fn lemma_write_mark_means_queue<C: Callbacks>(
    row: EventModel<C>,
    bytes: Seq<u8>,
    result: Result<usize, std::io::Error>,
)
    requires
        row.buffer.is_in_write ==> row.buffer.write.data.len() > 0,
    ensures
        ({
            let after = row.send_queued(bytes).0;
            after.buffer.is_in_write ==> after.buffer.write.data.len() > 0
        }),
        ({
            let after = row.write_started().0;
            after.buffer.is_in_write ==> after.buffer.write.data.len() > 0
        }),
        ({
            let after = row.write_completed(result).0;
            after.buffer.is_in_write ==> after.buffer.write.data.len() > 0
        }),
{
}

/// The socket and the scratch slab of a row stay as they are through
/// everything that the selector decides.
pub proof fn lemma_socket_and_scratch_stay<C: Callbacks>(
    row: EventModel<C>,
    bytes: Seq<u8>,
    result: Result<usize, std::io::Error>,
)
    ensures
        row.read_completed(result).0.buffer.socket == row.buffer.socket,
        row.read_completed(result).0.buffer.scratch == row.buffer.scratch,
        row.write_started().0.buffer.socket == row.buffer.socket,
        row.write_started().0.buffer.scratch == row.buffer.scratch,
        row.write_completed(result).0.buffer.socket == row.buffer.socket,
        row.write_completed(result).0.buffer.scratch == row.buffer.scratch,
        row.send_queued(bytes).0.buffer.socket == row.buffer.socket,
        row.send_queued(bytes).0.buffer.scratch == row.buffer.scratch,
{
}

/// What is sent leaves in order: bytes queued behind the write cursor of a
/// queue that ends there come out after the bytes queued before them.
pub proof fn lemma_send_appends<C: Callbacks>(row: EventModel<C>, bytes: Seq<u8>)
    requires
        row.buffer.write.wpos == row.buffer.write.data.len(),
    ensures
        row.send_queued(bytes).0.buffer.write.data == row.buffer.write.data + bytes,
        row.send_queued(bytes).0.buffer.write.wpos == row.buffer.write.data.len() + bytes.len(),
{
    assert(row.send_queued(bytes).0.buffer.write.data =~= row.buffer.write.data + bytes);
}

/// The selector of a readiness backend: the socket table and its rules.
pub struct Selector<C: Callbacks> {
    table: EventTable<C>,
    capacity: usize,
}

impl<C: Callbacks> View for Selector<C> {
    type V = Map<SOCKET, EventModel<C>>;

    closed spec fn view(&self) -> Map<SOCKET, EventModel<C>> {
        self.table@
    }
}

impl<C: Callbacks> Selector<C> {
    /// Every row stands under the descriptor of its socket.
    pub open spec fn wf(&self) -> bool {
        keyed_by_socket(self@)
    }

    /// The room for events that the driver gives each poll.
    pub closed spec fn spec_capacity(&self) -> usize {
        self.capacity
    }

    /// A selector without a socket, for polls of up to `capacity` events.
    pub fn new(capacity: usize) -> (r: Selector<C>)
        ensures
            r.wf(),
            r@ == Map::<SOCKET, EventModel<C>>::empty(),
            r.spec_capacity() == capacity,
    {
        Selector { table: EventTable::new(), capacity: capacity }
    }

    /// The room for events that the driver gives each poll.
    pub fn capacity(&self) -> (r: usize)
        ensures
            r == self.spec_capacity(),
    {
        self.capacity
    }

    /// The row of `socket`.
    pub fn get(&self, socket: SOCKET) -> (r: Option<&Event<C>>)
        ensures
            r is Some <==> self@.contains_key(socket),
            r matches Some(event) ==> event@ == self@[socket],
    {
        self.table.get(socket)
    }

    /// Takes the row of `socket` out, for the driver to work on the socket;
    /// [`Selector::put`] brings it back.
    pub fn take(&mut self, socket: SOCKET) -> (r: Option<Event<C>>)
        requires
            old(self).wf(),
        ensures
            final(self).wf(),
            final(self).spec_capacity() == old(self).spec_capacity(),
            final(self)@ == old(self)@.remove(socket),
            r is Some <==> old(self)@.contains_key(socket),
            r matches Some(event) ==> event@ == old(self)@[socket],
    {
        self.table.take(socket)
    }

    /// Puts a row in, under the descriptor of its socket.
    pub fn put(&mut self, event: Event<C>)
        requires
            old(self).wf(),
        ensures
            final(self).wf(),
            final(self).spec_capacity() == old(self).spec_capacity(),
            final(self)@ == old(self)@.insert(event@.buffer.fd(), event@),
    {
        let socket = event.as_raw_socket();
        self.table.put(socket, event);
    }

    /// Registers the socket of `buffer` with `entry`, after the driver has
    /// asked the poller to watch it and got `armed`. Any earlier
    /// registration of the socket is gone either way. Where the poller
    /// refused, nothing is registered and its error is handed back.
    pub fn register_socket(
        &mut self,
        buffer: EventBuffer,
        entry: EventEntry<C>,
        armed: Result<(), std::io::Error>,
    ) -> (r: Result<(), std::io::Error>)
        requires
            old(self).wf(),
        ensures
            final(self).wf(),
            final(self).spec_capacity() == old(self).spec_capacity(),
            r == armed,
            armed is Ok ==> final(self)@ == old(self)@.insert(
                buffer@.fd(),
                EventModel { buffer: buffer@, entry: entry@, is_end: false },
            ),
            armed is Err ==> final(self)@ == old(self)@.remove(buffer@.fd()),
    {
        let socket = buffer.as_raw_socket();
        if armed.is_ok() {
            self.table.put(socket, Event::new(buffer, entry));
        } else {
            let _ = self.table.take(socket);
        }
        armed
    }

    /// Merges `entry` into the registration of `socket` and hands back the
    /// interest that the driver arms the socket with; where that fails the
    /// driver unregisters the socket. `None`, and nothing changed, where the
    /// socket is not registered.
    pub fn modify_socket(&mut self, is_del: bool, socket: SOCKET, entry: EventEntry<C>) -> (r:
        Option<Interest>)
        requires
            old(self).wf(),
        ensures
            final(self).wf(),
            final(self).spec_capacity() == old(self).spec_capacity(),
            (final(self)@, r) == after_modify(old(self)@, is_del, socket, entry@),
    {
        match self.table.take(socket) {
            Some(event) => {
                let mut event = event;
                event.entry.merge(is_del, entry);
                let r = interest(event.entry.ev_events);
                self.table.put(socket, event);
                proof {
                    assert(self@ =~= after_modify(old(self)@, is_del, socket, entry@).0);
                }
                Some(r)
            },
            None => {
                proof {
                    assert(self@ =~= old(self)@);
                }
                None
            },
        }
    }

    /// Takes the registration of `socket` out of the table and hands its
    /// row to the driver, which closes the socket, runs the end callback
    /// and tells the poller. `None` where the socket is not registered.
    pub fn unregister_socket(&mut self, socket: SOCKET) -> (r: Option<Event<C>>)
        requires
            old(self).wf(),
        ensures
            final(self).wf(),
            final(self).spec_capacity() == old(self).spec_capacity(),
            final(self)@ == after_unregister(old(self)@, socket).0,
            r is Some <==> old(self)@.contains_key(socket),
            r matches Some(event) ==> event@ == old(self)@[socket],
    {
        let r = self.table.take(socket);
        proof {
            assert(self@ =~= after_unregister(old(self)@, socket).0);
        }
        r
    }

    /// Queues `data` for sending on `socket`. Hands back the interest to arm
    /// the socket with where output has to be watched from now on. On this
    /// backend no byte is sent at once.
    pub fn send_socket(&mut self, socket: SOCKET, data: &[u8]) -> (r: Result<
        Option<Interest>,
        SelectorError,
    >)
        requires
            old(self).wf(),
            old(self)@.contains_key(socket) ==> old(self)@[socket].buffer.write.wpos + data@.len()
                <= usize::MAX,
        ensures
            final(self).wf(),
            final(self).spec_capacity() == old(self).spec_capacity(),
            (final(self)@, r) == after_send(old(self)@, socket, data@),
    {
        match self.table.take(socket) {
            Some(event) => {
                let mut event = event;
                let _ = event.buffer.write.write(data);
                let r = if event.buffer.is_in_write || event.buffer.write.empty() {
                    None
                } else {
                    event.entry.ev_events.insert(EventFlags::single(Flag::Write));
                    event.buffer.is_in_write = true;
                    proof {
                        assert(event.entry.ev_events@ =~= old(self)@[socket].entry.flags.insert(
                            Flag::Write,
                        ));
                    }
                    Some(interest(event.entry.ev_events))
                };
                self.table.put(socket, event);
                proof {
                    assert(self@ =~= after_send(old(self)@, socket, data@).0);
                }
                Ok(r)
            },
            None => {
                proof {
                    assert(self@ =~= old(self)@);
                }
                Err(SelectorError::NotRegistered)
            },
        }
    }

    /// Reports what a poll handed back: `evts` is emptied and gets one entry
    /// for each event, in the order of the poll, with the descriptor and
    /// with `Read` and `Write` as the socket is ready for them. Hands back
    /// the number of events. The driver serves each event in this order,
    /// input before output.
    pub fn select(&self, ready: &Vec<Ready>, evts: &mut Vec<EventEntry<C>>) -> (count: usize)
        ensures
            count == ready@.len(),
            final(evts)@.len() == ready@.len(),
            forall|i: int|
                0 <= i < ready@.len() ==> (#[trigger] final(evts)@[i])@ == ready_entry::<C>(
                    ready@[i],
                ),
    {
        evts.clear();
        let mut i: usize = 0;
        while i < ready.len()
            invariant
                i <= ready@.len(),
                evts@.len() == i,
                forall|k: int| 0 <= k < i ==> (#[trigger] evts@[k])@ == ready_entry::<C>(ready@[k]),
            decreases ready@.len() - i,
        {
            let value = ready[i];
            let mut ev_flag = EventFlags::empty();
            if value.readable {
                ev_flag.insert(EventFlags::single(Flag::Read));
            }
            if value.writable {
                ev_flag.insert(EventFlags::single(Flag::Write));
            }
            proof {
                assert(ev_flag@ =~= ready_flags(value));
            }
            evts.push(EventEntry::new_evfd(value.socket, ev_flag));
            i += 1;
        }
        ready.len()
    }

    /// Lays out a tick: what the driver serves for the events that a poll
    /// handed back, in order. The number of events is the count that the
    /// tick reports.
    pub fn do_select(&self, ready: &Vec<Ready>) -> (plan: Vec<Serve>)
        ensures
            plan@ == served(ready@),
    {
        let mut plan: Vec<Serve> = Vec::new();
        let mut i: usize = 0;
        while i < ready.len()
            invariant
                i <= ready@.len(),
                plan@ == served(ready@.subrange(0, i as int)),
            decreases ready@.len() - i,
        {
            let value = ready[i];
            proof {
                let before = ready@.subrange(0, i as int);
                let upto = ready@.subrange(0, i + 1);
                assert(upto.drop_last() =~= before);
                assert(upto.last() == value);
            }
            if value.readable {
                plan.push(Serve::Input(value.socket));
            }
            if value.writable {
                plan.push(Serve::Output(value.socket));
            }
            proof {
                assert(plan@ =~= served(ready@.subrange(0, i as int)) + served_for(value));
            }
            i += 1;
        }
        proof {
            assert(ready@.subrange(0, ready@.len() as int) =~= ready@);
        }
        plan
    }

    /// What the driver does now that `socket` can be read.
    pub fn read_ready(&self, socket: SOCKET) -> (r: ReadStep)
        ensures
            r == read_step_of(self@, socket),
    {
        match self.table.get(socket) {
            Some(event) => if event.is_accept() {
                ReadStep::Accept
            } else {
                ReadStep::Read
            },
            None => ReadStep::Ignore,
        }
    }

    /// Takes in what a read on `socket` gave: the number of bytes that now
    /// lie at the start of the scratch slab, or the error.
    pub fn read_complete(&mut self, socket: SOCKET, result: Result<usize, std::io::Error>) -> (r:
        ReadOutcome)
        requires
            old(self).wf(),
            old(self)@.contains_key(socket) ==> (result matches Ok(n) ==> n <= old(
                self,
            )@[socket].buffer.scratch.len() && old(self)@[socket].buffer.read.wpos + n
                <= usize::MAX),
        ensures
            final(self).wf(),
            final(self).spec_capacity() == old(self).spec_capacity(),
            (final(self)@, r) == after_read(old(self)@, socket, result),
    {
        match self.table.take(socket) {
            Some(event) => {
                let mut event = event;
                let r = match result {
                    Ok(n) => {
                        if n == 0 {
                            ReadOutcome::Unregister
                        } else {
                            let bytes = slice_subrange(event.buffer.read_cache.as_slice(), 0, n);
                            let _ = event.buffer.read.write(bytes);
                            if event.buffer.has_read_buffer() {
                                ReadOutcome::Deliver
                            } else {
                                ReadOutcome::Idle
                            }
                        }
                    },
                    Err(e) => {
                        event.buffer.error = Err(e);
                        ReadOutcome::Unregister
                    },
                };
                self.table.put(socket, event);
                proof {
                    assert(self@ =~= after_read(old(self)@, socket, result).0);
                }
                r
            },
            None => {
                proof {
                    assert(self@ =~= old(self)@);
                }
                ReadOutcome::Idle
            },
        }
    }

    /// What the driver does now that `socket` can be written.
    pub fn write_ready(&mut self, socket: SOCKET) -> (r: WriteStep)
        requires
            old(self).wf(),
        ensures
            final(self).wf(),
            final(self).spec_capacity() == old(self).spec_capacity(),
            (final(self)@, r) == write_step_of(old(self)@, socket),
    {
        match self.table.take(socket) {
            Some(event) => {
                let mut event = event;
                let r = if event.buffer.write.len() == 0 {
                    event.buffer.is_in_write = false;
                    event.entry.ev_events.remove(EventFlags::single(Flag::Write));
                    proof {
                        assert(event.entry.ev_events@ =~= old(self)@[socket].entry.flags.remove(
                            Flag::Write,
                        ));
                    }
                    WriteStep::Disarm(interest(event.entry.ev_events))
                } else {
                    WriteStep::Write
                };
                self.table.put(socket, event);
                proof {
                    assert(self@ =~= write_step_of(old(self)@, socket).0);
                }
                r
            },
            None => {
                proof {
                    assert(self@ =~= old(self)@);
                }
                WriteStep::Ignore
            },
        }
    }

    /// Takes in what a write of the queue of `socket` gave: the number of
    /// bytes that the socket took, or the error.
    pub fn write_complete(&mut self, socket: SOCKET, result: Result<usize, std::io::Error>) -> (r:
        WriteOutcome)
        requires
            old(self).wf(),
        ensures
            final(self).wf(),
            final(self).spec_capacity() == old(self).spec_capacity(),
            (final(self)@, r) == after_write(old(self)@, socket, result),
    {
        match self.table.take(socket) {
            Some(event) => {
                let mut event = event;
                let r = match result {
                    Ok(n) => {
                        if n == 0 {
                            WriteOutcome::Unregister
                        } else {
                            event.buffer.write.drain(n);
                            if event.buffer.write.empty() {
                                event.buffer.is_in_write = false;
                                event.entry.ev_events.remove(EventFlags::single(Flag::Write));
                                proof {
                                    assert(event.entry.ev_events@ =~= old(
                                        self,
                                    )@[socket].entry.flags.remove(Flag::Write));
                                }
                                WriteOutcome::Disarm(interest(event.entry.ev_events))
                            } else {
                                WriteOutcome::Keep
                            }
                        }
                    },
                    Err(e) => {
                        event.buffer.error = Err(e);
                        WriteOutcome::Unregister
                    },
                };
                self.table.put(socket, event);
                proof {
                    assert(self@ =~= after_write(old(self)@, socket, result).0);
                }
                r
            },
            None => {
                proof {
                    assert(self@ =~= old(self)@);
                }
                WriteOutcome::Keep
            },
        }
    }
}

} // verus!
