//! The socket table and what the two kinds of selector share. A selector
//! here decides; the driver around it polls the operating system, moves the
//! bytes and runs the callbacks.
use crate::event_buffer::{EventBuffer, EventBufferModel};
use crate::event_entry::{Callbacks, EntryModel, EventEntry};
use crate::event_flags::{EventFlags, Flag};
use crate::event_loop::RetValue;
use psocket::SOCKET;
use std::collections::HashMap;
use vstd::prelude::*;

pub mod completion;
pub mod error;
pub mod readiness;
pub mod socket;

verus! {

broadcast use vstd::std_specs::hash::group_hash_axioms;

/// What the poller is asked to watch on a socket.
#[derive(Clone, Copy, Debug, PartialEq, Eq, Structural)]
pub struct Interest {
    /// Input: bytes to read, or a connection to accept.
    pub readable: bool,
    /// Output: room to write.
    pub writable: bool,
}

/// The interest that an interest set asks for: input for `Read`, output for
/// `Write`.
pub open spec fn interest_of(flags: Set<Flag>) -> Interest {
    Interest { readable: flags.contains(Flag::Read), writable: flags.contains(Flag::Write) }
}

/// The interest that `flags` asks for.
pub fn interest(flags: EventFlags) -> (r: Interest)
    ensures
        r == interest_of(flags@),
{
    Interest { readable: flags.has_flag(Flag::Read), writable: flags.has_flag(Flag::Write) }
}

/// Whether a registration goes on.
#[derive(Clone, Copy, Debug, PartialEq, Eq, Structural)]
pub enum Outcome {
    /// The registration stays.
    Keep,
    /// The driver unregisters the socket.
    Unregister,
}

/// What follows a callback's answer: `OVER` ends the registration, and so
/// does nothing else.
pub open spec fn outcome_of(ret: RetValue) -> Outcome {
    if ret == RetValue::OVER {
        Outcome::Unregister
    } else {
        Outcome::Keep
    }
}

/// What follows a callback's answer. Where no callback is installed the
/// driver passes `OK`.
pub fn after_callback(ret: RetValue) -> (r: Outcome)
    ensures
        r == outcome_of(ret),
{
    match ret {
        RetValue::OVER => Outcome::Unregister,
        _ => Outcome::Keep,
    }
}

/// Why a selector turned a call away.
#[derive(Clone, Copy, Debug, PartialEq, Eq, Structural)]
pub enum SelectorError {
    /// The socket is not in the table: it was removed, or never registered.
    NotRegistered,
}

/// What an [`Event`] is.
pub ghost struct EventModel<C: Callbacks> {
    /// The socket's buffers and marks.
    pub buffer: EventBufferModel,
    /// The registration.
    pub entry: EntryModel<C>,
    /// Whether teardown has begun.
    pub is_end: bool,
}

impl<C: Callbacks> EventModel<C> {
    /// Whether the registration is a listener.
    pub open spec fn is_accept(self) -> bool {
        self.entry.flags.contains(Flag::Accept)
    }

    /// The event with another interest set.
    pub open spec fn with_flags(self, flags: Set<Flag>) -> Self {
        EventModel { entry: EntryModel { flags: flags, ..self.entry }, ..self }
    }

    /// The event with the error `e` in its last-error slot.
    pub open spec fn failed(self, e: std::io::Error) -> Self {
        EventModel { buffer: EventBufferModel { error: Err(e), ..self.buffer }, ..self }
    }
}

/// One row of the socket table: a socket's buffers, its registration, and
/// whether its teardown has begun.
pub struct Event<C: Callbacks> {
    /// The socket's buffers and marks.
    pub buffer: EventBuffer,
    /// The registration.
    pub entry: EventEntry<C>,
    /// Whether teardown has begun.
    pub is_end: bool,
}

impl<C: Callbacks> View for Event<C> {
    type V = EventModel<C>;

    open spec fn view(&self) -> EventModel<C> {
        EventModel { buffer: self.buffer@, entry: self.entry@, is_end: self.is_end }
    }
}

impl<C: Callbacks> Event<C> {
    /// A row for a fresh registration.
    pub fn new(buffer: EventBuffer, entry: EventEntry<C>) -> (r: Event<C>)
        ensures
            r.buffer == buffer,
            r.entry == entry,
            !r.is_end,
    {
        Event { buffer: buffer, entry: entry, is_end: false }
    }

    /// Whether the registration is a listener.
    pub fn is_accept(&self) -> (r: bool)
        ensures
            r == self@.is_accept(),
    {
        self.entry.ev_events.has_flag(Flag::Accept)
    }

    /// The descriptor of the socket.
    pub fn as_raw_socket(&self) -> (fd: SOCKET)
        ensures
            fd == self@.buffer.fd(),
    {
        self.buffer.as_raw_socket()
    }
}

/// The view of one row; a name for the function that maps the table.
pub open spec fn model_of<C: Callbacks>(event: Event<C>) -> EventModel<C> {
    event@
}

/// Whether every row of a table stands under the descriptor of its socket.
pub open spec fn keyed_by_socket<C: Callbacks>(table: Map<SOCKET, EventModel<C>>) -> bool {
    forall|socket: SOCKET| #[trigger]
        table.contains_key(socket) ==> table[socket].buffer.fd() == socket
}

/// The table from descriptor to row.
pub struct EventTable<C: Callbacks> {
    rows: HashMap<SOCKET, Event<C>>,
}

impl<C: Callbacks> View for EventTable<C> {
    type V = Map<SOCKET, EventModel<C>>;

    closed spec fn view(&self) -> Map<SOCKET, EventModel<C>> {
        self.rows@.map_values(|event: Event<C>| model_of(event))
    }
}

impl<C: Callbacks> EventTable<C> {
    /// A table without a row.
    pub fn new() -> (r: EventTable<C>)
        ensures
            r@ == Map::<SOCKET, EventModel<C>>::empty(),
    {
        let r = EventTable { rows: HashMap::new() };
        proof {
            assert(r@ =~= Map::<SOCKET, EventModel<C>>::empty());
        }
        r
    }

    /// Whether the table has a row for `socket`.
    pub fn contains(&self, socket: SOCKET) -> (r: bool)
        ensures
            r == self@.contains_key(socket),
    {
        self.rows.contains_key(&socket)
    }

    /// The row of `socket`.
    pub fn get(&self, socket: SOCKET) -> (r: Option<&Event<C>>)
        ensures
            r is Some <==> self@.contains_key(socket),
            r matches Some(event) ==> event@ == self@[socket],
    {
        self.rows.get(&socket)
    }

    /// Takes the row of `socket` out.
    pub fn take(&mut self, socket: SOCKET) -> (r: Option<Event<C>>)
        ensures
            final(self)@ == old(self)@.remove(socket),
            r is Some <==> old(self)@.contains_key(socket),
            r matches Some(event) ==> event@ == old(self)@[socket],
    {
        let r = self.rows.remove(&socket);
        proof {
            assert(self@ =~= old(self)@.remove(socket));
        }
        r
    }

    /// Puts `event` in as the row of `socket`, in place of any row there.
    pub fn put(&mut self, socket: SOCKET, event: Event<C>)
        ensures
            final(self)@ == old(self)@.insert(socket, event@),
    {
        let _ = self.rows.insert(socket, event);
        proof {
            assert(self@ =~= old(self)@.insert(socket, event@));
        }
    }

    /// The number of rows.
    pub fn len(&self) -> (r: usize)
        ensures
            r == self@.dom().len(),
    {
        proof {
            assert(self@.dom() =~= self.rows@.dom());
        }
        self.rows.len()
    }
}

} // verus!
