//! The registration record: what an application asks the reactor to watch,
//! and what to call when it happens.
use crate::event_flags::{EventFlags, Flag};
use crate::now_micro;
use psocket::SOCKET;
use vstd::prelude::*;

verus! {

/// The kinds of value that an application hangs on an entry. The reactor
/// stores and hands them back; it never looks inside or calls one.
pub trait Callbacks {
    /// Called with each accepted connection.
    type Accept;

    /// Called when bytes have arrived, or when bytes have been sent.
    type Event;

    /// Called once when the registration ends.
    type End;

    /// Called when a timer fires.
    type Timer;

    /// The application's own data, owned by the entry.
    type Data;
}

/// `a + b`, or the greatest `u64` where the sum is larger.
pub open spec fn saturating_sum(a: u64, b: u64) -> u64 {
    if a + b <= u64::MAX {
        (a + b) as u64
    } else {
        u64::MAX
    }
}

/// `a + b`, or the greatest `u64` where the sum is larger.
pub fn deadline_after(a: u64, b: u64) -> (r: u64)
    ensures
        r == saturating_sum(a, b),
{
    if a <= u64::MAX - b {
        a + b
    } else {
        u64::MAX
    }
}

/// What an [`EventEntry`] is.
pub ghost struct EntryModel<C: Callbacks> {
    /// The descriptor watched; zero in a timer.
    pub ev_fd: SOCKET,
    /// The timer's id; zero while none is assigned.
    pub time_id: u32,
    /// The deadline of a timer.
    pub tick_ms: u64,
    /// The distance between two firings of a timer.
    pub tick_step: u64,
    /// The interest set.
    pub flags: Set<Flag>,
    /// Called with each accepted connection.
    pub accept: Option<C::Accept>,
    /// Called when bytes have arrived.
    pub read: Option<C::Event>,
    /// Called when bytes have been sent.
    pub write: Option<C::Event>,
    /// Called once when the registration ends.
    pub end: Option<C::End>,
    /// Called when the timer fires.
    pub timer: Option<C::Timer>,
    /// The application's data.
    pub data: Option<C::Data>,
}

impl<C: Callbacks> EntryModel<C> {
    /// The entry with nothing set.
    pub open spec fn empty() -> Self {
        EntryModel {
            ev_fd: 0,
            time_id: 0,
            tick_ms: 0,
            tick_step: 0,
            flags: Set::empty(),
            accept: None,
            read: None,
            write: None,
            end: None,
            timer: None,
            data: None,
        }
    }

    /// A timer due `tick_step` after `now`, repeating or not.
    pub open spec fn timer(
        now: u64,
        tick_step: u64,
        tick_repeat: bool,
        timer: Option<C::Timer>,
        data: Option<C::Data>,
    ) -> Self {
        EntryModel {
            tick_ms: saturating_sum(now, tick_step),
            tick_step: tick_step,
            flags: if tick_repeat {
                set![Flag::Timeout, Flag::Persist]
            } else {
                set![Flag::Timeout]
            },
            timer: timer,
            data: data,
            ..Self::empty()
        }
    }

    /// A timer due at `tick_time`, once.
    pub open spec fn timer_at(tick_time: u64, timer: Option<C::Timer>, data: Option<C::Data>) -> Self {
        EntryModel {
            tick_ms: tick_time,
            flags: set![Flag::Timeout],
            timer: timer,
            data: data,
            ..Self::empty()
        }
    }

    /// Whether the entry is a timer.
    pub open spec fn is_timer(self) -> bool {
        self.flags.contains(Flag::Timeout)
    }

    /// Whether the entry is a listener.
    pub open spec fn is_accept(self) -> bool {
        self.flags.contains(Flag::Accept)
    }

    /// Whether the interest is armed again after a delivery.
    pub open spec fn is_persist(self) -> bool {
        self.flags.contains(Flag::Persist)
    }

    /// The entry after `other` was merged into it. To take interest away
    /// (`is_del`), each direction named in `other` loses its flag and its
    /// callback; a listener named there loses its read side too. To add
    /// interest, each direction named in `other` gains its flag, and its
    /// callback where `other` brings one.
    pub open spec fn merged(self, is_del: bool, other: Self) -> Self {
        let has_read = other.flags.contains(Flag::Read);
        let has_accept = other.flags.contains(Flag::Accept);
        let has_write = other.flags.contains(Flag::Write);
        if is_del {
            EntryModel {
                flags: self.flags.difference(
                    Set::new(
                        |f: Flag|
                            (f == Flag::Read && (has_read || has_accept)) || (f == Flag::Accept
                                && has_accept) || (f == Flag::Write && has_write),
                    ),
                ),
                read: if has_read || has_accept {
                    None
                } else {
                    self.read
                },
                accept: if has_accept {
                    None
                } else {
                    self.accept
                },
                write: if has_write {
                    None
                } else {
                    self.write
                },
                ..self
            }
        } else {
            EntryModel {
                flags: self.flags.union(
                    Set::new(
                        |f: Flag|
                            (f == Flag::Read && has_read) || (f == Flag::Accept && has_accept) || (f
                                == Flag::Write && has_write),
                    ),
                ),
                read: if has_read && other.read is Some {
                    other.read
                } else {
                    self.read
                },
                accept: if has_accept && other.accept is Some {
                    other.accept
                } else {
                    self.accept
                },
                write: if has_write && other.write is Some {
                    other.write
                } else {
                    self.write
                },
                ..self
            }
        }
    }
}

/// Merging touches nothing but the three direction flags and their
/// callbacks: the descriptor, the timer fields, the end callback, the data
/// and every other flag stay.
pub proof fn lemma_merge_keeps_the_rest<C: Callbacks>(
    entry: EntryModel<C>,
    is_del: bool,
    other: EntryModel<C>,
)
    ensures
        entry.merged(is_del, other).ev_fd == entry.ev_fd,
        entry.merged(is_del, other).time_id == entry.time_id,
        entry.merged(is_del, other).tick_ms == entry.tick_ms,
        entry.merged(is_del, other).tick_step == entry.tick_step,
        entry.merged(is_del, other).end == entry.end,
        entry.merged(is_del, other).timer == entry.timer,
        entry.merged(is_del, other).data == entry.data,
        forall|f: Flag|
            f != Flag::Read && f != Flag::Write && f != Flag::Accept ==> (entry.merged(
                is_del,
                other,
            ).flags.contains(f) == entry.flags.contains(f)),
{
}

/// Interest that was added can be taken away again: after adding the
/// directions of `other` and then deleting them, none of them is armed.
pub proof fn lemma_merge_add_then_del<C: Callbacks>(entry: EntryModel<C>, other: EntryModel<C>)
    ensures
        forall|f: Flag|
            (f == Flag::Read || f == Flag::Write || f == Flag::Accept) && other.flags.contains(f)
                ==> !entry.merged(false, other).merged(true, other).flags.contains(f),
{
}

/// One registration: a socket with its interest set and callbacks, or a
/// timer with its deadline.
pub struct EventEntry<C: Callbacks> {
    /// The descriptor watched; zero in a timer.
    pub ev_fd: SOCKET,
    /// The timer's id; zero while none is assigned.
    pub time_id: u32,
    /// The deadline of a timer.
    pub tick_ms: u64,
    /// The distance between two firings of a timer.
    pub tick_step: u64,
    /// The interest set.
    pub ev_events: EventFlags,
    /// Called with each accepted connection.
    pub accept: Option<C::Accept>,
    /// Called when bytes have arrived.
    pub read: Option<C::Event>,
    /// Called when bytes have been sent.
    pub write: Option<C::Event>,
    /// Called once when the registration ends.
    pub end: Option<C::End>,
    /// Called when the timer fires.
    pub timer: Option<C::Timer>,
    /// The application's data.
    pub data: Option<C::Data>,
}

impl<C: Callbacks> View for EventEntry<C> {
    type V = EntryModel<C>;

    open spec fn view(&self) -> EntryModel<C> {
        EntryModel {
            ev_fd: self.ev_fd,
            time_id: self.time_id,
            tick_ms: self.tick_ms,
            tick_step: self.tick_step,
            flags: self.ev_events@,
            accept: self.accept,
            read: self.read,
            write: self.write,
            end: self.end,
            timer: self.timer,
            data: self.data,
        }
    }
}

impl<C: Callbacks> Default for EventEntry<C> {
    /// The entry with nothing set.
    fn default() -> (r: EventEntry<C>)
        ensures
            r@ == EntryModel::<C>::empty(),
    {
        EventEntry {
            ev_fd: 0,
            time_id: 0,
            tick_ms: 0,
            tick_step: 0,
            ev_events: EventFlags::empty(),
            accept: None,
            read: None,
            write: None,
            end: None,
            timer: None,
            data: None,
        }
    }
}

impl<C: Callbacks> EventEntry<C> {
    /// A timer due `tick_step` after the clock reading `now`; with
    /// `tick_repeat` it is armed again after each firing.
    pub fn new_timer_from(
        now: u64,
        tick_step: u64,
        tick_repeat: bool,
        timer: Option<C::Timer>,
        data: Option<C::Data>,
    ) -> (r: EventEntry<C>)
        ensures
            r@ == EntryModel::<C>::timer(now, tick_step, tick_repeat, timer, data),
    {
        let ev_events = if tick_repeat {
            let r = EventFlags::single(Flag::Timeout).union(EventFlags::single(Flag::Persist));
            proof {
                assert(r@ =~= set![Flag::Timeout, Flag::Persist]);
            }
            r
        } else {
            EventFlags::single(Flag::Timeout)
        };
        EventEntry {
            ev_fd: 0,
            time_id: 0,
            tick_ms: deadline_after(now, tick_step),
            tick_step: tick_step,
            ev_events: ev_events,
            accept: None,
            read: None,
            write: None,
            end: None,
            timer: timer,
            data: data,
        }
    }

    /// A timer due `tick_step` after now by the system clock; with
    /// `tick_repeat` it is armed again after each firing.
    pub fn new_timer(
        tick_step: u64,
        tick_repeat: bool,
        timer: Option<C::Timer>,
        data: Option<C::Data>,
    ) -> (r: EventEntry<C>)
        ensures
            exists|now: u64| r@ == EntryModel::<C>::timer(now, tick_step, tick_repeat, timer, data),
    {
        let now = now_micro();
        Self::new_timer_from(now, tick_step, tick_repeat, timer, data)
    }

    /// A timer that fires once, at `tick_time`.
    pub fn new_timer_at(tick_time: u64, timer: Option<C::Timer>, data: Option<C::Data>) -> (r:
        EventEntry<C>)
        ensures
            r@ == EntryModel::<C>::timer_at(tick_time, timer, data),
    {
        EventEntry {
            ev_fd: 0,
            time_id: 0,
            tick_ms: tick_time,
            tick_step: 0,
            ev_events: EventFlags::single(Flag::Timeout),
            accept: None,
            read: None,
            write: None,
            end: None,
            timer: timer,
            data: data,
        }
    }

    /// An entry for a connected socket.
    pub fn new_event(
        ev_fd: SOCKET,
        ev_events: EventFlags,
        read: Option<C::Event>,
        write: Option<C::Event>,
        end: Option<C::End>,
        data: Option<C::Data>,
    ) -> (r: EventEntry<C>)
        ensures
            r@ == (EntryModel::<C> {
                ev_fd: ev_fd,
                flags: ev_events@,
                read: read,
                write: write,
                end: end,
                data: data,
                ..EntryModel::<C>::empty()
            }),
            r.ev_events == ev_events,
    {
        EventEntry {
            ev_fd: ev_fd,
            time_id: 0,
            tick_ms: 0,
            tick_step: 0,
            ev_events: ev_events,
            accept: None,
            read: read,
            write: write,
            end: end,
            timer: None,
            data: data,
        }
    }

    /// An entry for a listening socket.
    pub fn new_accept(
        ev_fd: SOCKET,
        ev_events: EventFlags,
        accept: Option<C::Accept>,
        end: Option<C::End>,
        data: Option<C::Data>,
    ) -> (r: EventEntry<C>)
        ensures
            r@ == (EntryModel::<C> {
                ev_fd: ev_fd,
                flags: ev_events@,
                accept: accept,
                end: end,
                data: data,
                ..EntryModel::<C>::empty()
            }),
            r.ev_events == ev_events,
    {
        EventEntry {
            ev_fd: ev_fd,
            time_id: 0,
            tick_ms: 0,
            tick_step: 0,
            ev_events: ev_events,
            accept: accept,
            read: None,
            write: None,
            end: end,
            timer: None,
            data: data,
        }
    }

    /// An entry that names a descriptor and flags and nothing else.
    pub fn new_evfd(ev_fd: SOCKET, ev_events: EventFlags) -> (r: EventEntry<C>)
        ensures
            r@ == (EntryModel::<C> { ev_fd: ev_fd, flags: ev_events@, ..EntryModel::<C>::empty() }),
            r.ev_events == ev_events,
    {
        EventEntry {
            ev_fd: ev_fd,
            time_id: 0,
            tick_ms: 0,
            tick_step: 0,
            ev_events: ev_events,
            accept: None,
            read: None,
            write: None,
            end: None,
            timer: None,
            data: None,
        }
    }

    /// The accept callback, for the driver to call with each accepted
    /// connection. Where there is none the driver takes `OK` as the answer.
    pub fn accept_cb(&self) -> (r: Option<&C::Accept>)
        ensures
            r is None <==> self.accept is None,
            r matches Some(cb) ==> self.accept == Some(*cb),
    {
        self.accept.as_ref()
    }

    /// The read callback, for the driver to call when bytes have arrived.
    /// Where there is none the driver takes `OK` as the answer.
    pub fn read_cb(&self) -> (r: Option<&C::Event>)
        ensures
            r is None <==> self.read is None,
            r matches Some(cb) ==> self.read == Some(*cb),
    {
        self.read.as_ref()
    }

    /// The write callback, for the driver to call when bytes have been
    /// sent. Where there is none the driver takes `OK` as the answer.
    pub fn write_cb(&self) -> (r: Option<&C::Event>)
        ensures
            r is None <==> self.write is None,
            r matches Some(cb) ==> self.write == Some(*cb),
    {
        self.write.as_ref()
    }

    /// The timer callback, for the driver to call when the timer fires.
    /// Where there is none the driver takes `OK` and a step of zero as the
    /// answer.
    pub fn timer_cb(&self) -> (r: Option<&C::Timer>)
        ensures
            r is None <==> self.timer is None,
            r matches Some(cb) ==> self.timer == Some(*cb),
    {
        self.timer.as_ref()
    }

    /// What the end callback is called with: the data of the entry, which
    /// leaves the entry for good. `None`, with the data left in place,
    /// where no end callback is installed.
    pub fn end_cb(&mut self) -> (r: Option<Option<C::Data>>)
        ensures
            old(self).end is None ==> r is None && *final(self) == *old(self),
            old(self).end is Some ==> r == Some(old(self).data) && *final(self) == (EventEntry {
                data: None,
                ..*old(self)
            }),
    {
        if self.end.is_none() {
            None
        } else {
            Some(self.data.take())
        }
    }

    /// Whether every flag of `flag` is in the interest set.
    pub fn has_flag(&self, flag: EventFlags) -> (r: bool)
        ensures
            r == flag@.subset_of(self@.flags),
    {
        self.ev_events.contains(flag)
    }

    /// Merges `event` into the entry: with `is_del` the directions that
    /// `event` names are taken away, else they are added.
    pub fn merge(&mut self, is_del: bool, event: EventEntry<C>)
        ensures
            final(self)@ == old(self)@.merged(is_del, event@),
    {
        let has_read = event.ev_events.has_flag(Flag::Read);
        let has_accept = event.ev_events.has_flag(Flag::Accept);
        let has_write = event.ev_events.has_flag(Flag::Write);
        if is_del {
            if has_read || has_accept {
                self.ev_events.remove(EventFlags::single(Flag::Read));
                self.read = None;
            }
            if has_accept {
                self.ev_events.remove(EventFlags::single(Flag::Accept));
                self.accept = None;
            }
            if has_write {
                self.ev_events.remove(EventFlags::single(Flag::Write));
                self.write = None;
            }
        } else {
            if has_read {
                self.ev_events.insert(EventFlags::single(Flag::Read));
                if event.read.is_some() {
                    self.read = event.read;
                }
            }
            if has_accept {
                self.ev_events.insert(EventFlags::single(Flag::Accept));
                if event.accept.is_some() {
                    self.accept = event.accept;
                }
            }
            if has_write {
                self.ev_events.insert(EventFlags::single(Flag::Write));
                if event.write.is_some() {
                    self.write = event.write;
                }
            }
        }
        proof {
            assert(self@.flags =~= old(self)@.merged(is_del, event@).flags);
        }
    }
}

} // verus!
