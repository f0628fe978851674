//! The event loop: its configuration, what callbacks answer, and the
//! decisions of a tick.
use crate::event_buffer::{raw_socket_of, EventBuffer};
use crate::event_entry::{Callbacks, EntryModel, EventEntry};
use crate::event_flags::{EventFlags, Flag};
use crate::sys::readiness::{after_send, after_unregister, Selector};
use crate::sys::{Event, EventModel, Interest, SelectorError};
use crate::timer::{micros_of, Timer, TimerModel};
use psocket::{TcpSocket, SOCKET};
use vstd::prelude::*;

verus! {

/// What a callback answers.
#[derive(Clone, Copy, Debug, PartialEq, Eq, Structural)]
pub enum RetValue {
    /// Go on as before.
    OK,
    /// Go on as before; from a timer it asks for the delay that comes with
    /// it.
    CONTINUE,
    /// End this registration.
    OVER,
}

/// How an event loop is set up.
#[derive(Clone, Copy, Debug)]
pub struct EventLoopConfig {
    /// The longest that one poll blocks, in milliseconds.
    pub io_poll_timeout_ms: usize,
    /// How many events one poll can hand back.
    pub select_catacity: usize,
    /// The size of the scratch slab of each socket.
    pub buffer_capacity: usize,
    /// The ceiling of the timer ids.
    pub time_max_id: u32,
}

impl Default for EventLoopConfig {
    /// One millisecond of polling, 1024 events, 65 536 bytes of scratch,
    /// timer ids up to half of the `u32` range.
    fn default() -> (r: EventLoopConfig)
        ensures
            r.io_poll_timeout_ms == 1,
            r.select_catacity == 1024,
            r.buffer_capacity == 65_536,
            r.time_max_id == u32::MAX / 2,
    {
        EventLoopConfig {
            io_poll_timeout_ms: 1,
            select_catacity: 1024,
            buffer_capacity: 65_536,
            time_max_id: u32::MAX / 2,
        }
    }
}

/// Whether a tick did any work: the poll handed back events, or a timer
/// fired. After a tick without work the driver sleeps for a moment.
pub open spec fn did_work(selected: usize, timers_fired: bool) -> bool {
    selected != 0 || timers_fired
}

/// The entry that goes back into the queue after its timer fired and its
/// callback answered `ret` and `next_step`; `None` where the timer is over.
/// A timer that does not repeat is over after one firing, whatever the
/// answer, and `OVER` ends a repeating one. A repeating timer goes on with
/// the step `next_step`, or with its own where `next_step` is zero.
pub open spec fn refired<C: Callbacks>(entry: EventEntry<C>, ret: RetValue, next_step: u64) -> Option<
    EventEntry<C>,
> {
    if ret == RetValue::OVER || !entry@.flags.contains(Flag::Persist) {
        None
    } else if next_step > 0 {
        Some(EventEntry { tick_step: next_step, ..entry })
    } else {
        Some(entry)
    }
}

/// A timer that does not repeat fires once: whatever its callback answers,
/// it does not go back into the queue.
pub proof fn lemma_one_shot_fires_once<C: Callbacks>(
    entry: EventEntry<C>,
    ret: RetValue,
    next_step: u64,
)
    requires
        !entry@.flags.contains(Flag::Persist),
    ensures
        refired(entry, ret, next_step) is None,
{
}

/// A repeating timer whose callback does not answer `OVER` goes back into
/// the queue with everything but its step as it was.
pub proof fn lemma_repeating_timer_goes_on<C: Callbacks>(
    entry: EventEntry<C>,
    ret: RetValue,
    next_step: u64,
)
    requires
        entry@.flags.contains(Flag::Persist),
        ret != RetValue::OVER,
    ensures
        refired(entry, ret, next_step) == Some(
            EventEntry {
                tick_step: if next_step > 0 {
                    next_step
                } else {
                    entry.tick_step
                },
                ..entry
            },
        ),
{
}

/// The state of a single-threaded event loop: whether it runs, its timers,
/// its selector and its configuration. The driver around it polls, moves
/// bytes, runs callbacks, and asks the loop what to do in between.
pub struct EventLoop<C: Callbacks> {
    /// Whether the loop is set to run.
    pub run: bool,
    /// The timer queue.
    pub timer: Timer<C>,
    /// The socket table and its rules.
    pub selector: Selector<C>,
    /// The configuration.
    pub config: EventLoopConfig,
}

impl<C: Callbacks> EventLoop<C> {
    /// Whether the loop is set to run.
    #[verifier::inline]
    pub open spec fn running(&self) -> bool {
        self.run
    }

    /// The timers.
    #[verifier::inline]
    pub open spec fn timers(&self) -> TimerModel<C> {
        self.timer@
    }

    /// The configuration.
    #[verifier::inline]
    pub open spec fn spec_config(&self) -> EventLoopConfig {
        self.config
    }

    /// The timer queue and the socket table are well formed.
    pub open spec fn wf(&self) -> bool {
        self.timer.wf() && self.selector.wf()
    }

    /// A loop with the default configuration.
    pub fn new() -> (r: EventLoop<C>)
        ensures
            r.wf(),
            r.running(),
            r.timers().entries == Map::<u32, EventEntry<C>>::empty(),
            r.timers().max_id == u32::MAX / 2,
            r.selector@ == Map::<SOCKET, EventModel<C>>::empty(),
            r.spec_config().io_poll_timeout_ms == 1,
            r.spec_config().select_catacity == 1024,
            r.spec_config().buffer_capacity == 65_536,
            r.spec_config().time_max_id == u32::MAX / 2,
    {
        Self::configured(EventLoopConfig::default())
    }

    /// A loop set up by `config`: it is set to run, and has no timer and no
    /// socket.
    pub fn configured(config: EventLoopConfig) -> (r: EventLoop<C>)
        ensures
            r.wf(),
            r.running(),
            r.timers() == (TimerModel::<C> {
                entries: Map::<u32, EventEntry<C>>::empty(),
                last_id: 0,
                max_id: config.time_max_id,
            }),
            r.selector@ == Map::<SOCKET, EventModel<C>>::empty(),
            r.selector.spec_capacity() == config.select_catacity,
            r.spec_config() == config,
    {
        EventLoop {
            run: true,
            timer: Timer::new(config.time_max_id),
            selector: Selector::new(config.select_catacity),
            config: config,
        }
    }

    /// The configuration.
    pub fn config(&self) -> (r: EventLoopConfig)
        ensures
            r == self.spec_config(),
    {
        self.config
    }

    /// Stops the loop: the driver leaves it before the next tick.
    pub fn shutdown(&mut self)
        ensures
            !final(self).running(),
            final(self).timers() == old(self).timers(),
            final(self).selector == old(self).selector,
            final(self).spec_config() == old(self).spec_config(),
            old(self).wf() ==> final(self).wf(),
    {
        self.run = false;
    }

    /// Whether the loop is set to run.
    pub fn is_running(&self) -> (r: bool)
        ensures
            r == self.running(),
    {
        self.run
    }

    /// Sets the loop to run, as the driver does when it enters the loop.
    pub fn run(&mut self)
        ensures
            final(self).running(),
            final(self).timers() == old(self).timers(),
            final(self).selector == old(self).selector,
            final(self).spec_config() == old(self).spec_config(),
            old(self).wf() ==> final(self).wf(),
    {
        self.run = true;
    }

    /// What a tick hands back: whether it did any work, given the number of
    /// events that the poll handed back and whether a timer fired.
    pub fn run_once(&self, selected: usize, timers_fired: bool) -> (r: bool)
        ensures
            r == did_work(selected, timers_fired),
    {
        selected != 0 || timers_fired
    }

    /// A buffer for `socket` with the scratch size of the configuration.
    pub fn new_buff(&self, socket: TcpSocket) -> (r: EventBuffer)
        ensures
            r@ == EventBuffer::new_model(socket, self.spec_config().buffer_capacity),
    {
        EventBuffer::new(socket, self.config.buffer_capacity)
    }

    /// The clock of the timers, in microseconds.
    pub fn now(&self) -> (r: u64)
        ensures
            exists|ns: u64| r == micros_of(ns),
            r <= u64::MAX / 1000,
    {
        self.timer.now()
    }

    /// Adds `entry` as a timer due its step after now; see
    /// [`Timer::add_timer`].
    pub fn add_timer(&mut self, entry: EventEntry<C>) -> (id: u32)
        requires
            old(self).wf(),
        ensures
            final(self).wf(),
            final(self).running() == old(self).running(),
            final(self).selector == old(self).selector,
            final(self).spec_config() == old(self).spec_config(),
            exists|now: u64|
                now <= u64::MAX / 1000 && (final(self).timers(), id) == old(self).timers().added(
                    entry,
                    now,
                ),
            entry.tick_step == 0 ==> id == 0 && final(self).timers() == old(self).timers(),
    {
        self.timer.add_timer(entry)
    }

    /// Adds a timer that fires `tick_step` after now by the system clock,
    /// and with `tick_repeat` every `tick_step` from then on. Hands back its
    /// id, or zero where no id is free.
    pub fn add_new_timer(
        &mut self,
        tick_step: u64,
        tick_repeat: bool,
        timer_cb: Option<C::Timer>,
        data: Option<C::Data>,
    ) -> (id: u32)
        requires
            old(self).wf(),
        ensures
            final(self).wf(),
            final(self).running() == old(self).running(),
            final(self).selector == old(self).selector,
            final(self).spec_config() == old(self).spec_config(),
            exists|entry: EventEntry<C>, now: u64|
                entry@ == EntryModel::<C>::timer(now, tick_step, tick_repeat, timer_cb, data) && (
                final(self).timers(), id) == old(self).timers().added_first(entry),
    {
        let entry = EventEntry::new_timer(tick_step, tick_repeat, timer_cb, data);
        self.timer.add_first_timer(entry)
    }

    /// Adds a timer that fires once, at `tick_time`. Hands back its id, or
    /// zero where no id is free.
    pub fn add_new_timer_at(
        &mut self,
        tick_time: u64,
        timer_cb: Option<C::Timer>,
        data: Option<C::Data>,
    ) -> (id: u32)
        requires
            old(self).wf(),
        ensures
            final(self).wf(),
            final(self).running() == old(self).running(),
            final(self).selector == old(self).selector,
            final(self).spec_config() == old(self).spec_config(),
            exists|entry: EventEntry<C>|
                entry@ == EntryModel::<C>::timer_at(tick_time, timer_cb, data) && (
                final(self).timers(), id) == old(self).timers().added_first(entry),
    {
        let entry = EventEntry::new_timer_at(tick_time, timer_cb, data);
        self.timer.add_first_timer(entry)
    }

    /// Deletes the timer `time_id` and hands back its entry.
    pub fn del_timer(&mut self, time_id: u32) -> (r: Option<EventEntry<C>>)
        requires
            old(self).wf(),
        ensures
            final(self).wf(),
            final(self).running() == old(self).running(),
            final(self).selector == old(self).selector,
            final(self).spec_config() == old(self).spec_config(),
            (final(self).timers(), r) == old(self).timers().deleted(time_id),
    {
        self.timer.del_timer(time_id)
    }

    /// Takes out the next timer that is due at the clock reading `now`, for
    /// the driver to run its callback; the driver reports the answer to
    /// [`EventLoop::timer_fired`] and asks again until this says `None`.
    /// Timers come by ascending deadline, and among equal deadlines by
    /// descending id.
    pub fn timer_process(&mut self, now: u64) -> (r: Option<EventEntry<C>>)
        requires
            old(self).wf(),
        ensures
            final(self).wf(),
            final(self).running() == old(self).running(),
            final(self).selector == old(self).selector,
            final(self).spec_config() == old(self).spec_config(),
            r is None <==> forall|id: u32| #[trigger]
                old(self).timers().live(id) ==> old(self).timers().deadline(id) > now,
            r is None ==> final(self).timers() == old(self).timers(),
            r matches Some(entry) ==> {
                &&& old(self).timers().is_first(entry.time_id)
                &&& entry.tick_ms <= now
                &&& (final(self).timers(), r) == old(self).timers().deleted(entry.time_id)
            },
    {
        self.timer.tick_time(now)
    }

    /// Takes in the answer of the callback of a timer that fired, `OK` and
    /// zero where none is installed, and puts the timer back into the queue
    /// where it goes on. Hands back the id under which it goes on, or zero.
    pub fn timer_fired(&mut self, entry: EventEntry<C>, ret: RetValue, next_step: u64) -> (id: u32)
        requires
            old(self).wf(),
        ensures
            final(self).wf(),
            final(self).running() == old(self).running(),
            final(self).selector == old(self).selector,
            final(self).spec_config() == old(self).spec_config(),
            refired(entry, ret, next_step) is None ==> id == 0 && final(self).timers() == old(
                self,
            ).timers(),
            refired(entry, ret, next_step) matches Some(again) ==> exists|now: u64|
                now <= u64::MAX / 1000 && (final(self).timers(), id) == old(self).timers().added(
                    again,
                    now,
                ),
    {
        let mut entry = entry;
        let over = match ret {
            RetValue::OVER => true,
            _ => !entry.ev_events.has_flag(Flag::Persist),
        };
        if over {
            return 0;
        }
        if next_step > 0 {
            entry.tick_step = next_step;
        }
        self.timer.add_timer(entry)
    }

    /// Registers the socket of `buffer` with `entry`; see
    /// [`Selector::register_socket`].
    pub fn register_socket(
        &mut self,
        buffer: EventBuffer,
        entry: EventEntry<C>,
        armed: Result<(), std::io::Error>,
    ) -> (r: Result<(), std::io::Error>)
        requires
            old(self).wf(),
        ensures
            final(self).wf(),
            final(self).running() == old(self).running(),
            final(self).timers() == old(self).timers(),
            final(self).spec_config() == old(self).spec_config(),
            r == armed,
            armed is Ok ==> final(self).selector@ == old(self).selector@.insert(
                buffer@.fd(),
                EventModel { buffer: buffer@, entry: entry@, is_end: false },
            ),
            armed is Err ==> final(self).selector@ == old(self).selector@.remove(buffer@.fd()),
    {
        self.selector.register_socket(buffer, entry, armed)
    }

    /// Takes the registration of `ev_fd` out; see
    /// [`Selector::unregister_socket`].
    pub fn unregister_socket(&mut self, ev_fd: SOCKET) -> (r: Option<Event<C>>)
        requires
            old(self).wf(),
        ensures
            final(self).wf(),
            final(self).running() == old(self).running(),
            final(self).timers() == old(self).timers(),
            final(self).spec_config() == old(self).spec_config(),
            final(self).selector@ == after_unregister(old(self).selector@, ev_fd).0,
            r is Some <==> old(self).selector@.contains_key(ev_fd),
            r matches Some(event) ==> event@ == old(self).selector@[ev_fd],
    {
        self.selector.unregister_socket(ev_fd)
    }

    /// Queues `data` for sending on `ev_fd`; see [`Selector::send_socket`].
    pub fn send_socket(&mut self, ev_fd: SOCKET, data: &[u8]) -> (r: Result<
        Option<Interest>,
        SelectorError,
    >)
        requires
            old(self).wf(),
            old(self).selector@.contains_key(ev_fd) ==> old(
                self,
            ).selector@[ev_fd].buffer.write.wpos + data@.len() <= usize::MAX,
        ensures
            final(self).wf(),
            final(self).running() == old(self).running(),
            final(self).timers() == old(self).timers(),
            final(self).spec_config() == old(self).spec_config(),
            (final(self).selector@, r) == after_send(old(self).selector@, ev_fd, data@),
    {
        self.selector.send_socket(ev_fd, data)
    }

    /// Registers a connected socket with its callbacks, after the driver
    /// has asked the poller to watch it and got `armed`.
    pub fn add_new_event(
        &mut self,
        socket: TcpSocket,
        ev_events: EventFlags,
        read: Option<C::Event>,
        write: Option<C::Event>,
        error: Option<C::End>,
        data: Option<C::Data>,
        armed: Result<(), std::io::Error>,
    ) -> (r: Result<(), std::io::Error>)
        requires
            old(self).wf(),
        ensures
            final(self).wf(),
            final(self).running() == old(self).running(),
            final(self).timers() == old(self).timers(),
            final(self).spec_config() == old(self).spec_config(),
            r == armed,
            armed is Ok ==> final(self).selector@ == old(self).selector@.insert(
                raw_socket_of(socket),
                EventModel {
                    buffer: EventBuffer::new_model(socket, old(self).spec_config().buffer_capacity),
                    entry: EntryModel::<C> {
                        ev_fd: raw_socket_of(socket),
                        flags: ev_events@,
                        read: read,
                        write: write,
                        end: error,
                        data: data,
                        ..EntryModel::<C>::empty()
                    },
                    is_end: false,
                },
            ),
            armed is Err ==> final(self).selector@ == old(self).selector@.remove(
                raw_socket_of(socket),
            ),
    {
        let buffer = self.new_buff(socket);
        let ev_fd = buffer.as_raw_socket();
        let entry = EventEntry::new_event(ev_fd, ev_events, read, write, error, data);
        self.selector.register_socket(buffer, entry, armed)
    }

    /// Registers a listening socket with its callbacks, after the driver
    /// has asked the poller to watch it and got `armed`.
    pub fn add_new_accept(
        &mut self,
        socket: TcpSocket,
        ev_events: EventFlags,
        accept: Option<C::Accept>,
        error: Option<C::End>,
        data: Option<C::Data>,
        armed: Result<(), std::io::Error>,
    ) -> (r: Result<(), std::io::Error>)
        requires
            old(self).wf(),
        ensures
            final(self).wf(),
            final(self).running() == old(self).running(),
            final(self).timers() == old(self).timers(),
            final(self).spec_config() == old(self).spec_config(),
            r == armed,
            armed is Ok ==> final(self).selector@ == old(self).selector@.insert(
                raw_socket_of(socket),
                EventModel {
                    buffer: EventBuffer::new_model(socket, old(self).spec_config().buffer_capacity),
                    entry: EntryModel::<C> {
                        ev_fd: raw_socket_of(socket),
                        flags: ev_events@,
                        accept: accept,
                        end: error,
                        data: data,
                        ..EntryModel::<C>::empty()
                    },
                    is_end: false,
                },
            ),
            armed is Err ==> final(self).selector@ == old(self).selector@.remove(
                raw_socket_of(socket),
            ),
    {
        let buffer = self.new_buff(socket);
        let ev_fd = buffer.as_raw_socket();
        let entry = EventEntry::new_accept(ev_fd, ev_events, accept, error, data);
        self.selector.register_socket(buffer, entry, armed)
    }
}

} // verus!
