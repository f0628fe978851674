use psocket::TcpSocket;
use std::io::{Error, ErrorKind};
use td_revent::sys::readiness::ReadStep;
use td_revent::sys::{Interest, SelectorError};
use td_revent::{Callbacks, EventEntry, EventFlags, EventLoop, EventLoopConfig, RetValue};

#[derive(Debug, Clone, Default, PartialEq)]
struct Point {
    x: i32,
    y: i32,
}

struct Timers;

type TimerCb = fn(&mut EventLoop<Timers>, &mut State, u32, Option<&mut Point>) -> (RetValue, u64);

impl Callbacks for Timers {
    type Accept = u8;
    type Event = u8;
    type End = u8;
    type Timer = TimerCb;
    type Data = Point;
}

struct State {
    count: u32,
    del_timer: u32,
    last_y: i32,
}

fn time_callback(
    ev: &mut EventLoop<Timers>,
    state: &mut State,
    timer: u32,
    data: Option<&mut Point>,
) -> (RetValue, u64) {
    match data {
        None => {
            state.count += 1;
            if state.count >= 5 {
                ev.shutdown();
            }
        }
        Some(obj) => {
            obj.y += 1;
            state.last_y = obj.y;
            if obj.y >= 25 {
                return (RetValue::OK, 0);
            }
            return (RetValue::CONTINUE, 10);
        }
    }
    if state.del_timer == timer {
        return (RetValue::OVER, 0);
    }
    (RetValue::OK, 0)
}

fn flags(bits: u64) -> EventFlags {
    EventFlags::from_bits(bits).unwrap()
}

#[test]
fn default_config() {
    let config = EventLoopConfig::default();
    assert_eq!(config.io_poll_timeout_ms, 1);
    assert_eq!(config.select_catacity, 1024);
    assert_eq!(config.buffer_capacity, 65_536);
    assert_eq!(config.time_max_id, u32::MAX / 2);
    assert_eq!(config.time_max_id, 2_147_483_647);
}

#[test]
fn new_loop_runs_and_is_empty() {
    let mut ev: EventLoop<Timers> = EventLoop::new();
    assert!(ev.is_running());
    assert_eq!(ev.config().buffer_capacity, 65_536);
    assert_eq!(ev.selector.capacity(), 1024);
    assert!(ev.timer_process(u64::MAX).is_none());
    assert!(ev.del_timer(1).is_none());
    ev.shutdown();
    assert!(!ev.is_running());
    ev.run();
    assert!(ev.is_running());
}

#[test]
fn configured_loop_takes_the_configuration() {
    let config = EventLoopConfig {
        io_poll_timeout_ms: 7,
        select_catacity: 32,
        buffer_capacity: 4096,
        time_max_id: 2,
    };
    let mut ev: EventLoop<Timers> = EventLoop::configured(config);
    assert_eq!(ev.config().io_poll_timeout_ms, 7);
    assert_eq!(ev.selector.capacity(), 32);
    let buf = ev.new_buff(TcpSocket::new_by_fd(1_200_001).unwrap());
    assert_eq!(buf.read_cache.len(), 4096);
    assert_eq!(ev.add_new_timer_at(10, None, None), 1);
    assert_eq!(ev.add_new_timer_at(20, None, None), 2);
    assert_eq!(ev.add_new_timer_at(30, None, None), 0);
}

#[test]
fn run_once_says_whether_work_was_done() {
    let ev: EventLoop<Timers> = EventLoop::new();
    assert!(!ev.run_once(0, false));
    assert!(ev.run_once(0, true));
    assert!(ev.run_once(3, false));
    assert!(ev.run_once(3, true));
}

#[test]
fn add_new_timer_keeps_the_deadline_of_the_entry() {
    let mut ev: EventLoop<Timers> = EventLoop::new();
    let before = td_revent::now_micro();
    let cb: TimerCb = time_callback;
    let id = ev.add_new_timer(100, true, Some(cb), None);
    let after = td_revent::now_micro();
    assert_eq!(id, 1);
    let entry = ev.del_timer(id).unwrap();
    assert!(entry.tick_ms >= before + 100 && entry.tick_ms <= after + 100);
    assert_eq!(entry.tick_step, 100);
    assert_eq!(entry.ev_events.bits(), 1 | 8);
    assert_eq!(ev.add_new_timer(0, false, None, None), 2);
    let at = ev.add_new_timer_at(5000, None, Some(Point { x: 1, y: 2 }));
    assert_eq!(at, 3);
    let entry = ev.del_timer(at).unwrap();
    assert_eq!(entry.tick_ms, 5000);
    assert_eq!(entry.data, Some(Point { x: 1, y: 2 }));
    assert_eq!(entry.ev_events.bits(), 1);
}

#[test]
fn add_timer_with_step_zero_returns_zero() {
    let mut ev: EventLoop<Timers> = EventLoop::new();
    assert_eq!(ev.add_timer(EventEntry::new_timer(0, true, None, None)), 0);
    assert!(ev.timer_process(u64::MAX).is_none());
}

#[test]
fn timer_fired_rearms_persistent_timers_only() {
    let mut ev: EventLoop<Timers> = EventLoop::new();
    let once: EventEntry<Timers> = EventEntry::new_timer_from(0, 100, false, None, None);
    assert_eq!(ev.timer_fired(once, RetValue::CONTINUE, 10), 0);
    assert!(ev.timer_process(u64::MAX).is_none());
    let mut again: EventEntry<Timers> = EventEntry::new_timer_from(0, 100, true, None, None);
    again.time_id = 4;
    let now = ev.now();
    assert_eq!(ev.timer_fired(again, RetValue::OK, 0), 4);
    let entry = ev.del_timer(4).unwrap();
    assert_eq!(entry.tick_step, 100);
    assert!(entry.tick_ms >= now + 100);
    let now = ev.now();
    assert_eq!(ev.timer_fired(entry, RetValue::CONTINUE, 7), 4);
    let entry = ev.del_timer(4).unwrap();
    assert_eq!(entry.tick_step, 7);
    assert!(entry.tick_ms >= now + 7 && entry.tick_ms <= ev.now() + 7);
    assert_eq!(ev.timer_fired(entry, RetValue::OVER, 7), 0);
    assert!(ev.del_timer(4).is_none());
}

#[test]
fn sockets_go_through_the_loop() {
    let mut ev: EventLoop<Timers> = EventLoop::new();
    let socket = TcpSocket::new_by_fd(1_200_010).unwrap();
    assert!(ev.add_new_event(socket, flags(2 | 8), Some(1), None, Some(3), None, Ok(())).is_ok());
    {
        let event = ev.selector.get(1_200_010).unwrap();
        assert_eq!(event.entry.ev_fd, 1_200_010);
        assert_eq!(event.entry.read, Some(1));
        assert_eq!(event.buffer.read_cache.len(), 65_536);
    }
    assert_eq!(ev.selector.read_ready(1_200_010), ReadStep::Read);
    let listener = TcpSocket::new_by_fd(1_200_011).unwrap();
    assert!(ev.add_new_accept(listener, flags(32 | 8), Some(2), None, None, Ok(())).is_ok());
    assert_eq!(ev.selector.read_ready(1_200_011), ReadStep::Accept);
    assert_eq!(ev.selector.get(1_200_011).unwrap().entry.accept, Some(2));
    assert_eq!(
        ev.send_socket(1_200_010, b"abc"),
        Ok(Some(Interest { readable: true, writable: true }))
    );
    assert_eq!(ev.send_socket(1_200_012, b"abc"), Err(SelectorError::NotRegistered));
    let refused = TcpSocket::new_by_fd(1_200_013).unwrap();
    let err = Err(Error::new(ErrorKind::Other, "no"));
    assert!(ev.add_new_event(refused, flags(2), None, None, None, None, err).is_err());
    assert!(ev.selector.get(1_200_013).is_none());
    let buffer = ev.new_buff(TcpSocket::new_by_fd(1_200_014).unwrap());
    let entry = EventEntry::new_evfd(1_200_014, flags(2));
    assert!(ev.register_socket(buffer, entry, Ok(())).is_ok());
    assert!(ev.unregister_socket(1_200_014).is_some());
    assert!(ev.unregister_socket(1_200_014).is_none());
    assert!(ev.unregister_socket(1_200_010).is_some());
    assert_eq!(ev.selector.read_ready(1_200_010), ReadStep::Ignore);
}

#[test]
fn test_timer() {
    println!("Starting TEST_TIMER");
    let mut event_loop: EventLoop<Timers> = EventLoop::new();
    let mut state = State { count: 0, del_timer: 0, last_y: 0 };
    let p = Point { x: 10, y: 20 };
    let cb: TimerCb = time_callback;
    event_loop.add_timer(EventEntry::new_timer(100, false, Some(cb), Some(p)));
    state.del_timer = event_loop.add_timer(EventEntry::new_timer(150, true, Some(cb), None));
    event_loop.add_timer(EventEntry::new_timer(200, true, Some(cb), None));
    event_loop.run();
    let mut fired_of_deleted = 0;
    while event_loop.is_running() {
        let now = event_loop.now();
        let mut is_op = false;
        while let Some(mut entry) = event_loop.timer_process(now) {
            is_op = true;
            let time_id = entry.time_id;
            if time_id == state.del_timer {
                fired_of_deleted += 1;
            }
            let (ret, step) = match entry.timer_cb().copied() {
                Some(cb) => {
                    let mut data = entry.data.take();
                    let answer = cb(&mut event_loop, &mut state, time_id, data.as_mut());
                    entry.data = data;
                    answer
                }
                None => (RetValue::OK, 0),
            };
            event_loop.timer_fired(entry, ret, step);
        }
        let _ = event_loop.run_once(0, is_op);
    }
    assert!(state.count == 5);
    assert_eq!(fired_of_deleted, 1);
    assert_eq!(state.last_y, 21);
}
