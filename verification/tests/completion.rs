use psocket::TcpSocket;
use std::io::{Error, ErrorKind};
use std::time::Duration;
use td_revent::sys::completion::{dur2ms, dur2ms_parts, Next, PostPlan, ReadDone, Selector, INFINITE};
use td_revent::sys::{Outcome, SelectorError};
use td_revent::{Callbacks, EventBuffer, EventEntry, EventFlags, Flag, RetValue};

struct Plain;

impl Callbacks for Plain {
    type Accept = u8;
    type Event = u8;
    type End = u8;
    type Timer = u8;
    type Data = String;
}

fn flags(bits: u64) -> EventFlags {
    EventFlags::from_bits(bits).unwrap()
}

fn buffer(fd: i32) -> EventBuffer {
    EventBuffer::new(TcpSocket::new_by_fd(fd).unwrap(), 2048)
}

fn registered(fd: i32, bits: u64) -> Selector<Plain> {
    let mut sel: Selector<Plain> = Selector::new(16);
    let entry = EventEntry::new_event(fd, flags(bits), Some(1), Some(2), Some(3), None);
    assert!(sel.register_socket(buffer(fd), entry, Ok(())).is_ok());
    sel
}

fn listener(fd: i32, bits: u64) -> Selector<Plain> {
    let mut sel: Selector<Plain> = Selector::new(16);
    let entry = EventEntry::new_accept(fd, flags(bits), Some(1), Some(3), None);
    assert!(sel.register_socket(buffer(fd), entry, Ok(())).is_ok());
    sel
}

fn fill_scratch(sel: &mut Selector<Plain>, fd: i32, bytes: &[u8]) {
    let mut event = sel.take(fd).unwrap();
    event.buffer.read_cache[..bytes.len()].copy_from_slice(bytes);
    sel.put(event);
}

const NOTHING: PostPlan = PostPlan { accept: false, read: false, write: false };

#[test]
fn dur2ms_of_spans() {
    assert_eq!(INFINITE, u32::MAX);
    assert_eq!(dur2ms(None), INFINITE);
    assert_eq!(dur2ms(Some(Duration::from_millis(0))), 0);
    assert_eq!(dur2ms(Some(Duration::from_millis(1500))), 1500);
    assert_eq!(dur2ms(Some(Duration::new(2, 999_999_999))), 2999);
    assert_eq!(dur2ms(Some(Duration::from_secs(5_000_000))), u32::MAX);
    assert_eq!(dur2ms(Some(Duration::from_secs(u64::MAX))), INFINITE - 1);
    assert_eq!(dur2ms_parts(None), INFINITE);
    assert_eq!(dur2ms_parts(Some((1, 2_000_000))), 1002);
    assert_eq!(dur2ms_parts(Some((4_294_967, 295_000_000))), u32::MAX);
    assert_eq!(dur2ms_parts(Some((4_294_967, 294_000_000))), u32::MAX - 1);
    assert_eq!(dur2ms_parts(Some((u64::MAX / 1000 + 1, 0))), INFINITE - 1);
}

#[test]
fn register_and_first_posts() {
    let mut sel = registered(1_100_001, 2 | 8);
    assert_eq!(sel.capacity(), 16);
    assert_eq!(sel.check_socket_event(1_100_001), PostPlan { accept: false, read: true, write: false });
    assert!(sel.get(1_100_001).unwrap().buffer.is_in_read);
    assert_eq!(sel.check_socket_event(1_100_001), NOTHING);
    assert_eq!(sel.check_socket_event(1_100_002), NOTHING);
    assert!(sel.register_posted(1_100_001, Ok(())).is_ok());
    assert!(sel.get(1_100_001).is_some());
    let failed = Err(Error::new(ErrorKind::Other, "post"));
    assert_eq!(sel.register_posted(1_100_001, failed).unwrap_err().to_string(), "post");
    assert!(sel.get(1_100_001).is_none());
}

#[test]
fn port_error_leaves_no_entry() {
    let mut sel = registered(1_100_003, 2);
    let entry = EventEntry::new_event(1_100_003, flags(2), None, None, None, None);
    let refused = Err(Error::new(ErrorKind::Other, "port"));
    assert!(sel.register_socket(buffer(1_100_003), entry, refused).is_err());
    assert!(sel.get(1_100_003).is_none());
}

#[test]
fn check_posts_an_accept_for_a_listener() {
    let mut sel = listener(1_100_010, 2 | 4 | 32 | 8);
    assert_eq!(sel.check_socket_event(1_100_010), PostPlan { accept: true, read: false, write: false });
    assert!(sel.get(1_100_010).unwrap().buffer.is_in_read);
    assert_eq!(sel.check_socket_event(1_100_010), NOTHING);
}

#[test]
fn check_posts_a_send_where_bytes_wait() {
    let mut sel = registered(1_100_011, 4);
    assert_eq!(sel.check_socket_event(1_100_011), NOTHING);
    let mut event = sel.take(1_100_011).unwrap();
    event.buffer.write.write(b"abc");
    sel.put(event);
    assert_eq!(sel.check_socket_event(1_100_011), PostPlan { accept: false, read: false, write: true });
    assert!(!sel.get(1_100_011).unwrap().buffer.is_in_read);
}

#[test]
fn accepting_on_a_persistent_listener_rearms() {
    let mut sel = listener(1_100_020, 32 | 8);
    assert!(sel.check_socket_event(1_100_020).accept);
    assert_eq!(sel.read_done(1_100_020, false, 0), ReadDone::Accept);
    assert!(!sel.get(1_100_020).unwrap().buffer.is_in_read);
    assert_eq!(sel.accept_delivered(1_100_020, RetValue::OK), Next::Post);
    assert!(sel.get(1_100_020).unwrap().buffer.is_in_read);
    assert_eq!(sel.get(1_100_020).unwrap().entry.ev_events.bits(), 32 | 8);
    assert_eq!(sel.read_done(1_100_020, false, 0), ReadDone::Accept);
    assert_eq!(sel.accept_delivered(1_100_020, RetValue::CONTINUE), Next::Post);
    let mut other = listener(1_100_021, 32 | 128);
    assert_eq!(other.read_done(1_100_021, false, 0), ReadDone::Accept);
    assert_eq!(other.accept_delivered(1_100_021, RetValue::OK), Next::Post);
}

#[test]
fn a_listener_that_is_not_persistent_accepts_once() {
    let mut sel = listener(1_100_022, 2 | 32);
    assert!(sel.check_socket_event(1_100_022).accept);
    assert_eq!(sel.read_done(1_100_022, false, 0), ReadDone::Accept);
    assert_eq!(sel.accept_delivered(1_100_022, RetValue::OK), Next::Stop);
    assert_eq!(sel.get(1_100_022).unwrap().entry.ev_events.bits(), 0);
    assert!(!sel.get(1_100_022).unwrap().buffer.is_in_read);
}

#[test]
fn accept_callback_over_unregisters() {
    let mut sel = listener(1_100_023, 32 | 8);
    assert_eq!(sel.read_done(1_100_023, false, 0), ReadDone::Accept);
    assert_eq!(sel.accept_delivered(1_100_023, RetValue::OVER), Next::Unregister);
    assert_eq!(sel.get(1_100_023).unwrap().entry.ev_events.bits(), 32 | 8);
    assert_eq!(sel.accept_delivered(1_100_024, RetValue::OK), Next::Stop);
}

#[test]
fn read_done_appends_and_rearms() {
    let mut sel = registered(1_100_030, 2 | 8);
    assert!(sel.check_socket_event(1_100_030).read);
    fill_scratch(&mut sel, 1_100_030, b"hello world. ");
    assert_eq!(sel.read_done(1_100_030, false, 13), ReadDone::Deliver);
    {
        let event = sel.get(1_100_030).unwrap();
        assert_eq!(event.buffer.read.get_data(), &b"hello world. ".to_vec());
        assert!(!event.buffer.is_in_read);
    }
    assert_eq!(sel.read_delivered(1_100_030, RetValue::OK), Next::Post);
    assert!(sel.get(1_100_030).unwrap().buffer.is_in_read);
    assert_eq!(sel.read_delivered(1_100_030, RetValue::OK), Next::Stop);
    assert_eq!(sel.read_done(1_100_031, false, 3), ReadDone::Ignore);
    assert_eq!(sel.read_delivered(1_100_031, RetValue::OK), Next::Stop);
}

#[test]
fn read_done_of_zero_bytes_or_sentinel() {
    let mut sel = registered(1_100_032, 2 | 8);
    assert_eq!(sel.read_done(1_100_032, false, 0), ReadDone::Unregister);
    assert_eq!(sel.read_done(1_100_032, true, 0), ReadDone::Teardown);
    assert_eq!(sel.read_done(1_100_032, true, 7), ReadDone::Teardown);
    assert!(sel.get(1_100_032).unwrap().buffer.read.empty());
}

#[test]
fn a_read_that_is_not_persistent_stops() {
    let mut sel = registered(1_100_033, 2);
    assert!(sel.check_socket_event(1_100_033).read);
    fill_scratch(&mut sel, 1_100_033, b"ab");
    assert_eq!(sel.read_done(1_100_033, false, 2), ReadDone::Deliver);
    assert_eq!(sel.read_delivered(1_100_033, RetValue::OK), Next::Stop);
    assert_eq!(sel.get(1_100_033).unwrap().entry.ev_events.bits(), 0);
    let mut own = registered(1_100_034, 2 | 128);
    assert_eq!(own.read_done(1_100_034, false, 2), ReadDone::Deliver);
    assert_eq!(own.read_delivered(1_100_034, RetValue::OK), Next::Post);
    assert_eq!(own.get(1_100_034).unwrap().entry.ev_events.bits(), 2 | 128);
}

#[test]
fn read_callback_over_unregisters() {
    let mut sel = registered(1_100_035, 2 | 8);
    assert_eq!(sel.read_done(1_100_035, false, 2), ReadDone::Deliver);
    assert_eq!(sel.read_delivered(1_100_035, RetValue::OVER), Next::Unregister);
    assert!(!sel.get(1_100_035).unwrap().buffer.is_in_read);
}

#[test]
fn post_failed_keeps_the_error() {
    let mut sel = registered(1_100_036, 2 | 8);
    assert!(sel.check_socket_event(1_100_036).read);
    let e = Error::new(ErrorKind::ConnectionAborted, "aborted");
    assert_eq!(sel.post_failed(1_100_036, e), Outcome::Unregister);
    let event = sel.get(1_100_036).unwrap();
    assert!(!event.buffer.is_in_read);
    assert_eq!(event.buffer.error.as_ref().unwrap_err().kind(), ErrorKind::ConnectionAborted);
    let mut sel = registered(1_100_037, 2);
    assert_eq!(sel.post_failed(1_100_038, Error::new(ErrorKind::Other, "x")), Outcome::Unregister);
    assert!(sel.get(1_100_037).unwrap().buffer.error.is_ok());
}

#[test]
fn send_issues_one_write_at_a_time() {
    let mut sel = registered(1_100_040, 2 | 8);
    assert_eq!(sel.send_socket(1_100_040, b""), Ok(false));
    assert_eq!(sel.send_socket(1_100_040, b"hello world"), Ok(true));
    assert_eq!(sel.write_posted(1_100_040, Some(5)), 5);
    {
        let event = sel.get(1_100_040).unwrap();
        assert!(event.buffer.is_in_write);
        assert_eq!(event.buffer.write.get_data(), &b" world".to_vec());
    }
    assert_eq!(sel.send_socket(1_100_040, b"!"), Ok(false));
    assert_eq!(sel.get(1_100_040).unwrap().buffer.write.get_data(), &b" world!".to_vec());
    assert!(sel.write_done(1_100_040));
    assert!(!sel.get(1_100_040).unwrap().buffer.is_in_write);
    assert_eq!(sel.write_delivered(1_100_040, RetValue::OK), Next::Post);
    assert_eq!(sel.write_posted(1_100_040, Some(7)), 7);
    assert!(!sel.get(1_100_040).unwrap().buffer.is_in_write);
    assert!(sel.get(1_100_040).unwrap().buffer.write.empty());
    assert!(sel.write_done(1_100_040));
    assert_eq!(sel.write_delivered(1_100_040, RetValue::OK), Next::Stop);
    assert_eq!(sel.send_socket(1_100_041, b"x"), Err(SelectorError::NotRegistered));
    assert_eq!(sel.post_write_event(1_100_041, None), Err(SelectorError::NotRegistered));
    assert!(!sel.write_done(1_100_041));
    assert_eq!(sel.write_posted(1_100_041, Some(3)), 0);
    assert_eq!(sel.write_delivered(1_100_041, RetValue::OK), Next::Stop);
}

#[test]
fn a_pending_write_counts_as_under_way() {
    let mut sel = registered(1_100_042, 2 | 8);
    assert_eq!(sel.send_socket(1_100_042, b"abc"), Ok(true));
    assert_eq!(sel.write_posted(1_100_042, None), 0);
    assert!(sel.get(1_100_042).unwrap().buffer.is_in_write);
    assert_eq!(sel.get(1_100_042).unwrap().buffer.write.len(), 3);
    assert_eq!(sel.post_write_event(1_100_042, None), Ok(false));
    assert_eq!(sel.write_delivered(1_100_042, RetValue::OK), Next::Stop);
    assert_eq!(sel.write_delivered(1_100_042, RetValue::OVER), Next::Unregister);
}

#[test]
fn graceful_teardown() {
    let mut sel = registered(1_100_050, 2 | 8);
    assert!(sel.check_socket_event(1_100_050).read);
    assert_eq!(sel.send_socket(1_100_050, b"still queued"), Ok(true));
    assert_eq!(sel.write_posted(1_100_050, None), 0);
    assert!(sel.unregister_socket(1_100_050));
    assert!(sel.get(1_100_050).unwrap().is_end);
    assert!(!sel.unregister_socket(1_100_050));
    assert!(!sel.unregister_socket(1_100_051));
    assert_eq!(sel.send_socket(1_100_050, b"more"), Ok(false));
    assert_eq!(sel.read_done(1_100_050, true, 0), ReadDone::Teardown);
    let mut event = sel.finish_unregister(1_100_050).unwrap();
    assert_eq!(event.buffer.write.get_data(), &b"still queuedmore".to_vec());
    assert!(event.buffer.error.is_ok());
    assert_eq!(event.entry.end_cb(), Some(None));
    assert!(sel.get(1_100_050).is_none());
    assert!(sel.finish_unregister(1_100_050).is_none());
    assert!(!sel.unregister_socket(1_100_050));
    assert_eq!(sel.read_done(1_100_050, true, 0), ReadDone::Ignore);
}

#[test]
fn an_ended_row_posts_no_read() {
    let mut sel = registered(1_100_052, 2 | 4 | 8);
    let mut event = sel.take(1_100_052).unwrap();
    event.buffer.write.write(b"abc");
    sel.put(event);
    assert!(sel.unregister_socket(1_100_052));
    assert_eq!(sel.check_socket_event(1_100_052), NOTHING);
    assert_eq!(sel.read_delivered(1_100_052, RetValue::OK), Next::Stop);
    assert_eq!(sel.write_delivered(1_100_052, RetValue::OK), Next::Stop);
}

#[test]
fn modify_merges_and_posts() {
    let mut sel = registered(1_100_060, 8);
    assert_eq!(sel.check_socket_event(1_100_060), NOTHING);
    let add = EventEntry::new_event(1_100_060, flags(2), Some(9), None, None, None);
    assert_eq!(
        sel.modify_socket(false, 1_100_060, add),
        Some(PostPlan { accept: false, read: true, write: false })
    );
    assert_eq!(sel.get(1_100_060).unwrap().entry.read, Some(9));
    assert!(sel.get(1_100_060).unwrap().entry.ev_events.has_flag(Flag::Read));
    let again = EventEntry::new_evfd(1_100_060, flags(2));
    assert_eq!(sel.modify_socket(false, 1_100_060, again), Some(NOTHING));
    let del = EventEntry::new_evfd(1_100_060, flags(2));
    assert_eq!(sel.modify_socket(true, 1_100_060, del), Some(NOTHING));
    assert_eq!(sel.get(1_100_060).unwrap().entry.ev_events.bits(), 8);
    let other = EventEntry::new_evfd(1_100_061, flags(2));
    assert_eq!(sel.modify_socket(false, 1_100_061, other), None);
}

#[test]
fn test_echo_server() {
    println!("Starting TEST_ECHO_SERVER");
    let addr = "127.0.0.1:10090";
    assert!(addr.ends_with("10090"));
    let (server, client) = (1_100_070, 1_100_071);
    let mut sel = registered(server, 2 | 8);
    let entry = EventEntry::new_event(client, flags(2 | 8), Some(1), None, Some(3), None);
    assert!(sel.register_socket(buffer(client), entry, Ok(())).is_ok());
    assert!(sel.check_socket_event(server).read);
    assert!(sel.check_socket_event(client).read);
    let mut wire: Vec<u8> = b"hello world".to_vec();
    let mut to_server = true;
    let mut count = 0;
    loop {
        let here = if to_server { server } else { client };
        fill_scratch(&mut sel, here, &wire);
        assert_eq!(sel.read_done(here, false, wire.len()), ReadDone::Deliver);
        let mut event = sel.take(here).unwrap();
        let data = event.buffer.read.drain_all_collect();
        sel.put(event);
        assert_eq!(data, b"hello world".to_vec());
        if !to_server {
            count += 1;
        }
        let ret = if count >= 6 { RetValue::OVER } else { RetValue::OK };
        if ret == RetValue::OK {
            assert_eq!(sel.send_socket(here, &data), Ok(true));
            wire = sel.get(here).unwrap().buffer.write.get_data().clone();
            assert_eq!(sel.write_posted(here, Some(wire.len())), wire.len());
            assert!(sel.write_done(here));
            assert_eq!(sel.write_delivered(here, RetValue::OK), Next::Stop);
        }
        match sel.read_delivered(here, ret) {
            Next::Post => {}
            Next::Unregister => break,
            Next::Stop => panic!("a persistent read stays armed"),
        }
        to_server = !to_server;
    }
    assert!(count == 6);
    let mut ended = 0;
    for fd in [client, server] {
        assert!(sel.unregister_socket(fd));
        assert_eq!(sel.read_done(fd, true, 0), ReadDone::Teardown);
        let mut gone = sel.finish_unregister(fd).unwrap();
        if gone.entry.end_cb().is_some() {
            ended += 1;
        }
    }
    assert_eq!(ended, 2);
    assert!(sel.get(server).is_none() && sel.get(client).is_none());
}
