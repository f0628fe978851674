use td_revent::Buffer;

#[test]
fn new_buffer_is_empty() {
    let buf = Buffer::new();
    assert_eq!(buf.len(), 0);
    assert!(buf.empty());
    assert_eq!(buf.get_rpos(), 0);
    assert_eq!(buf.get_wpos(), 0);
    assert!(buf.get_data().is_empty());
}

#[test]
fn write_appends_at_the_write_cursor() {
    let mut buf = Buffer::new();
    assert_eq!(buf.write(b"hello"), 5);
    assert_eq!(buf.get_wpos(), 5);
    assert_eq!(buf.write(b" world"), 6);
    assert_eq!(buf.get_wpos(), 11);
    assert_eq!(buf.get_data(), &b"hello world".to_vec());
    assert_eq!(buf.len(), 11);
    assert!(!buf.empty());
}

#[test]
fn write_of_nothing_changes_nothing() {
    let mut buf = Buffer::new();
    buf.write(b"abc");
    assert_eq!(buf.write(b""), 0);
    assert_eq!(buf.get_data(), &b"abc".to_vec());
    assert_eq!(buf.get_wpos(), 3);
}

#[test]
fn write_overwrites_from_a_moved_cursor() {
    let mut buf = Buffer::new();
    buf.write(b"abcdef");
    buf.set_wpos(2);
    assert_eq!(buf.write(b"XY"), 2);
    assert_eq!(buf.get_data(), &b"abXYef".to_vec());
    assert_eq!(buf.get_wpos(), 4);
}

#[test]
fn write_behind_the_end_fills_with_zeros() {
    let mut buf = Buffer::new();
    buf.write(b"ab");
    buf.set_wpos(4);
    assert_eq!(buf.write(b"Z"), 1);
    assert_eq!(buf.get_data(), &vec![b'a', b'b', 0, 0, b'Z']);
    assert_eq!(buf.get_wpos(), 5);
}

#[test]
fn read_copies_from_the_read_cursor() {
    let mut buf = Buffer::new();
    buf.write(b"hello world");
    let mut dst = [0u8; 5];
    assert_eq!(buf.read(&mut dst), 5);
    assert_eq!(&dst, b"hello");
    assert_eq!(buf.get_rpos(), 5);
    let mut rest = [b'-'; 10];
    assert_eq!(buf.read(&mut rest), 6);
    assert_eq!(&rest, b" world----");
    assert_eq!(buf.get_rpos(), 11);
    assert_eq!(buf.len(), 11);
}

#[test]
fn read_from_an_empty_buffer_gives_zero() {
    let mut buf = Buffer::new();
    let mut dst = [7u8; 4];
    assert_eq!(buf.read(&mut dst), 0);
    assert_eq!(dst, [7u8; 4]);
    assert_eq!(buf.get_rpos(), 0);
}

#[test]
fn read_into_no_room_gives_zero() {
    let mut buf = Buffer::new();
    buf.write(b"abc");
    let mut dst = [0u8; 0];
    assert_eq!(buf.read(&mut dst), 0);
    assert_eq!(buf.get_rpos(), 0);
}

#[test]
fn read_with_the_cursor_behind_the_end_gives_zero() {
    let mut buf = Buffer::new();
    buf.write(b"abc");
    buf.set_rpos(10);
    let mut dst = [0u8; 4];
    assert_eq!(buf.read(&mut dst), 0);
    assert_eq!(buf.get_rpos(), 10);
}

#[test]
fn drain_removes_a_prefix_and_lowers_the_cursors() {
    let mut buf = Buffer::new();
    buf.write(b"hello world");
    buf.set_rpos(7);
    buf.drain(6);
    assert_eq!(buf.get_data(), &b"world".to_vec());
    assert_eq!(buf.get_rpos(), 1);
    assert_eq!(buf.get_wpos(), 5);
}

#[test]
fn drain_stops_the_cursors_at_zero() {
    let mut buf = Buffer::new();
    buf.write(b"abcdef");
    buf.set_rpos(2);
    buf.drain(4);
    assert_eq!(buf.get_rpos(), 0);
    assert_eq!(buf.get_wpos(), 2);
    assert_eq!(buf.get_data(), &b"ef".to_vec());
}

#[test]
fn drain_past_the_end_clears() {
    let mut buf = Buffer::new();
    buf.write(b"abc");
    buf.set_rpos(1);
    buf.drain(100);
    assert!(buf.empty());
    assert_eq!(buf.get_rpos(), 0);
    assert_eq!(buf.get_wpos(), 0);
}

#[test]
fn drain_past_the_end_leaves_a_cursor_that_stood_further() {
    let mut buf = Buffer::new();
    buf.write(b"ab");
    buf.set_rpos(10);
    buf.drain(5);
    assert!(buf.empty());
    assert_eq!(buf.get_rpos(), 5);
    assert_eq!(buf.get_wpos(), 0);
}

#[test]
fn write_then_drain_collect_gives_the_bytes_back() {
    let mut buf = Buffer::new();
    let bytes = b"hello world. ".to_vec();
    assert_eq!(buf.write(&bytes), bytes.len());
    assert_eq!(buf.drain_collect(bytes.len()), bytes);
    assert!(buf.empty());
    assert_eq!(buf.get_wpos(), 0);
}

#[test]
fn drain_collect_hands_back_the_prefix() {
    let mut buf = Buffer::new();
    buf.write(b"abcdef");
    assert_eq!(buf.drain_collect(2), b"ab".to_vec());
    assert_eq!(buf.get_data(), &b"cdef".to_vec());
    assert_eq!(buf.get_wpos(), 4);
    assert_eq!(buf.drain_collect(10), b"cdef".to_vec());
    assert!(buf.empty());
}

#[test]
fn drain_all_and_drain_all_collect() {
    let mut buf = Buffer::new();
    buf.write(b"abcdef");
    buf.set_rpos(3);
    assert_eq!(buf.drain_all_collect(), b"abcdef".to_vec());
    assert!(buf.empty());
    assert_eq!(buf.get_rpos(), 0);
    assert_eq!(buf.get_wpos(), 0);
    buf.write(b"xyz");
    buf.drain_all();
    assert!(buf.empty());
    assert_eq!(buf.get_wpos(), 0);
}

#[test]
fn clear_is_idempotent() {
    let mut buf = Buffer::new();
    buf.write(b"abcdef");
    buf.set_rpos(4);
    buf.clear();
    assert!(buf.empty());
    assert_eq!(buf.get_rpos(), 0);
    assert_eq!(buf.get_wpos(), 0);
    buf.clear();
    assert!(buf.empty());
    assert_eq!(buf.get_rpos(), 0);
    assert_eq!(buf.get_wpos(), 0);
}

#[test]
fn cursors_can_be_set_freely() {
    let mut buf = Buffer::new();
    buf.set_rpos(9);
    buf.set_wpos(3);
    assert_eq!(buf.get_rpos(), 9);
    assert_eq!(buf.get_wpos(), 3);
    assert_eq!(buf.len(), 0);
}
