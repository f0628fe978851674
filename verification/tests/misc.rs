use nix::errno::Errno;
use td_revent::sys::error::from_nix_error;
use td_revent::sys::socket::{htonl, htons, ntohl, ntohs, Socket};
use std::time::{Duration, UNIX_EPOCH};
use td_revent::{millis_from_parts, millis_since_epoch, now_micro};

#[test]
fn millis_from_parts_of_a_duration() {
    assert_eq!(millis_from_parts(0, 0), 0);
    assert_eq!(millis_from_parts(1, 0), 1000);
    assert_eq!(millis_from_parts(1, 999_999), 1000);
    assert_eq!(millis_from_parts(1, 1_000_000), 1001);
    assert_eq!(millis_from_parts(1_700_000_000, 123_456_789), 1_700_000_000_123);
    assert_eq!(millis_from_parts(u64::MAX / 1000, 0), u64::MAX / 1000 * 1000);
    assert_eq!(millis_from_parts(u64::MAX / 1000, 615_000_000), u64::MAX);
    assert_eq!(millis_from_parts(u64::MAX / 1000, 616_000_000), u64::MAX);
    assert_eq!(millis_from_parts(u64::MAX / 1000 + 1, 0), u64::MAX);
    assert_eq!(millis_from_parts(u64::MAX, 999_999_999), u64::MAX);
}

#[test]
fn millis_since_epoch_of_a_span() {
    assert_eq!(millis_since_epoch(Ok(Duration::new(1, 5_000_000))), 1005);
    assert_eq!(millis_since_epoch(Ok(Duration::new(0, 999_999))), 0);
    assert_eq!(millis_since_epoch(Ok(Duration::new(1_700_000_000, 123_456_789))), 1_700_000_000_123);
    assert_eq!(millis_since_epoch(Ok(Duration::from_secs(u64::MAX))), u64::MAX);
    let before = UNIX_EPOCH.duration_since(UNIX_EPOCH + Duration::from_secs(1));
    assert!(before.is_err());
    assert_eq!(millis_since_epoch(before), 0);
}

#[test]
fn now_micro_is_after_the_year_2020() {
    let now = now_micro();
    assert!(now > 1_577_836_800_000);
    assert!(now_micro() >= now);
}

#[test]
fn byte_order_round_trips() {
    assert!(htons(0x1234) == 0x1234 || htons(0x1234) == 0x3412);
    assert!(htonl(0x1234_5678) == 0x1234_5678 || htonl(0x1234_5678) == 0x7856_3412);
    assert_eq!(htons(0x1234), 0x1234u16.to_be());
    assert_eq!(ntohs(0x1234), u16::from_be(0x1234));
    assert_eq!(htonl(0x1234_5678), 0x1234_5678u32.to_be());
    assert_eq!(ntohl(0x1234_5678), u32::from_be(0x1234_5678));
    assert_eq!(ntohs(htons(0xBEEF)), 0xBEEF);
    assert_eq!(htons(ntohs(0xBEEF)), 0xBEEF);
    assert_eq!(ntohl(htonl(0xDEAD_BEEF)), 0xDEAD_BEEF);
    assert_eq!(htonl(ntohl(0xDEAD_BEEF)), 0xDEAD_BEEF);
    assert_eq!(htons(0x1234), ntohs(0x1234));
    assert_eq!(htonl(0x1234_5678), ntohl(0x1234_5678));
    assert_eq!(htons(0), 0);
    assert_eq!(htonl(u32::MAX), u32::MAX);
    assert_eq!(htons(80).to_ne_bytes(), [0, 80]);
    assert_eq!(htonl(1).to_ne_bytes(), [0, 0, 0, 1]);
}

#[test]
fn socket_keeps_its_descriptor() {
    let s = Socket::new_by_fd(42);
    assert_eq!(s.fileno(), 42);
    assert_eq!(s.clone().fileno(), 42);
    assert_eq!(Socket::new_by_fd(-1).fileno(), -1);
}

#[test]
fn from_nix_error_keeps_the_number() {
    let e = from_nix_error(Errno::EAGAIN);
    assert_eq!(e.raw_os_error(), Some(Errno::EAGAIN as i32));
    assert_eq!(from_nix_error(Errno::EBADF).raw_os_error(), Some(9));
    assert_eq!(from_nix_error(Errno::ENOENT).raw_os_error(), Some(2));
    assert_eq!(from_nix_error(Errno::EINTR).kind(), std::io::ErrorKind::Interrupted);
}
