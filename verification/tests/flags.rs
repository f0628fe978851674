use td_revent::event_flags::{
    FLAG_ACCEPT, FLAG_ALL, FLAG_ENDED, FLAG_ERROR, FLAG_PERSIST, FLAG_READ, FLAG_READ_PERSIST,
    FLAG_TIMEOUT, FLAG_WRITE, FLAG_WRITE_PERSIST,
};
use td_revent::{EventFlags, Flag};

#[test]
fn flag_bits_are_the_documented_ones() {
    assert_eq!(FLAG_TIMEOUT, 1);
    assert_eq!(FLAG_READ, 2);
    assert_eq!(FLAG_WRITE, 4);
    assert_eq!(FLAG_PERSIST, 8);
    assert_eq!(FLAG_ERROR, 16);
    assert_eq!(FLAG_ACCEPT, 32);
    assert_eq!(FLAG_ENDED, 64);
    assert_eq!(FLAG_READ_PERSIST, 128);
    assert_eq!(FLAG_WRITE_PERSIST, 256);
    assert_eq!(FLAG_ALL, 511);
    assert_eq!(EventFlags::single(Flag::Timeout).bits(), 1);
    assert_eq!(EventFlags::single(Flag::Read).bits(), 2);
    assert_eq!(EventFlags::single(Flag::Write).bits(), 4);
    assert_eq!(EventFlags::single(Flag::Persist).bits(), 8);
    assert_eq!(EventFlags::single(Flag::Error).bits(), 16);
    assert_eq!(EventFlags::single(Flag::Accept).bits(), 32);
    assert_eq!(EventFlags::single(Flag::Ended).bits(), 64);
    assert_eq!(EventFlags::single(Flag::ReadPersist).bits(), 128);
    assert_eq!(EventFlags::single(Flag::WritePersist).bits(), 256);
}

#[test]
fn empty_and_all() {
    assert_eq!(EventFlags::empty().bits(), 0);
    assert!(EventFlags::empty().is_empty());
    assert_eq!(EventFlags::all().bits(), 511);
    assert!(!EventFlags::all().is_empty());
    assert!(EventFlags::all().contains(EventFlags::single(Flag::Ended)));
    assert!(EventFlags::all().contains(EventFlags::empty()));
    assert!(EventFlags::empty().contains(EventFlags::empty()));
    assert!(!EventFlags::empty().contains(EventFlags::single(Flag::Read)));
}

#[test]
fn from_bits_takes_defined_bits_only() {
    assert_eq!(EventFlags::from_bits(6).map(|f| f.bits()), Some(6));
    assert_eq!(EventFlags::from_bits(511).map(|f| f.bits()), Some(511));
    assert!(EventFlags::from_bits(512).is_none());
    assert!(EventFlags::from_bits(u64::MAX).is_none());
    assert_eq!(EventFlags::from_bits_truncate(512 | 2).bits(), 2);
    assert_eq!(EventFlags::from_bits_truncate(u64::MAX).bits(), 511);
}

#[test]
fn insert_remove_contains() {
    let mut flags = EventFlags::single(Flag::Read);
    flags.insert(EventFlags::single(Flag::Persist));
    assert_eq!(flags.bits(), 10);
    assert!(flags.has_flag(Flag::Read));
    assert!(flags.has_flag(Flag::Persist));
    assert!(!flags.has_flag(Flag::Write));
    assert!(flags.contains(EventFlags::from_bits_truncate(FLAG_READ | FLAG_PERSIST)));
    assert!(!flags.contains(EventFlags::from_bits_truncate(FLAG_READ | FLAG_WRITE)));
    flags.remove(EventFlags::single(Flag::Read));
    assert_eq!(flags.bits(), 8);
    flags.remove(EventFlags::single(Flag::Read));
    assert_eq!(flags.bits(), 8);
    flags.remove(EventFlags::all());
    assert!(flags.is_empty());
}

#[test]
fn union_and_intersects() {
    let rw = EventFlags::single(Flag::Read).union(EventFlags::single(Flag::Write));
    assert_eq!(rw.bits(), 6);
    assert!(rw.intersects(EventFlags::single(Flag::Write)));
    assert!(!rw.intersects(EventFlags::single(Flag::Accept)));
    assert!(!rw.intersects(EventFlags::empty()));
    assert_eq!(rw, EventFlags::from_bits_truncate(6));
    assert_ne!(rw, EventFlags::single(Flag::Read));
}
