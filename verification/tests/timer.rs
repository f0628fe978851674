use td_revent::timer::micros_from_nanos;
use td_revent::{Callbacks, EventEntry, Timer};

struct Plain;

impl Callbacks for Plain {
    type Accept = u8;
    type Event = u8;
    type End = u8;
    type Timer = u8;
    type Data = String;
}

fn timer_entry(step: u64) -> EventEntry<Plain> {
    EventEntry::new_timer_from(0, step, false, None, None)
}

#[test]
fn new_timer_queue_is_empty() {
    let mut timer: Timer<Plain> = Timer::new(100);
    assert_eq!(timer.tick_first(), None);
    assert!(timer.tick_time(u64::MAX).is_none());
    assert!(timer.del_timer(1).is_none());
}

#[test]
fn add_timer_sets_id_and_deadline() {
    let mut timer: Timer<Plain> = Timer::new(100);
    let id = timer.add_timer_from(timer_entry(50), 1000);
    assert_eq!(id, 1);
    assert_eq!(timer.tick_first(), Some(1050));
    let entry = timer.del_timer(id).unwrap();
    assert_eq!(entry.time_id, 1);
    assert_eq!(entry.tick_ms, 1050);
    assert_eq!(entry.tick_step, 50);
}

#[test]
fn add_timer_with_step_zero_is_rejected() {
    let mut timer: Timer<Plain> = Timer::new(100);
    assert_eq!(timer.add_timer_from(timer_entry(0), 1000), 0);
    assert_eq!(timer.add_timer(timer_entry(0)), 0);
    assert_eq!(timer.tick_first(), None);
    assert_eq!(timer.add_timer_from(timer_entry(5), 1000), 1);
}

#[test]
fn add_then_del_leaves_the_queue_empty() {
    let mut timer: Timer<Plain> = Timer::new(100);
    let entry: EventEntry<Plain> =
        EventEntry::new_timer_from(0, 25, true, Some(9), Some("payload".to_string()));
    let id = timer.add_timer_from(entry, 400);
    assert_ne!(id, 0);
    let back = timer.del_timer(id).unwrap();
    assert_eq!(back.time_id, id);
    assert_eq!(back.tick_ms, 425);
    assert_eq!(back.tick_step, 25);
    assert_eq!(back.timer, Some(9));
    assert_eq!(back.data, Some("payload".to_string()));
    assert_eq!(back.ev_events.bits(), 1 | 8);
    assert_eq!(timer.tick_first(), None);
    assert!(timer.del_timer(id).is_none());
    assert!(timer.tick_time(u64::MAX).is_none());
}

#[test]
fn tick_first_is_the_least_deadline() {
    let mut timer: Timer<Plain> = Timer::new(100);
    timer.add_timer_from(timer_entry(300), 0);
    assert_eq!(timer.tick_first(), Some(300));
    timer.add_timer_from(timer_entry(100), 0);
    assert_eq!(timer.tick_first(), Some(100));
    timer.add_timer_from(timer_entry(200), 0);
    assert_eq!(timer.tick_first(), Some(100));
    timer.del_timer(2);
    assert_eq!(timer.tick_first(), Some(200));
}

#[test]
fn tick_time_pops_by_deadline_then_by_descending_id() {
    let mut timer: Timer<Plain> = Timer::new(100);
    assert_eq!(timer.add_timer_from(timer_entry(300), 0), 1);
    assert_eq!(timer.add_timer_from(timer_entry(100), 0), 2);
    assert_eq!(timer.add_timer_from(timer_entry(100), 0), 3);
    assert!(timer.tick_time(99).is_none());
    assert_eq!(timer.tick_first(), Some(100));
    assert_eq!(timer.tick_time(100).unwrap().time_id, 3);
    assert_eq!(timer.tick_time(100).unwrap().time_id, 2);
    assert!(timer.tick_time(100).is_none());
    assert!(timer.tick_time(299).is_none());
    let last = timer.tick_time(300).unwrap();
    assert_eq!(last.time_id, 1);
    assert_eq!(last.tick_ms, 300);
    assert_eq!(timer.tick_first(), None);
    assert!(timer.del_timer(1).is_none());
}

#[test]
fn tick_time_at_the_greatest_time_on_an_empty_queue() {
    let mut timer: Timer<Plain> = Timer::new(100);
    assert!(timer.tick_time(u64::MAX).is_none());
    timer.add_timer_from(timer_entry(u64::MAX), 5);
    assert_eq!(timer.tick_first(), Some(u64::MAX));
    assert!(timer.tick_time(u64::MAX - 1).is_none());
    assert_eq!(timer.tick_time(u64::MAX).unwrap().time_id, 1);
}

#[test]
fn add_first_timer_keeps_the_deadline_and_ignores_the_step() {
    let mut timer: Timer<Plain> = Timer::new(100);
    let entry: EventEntry<Plain> = EventEntry::new_timer_at(777, Some(3), None);
    assert_eq!(entry.tick_step, 0);
    let id = timer.add_first_timer(entry);
    assert_eq!(id, 1);
    assert_eq!(timer.tick_first(), Some(777));
    let mut preset = timer_entry(10);
    preset.time_id = 55;
    preset.tick_ms = 12;
    assert_eq!(timer.add_first_timer(preset), 2);
    assert_eq!(timer.tick_first(), Some(12));
    assert_eq!(timer.del_timer(2).unwrap().tick_ms, 12);
    assert!(timer.del_timer(55).is_none());
}

#[test]
fn timer_id_recycling() {
    let mut timer: Timer<Plain> = Timer::new(3);
    assert_eq!(timer.add_timer_from(timer_entry(10), 0), 1);
    assert_eq!(timer.add_timer_from(timer_entry(10), 0), 2);
    assert_eq!(timer.add_timer_from(timer_entry(10), 0), 3);
    assert_eq!(timer.add_timer_from(timer_entry(10), 0), 0);
    assert_eq!(timer.add_first_timer(timer_entry(10)), 0);
    assert!(timer.del_timer(2).is_some());
    assert_eq!(timer.add_timer_from(timer_entry(10), 0), 2);
    assert!(timer.del_timer(3).is_some());
    assert!(timer.del_timer(1).is_some());
    assert_eq!(timer.add_timer_from(timer_entry(10), 0), 3);
    assert_eq!(timer.add_timer_from(timer_entry(10), 0), 1);
    assert_eq!(timer.add_timer_from(timer_entry(10), 0), 0);
}

#[test]
fn timer_ids_wrap_behind_the_ceiling() {
    let mut timer: Timer<Plain> = Timer::new(2);
    assert_eq!(timer.add_timer_from(timer_entry(10), 0), 1);
    assert_eq!(timer.add_timer_from(timer_entry(10), 0), 2);
    assert!(timer.del_timer(1).is_some());
    assert_eq!(timer.add_timer_from(timer_entry(10), 0), 1);
    assert!(timer.del_timer(1).is_some());
    assert!(timer.del_timer(2).is_some());
    assert_eq!(timer.add_timer_from(timer_entry(10), 0), 2);
}

#[test]
fn a_ceiling_of_zero_leaves_one_id() {
    let mut timer: Timer<Plain> = Timer::new(0);
    assert_eq!(timer.add_timer_from(timer_entry(10), 0), 1);
    assert_eq!(timer.add_timer_from(timer_entry(10), 0), 0);
    assert!(timer.del_timer(1).is_some());
    assert_eq!(timer.add_timer_from(timer_entry(10), 0), 1);
}

#[test]
fn the_greatest_ceiling_never_gives_id_zero() {
    let mut timer: Timer<Plain> = Timer::new(u32::MAX);
    let mut entry = timer_entry(10);
    entry.time_id = u32::MAX;
    assert_eq!(timer.add_timer_from(entry, 0), u32::MAX);
    assert_eq!(timer.add_timer_from(timer_entry(10), 0), 1);
}

#[test]
fn an_entry_with_an_id_keeps_it_and_replaces_the_live_timer() {
    let mut timer: Timer<Plain> = Timer::new(100);
    let mut first = timer_entry(10);
    first.time_id = 7;
    assert_eq!(timer.add_timer_from(first, 100), 7);
    assert_eq!(timer.tick_first(), Some(110));
    let mut second = timer_entry(500);
    second.time_id = 7;
    assert_eq!(timer.add_timer_from(second, 100), 7);
    assert_eq!(timer.tick_first(), Some(600));
    assert!(timer.tick_time(599).is_none());
    assert_eq!(timer.del_timer(7).unwrap().tick_ms, 600);
    assert_eq!(timer.tick_first(), None);
    assert_eq!(timer.add_timer_from(timer_entry(1), 0), 1);
}

#[test]
fn a_deadline_that_does_not_fit_is_the_greatest() {
    let mut timer: Timer<Plain> = Timer::new(100);
    assert_eq!(timer.add_timer_from(timer_entry(u64::MAX), 5), 1);
    assert_eq!(timer.tick_first(), Some(u64::MAX));
    assert_eq!(timer.add_timer_from(timer_entry(u64::MAX - 5), 5), 2);
    assert_eq!(timer.del_timer(2).unwrap().tick_ms, u64::MAX);
}

#[test]
fn add_timer_reads_the_clock() {
    let mut timer: Timer<Plain> = Timer::new(100);
    let before = timer.now();
    assert!(before <= u64::MAX / 1000);
    let id = timer.add_timer(timer_entry(1_000_000));
    assert_eq!(id, 1);
    let after = timer.now();
    let deadline = timer.tick_first().unwrap();
    assert!(deadline >= before + 1_000_000);
    assert!(deadline <= after + 1_000_000);
    assert!(timer.tick_time(before).is_none());
    assert_eq!(timer.tick_time(deadline).unwrap().time_id, 1);
}

#[test]
fn the_clock_moves() {
    let timer: Timer<Plain> = Timer::new(100);
    let first = timer.now();
    let mut later = timer.now();
    let mut spins: u32 = 0;
    while later == first && spins < 10_000_000 {
        later = timer.now();
        spins += 1;
    }
    assert!(later > first);
}

#[test]
fn micros_from_nanos_drops_the_rest() {
    assert_eq!(micros_from_nanos(0), 0);
    assert_eq!(micros_from_nanos(999), 0);
    assert_eq!(micros_from_nanos(1000), 1);
    assert_eq!(micros_from_nanos(1_234_567), 1234);
    assert_eq!(micros_from_nanos(u64::MAX), u64::MAX / 1000);
    assert_eq!(micros_from_nanos(u64::MAX), 18_446_744_073_709_551);
}
