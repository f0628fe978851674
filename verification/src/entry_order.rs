//! How two registration records are told apart and ordered.
use crate::event_entry::{Callbacks, EventEntry};
use crate::event_flags::Flag;
use std::cmp::Ordering;
use vstd::prelude::*;
use vstd::std_specs::cmp::{PartialEqSpecImpl, PartialOrdSpecImpl};

verus! {

impl<C: Callbacks> PartialEq for EventEntry<C> {
    /// Two timers are the same where their deadlines are; two socket
    /// entries where their descriptors are.
    fn eq(&self, other: &Self) -> (r: bool) {
        if self.ev_events.has_flag(Flag::Timeout) {
            self.tick_ms == other.tick_ms
        } else {
            self.ev_fd == other.ev_fd
        }
    }
}

impl<C: Callbacks> PartialEqSpecImpl for EventEntry<C> {
    open spec fn obeys_eq_spec() -> bool {
        true
    }

    open spec fn eq_spec(&self, other: &Self) -> bool {
        if self@.flags.contains(Flag::Timeout) {
            self.tick_ms == other.tick_ms
        } else {
            self.ev_fd == other.ev_fd
        }
    }
}

impl<C: Callbacks> PartialOrd for EventEntry<C> {
    /// The entry with the later deadline comes first.
    fn partial_cmp(&self, other: &Self) -> (r: Option<Ordering>) {
        if other.tick_ms < self.tick_ms {
            Some(Ordering::Less)
        } else if other.tick_ms == self.tick_ms {
            Some(Ordering::Equal)
        } else {
            Some(Ordering::Greater)
        }
    }
}

impl<C: Callbacks> PartialOrdSpecImpl for EventEntry<C> {
    open spec fn obeys_partial_cmp_spec() -> bool {
        true
    }

    open spec fn partial_cmp_spec(&self, other: &Self) -> Option<Ordering> {
        if other.tick_ms < self.tick_ms {
            Some(Ordering::Less)
        } else if other.tick_ms == self.tick_ms {
            Some(Ordering::Equal)
        } else {
            Some(Ordering::Greater)
        }
    }
}

} // verus!
