//! The timer queue: timers ordered by deadline, found again by id.
use crate::event_entry::{deadline_after, saturating_sum, Callbacks, EventEntry};
use rbtree::RBTree;
use std::collections::HashMap;
use vstd::prelude::*;

verus! {

broadcast use vstd::std_specs::hash::group_hash_axioms;

/// The red-black tree of `rbtree`: an ordered map that keeps its keys in
/// the order of their type.
#[verifier::external_type_specification]
#[verifier::external_body]
#[verifier::reject_recursive_types(K)]
#[verifier::reject_recursive_types(V)]
pub struct ExRBTree<K: Ord, V>(RBTree<K, V>);

/// What a tree of timer keys holds: each key with the id stored under it.
pub uninterp spec fn queue_map(tree: RBTree<(u64, u32), u32>) -> Map<(u64, u32), u32>;

/// The order of the keys, which is that of pairs of integers: by the first
/// part, and among equal first parts by the second.
pub open spec fn key_le(a: (u64, u32), b: (u64, u32)) -> bool {
    a.0 < b.0 || (a.0 == b.0 && a.1 <= b.1)
}

/// The queue without a key.
pub open spec fn empty_queue() -> Map<(u64, u32), u32> {
    Map::empty()
}

/// `RBTree::new`: a tree that holds nothing.
#[verifier::external_body]
fn queue_new() -> (tree: RBTree<(u64, u32), u32>)
    ensures
        queue_map(tree) == empty_queue(),
{
    RBTree::new()
}

/// `RBTree::insert` of a key that the tree does not hold yet: afterwards
/// the tree holds it too, with `id` under it. (Of a key that it holds
/// already the tree would keep both; the library never does that.)
#[verifier::external_body]
fn queue_insert(tree: &mut RBTree<(u64, u32), u32>, key: (u64, u32), id: u32)
    requires
        !queue_map(*old(tree)).contains_key(key),
    ensures
        queue_map(*final(tree)) == queue_map(*old(tree)).insert(key, id),
{
    tree.insert(key, id)
}

/// `RBTree::remove`: takes `key` out and hands back what was stored under
/// it, or `None` where the tree does not hold it.
#[verifier::external_body]
fn queue_remove(tree: &mut RBTree<(u64, u32), u32>, key: (u64, u32)) -> (id: Option<u32>)
    ensures
        queue_map(*final(tree)) == queue_map(*old(tree)).remove(key),
        id == (if queue_map(*old(tree)).contains_key(key) {
            Some(queue_map(*old(tree))[key])
        } else {
            None
        }),
{
    tree.remove(&key)
}

/// `RBTree::get_first`: the least key with what is stored under it, or
/// `None` where the tree holds nothing.
#[verifier::external_body]
fn queue_first(tree: &RBTree<(u64, u32), u32>) -> (first: Option<((u64, u32), u32)>)
    ensures
        first is None <==> queue_map(*tree) == empty_queue(),
        first matches Some((key, id)) ==> {
            &&& queue_map(*tree).contains_key(key)
            &&& queue_map(*tree)[key] == id
            &&& forall|other: (u64, u32)| #[trigger]
                queue_map(*tree).contains_key(other) ==> key_le(key, other)
        },
{
    tree.get_first().map(|(key, id)| (*key, *id))
}

/// `RBTree::pop_first`: takes the least key out and hands it back with what
/// was stored under it, or `None` where the tree holds nothing.
#[verifier::external_body]
fn queue_pop_first(tree: &mut RBTree<(u64, u32), u32>) -> (first: Option<((u64, u32), u32)>)
    ensures
        first is None <==> queue_map(*old(tree)) == empty_queue(),
        first is None ==> queue_map(*final(tree)) == queue_map(*old(tree)),
        first matches Some((key, id)) ==> {
            &&& queue_map(*old(tree)).contains_key(key)
            &&& queue_map(*old(tree))[key] == id
            &&& forall|other: (u64, u32)| #[trigger]
                queue_map(*old(tree)).contains_key(other) ==> key_le(key, other)
            &&& queue_map(*final(tree)) == queue_map(*old(tree)).remove(key)
        },
{
    tree.pop_first()
}

/// `time::precise_time_ns`: a high-resolution counter in nanoseconds since
/// some point that is not said. Nothing is promised of its value.
#[verifier::external_body]
fn monotonic_ns() -> (ns: u64) {
    time::precise_time_ns()
}

/// The key under which the queue holds the timer `id` due at `deadline`.
/// Keys come in ascending order, so timers come by ascending deadline, and
/// among equal deadlines by descending id.
pub open spec fn key_of(deadline: u64, id: u32) -> (u64, u32) {
    (deadline, (u32::MAX - id) as u32)
}

/// What a [`Timer`] is: the live timers by id, the id handed out last, and
/// the ceiling of the ids.
pub ghost struct TimerModel<C: Callbacks> {
    /// The live timers, each under its id.
    pub entries: Map<u32, EventEntry<C>>,
    /// The rolling counter: the id that was allocated last.
    pub last_id: u32,
    /// The configured ceiling of the ids.
    pub max_id: u32,
}

impl<C: Callbacks> TimerModel<C> {
    /// Whether a timer with this id is live.
    #[verifier::inline]
    pub open spec fn live(self, id: u32) -> bool {
        self.entries.contains_key(id)
    }

    /// The deadline of a live timer.
    pub open spec fn deadline(self, id: u32) -> u64
        recommends
            self.live(id),
    {
        self.entries[id].tick_ms
    }

    /// The greatest id that is ever allocated: the ceiling, and one where
    /// the ceiling is zero.
    pub open spec fn limit(self) -> u32 {
        if self.max_id == 0 {
            1
        } else {
            self.max_id
        }
    }

    /// The id that the counter reaches after `k` steps: it counts upwards
    /// and goes from the limit back to one.
    pub open spec fn id_at(self, k: int) -> int {
        if self.last_id + k <= self.limit() {
            self.last_id + k
        } else {
            self.last_id + k - self.limit()
        }
    }

    /// The least number of steps, `k` or more, after which the counter
    /// stands on an id that is not live; zero where no such number is within
    /// the limit.
    pub open spec fn probe(self, k: int) -> int
        decreases self.limit() + 1 - k,
    {
        if k < 1 || k > self.limit() {
            0
        } else if !self.live(self.id_at(k) as u32) {
            k
        } else {
            self.probe(k + 1)
        }
    }

    /// The id that is allocated next: the first one behind the counter that
    /// is not live. Zero where every id from one to the limit is live.
    pub open spec fn fresh_id(self) -> u32 {
        let steps = self.probe(1);
        if steps == 0 {
            0
        } else {
            self.id_at(steps) as u32
        }
    }

    /// The counter stands within the limit, zero is no timer's id, and each
    /// timer carries the id that it is kept under.
    pub open spec fn wf(self) -> bool {
        &&& self.last_id <= self.limit()
        &&& !self.live(0)
        &&& forall|id: u32| #[trigger] self.live(id) ==> self.entries[id].time_id == id
    }

    /// Whether the timer `id` is the one that fires first: no live timer
    /// has an earlier deadline, nor the same deadline and a greater id.
    pub open spec fn is_first(self, id: u32) -> bool {
        &&& self.live(id)
        &&& forall|other: u32| #[trigger]
            self.live(other) ==> key_le(
                key_of(self.deadline(id), id),
                key_of(self.deadline(other), other),
            )
    }

    /// The timer after `entry` was added with a fresh id and the deadline
    /// that it carries, and the id; unchanged, with zero, where no id is
    /// free.
    pub open spec fn added_first(self, entry: EventEntry<C>) -> (Self, u32) {
        let id = self.fresh_id();
        if id == 0 {
            (self, 0)
        } else {
            (
                TimerModel {
                    entries: self.entries.insert(id, EventEntry { time_id: id, ..entry }),
                    last_id: id,
                    ..self
                },
                id,
            )
        }
    }

    /// The timer after `entry` was added at the clock reading `now`, and the
    /// id. An entry whose step is zero is turned away: unchanged, with zero.
    /// An entry without an id gets a fresh one (unchanged, with zero, where
    /// none is free); one that carries an id keeps it and takes the place
    /// of a live timer under that id. The deadline is `now` plus the step.
    pub open spec fn added(self, entry: EventEntry<C>, now: u64) -> (Self, u32) {
        let id = if entry.time_id == 0 {
            self.fresh_id()
        } else {
            entry.time_id
        };
        if entry.tick_step == 0 || id == 0 {
            (self, 0)
        } else {
            (
                TimerModel {
                    entries: self.entries.insert(
                        id,
                        EventEntry {
                            time_id: id,
                            tick_ms: saturating_sum(now, entry.tick_step),
                            ..entry
                        },
                    ),
                    last_id: if entry.time_id == 0 {
                        id
                    } else {
                        self.last_id
                    },
                    ..self
                },
                id,
            )
        }
    }

    /// The timer after the timer `id` was deleted, and that timer's entry.
    pub open spec fn deleted(self, id: u32) -> (Self, Option<EventEntry<C>>) {
        if self.live(id) {
            (TimerModel { entries: self.entries.remove(id), ..self }, Some(self.entries[id]))
        } else {
            (self, None)
        }
    }

    /// Allocation stays away from the live ids: the fresh id is not zero
    /// only where it lies between one and the limit and is not live, and
    /// it is zero only where every id between one and the limit is live.
    pub proof fn lemma_fresh_id(self)
        requires
            self.last_id <= self.limit(),
        ensures
            self.fresh_id() != 0 ==> 1 <= self.fresh_id() <= self.limit() && !self.live(
                self.fresh_id(),
            ),
            self.fresh_id() == 0 ==> forall|id: u32|
                1 <= id <= self.limit() ==> #[trigger] self.live(id),
    {
        self.lemma_probe(1);
        if self.fresh_id() == 0 {
            assert forall|id: u32| 1 <= id <= self.limit() implies #[trigger] self.live(id) by {
                let k = if id > self.last_id {
                    id - self.last_id
                } else {
                    id + self.limit() - self.last_id
                };
                assert(1 <= k <= self.limit());
                assert(self.id_at(k) == id);
            }
        }
    }

    /// What `probe` finds from `k` on.
    pub proof fn lemma_probe(self, k: int)
        requires
            1 <= k,
            self.last_id <= self.limit(),
        ensures
            self.probe(k) == 0 ==> forall|j: int|
                k <= j <= self.limit() ==> self.live(#[trigger] self.id_at(j) as u32),
            self.probe(k) != 0 ==> {
                &&& k <= self.probe(k) <= self.limit()
                &&& !self.live(self.id_at(self.probe(k)) as u32)
                &&& 1 <= self.id_at(self.probe(k)) <= self.limit()
                &&& forall|j: int|
                    k <= j < self.probe(k) ==> self.live(#[trigger] self.id_at(j) as u32)
            },
        decreases self.limit() + 1 - k,
    {
        if k <= self.limit() && self.live(self.id_at(k) as u32) {
            self.lemma_probe(k + 1);
        }
    }

    /// An id that was freed can be had again at once: after the timer that
    /// holds the id behind the counter is deleted, that id is the fresh one.
    pub proof fn lemma_deleted_id_is_free(self, id: u32)
        requires
            self.wf(),
            self.live(id),
            id == self.id_at(1),
        ensures
            self.deleted(id).0.fresh_id() == id,
    {
        let after = self.deleted(id).0;
        assert(after.id_at(1) == self.id_at(1));
        assert(!after.live(id));
        assert(after.probe(1) == 1);
    }

    /// Timers fire in order: of two timers that are taken out one after
    /// the other, the first has the earlier deadline, or the same deadline
    /// and the greater id.
    pub proof fn lemma_ticks_ascend(self, first: u32, second: u32)
        requires
            self.is_first(first),
            self.deleted(first).0.is_first(second),
        ensures
            first != second,
            self.live(second),
            key_le(
                key_of(self.deadline(first), first),
                key_of(self.deadline(second), second),
            ),
            self.deadline(first) < self.deadline(second) || (self.deadline(first)
                == self.deadline(second) && first > second),
    {
    }

    /// Adding a timer and deleting it again by the id that came back leaves
    /// the live timers as they were without that id, and hands back the
    /// entry that was added, with the id and the deadline that it was given.
    /// A queue that was empty is empty again.
    pub proof fn lemma_add_then_delete(self, entry: EventEntry<C>, now: u64)
        requires
            self.wf(),
            self.added(entry, now).1 != 0,
        ensures
            self.added(entry, now).0.deleted(self.added(entry, now).1).0.entries
                == self.entries.remove(self.added(entry, now).1),
            self.added(entry, now).0.deleted(self.added(entry, now).1).1 == Some(
                EventEntry {
                    time_id: self.added(entry, now).1,
                    tick_ms: saturating_sum(now, entry.tick_step),
                    ..entry
                },
            ),
            self.entries == Map::<u32, EventEntry<C>>::empty() ==> self.added(
                entry,
                now,
            ).0.deleted(self.added(entry, now).1).0.entries == Map::<u32, EventEntry<C>>::empty(),
            entry.time_id == 0 ==> self.added(entry, now).0.deleted(
                self.added(entry, now).1,
            ).0.entries == self.entries,
    {
        let id = self.added(entry, now).1;
        let after = self.added(entry, now).0.deleted(id).0;
        assert(after.entries =~= self.entries.remove(id));
        if entry.time_id == 0 {
            self.lemma_fresh_id();
            assert(self.entries.remove(id) =~= self.entries);
        }
        if self.entries == Map::<u32, EventEntry<C>>::empty() {
            assert(self.entries.remove(id) =~= Map::<u32, EventEntry<C>>::empty());
        }
    }
}

/// Timers ordered by deadline, each under an id by which it is found and
/// deleted. The ids are small numbers from one to a ceiling, handed out by a
/// counter that skips the ids in use and starts over behind the ceiling.
pub struct Timer<C: Callbacks> {
    timer_queue: RBTree<(u64, u32), u32>,
    time_maps: HashMap<u32, EventEntry<C>>,
    time_id: u32,
    time_max_id: u32,
}

impl<C: Callbacks> View for Timer<C> {
    type V = TimerModel<C>;

    closed spec fn view(&self) -> TimerModel<C> {
        TimerModel { entries: self.time_maps@, last_id: self.time_id, max_id: self.time_max_id }
    }
}

impl<C: Callbacks> Timer<C> {
    /// The keys of the queue, each as the deadline and the id of its timer.
    pub closed spec fn queue_keys(&self) -> Set<(u64, u32)> {
        Set::new(
            |pair: (u64, u32)| queue_map(self.timer_queue).contains_key(key_of(pair.0, pair.1)),
        )
    }

    /// The index from id to deadline.
    pub open spec fn index(&self) -> Map<u32, u64> {
        Map::new(|id: u32| self@.live(id), |id: u32| self@.deadline(id))
    }

    /// The queue and the index hold the same timers.
    pub closed spec fn wf(&self) -> bool {
        &&& self@.wf()
        &&& forall|id: u32| #[trigger]
            self.time_maps@.contains_key(id) ==> {
                &&& queue_map(self.timer_queue).contains_key(
                    key_of(self.time_maps@[id].tick_ms, id),
                )
                &&& queue_map(self.timer_queue)[key_of(self.time_maps@[id].tick_ms, id)] == id
            }
        &&& forall|key: (u64, u32)| #[trigger]
            queue_map(self.timer_queue).contains_key(key) ==> {
                &&& self.time_maps@.contains_key(queue_map(self.timer_queue)[key])
                &&& key == key_of(
                    self.time_maps@[queue_map(self.timer_queue)[key]].tick_ms,
                    queue_map(self.timer_queue)[key],
                )
            }
    }

    /// A well-formed queue has a well-formed model.
    pub proof fn lemma_wf_model(&self)
        requires
            self.wf(),
        ensures
            self@.wf(),
    {
    }

    /// The queue agrees with the index: for every live id the queue holds
    /// the key made of that timer's deadline and id, and it holds no key
    /// with that id and another deadline, nor any key of an id that is not
    /// live.
    pub proof fn lemma_queue_agrees_with_index(&self)
        requires
            self.wf(),
        ensures
            forall|id: u32| #[trigger]
                self.index().contains_key(id) ==> self.queue_keys().contains(
                    (self.index()[id], id),
                ),
            forall|deadline: u64, id: u32| #[trigger]
                self.queue_keys().contains((deadline, id)) ==> self.index().contains_key(id)
                    && self.index()[id] == deadline,
    {
        assert forall|deadline: u64, id: u32| #[trigger]
            self.queue_keys().contains((deadline, id)) implies self.index().contains_key(id)
            && self.index()[id] == deadline by {
            let key = key_of(deadline, id);
            assert(queue_map(self.timer_queue).contains_key(key));
            let held = queue_map(self.timer_queue)[key];
            assert(key == key_of(self.time_maps@[held].tick_ms, held));
        }
    }

    /// An empty queue whose ids go up to `time_max_id`.
    pub fn new(time_max_id: u32) -> (r: Timer<C>)
        ensures
            r.wf(),
            r@ == (TimerModel::<C> {
                entries: Map::<u32, EventEntry<C>>::empty(),
                last_id: 0,
                max_id: time_max_id,
            }),
    {
        Timer {
            timer_queue: queue_new(),
            time_maps: HashMap::new(),
            time_id: 0,
            time_max_id: time_max_id,
        }
    }

    /// The clock of the timers, in microseconds since some point that is
    /// not said.
    pub fn now(&self) -> (r: u64)
        ensures
            exists|ns: u64| r == micros_of(ns),
            r <= u64::MAX / 1000,
    {
        let ns = monotonic_ns();
        let r = micros_from_nanos(ns);
        assert(r == micros_of(ns));
        r
    }

    /// Allocates the next id that is not live, and moves the counter onto
    /// it. Hands back zero, and leaves the counter, where every id is live.
    fn calc_new_id(&mut self) -> (id: u32)
        requires
            old(self).wf(),
        ensures
            final(self).wf(),
            id == old(self)@.fresh_id(),
            final(self)@ == (TimerModel {
                last_id: if id == 0 {
                    old(self)@.last_id
                } else {
                    id
                },
                ..old(self)@
            }),
    {
        let limit: u32 = if self.time_max_id == 0 {
            1
        } else {
            self.time_max_id
        };
        let mut cur: u32 = self.time_id;
        let mut k: u32 = 0;
        while k < limit
            invariant
                *self == *old(self),
                self.wf(),
                limit == self@.limit(),
                k <= limit,
                k == 0 ==> cur == self.time_id,
                k > 0 ==> cur == self@.id_at(k as int),
                cur <= limit,
                self@.probe(1) == self@.probe(k + 1) || k == limit,
                forall|j: int| 1 <= j <= k ==> self@.live(#[trigger] self@.id_at(j) as u32),
            decreases limit - k,
        {
            cur = if cur >= limit {
                1
            } else {
                cur + 1
            };
            k = k + 1;
            assert(cur == self@.id_at(k as int));
            if !self.time_maps.contains_key(&cur) {
                proof {
                    assert(self@.probe(k as int) == k);
                    assert(self@.probe(1) == k) by {
                        if k > 1 {
                            assert(self@.probe(1) == self@.probe((k - 1) + 1));
                        }
                    }
                }
                self.time_id = cur;
                return cur;
            }
            proof {
                assert(self@.live(self@.id_at(k as int) as u32));
                if k < limit {
                    assert(self@.probe(k as int) == self@.probe(k + 1));
                }
            }
        }
        proof {
            self@.lemma_probe(1);
            if self@.probe(1) != 0 {
                let found = self@.probe(1);
                assert(self@.live(self@.id_at(found) as u32));
            }
        }
        0
    }

    /// Puts `entry` into both maps under `id`, in place of a live timer
    /// under that id.
    fn install(&mut self, id: u32, entry: EventEntry<C>)
        requires
            old(self).wf(),
            id != 0,
            entry.time_id == id,
        ensures
            final(self).wf(),
            final(self)@ == (TimerModel {
                entries: old(self)@.entries.insert(id, entry),
                ..old(self)@
            }),
    {
        match self.time_maps.get(&id) {
            Some(held) => {
                let stale = (held.tick_ms, u32::MAX - id);
                let _ = queue_remove(&mut self.timer_queue, stale);
            },
            None => {},
        }
        let key = (entry.tick_ms, u32::MAX - id);
        proof {
            if queue_map(self.timer_queue).contains_key(key) {
                let held = queue_map(self.timer_queue)[key];
                assert(queue_map(old(self).timer_queue).contains_key(key));
                assert(key == key_of(old(self).time_maps@[held].tick_ms, held));
                assert(held == id);
            }
        }
        queue_insert(&mut self.timer_queue, key, id);
        let _ = self.time_maps.insert(id, entry);
        proof {
            assert forall|other: u32| #[trigger] self.time_maps@.contains_key(other) implies {
                &&& queue_map(self.timer_queue).contains_key(
                    key_of(self.time_maps@[other].tick_ms, other),
                )
                &&& queue_map(self.timer_queue)[key_of(self.time_maps@[other].tick_ms, other)]
                    == other
            } by {
                if other != id {
                    assert(old(self).time_maps@.contains_key(other));
                }
            }
            assert forall|any: (u64, u32)| #[trigger]
                queue_map(self.timer_queue).contains_key(any) implies {
                &&& self.time_maps@.contains_key(queue_map(self.timer_queue)[any])
                &&& any == key_of(
                    self.time_maps@[queue_map(self.timer_queue)[any]].tick_ms,
                    queue_map(self.timer_queue)[any],
                )
            } by {
                if any != key {
                    assert(queue_map(old(self).timer_queue).contains_key(any));
                    let held = queue_map(old(self).timer_queue)[any];
                    assert(any == key_of(old(self).time_maps@[held].tick_ms, held));
                    assert(held != id);
                }
            }
        }
    }

    /// Adds `entry` as a timer that is due its step after the clock reading
    /// `now`, and hands back its id. Turns away an entry whose step is zero,
    /// and one for which no id is free: hands back zero and changes nothing.
    pub fn add_timer_from(&mut self, entry: EventEntry<C>, now: u64) -> (id: u32)
        requires
            old(self).wf(),
        ensures
            final(self).wf(),
            (final(self)@, id) == old(self)@.added(entry, now),
    {
        let mut entry = entry;
        if entry.tick_step == 0 {
            proof {
                old(self)@.lemma_fresh_id();
            }
            return 0;
        }
        let ghost given = entry;
        if entry.time_id == 0 {
            let id = self.calc_new_id();
            if id == 0 {
                return 0;
            }
            entry.time_id = id;
        }
        let time_id = entry.time_id;
        entry.tick_ms = deadline_after(now, entry.tick_step);
        assert(entry == (EventEntry {
            time_id: time_id,
            tick_ms: saturating_sum(now, given.tick_step),
            ..given
        }));
        self.install(time_id, entry);
        time_id
    }

    /// Adds `entry` as a timer that is due its step after now by the clock
    /// of the timers, and hands back its id. Turns away an entry whose step
    /// is zero, and one for which no id is free: hands back zero and changes
    /// nothing.
    pub fn add_timer(&mut self, entry: EventEntry<C>) -> (id: u32)
        requires
            old(self).wf(),
        ensures
            final(self).wf(),
            exists|now: u64|
                now <= u64::MAX / 1000 && (final(self)@, id) == old(self)@.added(entry, now),
            entry.tick_step == 0 ==> id == 0 && final(self)@ == old(self)@,
    {
        let now = self.now();
        self.add_timer_from(entry, now)
    }

    /// Adds `entry` as a timer with a fresh id and the deadline that it
    /// carries, whatever its step, and hands back the id; zero, and nothing
    /// changed, where no id is free.
    pub fn add_first_timer(&mut self, entry: EventEntry<C>) -> (id: u32)
        requires
            old(self).wf(),
        ensures
            final(self).wf(),
            (final(self)@, id) == old(self)@.added_first(entry),
    {
        let mut entry = entry;
        let ghost given = entry;
        let id = self.calc_new_id();
        if id == 0 {
            return 0;
        }
        entry.time_id = id;
        assert(entry == (EventEntry { time_id: id, ..given }));
        self.install(id, entry);
        id
    }

    /// Deletes the timer `time_id` and hands back its entry; `None` where no
    /// such timer is live.
    pub fn del_timer(&mut self, time_id: u32) -> (r: Option<EventEntry<C>>)
        requires
            old(self).wf(),
        ensures
            final(self).wf(),
            (final(self)@, r) == old(self)@.deleted(time_id),
    {
        let deadline: u64 = match self.time_maps.get(&time_id) {
            Some(held) => held.tick_ms,
            None => {
                return None;
            },
        };
        let key = (deadline, u32::MAX - time_id);
        let _ = queue_remove(&mut self.timer_queue, key);
        let entry = self.time_maps.remove(&time_id);
        proof {
            assert forall|other: u32| #[trigger] self.time_maps@.contains_key(other) implies {
                &&& queue_map(self.timer_queue).contains_key(
                    key_of(self.time_maps@[other].tick_ms, other),
                )
                &&& queue_map(self.timer_queue)[key_of(self.time_maps@[other].tick_ms, other)]
                    == other
            } by {
                assert(old(self).time_maps@.contains_key(other));
            }
            assert forall|any: (u64, u32)| #[trigger]
                queue_map(self.timer_queue).contains_key(any) implies {
                &&& self.time_maps@.contains_key(queue_map(self.timer_queue)[any])
                &&& any == key_of(
                    self.time_maps@[queue_map(self.timer_queue)[any]].tick_ms,
                    queue_map(self.timer_queue)[any],
                )
            } by {
                assert(queue_map(old(self).timer_queue).contains_key(any));
                let held = queue_map(old(self).timer_queue)[any];
                assert(any == key_of(old(self).time_maps@[held].tick_ms, held));
            }
        }
        entry
    }

    /// The earliest deadline among the live timers; `None` where there is
    /// none.
    pub fn tick_first(&self) -> (r: Option<u64>)
        requires
            self.wf(),
        ensures
            r is None <==> forall|id: u32| !self@.live(id),
            r matches Some(deadline) ==> {
                &&& exists|id: u32| self@.live(id) && self@.deadline(id) == deadline
                &&& forall|id: u32| #[trigger] self@.live(id) ==> deadline <= self@.deadline(id)
            },
    {
        match queue_first(&self.timer_queue) {
            Some((key, id)) => {
                proof {
                    assert(queue_map(self.timer_queue).contains_key(key));
                    assert(self@.live(id) && self@.deadline(id) == key.0);
                    assert forall|other: u32| #[trigger] self@.live(other) implies key.0
                        <= self@.deadline(other) by {
                        assert(self.time_maps@.contains_key(other));
                        assert(key_le(key, key_of(self.time_maps@[other].tick_ms, other)));
                    }
                }
                Some(key.0)
            },
            None => {
                proof {
                    assert forall|id: u32| !self@.live(id) by {
                        if self.time_maps@.contains_key(id) {
                            assert(queue_map(self.timer_queue).contains_key(
                                key_of(self.time_maps@[id].tick_ms, id),
                            ));
                        }
                    }
                }
                None
            },
        }
    }

    /// Takes out the timer that fires first, if its deadline is `tm` or
    /// earlier, and hands back its entry. `None`, and nothing changed, where
    /// no live timer is due by `tm`.
    pub fn tick_time(&mut self, tm: u64) -> (r: Option<EventEntry<C>>)
        requires
            old(self).wf(),
        ensures
            final(self).wf(),
            r is None <==> forall|id: u32| #[trigger]
                old(self)@.live(id) ==> old(self)@.deadline(id) > tm,
            r is None ==> final(self)@ == old(self)@,
            r matches Some(entry) ==> {
                &&& old(self)@.is_first(entry.time_id)
                &&& entry == old(self)@.entries[entry.time_id]
                &&& entry.tick_ms <= tm
                &&& (final(self)@, r) == old(self)@.deleted(entry.time_id)
            },
    {
        match queue_first(&self.timer_queue) {
            Some((key, id)) => {
                proof {
                    assert(queue_map(self.timer_queue).contains_key(key));
                    assert(self@.live(id) && self@.deadline(id) == key.0);
                    assert forall|other: u32| #[trigger] self@.live(other) implies key_le(
                        key_of(self@.deadline(id), id),
                        key_of(self@.deadline(other), other),
                    ) by {
                        assert(self.time_maps@.contains_key(other));
                        assert(key_le(key, key_of(self.time_maps@[other].tick_ms, other)));
                    }
                }
                if tm < key.0 {
                    return None;
                }
                self.del_timer(id)
            },
            None => {
                proof {
                    assert forall|id: u32| !self@.live(id) by {
                        if self.time_maps@.contains_key(id) {
                            assert(queue_map(self.timer_queue).contains_key(
                                key_of(self.time_maps@[id].tick_ms, id),
                            ));
                        }
                    }
                }
                None
            },
        }
    }
}

/// The whole microseconds in `ns` nanoseconds.
pub open spec fn micros_of(ns: u64) -> u64 {
    ns / 1000
}

/// The whole microseconds in `ns` nanoseconds: what the clock of the timers
/// makes of a reading of the counter.
pub fn micros_from_nanos(ns: u64) -> (r: u64)
    ensures
        r == micros_of(ns),
{
    ns / 1000
}

} // verus!
