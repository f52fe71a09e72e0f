//! A queue from one producer to one consumer that keeps one value per key.
//! A value that is set again before the consumer has taken it is merged with
//! the one that waits, so the queue never holds more entries than there are
//! keys.

use crate::fnv_map::{map_get, map_insert, map_remove, new_map};
use crate::params::ParamID;
use fnv::FnvHashMap;
use vstd::prelude::*;

verus! {

/// A value that can take up a newer value of its kind.
pub trait ReducValue: Sized + Copy {
    /// What waits after `newer` has arrived on top of `self`.
    spec fn merged(self, newer: Self) -> Self;

    /// Takes up a newer value.
    fn update(&mut self, newer: &Self)
        ensures
            *final(self) == old(self).merged(*newer),
    ;
}

/// What a queue holds: the value that waits under each key, the keys in the
/// order in which they came to wait, and how many of them, from the front,
/// the producer has released to the consumer.
pub struct QueueState<V> {
    pub values: Map<u32, V>,
    pub order: Seq<u32>,
    pub published: nat,
}

impl<V: ReducValue> QueueState<V> {
    /// Each waiting key is listed once, and only waiting keys are listed.
    pub open spec fn wf(self) -> bool {
        &&& self.order.no_duplicates()
        &&& forall|k: u32| self.order.contains(k) <==> self.values.contains_key(k)
        &&& self.published <= self.order.len()
    }

    /// Nothing waits.
    pub open spec fn empty() -> Self {
        QueueState { values: Map::empty(), order: Seq::empty(), published: 0 }
    }

    /// After the producer has put `v` under `id` in place of what waited there.
    pub open spec fn set(self, id: u32, v: V) -> Self {
        QueueState {
            values: self.values.insert(id, v),
            order: if self.values.contains_key(id) {
                self.order
            } else {
                self.order.push(id)
            },
            published: self.published,
        }
    }

    /// After the producer has merged `v` into what waits under `id`.
    pub open spec fn set_or_update(self, id: u32, v: V) -> Self {
        if self.values.contains_key(id) {
            self.set(id, self.values[id].merged(v))
        } else {
            self.set(id, v)
        }
    }

    /// After the producer has released all that waits.
    pub open spec fn producer_done(self) -> Self {
        QueueState { published: self.order.len(), ..self }
    }

    /// What the consumer takes: the released entries, oldest key first.
    pub open spec fn consumed(self) -> Seq<(ParamID, V)> {
        Seq::new(self.published, |i: int| (ParamID(self.order[i]), self.values[self.order[i]]))
    }

    /// What is left after the consumer has taken the released entries.
    pub open spec fn after_consume(self) -> Self {
        let rest = self.order.subrange(self.published as int, self.order.len() as int);
        QueueState {
            values: Map::new(|k: u32| rest.contains(k), |k: u32| self.values[k]),
            order: rest,
            published: 0,
        }
    }
}

/// The queue itself.
pub struct ReducingQueue<V: ReducValue> {
    slots: FnvHashMap<u32, V>,
    order: Vec<u32>,
    published: usize,
}

impl<V: ReducValue> View for ReducingQueue<V> {
    type V = QueueState<V>;

    closed spec fn view(&self) -> QueueState<V> {
        QueueState { values: self.slots@, order: self.order@, published: self.published as nat }
    }
}

impl<V: ReducValue> ReducingQueue<V> {
    /// The queue is in order.
    pub open spec fn wf(&self) -> bool {
        self@.wf()
    }

    /// A queue in which nothing waits, with room for `capacity` keys.
    pub fn new(capacity: usize) -> (q: Self)
        ensures
            q.wf(),
            q@ == QueueState::<V>::empty(),
    {
        let q = ReducingQueue { slots: new_map(), order: Vec::with_capacity(capacity), published: 0 };
        assert(q@.order =~= Seq::<u32>::empty());
        q
    }

    /// Puts `v` under `id` in place of what waited there.
    pub fn set(&mut self, id: ParamID, v: V)
        requires
            old(self).wf(),
        ensures
            final(self).wf(),
            final(self)@ == old(self)@.set(id.0, v),
    {
        broadcast use vstd::std_specs::hash::group_hash_axioms;

        let prev = map_insert(&mut self.slots, id.0, v);
        if prev.is_none() {
            self.order.push(id.0);
            proof {
                lemma_push_fresh(old(self).order@, id.0);
            }
        }
        assert(self@.values == old(self)@.values.insert(id.0, v));
        assert forall|k: u32| self@.order.contains(k) <==> self@.values.contains_key(k) by {
            assert(old(self)@.order.contains(k) <==> old(self)@.values.contains_key(k));
            if prev is None {
                lemma_push_fresh(old(self).order@, id.0);
            }
        }
    }

    /// Merges `v` into what waits under `id`, or puts it there if nothing waits.
    pub fn set_or_update(&mut self, id: ParamID, v: V)
        requires
            old(self).wf(),
        ensures
            final(self).wf(),
            final(self)@ == old(self)@.set_or_update(id.0, v),
    {
        broadcast use vstd::std_specs::hash::group_hash_axioms;

        let waiting: Option<V> = match map_get(&self.slots, &id.0) {
            Some(w) => Some(*w),
            None => None,
        };
        match waiting {
            Some(w) => {
                let mut merged = w;
                merged.update(&v);
                self.set(id, merged);
            },
            None => {
                self.set(id, v);
            },
        }
    }

    /// Releases all that waits to the consumer.
    pub fn producer_done(&mut self)
        requires
            old(self).wf(),
        ensures
            final(self).wf(),
            final(self)@ == old(self)@.producer_done(),
    {
        self.published = self.order.len();
    }

    /// How many entries the consumer would take now.
    pub fn released(&self) -> (n: usize)
        ensures
            n == self@.published,
    {
        self.published
    }

    /// Takes the released entries out, oldest key first. What was not released
    /// goes on waiting.
    pub fn consume(&mut self) -> (out: Vec<(ParamID, V)>)
        requires
            old(self).wf(),
        ensures
            final(self).wf(),
            out@ == old(self)@.consumed(),
            final(self)@ == old(self)@.after_consume(),
    {
        broadcast use vstd::std_specs::hash::group_hash_axioms;

        let n: usize = self.published;
        let mut out: Vec<(ParamID, V)> = Vec::with_capacity(n);
        let mut i: usize = 0;
        while i < n
            invariant
                i <= n,
                n == self.published,
                *self == *old(self),
                self.wf(),
                out@ == Seq::new(
                    i as nat,
                    |j: int| (ParamID(self.order@[j]), self.slots@[self.order@[j]]),
                ),
            decreases n - i,
        {
            let key: u32 = self.order[i];
            assert(self@.order.contains(key));
            let v: V = *map_get(&self.slots, &key).unwrap();
            out.push((ParamID(key), v));
            i = i + 1;
            assert(out@ =~= Seq::new(
                i as nat,
                |j: int| (ParamID(self.order@[j]), self.slots@[self.order@[j]]),
            ));
        }
        assert(out@ =~= old(self)@.consumed());
        assert(self.order@.subrange(0, self.order@.len() as int) =~= self.order@);
        let mut i: usize = 0;
        while i < n
            invariant
                i <= n,
                n == old(self).published,
                n <= self.order.len(),
                self.order == old(self).order,
                old(self).wf(),
                forall|k: u32|
                    self.slots@.contains_key(k) <==> old(self).order@.subrange(
                        i as int,
                        old(self).order@.len() as int,
                    ).contains(k),
                forall|k: u32|
                    self.slots@.contains_key(k) ==> self.slots@[k] == old(self).slots@[k],
            decreases n - i,
        {
            let key: u32 = self.order[i];
            let ghost before = self.slots@;
            let _ = map_remove(&mut self.slots, &key);
            proof {
                let ord = old(self).order@;
                let len = ord.len() as int;
                let cur = ord.subrange(i as int, len);
                let next = ord.subrange(i as int + 1, len);
                assert(cur[0] == key);
                assert forall|k: u32| self.slots@.contains_key(k) <==> next.contains(k) by {
                    if next.contains(k) {
                        let j = choose|j: int| 0 <= j < next.len() && #[trigger] next[j] == k;
                        assert(cur[j + 1] == k);
                        assert(ord[i as int + 1 + j] == k);
                        assert(k != key);
                    }
                    if self.slots@.contains_key(k) {
                        assert(before.contains_key(k));
                        let j = choose|j: int| 0 <= j < cur.len() && #[trigger] cur[j] == k;
                        assert(j != 0);
                        assert(next[j - 1] == k);
                    }
                }
            }
            i = i + 1;
        }
        let rest = self.order.split_off(n);
        self.order = rest;
        self.published = 0;
        proof {
            let ord = old(self).order@;
            let tail = ord.subrange(n as int, ord.len() as int);
            assert(self@.order =~= tail);
            assert(self@.values =~= old(self)@.after_consume().values);
            assert(tail.no_duplicates());
        }
        out
    }
}

/// An item that is not listed can be added behind a list without a repeat.
pub proof fn lemma_push_fresh_any<T>(list: Seq<T>, item: T)
    requires
        list.no_duplicates(),
        !list.contains(item),
    ensures
        list.push(item).no_duplicates(),
        forall|k: T| list.push(item).contains(k) <==> (list.contains(k) || k == item),
{
    let next = list.push(item);
    assert forall|k: T| next.contains(k) <==> (list.contains(k) || k == item) by {
        if list.contains(k) {
            let j = choose|j: int| 0 <= j < list.len() && list[j] == k;
            assert(next[j] == k);
        }
        if k == item {
            assert(next[list.len() as int] == k);
        }
    }
}

/// A key that is not listed can be added behind the list without a repeat.
pub proof fn lemma_push_fresh(order: Seq<u32>, key: u32)
    requires
        order.no_duplicates(),
        !order.contains(key),
    ensures
        order.push(key).no_duplicates(),
        forall|k: u32| order.push(key).contains(k) <==> (order.contains(k) || k == key),
{
    let next = order.push(key);
    assert forall|k: u32| next.contains(k) <==> (order.contains(k) || k == key) by {
        if order.contains(k) {
            let j = choose|j: int| 0 <= j < order.len() && order[j] == k;
            assert(next[j] == k);
        }
        if k == key {
            assert(next[order.len() as int] == k);
        }
    }
}

} // verus!
