//! Bounded slot pool for deferred handlers.
//!
//! A deferred handler kind may have at most a fixed number of instances in
//! flight at once. Each running instance holds one slot, identified by the
//! sequence number of the request that spawned it. Acquisition never blocks:
//! when every slot is taken it fails, and the caller reports pool
//! exhaustion. A slot is released when its task ends, whether or not the
//! task sent a reply.

use vstd::prelude::*;

verus! {

/// A fixed-capacity set of slots, one per in-flight task.
pub struct SlotPool {
    /// Number of slots; fixed at construction.
    pub capacity: u8,
    /// Sequence numbers of the requests whose tasks hold a slot.
    pub in_flight: Vec<u32>,
}

impl SlotPool {
    /// At most `capacity` slots are taken, and no sequence number holds two.
    pub open spec fn wf(self) -> bool {
        &&& self.in_flight@.len() <= self.capacity as int
        &&& forall|i: int, j: int|
            0 <= i < j < self.in_flight@.len() ==> self.in_flight@[i] != self.in_flight@[j]
    }

    /// How many slots are taken.
    pub open spec fn occupied(self) -> int {
        self.in_flight@.len() as int
    }

    /// Every slot is taken.
    pub open spec fn full(self) -> bool {
        self.occupied() == self.capacity as int
    }

    /// The task spawned for `seq_no` holds a slot.
    pub open spec fn holds(self, seq_no: u32) -> bool {
        self.in_flight@.contains(seq_no)
    }

    /// An empty pool with the given number of slots.
    pub fn new(capacity: u8) -> (r: SlotPool)
        ensures
            r.wf(),
            r.capacity == capacity,
            r.occupied() == 0,
            forall|s: u32| !r.holds(s),
    {
        let r = SlotPool { capacity, in_flight: Vec::new() };
        proof {
            assert(forall|s: u32| !r.in_flight@.contains(s));
        }
        r
    }

    /// Takes a slot for `seq_no`, or fails if every slot is occupied.
    ///
    /// The transport guarantees that sequence numbers of in-flight requests
    /// are unique, so `seq_no` cannot already hold a slot.
    pub fn try_acquire(&mut self, seq_no: u32) -> (r: bool)
        requires
            old(self).wf(),
            !old(self).holds(seq_no),
        ensures
            final(self).wf(),
            final(self).capacity == old(self).capacity,
            r == !old(self).full(),
            r ==> final(self).in_flight@ == old(self).in_flight@.push(seq_no),
            r ==> final(self).holds(seq_no) && final(self).occupied() == old(self).occupied() + 1,
            !r ==> *final(self) == *old(self),
            forall|s: u32| s != seq_no ==> final(self).holds(s) == old(self).holds(s),
    {
        if self.in_flight.len() >= self.capacity as usize {
            return false;
        }
        self.in_flight.push(seq_no);
        proof {
            assert(self.in_flight@.last() == seq_no);
            assert forall|s: u32| s != seq_no implies self.in_flight@.contains(s) == old(
                self,
            ).in_flight@.contains(s) by {
                if old(self).in_flight@.contains(s) {
                    let k = choose|k: int|
                        0 <= k < old(self).in_flight@.len() && old(self).in_flight@[k] == s;
                    assert(self.in_flight@[k] == s);
                } else if self.in_flight@.contains(s) {
                    let k = choose|k: int|
                        0 <= k < self.in_flight@.len() && self.in_flight@[k] == s;
                    assert(k < old(self).in_flight@.len());
                    assert(old(self).in_flight@[k] == s);
                }
            }
        }
        true
    }

    /// Gives the slot held for `seq_no` back.
    pub fn release(&mut self, seq_no: u32)
        requires
            old(self).wf(),
            old(self).holds(seq_no),
        ensures
            final(self).wf(),
            final(self).capacity == old(self).capacity,
            final(self).occupied() == old(self).occupied() - 1,
            !final(self).holds(seq_no),
            forall|s: u32| s != seq_no ==> final(self).holds(s) == old(self).holds(s),
    {
        let ghost pre = self.in_flight@;
        let n: usize = self.in_flight.len();
        let mut i: usize = 0;
        while i < n
            invariant
                n == self.in_flight@.len(),
                i <= n,
                self.capacity == old(self).capacity,
                pre == old(self).in_flight@,
                pre.len() <= self.capacity as int,
                self.in_flight@ == pre,
                forall|k: int| 0 <= k < i ==> self.in_flight@[k] != seq_no,
                pre.contains(seq_no),
                forall|a: int, b: int| 0 <= a < b < pre.len() ==> pre[a] != pre[b],
            decreases n - i,
        {
            if self.in_flight[i] == seq_no {
                self.in_flight.remove(i);
                proof {
                    assert(self.in_flight@ == pre.remove(i as int));
                    assert forall|s: u32| s != seq_no implies self.in_flight@.contains(s) == pre.contains(
                        s,
                    ) by {
                        lemma_remove_keeps_others(pre, i as int, s);
                    }
                    assert forall|s: u32| s == seq_no implies !self.in_flight@.contains(s) by {
                        lemma_remove_unique_drops(pre, i as int);
                    }
                    assert forall|a: int, b: int|
                        0 <= a < b < self.in_flight@.len() implies self.in_flight@[a]
                        != self.in_flight@[b] by {
                        lemma_remove_keeps_distinct(pre, i as int, a, b);
                    }
                }
                return ;
            }
            i += 1;
        }
        proof {
            let k = choose|k: int| 0 <= k < pre.len() && pre[k] == seq_no;
            assert(false);
        }
    }
}

/// Law: releasing a slot of a full pool makes room again. A request
/// declined for exhaustion may proceed once any in-flight task ends.
pub proof fn lemma_slot_freed_admits_another(before: SlotPool, after: SlotPool)
    requires
        before.wf(),
        before.capacity >= 1,
        after.capacity == before.capacity,
        after.occupied() == before.occupied() - 1,
    ensures
        !after.full(),
{
}

/// Removing one index keeps every other value in the sequence.
proof fn lemma_remove_keeps_others(s: Seq<u32>, i: int, v: u32)
    requires
        0 <= i < s.len(),
        s[i] != v,
    ensures
        s.remove(i).contains(v) == s.contains(v),
{
    let t = s.remove(i);
    if s.contains(v) {
        let k = choose|k: int| 0 <= k < s.len() && s[k] == v;
        if k < i {
            assert(t[k] == v);
        } else {
            assert(t[k - 1] == v);
        }
    }
    if t.contains(v) {
        let k = choose|k: int| 0 <= k < t.len() && t[k] == v;
        if k < i {
            assert(s[k] == v);
        } else {
            assert(s[k + 1] == v);
        }
    }
}

/// Removing the only index that carries a value drops that value.
proof fn lemma_remove_unique_drops(s: Seq<u32>, i: int)
    requires
        0 <= i < s.len(),
        forall|a: int, b: int| 0 <= a < b < s.len() ==> s[a] != s[b],
    ensures
        !s.remove(i).contains(s[i]),
{
    let t = s.remove(i);
    if t.contains(s[i]) {
        let k = choose|k: int| 0 <= k < t.len() && t[k] == s[i];
        if k < i {
            assert(s[k] == s[i]);
        } else {
            assert(s[k + 1] == s[i]);
        }
    }
}

/// Removing an index keeps the remaining values pairwise distinct.
proof fn lemma_remove_keeps_distinct(s: Seq<u32>, i: int, a: int, b: int)
    requires
        0 <= i < s.len(),
        forall|x: int, y: int| 0 <= x < y < s.len() ==> s[x] != s[y],
        0 <= a < b < s.len() - 1,
    ensures
        s.remove(i)[a] != s.remove(i)[b],
{
    let t = s.remove(i);
    if a < i {
        assert(t[a] == s[a]);
    } else {
        assert(t[a] == s[a + 1]);
    }
    if b < i {
        assert(t[b] == s[b]);
    } else {
        assert(t[b] == s[b + 1]);
    }
}

} // verus!
