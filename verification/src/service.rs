//! Device service queue.
//!
//! Devices request a future re-invocation of their servicing logic by
//! scheduling a [`ServiceRequest`] with an absolute deadline. The consumer
//! drains the queue at well-defined points, pulling at most one *due*
//! request per poll; requests whose deadline has not yet elapsed stay queued.
//! Time is carried as nanoseconds of simulator time, supplied by the caller,
//! so the scheduler itself is deterministic.

use vstd::prelude::*;

verus! {

/// Device kinds that may be intermittently serviced.
#[derive(Copy, Clone, Eq, PartialEq, Debug, Structural)]
pub enum ServiceKey {
    Scsi,
}

/// One deferred servicing request: `key` names the device, `when` is the
/// absolute deadline in nanoseconds.
#[derive(Copy, Clone, Eq, PartialEq, Debug, Structural)]
pub struct ServiceRequest {
    pub key: ServiceKey,
    pub when: u64,
}

/// A deadline-ordered scheduler for deferred device callbacks.
pub struct ServiceQueue {
    pub queue: Vec<ServiceRequest>,
}

impl Default for ServiceQueue {
    fn default() -> (q: ServiceQueue)
        ensures
            q.queue@ == Seq::<ServiceRequest>::empty(),
    {
        ServiceQueue { queue: Vec::new() }
    }
}

impl ServiceQueue {
    /// Index of the entry with the earliest deadline (the first such entry
    /// on a tie); meaningful only for a non-empty sequence.
    pub open spec fn first_min_index(s: Seq<ServiceRequest>) -> int
        decreases s.len(),
    {
        if s.len() <= 1 {
            0
        } else {
            let t = Self::first_min_index(s.drop_last());
            if s[t].when <= s.last().when {
                t
            } else {
                s.len() - 1
            }
        }
    }

    /// Some queued request is due: the earliest deadline has elapsed.
    pub open spec fn due(s: Seq<ServiceRequest>, now: u64) -> bool {
        s.len() > 0 && s[Self::first_min_index(s)].when < now
    }

    pub fn new() -> (q: ServiceQueue)
        ensures
            q.queue@ == Seq::<ServiceRequest>::empty(),
    {
        ServiceQueue { queue: Vec::new() }
    }

    /// Queues a request for `key` due `delay` nanoseconds after `now`.
    pub fn schedule(&mut self, key: ServiceKey, now: u64, delay: u64)
        requires
            now + delay <= u64::MAX,
        ensures
            final(self).queue@ == old(self).queue@.push(
                ServiceRequest { key, when: (now + delay) as u64 },
            ),
    {
        self.queue.push(ServiceRequest { key, when: now + delay });
    }

    /// Pops at most one due request per call: `None` while the earliest
    /// deadline has not elapsed (the queue is then untouched), otherwise
    /// exactly the earliest request, removed from the queue.
    pub fn take(&mut self, now: u64) -> (r: Option<ServiceRequest>)
        ensures
            !Self::due(old(self).queue@, now) ==> r is None && final(self).queue@ == old(
                self,
            ).queue@,
            Self::due(old(self).queue@, now) ==> r == Some(
                old(self).queue@[Self::first_min_index(old(self).queue@)],
            ) && final(self).queue@ == old(self).queue@.remove(
                Self::first_min_index(old(self).queue@),
            ),
    {
        let n = self.queue.len();
        if n == 0 {
            return None;
        }
        let mut mi: usize = 0;
        let mut i: usize = 1;
        while i < n
            invariant
                n == self.queue@.len(),
                1 <= i <= n,
                mi < i,
                mi == Self::first_min_index(self.queue@.take(i as int)),
            decreases n - i,
        {
            proof {
                assert(self.queue@.take(i + 1).drop_last() =~= self.queue@.take(i as int));
                assert(self.queue@.take(i + 1).last() == self.queue@[i as int]);
            }
            if self.queue[i].when < self.queue[mi].when {
                mi = i;
            }
            i = i + 1;
        }
        proof {
            assert(self.queue@.take(n as int) =~= self.queue@);
            Self::lemma_first_min_is_earliest(self.queue@);
        }
        if self.queue[mi].when < now {
            let req = self.queue.remove(mi);
            Some(req)
        } else {
            None
        }
    }

    /// Law: the entry `first_min_index` names carries the smallest deadline
    /// in the queue, so `take` never returns a later request while an
    /// earlier one is queued.
    pub proof fn lemma_first_min_is_earliest(s: Seq<ServiceRequest>)
        requires
            s.len() > 0,
        ensures
            0 <= Self::first_min_index(s) < s.len(),
            forall|j: int|
                0 <= j < s.len() ==> s[Self::first_min_index(s)].when <= #[trigger] s[j].when,
        decreases s.len(),
    {
        if s.len() > 1 {
            Self::lemma_first_min_is_earliest(s.drop_last());
            let t = Self::first_min_index(s.drop_last());
            assert(s.drop_last()[t] == s[t]);
            assert forall|j: int| 0 <= j < s.len() implies s[Self::first_min_index(s)].when <= #[trigger] s[j].when by {
                if j < s.len() - 1 {
                    assert(s.drop_last()[j] == s[j]);
                }
            }
        }
    }

    /// Law: while no queued deadline has elapsed, repeated polls keep
    /// returning nothing at any time not later than the first poll's.
    pub proof fn lemma_not_due_persists(s: Seq<ServiceRequest>, now: u64, earlier: u64)
        requires
            !Self::due(s, now),
            earlier <= now,
        ensures
            !Self::due(s, earlier),
    {
    }
}

} // verus!
