//! The arbiter serializing access to the shared model resource.
//!
//! The model resource is mutated by at most one generation task at a time;
//! later requests wait in arrival order. The suspension itself is the
//! runtime's business — this is the verified arbitration state: who holds
//! the resource, who waits, and in what order grants are handed out.
//! Ghost logs of arrivals and grants make the fairness policy a stated
//! property: grants follow arrival order exactly.

use vstd::prelude::*;

verus! {

/// The arbitration state of the resource lock.
pub struct LockQueue {
    /// The task currently holding the resource, if any.
    pub holder: Option<u64>,
    /// Tasks waiting for the resource, in arrival order.
    pub waiters: Vec<u64>,
    /// Every task that ever asked, in arrival order.
    pub arrivals: Ghost<Seq<u64>>,
    /// Every task that was ever granted the resource, in grant order.
    pub grants: Ghost<Seq<u64>>,
}

impl LockQueue {
    /// `id` holds the resource now.
    pub open spec fn holds(self, id: u64) -> bool {
        self.holder == Some(id)
    }

    /// The arbiter invariant: waiters are distinct, the holder is not
    /// also waiting, and the arrival log is exactly the grant log followed
    /// by those still waiting.
    pub open spec fn wf(self) -> bool {
        &&& (forall|i: int, j: int|
            0 <= i < j < self.waiters@.len() ==> self.waiters@[i] != self.waiters@[j])
        &&& (self.holder matches Some(h) ==> !self.waiters@.contains(h))
        &&& self.arrivals@ == self.grants@ + self.waiters@
    }

    /// A free lock with nobody waiting.
    pub fn new() -> (l: LockQueue)
        ensures
            l.wf(),
            l.holder is None,
            l.waiters@.len() == 0,
            l.arrivals@.len() == 0,
            l.grants@.len() == 0,
    {
        let l = LockQueue {
            holder: None,
            waiters: Vec::new(),
            arrivals: Ghost(Seq::empty()),
            grants: Ghost(Seq::empty()),
        };
        proof {
            assert(l.arrivals@ =~= l.grants@ + l.waiters@);
        }
        l
    }

    /// `id` is already in line or holding the resource.
    pub fn is_known(&self, id: u64) -> (b: bool)
        ensures
            b == (self.waiters@.contains(id) || self.holds(id)),
    {
        if let Some(h) = self.holder {
            if h == id {
                return true;
            }
        }
        let mut i: usize = 0;
        while i < self.waiters.len()
            invariant
                i <= self.waiters@.len(),
                forall|j: int| 0 <= j < i ==> self.waiters@[j] != id,
            decreases self.waiters@.len() - i,
        {
            if self.waiters[i] == id {
                return true;
            }
            i += 1;
        }
        false
    }

    /// A new task asks for the resource: it joins the end of the line.
    pub fn request(&mut self, id: u64)
        requires
            old(self).wf(),
            !old(self).waiters@.contains(id),
            !old(self).holds(id),
        ensures
            final(self).wf(),
            final(self).holder == old(self).holder,
            final(self).waiters@ == old(self).waiters@.push(id),
            final(self).arrivals@ == old(self).arrivals@.push(id),
            final(self).grants == old(self).grants,
    {
        self.waiters.push(id);
        self.arrivals = Ghost(self.arrivals@.push(id));
        proof {
            assert(self.arrivals@ =~= self.grants@ + self.waiters@);
        }
    }

    /// Wake the next waiter, if the resource is free and someone waits:
    /// strictly the one that arrived first.
    pub fn try_grant(&mut self) -> (granted: Option<u64>)
        requires
            old(self).wf(),
        ensures
            final(self).wf(),
            final(self).arrivals == old(self).arrivals,
            granted is Some <==> old(self).holder is None && old(self).waiters@.len() > 0,
            granted matches Some(id) ==> id == old(self).waiters@[0] && final(self).holder
                == Some(id) && final(self).waiters@ == old(self).waiters@.drop_first()
                && final(self).grants@ == old(self).grants@.push(id),
            granted is None ==> *final(self) == *old(self),
    {
        if self.holder.is_some() || self.waiters.len() == 0 {
            None
        } else {
            let id = self.waiters.remove(0);
            self.holder = Some(id);
            self.grants = Ghost(self.grants@.push(id));
            proof {
                assert forall|k: int| 0 <= k < self.waiters@.len() implies self.waiters@[k]
                    != id by {
                    assert(self.waiters@[k] == old(self).waiters@[k + 1]);
                }
                assert(!self.waiters@.contains(id));
                assert(self.arrivals@ =~= self.grants@ + self.waiters@);
            }
            Some(id)
        }
    }

    /// The holder is done with the resource.
    pub fn release(&mut self, id: u64)
        requires
            old(self).wf(),
            old(self).holds(id),
        ensures
            final(self).wf(),
            final(self).holder is None,
            final(self).waiters == old(self).waiters,
            final(self).arrivals == old(self).arrivals,
            final(self).grants == old(self).grants,
    {
        self.holder = None;
    }
}

/// Mutual exclusion: at most one task holds the resource at any instant.
pub proof fn lemma_mutual_exclusion(l: LockQueue, a: u64, b: u64)
    requires
        l.holds(a),
        l.holds(b),
    ensures
        a == b,
{
}

/// Fairness: grants follow arrival order — at every instant the grant log
/// is exactly a prefix of the arrival log, so no waiter is overtaken.
pub proof fn lemma_grants_follow_arrivals(l: LockQueue)
    requires
        l.wf(),
    ensures
        l.grants@.len() <= l.arrivals@.len(),
        l.grants@ == l.arrivals@.subrange(0, l.grants@.len() as int),
{
    assert(l.grants@ =~= l.arrivals@.subrange(0, l.grants@.len() as int));
}

} // verus!
