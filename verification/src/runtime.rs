//! The modelled state of the native hub process.
//!
//! The native layer keeps process-wide state: the set of live hub handles
//! it has given out, the events it has buffered for delivery, and the
//! locking policy in force. [`Runtime`] models that state as plain values —
//! a handle table, an event queue and a policy — and every operation of the
//! library is specified and verified against it. Simulated device activity
//! enters through [`Runtime::push_event`] and is drained by the hub's run
//! loop.

use vstd::prelude::*;

use crate::codes::LockingPolicy;
use crate::events::EventRecord;

verus! {

/// The sequence with the first occurrence of `x` removed, if there is one.
pub open spec fn remove_first(s: Seq<u64>, x: u64) -> Seq<u64>
    decreases s.len(),
{
    if s.len() == 0 {
        s
    } else if s[0] == x {
        s.drop_first()
    } else {
        seq![s[0]] + remove_first(s.drop_first(), x)
    }
}

/// Removing the first occurrence of `x` removes exactly the element at the
/// first index holding `x`.
proof fn lemma_remove_first_at(s: Seq<u64>, x: u64, i: int)
    requires
        0 <= i < s.len(),
        s[i] == x,
        forall|j: int| 0 <= j < i ==> s[j] != x,
    ensures
        remove_first(s, x) == s.remove(i),
    decreases s.len(),
{
    if i == 0 {
        assert(remove_first(s, x) =~= s.remove(0));
    } else {
        assert(s[0] != x);
        lemma_remove_first_at(s.drop_first(), x, i - 1);
        assert(seq![s[0]] + s.drop_first().remove(i - 1) =~= s.remove(i));
    }
}

/// Registering a fresh handle and then releasing it restores the handle
/// table exactly: a construct-then-release pair leaks nothing and removes
/// nothing else.
pub proof fn lemma_register_then_release_restores(s: Seq<u64>, h: u64)
    requires
        !s.contains(h),
    ensures
        remove_first(s.push(h), h) == s,
    decreases s.len(),
{
    if s.len() == 0 {
        assert(s.push(h)[0] == h);
        assert(remove_first(s.push(h), h) =~= s);
    } else {
        assert(s.push(h)[0] == s[0]);
        assert(s[0] != h) by {
            if s[0] == h {
                assert(s.contains(h));
            }
        }
        assert(s.push(h).drop_first() =~= s.drop_first().push(h));
        assert(!s.drop_first().contains(h)) by {
            if s.drop_first().contains(h) {
                let k = choose|k: int| 0 <= k < s.drop_first().len() && s.drop_first()[k] == h;
                assert(s[k + 1] == h);
            }
        }
        lemma_register_then_release_restores(s.drop_first(), h);
        assert(seq![s[0]] + s.drop_first() =~= s);
    }
}

/// The modelled native hub process: the live hub handles it has issued,
/// the events it has buffered, and the locking policy in force.
#[derive(Debug)]
pub struct Runtime {
    pub(crate) next_handle: u64,
    pub(crate) live: Vec<u64>,
    pub(crate) pending: Vec<EventRecord>,
    pub(crate) policy: LockingPolicy,
}

impl Runtime {
    /// The live hub handles, in order of registration, for specification.
    pub closed spec fn live_handles(self) -> Seq<u64> {
        self.live@
    }

    /// The buffered events, oldest first, for specification.
    pub closed spec fn pending_events(self) -> Seq<EventRecord> {
        self.pending@
    }

    /// The locking policy in force, for specification.
    pub closed spec fn spec_policy(self) -> LockingPolicy {
        self.policy
    }

    /// The next handle value to be issued, for specification.
    pub closed spec fn spec_next_handle(self) -> u64 {
        self.next_handle
    }

    /// Well-formedness: every live handle is non-null and below the next
    /// handle to be issued, and no handle is live twice.
    pub open spec fn wf(self) -> bool {
        &&& 0 < self.spec_next_handle()
        &&& forall|i: int|
            0 <= i < self.live_handles().len() ==> 0 < #[trigger] self.live_handles()[i]
                < self.spec_next_handle()
        &&& forall|i: int, j: int|
            0 <= i < j < self.live_handles().len() ==> #[trigger] self.live_handles()[i]
                != #[trigger] self.live_handles()[j]
    }

    /// A fresh runtime: no live hub, no buffered events, standard locking.
    pub fn new() -> (r: Runtime)
        ensures
            r.wf(),
            r.live_handles() == Seq::<u64>::empty(),
            r.pending_events() == Seq::<EventRecord>::empty(),
            r.spec_policy() == LockingPolicy::Standard,
            r.spec_next_handle() == 1,
    {
        let r = Runtime {
            next_handle: 1,
            live: Vec::new(),
            pending: Vec::new(),
            policy: LockingPolicy::Standard,
        };
        proof {
            assert(r.live_handles() =~= Seq::<u64>::empty());
            assert(r.pending_events() =~= Seq::<EventRecord>::empty());
        }
        r
    }

    /// Buffer one event for delivery by a later run call; this is how
    /// simulated device activity enters the model.
    pub fn push_event(&mut self, event: EventRecord)
        ensures
            final(self).pending_events() == old(self).pending_events().push(event),
            final(self).live_handles() == old(self).live_handles(),
            final(self).spec_policy() == old(self).spec_policy(),
            final(self).spec_next_handle() == old(self).spec_next_handle(),
    {
        self.pending.push(event);
    }

    /// The number of live hub handles.
    pub fn live_count(&self) -> (r: usize)
        ensures
            r == self.live_handles().len(),
    {
        self.live.len()
    }

    /// The number of buffered events.
    pub fn pending_count(&self) -> (r: usize)
        ensures
            r == self.pending_events().len(),
    {
        self.pending.len()
    }

    /// The locking policy in force.
    pub fn locking_policy(&self) -> (r: LockingPolicy)
        ensures
            r == self.spec_policy(),
    {
        self.policy
    }

    /// Whether a hub handle is live in this runtime.
    pub fn is_live(&self, h: u64) -> (r: bool)
        ensures
            r == self.live_handles().contains(h),
    {
        let n = self.live.len();
        let mut i: usize = 0;
        while i < n
            invariant
                n == self.live_handles().len(),
                i <= n,
                forall|j: int| 0 <= j < i ==> self.live_handles()[j] != h,
            decreases n - i,
        {
            if self.live[i] == h {
                return true;
            }
            i = i + 1;
        }
        proof {
            if self.live_handles().contains(h) {
                let k = choose|k: int|
                    0 <= k < self.live_handles().len() && self.live_handles()[k] == h;
                assert(self.live_handles()[k] != h);
            }
        }
        false
    }

    /// Put a locking policy in force.
    pub(crate) fn set_policy(&mut self, policy: LockingPolicy)
        ensures
            final(self).spec_policy() == policy,
            final(self).live_handles() == old(self).live_handles(),
            final(self).pending_events() == old(self).pending_events(),
            final(self).spec_next_handle() == old(self).spec_next_handle(),
    {
        self.policy = policy;
    }

    /// Take the oldest buffered event out of the queue.
    pub(crate) fn take_front_event(&mut self) -> (e: EventRecord)
        requires
            old(self).pending_events().len() > 0,
        ensures
            e == old(self).pending_events()[0],
            final(self).pending_events() == old(self).pending_events().drop_first(),
            final(self).live_handles() == old(self).live_handles(),
            final(self).spec_policy() == old(self).spec_policy(),
            final(self).spec_next_handle() == old(self).spec_next_handle(),
    {
        let e = self.pending.remove(0);
        proof {
            assert(self.pending_events() =~= old(self).pending_events().drop_first());
        }
        e
    }

    /// Issue a fresh hub handle and register it as live.
    pub(crate) fn register_hub(&mut self) -> (h: u64)
        requires
            old(self).wf(),
            old(self).spec_next_handle() < u64::MAX,
        ensures
            final(self).wf(),
            h == old(self).spec_next_handle(),
            0 < h,
            !old(self).live_handles().contains(h),
            final(self).live_handles() == old(self).live_handles().push(h),
            final(self).pending_events() == old(self).pending_events(),
            final(self).spec_policy() == old(self).spec_policy(),
            final(self).spec_next_handle() == h + 1,
    {
        let h = self.next_handle;
        proof {
            if old(self).live_handles().contains(h) {
                let k = choose|k: int|
                    0 <= k < old(self).live_handles().len() && old(self).live_handles()[k] == h;
                assert(old(self).live_handles()[k] < h);
            }
        }
        self.next_handle = self.next_handle + 1;
        self.live.push(h);
        h
    }

    /// Release a live hub handle. Returns whether the handle was live; a
    /// handle this runtime never issued, or one already released, is not
    /// found and the runtime is left unchanged.
    pub(crate) fn release_hub(&mut self, h: u64) -> (found: bool)
        requires
            old(self).wf(),
        ensures
            final(self).wf(),
            found == old(self).live_handles().contains(h),
            found ==> final(self).live_handles() == remove_first(old(self).live_handles(), h),
            !found ==> final(self).live_handles() == old(self).live_handles(),
            final(self).pending_events() == old(self).pending_events(),
            final(self).spec_policy() == old(self).spec_policy(),
            final(self).spec_next_handle() == old(self).spec_next_handle(),
    {
        let n = self.live.len();
        let mut i: usize = 0;
        while i < n
            invariant
                old(self).wf(),
                *self == *old(self),
                n == self.live_handles().len(),
                i <= n,
                forall|j: int| 0 <= j < i ==> self.live_handles()[j] != h,
            decreases n - i,
        {
            if self.live[i] == h {
                proof {
                    lemma_remove_first_at(self.live@, h, i as int);
                }
                let _ = self.live.remove(i);
                proof {
                    assert(self.live_handles() == old(self).live_handles().remove(i as int));
                    old(self).live_handles().remove_ensures(i as int);
                    assert forall|a: int|
                        0 <= a < self.live_handles().len() implies 0
                            < #[trigger] self.live_handles()[a] < self.spec_next_handle() by {
                        if a < i {
                            assert(old(self).live_handles().remove(i as int)[a] == old(
                                self,
                            ).live_handles()[a]);
                        } else {
                            assert(old(self).live_handles().remove(i as int)[a] == old(
                                self,
                            ).live_handles()[a + 1]);
                        }
                    }
                    assert forall|a: int, b: int|
                        0 <= a < b < self.live_handles().len() implies #[trigger] self.live_handles()[a]
                            != #[trigger] self.live_handles()[b] by {
                        if a < i {
                            assert(old(self).live_handles().remove(i as int)[a] == old(
                                self,
                            ).live_handles()[a]);
                        } else {
                            assert(old(self).live_handles().remove(i as int)[a] == old(
                                self,
                            ).live_handles()[a + 1]);
                        }
                        if b < i {
                            assert(old(self).live_handles().remove(i as int)[b] == old(
                                self,
                            ).live_handles()[b]);
                        } else {
                            assert(old(self).live_handles().remove(i as int)[b] == old(
                                self,
                            ).live_handles()[b + 1]);
                        }
                    }
                }
                return true;
            }
            i = i + 1;
        }
        proof {
            if old(self).live_handles().contains(h) {
                let k = choose|k: int|
                    0 <= k < old(self).live_handles().len() && old(self).live_handles()[k] == h;
                assert(old(self).live_handles()[k] != h);
            }
        }
        false
    }
}

} // verus!
