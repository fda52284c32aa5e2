//! The hub: the owning handle to the event-processing context.
//!
//! A hub is created by [`Hub::initialize`] against a [`Runtime`], which
//! validates the application identifier and registers a fresh handle, and
//! is torn down exactly once by [`Hub::release`], which consumes the hub.
//! [`Hub::run`] drains the runtime's buffered events through the dispatch
//! bridge, stopping early when a handler says to stop.

use vstd::prelude::*;
use vstd::string::StringExecFns;

use crate::appid::check_app_id;
use crate::appid::valid_app_id;
use crate::bridge::DispatchOutcome;
use crate::bridge::dispatch_event;
use crate::codes::HandlerResult;
use crate::codes::LockingPolicy;
use crate::codes::ResultCode;
use crate::error::ErrorDetails;
use crate::listener::EventListener;
use crate::runtime::Runtime;
use crate::runtime::remove_first;

verus! {

/// What one run call did: how many buffered events were dispatched, and
/// whether a handler's stop decision ended the call early.
#[derive(Clone, Copy, Debug, PartialEq, Eq, Structural)]
pub struct RunReport {
    /// The number of events dispatched, oldest first.
    pub handled: usize,
    /// Whether the last dispatched event's handler decided to stop.
    pub stopped: bool,
}

/// The observable runtime state that an operation leaves untouched when it
/// fails: live handles, buffered events, policy and handle counter.
pub open spec fn runtime_unchanged(pre: Runtime, post: Runtime) -> bool {
    &&& post.live_handles() == pre.live_handles()
    &&& post.pending_events() == pre.pending_events()
    &&& post.spec_policy() == pre.spec_policy()
    &&& post.spec_next_handle() == pre.spec_next_handle()
}

/// The owning handle to the event-processing context. At most one hub is
/// live per runtime; the handle is released exactly once, by
/// [`Hub::release`], which consumes it.
#[derive(Debug)]
pub struct Hub {
    handle: u64,
}

impl Hub {
    /// The underlying handle, for specification.
    pub closed spec fn spec_handle(self) -> u64 {
        self.handle
    }

    /// The raw handle value.
    pub fn raw_handle(&self) -> (r: u64)
        ensures
            r == self.spec_handle(),
    {
        self.handle
    }

    /// Establish a connection to the event-processing context.
    ///
    /// Succeeds exactly when the application identifier is well-formed and
    /// no hub is live, returning a hub with a fresh non-null handle — never
    /// both a hub and an error. A malformed identifier is classified as an
    /// invalid argument; a second live hub as a runtime (connection)
    /// failure. On failure the runtime is left unchanged.
    pub fn initialize(rt: &mut Runtime, application_identifier: &[u8]) -> (r: Result<
        Hub,
        ErrorDetails,
    >)
        requires
            old(rt).wf(),
            old(rt).spec_next_handle() < u64::MAX,
        ensures
            final(rt).wf(),
            r is Ok <==> (valid_app_id(application_identifier@) && old(rt).live_handles().len()
                == 0),
            r matches Ok(hub) ==> {
                &&& hub.spec_handle() != 0
                &&& !old(rt).live_handles().contains(hub.spec_handle())
                &&& final(rt).live_handles() == old(rt).live_handles().push(hub.spec_handle())
                &&& final(rt).pending_events() == old(rt).pending_events()
                &&& final(rt).spec_policy() == old(rt).spec_policy()
                &&& final(rt).spec_next_handle() == old(rt).spec_next_handle() + 1
            },
            r is Err ==> runtime_unchanged(*old(rt), *final(rt)),
            !valid_app_id(application_identifier@) ==> (r matches Err(e) && e.spec_kind()
                == ResultCode::ErrorInvalidArgument),
            valid_app_id(application_identifier@) && old(rt).live_handles().len() != 0 ==> (
            r matches Err(e) && e.spec_kind() == ResultCode::Runtime),
    {
        if !check_app_id(application_identifier) {
            return Err(
                ErrorDetails::new(
                    ResultCode::ErrorInvalidArgument,
                    String::from_str("invalid argument: malformed application identifier"),
                ),
            );
        }
        if rt.live_count() != 0 {
            return Err(
                ErrorDetails::new(
                    ResultCode::Runtime,
                    String::from_str("runtime error: a hub connection is already established"),
                ),
            );
        }
        let handle = rt.register_hub();
        Ok(Hub { handle })
    }

    /// Set the locking policy for devices connected to the hub.
    ///
    /// Succeeds exactly when this hub's handle is live in the runtime, and
    /// then the policy in force becomes the given one; a stale or foreign
    /// handle is classified as an uncategorized error and changes nothing.
    pub fn set_locking_policy(&self, rt: &mut Runtime, locking_policy: LockingPolicy) -> (r: Result<
        (),
        ErrorDetails,
    >)
        requires
            old(rt).wf(),
        ensures
            final(rt).wf(),
            r is Ok <==> old(rt).live_handles().contains(self.spec_handle()),
            r is Ok ==> {
                &&& final(rt).spec_policy() == locking_policy
                &&& final(rt).live_handles() == old(rt).live_handles()
                &&& final(rt).pending_events() == old(rt).pending_events()
                &&& final(rt).spec_next_handle() == old(rt).spec_next_handle()
            },
            r matches Err(e) ==> {
                &&& runtime_unchanged(*old(rt), *final(rt))
                &&& e.spec_kind() == ResultCode::Error
            },
    {
        if !rt.is_live(self.handle) {
            return Err(
                ErrorDetails::new(ResultCode::Error, String::from_str("error: not a valid hub")),
            );
        }
        rt.set_policy(locking_policy);
        Ok(())
    }

    /// Process buffered events, calling back the listener as they occur.
    ///
    /// Succeeds exactly when this hub's handle is live in the runtime —
    /// whatever the handlers decide. The buffered events are
    /// dispatched oldest first, each through the one matching handler of
    /// the listener (a record of unknown kind is an explicit no-op), until
    /// a handler decides to stop or the buffer is drained; what was
    /// not dispatched stays buffered, in order. Without a stop decision
    /// every buffered event is dispatched. The model has no clock, so the
    /// duration budget does not cut the drain short.
    pub fn run<L: EventListener>(
        &self,
        rt: &mut Runtime,
        duration_ms: u32,
        listener: &mut L,
    ) -> (r: Result<RunReport, ErrorDetails>)
        requires
            old(rt).wf(),
        ensures
            final(rt).wf(),
            final(rt).live_handles() == old(rt).live_handles(),
            final(rt).spec_policy() == old(rt).spec_policy(),
            final(rt).spec_next_handle() == old(rt).spec_next_handle(),
            r is Ok <==> old(rt).live_handles().contains(self.spec_handle()),
            r matches Ok(report) ==> {
                &&& report.handled <= old(rt).pending_events().len()
                &&& final(rt).pending_events() == old(rt).pending_events().skip(
                    report.handled as int,
                )
                &&& !report.stopped ==> report.handled == old(rt).pending_events().len()
                &&& report.stopped ==> report.handled >= 1
            },
            r matches Err(e) ==> {
                &&& runtime_unchanged(*old(rt), *final(rt))
                &&& e.spec_kind() == ResultCode::Error
            },
    {
        let _ = duration_ms;
        if !rt.is_live(self.handle) {
            return Err(
                ErrorDetails::new(ResultCode::Error, String::from_str("error: not a valid hub")),
            );
        }
        let total: usize = rt.pending_count();
        let mut handled: usize = 0;
        let mut stopped = false;
        proof {
            assert(old(rt).pending_events().skip(0) =~= old(rt).pending_events());
        }
        while !stopped && rt.pending_count() > 0
            invariant
                old(rt).wf(),
                rt.wf(),
                rt.live_handles() == old(rt).live_handles(),
                rt.spec_policy() == old(rt).spec_policy(),
                rt.spec_next_handle() == old(rt).spec_next_handle(),
                total == old(rt).pending_events().len(),
                handled <= total,
                handled + rt.pending_events().len() >= old(rt).pending_events().len(),
                rt.pending_events() == old(rt).pending_events().skip(handled as int),
                !stopped ==> handled + rt.pending_events().len() == old(
                    rt,
                ).pending_events().len(),
                stopped ==> handled >= 1,
            decreases rt.pending_events().len(),
        {
            let rec = rt.take_front_event();
            proof {
                assert(old(rt).pending_events().skip(handled as int).drop_first() =~= old(
                    rt,
                ).pending_events().skip(handled as int + 1));
            }
            let outcome = dispatch_event(listener, &rec);
            if let DispatchOutcome::Handled(HandlerResult::Stop) = outcome {
                stopped = true;
            }
            handled = handled + 1;
        }
        Ok(RunReport { handled, stopped })
    }

    /// Tear the hub down, releasing its handle.
    ///
    /// Consumes the hub, so release happens at most once per hub. Succeeds
    /// exactly when the handle is live in the runtime, and then exactly
    /// this handle leaves the live table, with buffered events, policy and
    /// handle counter untouched; a stale or foreign handle is classified as
    /// an uncategorized error and changes nothing.
    pub fn release(self, rt: &mut Runtime) -> (r: Result<(), ErrorDetails>)
        requires
            old(rt).wf(),
        ensures
            final(rt).wf(),
            r is Ok <==> old(rt).live_handles().contains(self.spec_handle()),
            r is Ok ==> final(rt).live_handles() == remove_first(
                old(rt).live_handles(),
                self.spec_handle(),
            ),
            r matches Err(e) ==> {
                &&& runtime_unchanged(*old(rt), *final(rt))
                &&& e.spec_kind() == ResultCode::Error
            },
            final(rt).pending_events() == old(rt).pending_events(),
            final(rt).spec_policy() == old(rt).spec_policy(),
            final(rt).spec_next_handle() == old(rt).spec_next_handle(),
    {
        let found = rt.release_hub(self.handle);
        if found {
            Ok(())
        } else {
            Err(ErrorDetails::new(ResultCode::Error, String::from_str("error: not a valid hub")))
        }
    }
}

/// Constructing a hub and then immediately releasing it restores the
/// runtime's live-handle table exactly, so the resource count returns to
/// what it was and nothing else is released: the fresh handle that
/// construction registers is the one handle that release removes.
pub proof fn lemma_construct_then_release_no_leak(pre: Runtime, mid: Runtime, post: Runtime, h: u64)
    requires
        !pre.live_handles().contains(h),
        mid.live_handles() == pre.live_handles().push(h),
        post.live_handles() == remove_first(mid.live_handles(), h),
    ensures
        post.live_handles() == pre.live_handles(),
        post.live_handles().len() == pre.live_handles().len(),
{
    crate::runtime::lemma_register_then_release_restores(pre.live_handles(), h);
}

} // verus!
