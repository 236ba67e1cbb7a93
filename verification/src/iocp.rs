//! Decision logic of the job-object listener: routing the exit
//! notifications that the kernel posts to the job's completion port to the
//! waiters of the children.
//!
//! A child's exit notification may arrive before or after its waiter
//! registers; [`IocpRouter`] keeps whichever comes first until the other
//! arrives.
use vstd::prelude::*;
use std::collections::HashMap;
use crate::termination::{reason_exit_code, ExitStatus, TerminationReason};

verus! {

broadcast use {vstd::std_specs::hash::group_hash_axioms, crate::termination::group_exit_status};

/// `JOB_OBJECT_MSG_EXIT_PROCESS`: a process exited without an unhandled
/// exception.
pub const JOB_OBJECT_MSG_EXIT_PROCESS: u32 = 7;

/// `JOB_OBJECT_MSG_ABNORMAL_EXIT_PROCESS`: a process exited through an
/// unhandled exception.
pub const JOB_OBJECT_MSG_ABNORMAL_EXIT_PROCESS: u32 = 8;

/// Completion key of the job-object notifications.
pub const JOB_KEY: usize = 1;

/// Completion key posted to shut the listener down.
pub const SHUTDOWN_KEY: usize = 0;

/// Whether a job-object message reports a process exit.
pub open spec fn spec_is_exit_message(msg_type: u32) -> bool {
    msg_type == JOB_OBJECT_MSG_EXIT_PROCESS || msg_type == JOB_OBJECT_MSG_ABNORMAL_EXIT_PROCESS
}

/// Whether a job-object message reports a process exit; the other messages
/// (a new process, no active process, ...) are ignored.
pub fn is_exit_message(msg_type: u32) -> (b: bool)
    ensures
        b == spec_is_exit_message(msg_type),
{
    msg_type == JOB_OBJECT_MSG_EXIT_PROCESS || msg_type == JOB_OBJECT_MSG_ABNORMAL_EXIT_PROCESS
}

/// The classification of an exit reported through the job: `Crash` (at an
/// unknown address) for an abnormal exit, `Unknown` otherwise.  The exit
/// code is the one read from the process, or 0 when it could not be read.
pub open spec fn spec_classify_iocp_exit(exit_code: Option<u32>, msg_type: u32) -> TerminationReason {
    let code = match exit_code {
        Some(c) => c,
        None => 0,
    };
    if msg_type == JOB_OBJECT_MSG_ABNORMAL_EXIT_PROCESS {
        TerminationReason::Crash { code, address: 0 }
    } else {
        TerminationReason::Unknown(ExitStatus::from_raw_spec(code))
    }
}

/// Classifies an exit reported through the job, given the exit code read
/// from the process (`None` when it could not be read).
pub fn classify_iocp_exit(exit_code: Option<u32>, msg_type: u32) -> (r: TerminationReason)
    ensures
        r == spec_classify_iocp_exit(exit_code, msg_type),
{
    let code = match exit_code {
        Some(c) => c,
        None => 0,
    };
    if msg_type == JOB_OBJECT_MSG_ABNORMAL_EXIT_PROCESS {
        TerminationReason::Crash { code, address: 0 }
    } else {
        TerminationReason::Unknown(ExitStatus::from_raw(code))
    }
}

/// What one wait on the completion port produced.
#[derive(Debug, Clone, Copy, PartialEq, Eq, Structural)]
pub enum Completion {
    /// The shutdown key: stop listening.
    Shutdown,
    /// No packet arrived before the timeout.
    Timeout,
    /// A job-object notification to dispatch.
    Packet,
}

/// How the listener reads the outcome of one wait: no packet dequeued (the
/// call failed without an overlapped pointer) is a timeout, whatever the key
/// holds; a dequeued packet with the shutdown key stops the listener; any
/// other packet is a notification.
pub open spec fn spec_classify_completion(ok: bool, overlapped_is_null: bool, key: usize) -> Completion {
    if !ok && overlapped_is_null {
        Completion::Timeout
    } else if key == SHUTDOWN_KEY {
        Completion::Shutdown
    } else {
        Completion::Packet
    }
}

/// Reads the outcome of one wait on the completion port: whether the call
/// succeeded, whether it returned no overlapped pointer, and the key.
pub fn classify_completion(ok: bool, overlapped_is_null: bool, key: usize) -> (c: Completion)
    ensures
        c == spec_classify_completion(ok, overlapped_is_null, key),
{
    if !ok && overlapped_is_null {
        Completion::Timeout
    } else if key == SHUTDOWN_KEY {
        Completion::Shutdown
    } else {
        Completion::Packet
    }
}

/// The listener stops only on a dequeued packet carrying the shutdown key:
/// an idle wait never stops it, whatever the key variable holds.
pub proof fn lemma_only_shutdown_packet_stops(ok: bool, overlapped_is_null: bool, key: usize)
    ensures
        spec_classify_completion(ok, overlapped_is_null, key) == Completion::Shutdown
            <==> (key == SHUTDOWN_KEY && !(!ok && overlapped_is_null)),
        !ok && overlapped_is_null ==> spec_classify_completion(ok, overlapped_is_null, key) == Completion::Timeout,
{
}

/// The router's state: registered waiters, and results that arrived before
/// their waiter.
pub struct RouterView<S> {
    pub waiters: Map<u32, S>,
    pub pending: Map<u32, TerminationReason>,
}

/// No child is both waited for and holding an undelivered result.
pub open spec fn router_wf<S>(v: RouterView<S>) -> bool {
    forall|pid: u32| !(#[trigger] v.waiters.contains_key(pid) && #[trigger] v.pending.contains_key(pid))
}

/// Registering the waiter `tx` of `pid`: a result already there goes to it
/// at once, otherwise the waiter is kept.
pub open spec fn spec_register<S>(v: RouterView<S>, pid: u32, tx: S) -> (RouterView<S>, Option<(S, TerminationReason)>) {
    if v.pending.contains_key(pid) {
        (RouterView { waiters: v.waiters, pending: v.pending.remove(pid) }, Some((tx, v.pending[pid])))
    } else {
        (RouterView { waiters: v.waiters.insert(pid, tx), pending: v.pending }, None)
    }
}

/// Dispatching a job-object message about `pid`: an exit goes to the
/// registered waiter, or is kept until it registers; other messages change
/// nothing.
pub open spec fn spec_dispatch_notification<S>(v: RouterView<S>, msg_type: u32, pid: u32, exit_code: Option<u32>) -> (RouterView<S>, Option<(S, TerminationReason)>) {
    if !spec_is_exit_message(msg_type) {
        (v, None)
    } else {
        let r = spec_classify_iocp_exit(exit_code, msg_type);
        if v.waiters.contains_key(pid) {
            (RouterView { waiters: v.waiters.remove(pid), pending: v.pending }, Some((v.waiters[pid], r)))
        } else {
            (RouterView { waiters: v.waiters, pending: v.pending.insert(pid, r) }, None)
        }
    }
}

/// Routes exit notifications to the waiters of the children.
pub struct IocpRouter<S> {
    waiters: HashMap<u32, S>,
    pending: HashMap<u32, TerminationReason>,
}

impl<S> View for IocpRouter<S> {
    type V = RouterView<S>;

    closed spec fn view(&self) -> RouterView<S> {
        RouterView { waiters: self.waiters@, pending: self.pending@ }
    }
}

impl<S> IocpRouter<S> {
    /// A router with no waiter and no result.
    pub fn new() -> (r: Self)
        ensures
            r@.waiters == Map::<u32, S>::empty(),
            r@.pending == Map::<u32, TerminationReason>::empty(),
            router_wf(r@),
    {
        IocpRouter { waiters: HashMap::new(), pending: HashMap::new() }
    }

    /// Registers the waiter of `pid`; returns the waiter and the result to
    /// send it when the child's exit was already reported.
    pub fn register(&mut self, pid: u32, exit_tx: S) -> (d: Option<(S, TerminationReason)>)
        ensures
            (final(self)@, d) == spec_register(old(self)@, pid, exit_tx),
            router_wf(old(self)@) ==> router_wf(final(self)@),
    {
        match self.pending.remove(&pid) {
            Some(result) => {
                proof {
                    assert(self@ == RouterView { waiters: old(self)@.waiters, pending: old(self)@.pending.remove(pid) });
                }
                Some((exit_tx, result))
            },
            None => {
                self.waiters.insert(pid, exit_tx);
                proof {
                    assert(old(self)@.pending.remove(pid) =~= old(self)@.pending);
                    assert(self@ == RouterView { waiters: old(self)@.waiters.insert(pid, exit_tx), pending: old(self)@.pending });
                }
                None
            },
        }
    }

    /// Dispatches one job-object message about `pid`, given the exit code
    /// read from the process (`None` when it could not be read); returns the
    /// waiter and the result to send it when one is registered.
    pub fn dispatch_notification(&mut self, msg_type: u32, pid: u32, exit_code: Option<u32>) -> (d: Option<(S, TerminationReason)>)
        ensures
            (final(self)@, d) == spec_dispatch_notification(old(self)@, msg_type, pid, exit_code),
            router_wf(old(self)@) ==> router_wf(final(self)@),
    {
        if !is_exit_message(msg_type) {
            return None;
        }
        let result = classify_iocp_exit(exit_code, msg_type);
        match self.waiters.remove(&pid) {
            Some(tx) => {
                proof {
                    assert(self@ == RouterView { waiters: old(self)@.waiters.remove(pid), pending: old(self)@.pending });
                }
                Some((tx, result))
            },
            None => {
                self.pending.insert(pid, result);
                proof {
                    assert(old(self)@.waiters.remove(pid) =~= old(self)@.waiters);
                    assert(self@ == RouterView { waiters: old(self)@.waiters, pending: old(self)@.pending.insert(pid, result) });
                }
                None
            },
        }
    }
}

/// An exit reaches the child's waiter exactly once, with the same result,
/// whether the waiter registers before the exit is reported or after; either
/// way the router is left as it was.
pub proof fn lemma_delivery_independent_of_order<S>(v: RouterView<S>, pid: u32, tx: S, msg_type: u32, exit_code: Option<u32>)
    requires
        !v.waiters.contains_key(pid),
        !v.pending.contains_key(pid),
        spec_is_exit_message(msg_type),
    ensures
        ({
            let r = spec_classify_iocp_exit(exit_code, msg_type);
            let (v1, d1) = spec_register(v, pid, tx);
            let (v2, d2) = spec_dispatch_notification(v1, msg_type, pid, exit_code);
            let (w1, e1) = spec_dispatch_notification(v, msg_type, pid, exit_code);
            let (w2, e2) = spec_register(w1, pid, tx);
            &&& d1 is None && d2 == Some((tx, r)) && v2 == v
            &&& e1 is None && e2 == Some((tx, r)) && w2 == v
        }),
{
    let r = spec_classify_iocp_exit(exit_code, msg_type);
    assert(v.waiters.insert(pid, tx).remove(pid) =~= v.waiters);
    assert(v.pending.insert(pid, r).remove(pid) =~= v.pending);
}

/// Messages other than exits never reach a waiter and change nothing.
pub proof fn lemma_non_exit_messages_ignored<S>(v: RouterView<S>, msg_type: u32, pid: u32, exit_code: Option<u32>)
    requires
        !spec_is_exit_message(msg_type),
    ensures
        spec_dispatch_notification(v, msg_type, pid, exit_code) == (v, None::<(S, TerminationReason)>),
{
}

/// A job-reported exit carries the exit code read from the process
/// unchanged (0 when it could not be read): an abnormal exit is a crash with
/// that code at an unknown address, any other exit is `Unknown` with that
/// code as its status.
pub proof fn lemma_iocp_exit_keeps_code(exit_code: Option<u32>, msg_type: u32)
    ensures
        ({
            let c: u32 = match exit_code { Some(c) => c, None => 0 };
            let r = spec_classify_iocp_exit(exit_code, msg_type);
            &&& reason_exit_code(r) == c
            &&& msg_type == JOB_OBJECT_MSG_ABNORMAL_EXIT_PROCESS ==> r == TerminationReason::Crash { code: c, address: 0 }
            &&& msg_type != JOB_OBJECT_MSG_ABNORMAL_EXIT_PROCESS ==> r is Unknown
        }),
{
}

} // verus!
