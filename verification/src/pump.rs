//! Decision logic of the debug pump: the per-child bookkeeping that turns a
//! stream of debug events into classified terminations.
//!
//! The thread that owns the debugged processes waits for each debug event,
//! hands it to [`DebugPump::dispatch_event`], performs the returned
//! [`EventActions`] (close handles, set the affinity mask, notify the
//! waiter) and then continues the debuggee with the returned status.
use vstd::prelude::*;
use std::collections::HashMap;
use crate::handles::{is_valid_handle, spec_is_valid_handle};
use crate::termination::{reason_exit_code, ExitStatus, TerminationReason};

verus! {

broadcast use {vstd::std_specs::hash::group_hash_axioms, crate::termination::group_exit_status};

/// Continue status: the debugger handled the event.
pub const DBG_CONTINUE: i32 = 0x0001_0002;

/// Continue status: let the debuggee's own handlers see the exception
/// (the NTSTATUS `0x8001_0001`).
pub const DBG_EXCEPTION_NOT_HANDLED: i32 = -2147418111;

/// `STATUS_ACCESS_VIOLATION` (`0xC000_0005`).
pub const ACCESS_VIOLATION: i32 = -1073741819;

/// `STATUS_STACK_BUFFER_OVERRUN` (`0xC000_0409`), raised by `__fastfail`.
pub const STACK_BUFFER_OVERRUN: i32 = -1073740791;

/// `STATUS_FATAL_APP_EXIT` (`0x4000_0015`), raised by `RtlFailFast`.
pub const FATAL_APP_EXIT: i32 = 0x4000_0015;

/// `STATUS_BREAKPOINT` (`0x8000_0003`), the loader breakpoint at attach.
pub const BREAKPOINT: i32 = -2147483645;

/// Exit code reported for a child lost to a system debugging error.
pub const RIP_EXIT_CODE: u32 = 1;

/// A second-chance exception recorded for a child, kept until its exit.
#[derive(Debug, Clone, Copy, PartialEq, Eq, Structural)]
pub struct PendingException {
    /// Raw NTSTATUS exception code.
    pub code: i32,
    /// Faulting instruction pointer.
    pub address: u64,
    /// Whether the code is one of the fast-fail codes.
    pub is_fast_fail: bool,
}

/// Whether an exception code is raised by a fast-fail.
pub open spec fn is_fast_fail_code(code: i32) -> bool {
    code == STACK_BUFFER_OVERRUN || code == FATAL_APP_EXIT
}

/// The classification of an exit: a recorded fast-fail exception gives
/// `FastFail`, any other recorded exception `Crash`, and no exception
/// `Unknown` with the exit code.
pub open spec fn spec_classify_exit(pending: Option<PendingException>, exit_code: u32) -> TerminationReason {
    match pending {
        Some(exc) => if exc.is_fast_fail {
            TerminationReason::FastFail(exc.code as u32)
        } else {
            TerminationReason::Crash { code: exc.code as u32, address: exc.address }
        },
        None => TerminationReason::Unknown(ExitStatus::from_raw_spec(exit_code)),
    }
}

/// Classifies a process exit from the exception recorded for it, if any.
pub fn classify_exit(pending: Option<PendingException>, exit_code: u32) -> (r: TerminationReason)
    ensures
        r == spec_classify_exit(pending, exit_code),
{
    match pending {
        Some(exc) => if exc.is_fast_fail {
            TerminationReason::FastFail(exc.code as u32)
        } else {
            TerminationReason::Crash { code: exc.code as u32, address: exc.address }
        },
        None => TerminationReason::Unknown(make_exit_status_pub(exit_code)),
    }
}

/// Builds an exit status from a raw Win32 exit code.
pub fn make_exit_status_pub(code: u32) -> (s: ExitStatus)
    ensures
        s == ExitStatus::from_raw_spec(code),
{
    ExitStatus::from_raw(code)
}

/// One debug event, reduced to the fields that the pump decides on.
#[derive(Debug, Clone, Copy, PartialEq, Eq, Structural)]
pub enum DebugEvent {
    /// A debuggee was created; `image_file` is its image file handle.
    CreateProcess { image_file: usize },
    /// An exception was raised in the debuggee.
    Exception { code: i32, address: u64, first_chance: bool },
    /// The debuggee exited with `exit_code`.
    ExitProcess { exit_code: u32 },
    /// A thread was created.
    CreateThread,
    /// A thread exited.
    ExitThread,
    /// A DLL was loaded; `image_file` is its image file handle.
    LoadDll { image_file: usize },
    /// A DLL was unloaded.
    UnloadDll,
    /// The debuggee wrote a debug string.
    OutputDebugString,
    /// A system debugging error.
    Rip,
    /// An event code the pump does not know.
    Other { event_code: u32 },
}

/// The pump's reply to a spawn request: the new debuggee's id and handles.
#[derive(Debug, Clone, Copy, PartialEq, Eq, Structural)]
pub struct SpawnResponse {
    pub pid: u32,
    pub process_handle: usize,
    pub thread_handle: usize,
}

/// What the pump keeps for each debugged child.
pub struct ChildEntry<S> {
    /// Process identifier.
    pub pid: u32,
    /// Process handle, closed when the child exits.
    pub process_handle: usize,
    /// Main thread handle, closed when the child exits.
    pub thread_handle: usize,
    /// Last recorded second-chance exception, if any.
    pub pending_exception: Option<PendingException>,
    /// Whether the initial loader breakpoint has been seen.
    pub past_loader_bp: bool,
    /// Requested affinity mask (0 = don't set).
    pub affinity_mask: usize,
    /// Where the classified termination is sent.
    pub exit_tx: S,
}

/// What the caller must do after one debug event.
pub struct EventActions<S> {
    /// Status to pass to `ContinueDebugEvent`.
    pub continue_status: i32,
    /// Handles to close, in order.
    pub close_handles: Vec<usize>,
    /// A process handle and the affinity mask to apply to it.
    pub set_affinity: Option<(usize, usize)>,
    /// A waiter and the termination reason to send it.
    pub notify: Option<(S, TerminationReason)>,
}

/// The mathematical content of [`EventActions`].
pub struct ActionsView<S> {
    pub continue_status: i32,
    pub close_handles: Seq<usize>,
    pub set_affinity: Option<(usize, usize)>,
    pub notify: Option<(S, TerminationReason)>,
}

impl<S> View for EventActions<S> {
    type V = ActionsView<S>;

    open spec fn view(&self) -> ActionsView<S> {
        ActionsView {
            continue_status: self.continue_status,
            close_handles: self.close_handles@,
            set_affinity: self.set_affinity,
            notify: self.notify,
        }
    }
}

/// Actions that only continue the debuggee with `status`.
pub open spec fn just_continue<S>(status: i32) -> ActionsView<S> {
    ActionsView { continue_status: status, close_handles: seq![], set_affinity: None, notify: None }
}

/// Continue, closing an image file handle when it is a real handle.
pub open spec fn close_image<S>(image_file: usize) -> ActionsView<S> {
    ActionsView {
        continue_status: DBG_CONTINUE,
        close_handles: if spec_is_valid_handle(image_file) { seq![image_file] } else { seq![] },
        set_affinity: None,
        notify: None,
    }
}

/// Stop tracking the child `pid` and tell its waiter `reason`.
pub open spec fn retire_child<S>(m: Map<u32, ChildEntry<S>>, pid: u32, reason: TerminationReason) -> (Map<u32, ChildEntry<S>>, ActionsView<S>) {
    let c = m[pid];
    (
        m.remove(pid),
        ActionsView {
            continue_status: DBG_CONTINUE,
            close_handles: seq![c.process_handle, c.thread_handle],
            set_affinity: None,
            notify: Some((c.exit_tx, reason)),
        },
    )
}

/// The pump's response to an exception in the child `pid`.
pub open spec fn spec_on_exception<S>(m: Map<u32, ChildEntry<S>>, pid: u32, code: i32, address: u64, first_chance: bool) -> (Map<u32, ChildEntry<S>>, ActionsView<S>) {
    if !m.contains_key(pid) {
        (m, just_continue(DBG_EXCEPTION_NOT_HANDLED))
    } else {
        let c = m[pid];
        if !c.past_loader_bp && code == BREAKPOINT {
            (
                m.insert(pid, ChildEntry { past_loader_bp: true, ..c }),
                ActionsView {
                    continue_status: DBG_CONTINUE,
                    close_handles: seq![],
                    set_affinity: if c.affinity_mask != 0 { Some((c.process_handle, c.affinity_mask)) } else { None },
                    notify: None,
                },
            )
        } else if !first_chance {
            let exc = PendingException { code, address, is_fast_fail: is_fast_fail_code(code) };
            (m.insert(pid, ChildEntry { pending_exception: Some(exc), ..c }), just_continue(DBG_EXCEPTION_NOT_HANDLED))
        } else {
            (m, just_continue(DBG_EXCEPTION_NOT_HANDLED))
        }
    }
}

/// The pump's response to the debug event `ev` of the process `pid`, given
/// the children it tracks: the children it tracks afterwards and what the
/// caller must do.
pub open spec fn spec_dispatch<S>(m: Map<u32, ChildEntry<S>>, pid: u32, ev: DebugEvent) -> (Map<u32, ChildEntry<S>>, ActionsView<S>) {
    match ev {
        DebugEvent::CreateProcess { image_file } => (m, close_image(image_file)),
        DebugEvent::LoadDll { image_file } => (m, close_image(image_file)),
        DebugEvent::Exception { code, address, first_chance } => spec_on_exception(m, pid, code, address, first_chance),
        DebugEvent::ExitProcess { exit_code } => if m.contains_key(pid) {
            retire_child(m, pid, spec_classify_exit(m[pid].pending_exception, exit_code))
        } else {
            (m, just_continue(DBG_CONTINUE))
        },
        DebugEvent::Rip => if m.contains_key(pid) {
            retire_child(m, pid, TerminationReason::ExternalKill(ExitStatus::from_raw_spec(RIP_EXIT_CODE)))
        } else {
            (m, just_continue(DBG_CONTINUE))
        },
        _ => (m, just_continue(DBG_CONTINUE)),
    }
}

/// The debug pump's table of debugged children, keyed by process id.
pub struct DebugPump<S> {
    children: HashMap<u32, ChildEntry<S>>,
}

impl<S> View for DebugPump<S> {
    type V = Map<u32, ChildEntry<S>>;

    closed spec fn view(&self) -> Map<u32, ChildEntry<S>> {
        self.children@
    }
}

impl<S> DebugPump<S> {
    /// A pump that tracks no child.
    pub fn new() -> (p: Self)
        ensures
            p@ == Map::<u32, ChildEntry<S>>::empty(),
    {
        DebugPump { children: HashMap::new() }
    }

    /// Whether no child is tracked; the pump then blocks for the next
    /// request instead of polling for debug events.
    pub fn is_idle(&self) -> (b: bool)
        ensures
            b == (self@.dom().len() == 0),
    {
        proof {
            if self@.dom().len() == 0 {
                assert(self@.dom() =~= Set::<u32>::empty());
            }
        }
        self.children.is_empty()
    }

    /// Whether the child `pid` is tracked.
    pub fn is_tracking(&self, pid: u32) -> (b: bool)
        ensures
            b == self@.contains_key(pid),
    {
        self.children.contains_key(&pid)
    }

    /// Starts tracking a freshly created debuggee: no exception recorded,
    /// loader breakpoint not yet seen.
    pub fn add_child(&mut self, pid: u32, process_handle: usize, thread_handle: usize, affinity_mask: usize, exit_tx: S)
        ensures
            final(self)@ == old(self)@.insert(pid, ChildEntry {
                pid,
                process_handle,
                thread_handle,
                pending_exception: None,
                past_loader_bp: false,
                affinity_mask,
                exit_tx,
            }),
    {
        let entry = ChildEntry {
            pid,
            process_handle,
            thread_handle,
            pending_exception: None,
            past_loader_bp: false,
            affinity_mask,
            exit_tx,
        };
        self.children.insert(pid, entry);
    }

    /// Answers a spawn request from the outcome of creating the debuggee:
    /// on success the child is tracked under its id with the request's
    /// waiter and affinity mask, and the reply carries its id and handles;
    /// on failure nothing is tracked and the reply is the error.
    pub fn complete_spawn<E>(&mut self, created: Result<SpawnResponse, E>, affinity_mask: usize, exit_tx: S) -> (reply: Result<SpawnResponse, E>)
        ensures
            reply == created,
            created matches Ok(p) ==> final(self)@ == old(self)@.insert(p.pid, ChildEntry {
                pid: p.pid,
                process_handle: p.process_handle,
                thread_handle: p.thread_handle,
                pending_exception: None,
                past_loader_bp: false,
                affinity_mask,
                exit_tx,
            }),
            created is Err ==> final(self)@ == old(self)@,
    {
        match created {
            Ok(p) => {
                self.add_child(p.pid, p.process_handle, p.thread_handle, affinity_mask, exit_tx);
                Ok(p)
            },
            Err(e) => Err(e),
        }
    }

    /// Handles one debug event of the process `pid`.
    pub fn dispatch_event(&mut self, pid: u32, event: DebugEvent) -> (a: EventActions<S>)
        ensures
            (final(self)@, a@) == spec_dispatch(old(self)@, pid, event),
    {
        match event {
            DebugEvent::CreateProcess { image_file } => Self::close_image_actions(image_file),
            DebugEvent::LoadDll { image_file } => Self::close_image_actions(image_file),
            DebugEvent::Exception { code, address, first_chance } => {
                self.on_exception(pid, code, address, first_chance)
            },
            DebugEvent::ExitProcess { exit_code } => {
                match self.children.remove(&pid) {
                    Some(child) => {
                        let reason = classify_exit(child.pending_exception, exit_code);
                        Self::retire_actions(child, reason)
                    },
                    None => Self::continue_actions(DBG_CONTINUE),
                }
            },
            DebugEvent::Rip => {
                match self.children.remove(&pid) {
                    Some(child) => {
                        let status = make_exit_status_pub(RIP_EXIT_CODE);
                        Self::retire_actions(child, TerminationReason::ExternalKill(status))
                    },
                    None => Self::continue_actions(DBG_CONTINUE),
                }
            },
            _ => Self::continue_actions(DBG_CONTINUE),
        }
    }

    fn continue_actions(status: i32) -> (a: EventActions<S>)
        ensures
            a@ == just_continue::<S>(status),
    {
        EventActions { continue_status: status, close_handles: Vec::new(), set_affinity: None, notify: None }
    }

    fn close_image_actions(image_file: usize) -> (a: EventActions<S>)
        ensures
            a@ == close_image::<S>(image_file),
    {
        let mut close_handles = Vec::new();
        if is_valid_handle(image_file) {
            close_handles.push(image_file);
        }
        proof {
            if spec_is_valid_handle(image_file) {
                assert(close_handles@ =~= seq![image_file]);
            } else {
                assert(close_handles@ =~= Seq::<usize>::empty());
            }
        }
        EventActions { continue_status: DBG_CONTINUE, close_handles, set_affinity: None, notify: None }
    }

    fn retire_actions(child: ChildEntry<S>, reason: TerminationReason) -> (a: EventActions<S>)
        ensures
            a@ == (ActionsView {
                continue_status: DBG_CONTINUE,
                close_handles: seq![child.process_handle, child.thread_handle],
                set_affinity: None,
                notify: Some((child.exit_tx, reason)),
            }),
    {
        let mut close_handles = Vec::new();
        close_handles.push(child.process_handle);
        close_handles.push(child.thread_handle);
        proof {
            assert(close_handles@ =~= seq![child.process_handle, child.thread_handle]);
        }
        EventActions {
            continue_status: DBG_CONTINUE,
            close_handles,
            set_affinity: None,
            notify: Some((child.exit_tx, reason)),
        }
    }

    fn on_exception(&mut self, pid: u32, code: i32, address: u64, first_chance: bool) -> (a: EventActions<S>)
        ensures
            (final(self)@, a@) == spec_on_exception(old(self)@, pid, code, address, first_chance),
    {
        match self.children.remove(&pid) {
            None => Self::continue_actions(DBG_EXCEPTION_NOT_HANDLED),
            Some(mut child) => {
                proof {
                    assert(old(self)@.remove(pid).insert(pid, child) =~= old(self)@);
                }
                if !child.past_loader_bp && code == BREAKPOINT {
                    // Initial loader breakpoint: mark it passed and apply the
                    // affinity mask before the child runs any user code.
                    child.past_loader_bp = true;
                    let set_affinity = if child.affinity_mask != 0 {
                        Some((child.process_handle, child.affinity_mask))
                    } else {
                        None
                    };
                    self.children.insert(pid, child);
                    proof {
                        assert(self@ =~= old(self)@.insert(pid, ChildEntry { past_loader_bp: true, ..old(self)@[pid] }));
                    }
                    return EventActions {
                        continue_status: DBG_CONTINUE,
                        close_handles: Vec::new(),
                        set_affinity,
                        notify: None,
                    };
                }
                if !first_chance {
                    // Second-chance exception: keep it for the exit that follows.
                    let is_fast_fail = code == STACK_BUFFER_OVERRUN || code == FATAL_APP_EXIT;
                    child.pending_exception = Some(PendingException { code, address, is_fast_fail });
                    self.children.insert(pid, child);
                    proof {
                        let exc = PendingException { code, address, is_fast_fail: is_fast_fail_code(code) };
                        assert(self@ =~= old(self)@.insert(pid, ChildEntry { pending_exception: Some(exc), ..old(self)@[pid] }));
                    }
                    return Self::continue_actions(DBG_EXCEPTION_NOT_HANDLED);
                }
                self.children.insert(pid, child);
                Self::continue_actions(DBG_EXCEPTION_NOT_HANDLED)
            },
        }
    }
}

// ---------------------------------------------------------------------------
// Laws of the pump.
// ---------------------------------------------------------------------------

/// A child that raises a second-chance exception other than a fast-fail
/// (the initial loader breakpoint aside) and then exits is reported to its
/// waiter as a crash at that exception, and is no longer tracked.
pub proof fn lemma_second_chance_then_exit_is_crash<S>(m: Map<u32, ChildEntry<S>>, pid: u32, code: i32, address: u64, exit_code: u32)
    requires
        m.contains_key(pid),
        m[pid].past_loader_bp || code != BREAKPOINT,
        !is_fast_fail_code(code),
    ensures
        ({
            let (m1, a1) = spec_dispatch(m, pid, DebugEvent::Exception { code, address, first_chance: false });
            let (m2, a2) = spec_dispatch(m1, pid, DebugEvent::ExitProcess { exit_code });
            &&& a1.continue_status == DBG_EXCEPTION_NOT_HANDLED
            &&& a2.notify == Some((m[pid].exit_tx, TerminationReason::Crash { code: code as u32, address }))
            &&& m2 == m.remove(pid)
        }),
{
    let (m1, a1) = spec_dispatch(m, pid, DebugEvent::Exception { code, address, first_chance: false });
    assert(m1.remove(pid) =~= m.remove(pid));
}

/// A child that raises a second-chance fast-fail exception and then exits
/// is reported to its waiter as a fast-fail with that code.
pub proof fn lemma_fast_fail_then_exit_is_fast_fail<S>(m: Map<u32, ChildEntry<S>>, pid: u32, code: i32, address: u64, exit_code: u32)
    requires
        m.contains_key(pid),
        is_fast_fail_code(code),
    ensures
        ({
            let (m1, a1) = spec_dispatch(m, pid, DebugEvent::Exception { code, address, first_chance: false });
            let (m2, a2) = spec_dispatch(m1, pid, DebugEvent::ExitProcess { exit_code });
            &&& a1.continue_status == DBG_EXCEPTION_NOT_HANDLED
            &&& a2.notify == Some((m[pid].exit_tx, TerminationReason::FastFail(code as u32)))
            &&& m2 == m.remove(pid)
        }),
{
    let (m1, a1) = spec_dispatch(m, pid, DebugEvent::Exception { code, address, first_chance: false });
    assert(m1.remove(pid) =~= m.remove(pid));
}

/// A child that exits without a recorded exception is reported as
/// `Unknown` with its exit code.
pub proof fn lemma_exit_without_exception_is_unknown<S>(m: Map<u32, ChildEntry<S>>, pid: u32, exit_code: u32)
    requires
        m.contains_key(pid),
        m[pid].pending_exception is None,
    ensures
        spec_dispatch(m, pid, DebugEvent::ExitProcess { exit_code }).1.notify
            == Some((m[pid].exit_tx, TerminationReason::Unknown(ExitStatus::from_raw_spec(exit_code)))),
{
}

/// The initial loader breakpoint is continued as handled, applies the
/// affinity mask (when one was asked for) and is never taken for a crash.
pub proof fn lemma_loader_breakpoint_is_not_a_crash<S>(m: Map<u32, ChildEntry<S>>, pid: u32, address: u64, first_chance: bool, exit_code: u32)
    requires
        m.contains_key(pid),
        !m[pid].past_loader_bp,
        m[pid].pending_exception is None,
    ensures
        ({
            let (m1, a1) = spec_dispatch(m, pid, DebugEvent::Exception { code: BREAKPOINT, address, first_chance });
            let (m2, a2) = spec_dispatch(m1, pid, DebugEvent::ExitProcess { exit_code });
            &&& a1.continue_status == DBG_CONTINUE
            &&& a1.set_affinity == (if m[pid].affinity_mask != 0 { Some((m[pid].process_handle, m[pid].affinity_mask)) } else { None })
            &&& m1[pid].past_loader_bp
            &&& a2.notify == Some((m[pid].exit_tx, TerminationReason::Unknown(ExitStatus::from_raw_spec(exit_code))))
        }),
{
}

/// A first-chance exception other than the initial loader breakpoint
/// changes nothing: the child's own handlers get it, and the exit is
/// classified as if it never happened.
pub proof fn lemma_first_chance_is_ignored<S>(m: Map<u32, ChildEntry<S>>, pid: u32, code: i32, address: u64)
    requires
        m.contains_key(pid) ==> (m[pid].past_loader_bp || code != BREAKPOINT),
    ensures
        spec_dispatch(m, pid, DebugEvent::Exception { code, address, first_chance: true })
            == (m, just_continue::<S>(DBG_EXCEPTION_NOT_HANDLED)),
{
}

/// The waiter of a child is told of its end once: the exit (or a system
/// debugging error) stops the tracking, and no event of a process that is
/// not tracked reaches a waiter or changes the table.
pub proof fn lemma_notified_at_most_once<S>(m: Map<u32, ChildEntry<S>>, pid: u32, last: DebugEvent, ev: DebugEvent)
    requires
        last is ExitProcess || last is Rip,
    ensures
        !spec_dispatch(m, pid, last).0.contains_key(pid),
        !m.contains_key(pid) ==> spec_dispatch(m, pid, ev).1.notify is None,
        !m.contains_key(pid) ==> spec_dispatch(m, pid, ev).0 == m,
{
}

/// An event that says nothing about how a child ends: neither an
/// exception, nor an exit, nor a system debugging error.
pub open spec fn is_quiet_event(ev: DebugEvent) -> bool {
    !(ev is Exception) && !(ev is ExitProcess) && !(ev is Rip)
}

/// The table after the events `evs` of the process `pid`, in order.
pub open spec fn table_after<S>(m: Map<u32, ChildEntry<S>>, pid: u32, evs: Seq<DebugEvent>) -> Map<u32, ChildEntry<S>>
    decreases evs.len(),
{
    if evs.len() == 0 {
        m
    } else {
        spec_dispatch(table_after(m, pid, evs.drop_last()), pid, evs.last()).0
    }
}

/// Process and thread creation and exit of threads, DLL loads and unloads,
/// debug strings and unknown events touch no child's record: the table is
/// unchanged, no waiter is told anything and no affinity is set; the event
/// is continued as handled.
pub proof fn lemma_quiet_event_keeps_table<S>(m: Map<u32, ChildEntry<S>>, pid: u32, ev: DebugEvent)
    requires
        is_quiet_event(ev),
    ensures
        spec_dispatch(m, pid, ev).0 == m,
        spec_dispatch(m, pid, ev).1.notify is None,
        spec_dispatch(m, pid, ev).1.set_affinity is None,
        spec_dispatch(m, pid, ev).1.continue_status == DBG_CONTINUE,
{
}

/// Any run of quiet events leaves the table as it was.
pub proof fn lemma_quiet_events_keep_table<S>(m: Map<u32, ChildEntry<S>>, pid: u32, evs: Seq<DebugEvent>)
    requires
        forall|i: int| 0 <= i < evs.len() ==> is_quiet_event(#[trigger] evs[i]),
    ensures
        table_after(m, pid, evs) == m,
    decreases evs.len(),
{
    if evs.len() > 0 {
        let p = evs.drop_last();
        assert forall|i: int| 0 <= i < p.len() implies is_quiet_event(#[trigger] p[i]) by {
            assert(p[i] == evs[i]);
        }
        lemma_quiet_events_keep_table(m, pid, p);
        assert(is_quiet_event(evs[evs.len() - 1]));
        lemma_quiet_event_keeps_table(m, pid, evs.last());
    }
}

/// A recorded crash survives whatever quiet events come before the exit
/// (threads torn down, DLLs unloaded, ...): the exit is reported as a crash
/// at the recorded exception.
pub proof fn lemma_crash_survives_quiet_events<S>(
    m: Map<u32, ChildEntry<S>>,
    pid: u32,
    code: i32,
    address: u64,
    evs: Seq<DebugEvent>,
    exit_code: u32,
)
    requires
        m.contains_key(pid),
        m[pid].past_loader_bp || code != BREAKPOINT,
        !is_fast_fail_code(code),
        forall|i: int| 0 <= i < evs.len() ==> is_quiet_event(#[trigger] evs[i]),
    ensures
        ({
            let m1 = spec_dispatch(m, pid, DebugEvent::Exception { code, address, first_chance: false }).0;
            let m2 = table_after(m1, pid, evs);
            spec_dispatch(m2, pid, DebugEvent::ExitProcess { exit_code }).1.notify
                == Some((m[pid].exit_tx, TerminationReason::Crash { code: code as u32, address }))
        }),
{
    let m1 = spec_dispatch(m, pid, DebugEvent::Exception { code, address, first_chance: false }).0;
    lemma_quiet_events_keep_table(m1, pid, evs);
}

/// Only a breakpoint exception can mark the loader breakpoint as passed:
/// any other event leaves the child's flag as it was.
pub proof fn lemma_loader_flag_only_from_breakpoint<S>(m: Map<u32, ChildEntry<S>>, pid: u32, ev: DebugEvent)
    requires
        m.contains_key(pid),
        !(ev matches DebugEvent::Exception { code, .. } && code == BREAKPOINT),
    ensures
        spec_dispatch(m, pid, ev).0.contains_key(pid) ==> spec_dispatch(m, pid, ev).0[pid].past_loader_bp == m[pid].past_loader_bp,
{
}

/// However many quiet events come first (process creation, DLL loads,
/// ...), the first breakpoint of a fresh child is its loader breakpoint: it
/// is continued as handled and applies the requested affinity mask.
pub proof fn lemma_loader_breakpoint_after_quiet_events<S>(
    m: Map<u32, ChildEntry<S>>,
    pid: u32,
    evs: Seq<DebugEvent>,
    address: u64,
    first_chance: bool,
)
    requires
        m.contains_key(pid),
        !m[pid].past_loader_bp,
        forall|i: int| 0 <= i < evs.len() ==> is_quiet_event(#[trigger] evs[i]),
    ensures
        ({
            let a = spec_dispatch(table_after(m, pid, evs), pid, DebugEvent::Exception { code: BREAKPOINT, address, first_chance }).1;
            &&& a.continue_status == DBG_CONTINUE
            &&& a.set_affinity == (if m[pid].affinity_mask != 0 { Some((m[pid].process_handle, m[pid].affinity_mask)) } else { None })
        }),
{
    lemma_quiet_events_keep_table(m, pid, evs);
}

/// The classification keeps what was observed: a recorded exception gives
/// its code (and, for a crash, its address); no exception gives the exit
/// code as the status.
pub proof fn lemma_classify_exit_keeps_observation(pending: Option<PendingException>, exit_code: u32)
    ensures
        pending is None ==> spec_classify_exit(pending, exit_code) == TerminationReason::Unknown(ExitStatus::from_raw_spec(exit_code)),
        pending is None ==> reason_exit_code(spec_classify_exit(pending, exit_code)) == exit_code,
        pending matches Some(e) ==> reason_exit_code(spec_classify_exit(pending, exit_code)) == e.code as u32,
        pending matches Some(e) ==> (e.is_fast_fail <==> spec_classify_exit(pending, exit_code) is FastFail),
        pending matches Some(e) ==> (!e.is_fast_fail ==> spec_classify_exit(pending, exit_code) == (TerminationReason::Crash { code: e.code as u32, address: e.address })),
{
}

/// Image file handles handed over with process creation and DLL loads are
/// closed exactly when they are real handles; the exit of a tracked child
/// closes its process and thread handles.
pub proof fn lemma_handles_closed<S>(m: Map<u32, ChildEntry<S>>, pid: u32, image_file: usize, exit_code: u32)
    ensures
        spec_dispatch(m, pid, DebugEvent::CreateProcess { image_file }).1.close_handles
            == (if image_file != 0 && image_file != usize::MAX { seq![image_file] } else { Seq::<usize>::empty() }),
        spec_dispatch(m, pid, DebugEvent::LoadDll { image_file }).1.close_handles
            == (if image_file != 0 && image_file != usize::MAX { seq![image_file] } else { Seq::<usize>::empty() }),
        m.contains_key(pid) ==> spec_dispatch(m, pid, DebugEvent::ExitProcess { exit_code }).1.close_handles
            == seq![m[pid].process_handle, m[pid].thread_handle],
{
}

} // verus!
