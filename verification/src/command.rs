//! Core worrywart types: the command builder, the decisions of `spawn`, and
//! the bookkeeping of a spawned child (its handles and the cached
//! termination reason).
use vstd::prelude::*;
use crate::client::ENV_VAR;
use crate::cmdline::{build_command_line, spec_command_line, strings_view};
use crate::decimal::{decimal, to_decimal};
use crate::env::{build_env_block, pairs_view, remove_key, spec_env_block, without_key, EnvPair};
use crate::handles::{is_valid_handle, spec_is_valid_handle, INVALID_HANDLE_VALUE};
use crate::iocp::{spec_classify_iocp_exit, spec_is_exit_message, JOB_OBJECT_MSG_ABNORMAL_EXIT_PROCESS};
use crate::monitor::Monitor;
use crate::pump::{spec_classify_exit, PendingException};
use crate::termination::{reason_exit_code, ExitStatus, TerminationReason};
use crate::wide::{to_wide_null, utf16};

verus! {

broadcast use crate::termination::group_exit_status;

// ---------------------------------------------------------------------------
// Termination reasons after the child exited.
// ---------------------------------------------------------------------------

/// The final reason of a child: an `Unknown` exit becomes `CleanExit` when
/// the sentinel arrived and `ExternalKill` when it did not; other reasons,
/// and any reason when no sentinel was requested (`None`), stay as they are.
pub open spec fn spec_refine_with_sentinel(reason: TerminationReason, sentinel_ok: Option<bool>) -> TerminationReason {
    match sentinel_ok {
        None => reason,
        Some(ok) => match reason {
            TerminationReason::Unknown(status) => if ok {
                TerminationReason::CleanExit(status)
            } else {
                TerminationReason::ExternalKill(status)
            },
            other => other,
        },
    }
}

/// Refines an `Unknown` exit into `CleanExit` or `ExternalKill` from the
/// sentinel verdict (`None` when the sentinel technique is not active).
pub fn refine_with_sentinel(reason: TerminationReason, sentinel_ok: Option<bool>) -> (r: TerminationReason)
    ensures
        r == spec_refine_with_sentinel(reason, sentinel_ok),
{
    let ok = match sentinel_ok {
        Some(ok) => ok,
        None => return reason,
    };
    match reason {
        TerminationReason::Unknown(status) => if ok {
            TerminationReason::CleanExit(status)
        } else {
            TerminationReason::ExternalKill(status)
        },
        other => other,
    }
}

/// The exit code of a status, as a raw 32-bit value.
pub fn exit_code(s: &ExitStatus) -> (c: u32)
    ensures
        c == s.raw_spec(),
{
    let code = match s.code() {
        Some(c) => c,
        None => 1,
    };
    let raw = s.raw();
    assert((raw as i32) as u32 == raw) by (bit_vector);
    code as u32
}

/// Builds an exit status from a raw code.
pub fn make_exit_status(code: u32) -> (s: ExitStatus)
    ensures
        s == ExitStatus::from_raw_spec(code),
{
    ExitStatus::from_raw(code)
}

/// The exit status that a wait reports for a reason: the status of the
/// status-carrying variants, the exception code for `Crash` and `FastFail`.
pub open spec fn spec_reason_to_exit_status(reason: TerminationReason) -> ExitStatus {
    match reason {
        TerminationReason::Unknown(s) => s,
        TerminationReason::CleanExit(s) => s,
        TerminationReason::ExternalKill(s) => s,
        TerminationReason::Crash { code, .. } => ExitStatus::from_raw_spec(code),
        TerminationReason::FastFail(code) => ExitStatus::from_raw_spec(code),
    }
}

/// The exit status that a wait reports for a reason.
pub fn reason_to_exit_status(reason: TerminationReason) -> (s: ExitStatus)
    ensures
        s == spec_reason_to_exit_status(reason),
{
    match reason {
        TerminationReason::Unknown(s) => s,
        TerminationReason::CleanExit(s) => s,
        TerminationReason::ExternalKill(s) => s,
        TerminationReason::Crash { code, .. } => make_exit_status(code),
        TerminationReason::FastFail(code) => make_exit_status(code),
    }
}

/// A snapshot of a termination reason, kept by a child after its first
/// wait so that later waits answer without blocking.
#[derive(Debug, Clone, Copy, PartialEq, Eq, Structural)]
pub enum CachedReason {
    Unknown(u32),
    Crash { code: u32, address: u64 },
    FastFail(u32),
    ExternalKill(u32),
    CleanExit(u32),
}

/// The snapshot of a reason.
pub open spec fn spec_from_reason(r: TerminationReason) -> CachedReason {
    match r {
        TerminationReason::Unknown(s) => CachedReason::Unknown(s.raw_spec()),
        TerminationReason::Crash { code, address } => CachedReason::Crash { code, address },
        TerminationReason::FastFail(c) => CachedReason::FastFail(c),
        TerminationReason::ExternalKill(s) => CachedReason::ExternalKill(s.raw_spec()),
        TerminationReason::CleanExit(s) => CachedReason::CleanExit(s.raw_spec()),
    }
}

/// The reason a snapshot stands for.
pub open spec fn spec_into_reason(c: CachedReason) -> TerminationReason {
    match c {
        CachedReason::Unknown(c) => TerminationReason::Unknown(ExitStatus::from_raw_spec(c)),
        CachedReason::Crash { code, address } => TerminationReason::Crash { code, address },
        CachedReason::FastFail(c) => TerminationReason::FastFail(c),
        CachedReason::ExternalKill(c) => TerminationReason::ExternalKill(ExitStatus::from_raw_spec(c)),
        CachedReason::CleanExit(c) => TerminationReason::CleanExit(ExitStatus::from_raw_spec(c)),
    }
}

impl CachedReason {
    /// Takes a snapshot of a reason.
    pub fn from_reason(r: &TerminationReason) -> (c: CachedReason)
        ensures
            c == spec_from_reason(*r),
    {
        match r {
            TerminationReason::Unknown(s) => CachedReason::Unknown(exit_code(s)),
            TerminationReason::Crash { code, address } => CachedReason::Crash { code: *code, address: *address },
            TerminationReason::FastFail(c) => CachedReason::FastFail(*c),
            TerminationReason::ExternalKill(s) => CachedReason::ExternalKill(exit_code(s)),
            TerminationReason::CleanExit(s) => CachedReason::CleanExit(exit_code(s)),
        }
    }

    /// The reason this snapshot stands for.
    pub fn into_reason(self) -> (r: TerminationReason)
        ensures
            r == spec_into_reason(self),
    {
        match self {
            CachedReason::Unknown(c) => TerminationReason::Unknown(make_exit_status(c)),
            CachedReason::Crash { code, address } => TerminationReason::Crash { code, address },
            CachedReason::FastFail(c) => TerminationReason::FastFail(c),
            CachedReason::ExternalKill(c) => TerminationReason::ExternalKill(make_exit_status(c)),
            CachedReason::CleanExit(c) => TerminationReason::CleanExit(make_exit_status(c)),
        }
    }
}

/// A snapshot gives back exactly the reason it was taken of.
pub proof fn lemma_cached_reason_roundtrip(r: TerminationReason)
    ensures
        spec_into_reason(spec_from_reason(r)) == r,
{
}

// ---------------------------------------------------------------------------
// A spawned child.
// ---------------------------------------------------------------------------

/// Why a child cannot be killed.
#[derive(Debug, Clone, Copy, PartialEq, Eq, Structural)]
pub enum KillError {
    /// The child was spawned without keeping a process handle.
    NoProcessHandle,
}

/// The bookkeeping of a spawned child.
pub struct ChildView {
    pub pid: u32,
    pub process_handle: usize,
    pub thread_handle: usize,
    /// Whether the sentinel technique watches the child.
    pub sentinel: bool,
    /// The reason delivered by the first completed wait, if any.
    pub cached: Option<TerminationReason>,
}

/// What the monitor observed when the child ended: the reason it reported,
/// and whether the sentinel message arrived before the pipe closed (false
/// when there is no sentinel pipe).
#[derive(Debug, Clone, Copy, PartialEq, Eq, Structural)]
pub struct ObservedExit {
    pub reason: TerminationReason,
    pub sentinel_received: bool,
}

/// One step of a wait: its result, or the need to observe the child's end.
#[derive(Debug, Clone, Copy, PartialEq, Eq)]
pub enum WaitStep<T> {
    /// The wait is complete.
    Ready(T),
    /// The child's end must be observed (blocking) and handed in.
    NeedsExit,
}

/// The reason of an observed end: refined with the sentinel verdict when
/// the sentinel technique watches the child, as reported otherwise.
pub open spec fn spec_final_reason(v: ChildView, o: ObservedExit) -> TerminationReason {
    spec_refine_with_sentinel(o.reason, if v.sentinel { Some(o.sentinel_received) } else { None })
}

/// A diagnosed wait: the cached reason when an earlier wait completed (no
/// observation needed); otherwise the reason of the observed end, which is
/// cached; without an observation, the need for one.
pub open spec fn spec_wait_diagnosed(v: ChildView, observed: Option<ObservedExit>) -> (ChildView, WaitStep<TerminationReason>) {
    match v.cached {
        Some(r) => (v, WaitStep::Ready(r)),
        None => match observed {
            Some(o) => {
                let r = spec_final_reason(v, o);
                (ChildView { cached: Some(r), ..v }, WaitStep::Ready(r))
            },
            None => (v, WaitStep::NeedsExit),
        },
    }
}

/// A plain wait: the status of the cached reason when an earlier wait
/// completed; otherwise the status of the observed end, whose reason is
/// cached; without an observation, the need for one.
pub open spec fn spec_wait(v: ChildView, observed: Option<ObservedExit>) -> (ChildView, WaitStep<ExitStatus>) {
    match v.cached {
        Some(r) => (v, WaitStep::Ready(spec_reason_to_exit_status(r))),
        None => match observed {
            Some(o) => (
                ChildView { cached: Some(spec_final_reason(v, o)), ..v },
                WaitStep::Ready(spec_reason_to_exit_status(spec_final_reason(v, o))),
            ),
            None => (v, WaitStep::NeedsExit),
        },
    }
}

/// The bookkeeping of a child process spawned by a [`WorrywartCommand`]:
/// its id, its handles, whether a sentinel watches it, and the reason of
/// its exit once known.
pub struct WorrywartChild {
    pid: u32,
    process_handle: usize,
    thread_handle: usize,
    sentinel: bool,
    cached_reason: Option<CachedReason>,
}

impl View for WorrywartChild {
    type V = ChildView;

    closed spec fn view(&self) -> ChildView {
        ChildView {
            pid: self.pid,
            process_handle: self.process_handle,
            thread_handle: self.thread_handle,
            sentinel: self.sentinel,
            cached: match self.cached_reason {
                Some(c) => Some(spec_into_reason(c)),
                None => None,
            },
        }
    }
}

impl WorrywartChild {
    /// A child that has not been waited for.
    pub fn new(pid: u32, process_handle: usize, thread_handle: usize, sentinel: bool) -> (c: Self)
        ensures
            c@ == (ChildView { pid, process_handle, thread_handle, sentinel, cached: None }),
    {
        WorrywartChild { pid, process_handle, thread_handle, sentinel, cached_reason: None }
    }

    /// A child spawned without monitoring: its id and its process handle
    /// (through which it is killed and waited for) are kept.
    pub fn from_std(pid: u32, process_handle: usize) -> (c: Self)
        ensures
            c@ == (ChildView { pid, process_handle, thread_handle: INVALID_HANDLE_VALUE, sentinel: false, cached: None }),
    {
        WorrywartChild { pid, process_handle, thread_handle: INVALID_HANDLE_VALUE, sentinel: false, cached_reason: None }
    }

    /// The OS process identifier; `None` for the id 0.
    pub fn id(&self) -> (r: Option<u32>)
        ensures
            r == (if self@.pid == 0 { None } else { Some(self@.pid) }),
    {
        if self.pid == 0 { None } else { Some(self.pid) }
    }

    /// The process handle.
    pub fn process_handle(&self) -> (h: usize)
        ensures
            h == self@.process_handle,
    {
        self.process_handle
    }

    /// A step of `wait_diagnosed`: called first with `None`; when it asks
    /// for the child's end, called again with what was observed.
    pub fn wait_diagnosed(&mut self, observed: Option<ObservedExit>) -> (s: WaitStep<TerminationReason>)
        ensures
            (final(self)@, s) == spec_wait_diagnosed(old(self)@, observed),
    {
        if let Some(cached) = self.cached_reason.take() {
            let reason = cached.into_reason();
            // Re-cache so that later waits answer at once.
            self.cached_reason = Some(CachedReason::from_reason(&reason));
            return WaitStep::Ready(reason);
        }
        match observed {
            None => WaitStep::NeedsExit,
            Some(o) => {
                let verdict = if self.sentinel { Some(o.sentinel_received) } else { None };
                let reason = refine_with_sentinel(o.reason, verdict);
                self.cached_reason = Some(CachedReason::from_reason(&reason));
                WaitStep::Ready(reason)
            },
        }
    }

    /// A step of `wait`: the exit status of the diagnosed reason.
    pub fn wait(&mut self, observed: Option<ObservedExit>) -> (s: WaitStep<ExitStatus>)
        ensures
            (final(self)@, s) == spec_wait(old(self)@, observed),
    {
        match self.wait_diagnosed(observed) {
            WaitStep::Ready(reason) => WaitStep::Ready(reason_to_exit_status(reason)),
            WaitStep::NeedsExit => WaitStep::NeedsExit,
        }
    }

    /// The handle through which the child is terminated.
    pub fn kill_target(&self) -> (r: Result<usize, KillError>)
        ensures
            r == (if self@.process_handle == INVALID_HANDLE_VALUE {
                Err(KillError::NoProcessHandle)
            } else {
                Ok(self@.process_handle)
            }),
    {
        if self.process_handle == INVALID_HANDLE_VALUE {
            Err(KillError::NoProcessHandle)
        } else {
            Ok(self.process_handle)
        }
    }

    /// Gives up the handles that must be closed when the child handle goes
    /// away (process handle first), and forgets them.
    pub fn release_handles(&mut self) -> (hs: Vec<usize>)
        ensures
            hs@ == (if spec_is_valid_handle(old(self)@.process_handle) { seq![old(self)@.process_handle] } else { Seq::<usize>::empty() })
                + (if spec_is_valid_handle(old(self)@.thread_handle) { seq![old(self)@.thread_handle] } else { Seq::<usize>::empty() }),
            final(self)@ == (ChildView {
                process_handle: if spec_is_valid_handle(old(self)@.process_handle) { INVALID_HANDLE_VALUE } else { old(self)@.process_handle },
                thread_handle: if spec_is_valid_handle(old(self)@.thread_handle) { INVALID_HANDLE_VALUE } else { old(self)@.thread_handle },
                ..old(self)@
            }),
    {
        let mut hs = Vec::new();
        if is_valid_handle(self.process_handle) {
            hs.push(self.process_handle);
            self.process_handle = INVALID_HANDLE_VALUE;
        }
        if is_valid_handle(self.thread_handle) {
            hs.push(self.thread_handle);
            self.thread_handle = INVALID_HANDLE_VALUE;
        }
        proof {
            let a = if spec_is_valid_handle(old(self)@.process_handle) { seq![old(self)@.process_handle] } else { Seq::<usize>::empty() };
            let b = if spec_is_valid_handle(old(self)@.thread_handle) { seq![old(self)@.thread_handle] } else { Seq::<usize>::empty() };
            assert(hs@ =~= a + b);
        }
        hs
    }
}

// ---------------------------------------------------------------------------
// The command builder.
// ---------------------------------------------------------------------------

/// How a child is launched.
#[derive(Debug, Clone, Copy, PartialEq, Eq, Structural)]
pub enum SpawnPath {
    /// Created by the debug pump as a debuggee (and assigned to the job).
    Debug,
    /// Created in the job, its exit reported through the completion port.
    JobMonitored,
    /// Created without monitoring.
    Plain,
}

/// The launch path for a set of techniques: the debug API wins; the job
/// object or the sentinel alone go through the job; otherwise a plain spawn.
pub open spec fn spec_spawn_path(monitors: Seq<Monitor>) -> SpawnPath {
    if monitors.contains(Monitor::DebugApi) {
        SpawnPath::Debug
    } else if monitors.contains(Monitor::JobObject) || monitors.contains(Monitor::Sentinel) {
        SpawnPath::JobMonitored
    } else {
        SpawnPath::Plain
    }
}

/// What `CreateProcessW` is given for a child.
pub struct LaunchParams {
    /// Null-terminated UTF-16 command line.
    pub command_line: Vec<u16>,
    /// UTF-16 environment block, or `None` to inherit the parent's.
    pub environment: Option<Vec<u16>>,
    /// Null-terminated UTF-16 working directory, or `None` to inherit.
    pub current_directory: Option<Vec<u16>>,
    /// Requested affinity mask (0 = don't set).
    pub affinity_mask: usize,
    /// Whether inheritable handles are passed on to the child.
    pub inherit_handles: bool,
}

/// The builder state of a command.
pub struct CommandView {
    pub program: Seq<char>,
    pub args: Seq<Seq<char>>,
    pub envs: Seq<EnvPair>,
    /// Inherited variables the child must not get.
    pub removed: Seq<Seq<char>>,
    pub env_clear: bool,
    pub current_dir: Option<Seq<char>>,
    pub monitors: Seq<Monitor>,
    pub affinity_mask: usize,
}

/// The view of an optional string.
pub open spec fn opt_string_view(s: Option<String>) -> Option<Seq<char>> {
    match s {
        Some(s) => Some(s@),
        None => None,
    }
}

/// The requested techniques after asking for `m`: unchanged when already
/// requested, otherwise `m` appended.
pub open spec fn spec_add_monitor(ms: Seq<Monitor>, m: Monitor) -> Seq<Monitor> {
    if ms.contains(m) { ms } else { ms.push(m) }
}

/// Builder for spawning a monitored child process.
pub struct WorrywartCommand {
    program: String,
    args: Vec<String>,
    envs: Vec<(String, String)>,
    removed: Vec<String>,
    env_clear: bool,
    current_dir: Option<String>,
    monitors: Vec<Monitor>,
    affinity_mask: usize,
}

impl View for WorrywartCommand {
    type V = CommandView;

    closed spec fn view(&self) -> CommandView {
        CommandView {
            program: self.program@,
            args: strings_view(self.args@),
            envs: pairs_view(self.envs@),
            removed: strings_view(self.removed@),
            env_clear: self.env_clear,
            current_dir: opt_string_view(self.current_dir),
            monitors: self.monitors@,
            affinity_mask: self.affinity_mask,
        }
    }
}

/// Whether `monitors` holds `m`.
pub fn contains_monitor(monitors: &Vec<Monitor>, m: Monitor) -> (b: bool)
    ensures
        b == monitors@.contains(m),
{
    let mut i: usize = 0;
    while i < monitors.len()
        invariant
            i <= monitors.len(),
            forall|j: int| 0 <= j < i ==> monitors@[j] != m,
        decreases monitors.len() - i,
    {
        if monitors[i] == m {
            return true;
        }
        i = i + 1;
    }
    false
}

impl WorrywartCommand {
    /// A command that runs `program` with no argument, the parent's
    /// environment and working directory, and no monitoring.
    pub fn new(program: &str) -> (c: Self)
        ensures
            c@ == (CommandView {
                program: program@,
                args: Seq::empty(),
                envs: Seq::empty(),
                removed: Seq::empty(),
                env_clear: false,
                current_dir: None,
                monitors: Seq::empty(),
                affinity_mask: 0,
            }),
    {
        let c = WorrywartCommand {
            program: String::from_str(program),
            args: Vec::new(),
            envs: Vec::new(),
            removed: Vec::new(),
            env_clear: false,
            current_dir: None,
            monitors: Vec::new(),
            affinity_mask: 0,
        };
        proof {
            assert(strings_view(c.args@) =~= Seq::<Seq<char>>::empty());
            assert(pairs_view(c.envs@) =~= Seq::<EnvPair>::empty());
            assert(strings_view(c.removed@) =~= Seq::<Seq<char>>::empty());
        }
        c
    }

    /// Appends a single argument.
    pub fn arg(self, arg: &str) -> (c: Self)
        ensures
            c@ == (CommandView { args: self@.args.push(arg@), ..self@ }),
    {
        let mut c = self;
        c.args.push(String::from_str(arg));
        proof {
            assert(strings_view(c.args@) =~= strings_view(self.args@).push(arg@));
        }
        c
    }

    /// Appends multiple arguments.
    pub fn args(self, args: &[&str]) -> (c: Self)
        ensures
            c@ == (CommandView { args: self@.args + args@.map_values(|a: &str| a@), ..self@ }),
    {
        let mut c = self;
        let mut i: usize = 0;
        while i < args.len()
            invariant
                i <= args@.len(),
                c@ == (CommandView { args: self@.args + args@.take(i as int).map_values(|a: &str| a@), ..self@ }),
            decreases args@.len() - i,
        {
            c = c.arg(args[i]);
            proof {
                assert(args@.take(i + 1).map_values(|a: &str| a@) =~= args@.take(i as int).map_values(|a: &str| a@).push(args@[i as int]@));
                assert(self@.args + args@.take(i + 1).map_values(|a: &str| a@) =~= (self@.args + args@.take(i as int).map_values(|a: &str| a@)).push(args@[i as int]@));
            }
            i = i + 1;
        }
        proof {
            assert(args@.take(args@.len() as int) =~= args@);
        }
        c
    }

    /// Sets or overrides an environment variable.
    pub fn env(self, key: &str, val: &str) -> (c: Self)
        ensures
            c@ == (CommandView { envs: self@.envs.push((key@, val@)), ..self@ }),
    {
        let mut c = self;
        c.envs.push((String::from_str(key), String::from_str(val)));
        proof {
            assert(pairs_view(c.envs@) =~= pairs_view(self.envs@).push((key@, val@)));
        }
        c
    }

    /// Removes an environment variable: earlier overrides of it are
    /// dropped, and the child does not inherit it.
    pub fn env_remove(self, key: &str) -> (c: Self)
        ensures
            c@ == (CommandView { envs: without_key(self@.envs, key@), removed: self@.removed.push(key@), ..self@ }),
    {
        let mut c = self;
        let k = String::from_str(key);
        c.envs = remove_key(&c.envs, &k);
        c.removed.push(k);
        proof {
            assert(strings_view(c.removed@) =~= strings_view(self.removed@).push(key@));
        }
        c
    }

    /// Clears the child's environment entirely.
    pub fn env_clear(self) -> (c: Self)
        ensures
            c@ == (CommandView { env_clear: true, envs: Seq::empty(), removed: Seq::empty(), ..self@ }),
    {
        let mut c = self;
        c.env_clear = true;
        c.envs = Vec::new();
        c.removed = Vec::new();
        proof {
            assert(pairs_view(c.envs@) =~= Seq::<EnvPair>::empty());
            assert(strings_view(c.removed@) =~= Seq::<Seq<char>>::empty());
        }
        c
    }

    /// Sets the child's working directory.
    pub fn current_dir(self, dir: &str) -> (c: Self)
        ensures
            c@ == (CommandView { current_dir: Some(dir@), ..self@ }),
    {
        let mut c = self;
        c.current_dir = Some(String::from_str(dir));
        c
    }

    /// Enables a monitoring technique; asking twice for one is asking once.
    pub fn monitor(self, technique: Monitor) -> (c: Self)
        ensures
            c@ == (CommandView { monitors: spec_add_monitor(self@.monitors, technique), ..self@ }),
    {
        let mut c = self;
        if !contains_monitor(&c.monitors, technique) {
            c.monitors.push(technique);
        }
        c
    }

    /// Sets the process affinity mask, applied at the loader breakpoint
    /// when the debug API is active.
    pub fn affinity_mask(self, mask: usize) -> (c: Self)
        ensures
            c@ == (CommandView { affinity_mask: mask, ..self@ }),
    {
        let mut c = self;
        c.affinity_mask = mask;
        c
    }

    /// The program to run.
    pub fn get_program(&self) -> (p: &String)
        ensures
            p@ == self@.program,
    {
        &self.program
    }

    /// The arguments.
    pub fn get_args(&self) -> (a: &Vec<String>)
        ensures
            strings_view(a@) == self@.args,
    {
        &self.args
    }

    /// The environment overrides.
    pub fn get_envs(&self) -> (e: &Vec<(String, String)>)
        ensures
            pairs_view(e@) == self@.envs,
    {
        &self.envs
    }

    /// The inherited variables the child must not get.
    pub fn get_removed_envs(&self) -> (r: &Vec<String>)
        ensures
            strings_view(r@) == self@.removed,
    {
        &self.removed
    }

    /// Whether the inherited environment is dropped.
    pub fn get_env_clear(&self) -> (b: bool)
        ensures
            b == self@.env_clear,
    {
        self.env_clear
    }

    /// The working directory, if set.
    pub fn get_current_dir(&self) -> (d: &Option<String>)
        ensures
            opt_string_view(*d) == self@.current_dir,
    {
        &self.current_dir
    }

    /// Whether the technique `m` was requested.
    pub fn uses(&self, m: Monitor) -> (b: bool)
        ensures
            b == self@.monitors.contains(m),
    {
        contains_monitor(&self.monitors, m)
    }

    /// How the child is to be launched.
    pub fn spawn_path(&self) -> (p: SpawnPath)
        ensures
            p == spec_spawn_path(self@.monitors),
    {
        if contains_monitor(&self.monitors, Monitor::DebugApi) {
            SpawnPath::Debug
        } else if contains_monitor(&self.monitors, Monitor::JobObject) || contains_monitor(&self.monitors, Monitor::Sentinel) {
            SpawnPath::JobMonitored
        } else {
            SpawnPath::Plain
        }
    }

    /// Passes the sentinel pipe write handle to the child: the override
    /// [`ENV_VAR`] = the decimal text of the handle value.
    pub fn add_sentinel_handle(&mut self, handle: usize)
        ensures
            final(self)@ == (CommandView { envs: old(self)@.envs.push((ENV_VAR@, decimal(handle as nat))), ..old(self)@ }),
    {
        let name = String::from_str(ENV_VAR);
        let value = to_decimal(handle);
        self.envs.push((name, value));
        proof {
            assert(pairs_view(self.envs@) =~= pairs_view(old(self).envs@).push((ENV_VAR@, decimal(handle as nat))));
        }
    }

    /// The bookkeeping of a child spawned from this command: watched by the
    /// sentinel exactly when the sentinel technique was requested.
    pub fn spawned_child(&self, pid: u32, process_handle: usize, thread_handle: usize) -> (c: WorrywartChild)
        ensures
            c@ == (ChildView { pid, process_handle, thread_handle, sentinel: self@.monitors.contains(Monitor::Sentinel), cached: None }),
    {
        WorrywartChild::new(pid, process_handle, thread_handle, self.uses(Monitor::Sentinel))
    }

    /// What `CreateProcessW` is given for this command, with `inherited` the
    /// current process environment.  Handles are inherited by debuggees, and
    /// on the job path when the sentinel pipe must reach the child.
    pub fn launch_params(&self, inherited: &Vec<(String, String)>) -> (p: LaunchParams)
        ensures
            p.command_line@ == utf16(spec_command_line(self@.program, self@.args)).push(0),
            p.environment matches Some(e) ==> spec_env_block(self@.env_clear, self@.envs, self@.removed, pairs_view(inherited@)) == Some(e@),
            p.environment is None <==> spec_env_block(self@.env_clear, self@.envs, self@.removed, pairs_view(inherited@)) is None,
            p.current_directory matches Some(d) ==> self@.current_dir matches Some(cd) && d@ == utf16(cd).push(0),
            p.current_directory is None <==> self@.current_dir is None,
            p.affinity_mask == self@.affinity_mask,
            p.inherit_handles == (spec_spawn_path(self@.monitors) == SpawnPath::Debug
                || (spec_spawn_path(self@.monitors) == SpawnPath::JobMonitored && self@.monitors.contains(Monitor::Sentinel))),
    {
        let command_line = build_command_line(self.program.as_str(), &self.args);
        let environment = build_env_block(self.env_clear, &self.envs, &self.removed, inherited);
        let current_directory = match &self.current_dir {
            Some(d) => Some(to_wide_null(d.as_str())),
            None => None,
        };
        let path = self.spawn_path();
        let inherit_handles = path == SpawnPath::Debug || (path == SpawnPath::JobMonitored && self.uses(Monitor::Sentinel));
        LaunchParams { command_line, environment, current_directory, affinity_mask: self.affinity_mask, inherit_handles }
    }
}

// ---------------------------------------------------------------------------
// Laws.
// ---------------------------------------------------------------------------

/// With the debug API and the sentinel, an exit without an exception is a
/// clean exit when the sentinel arrived and an external kill when it did
/// not; a crash or a fast-fail stays what it is whatever the sentinel says.
pub proof fn lemma_debug_exit_diagnosis(pending: Option<PendingException>, exit_code: u32, sentinel_ok: bool)
    ensures
        spec_refine_with_sentinel(spec_classify_exit(pending, exit_code), Some(sentinel_ok)) == (match pending {
            None => if sentinel_ok {
                TerminationReason::CleanExit(ExitStatus::from_raw_spec(exit_code))
            } else {
                TerminationReason::ExternalKill(ExitStatus::from_raw_spec(exit_code))
            },
            Some(_) => spec_classify_exit(pending, exit_code),
        }),
{
}

/// With the job object and the sentinel, a normal exit is a clean exit when
/// the sentinel arrived and an external kill when it did not; an abnormal
/// exit is a crash whatever the sentinel says.
pub proof fn lemma_job_exit_diagnosis(exit_code: Option<u32>, msg_type: u32, sentinel_ok: bool)
    requires
        spec_is_exit_message(msg_type),
    ensures
        spec_refine_with_sentinel(spec_classify_iocp_exit(exit_code, msg_type), Some(sentinel_ok)) == (
            if msg_type == JOB_OBJECT_MSG_ABNORMAL_EXIT_PROCESS {
                spec_classify_iocp_exit(exit_code, msg_type)
            } else if sentinel_ok {
                TerminationReason::CleanExit(spec_reason_to_exit_status(spec_classify_iocp_exit(exit_code, msg_type)))
            } else {
                TerminationReason::ExternalKill(spec_reason_to_exit_status(spec_classify_iocp_exit(exit_code, msg_type)))
            }
        ),
{
}

/// Without the sentinel technique, the reason is the monitor's own.
pub proof fn lemma_no_sentinel_keeps_reason(reason: TerminationReason)
    ensures
        spec_refine_with_sentinel(reason, None) == reason,
{
}

/// The status that a plain wait reports is the status of the diagnosed
/// reason.
pub proof fn lemma_wait_status_is_reason_status(reason: TerminationReason)
    ensures
        spec_reason_to_exit_status(reason).raw_spec() == reason_exit_code(reason),
{
}

/// A plain wait reports the status of the reason that a diagnosed wait
/// from the same state reports, and asks for an observation exactly when it
/// does; once either has completed, later waits answer from the cache
/// without needing an observation, with the same reason.
pub proof fn lemma_wait_is_diagnosed_status(v: ChildView, observed: Option<ObservedExit>, later: Option<ObservedExit>)
    ensures
        ({
            let (vd, d) = spec_wait_diagnosed(v, observed);
            let (vw, w) = spec_wait(v, observed);
            &&& vw == vd
            &&& (w is NeedsExit <==> d is NeedsExit)
            &&& (d matches WaitStep::Ready(r) ==> w == WaitStep::Ready(spec_reason_to_exit_status(r)))
            &&& (d matches WaitStep::Ready(r) ==> spec_wait_diagnosed(vd, later) == (vd, WaitStep::Ready(r)))
        }),
{
}

/// A child watched by the sentinel never ends `Unknown`: the reason is
/// refined into `CleanExit` or `ExternalKill`.  A child not watched by it
/// ends with the reason the monitor reported, so never `CleanExit`, and
/// `ExternalKill` only on a system debugging error.
pub proof fn lemma_sentinel_decides_clean_or_killed(v: ChildView, o: ObservedExit)
    requires
        v.cached is None,
    ensures
        ({
            let (_, step) = spec_wait_diagnosed(v, Some(o));
            &&& step == WaitStep::Ready(spec_final_reason(v, o))
            &&& v.sentinel ==> !(spec_final_reason(v, o) is Unknown)
            &&& !v.sentinel ==> spec_final_reason(v, o) == o.reason
        }),
{
}

/// The reasons the monitors report are never `CleanExit`, and `ExternalKill`
/// only for a system debugging error: so without the sentinel a child never
/// ends `CleanExit`, nor `ExternalKill` unless the debugger lost it.
pub proof fn lemma_monitors_report_no_clean_exit(pending: Option<PendingException>, exit_code: u32, iocp_code: Option<u32>, msg_type: u32)
    ensures
        !(spec_classify_exit(pending, exit_code) is CleanExit),
        !(spec_classify_exit(pending, exit_code) is ExternalKill),
        !(spec_classify_iocp_exit(iocp_code, msg_type) is CleanExit),
        !(spec_classify_iocp_exit(iocp_code, msg_type) is ExternalKill),
{
}

/// Asking twice for a technique is asking once, and the requested
/// techniques never repeat.
pub proof fn lemma_monitor_idempotent(ms: Seq<Monitor>, m: Monitor)
    ensures
        spec_add_monitor(spec_add_monitor(ms, m), m) == spec_add_monitor(ms, m),
        ms.no_duplicates() ==> spec_add_monitor(ms, m).no_duplicates(),
{
    if !ms.contains(m) {
        assert(ms.push(m)[ms.len() as int] == m);
        assert(ms.push(m).contains(m));
    }
}

/// The debug API wins whatever else is asked for (the debuggee also joins
/// the job); without it, the job path serves the job object and the
/// sentinel; a command asking for nothing is spawned plainly.
pub proof fn lemma_spawn_path_by_monitors(ms: Seq<Monitor>)
    ensures
        ms.contains(Monitor::DebugApi) ==> spec_spawn_path(ms) == SpawnPath::Debug,
        spec_spawn_path(ms) == SpawnPath::Debug ==> ms.contains(Monitor::DebugApi),
        spec_spawn_path(ms) == SpawnPath::JobMonitored <==> (!ms.contains(Monitor::DebugApi)
            && (ms.contains(Monitor::JobObject) || ms.contains(Monitor::Sentinel))),
        spec_spawn_path(ms) == SpawnPath::Plain <==> (!ms.contains(Monitor::DebugApi)
            && !ms.contains(Monitor::JobObject) && !ms.contains(Monitor::Sentinel)),
{
}

} // verus!
