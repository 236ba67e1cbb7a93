//! Exit statuses and the classified reason a monitored child terminated.
use vstd::prelude::*;

verus! {

/// The raw Win32 exit status of a process.
///
/// On Windows a process exit status is a 32-bit value; `code()` always
/// reports it (reinterpreted as `i32`) and `success()` holds exactly when it
/// is zero.
#[derive(Debug, Clone, Copy, PartialEq, Eq, Structural)]
pub struct ExitStatus {
    raw: u32,
}

impl ExitStatus {
    /// The raw 32-bit exit code carried by this status.
    pub closed spec fn raw_spec(self) -> u32 {
        self.raw
    }

    /// Two statuses are equal exactly when they carry the same raw code.
    pub broadcast proof fn lemma_raw_determines(a: ExitStatus, b: ExitStatus)
        ensures
            #[trigger] a.raw_spec() == #[trigger] b.raw_spec() <==> a == b,
    {
    }

    /// The status that carries the raw code `code`.
    pub closed spec fn from_raw_spec(code: u32) -> ExitStatus {
        ExitStatus { raw: code }
    }

    /// The raw code of a status built from `code` is `code`.
    pub broadcast proof fn lemma_from_raw_spec(code: u32)
        ensures
            #[trigger] Self::from_raw_spec(code).raw_spec() == code,
    {
    }

    /// A status is the one built from its raw code.
    pub broadcast proof fn lemma_from_raw_of_raw(s: ExitStatus)
        ensures
            #[trigger] Self::from_raw_spec(s.raw_spec()) == s,
    {
    }

    /// Builds a status from a raw Win32 exit code.
    pub fn from_raw(code: u32) -> (s: ExitStatus)
        ensures
            s == ExitStatus::from_raw_spec(code),
            s.raw_spec() == code,
    {
        ExitStatus { raw: code }
    }

    /// The raw 32-bit exit code.
    pub fn raw(&self) -> (r: u32)
        ensures
            r == self.raw_spec(),
    {
        self.raw
    }

    /// The exit code, reinterpreted as a signed integer.
    pub fn code(&self) -> (c: Option<i32>)
        ensures
            c == Some(self.raw_spec() as i32),
    {
        Some(self.raw as i32)
    }

    /// Whether the process exited with code zero.
    pub fn success(&self) -> (b: bool)
        ensures
            b == (self.raw_spec() == 0),
    {
        self.raw == 0
    }
}

/// The facts about exit statuses that callers reason with.
pub broadcast group group_exit_status {
    ExitStatus::lemma_raw_determines,
    ExitStatus::lemma_from_raw_spec,
    ExitStatus::lemma_from_raw_of_raw,
}

/// The reason a monitored child process terminated.
#[derive(Debug, Clone, Copy, PartialEq, Eq, Structural)]
#[non_exhaustive]
pub enum TerminationReason {
    /// The process exited voluntarily; only reported when the sentinel
    /// technique is active.
    CleanExit(ExitStatus),
    /// The process terminated through an unhandled SEH exception: `code` is
    /// the exception code and `address` the faulting instruction pointer.
    Crash { code: u32, address: u64 },
    /// The process called `__fastfail` / `RtlFailFast`.
    FastFail(u32),
    /// The process was killed by an outside agent; only reported when the
    /// sentinel technique is active and no sentinel was received.
    ExternalKill(ExitStatus),
    /// The process exited but the active techniques cannot tell why.
    Unknown(ExitStatus),
}

/// The raw exit code that a reason stands for: the status of the status
/// carrying variants, the exception code of `Crash` and `FastFail`.
pub open spec fn reason_exit_code(r: TerminationReason) -> u32 {
    match r {
        TerminationReason::CleanExit(s) => s.raw_spec(),
        TerminationReason::Crash { code, .. } => code,
        TerminationReason::FastFail(code) => code,
        TerminationReason::ExternalKill(s) => s.raw_spec(),
        TerminationReason::Unknown(s) => s.raw_spec(),
    }
}

impl TerminationReason {
    /// Returns the underlying exit status regardless of the variant; for
    /// `Crash` and `FastFail` it is built from the exception code.
    pub fn exit_status(&self) -> (s: ExitStatus)
        ensures
            s.raw_spec() == reason_exit_code(*self),
    {
        match self {
            TerminationReason::CleanExit(s) => *s,
            TerminationReason::Crash { code, .. } => ExitStatus::from_raw(*code),
            TerminationReason::FastFail(code) => ExitStatus::from_raw(*code),
            TerminationReason::ExternalKill(s) => *s,
            TerminationReason::Unknown(s) => *s,
        }
    }
}

} // verus!
