//! The child side of the sentinel technique.
//!
//! A child monitored with `Monitor::Sentinel` notifies the monitor just
//! before it exits intentionally, by writing a short message to the pipe
//! handle whose value it finds in [`ENV_VAR`].  The functions here decide
//! whether and what to write; the caller reads the variable and performs
//! the write.
use vstd::prelude::*;
use crate::decimal::{parse_usize, spec_parse_usize};

verus! {

/// Environment variable through which the monitor passes the sentinel pipe
/// write handle to the child: the decimal text of the raw handle value.
pub const ENV_VAR: &'static str = "WORRYWART_SENTINEL_HANDLE";

/// Length in bytes of a sentinel message: the magic and an exit code.
pub const SENTINEL_MSG_LEN: usize = 8;

/// The magic that starts every sentinel message: `"WORT"`.
pub open spec fn sentinel_magic() -> Seq<u8> {
    seq![0x57u8, 0x4Fu8, 0x52u8, 0x54u8]
}

/// The little-endian bytes of a 32-bit value.
pub open spec fn le_bytes(x: u32) -> Seq<u8> {
    seq![(x % 0x100) as u8, (x / 0x100 % 0x100) as u8, (x / 0x1_0000 % 0x100) as u8, (x / 0x100_0000) as u8]
}

/// A sentinel message: the magic, then the exit code in little-endian order.
pub open spec fn spec_sentinel_message(exit_code: i32) -> Seq<u8> {
    sentinel_magic() + le_bytes(exit_code as u32)
}

/// The handle that the variable's value names: a decimal `usize` other
/// than zero.
pub open spec fn spec_sentinel_handle(val: Seq<char>) -> Option<usize> {
    match spec_parse_usize(val) {
        Some(n) => if n != 0 { Some(n) } else { None },
        None => None,
    }
}

/// What a notifying child must write: to which handle, and which bytes.
pub struct SentinelWrite {
    /// Raw value of the pipe write handle.
    pub handle: usize,
    /// The sentinel message.
    pub message: Vec<u8>,
}

/// The write that a child owes the monitor, given the value of [`ENV_VAR`]
/// (`None` when it is not set): none when the value names no handle.
pub open spec fn spec_notify(exit_code: i32, handle_var: Option<Seq<char>>) -> Option<(usize, Seq<u8>)> {
    match handle_var {
        Some(v) => match spec_sentinel_handle(v) {
            Some(h) => Some((h, spec_sentinel_message(exit_code))),
            None => None,
        },
        None => None,
    }
}

/// The view of an optional text value.
pub open spec fn opt_str_view(v: Option<&str>) -> Option<Seq<char>> {
    match v {
        Some(s) => Some(s@),
        None => None,
    }
}

/// The view of an optional sentinel write.
pub open spec fn opt_write_view(w: Option<SentinelWrite>) -> Option<(usize, Seq<u8>)> {
    match w {
        Some(w) => Some((w.handle, w.message@)),
        None => None,
    }
}

/// Reads the sentinel handle from the value of [`ENV_VAR`].
pub fn parse_sentinel_handle(val: &str) -> (h: Option<usize>)
    ensures
        h == spec_sentinel_handle(val@),
{
    match parse_usize(val) {
        Some(n) => if n != 0 { Some(n) } else { None },
        None => None,
    }
}

/// The sentinel message for `exit_code`.
pub fn sentinel_message(exit_code: i32) -> (m: Vec<u8>)
    ensures
        m@ == spec_sentinel_message(exit_code),
        m@.len() == SENTINEL_MSG_LEN,
{
    let x = exit_code as u32;
    let mut m: Vec<u8> = Vec::new();
    m.push(0x57);
    m.push(0x4F);
    m.push(0x52);
    m.push(0x54);
    m.push((x % 0x100) as u8);
    m.push((x / 0x100 % 0x100) as u8);
    m.push((x / 0x1_0000 % 0x100) as u8);
    m.push((x / 0x100_0000) as u8);
    proof {
        assert(m@ =~= spec_sentinel_message(exit_code));
    }
    m
}

/// Whether a write of a sentinel message succeeded: the call reported
/// success and all of its bytes were written.
pub fn sentinel_written(ok: bool, written: u32) -> (b: bool)
    ensures
        b == (ok && written == SENTINEL_MSG_LEN),
{
    ok && written == 8
}

/// Decides the sentinel write for `exit_code`, given the value of
/// [`ENV_VAR`] (`None` when it is not set).  A child that finds no handle
/// writes nothing and reports `false`.
pub fn notify(exit_code: i32, handle_var: Option<&str>) -> (w: Option<SentinelWrite>)
    ensures
        opt_write_view(w) == spec_notify(exit_code, opt_str_view(handle_var)),
{
    let val = match handle_var {
        Some(v) => v,
        None => return None,
    };
    let handle = match parse_sentinel_handle(val) {
        Some(h) => h,
        None => return None,
    };
    Some(SentinelWrite { handle, message: sentinel_message(exit_code) })
}

/// Notification with a reason string.  The reason is reserved for future use
/// and does not change what is written.
pub fn notify_exit_reason(exit_code: i32, _reason: &str, handle_var: Option<&str>) -> (w: Option<SentinelWrite>)
    ensures
        opt_write_view(w) == spec_notify(exit_code, opt_str_view(handle_var)),
{
    notify(exit_code, handle_var)
}

/// Notifies the monitor that this process is about to exit intentionally.
pub fn notify_exit(exit_code: i32, handle_var: Option<&str>) -> (w: Option<SentinelWrite>)
    ensures
        opt_write_view(w) == spec_notify(exit_code, opt_str_view(handle_var)),
{
    notify_exit_reason(exit_code, "", handle_var)
}

} // verus!
