// The sentinel technique end to end: what the child writes, what the
// monitor reads, and the resulting classification.

use worrywart::client::{
    notify, notify_exit, notify_exit_reason, parse_sentinel_handle, sentinel_message,
    sentinel_written, ENV_VAR,
};
use worrywart::command::{refine_with_sentinel, ObservedExit, WaitStep, WorrywartChild};
use worrywart::decimal::to_decimal;
use worrywart::iocp::{classify_iocp_exit, JOB_OBJECT_MSG_EXIT_PROCESS};
use worrywart::sentinel::{read_finished, SentinelReader};
use worrywart::{ExitStatus, TerminationReason};

fn read_all(chunks: &[&[u8]]) -> bool {
    let mut r = SentinelReader::new();
    for c in chunks {
        assert!(c.len() <= r.capacity());
        r.on_read(c);
    }
    r.received()
}

#[test]
fn cooperative_child_clean_exit() {
    // The child finds the handle the monitor passed and writes the message.
    let handle_text = to_decimal(0x2c4);
    let w = notify_exit(0, Some(&handle_text)).expect("handle found");
    assert_eq!(w.handle, 0x2c4);
    assert!(sentinel_written(true, w.message.len() as u32));
    // The monitor sees the message before the pipe closes.
    let seen = read_all(&[&w.message]);
    assert!(seen);
    let mut child = WorrywartChild::new(9, 0x10, 0x14, true);
    let raw = classify_iocp_exit(Some(0), JOB_OBJECT_MSG_EXIT_PROCESS);
    assert_eq!(child.wait_diagnosed(None), WaitStep::NeedsExit);
    let WaitStep::Ready(reason) =
        child.wait_diagnosed(Some(ObservedExit { reason: raw, sentinel_received: seen }))
    else {
        panic!("wait not complete")
    };
    assert!(
        matches!(reason, TerminationReason::CleanExit(_)),
        "expected CleanExit, got {reason:?}"
    );
}

#[test]
fn external_kill_no_sentinel() {
    let mut child = WorrywartChild::new(9, 0x10, 0x14, true);
    // Killing goes through the process handle.
    assert_eq!(child.kill_target(), Ok(0x10));
    // The pipe closes with nothing written.
    let seen = read_all(&[]);
    assert!(!seen);
    let raw = classify_iocp_exit(Some(1), JOB_OBJECT_MSG_EXIT_PROCESS);
    let WaitStep::Ready(reason) =
        child.wait_diagnosed(Some(ObservedExit { reason: raw, sentinel_received: seen }))
    else {
        panic!("wait not complete")
    };
    assert!(
        matches!(reason, TerminationReason::ExternalKill(_)),
        "expected ExternalKill, got {reason:?}"
    );
}

#[test]
fn sentinel_message_bytes() {
    assert_eq!(sentinel_message(0), b"WORT\0\0\0\0".to_vec());
    assert_eq!(sentinel_message(0x0102_0304), vec![b'W', b'O', b'R', b'T', 4, 3, 2, 1]);
    assert_eq!(sentinel_message(-1), vec![b'W', b'O', b'R', b'T', 0xff, 0xff, 0xff, 0xff]);
}

#[test]
fn message_recognised_in_any_chunking() {
    let m = sentinel_message(42);
    assert!(read_all(&[&m[..1], &m[1..3], &m[3..8]]));
    assert!(read_all(&[&m[..7], &m[7..]]));
    // A truncated message is not a sentinel.
    assert!(!read_all(&[&m[..7]]));
    // Garbage first, then the message in the next frame.
    let mut stream = b"XXXXXXXX".to_vec();
    stream.extend_from_slice(&m);
    assert!(read_all(&[&stream[..8], &stream[8..12], &stream[12..]]));
    // The magic must start a frame.
    let mut shifted = b"X".to_vec();
    shifted.extend_from_slice(&m);
    shifted.extend_from_slice(b"XXXXXXX");
    assert!(!read_all(&[&shifted[..8], &shifted[8..]]));
}

#[test]
fn reader_capacity_follows_the_frame() {
    let mut r = SentinelReader::new();
    assert_eq!(r.capacity(), 8);
    r.on_read(b"WOR");
    assert_eq!(r.capacity(), 5);
    r.on_read(b"T1234");
    assert_eq!(r.capacity(), 8);
    assert!(r.received());
    assert!(read_finished(false, 3));
    assert!(read_finished(true, 0));
    assert!(!read_finished(true, 3));
}

#[test]
fn handle_parsing() {
    assert_eq!(parse_sentinel_handle("708"), Some(708));
    assert_eq!(parse_sentinel_handle("+708"), Some(708));
    assert_eq!(parse_sentinel_handle("0"), None);
    assert_eq!(parse_sentinel_handle(""), None);
    assert_eq!(parse_sentinel_handle("+"), None);
    assert_eq!(parse_sentinel_handle("-5"), None);
    assert_eq!(parse_sentinel_handle("12a"), None);
    assert_eq!(parse_sentinel_handle(" 12"), None);
    assert_eq!(parse_sentinel_handle("99999999999999999999999999"), None);
    assert_eq!(
        parse_sentinel_handle(&usize::MAX.to_string()),
        Some(usize::MAX)
    );
}

#[test]
fn notify_without_handle_writes_nothing() {
    assert!(notify(0, None).is_none());
    assert!(notify_exit(3, Some("0")).is_none());
    assert!(notify_exit_reason(3, "why", Some("abc")).is_none());
    let w = notify_exit_reason(3, "ignored", Some("17")).unwrap();
    assert_eq!(w.handle, 17);
    assert_eq!(w.message, sentinel_message(3));
    assert!(!sentinel_written(true, 7));
    assert!(!sentinel_written(false, 8));
    assert_eq!(ENV_VAR, "WORRYWART_SENTINEL_HANDLE");
}

#[test]
fn sentinel_does_not_override_a_crash() {
    let crash = TerminationReason::Crash { code: 5, address: 6 };
    assert_eq!(refine_with_sentinel(crash, Some(true)), crash);
    assert_eq!(refine_with_sentinel(crash, Some(false)), crash);
    let ff = TerminationReason::FastFail(5);
    assert_eq!(refine_with_sentinel(ff, Some(false)), ff);
    let unknown = TerminationReason::Unknown(ExitStatus::from_raw(2));
    assert_eq!(refine_with_sentinel(unknown, None), unknown);
    assert_eq!(
        refine_with_sentinel(unknown, Some(true)),
        TerminationReason::CleanExit(ExitStatus::from_raw(2))
    );
}

#[test]
fn without_sentinel_the_reason_stays_unknown() {
    let mut child = WorrywartChild::new(9, 0x10, 0x14, false);
    let raw = classify_iocp_exit(Some(0), JOB_OBJECT_MSG_EXIT_PROCESS);
    // Whatever is said of a sentinel, a child without one is not refined.
    let step = child.wait_diagnosed(Some(ObservedExit { reason: raw, sentinel_received: true }));
    assert_eq!(step, WaitStep::Ready(raw));
}
