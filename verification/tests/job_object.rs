// Job-object exit routing and classification.

use worrywart::iocp::{
    classify_completion, classify_iocp_exit, is_exit_message, Completion, IocpRouter,
    JOB_OBJECT_MSG_ABNORMAL_EXIT_PROCESS, JOB_OBJECT_MSG_EXIT_PROCESS, JOB_KEY, SHUTDOWN_KEY,
};
use worrywart::{ExitStatus, TerminationReason};

/// JOB_OBJECT_MSG_NEW_PROCESS
const NEW_PROCESS: u32 = 6;

#[test]
fn crash_detected_via_iocp() {
    let mut router = IocpRouter::new();
    assert!(router.register(77, "waiter").is_none());
    // The new-process message must not wake the waiter.
    assert!(router.dispatch_notification(NEW_PROCESS, 77, Some(0)).is_none());
    let (tx, reason) = router
        .dispatch_notification(JOB_OBJECT_MSG_ABNORMAL_EXIT_PROCESS, 77, Some(0xC000_0005))
        .expect("waiter notified");
    assert_eq!(tx, "waiter");
    assert!(
        matches!(reason, TerminationReason::Crash { .. }),
        "expected Crash, got {reason:?}"
    );
}

#[test]
fn exit_reported_before_registration_is_kept() {
    let mut router = IocpRouter::new();
    assert!(router
        .dispatch_notification(JOB_OBJECT_MSG_EXIT_PROCESS, 5, Some(3))
        .is_none());
    let (tx, reason) = router.register(5, 'w').expect("delivered on registration");
    assert_eq!(tx, 'w');
    assert_eq!(reason, TerminationReason::Unknown(ExitStatus::from_raw(3)));
    // Delivered once: a new waiter for the same pid waits again.
    assert!(router.register(5, 'x').is_none());
}

#[test]
fn routing_keeps_children_apart() {
    let mut router = IocpRouter::new();
    router.register(1, 10u8);
    router.register(2, 20u8);
    let (tx, _) = router
        .dispatch_notification(JOB_OBJECT_MSG_EXIT_PROCESS, 2, None)
        .unwrap();
    assert_eq!(tx, 20);
    let (tx, r) = router
        .dispatch_notification(JOB_OBJECT_MSG_EXIT_PROCESS, 1, Some(9))
        .unwrap();
    assert_eq!(tx, 10);
    assert_eq!(r.exit_status().code(), Some(9));
}

#[test]
fn iocp_classification() {
    assert_eq!(
        classify_iocp_exit(Some(0xC000_0409), JOB_OBJECT_MSG_ABNORMAL_EXIT_PROCESS),
        TerminationReason::Crash { code: 0xC000_0409, address: 0 }
    );
    assert_eq!(
        classify_iocp_exit(Some(4), JOB_OBJECT_MSG_EXIT_PROCESS),
        TerminationReason::Unknown(ExitStatus::from_raw(4))
    );
    // An exit code that could not be read is reported as 0.
    assert_eq!(
        classify_iocp_exit(None, JOB_OBJECT_MSG_EXIT_PROCESS),
        TerminationReason::Unknown(ExitStatus::from_raw(0))
    );
    assert!(is_exit_message(7) && is_exit_message(8));
    assert!(!is_exit_message(NEW_PROCESS) && !is_exit_message(4));
}

#[test]
fn completion_outcomes() {
    // An idle wait leaves the key at 0: still a timeout, not a shutdown.
    assert_eq!(classify_completion(false, true, SHUTDOWN_KEY), Completion::Timeout);
    assert_eq!(classify_completion(false, true, JOB_KEY), Completion::Timeout);
    // The posted shutdown packet: dequeued, no overlapped pointer, key 0.
    assert_eq!(classify_completion(true, true, SHUTDOWN_KEY), Completion::Shutdown);
    assert_eq!(classify_completion(true, false, JOB_KEY), Completion::Packet);
    // A failed packet that was dequeued is still a packet.
    assert_eq!(classify_completion(false, false, JOB_KEY), Completion::Packet);
}
