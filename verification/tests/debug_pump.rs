// Debug-pump classification, driven by the event sequences that the
// helper children produce under a real debugger.

use worrywart::pump::{
    classify_exit, DebugEvent, DebugPump, PendingException, SpawnResponse, ACCESS_VIOLATION,
    BREAKPOINT,
    DBG_CONTINUE, DBG_EXCEPTION_NOT_HANDLED, FATAL_APP_EXIT, STACK_BUFFER_OVERRUN,
};
use worrywart::TerminationReason;

const PID: u32 = 4242;
const PROCESS_HANDLE: usize = 0x100;
const THREAD_HANDLE: usize = 0x104;

/// A pump tracking one fresh debuggee, after process creation and the
/// loader breakpoint.
fn started_pump(affinity: usize) -> DebugPump<&'static str> {
    let mut pump = DebugPump::new();
    assert!(pump.is_idle());
    pump.add_child(PID, PROCESS_HANDLE, THREAD_HANDLE, affinity, "waiter");
    assert!(!pump.is_idle());
    let a = pump.dispatch_event(PID, DebugEvent::CreateProcess { image_file: 0x200 });
    assert_eq!(a.continue_status, DBG_CONTINUE);
    assert_eq!(a.close_handles, vec![0x200]);
    let a = pump.dispatch_event(
        PID,
        DebugEvent::Exception { code: BREAKPOINT, address: 0x7ff0_0000, first_chance: true },
    );
    assert_eq!(a.continue_status, DBG_CONTINUE);
    assert!(a.notify.is_none());
    pump
}

fn exit(pump: &mut DebugPump<&'static str>, code: u32) -> TerminationReason {
    let a = pump.dispatch_event(PID, DebugEvent::ExitProcess { exit_code: code });
    assert_eq!(a.continue_status, DBG_CONTINUE);
    assert_eq!(a.close_handles, vec![PROCESS_HANDLE, THREAD_HANDLE]);
    let (tx, reason) = a.notify.expect("waiter notified");
    assert_eq!(tx, "waiter");
    assert!(!pump.is_tracking(PID));
    reason
}

#[test]
fn exit0_produces_unknown() {
    let mut pump = started_pump(0);
    let reason = exit(&mut pump, 0);
    match reason {
        TerminationReason::Unknown(status) => {
            assert_eq!(status.code(), Some(0), "expected exit code 0, got {status:?}");
        }
        other => panic!("expected Unknown, got {other:?}"),
    }
}

#[test]
fn crash_produces_crash_reason() {
    let mut pump = started_pump(0);
    let a = pump.dispatch_event(
        PID,
        DebugEvent::Exception { code: ACCESS_VIOLATION, address: 0x1400_1000, first_chance: true },
    );
    assert_eq!(a.continue_status, DBG_EXCEPTION_NOT_HANDLED);
    let a = pump.dispatch_event(
        PID,
        DebugEvent::Exception { code: ACCESS_VIOLATION, address: 0x1400_1000, first_chance: false },
    );
    assert_eq!(a.continue_status, DBG_EXCEPTION_NOT_HANDLED);
    let reason = exit(&mut pump, 0xC000_0005);
    match reason {
        TerminationReason::Crash { code, .. } => {
            assert_eq!(
                code, 0xC000_0005,
                "expected STATUS_ACCESS_VIOLATION (0xC0000005), got {code:#010x}"
            );
        }
        other => panic!("expected Crash, got {other:?}"),
    }
}

#[test]
fn fastfail_produces_fastfail_reason() {
    let mut pump = started_pump(0);
    pump.dispatch_event(
        PID,
        DebugEvent::Exception { code: STACK_BUFFER_OVERRUN, address: 0x1400_2000, first_chance: false },
    );
    let reason = exit(&mut pump, 0xC000_0409);
    match reason {
        TerminationReason::FastFail(code) => {
            assert_eq!(
                code, 0xC000_0409,
                "expected STATUS_STACK_BUFFER_OVERRUN (0xC0000409), got {code:#010x}"
            );
        }
        other => panic!("expected FastFail, got {other:?}"),
    }
}

#[test]
fn crash_reports_faulting_address() {
    let mut pump = started_pump(0);
    pump.dispatch_event(
        PID,
        DebugEvent::Exception { code: ACCESS_VIOLATION, address: 0xdead_beef, first_chance: false },
    );
    assert_eq!(
        exit(&mut pump, 0xC000_0005),
        TerminationReason::Crash { code: 0xC000_0005, address: 0xdead_beef }
    );
}

#[test]
fn fatal_app_exit_is_fast_fail() {
    let mut pump = started_pump(0);
    pump.dispatch_event(
        PID,
        DebugEvent::Exception { code: FATAL_APP_EXIT, address: 1, first_chance: false },
    );
    assert_eq!(exit(&mut pump, 7), TerminationReason::FastFail(0x4000_0015));
}

#[test]
fn loader_breakpoint_sets_affinity_once() {
    let mut pump = DebugPump::new();
    pump.add_child(PID, PROCESS_HANDLE, THREAD_HANDLE, 0b11, "waiter");
    let a = pump.dispatch_event(
        PID,
        DebugEvent::Exception { code: BREAKPOINT, address: 0, first_chance: true },
    );
    assert_eq!(a.continue_status, DBG_CONTINUE);
    assert_eq!(a.set_affinity, Some((PROCESS_HANDLE, 0b11)));
    // A later breakpoint is an ordinary exception.
    let a = pump.dispatch_event(
        PID,
        DebugEvent::Exception { code: BREAKPOINT, address: 5, first_chance: true },
    );
    assert_eq!(a.continue_status, DBG_EXCEPTION_NOT_HANDLED);
    assert_eq!(a.set_affinity, None);
    let a = pump.dispatch_event(
        PID,
        DebugEvent::Exception { code: BREAKPOINT, address: 5, first_chance: false },
    );
    assert_eq!(a.continue_status, DBG_EXCEPTION_NOT_HANDLED);
    assert_eq!(
        exit(&mut pump, 3),
        TerminationReason::Crash { code: 0x8000_0003, address: 5 }
    );
}

#[test]
fn no_affinity_when_mask_is_zero() {
    let mut pump = DebugPump::new();
    pump.add_child(PID, PROCESS_HANDLE, THREAD_HANDLE, 0, "waiter");
    let a = pump.dispatch_event(
        PID,
        DebugEvent::Exception { code: BREAKPOINT, address: 0, first_chance: true },
    );
    assert_eq!(a.set_affinity, None);
}

#[test]
fn rip_event_is_external_kill() {
    let mut pump = started_pump(0);
    let a = pump.dispatch_event(PID, DebugEvent::Rip);
    assert_eq!(a.close_handles, vec![PROCESS_HANDLE, THREAD_HANDLE]);
    let (_, reason) = a.notify.expect("waiter notified");
    match reason {
        TerminationReason::ExternalKill(s) => assert_eq!(s.code(), Some(1)),
        other => panic!("expected ExternalKill, got {other:?}"),
    }
    assert!(pump.is_idle());
}

#[test]
fn events_of_unknown_processes_change_nothing() {
    let mut pump = started_pump(0);
    let a = pump.dispatch_event(PID + 1, DebugEvent::ExitProcess { exit_code: 0 });
    assert!(a.notify.is_none());
    assert_eq!(a.continue_status, DBG_CONTINUE);
    assert!(a.close_handles.is_empty());
    let a = pump.dispatch_event(
        PID + 1,
        DebugEvent::Exception { code: ACCESS_VIOLATION, address: 0, first_chance: false },
    );
    assert_eq!(a.continue_status, DBG_EXCEPTION_NOT_HANDLED);
    assert!(pump.is_tracking(PID));
    // The tracked child is still classified on its own.
    assert!(matches!(exit(&mut pump, 0), TerminationReason::Unknown(_)));
    // A second exit of the same process reaches nobody.
    let a = pump.dispatch_event(PID, DebugEvent::ExitProcess { exit_code: 0 });
    assert!(a.notify.is_none());
}

#[test]
fn dll_image_handles_are_closed_when_real() {
    let mut pump: DebugPump<u8> = DebugPump::new();
    let a = pump.dispatch_event(1, DebugEvent::LoadDll { image_file: 0x300 });
    assert_eq!(a.close_handles, vec![0x300]);
    let a = pump.dispatch_event(1, DebugEvent::LoadDll { image_file: 0 });
    assert!(a.close_handles.is_empty());
    let a = pump.dispatch_event(1, DebugEvent::CreateProcess { image_file: usize::MAX });
    assert!(a.close_handles.is_empty());
    for ev in [
        DebugEvent::CreateThread,
        DebugEvent::ExitThread,
        DebugEvent::UnloadDll,
        DebugEvent::OutputDebugString,
        DebugEvent::Other { event_code: 99 },
    ] {
        let a = pump.dispatch_event(1, ev);
        assert_eq!(a.continue_status, DBG_CONTINUE);
        assert!(a.close_handles.is_empty() && a.notify.is_none() && a.set_affinity.is_none());
    }
}

#[test]
fn classify_exit_cases() {
    assert_eq!(
        classify_exit(None, 17),
        TerminationReason::Unknown(worrywart::ExitStatus::from_raw(17))
    );
    let crash = PendingException { code: ACCESS_VIOLATION, address: 9, is_fast_fail: false };
    assert_eq!(
        classify_exit(Some(crash), 17),
        TerminationReason::Crash { code: 0xC000_0005, address: 9 }
    );
    let ff = PendingException { code: STACK_BUFFER_OVERRUN, address: 9, is_fast_fail: true };
    assert_eq!(classify_exit(Some(ff), 17), TerminationReason::FastFail(0xC000_0409));
}

#[test]
fn one_reply_per_spawn() {
    let mut pump: DebugPump<&str> = DebugPump::new();
    let created: Result<SpawnResponse, &str> = Err("access denied");
    assert_eq!(pump.complete_spawn(created, 0, "w1"), Err("access denied"));
    assert!(pump.is_idle());
    let info = SpawnResponse { pid: 8, process_handle: 0x20, thread_handle: 0x24 };
    assert_eq!(pump.complete_spawn(Ok::<_, &str>(info), 0b1, "w2"), Ok(info));
    assert!(pump.is_tracking(8));
    let a = pump.dispatch_event(8, DebugEvent::Exception { code: BREAKPOINT, address: 0, first_chance: true });
    assert_eq!(a.set_affinity, Some((0x20, 0b1)));
    let a = pump.dispatch_event(8, DebugEvent::ExitProcess { exit_code: 0 });
    assert_eq!(a.notify.map(|(tx, _)| tx), Some("w2"));
}
