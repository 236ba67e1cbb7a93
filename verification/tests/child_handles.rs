// Builder state, spawn decisions and child bookkeeping.

use worrywart::command::{
    reason_to_exit_status, CachedReason, KillError, ObservedExit, SpawnPath, WaitStep,
    WorrywartChild, WorrywartCommand,
};
use worrywart::handles::{is_valid_handle, INVALID_HANDLE_VALUE};
use worrywart::monitor::Monitor;
use worrywart::{ExitStatus, TerminationReason};

fn wide(s: &str) -> Vec<u16> {
    s.encode_utf16().chain(std::iter::once(0)).collect()
}

#[test]
fn builder_collects_settings() {
    let cmd = WorrywartCommand::new("prog")
        .env("PATH", "shadowed")
        .arg("a b")
        .args(&["c", "d"])
        .env("K", "1")
        .env("L", "2")
        .env_remove("K")
        .env_remove("PATH")
        .current_dir(r"C:\work")
        .affinity_mask(3);
    assert_eq!(cmd.get_program(), "prog");
    assert_eq!(cmd.get_args(), &vec!["a b".to_string(), "c".to_string(), "d".to_string()]);
    assert_eq!(cmd.get_envs(), &vec![("L".to_string(), "2".to_string())]);
    assert!(!cmd.get_env_clear());
    assert_eq!(cmd.get_current_dir(), &Some(r"C:\work".to_string()));
    let p = cmd.launch_params(&vec![("PATH".to_string(), "x".to_string())]);
    assert_eq!(p.command_line, wide("prog \"a b\" c d"));
    // The removed variable is neither set nor inherited.
    assert_eq!(cmd.get_removed_envs(), &vec!["K".to_string(), "PATH".to_string()]);
    assert_eq!(p.environment, Some("L=2\0\0".encode_utf16().collect()));
    assert_eq!(p.current_directory, Some(wide(r"C:\work")));
    assert_eq!(p.affinity_mask, 3);
    assert!(!p.inherit_handles);
}

#[test]
fn env_clear_drops_earlier_overrides() {
    let cmd = WorrywartCommand::new("p").env("A", "1").env_clear().env("B", "2");
    assert!(cmd.get_env_clear());
    assert_eq!(cmd.get_envs(), &vec![("B".to_string(), "2".to_string())]);
    let p = cmd.launch_params(&vec![("PATH".to_string(), "x".to_string())]);
    assert_eq!(p.environment, Some("B=2\0\0".encode_utf16().collect()));
    assert_eq!(p.current_directory, None);
}

#[test]
fn spawn_path_follows_monitors() {
    assert_eq!(WorrywartCommand::new("p").spawn_path(), SpawnPath::Plain);
    let c = WorrywartCommand::new("p").monitor(Monitor::JobObject);
    assert_eq!(c.spawn_path(), SpawnPath::JobMonitored);
    let c = WorrywartCommand::new("p").monitor(Monitor::Sentinel);
    assert_eq!(c.spawn_path(), SpawnPath::JobMonitored);
    assert!(c.uses(Monitor::Sentinel) && !c.uses(Monitor::DebugApi));
    let c = c.monitor(Monitor::DebugApi);
    assert_eq!(c.spawn_path(), SpawnPath::Debug);
}

#[test]
fn sentinel_handle_travels_in_the_environment() {
    let mut c = WorrywartCommand::new("p").monitor(Monitor::Sentinel).monitor(Monitor::Sentinel);
    c.add_sentinel_handle(0x2c4);
    assert_eq!(
        c.get_envs(),
        &vec![("WORRYWART_SENTINEL_HANDLE".to_string(), "708".to_string())]
    );
    let p = c.launch_params(&vec![]);
    assert!(p.inherit_handles);
    assert_eq!(p.environment, Some("WORRYWART_SENTINEL_HANDLE=708\0\0".encode_utf16().collect()));
    // Debuggees inherit handles; a plain spawn passes none on.
    let mut d = WorrywartCommand::new("p").monitor(Monitor::Sentinel).monitor(Monitor::DebugApi);
    d.add_sentinel_handle(1);
    assert!(d.launch_params(&vec![]).inherit_handles);
    assert!(!WorrywartCommand::new("p").launch_params(&vec![]).inherit_handles);
    assert!(!WorrywartCommand::new("p").monitor(Monitor::JobObject).launch_params(&vec![]).inherit_handles);
}

#[test]
fn child_id_and_kill_target() {
    assert_eq!(WorrywartChild::new(0, 1, 2, false).id(), None);
    assert_eq!(WorrywartChild::new(12, 1, 2, false).id(), Some(12));
    // A child spawned without monitoring keeps its handle and can be killed.
    let plain = WorrywartChild::from_std(33, 0x40);
    assert_eq!(plain.id(), Some(33));
    assert_eq!(plain.kill_target(), Ok(0x40));
    let no_handle = WorrywartChild::new(34, INVALID_HANDLE_VALUE, INVALID_HANDLE_VALUE, false);
    assert_eq!(no_handle.kill_target(), Err(KillError::NoProcessHandle));
}

#[test]
fn second_wait_returns_the_cached_reason() {
    let mut child = WorrywartChild::new(5, 0x10, 0x14, true);
    assert_eq!(child.wait_diagnosed(None), WaitStep::NeedsExit);
    let raw = TerminationReason::Crash { code: 0xC000_0005, address: 0x1234 };
    let seen = ObservedExit { reason: raw, sentinel_received: false };
    // A crash stays a crash, even under the sentinel.
    assert_eq!(child.wait_diagnosed(Some(seen)), WaitStep::Ready(raw));
    assert_eq!(child.wait_diagnosed(None), WaitStep::Ready(raw));
    // A later observation does not change the answer.
    let other = ObservedExit { reason: TerminationReason::FastFail(1), sentinel_received: true };
    assert_eq!(child.wait_diagnosed(Some(other)), WaitStep::Ready(raw));
    assert_eq!(child.wait(None), WaitStep::Ready(ExitStatus::from_raw(0xC000_0005)));
}

#[test]
fn wait_reports_the_status_of_the_diagnosis() {
    let mut child = WorrywartChild::new(5, 0x10, 0x14, true);
    assert_eq!(child.wait(None), WaitStep::NeedsExit);
    let raw = TerminationReason::Unknown(ExitStatus::from_raw(3));
    let step = child.wait(Some(ObservedExit { reason: raw, sentinel_received: true }));
    assert_eq!(step, WaitStep::Ready(ExitStatus::from_raw(3)));
    assert_eq!(
        child.wait_diagnosed(None),
        WaitStep::Ready(TerminationReason::CleanExit(ExitStatus::from_raw(3)))
    );
}

#[test]
fn wait_status_of_each_reason() {
    let s = ExitStatus::from_raw(3);
    assert_eq!(reason_to_exit_status(TerminationReason::Unknown(s)), s);
    assert_eq!(reason_to_exit_status(TerminationReason::CleanExit(s)), s);
    assert_eq!(reason_to_exit_status(TerminationReason::ExternalKill(s)), s);
    let crash = TerminationReason::Crash { code: 0xC000_0005, address: 1 };
    assert_eq!(reason_to_exit_status(crash).raw(), 0xC000_0005);
    assert_eq!(crash.exit_status().code(), Some(0xC000_0005u32 as i32));
    assert!(!crash.exit_status().success());
    assert_eq!(TerminationReason::FastFail(9).exit_status(), ExitStatus::from_raw(9));
    assert!(ExitStatus::from_raw(0).success());
}

#[test]
fn cached_reason_roundtrip() {
    let all = [
        TerminationReason::Unknown(ExitStatus::from_raw(0xFFFF_FFFF)),
        TerminationReason::CleanExit(ExitStatus::from_raw(0)),
        TerminationReason::ExternalKill(ExitStatus::from_raw(1)),
        TerminationReason::Crash { code: 7, address: u64::MAX },
        TerminationReason::FastFail(0xC000_0409),
    ];
    for r in all {
        assert_eq!(CachedReason::from_reason(&r).into_reason(), r);
    }
}

#[test]
fn handles_released_once() {
    let mut child = WorrywartChild::new(5, 0x10, 0, false);
    assert_eq!(child.release_handles(), vec![0x10]);
    assert!(child.release_handles().is_empty());
    let mut both = WorrywartChild::new(5, 0x10, 0x14, false);
    assert_eq!(both.release_handles(), vec![0x10, 0x14]);
    assert!(is_valid_handle(5));
    assert!(!is_valid_handle(0) && !is_valid_handle(INVALID_HANDLE_VALUE));
}

#[test]
fn env_remove_alone_drops_the_inherited_variable() {
    let cmd = WorrywartCommand::new("p").env_remove("PATH");
    let p = cmd.launch_params(&vec![("PATH".to_string(), "x".to_string()), ("A".to_string(), "1".to_string())]);
    assert_eq!(p.environment, Some("A=1\0\0".encode_utf16().collect()));
    // Clearing forgets removals along with overrides.
    let cleared = WorrywartCommand::new("p").env_remove("PATH").env_clear();
    assert!(cleared.get_removed_envs().is_empty());
    assert_eq!(cleared.launch_params(&vec![]).environment, Some(vec![0, 0]));
}

#[test]
fn spawned_child_follows_the_sentinel_request() {
    let watched = WorrywartCommand::new("p").monitor(Monitor::Sentinel).monitor(Monitor::JobObject);
    let mut c = watched.spawned_child(1, 2, 3);
    let raw = TerminationReason::Unknown(ExitStatus::from_raw(0));
    let step = c.wait_diagnosed(Some(ObservedExit { reason: raw, sentinel_received: false }));
    assert_eq!(step, WaitStep::Ready(TerminationReason::ExternalKill(ExitStatus::from_raw(0))));
    let plain = WorrywartCommand::new("p").monitor(Monitor::JobObject);
    let mut c = plain.spawned_child(1, 2, 3);
    let step = c.wait_diagnosed(Some(ObservedExit { reason: raw, sentinel_received: false }));
    assert_eq!(step, WaitStep::Ready(raw));
}
