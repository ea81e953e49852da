use std::time::Duration;

use forkserver::finish_cancelled;
use forkserver::kill_process;
use forkserver::kill_process_id;
use forkserver::signal_group_id;
use forkserver::termination_result;
use forkserver::GroupKillError;
use forkserver::kill_process_group;
use forkserver::resolve_status;
use forkserver::take_pipes;
use forkserver::ExitStatus;
use forkserver::GatherOutputStatus;
use forkserver::Pipe;
use forkserver::RaceWinner;
use forkserver::RunError;

fn runtime() -> tokio::runtime::Runtime {
    tokio::runtime::Builder::new_current_thread()
        .enable_all()
        .build()
        .unwrap()
}

fn spawn_sleeper() -> tokio::process::Child {
    let mut cmd = tokio::process::Command::new("sh");
    cmd.args(["-c", "sleep 1000"]).process_group(0);
    cmd.spawn().unwrap()
}

/// Gone, or a zombie waiting to be reaped.
async fn is_gone(pid: i32) -> bool {
    match nix::sys::signal::kill(nix::unistd::Pid::from_raw(pid), None) {
        Err(nix::errno::Errno::ESRCH) => true,
        _ => match tokio::fs::read_to_string(format!("/proc/{}/stat", pid)).await {
            Ok(stat) => stat
                .rsplit(')')
                .next()
                .map_or(false, |s| s.trim_start().starts_with('Z')),
            Err(_) => true,
        },
    }
}

#[test]
fn kill_refuses_unnameable_pids() {
    assert_eq!(
        kill_process_group(0),
        Err(RunError::IdentifierOverflow { pid: 0 })
    );
    assert_eq!(
        kill_process_group(u32::MAX),
        Err(RunError::IdentifierOverflow { pid: u32::MAX })
    );
    assert_eq!(
        kill_process_group(0x8000_0000),
        Err(RunError::IdentifierOverflow { pid: 0x8000_0000 })
    );
    assert_eq!(
        kill_process_group(1),
        Err(RunError::IdentifierOverflow { pid: 1 })
    );
}

#[test]
fn signal_group_id_is_the_pid() {
    assert_eq!(signal_group_id(0), None);
    assert_eq!(signal_group_id(1), None);
    assert_eq!(signal_group_id(2), Some(2));
    assert_eq!(signal_group_id(4242), Some(4242));
    assert_eq!(signal_group_id(0x7fff_ffff), Some(i32::MAX));
    assert_eq!(signal_group_id(0x8000_0000), None);
}

#[test]
fn termination_result_maps_errors() {
    assert_eq!(termination_result(7, Ok(())), Ok(()));
    assert_eq!(termination_result(7, Err(GroupKillError::NoSuchGroup)), Ok(()));
    assert_eq!(
        termination_result(7, Err(GroupKillError::Other(1))),
        Err(RunError::TerminationFailure { pid: 7, errno: 1 })
    );
}

#[test]
fn kill_process_id_without_id_is_no_error() {
    assert_eq!(kill_process_id(None), Ok(()));
    assert_eq!(
        kill_process_id(Some(0)),
        Err(RunError::IdentifierOverflow { pid: 0 })
    );
}

#[test]
fn finish_cancelled_follows_the_kill() {
    let t = Duration::from_secs(2);
    let r = finish_cancelled(GatherOutputStatus::TimedOut(t), Ok(()));
    assert!(matches!(r, Ok(GatherOutputStatus::TimedOut(d)) if d == t));
    let r = finish_cancelled(GatherOutputStatus::Cancelled, Ok(()));
    assert!(matches!(r, Ok(GatherOutputStatus::Cancelled)));
    let e = RunError::TerminationFailure { pid: 9, errno: 1 };
    let r = finish_cancelled(GatherOutputStatus::Cancelled, Err(e));
    assert_eq!(r.unwrap_err(), e);
}

#[test]
fn kill_of_exited_group_is_no_error() {
    runtime().block_on(async {
        let mut child = tokio::process::Command::new("true")
            .process_group(0)
            .spawn()
            .unwrap();
        let pid = child.id().unwrap();
        child.wait().await.unwrap();
        // The group is gone once its only member was reaped.
        assert_eq!(kill_process_group(pid), Ok(()));
    });
}

#[test]
fn kill_terminates_process_group() {
    runtime().block_on(async {
        // The shell records the pid of a background grandchild in its group.
        let dir = tempfile::tempdir().unwrap();
        let pid_file = dir.path().join("pid");
        let script = format!("sleep 1000 & echo $! > '{}'; wait", pid_file.display());
        let mut child = tokio::process::Command::new("sh")
            .args(["-c", &script])
            .process_group(0)
            .spawn()
            .unwrap();
        let mut grandchild = None;
        for _ in 0..50 {
            if let Ok(text) = tokio::fs::read_to_string(&pid_file).await {
                if let Ok(pid) = text.trim().parse::<i32>() {
                    grandchild = Some(pid);
                    break;
                }
            }
            tokio::time::sleep(Duration::from_millis(100)).await;
        }
        let grandchild = grandchild.expect("grandchild pid");

        assert_eq!(kill_process(&child), Ok(()));
        let status = child.wait().await.unwrap();
        assert_eq!(status.code(), None);

        for _ in 0..50 {
            if is_gone(grandchild).await {
                return;
            }
            tokio::time::sleep(Duration::from_millis(100)).await;
        }
        panic!("PID did not exit: {}", grandchild);
    });
}

#[test]
fn kill_after_reap_is_no_error() {
    runtime().block_on(async {
        let mut child = tokio::process::Command::new("true").spawn().unwrap();
        child.wait().await.unwrap();
        assert_eq!(child.id(), None);
        assert_eq!(kill_process(&child), Ok(()));
    });
}

#[test]
fn resolve_natural_exit_kills_nothing() {
    runtime().block_on(async {
        let mut child = spawn_sleeper();
        let st = ExitStatus::from_code(Some(4));
        let r = resolve_status(&child, RaceWinner::Exited(Ok(st)));
        assert!(matches!(r, Ok(GatherOutputStatus::Finished(s)) if s == st));
        // Still running: nothing was killed.
        assert!(child.try_wait().unwrap().is_none());
        kill_process(&child).unwrap();
        child.wait().await.unwrap();
    });
}

#[test]
fn resolve_timeout_kills_child() {
    runtime().block_on(async {
        let mut child = spawn_sleeper();
        let t = Duration::from_secs(1);
        let r = resolve_status(&child, RaceWinner::Cancelled(Ok(GatherOutputStatus::TimedOut(t))));
        assert!(matches!(r, Ok(GatherOutputStatus::TimedOut(d)) if d == t));
        let status = tokio::time::timeout(Duration::from_secs(5), child.wait())
            .await
            .unwrap()
            .unwrap();
        assert_eq!(status.code(), None);
    });
}

#[test]
fn resolve_passes_errors_through() {
    runtime().block_on(async {
        let mut child = spawn_sleeper();
        let e = RunError::WaitFailure { os_code: Some(4) };
        assert_eq!(
            resolve_status(&child, RaceWinner::Exited(Err(e))).unwrap_err(),
            e
        );
        let c = RunError::CancellationFailure;
        assert_eq!(
            resolve_status(&child, RaceWinner::Cancelled(Err(c))).unwrap_err(),
            c
        );
        assert!(child.try_wait().unwrap().is_none());
        kill_process(&child).unwrap();
        child.wait().await.unwrap();
    });
}

#[test]
fn take_pipes_requires_both() {
    assert_eq!(take_pipes(Some(1u8), Some(2u16)), Ok((1u8, 2u16)));
    assert_eq!(
        take_pipes::<u8, u8>(None, Some(2)),
        Err(RunError::PipeSetupFailure { pipe: Pipe::Stdout })
    );
    assert_eq!(
        take_pipes::<u8, u8>(Some(1), None),
        Err(RunError::PipeSetupFailure { pipe: Pipe::Stderr })
    );
    assert_eq!(
        take_pipes::<u8, u8>(None, None),
        Err(RunError::PipeSetupFailure { pipe: Pipe::Stdout })
    );
}
