use cli_supervisor::{CliProcessManager, CliState, CliStatus};

fn is_empty(s: &CliStatus) -> bool {
    s.pid.is_none() && s.port.is_none() && s.url.is_none() && s.error.is_none()
}

#[test]
fn new_manager_is_stopped() {
    let m = CliProcessManager::new();
    let s = m.status();
    assert_eq!(s.state, CliState::Stopped);
    assert!(is_empty(&s));
    assert_eq!(s.state.name(), "stopped");
}

#[test]
fn default_status_is_stopped() {
    let s = CliStatus::default();
    assert_eq!(s.state, CliState::Stopped);
    assert!(is_empty(&s));
}

#[test]
fn start_spawn_ready_then_exit_stops() {
    let mut m = CliProcessManager::new();
    let (run, previous) = m.start();
    assert_eq!(previous, None);
    assert_eq!(m.status().state, CliState::Starting);
    assert!(m.spawned(run, 321));
    assert_eq!(m.status().pid, Some(321));
    assert!(m.mark_ready(run, 4821));
    let s = m.status();
    assert_eq!(s.state, CliState::Ready);
    assert_eq!(s.port, Some(4821));
    assert_eq!(s.url.as_deref(), Some("http://127.0.0.1:4821"));
    assert!(s.error.is_none());
    assert!(m.is_ready());
    assert!(!m.mark_ready(run, 5000));
    assert_eq!(m.status().port, Some(4821));
    assert!(!m.exited(run, Some("exit status: 0".to_string())));
    let s = m.status();
    assert_eq!(s.state, CliState::Stopped);
    assert!(s.error.is_none() && s.port.is_none() && s.url.is_none());
}

#[test]
fn timeout_without_readiness_is_an_error() {
    let mut m = CliProcessManager::new();
    let (run, _) = m.start();
    assert!(m.spawned(run, 77));
    assert!(m.timed_out(run));
    let s = m.status();
    assert_eq!(s.state, CliState::Error);
    assert_eq!(s.error.as_deref(), Some("CLI did not start in time"));
    assert!(m.exited(run, Some("signal: 9".to_string())));
    let s = m.status();
    assert_eq!(s.state, CliState::Error);
    assert_eq!(s.error.as_deref(), Some("CLI did not start in time"));
    assert_eq!(m.stop(), None);
}

#[test]
fn timeout_after_ready_does_nothing() {
    let mut m = CliProcessManager::new();
    let (run, _) = m.start();
    assert!(m.mark_ready(run, 5050));
    assert!(!m.timed_out(run));
    assert_eq!(m.status().state, CliState::Ready);
}

#[test]
fn early_exit_is_an_error() {
    let mut m = CliProcessManager::new();
    let (run, _) = m.start();
    assert!(m.spawned(run, 9));
    assert!(m.exited(run, Some("exit status: 1".to_string())));
    let s = m.status();
    assert_eq!(s.state, CliState::Error);
    assert_eq!(s.error.as_deref(), Some("CLI exited early: exit status: 1"));
    assert!(s.port.is_none());
}

#[test]
fn exit_after_stop_is_not_a_failure() {
    let mut m = CliProcessManager::new();
    let (run, _) = m.start();
    assert!(m.spawned(run, 9));
    assert_eq!(m.stop(), Some(9));
    assert!(!m.exited(run, None));
    assert_eq!(m.status().state, CliState::Stopped);
}

#[test]
fn early_exit_without_status() {
    let mut m = CliProcessManager::new();
    let (run, _) = m.start();
    assert!(m.exited(run, None));
    assert_eq!(m.status().error.as_deref(), Some("CLI exited early"));
}

#[test]
fn spawn_failure_is_an_error() {
    let mut m = CliProcessManager::new();
    let (run, _) = m.start();
    assert!(m.spawn_failed(run, "No such file or directory".to_string()));
    let s = m.status();
    assert_eq!(s.state, CliState::Error);
    assert_eq!(s.error.as_deref(), Some("No such file or directory"));
}

#[test]
fn stop_is_idempotent() {
    let mut m = CliProcessManager::new();
    assert_eq!(m.stop(), None);
    assert_eq!(m.stop(), None);
    let s = m.status();
    assert_eq!(s.state, CliState::Stopped);
    assert!(is_empty(&s));
}

#[test]
fn stop_hands_back_the_child() {
    let mut m = CliProcessManager::new();
    let (run, _) = m.start();
    assert!(m.spawned(run, 4242));
    assert!(m.mark_ready(run, 4000));
    assert_eq!(m.stop(), Some(4242));
    assert!(is_empty(&m.status()));
    assert_eq!(m.status().state, CliState::Stopped);
    assert_eq!(m.stop(), None);
}

#[test]
fn only_one_child_is_held() {
    let mut m = CliProcessManager::new();
    let (run, _) = m.start();
    assert!(m.spawned(run, 1));
    assert!(!m.spawned(run, 2));
    assert_eq!(m.status().pid, Some(1));
    let (next, previous) = m.start();
    assert_eq!(previous, Some(1));
    assert_ne!(next, run);
    assert!(m.spawned(next, 3));
}

#[test]
fn reports_of_an_earlier_run_are_ignored() {
    let mut m = CliProcessManager::new();
    let (old_run, _) = m.start();
    let (run, _) = m.start();
    assert_eq!(m.current_run(), run);
    assert!(!m.spawned(old_run, 5));
    assert!(!m.mark_ready(old_run, 4000));
    assert!(!m.timed_out(old_run));
    assert!(!m.exited(old_run, None));
    assert_eq!(m.status().state, CliState::Starting);
}

#[test]
fn restart_resets_readiness() {
    let mut m = CliProcessManager::new();
    let (run, _) = m.start();
    assert!(m.mark_ready(run, 4000));
    let (run2, _) = m.start();
    assert!(!m.is_ready());
    let s = m.status();
    assert_eq!(s.state, CliState::Starting);
    assert!(is_empty(&s));
    assert!(m.timed_out(run2));
    assert_eq!(m.status().state, CliState::Error);
}

#[test]
fn ready_after_error_is_refused() {
    let mut m = CliProcessManager::new();
    let (run, _) = m.start();
    assert!(m.timed_out(run));
    assert!(!m.mark_ready(run, 4000));
    assert_eq!(m.status().state, CliState::Error);
}
