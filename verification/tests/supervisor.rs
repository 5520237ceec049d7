use backend_supervisor::errors::BackendError;
use backend_supervisor::launch::FsView;
use backend_supervisor::supervisor::{
    get_backend_status, restart_backend, BackendProcess, RESTART_GRACE_MILLIS,
};

fn fs_with_sibling() -> FsView {
    FsView {
        exe_dir: Ok("/opt/app".to_string()),
        sibling_exists: true,
        resources_exists: false,
    }
}

fn fs_with_nothing() -> FsView {
    FsView {
        exe_dir: Ok("/opt/app".to_string()),
        sibling_exists: false,
        resources_exists: false,
    }
}

#[test]
fn fresh_supervisor_is_stopped() {
    let p = BackendProcess::new();
    assert!(!p.is_running());
    assert_eq!(get_backend_status(&p), "stopped");
}

#[test]
fn stop_on_idle_is_a_no_op() {
    let mut p = BackendProcess::new();
    assert_eq!(p.stop(), None);
    assert!(!p.is_running());
}

#[test]
fn stop_on_idle_does_not_change_a_later_start() {
    let mut started_directly = BackendProcess::new();
    started_directly.start(Ok(41)).unwrap();

    let mut stopped_first = BackendProcess::new();
    assert_eq!(stopped_first.stop(), None);
    assert_eq!(stopped_first.stop(), None);
    stopped_first.start(Ok(41)).unwrap();

    assert_eq!(started_directly.is_running(), stopped_first.is_running());
    assert_eq!(started_directly.stop(), stopped_first.stop());
}

#[test]
fn successful_start_is_reported_running() {
    let mut p = BackendProcess::new();
    p.start(Ok(7)).unwrap();
    assert!(p.is_running());
    assert_eq!(get_backend_status(&p), "running");
}

#[test]
fn failed_start_leaves_no_handle_and_names_the_reason() {
    let mut p = BackendProcess::new();
    let err = p.start(Err("exec format error".to_string())).unwrap_err();
    assert!(matches!(err, BackendError::Launch { .. }));
    assert_eq!(err.message(), "failed to launch backend: exec format error");
    assert!(!p.is_running());
}

#[test]
fn stop_releases_exactly_the_started_handle() {
    let mut p = BackendProcess::new();
    p.start(Ok(7)).unwrap();
    assert_eq!(p.stop(), Some(7));
    assert!(!p.is_running());
    assert_eq!(p.stop(), None);
}

#[test]
fn at_most_one_handle_over_any_sequence() {
    let mut p = BackendProcess::new();
    p.start(Ok(1)).unwrap();
    let killed = p.stop();
    assert_eq!(killed, Some(1));
    p.start(Ok(2)).unwrap();
    let (to_kill, plan) = restart_backend(&mut p, 8000, &fs_with_sibling());
    assert_eq!(to_kill, Some(2));
    let cmd = plan.unwrap();
    p.start(Ok(3)).unwrap();
    assert_eq!(cmd.program, "/opt/app/smartmart-backend.exe");
    // Only one handle was live at every step: each stop released the one
    // handle its predecessor stored, and nothing else is left behind.
    assert_eq!(p.stop(), Some(3));
    assert_eq!(p.stop(), None);
}

#[test]
fn restart_orders_kill_then_fresh_launch() {
    let mut p = BackendProcess::new();
    p.start(Ok(11)).unwrap();
    let (to_kill, plan) = restart_backend(&mut p, 8000, &fs_with_sibling());
    assert_eq!(to_kill, Some(11));
    assert!(!p.is_running());
    let cmd = plan.unwrap();
    assert_eq!(cmd.program, "/opt/app/smartmart-backend.exe");
    assert_eq!(cmd.args, vec!["--host", "0.0.0.0", "--port", "8000"]);
    p.start(Ok(12)).unwrap();
    assert!(p.is_running());
    assert_eq!(p.stop(), Some(12));
}

#[test]
fn restart_on_idle_supervisor_orders_no_kill() {
    let mut p = BackendProcess::new();
    let (to_kill, plan) = restart_backend(&mut p, 8000, &fs_with_sibling());
    assert_eq!(to_kill, None);
    assert!(plan.is_ok());
}

#[test]
fn failed_restart_still_releases_the_handle() {
    let mut p = BackendProcess::new();
    p.start(Ok(11)).unwrap();
    let (to_kill, plan) = restart_backend(&mut p, 8000, &fs_with_nothing());
    assert_eq!(to_kill, Some(11));
    assert!(!p.is_running());
    let err = plan.unwrap_err();
    let msg = err.message();
    assert!(msg.contains("/opt/app/smartmart-backend.exe"));
    assert!(msg.contains("/opt/app/resources/smartmart-backend.exe"));
}

#[test]
fn grace_period_is_about_one_second() {
    assert_eq!(RESTART_GRACE_MILLIS, 1000);
}

#[test]
fn end_to_end_start_then_stop() {
    let mut p = BackendProcess::new();
    let fs = fs_with_sibling();
    let cmd = backend_supervisor::launch::plan_start(8000, &fs).unwrap();
    assert_eq!(cmd.program, "/opt/app/smartmart-backend.exe");
    assert_eq!(cmd.args, vec!["--host", "0.0.0.0", "--port", "8000"]);
    p.start(Ok(100)).unwrap();
    assert_eq!(get_backend_status(&p), "running");
    assert_eq!(p.stop(), Some(100));
    assert_eq!(get_backend_status(&p), "stopped");
}
