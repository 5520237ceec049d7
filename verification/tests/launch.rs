use backend_supervisor::decimal::u16_to_decimal;
use backend_supervisor::errors::BackendError;
use backend_supervisor::launch::{candidate_paths, join_path, launch_args, plan_start, FsView};

#[test]
fn decimal_of_zero() {
    assert_eq!(u16_to_decimal(0), "0");
}

#[test]
fn decimal_of_single_digit() {
    assert_eq!(u16_to_decimal(7), "7");
}

#[test]
fn decimal_of_round_number() {
    assert_eq!(u16_to_decimal(8000), "8000");
}

#[test]
fn decimal_of_ten() {
    assert_eq!(u16_to_decimal(10), "10");
}

#[test]
fn decimal_of_largest_port() {
    assert_eq!(u16_to_decimal(65535), "65535");
}

#[test]
fn join_path_inserts_separator() {
    assert_eq!(join_path("/opt/app", "smartmart-backend.exe"), "/opt/app/smartmart-backend.exe");
}

#[test]
fn candidates_in_priority_order() {
    let c = candidate_paths("/opt/app");
    assert_eq!(c.len(), 2);
    assert_eq!(c[0], "/opt/app/smartmart-backend.exe");
    assert_eq!(c[1], "/opt/app/resources/smartmart-backend.exe");
}

#[test]
fn launch_args_bind_all_interfaces_and_port() {
    let args = launch_args(8000);
    assert_eq!(args, vec!["--host", "0.0.0.0", "--port", "8000"]);
}

#[test]
fn sibling_wins_when_both_exist() {
    let fs = FsView {
        exe_dir: Ok("/opt/app".to_string()),
        sibling_exists: true,
        resources_exists: true,
    };
    let cmd = plan_start(8000, &fs).unwrap();
    assert_eq!(cmd.program, "/opt/app/smartmart-backend.exe");
}

#[test]
fn resources_used_when_sibling_missing() {
    let fs = FsView {
        exe_dir: Ok("/opt/app".to_string()),
        sibling_exists: false,
        resources_exists: true,
    };
    let cmd = plan_start(9000, &fs).unwrap();
    assert_eq!(cmd.program, "/opt/app/resources/smartmart-backend.exe");
    assert_eq!(cmd.args, vec!["--host", "0.0.0.0", "--port", "9000"]);
}

#[test]
fn not_found_message_lists_both_candidates() {
    let fs = FsView {
        exe_dir: Ok("/opt/app".to_string()),
        sibling_exists: false,
        resources_exists: false,
    };
    let err = plan_start(8000, &fs).unwrap_err();
    match &err {
        BackendError::BackendNotFound { tried } => {
            assert_eq!(tried.len(), 2);
            assert_eq!(tried[0], "/opt/app/smartmart-backend.exe");
            assert_eq!(tried[1], "/opt/app/resources/smartmart-backend.exe");
        }
        other => panic!("expected a not-found error, got {:?}", other),
    }
    let msg = err.message();
    assert!(msg.contains("/opt/app/smartmart-backend.exe"));
    assert!(msg.contains("/opt/app/resources/smartmart-backend.exe"));
}

#[test]
fn unknown_exe_dir_is_a_path_resolution_error() {
    let fs = FsView {
        exe_dir: Err("the application executable has no parent directory".to_string()),
        sibling_exists: false,
        resources_exists: false,
    };
    let err = plan_start(8000, &fs).unwrap_err();
    assert!(matches!(err, BackendError::PathResolution { .. }));
    assert_eq!(
        err.message(),
        "failed to resolve the application executable directory: \
         the application executable has no parent directory"
    );
}

#[test]
fn launch_error_message_carries_the_reason() {
    let err = BackendError::Launch { reason: "permission denied".to_string() };
    assert_eq!(err.message(), "failed to launch backend: permission denied");
}

#[test]
fn path_resolution_message_carries_the_reason() {
    let err = BackendError::PathResolution { reason: "no parent directory".to_string() };
    assert_eq!(
        err.message(),
        "failed to resolve the application executable directory: no parent directory"
    );
}
