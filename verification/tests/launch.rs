use sidecar_supervisor::launcher::{
    backend_logical_name, classify_launch, resolve_sidecar_name, ChildHandle, LaunchError,
};
use sidecar_supervisor::supervisor::{Phase, Supervisor};

#[test]
fn resolves_linux_x64() {
    let r = resolve_sidecar_name("taskplex-backend", "x86_64-unknown-linux-gnu");
    assert_eq!(r.unwrap(), "taskplex-backend-x86_64-unknown-linux-gnu");
}

#[test]
fn resolves_linux_arm64() {
    let r = resolve_sidecar_name("taskplex-backend", "aarch64-unknown-linux-gnu");
    assert_eq!(r.unwrap(), "taskplex-backend-aarch64-unknown-linux-gnu");
}

#[test]
fn resolves_mac_x64() {
    let r = resolve_sidecar_name("taskplex-backend", "x86_64-apple-darwin");
    assert_eq!(r.unwrap(), "taskplex-backend-x86_64-apple-darwin");
}

#[test]
fn resolves_mac_arm64() {
    let r = resolve_sidecar_name("taskplex-backend", "aarch64-apple-darwin");
    assert_eq!(r.unwrap(), "taskplex-backend-aarch64-apple-darwin");
}

#[test]
fn resolves_windows_x64_with_exe_suffix() {
    let r = resolve_sidecar_name("taskplex-backend", "x86_64-pc-windows-msvc");
    assert_eq!(r.unwrap(), "taskplex-backend-x86_64-pc-windows-msvc.exe");
}

#[test]
fn resolves_windows_arm64_with_exe_suffix() {
    let r = resolve_sidecar_name("taskplex-backend", "aarch64-pc-windows-msvc");
    assert_eq!(r.unwrap(), "taskplex-backend-aarch64-pc-windows-msvc.exe");
}

#[test]
fn unsupported_platform_is_resolution_failure() {
    let r = resolve_sidecar_name("taskplex-backend", "wasm32-unknown-unknown");
    assert_eq!(r, Err(LaunchError::ResolutionFailed));
}

#[test]
fn empty_platform_is_resolution_failure() {
    let r = resolve_sidecar_name("taskplex-backend", "");
    assert_eq!(r, Err(LaunchError::ResolutionFailed));
}

#[test]
fn logical_name_is_fixed() {
    assert_eq!(backend_logical_name(), "taskplex-backend");
}

#[test]
fn missing_executable_is_resolution_failure() {
    assert_eq!(classify_launch(false, None), Err(LaunchError::ResolutionFailed));
}

#[test]
fn refused_process_creation_is_spawn_failure() {
    assert_eq!(classify_launch(true, None), Err(LaunchError::SpawnFailed));
}

#[test]
fn created_process_yields_handle_with_its_id() {
    assert_eq!(classify_launch(true, Some(42)), Ok(ChildHandle { pid: 42 }));
}

#[test]
fn failed_start_leaves_supervisor_unstarted() {
    let mut s = Supervisor::new();
    assert_eq!(s.current_phase(), Phase::NotStarted);
    let r = s.start(false, None);
    assert_eq!(r, Err(LaunchError::ResolutionFailed));
    assert_eq!(s.current_phase(), Phase::NotStarted);
}

#[test]
fn spawn_failure_leaves_supervisor_unstarted() {
    let mut s = Supervisor::new();
    let r = s.start(true, None);
    assert_eq!(r, Err(LaunchError::SpawnFailed));
    assert_eq!(s.current_phase(), Phase::NotStarted);
}

#[test]
fn successful_start_moves_supervisor_to_running() {
    let mut s = Supervisor::new();
    let r = s.start(true, Some(7));
    assert_eq!(r, Ok(ChildHandle { pid: 7 }));
    assert_eq!(s.current_phase(), Phase::Running);
}
