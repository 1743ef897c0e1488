//! Resolution of the bundled backend executable's file name for a target
//! platform, and classification of a launch attempt's outcome.

use vstd::prelude::*;

verus! {

/// Why a launch attempt failed. Resolution failures cover both an unsupported
/// platform and a missing executable; spawn failures are the operating
/// system's refusal to create the process.
#[derive(Clone, Copy, Debug, PartialEq, Eq, Structural)]
pub enum LaunchError {
    ResolutionFailed,
    SpawnFailed,
}

/// Handle to a running backend child process, identified by its process id.
/// The holder keeps it only to witness the child's existence; no control
/// operation is offered.
#[derive(Clone, Copy, Debug, PartialEq, Eq, Structural)]
pub struct ChildHandle {
    pub pid: u32,
}

/// Target triples whose sidecar binaries carry a `.exe` suffix.
pub open spec fn windows_target(t: Seq<char>) -> bool {
    ||| t == "x86_64-pc-windows-msvc"@
    ||| t == "aarch64-pc-windows-msvc"@
}

/// The target triples for which a bundled backend binary exists.
pub open spec fn supported_target(t: Seq<char>) -> bool {
    ||| t == "x86_64-unknown-linux-gnu"@
    ||| t == "aarch64-unknown-linux-gnu"@
    ||| t == "x86_64-apple-darwin"@
    ||| t == "aarch64-apple-darwin"@
    ||| windows_target(t)
}

/// The bundling convention for sidecar binaries: the logical name, a dash,
/// the target triple, and `.exe` on Windows targets.
pub open spec fn sidecar_file_name(logical: Seq<char>, target: Seq<char>) -> Seq<char> {
    if windows_target(target) {
        logical + "-"@ + target + ".exe"@
    } else {
        logical + "-"@ + target
    }
}

/// Character-by-character string comparison, so that equality of the views is
/// decided without trusting a derived implementation.
fn str_eq(a: &str, b: &str) -> (r: bool)
    ensures
        r == (a@ == b@),
{
    let a_len = a.unicode_len();
    let b_len = b.unicode_len();
    if a_len != b_len {
        return false;
    }
    let mut i: usize = 0;
    while i < a_len
        invariant
            a_len == a@.len(),
            b_len == b@.len(),
            a_len == b_len,
            0 <= i <= a_len,
            forall|j: int| 0 <= j < i ==> a@[j] == b@[j],
        decreases a_len - i,
    {
        if a.get_char(i) != b.get_char(i) {
            return false;
        }
        i = i + 1;
    }
    proof {
        assert(a@ =~= b@);
    }
    true
}

/// The fixed logical name under which the backend binary is bundled.
pub fn backend_logical_name() -> (r: &'static str)
    ensures
        r@ == "taskplex-backend"@,
{
    "taskplex-backend"
}

/// Maps a logical backend name to the file name of the bundled executable for
/// the given target triple. Succeeds with the conventional name exactly on
/// supported targets; any other target is a resolution failure.
pub fn resolve_sidecar_name(logical: &str, target: &str) -> (r: Result<String, LaunchError>)
    ensures
        supported_target(target@) ==> (r matches Ok(name) && name@ == sidecar_file_name(
            logical@,
            target@,
        )),
        !supported_target(target@) ==> r == Err::<String, LaunchError>(
            LaunchError::ResolutionFailed,
        ),
{
    let windows = str_eq(target, "x86_64-pc-windows-msvc") || str_eq(
        target,
        "aarch64-pc-windows-msvc",
    );
    let supported = windows || str_eq(target, "x86_64-unknown-linux-gnu") || str_eq(
        target,
        "aarch64-unknown-linux-gnu",
    ) || str_eq(target, "x86_64-apple-darwin") || str_eq(target, "aarch64-apple-darwin");
    if !supported {
        return Err(LaunchError::ResolutionFailed);
    }
    let mut name = String::from_str(logical);
    name.append("-");
    name.append(target);
    if windows {
        name.append(".exe");
    }
    Ok(name)
}

/// Turns the observed outcome of a launch attempt into the launcher's result:
/// a missing executable is a resolution failure, a refused process creation a
/// spawn failure, and a created process yields the handle with its id. The
/// spawn outcome is consulted only when the executable was found.
pub fn classify_launch(file_found: bool, spawned: Option<u32>) -> (r: Result<
    ChildHandle,
    LaunchError,
>)
    ensures
        !file_found ==> r == Err::<ChildHandle, LaunchError>(LaunchError::ResolutionFailed),
        file_found && spawned is None ==> r == Err::<ChildHandle, LaunchError>(
            LaunchError::SpawnFailed,
        ),
        file_found ==> (spawned matches Some(pid) ==> r == Ok::<ChildHandle, LaunchError>(
            ChildHandle { pid },
        )),
{
    if !file_found {
        return Err(LaunchError::ResolutionFailed);
    }
    match spawned {
        Some(pid) => Ok(ChildHandle { pid }),
        None => Err(LaunchError::SpawnFailed),
    }
}

} // verus!
