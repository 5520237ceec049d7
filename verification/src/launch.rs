//! Locating the backend executable and forming its command line.
//!
//! The backend binary is looked for in two places relative to the directory
//! that holds the application's own executable: directly beside it (the
//! portable and development layout) and inside a `resources` subdirectory
//! (the packaged layout). The sibling candidate wins whenever it exists.
//! The chosen executable is invoked with exactly `--host 0.0.0.0` and
//! `--port <N>`, `N` being the decimal form of the requested port.
//!
//! The library never touches the filesystem: the caller probes the candidate
//! paths and hands the findings over as a [`FsView`]; [`plan_start`] turns
//! them into either a [`LaunchCommand`] or a [`BackendError`].

use vstd::prelude::*;
use vstd::string::*;

use crate::decimal::{decimal, u16_to_decimal};
use crate::errors::BackendError;

verus! {

/// The file name of the backend binary.
pub open spec fn backend_file_name() -> Seq<char> {
    "smartmart-backend.exe"@
}

/// The subdirectory searched in the packaged layout.
pub open spec fn resources_dir_name() -> Seq<char> {
    "resources"@
}

/// The path separator the library writes between joined components.
pub open spec fn path_sep() -> Seq<char> {
    "/"@
}

/// A directory path with one more component appended.
pub open spec fn path_join(dir: Seq<char>, name: Seq<char>) -> Seq<char> {
    dir + path_sep() + name
}

/// The first candidate: the backend binary beside the application.
pub open spec fn sibling_candidate(exe_dir: Seq<char>) -> Seq<char> {
    path_join(exe_dir, backend_file_name())
}

/// The second candidate: the backend binary under `resources`.
pub open spec fn resources_candidate(exe_dir: Seq<char>) -> Seq<char> {
    path_join(path_join(exe_dir, resources_dir_name()), backend_file_name())
}

/// Joins a directory and a file name into one path string.
pub fn join_path(dir: &str, name: &str) -> (r: String)
    ensures
        r@ == path_join(dir@, name@),
{
    let mut s = String::from_str(dir);
    s.append("/");
    s.append(name);
    s
}

/// The two candidate paths for the backend binary, in priority order:
/// the sibling layout first, the `resources` layout second.
pub fn candidate_paths(exe_dir: &str) -> (r: Vec<String>)
    ensures
        r@.len() == 2,
        r@[0]@ == sibling_candidate(exe_dir@),
        r@[1]@ == resources_candidate(exe_dir@),
{
    let sibling = join_path(exe_dir, "smartmart-backend.exe");
    let resources_dir = join_path(exe_dir, "resources");
    let resources = join_path(resources_dir.as_str(), "smartmart-backend.exe");
    let mut r: Vec<String> = Vec::new();
    r.push(sibling);
    r.push(resources);
    r
}

/// The argument list the backend is launched with.
pub open spec fn launch_args_spec(port: u16) -> Seq<Seq<char>> {
    seq!["--host"@, "0.0.0.0"@, "--port"@, decimal(port as nat)]
}

/// Builds the fixed argument list binding the backend to all interfaces and
/// to the requested port.
pub fn launch_args(port: u16) -> (r: Vec<String>)
    ensures
        r@.len() == 4,
        forall|i: int| 0 <= i < 4 ==> r@[i]@ == launch_args_spec(port)[i],
{
    let mut r: Vec<String> = Vec::new();
    r.push(String::from_str("--host"));
    r.push(String::from_str("0.0.0.0"));
    r.push(String::from_str("--port"));
    r.push(u16_to_decimal(port));
    r
}

/// Everything the operating system needs to spawn the backend: the program
/// path and its arguments.
#[derive(Debug)]
pub struct LaunchCommand {
    pub program: String,
    pub args: Vec<String>,
}

impl LaunchCommand {
    /// The command launches `program` with the fixed argument list for `port`.
    pub open spec fn is_launch_of(&self, program: Seq<char>, port: u16) -> bool {
        &&& self.program@ == program
        &&& self.args@.len() == 4
        &&& forall|i: int| 0 <= i < 4 ==> self.args@[i]@ == launch_args_spec(port)[i]
    }
}

/// What the caller learned from the filesystem before asking for a start:
/// the directory of the application's own executable (or, in the `Err`
/// case, why it could not be determined) and whether each candidate file
/// exists.
pub struct FsView {
    pub exe_dir: Result<String, String>,
    pub sibling_exists: bool,
    pub resources_exists: bool,
}

/// The path `plan_start` picks, when the filesystem offers one: the sibling
/// candidate takes priority over the `resources` candidate.
pub open spec fn resolved_path(exe_dir: Seq<char>, sibling: bool, resources: bool) -> Option<
    Seq<char>,
> {
    if sibling {
        Some(sibling_candidate(exe_dir))
    } else if resources {
        Some(resources_candidate(exe_dir))
    } else {
        None
    }
}

/// Decides a start request: picks the backend executable out of the two
/// candidate locations, sibling first, and forms its command line.
///
/// Succeeds if and only if the executable directory is known and at least
/// one candidate exists; otherwise the error says which stage failed, a
/// not-found error carrying both candidate paths in probe order.
pub fn plan_start(port: u16, fs: &FsView) -> (r: Result<LaunchCommand, BackendError>)
    ensures
        r is Ok <==> (fs.exe_dir is Ok && (fs.sibling_exists || fs.resources_exists)),
        fs.exe_dir is Ok && (fs.sibling_exists || fs.resources_exists) ==> (r->Ok_0).is_launch_of(
            resolved_path(fs.exe_dir->Ok_0@, fs.sibling_exists, fs.resources_exists)->0,
            port,
        ),
        fs.exe_dir is Err ==> ({
            &&& r->Err_0 is PathResolution
            &&& (r->Err_0)->PathResolution_reason@ == fs.exe_dir->Err_0@
        }),
        fs.exe_dir is Ok && !fs.sibling_exists && !fs.resources_exists ==> ({
            &&& r->Err_0 is BackendNotFound
            &&& (r->Err_0)->BackendNotFound_tried@.len() == 2
            &&& (r->Err_0)->BackendNotFound_tried@[0]@ == sibling_candidate(fs.exe_dir->Ok_0@)
            &&& (r->Err_0)->BackendNotFound_tried@[1]@ == resources_candidate(fs.exe_dir->Ok_0@)
        }),
{
    let exe_dir = match &fs.exe_dir {
        Ok(dir) => dir,
        Err(reason) => {
            return Err(BackendError::PathResolution { reason: reason.clone() });
        },
    };
    let mut candidates = candidate_paths(exe_dir.as_str());
    if fs.sibling_exists {
        let program = candidates.remove(0);
        Ok(LaunchCommand { program, args: launch_args(port) })
    } else if fs.resources_exists {
        let program = candidates.remove(1);
        Ok(LaunchCommand { program, args: launch_args(port) })
    } else {
        Err(BackendError::BackendNotFound { tried: candidates })
    }
}

} // verus!
