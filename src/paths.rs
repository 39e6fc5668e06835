//! Filesystem locations of the daemon, under the XDG base directories.
//!
//! Where the base directories lie depends on the environment, so nothing is
//! promised of those paths beyond their construction: a file name is joined
//! onto the prefixed state directory.
use std::path::PathBuf;
use vstd::prelude::*;

verus! {

#[verifier::external_type_specification]
#[verifier::external_body]
pub struct ExPathBuf(std::path::PathBuf);

#[verifier::external_type_specification]
#[verifier::external_body]
pub struct ExBaseDirectories(xdg::BaseDirectories);

/// Prefix of the daemon's directories.
pub const APP_PREFIX: &'static str = "voice-controllm";

/// File name of the daemon's Unix socket.
pub const SOCKET_FILE: &'static str = "daemon.sock";

/// File name of the daemon's PID file.
pub const PID_FILE: &'static str = "daemon.pid";

/// Failure to locate a base directory (no HOME could be found).
#[derive(Debug, Clone, Copy, PartialEq, Eq, Structural)]
pub enum PathError {
    StateDirUnavailable,
    ConfigDirUnavailable,
    DataDirUnavailable,
}

impl PathError {
    /// Human-readable description of the error.
    pub fn message(&self) -> (r: String)
        ensures
            *self == PathError::StateDirUnavailable ==> r@ == "Failed to determine XDG state directory (HOME not set?)"@,
            *self == PathError::ConfigDirUnavailable ==> r@ == "Could not determine config directory (HOME not set?)"@,
            *self == PathError::DataDirUnavailable ==> r@ == "Could not determine data directory (HOME not set?)"@,
    {
        let s = match self {
            PathError::StateDirUnavailable => "Failed to determine XDG state directory (HOME not set?)",
            PathError::ConfigDirUnavailable => "Could not determine config directory (HOME not set?)",
            PathError::DataDirUnavailable => "Could not determine data directory (HOME not set?)",
        };
        s.to_owned()
    }
}

/// Relies on xdg::BaseDirectories::with_prefix: reads the XDG variables of the
/// environment, so nothing is promised of the result.
#[verifier::external_body]
pub(crate) fn base_directories(prefix: &str) -> (r: xdg::BaseDirectories) {
    xdg::BaseDirectories::with_prefix(prefix)
}

/// Relies on xdg::BaseDirectories::get_state_home: `None` only without HOME.
#[verifier::external_body]
pub(crate) fn state_home(dirs: &xdg::BaseDirectories) -> (r: Option<PathBuf>) {
    dirs.get_state_home()
}

/// Relies on xdg::BaseDirectories::get_config_home: `None` only without HOME.
#[verifier::external_body]
pub(crate) fn config_home(dirs: &xdg::BaseDirectories) -> (r: Option<PathBuf>) {
    dirs.get_config_home()
}

/// Relies on xdg::BaseDirectories::get_data_home: `None` only without HOME.
#[verifier::external_body]
pub(crate) fn data_home(dirs: &xdg::BaseDirectories) -> (r: Option<PathBuf>) {
    dirs.get_data_home()
}

/// Relies on std::path::Path::join: the base with one more component.
#[verifier::external_body]
pub(crate) fn path_join(base: &PathBuf, name: &str) -> (r: PathBuf) {
    base.join(name)
}

/// Relies on std::path::Path::exists: whether something is at the path now,
/// which depends on the disk, so nothing is promised.
#[verifier::external_body]
pub(crate) fn path_exists(path: &PathBuf) -> (r: bool) {
    path.exists()
}

/// The prefixed XDG state directory joined with `file`.
fn state_file(file: &str) -> (r: Result<PathBuf, PathError>)
    ensures
        r is Err ==> r == Err::<PathBuf, PathError>(PathError::StateDirUnavailable),
{
    let dirs = base_directories(APP_PREFIX);
    match state_home(&dirs) {
        Some(dir) => Ok(path_join(&dir, file)),
        None => Err(PathError::StateDirUnavailable),
    }
}

/// Daemon Unix socket path: `daemon.sock` in the prefixed XDG state directory.
pub fn socket_path() -> (r: Result<PathBuf, PathError>)
    ensures
        r is Err ==> r == Err::<PathBuf, PathError>(PathError::StateDirUnavailable),
{
    state_file(SOCKET_FILE)
}

/// Daemon PID file path: `daemon.pid` in the prefixed XDG state directory.
pub fn pid_path() -> (r: Result<PathBuf, PathError>)
    ensures
        r is Err ==> r == Err::<PathBuf, PathError>(PathError::StateDirUnavailable),
{
    state_file(PID_FILE)
}

/// The prefixed XDG configuration directory.
pub fn config_dir() -> (r: Result<PathBuf, PathError>)
    ensures
        r is Err ==> r == Err::<PathBuf, PathError>(PathError::ConfigDirUnavailable),
{
    let dirs = base_directories(APP_PREFIX);
    match config_home(&dirs) {
        Some(dir) => Ok(dir),
        None => Err(PathError::ConfigDirUnavailable),
    }
}

/// The prefixed XDG data directory.
pub fn data_dir() -> (r: Result<PathBuf, PathError>)
    ensures
        r is Err ==> r == Err::<PathBuf, PathError>(PathError::DataDirUnavailable),
{
    let dirs = base_directories(APP_PREFIX);
    match data_home(&dirs) {
        Some(dir) => Ok(dir),
        None => Err(PathError::DataDirUnavailable),
    }
}

/// Socket and PID file locations of a daemon instance.
pub struct DaemonPaths {
    pub socket: PathBuf,
    pub pid: PathBuf,
}

impl DaemonPaths {
    /// Paths under the XDG state directory.
    pub fn from_xdg() -> (r: Result<DaemonPaths, PathError>)
        ensures
            r is Err ==> r == Err::<DaemonPaths, PathError>(PathError::StateDirUnavailable),
    {
        let socket = socket_path()?;
        let pid = pid_path()?;
        Ok(DaemonPaths { socket, pid })
    }
}

} // verus!
