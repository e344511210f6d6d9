//! Path resolution and the store's failure kinds.
//!
//! The configuration lives in one fixed dotfile directly under the home
//! directory. Resolving that path is the only decision the store makes
//! before it touches the file system: a missing home directory is a failure
//! of its own kind, and every other failure comes from the file system
//! itself and is reported by the surrounding shell.

use vstd::prelude::*;
use vstd::string::StringExecFns;

verus! {

/// The ways an operation of the store can fail. The store itself only ever
/// decides `HomeMissing`; the other kinds classify file-system failures met
/// by the shell that performs the reads and writes.
#[derive(Clone, Copy, Debug, PartialEq, Eq, Structural)]
pub enum ConfigError {
    /// No home-directory value is set in the process environment.
    HomeMissing,
    /// The configuration file does not exist.
    FileNotFound,
    /// The configuration file could not be read as text.
    ReadFailed,
    /// The configuration file could not be created or written.
    WriteFailed,
    /// A directory could not be created.
    DirectoryCreateFailed,
}

/// The fixed suffix appended to the home directory to name the
/// configuration file.
pub open spec fn config_file_suffix() -> Seq<char> {
    "/.tinyconfig"@
}

/// Builds the configuration file's path from a home directory.
pub fn config_path(home: &str) -> (r: String)
    ensures
        r@ == home@ + config_file_suffix(),
{
    let mut p = String::from_str(home);
    p.append("/.tinyconfig");
    p
}

/// Resolves the configuration file's path from the process's home-directory
/// value, or reports that the value is unset: the one failure the store
/// decides on its own.
pub fn resolve_config_path(home: Option<&str>) -> (r: Result<String, ConfigError>)
    ensures
        match home {
            Some(h) => r matches Ok(p) && p@ == h@ + config_file_suffix(),
            None => r matches Err(e) && e == ConfigError::HomeMissing,
        },
{
    match home {
        Some(h) => Ok(config_path(h)),
        None => Err(ConfigError::HomeMissing),
    }
}

} // verus!
