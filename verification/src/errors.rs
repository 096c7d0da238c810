//! The typed failures a resolution or launch can report. Every failure is a
//! value returned to the caller; the engine never aborts the process.

use vstd::prelude::*;
use vstd::string::*;

verus! {

/// Why a resolution or launch attempt did not produce a running application.
#[derive(Clone, Debug)]
pub enum ResolveError {
    /// The expanded base folder of a folder search does not exist.
    FolderNotFound { folder: String },
    /// The recursive search found no file of the wanted name.
    NoMatchFound { exe_name: String, folder: String },
    /// The requested operation is not available on this host platform.
    UnsupportedPlatform { os_name: String },
    /// The external package query tool was missing, failed, or produced no
    /// usable output.
    ExternalQueryFailed { detail: String },
    /// A version string could not be parsed. Recorded for completeness: the
    /// engine absorbs this into the sentinel version rank instead of
    /// returning it, so a malformed version never excludes a candidate.
    VersionParseFailed { version: String },
    /// The path about to be launched no longer exists.
    PathMissingAtLaunch { app_name: String, path: String },
    /// The child process could not be spawned.
    SpawnFailed { app_name: String, detail: String },
}

/// The display message of each failure.
pub open spec fn message_spec(e: &ResolveError) -> Seq<char> {
    match e {
        ResolveError::FolderNotFound { folder } => "Base Folder '"@ + folder@
            + "' does not exist"@,
        ResolveError::NoMatchFound { exe_name, folder } => "No matches found for '"@ + exe_name@
            + "' using recursive search in folder '"@ + folder@ + "'"@,
        ResolveError::UnsupportedPlatform { os_name } => "Unsupported platform '"@ + os_name@
            + "'"@,
        ResolveError::ExternalQueryFailed { detail } => "External query failed: "@ + detail@,
        ResolveError::VersionParseFailed { version } => "Failed to parse the version string '"@
            + version@ + "'"@,
        ResolveError::PathMissingAtLaunch { app_name, path } => "App path does not exist for app '"@
            + app_name@ + "' and path '"@ + path@ + "'"@,
        ResolveError::SpawnFailed { app_name, detail } => "Failed to open '"@ + app_name@ + "': "@
            + detail@,
    }
}

impl ResolveError {
    /// Render the failure for display.
    pub fn message(&self) -> (r: String)
        ensures
            r@ == message_spec(self),
    {
        match self {
            ResolveError::FolderNotFound { folder } => {
                let mut m = "Base Folder '".to_owned();
                m.append(folder.as_str());
                m.append("' does not exist");
                proof {
                    assert(m@ =~= message_spec(self));
                }
                m
            },
            ResolveError::NoMatchFound { exe_name, folder } => {
                let mut m = "No matches found for '".to_owned();
                m.append(exe_name.as_str());
                m.append("' using recursive search in folder '");
                m.append(folder.as_str());
                m.append("'");
                proof {
                    assert(m@ =~= message_spec(self));
                }
                m
            },
            ResolveError::UnsupportedPlatform { os_name } => {
                let mut m = "Unsupported platform '".to_owned();
                m.append(os_name.as_str());
                m.append("'");
                proof {
                    assert(m@ =~= message_spec(self));
                }
                m
            },
            ResolveError::ExternalQueryFailed { detail } => {
                let mut m = "External query failed: ".to_owned();
                m.append(detail.as_str());
                proof {
                    assert(m@ =~= message_spec(self));
                }
                m
            },
            ResolveError::VersionParseFailed { version } => {
                let mut m = "Failed to parse the version string '".to_owned();
                m.append(version.as_str());
                m.append("'");
                proof {
                    assert(m@ =~= message_spec(self));
                }
                m
            },
            ResolveError::PathMissingAtLaunch { app_name, path } => {
                let mut m = "App path does not exist for app '".to_owned();
                m.append(app_name.as_str());
                m.append("' and path '");
                m.append(path.as_str());
                m.append("'");
                proof {
                    assert(m@ =~= message_spec(self));
                }
                m
            },
            ResolveError::SpawnFailed { app_name, detail } => {
                let mut m = "Failed to open '".to_owned();
                m.append(app_name.as_str());
                m.append("': ");
                m.append(detail.as_str());
                proof {
                    assert(m@ =~= message_spec(self));
                }
                m
            },
        }
    }
}

} // verus!
