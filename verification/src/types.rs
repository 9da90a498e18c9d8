//! Shared value types: the source tag, operation result records, the
//! installed-package record, the error union, and the small model of a
//! child-process run (request, captured output, outcome).

use vstd::prelude::*;
use vstd::string::StringExecFns;

verus! {

/// Which of the two package managers a request is addressed to. Supplied by
/// the caller on every call, never inferred.
#[derive(Clone, Copy, Debug, PartialEq, Eq, Structural)]
pub enum PackageSource {
    Chocolatey,
    Winget,
}

/// Lower-case text tag of a source.
pub open spec fn source_label(s: PackageSource) -> Seq<char> {
    match s {
        PackageSource::Chocolatey => "chocolatey"@,
        PackageSource::Winget => "winget"@,
    }
}

impl PackageSource {
    /// The tag used whenever a source is rendered as text.
    pub fn label(&self) -> (r: String)
        ensures
            r@ == source_label(*self),
    {
        match self {
            PackageSource::Chocolatey => "chocolatey".to_owned(),
            PackageSource::Winget => "winget".to_owned(),
        }
    }
}

/// A fixed, non-interactive command line for the host to run: the backend
/// executable and its argument template.
pub struct CommandRequest {
    pub program: String,
    pub args: Vec<String>,
}

/// Everything captured from one child process that ran to completion:
/// whether it exited successfully, and its full standard output and
/// standard error text.
pub struct ProcessOutput {
    pub success: bool,
    pub stdout: String,
    pub stderr: String,
}

/// What the host reports back after being handed a `CommandRequest`.
pub enum CommandOutcome {
    /// The process spawned but could not be run to completion; carries the
    /// operating system's error text.
    Failed(String),
    /// The process ran to completion.
    Completed(ProcessOutput),
}

/// Result of a package installation. Failures of the underlying tool are
/// encoded here, never raised through the error union.
#[derive(Clone, Debug)]
pub struct InstallResult {
    pub success: bool,
    pub package_id: String,
    pub version: Option<String>,
    pub output: String,
    pub error: Option<String>,
}

impl InstallResult {
    /// The record invariant: `error` is set exactly when the operation did
    /// not succeed.
    pub open spec fn wf(self) -> bool {
        self.error is Some <==> !self.success
    }
}

/// Result of a package uninstallation.
#[derive(Clone, Debug)]
pub struct UninstallResult {
    pub success: bool,
    pub package_id: String,
    pub output: String,
    pub error: Option<String>,
}

impl UninstallResult {
    /// The record invariant: `error` is set exactly when the operation did
    /// not succeed.
    pub open spec fn wf(self) -> bool {
        self.error is Some <==> !self.success
    }
}

/// Result of a package upgrade.
#[derive(Clone, Debug)]
pub struct UpgradeResult {
    pub success: bool,
    pub package_id: String,
    pub old_version: Option<String>,
    pub new_version: Option<String>,
    pub output: String,
    pub error: Option<String>,
}

impl UpgradeResult {
    /// The record invariant: `error` is set exactly when the operation did
    /// not succeed.
    pub open spec fn wf(self) -> bool {
        self.error is Some <==> !self.success
    }
}

/// One installed package as reported by a backend's listing subcommand.
#[derive(Clone, Debug)]
pub struct InstalledPackage {
    pub id: String,
    pub version: String,
    pub source: PackageSource,
    pub name: Option<String>,
}

/// Failures that occur before or independent of a completed process run.
/// A non-zero exit from a process that did run is not represented here; it
/// is encoded in the result records instead.
#[derive(Clone, Debug)]
pub enum PackageError {
    NotFound(String),
    CommandFailed(String),
    PermissionDenied(String),
    AlreadyInstalled(String),
    NotInstalled(String),
    Unknown(String),
}

/// The flattened text of an error, used only at the outermost boundary.
pub open spec fn error_text(e: PackageError) -> Seq<char> {
    match e {
        PackageError::NotFound(m) => "Package not found: "@ + m@,
        PackageError::CommandFailed(m) => "Command failed: "@ + m@,
        PackageError::PermissionDenied(m) => "Permission denied: "@ + m@,
        PackageError::AlreadyInstalled(m) => "Already installed: "@ + m@,
        PackageError::NotInstalled(m) => "Not installed: "@ + m@,
        PackageError::Unknown(m) => "Unknown error: "@ + m@,
    }
}

impl PackageError {
    /// Flatten the typed union to descriptive text. Internal callers keep
    /// the union; only the outermost presentation hop uses this.
    pub fn describe(&self) -> (r: String)
        ensures
            r@ == error_text(*self),
    {
        match self {
            PackageError::NotFound(m) => "Package not found: ".to_owned().concat(m.as_str()),
            PackageError::CommandFailed(m) => "Command failed: ".to_owned().concat(m.as_str()),
            PackageError::PermissionDenied(m) => "Permission denied: ".to_owned().concat(
                m.as_str(),
            ),
            PackageError::AlreadyInstalled(m) => "Already installed: ".to_owned().concat(
                m.as_str(),
            ),
            PackageError::NotInstalled(m) => "Not installed: ".to_owned().concat(m.as_str()),
            PackageError::Unknown(m) => "Unknown error: ".to_owned().concat(m.as_str()),
        }
    }
}

/// The version recorded for `id` in a listing, if any: the version of the
/// first record whose identifier equals `id`.
pub open spec fn spec_version_in_list(packages: Seq<InstalledPackage>, id: Seq<char>) -> Option<
    Seq<char>,
>
    decreases packages.len(),
{
    if packages.len() == 0 {
        None
    } else if packages[0].id@ == id {
        Some(packages[0].version@)
    } else {
        spec_version_in_list(packages.drop_first(), id)
    }
}

/// Look a package identifier up in a freshly parsed listing and hand back
/// its recorded version, if present. Used by upgrades to fill
/// `old_version` before the real upgrade subcommand runs.
pub fn version_in_list(packages: &Vec<InstalledPackage>, package_id: &str) -> (r: Option<String>)
    ensures
        r.deep_view() == spec_version_in_list(packages@, package_id@),
{
    let wanted: String = package_id.to_owned();
    let n = packages.len();
    let mut i: usize = 0;
    proof {
        assert(packages@.skip(0) =~= packages@);
    }
    while i < n
        invariant
            n == packages.len(),
            i <= n,
            wanted@ == package_id@,
            spec_version_in_list(packages@.skip(i as int), package_id@) == spec_version_in_list(
                packages@,
                package_id@,
            ),
        decreases n - i,
    {
        proof {
            assert(packages@.skip(i as int)[0] == packages@[i as int]);
            assert(packages@.skip(i as int).drop_first() =~= packages@.skip(i as int + 1));
        }
        if packages[i].id == wanted {
            let v = packages[i].version.clone();
            return Some(v);
        }
        i = i + 1;
    }
    proof {
        assert(packages@.skip(n as int) =~= Seq::<InstalledPackage>::empty());
    }
    None
}

} // verus!
