//! The Chocolatey backend: fixed argument templates for its command-line
//! tool, the parser for its delimiter-based listing output, and the
//! decision functions that turn a presence flag and a captured process
//! outcome into a normalized result or error.
//!
//! The host program spawns the processes: it asks for a [`CommandRequest`],
//! runs it, and hands the [`CommandOutcome`] back. Every decision either
//! side of that spawn is verified here.

use vstd::prelude::*;
use crate::text::split_on;
use crate::text::split_seq;
use crate::text::trim_of;
use crate::text::trimmed;
use crate::types::CommandOutcome;
use crate::types::CommandRequest;
use crate::types::InstallResult;
use crate::types::InstalledPackage;
use crate::types::PackageError;
use crate::types::PackageSource;
use crate::types::ProcessOutput;
use crate::types::UninstallResult;
use crate::types::UpgradeResult;
use crate::version::spec_version_in_output;
use crate::version::version_in_output;

verus! {

/// Chocolatey package manager wrapper; stateless beyond the name of its
/// executable.
pub struct ChocolateyManager {
    exe_path: String,
}

/// Argument template of the presence probe.
pub open spec fn choco_probe_args() -> Seq<Seq<char>> {
    seq!["--version"@]
}

/// Argument template of an install.
pub open spec fn choco_install_args(id: Seq<char>) -> Seq<Seq<char>> {
    seq!["install"@, id, "-y"@, "--no-progress"@]
}

/// Argument template of an uninstall.
pub open spec fn choco_uninstall_args(id: Seq<char>) -> Seq<Seq<char>> {
    seq!["uninstall"@, id, "-y"@]
}

/// Argument template of an upgrade.
pub open spec fn choco_upgrade_args(id: Seq<char>) -> Seq<Seq<char>> {
    seq!["upgrade"@, id, "-y"@, "--no-progress"@]
}

/// Argument template of the listing subcommand.
pub open spec fn choco_list_args() -> Seq<Seq<char>> {
    seq!["list"@, "--local-only"@, "--limit-output"@]
}

/// The error every operation returns when the backend binary is absent.
pub open spec fn choco_missing(e: PackageError) -> bool {
    e matches PackageError::NotFound(m) && m@ == "Chocolatey is not installed"@
}

/// The version heuristic with Chocolatey's success marker.
pub open spec fn choco_version_of(out: Seq<char>) -> Option<Seq<char>> {
    spec_version_in_output(out, "successfully installed"@)
}

/// The id/version fields of one delimiter-formatted list line: the first
/// two `|`-separated fields, trimmed, provided the line has at least two.
pub open spec fn choco_line_fields(line: Seq<char>) -> Option<(Seq<char>, Seq<char>)> {
    let parts = split_seq(line, '|');
    if parts.len() >= 2 {
        Some((trim_of(parts[0]), trim_of(parts[1])))
    } else {
        None
    }
}

/// The id/version pairs of a sequence of list lines, in order; lines
/// without fields are dropped.
pub open spec fn choco_records_of_lines(lines: Seq<Seq<char>>) -> Seq<(Seq<char>, Seq<char>)>
    decreases lines.len(),
{
    if lines.len() == 0 {
        Seq::<(Seq<char>, Seq<char>)>::empty()
    } else {
        match choco_line_fields(lines[0]) {
            Some(f) => seq![f] + choco_records_of_lines(lines.drop_first()),
            None => choco_records_of_lines(lines.drop_first()),
        }
    }
}

/// The id/version pairs parsed from full listing output.
pub open spec fn choco_records(out: Seq<char>) -> Seq<(Seq<char>, Seq<char>)> {
    choco_records_of_lines(split_seq(out, '\n'))
}

/// How one parsed package record corresponds to an id/version pair: the
/// source tag is Chocolatey and the display name repeats the identifier.
pub open spec fn choco_package_matches(p: InstalledPackage, f: (Seq<char>, Seq<char>)) -> bool {
    &&& p.id@ == f.0
    &&& p.version@ == f.1
    &&& p.source == PackageSource::Chocolatey
    &&& (p.name matches Some(n) && n@ == f.0)
}

/// Law: a delimiter-formatted list line with at least two fields yields
/// exactly its first two fields, trimmed, as id and version — every later
/// field is ignored — and a line with fewer than two fields yields no
/// record at all.
pub proof fn lemma_delimiter_line_fields(line: Seq<char>)
    ensures
        split_seq(line, '|').len() >= 2 ==> choco_line_fields(line) == Some(
            (trim_of(split_seq(line, '|')[0]), trim_of(split_seq(line, '|')[1])),
        ),
        split_seq(line, '|').len() < 2 ==> choco_line_fields(line) is None,
{
}

impl ChocolateyManager {
    /// The executable this backend invokes.
    pub closed spec fn exe(self) -> Seq<char> {
        self.exe_path@
    }

    pub fn new() -> (r: Self)
        ensures
            r.exe() == "choco"@,
    {
        ChocolateyManager { exe_path: "choco".to_owned() }
    }

    /// The presence probe: `choco --version`. Presence means the probe
    /// process can be spawned at all, independent of its exit code.
    pub fn probe_request(&self) -> (r: CommandRequest)
        ensures
            r.program@ == self.exe(),
            r.args.deep_view() == choco_probe_args(),
    {
        let mut args: Vec<String> = Vec::new();
        args.push("--version".to_owned());
        proof {
            assert(args.deep_view() =~= choco_probe_args());
        }
        CommandRequest { program: self.exe_path.clone(), args }
    }

    /// The install command for `package_id`, or NotFound when the probe
    /// found no backend — in that case no command is issued at all.
    pub fn install_request(&self, package_id: &str, present: bool) -> (r: Result<
        CommandRequest,
        PackageError,
    >)
        ensures
            present ==> (r matches Ok(req) && req.program@ == self.exe()
                && req.args.deep_view() == choco_install_args(package_id@)),
            !present ==> (r matches Err(e) && choco_missing(e)),
    {
        if !present {
            return Err(PackageError::NotFound("Chocolatey is not installed".to_owned()));
        }
        let mut args: Vec<String> = Vec::new();
        args.push("install".to_owned());
        args.push(package_id.to_owned());
        args.push("-y".to_owned());
        args.push("--no-progress".to_owned());
        proof {
            assert(args.deep_view() =~= choco_install_args(package_id@));
        }
        Ok(CommandRequest { program: self.exe_path.clone(), args })
    }

    /// The uninstall command for `package_id`, or NotFound when the probe
    /// found no backend.
    pub fn uninstall_request(&self, package_id: &str, present: bool) -> (r: Result<
        CommandRequest,
        PackageError,
    >)
        ensures
            present ==> (r matches Ok(req) && req.program@ == self.exe()
                && req.args.deep_view() == choco_uninstall_args(package_id@)),
            !present ==> (r matches Err(e) && choco_missing(e)),
    {
        if !present {
            return Err(PackageError::NotFound("Chocolatey is not installed".to_owned()));
        }
        let mut args: Vec<String> = Vec::new();
        args.push("uninstall".to_owned());
        args.push(package_id.to_owned());
        args.push("-y".to_owned());
        proof {
            assert(args.deep_view() =~= choco_uninstall_args(package_id@));
        }
        Ok(CommandRequest { program: self.exe_path.clone(), args })
    }

    /// The upgrade command for `package_id`, or NotFound when the probe
    /// found no backend. The command is the same whether or not the
    /// pre-upgrade listing knew the identifier.
    pub fn upgrade_request(&self, package_id: &str, present: bool) -> (r: Result<
        CommandRequest,
        PackageError,
    >)
        ensures
            present ==> (r matches Ok(req) && req.program@ == self.exe()
                && req.args.deep_view() == choco_upgrade_args(package_id@)),
            !present ==> (r matches Err(e) && choco_missing(e)),
    {
        if !present {
            return Err(PackageError::NotFound("Chocolatey is not installed".to_owned()));
        }
        let mut args: Vec<String> = Vec::new();
        args.push("upgrade".to_owned());
        args.push(package_id.to_owned());
        args.push("-y".to_owned());
        args.push("--no-progress".to_owned());
        proof {
            assert(args.deep_view() =~= choco_upgrade_args(package_id@));
        }
        Ok(CommandRequest { program: self.exe_path.clone(), args })
    }

    /// The listing command, or NotFound when the probe found no backend.
    pub fn list_request(&self, present: bool) -> (r: Result<CommandRequest, PackageError>)
        ensures
            present ==> (r matches Ok(req) && req.program@ == self.exe()
                && req.args.deep_view() == choco_list_args()),
            !present ==> (r matches Err(e) && choco_missing(e)),
    {
        if !present {
            return Err(PackageError::NotFound("Chocolatey is not installed".to_owned()));
        }
        let mut args: Vec<String> = Vec::new();
        args.push("list".to_owned());
        args.push("--local-only".to_owned());
        args.push("--limit-output".to_owned());
        proof {
            assert(args.deep_view() =~= choco_list_args());
        }
        Ok(CommandRequest { program: self.exe_path.clone(), args })
    }

    /// Best-effort version extraction from command output; absence of a
    /// match yields no version, never an error.
    pub fn parse_version_from_output(output: &str) -> (r: Option<String>)
        ensures
            r.deep_view() == choco_version_of(output@),
    {
        version_in_output(output, "successfully installed")
    }

    /// Parse listing output: one record per `id|version|...` line with at
    /// least two fields; every other line is silently skipped.
    pub fn parse_list_output(output: &str) -> (r: Vec<InstalledPackage>)
        ensures
            r@.len() == choco_records(output@).len(),
            forall|i: int|
                0 <= i < r@.len() ==> choco_package_matches(
                    #[trigger] r@[i],
                    choco_records(output@)[i],
                ),
    {
        let lines = split_on(output, '\n');
        let n = lines.len();
        let mut out: Vec<InstalledPackage> = Vec::new();
        let ghost mut done: Seq<(Seq<char>, Seq<char>)> = Seq::empty();
        let mut i: usize = 0;
        proof {
            assert(lines.deep_view().skip(0) =~= lines.deep_view());
            assert(done + choco_records_of_lines(lines.deep_view()) =~= choco_records_of_lines(
                lines.deep_view(),
            ));
        }
        while i < n
            invariant
                n == lines@.len(),
                i <= n,
                lines.deep_view() == split_seq(output@, '\n'),
                choco_records(output@) == done + choco_records_of_lines(
                    lines.deep_view().skip(i as int),
                ),
                out@.len() == done.len(),
                forall|k: int|
                    0 <= k < done.len() ==> choco_package_matches(#[trigger] out@[k], done[k]),
            decreases n - i,
        {
            proof {
                assert(lines.deep_view().skip(i as int)[0] == lines.deep_view()[i as int]);
                assert(lines.deep_view().skip(i as int).drop_first() =~= lines.deep_view().skip(
                    i as int + 1,
                ));
            }
            let parts = split_on(lines[i].as_str(), '|');
            if parts.len() >= 2 {
                let id = trimmed(parts[0].as_str());
                let version = trimmed(parts[1].as_str());
                let name = id.clone();
                let ghost f = (id@, version@);
                let ghost done0 = done;
                out.push(
                    InstalledPackage {
                        id,
                        version,
                        source: PackageSource::Chocolatey,
                        name: Some(name),
                    },
                );
                proof {
                    assert(parts.deep_view()[0] == split_seq(lines.deep_view()[i as int], '|')[0]);
                    assert(parts.deep_view()[1] == split_seq(lines.deep_view()[i as int], '|')[1]);
                    assert(choco_line_fields(lines.deep_view()[i as int]) == Some(f));
                    done = done.push(f);
                    assert(done0 + (seq![f] + choco_records_of_lines(
                        lines.deep_view().skip(i as int + 1),
                    )) =~= done + choco_records_of_lines(lines.deep_view().skip(i as int + 1)));
                }
            } else {
                proof {
                    assert(choco_line_fields(lines.deep_view()[i as int]) is None);
                }
            }
            i = i + 1;
        }
        proof {
            assert(lines.deep_view().skip(n as int) =~= Seq::<Seq<char>>::empty());
            assert(done + choco_records_of_lines(Seq::<Seq<char>>::empty()) =~= done);
        }
        out
    }

    /// Turn a captured install outcome into the normalized record: success
    /// mirrors the exit status, `output` keeps the full standard output,
    /// `error` carries standard error exactly when the operation failed,
    /// and the version is the heuristic's best effort.
    pub fn complete_install(&self, package_id: &str, outcome: CommandOutcome) -> (r: Result<
        InstallResult,
        PackageError,
    >)
        ensures
            (outcome matches CommandOutcome::Failed(m) ==> (r matches Err(e)
                && e matches PackageError::CommandFailed(em) && em@ == m@)),
            (outcome matches CommandOutcome::Completed(out) ==> (r matches Ok(res) && {
                &&& res.success == out.success
                &&& res.package_id@ == package_id@
                &&& res.version.deep_view() == choco_version_of(out.stdout@)
                &&& res.output@ == out.stdout@
                &&& res.error.deep_view() == (if out.success {
                    Option::<Seq<char>>::None
                } else {
                    Some(out.stderr@)
                })
                &&& res.wf()
            })),
    {
        match outcome {
            CommandOutcome::Failed(m) => Err(PackageError::CommandFailed(m)),
            CommandOutcome::Completed(out) => {
                let ProcessOutput { success, stdout, stderr } = out;
                let version = Self::parse_version_from_output(stdout.as_str());
                let error = if success {
                    None
                } else {
                    Some(stderr)
                };
                Ok(
                    InstallResult {
                        success,
                        package_id: package_id.to_owned(),
                        version,
                        output: stdout,
                        error,
                    },
                )
            },
        }
    }

    /// Turn a captured uninstall outcome into the normalized record.
    pub fn complete_uninstall(&self, package_id: &str, outcome: CommandOutcome) -> (r: Result<
        UninstallResult,
        PackageError,
    >)
        ensures
            (outcome matches CommandOutcome::Failed(m) ==> (r matches Err(e)
                && e matches PackageError::CommandFailed(em) && em@ == m@)),
            (outcome matches CommandOutcome::Completed(out) ==> (r matches Ok(res) && {
                &&& res.success == out.success
                &&& res.package_id@ == package_id@
                &&& res.output@ == out.stdout@
                &&& res.error.deep_view() == (if out.success {
                    Option::<Seq<char>>::None
                } else {
                    Some(out.stderr@)
                })
                &&& res.wf()
            })),
    {
        match outcome {
            CommandOutcome::Failed(m) => Err(PackageError::CommandFailed(m)),
            CommandOutcome::Completed(out) => {
                let ProcessOutput { success, stdout, stderr } = out;
                let error = if success {
                    None
                } else {
                    Some(stderr)
                };
                Ok(
                    UninstallResult {
                        success,
                        package_id: package_id.to_owned(),
                        output: stdout,
                        error,
                    },
                )
            },
        }
    }

    /// Turn a captured upgrade outcome into the normalized record.
    /// `old_version` is whatever the pre-upgrade listing knew; it is
    /// recorded unchanged, unset or not.
    pub fn complete_upgrade(
        &self,
        package_id: &str,
        old_version: Option<String>,
        outcome: CommandOutcome,
    ) -> (r: Result<UpgradeResult, PackageError>)
        ensures
            (outcome matches CommandOutcome::Failed(m) ==> (r matches Err(e)
                && e matches PackageError::CommandFailed(em) && em@ == m@)),
            (outcome matches CommandOutcome::Completed(out) ==> (r matches Ok(res) && {
                &&& res.success == out.success
                &&& res.package_id@ == package_id@
                &&& res.old_version == old_version
                &&& res.new_version.deep_view() == choco_version_of(out.stdout@)
                &&& res.output@ == out.stdout@
                &&& res.error.deep_view() == (if out.success {
                    Option::<Seq<char>>::None
                } else {
                    Some(out.stderr@)
                })
                &&& res.wf()
            })),
    {
        match outcome {
            CommandOutcome::Failed(m) => Err(PackageError::CommandFailed(m)),
            CommandOutcome::Completed(out) => {
                let ProcessOutput { success, stdout, stderr } = out;
                let new_version = Self::parse_version_from_output(stdout.as_str());
                let error = if success {
                    None
                } else {
                    Some(stderr)
                };
                Ok(
                    UpgradeResult {
                        success,
                        package_id: package_id.to_owned(),
                        old_version,
                        new_version,
                        output: stdout,
                        error,
                    },
                )
            },
        }
    }

    /// Turn a captured listing outcome into package records, or
    /// CommandFailed carrying standard error when the listing subcommand
    /// itself could not be run or exited non-zero.
    pub fn complete_list(&self, outcome: CommandOutcome) -> (r: Result<
        Vec<InstalledPackage>,
        PackageError,
    >)
        ensures
            (outcome matches CommandOutcome::Failed(m) ==> (r matches Err(e)
                && e matches PackageError::CommandFailed(em) && em@ == m@)),
            (outcome matches CommandOutcome::Completed(out) ==> {
                &&& (!out.success ==> (r matches Err(e) && e matches PackageError::CommandFailed(em)
                    && em@ == out.stderr@))
                &&& (out.success ==> (r matches Ok(pkgs) && pkgs@.len() == choco_records(
                    out.stdout@,
                ).len() && (forall|i: int|
                    0 <= i < pkgs@.len() ==> choco_package_matches(
                        #[trigger] pkgs@[i],
                        choco_records(out.stdout@)[i],
                    ))))
            }),
    {
        match outcome {
            CommandOutcome::Failed(m) => Err(PackageError::CommandFailed(m)),
            CommandOutcome::Completed(out) => {
                if !out.success {
                    return Err(PackageError::CommandFailed(out.stderr));
                }
                Ok(Self::parse_list_output(out.stdout.as_str()))
            },
        }
    }
}

impl Default for ChocolateyManager {
    fn default() -> (r: Self)
        ensures
            r.exe() == "choco"@,
    {
        ChocolateyManager::new()
    }
}

} // verus!
