//! The Winget backend: fixed argument templates for its command-line tool,
//! the heuristic parser for its human-formatted, column-aligned listing
//! output, and the decision functions that turn a presence flag and a
//! captured process outcome into a normalized result or error.
//!
//! The listing heuristic scans each body line's whitespace tokens for one
//! with an embedded period (identifiers follow a `Publisher.Name`
//! convention), takes the next token as the version and joins the
//! preceding tokens as the display name. It knowingly misparses rows whose
//! package name itself holds a period, or localized column orders: an
//! approximation, not a guarantee.

use vstd::prelude::*;
use vstd::string::StrSliceExecFns;
use crate::text::has_char;
use crate::text::join_prefix;
use crate::text::joined;
use crate::text::seq_has_char;
use crate::text::split_on;
use crate::text::split_seq;
use crate::text::tokens;
use crate::text::tokens_of;
use crate::text::trim_of;
use crate::text::trimmed;
use crate::types::CommandOutcome;
use crate::types::CommandRequest;
use crate::types::InstallResult;
use crate::types::InstalledPackage;
use crate::types::PackageError;
use crate::types::PackageSource;
use crate::types::ProcessOutput;
use crate::types::UninstallResult;
use crate::types::UpgradeResult;
use crate::version::spec_version_in_output;
use crate::version::version_in_output;

verus! {

/// Winget package manager wrapper; stateless beyond the name of its
/// executable.
pub struct WingetManager {
    exe_path: String,
}

/// Argument template of the presence probe.
pub open spec fn winget_probe_args() -> Seq<Seq<char>> {
    seq!["--version"@]
}

/// Argument template of an install.
pub open spec fn winget_install_args(id: Seq<char>) -> Seq<Seq<char>> {
    seq![
        "install"@,
        "--id"@,
        id,
        "--silent"@,
        "--accept-package-agreements"@,
        "--accept-source-agreements"@,
    ]
}

/// Argument template of an uninstall.
pub open spec fn winget_uninstall_args(id: Seq<char>) -> Seq<Seq<char>> {
    seq!["uninstall"@, "--id"@, id, "--silent"@]
}

/// Argument template of an upgrade.
pub open spec fn winget_upgrade_args(id: Seq<char>) -> Seq<Seq<char>> {
    seq!["upgrade"@, "--id"@, id, "--silent"@, "--accept-package-agreements"@]
}

/// Argument template of the listing subcommand.
pub open spec fn winget_list_args() -> Seq<Seq<char>> {
    seq!["list"@]
}

/// The error every operation returns when the backend binary is absent.
pub open spec fn winget_missing(e: PackageError) -> bool {
    e matches PackageError::NotFound(m) && m@ == "Winget is not installed"@
}

/// The version heuristic with Winget's success marker.
pub open spec fn winget_version_of(out: Seq<char>) -> Option<Seq<char>> {
    spec_version_in_output(out, "Successfully installed"@)
}

/// The index of the first token bearing an embedded period, if any.
pub open spec fn first_dotted(toks: Seq<Seq<char>>) -> Option<int>
    decreases toks.len(),
{
    if toks.len() == 0 {
        None
    } else if seq_has_char(toks[0], '.') {
        Some(0)
    } else {
        match first_dotted(toks.drop_first()) {
            Some(j) => Some(j + 1),
            None => None,
        }
    }
}

/// The (name, id, version) triple of one column-aligned list line. Blank
/// lines, separator lines starting with `-`, lines with fewer than three
/// tokens and lines without a period-bearing token yield nothing. The
/// version falls back to `unknown` when no token follows the identifier,
/// and the name falls back to the identifier when no token precedes it.
pub open spec fn winget_line_record(line: Seq<char>) -> Option<(Seq<char>, Seq<char>, Seq<char>)> {
    if trim_of(line).len() == 0 || (line.len() > 0 && line[0] == '-') {
        None
    } else {
        let toks = tokens_of(line);
        if toks.len() >= 3 {
            match first_dotted(toks) {
                Some(j) => {
                    let id = toks[j];
                    let version = if j + 1 < toks.len() {
                        toks[j + 1]
                    } else {
                        "unknown"@
                    };
                    let name = if j == 0 {
                        id
                    } else {
                        joined(toks.take(j))
                    };
                    Some((name, id, version))
                },
                None => None,
            }
        } else {
            None
        }
    }
}

/// The (name, id, version) triples of a sequence of body lines, in order;
/// lines that fit no record are dropped.
pub open spec fn winget_records_of_lines(lines: Seq<Seq<char>>) -> Seq<
    (Seq<char>, Seq<char>, Seq<char>),
>
    decreases lines.len(),
{
    if lines.len() == 0 {
        Seq::<(Seq<char>, Seq<char>, Seq<char>)>::empty()
    } else {
        match winget_line_record(lines[0]) {
            Some(f) => seq![f] + winget_records_of_lines(lines.drop_first()),
            None => winget_records_of_lines(lines.drop_first()),
        }
    }
}

/// The records parsed from full listing output: the two-line header and
/// separator block is skipped unconditionally, the rest are body lines.
pub open spec fn winget_records(out: Seq<char>) -> Seq<(Seq<char>, Seq<char>, Seq<char>)> {
    let lines = split_seq(out, '\n');
    if lines.len() <= 2 {
        Seq::<(Seq<char>, Seq<char>, Seq<char>)>::empty()
    } else {
        winget_records_of_lines(lines.skip(2))
    }
}

/// How one parsed package record corresponds to a (name, id, version)
/// triple: the source tag is Winget and the display name is kept.
pub open spec fn winget_package_matches(
    p: InstalledPackage,
    f: (Seq<char>, Seq<char>, Seq<char>),
) -> bool {
    &&& (p.name matches Some(nm) && nm@ == f.0)
    &&& p.id@ == f.1
    &&& p.version@ == f.2
    &&& p.source == PackageSource::Winget
}

/// The first period-bearing token index is present exactly when some
/// token bears a period, and is the least such index.
pub proof fn lemma_first_dotted(toks: Seq<Seq<char>>)
    ensures
        (first_dotted(toks) matches Some(j) ==> 0 <= j < toks.len() && seq_has_char(toks[j], '.')
            && (forall|k: int| 0 <= k < j ==> !seq_has_char(#[trigger] toks[k], '.'))),
        (first_dotted(toks) is None ==> (forall|k: int|
            0 <= k < toks.len() ==> !seq_has_char(#[trigger] toks[k], '.'))),
    decreases toks.len(),
{
    if toks.len() > 0 {
        if !seq_has_char(toks[0], '.') {
            lemma_first_dotted(toks.drop_first());
            match first_dotted(toks.drop_first()) {
                Some(j0) => {
                    assert forall|k: int| 0 <= k < j0 + 1 implies !seq_has_char(
                        #[trigger] toks[k],
                        '.',
                    ) by {
                        if k >= 1 {
                            assert(!seq_has_char(toks.drop_first()[k - 1], '.'));
                        }
                    };
                },
                None => {
                    assert forall|k: int| 0 <= k < toks.len() implies !seq_has_char(
                        #[trigger] toks[k],
                        '.',
                    ) by {
                        if k >= 1 {
                            assert(!seq_has_char(toks.drop_first()[k - 1], '.'));
                        }
                    };
                },
            }
        }
    }
}

/// Law: a body line (not blank, no leading `-`) with at least three
/// whitespace tokens, one of which bears an embedded period, yields a
/// record whose id is the first such token, whose version is the token
/// right after it (`unknown` when none follows), and whose display name
/// joins the preceding tokens (falling back to the id when none precede);
/// a line none of whose tokens bears a period yields no record.
pub proof fn lemma_column_line_record(line: Seq<char>)
    requires
        trim_of(line).len() > 0,
        line.len() > 0 ==> line[0] != '-',
        tokens_of(line).len() >= 3,
    ensures
        (exists|k: int|
            0 <= k < tokens_of(line).len() && seq_has_char(#[trigger] tokens_of(line)[k], '.'))
            ==> (winget_line_record(line) matches Some(r) && (first_dotted(tokens_of(line)) matches
        Some(j) && seq_has_char(tokens_of(line)[j], '.') && (forall|k: int|
            0 <= k < j ==> !seq_has_char(#[trigger] tokens_of(line)[k], '.')) && r.1 == tokens_of(
            line,
        )[j] && r.2 == (if j + 1 < tokens_of(line).len() {
            tokens_of(line)[j + 1]
        } else {
            "unknown"@
        }) && r.0 == (if j == 0 {
            tokens_of(line)[j]
        } else {
            joined(tokens_of(line).take(j))
        }))),
        (forall|k: int|
            0 <= k < tokens_of(line).len() ==> !seq_has_char(#[trigger] tokens_of(line)[k], '.'))
            ==> winget_line_record(line) is None,
{
    lemma_first_dotted(tokens_of(line));
    if exists|k: int|
        0 <= k < tokens_of(line).len() && seq_has_char(#[trigger] tokens_of(line)[k], '.') {
        let k = choose|k: int|
            0 <= k < tokens_of(line).len() && seq_has_char(#[trigger] tokens_of(line)[k], '.');
        assert(first_dotted(tokens_of(line)) is Some);
    }
}

/// Runtime search for the first period-bearing token, exactly as
/// [`first_dotted`] says.
fn find_dotted(toks: &Vec<String>) -> (r: Option<usize>)
    ensures
        (r matches Some(j) ==> j < toks@.len() && first_dotted(toks.deep_view()) == Some(j as int)),
        (r is None ==> first_dotted(toks.deep_view()) is None),
{
    let n = toks.len();
    let mut i: usize = 0;
    proof {
        assert(toks.deep_view().skip(0) =~= toks.deep_view());
    }
    while i < n
        invariant
            n == toks@.len(),
            i <= n,
            (first_dotted(toks.deep_view().skip(i as int)) matches Some(j) ==> first_dotted(
                toks.deep_view(),
            ) == Some(i + j)),
            (first_dotted(toks.deep_view().skip(i as int)) is None ==> first_dotted(
                toks.deep_view(),
            ) is None),
        decreases n - i,
    {
        proof {
            assert(toks.deep_view().skip(i as int)[0] == toks.deep_view()[i as int]);
            assert(toks.deep_view().skip(i as int).drop_first() =~= toks.deep_view().skip(
                i as int + 1,
            ));
        }
        if has_char(toks[i].as_str(), '.') {
            return Some(i);
        }
        i = i + 1;
    }
    proof {
        assert(toks.deep_view().skip(n as int) =~= Seq::<Seq<char>>::empty());
    }
    None
}

impl WingetManager {
    /// The executable this backend invokes.
    pub closed spec fn exe(self) -> Seq<char> {
        self.exe_path@
    }

    pub fn new() -> (r: Self)
        ensures
            r.exe() == "winget"@,
    {
        WingetManager { exe_path: "winget".to_owned() }
    }

    /// The presence probe: `winget --version`. Presence means the probe
    /// process can be spawned at all, independent of its exit code.
    pub fn probe_request(&self) -> (r: CommandRequest)
        ensures
            r.program@ == self.exe(),
            r.args.deep_view() == winget_probe_args(),
    {
        let mut args: Vec<String> = Vec::new();
        args.push("--version".to_owned());
        proof {
            assert(args.deep_view() =~= winget_probe_args());
        }
        CommandRequest { program: self.exe_path.clone(), args }
    }

    /// The install command for `package_id`, or NotFound when the probe
    /// found no backend — in that case no command is issued at all.
    pub fn install_request(&self, package_id: &str, present: bool) -> (r: Result<
        CommandRequest,
        PackageError,
    >)
        ensures
            present ==> (r matches Ok(req) && req.program@ == self.exe()
                && req.args.deep_view() == winget_install_args(package_id@)),
            !present ==> (r matches Err(e) && winget_missing(e)),
    {
        if !present {
            return Err(PackageError::NotFound("Winget is not installed".to_owned()));
        }
        let mut args: Vec<String> = Vec::new();
        args.push("install".to_owned());
        args.push("--id".to_owned());
        args.push(package_id.to_owned());
        args.push("--silent".to_owned());
        args.push("--accept-package-agreements".to_owned());
        args.push("--accept-source-agreements".to_owned());
        proof {
            assert(args.deep_view() =~= winget_install_args(package_id@));
        }
        Ok(CommandRequest { program: self.exe_path.clone(), args })
    }

    /// The uninstall command for `package_id`, or NotFound when the probe
    /// found no backend.
    pub fn uninstall_request(&self, package_id: &str, present: bool) -> (r: Result<
        CommandRequest,
        PackageError,
    >)
        ensures
            present ==> (r matches Ok(req) && req.program@ == self.exe()
                && req.args.deep_view() == winget_uninstall_args(package_id@)),
            !present ==> (r matches Err(e) && winget_missing(e)),
    {
        if !present {
            return Err(PackageError::NotFound("Winget is not installed".to_owned()));
        }
        let mut args: Vec<String> = Vec::new();
        args.push("uninstall".to_owned());
        args.push("--id".to_owned());
        args.push(package_id.to_owned());
        args.push("--silent".to_owned());
        proof {
            assert(args.deep_view() =~= winget_uninstall_args(package_id@));
        }
        Ok(CommandRequest { program: self.exe_path.clone(), args })
    }

    /// The upgrade command for `package_id`, or NotFound when the probe
    /// found no backend. The command is the same whether or not the
    /// pre-upgrade listing knew the identifier.
    pub fn upgrade_request(&self, package_id: &str, present: bool) -> (r: Result<
        CommandRequest,
        PackageError,
    >)
        ensures
            present ==> (r matches Ok(req) && req.program@ == self.exe()
                && req.args.deep_view() == winget_upgrade_args(package_id@)),
            !present ==> (r matches Err(e) && winget_missing(e)),
    {
        if !present {
            return Err(PackageError::NotFound("Winget is not installed".to_owned()));
        }
        let mut args: Vec<String> = Vec::new();
        args.push("upgrade".to_owned());
        args.push("--id".to_owned());
        args.push(package_id.to_owned());
        args.push("--silent".to_owned());
        args.push("--accept-package-agreements".to_owned());
        proof {
            assert(args.deep_view() =~= winget_upgrade_args(package_id@));
        }
        Ok(CommandRequest { program: self.exe_path.clone(), args })
    }

    /// The listing command, or NotFound when the probe found no backend.
    pub fn list_request(&self, present: bool) -> (r: Result<CommandRequest, PackageError>)
        ensures
            present ==> (r matches Ok(req) && req.program@ == self.exe()
                && req.args.deep_view() == winget_list_args()),
            !present ==> (r matches Err(e) && winget_missing(e)),
    {
        if !present {
            return Err(PackageError::NotFound("Winget is not installed".to_owned()));
        }
        let mut args: Vec<String> = Vec::new();
        args.push("list".to_owned());
        proof {
            assert(args.deep_view() =~= winget_list_args());
        }
        Ok(CommandRequest { program: self.exe_path.clone(), args })
    }

    /// Best-effort version extraction from command output; absence of a
    /// match yields no version, never an error.
    pub fn parse_version_from_output(output: &str) -> (r: Option<String>)
        ensures
            r.deep_view() == winget_version_of(output@),
    {
        version_in_output(output, "Successfully installed")
    }

    /// Parse listing output: skip the two header lines, then one record
    /// per body line that fits the column heuristic; every other line is
    /// silently skipped.
    pub fn parse_list_output(output: &str) -> (r: Vec<InstalledPackage>)
        ensures
            r@.len() == winget_records(output@).len(),
            forall|i: int|
                0 <= i < r@.len() ==> winget_package_matches(
                    #[trigger] r@[i],
                    winget_records(output@)[i],
                ),
    {
        let lines = split_on(output, '\n');
        let n = lines.len();
        let mut out: Vec<InstalledPackage> = Vec::new();
        let ghost mut done: Seq<(Seq<char>, Seq<char>, Seq<char>)> = Seq::empty();
        if n <= 2 {
            return out;
        }
        let mut i: usize = 2;
        proof {
            assert(done + winget_records_of_lines(lines.deep_view().skip(2))
                =~= winget_records_of_lines(lines.deep_view().skip(2)));
        }
        while i < n
            invariant
                n == lines@.len(),
                n > 2,
                2 <= i <= n,
                lines.deep_view() == split_seq(output@, '\n'),
                winget_records(output@) == done + winget_records_of_lines(
                    lines.deep_view().skip(i as int),
                ),
                out@.len() == done.len(),
                forall|k: int|
                    0 <= k < done.len() ==> winget_package_matches(#[trigger] out@[k], done[k]),
            decreases n - i,
        {
            proof {
                assert(lines.deep_view().skip(i as int)[0] == lines.deep_view()[i as int]);
                assert(lines.deep_view().skip(i as int).drop_first() =~= lines.deep_view().skip(
                    i as int + 1,
                ));
            }
            let ghost lv = lines.deep_view()[i as int];
            let blank = trimmed(lines[i].as_str()).as_str().is_empty();
            let dash = !lines[i].as_str().is_empty() && lines[i].as_str().get_char(0) == '-';
            if !blank && !dash {
                let toks = tokens(lines[i].as_str());
                if toks.len() >= 3 {
                    match find_dotted(&toks) {
                        Some(j) => {
                            let id = toks[j].clone();
                            let version = if j + 1 < toks.len() {
                                toks[j + 1].clone()
                            } else {
                                "unknown".to_owned()
                            };
                            let name = if j == 0 {
                                id.clone()
                            } else {
                                join_prefix(&toks, j)
                            };
                            let ghost f = (name@, id@, version@);
                            let ghost done0 = done;
                            out.push(
                                InstalledPackage {
                                    id,
                                    version,
                                    source: PackageSource::Winget,
                                    name: Some(name),
                                },
                            );
                            proof {
                                assert(winget_line_record(lv) == Some(f));
                                done = done.push(f);
                                assert(done0 + (seq![f] + winget_records_of_lines(
                                    lines.deep_view().skip(i as int + 1),
                                )) =~= done + winget_records_of_lines(
                                    lines.deep_view().skip(i as int + 1),
                                ));
                            }
                        },
                        None => {
                            proof {
                                assert(winget_line_record(lv) is None);
                            }
                        },
                    }
                } else {
                    proof {
                        assert(winget_line_record(lv) is None);
                    }
                }
            } else {
                proof {
                    assert(winget_line_record(lv) is None);
                }
            }
            i = i + 1;
        }
        proof {
            assert(lines.deep_view().skip(n as int) =~= Seq::<Seq<char>>::empty());
            assert(done + winget_records_of_lines(Seq::<Seq<char>>::empty()) =~= done);
        }
        out
    }

    /// Turn a captured install outcome into the normalized record: success
    /// mirrors the exit status, `output` keeps the full standard output,
    /// `error` carries standard error exactly when the operation failed,
    /// and the version is the heuristic's best effort.
    pub fn complete_install(&self, package_id: &str, outcome: CommandOutcome) -> (r: Result<
        InstallResult,
        PackageError,
    >)
        ensures
            (outcome matches CommandOutcome::Failed(m) ==> (r matches Err(e)
                && e matches PackageError::CommandFailed(em) && em@ == m@)),
            (outcome matches CommandOutcome::Completed(out) ==> (r matches Ok(res) && {
                &&& res.success == out.success
                &&& res.package_id@ == package_id@
                &&& res.version.deep_view() == winget_version_of(out.stdout@)
                &&& res.output@ == out.stdout@
                &&& res.error.deep_view() == (if out.success {
                    Option::<Seq<char>>::None
                } else {
                    Some(out.stderr@)
                })
                &&& res.wf()
            })),
    {
        match outcome {
            CommandOutcome::Failed(m) => Err(PackageError::CommandFailed(m)),
            CommandOutcome::Completed(out) => {
                let ProcessOutput { success, stdout, stderr } = out;
                let version = Self::parse_version_from_output(stdout.as_str());
                let error = if success {
                    None
                } else {
                    Some(stderr)
                };
                Ok(
                    InstallResult {
                        success,
                        package_id: package_id.to_owned(),
                        version,
                        output: stdout,
                        error,
                    },
                )
            },
        }
    }

    /// Turn a captured uninstall outcome into the normalized record.
    pub fn complete_uninstall(&self, package_id: &str, outcome: CommandOutcome) -> (r: Result<
        UninstallResult,
        PackageError,
    >)
        ensures
            (outcome matches CommandOutcome::Failed(m) ==> (r matches Err(e)
                && e matches PackageError::CommandFailed(em) && em@ == m@)),
            (outcome matches CommandOutcome::Completed(out) ==> (r matches Ok(res) && {
                &&& res.success == out.success
                &&& res.package_id@ == package_id@
                &&& res.output@ == out.stdout@
                &&& res.error.deep_view() == (if out.success {
                    Option::<Seq<char>>::None
                } else {
                    Some(out.stderr@)
                })
                &&& res.wf()
            })),
    {
        match outcome {
            CommandOutcome::Failed(m) => Err(PackageError::CommandFailed(m)),
            CommandOutcome::Completed(out) => {
                let ProcessOutput { success, stdout, stderr } = out;
                let error = if success {
                    None
                } else {
                    Some(stderr)
                };
                Ok(
                    UninstallResult {
                        success,
                        package_id: package_id.to_owned(),
                        output: stdout,
                        error,
                    },
                )
            },
        }
    }

    /// Turn a captured upgrade outcome into the normalized record.
    /// `old_version` is whatever the pre-upgrade listing knew; it is
    /// recorded unchanged, unset or not.
    pub fn complete_upgrade(
        &self,
        package_id: &str,
        old_version: Option<String>,
        outcome: CommandOutcome,
    ) -> (r: Result<UpgradeResult, PackageError>)
        ensures
            (outcome matches CommandOutcome::Failed(m) ==> (r matches Err(e)
                && e matches PackageError::CommandFailed(em) && em@ == m@)),
            (outcome matches CommandOutcome::Completed(out) ==> (r matches Ok(res) && {
                &&& res.success == out.success
                &&& res.package_id@ == package_id@
                &&& res.old_version == old_version
                &&& res.new_version.deep_view() == winget_version_of(out.stdout@)
                &&& res.output@ == out.stdout@
                &&& res.error.deep_view() == (if out.success {
                    Option::<Seq<char>>::None
                } else {
                    Some(out.stderr@)
                })
                &&& res.wf()
            })),
    {
        match outcome {
            CommandOutcome::Failed(m) => Err(PackageError::CommandFailed(m)),
            CommandOutcome::Completed(out) => {
                let ProcessOutput { success, stdout, stderr } = out;
                let new_version = Self::parse_version_from_output(stdout.as_str());
                let error = if success {
                    None
                } else {
                    Some(stderr)
                };
                Ok(
                    UpgradeResult {
                        success,
                        package_id: package_id.to_owned(),
                        old_version,
                        new_version,
                        output: stdout,
                        error,
                    },
                )
            },
        }
    }

    /// Turn a captured listing outcome into package records, or
    /// CommandFailed carrying standard error when the listing subcommand
    /// itself could not be run or exited non-zero.
    pub fn complete_list(&self, outcome: CommandOutcome) -> (r: Result<
        Vec<InstalledPackage>,
        PackageError,
    >)
        ensures
            (outcome matches CommandOutcome::Failed(m) ==> (r matches Err(e)
                && e matches PackageError::CommandFailed(em) && em@ == m@)),
            (outcome matches CommandOutcome::Completed(out) ==> {
                &&& (!out.success ==> (r matches Err(e) && e matches PackageError::CommandFailed(em)
                    && em@ == out.stderr@))
                &&& (out.success ==> (r matches Ok(pkgs) && pkgs@.len() == winget_records(
                    out.stdout@,
                ).len() && (forall|i: int|
                    0 <= i < pkgs@.len() ==> winget_package_matches(
                        #[trigger] pkgs@[i],
                        winget_records(out.stdout@)[i],
                    ))))
            }),
    {
        match outcome {
            CommandOutcome::Failed(m) => Err(PackageError::CommandFailed(m)),
            CommandOutcome::Completed(out) => {
                if !out.success {
                    return Err(PackageError::CommandFailed(out.stderr));
                }
                Ok(Self::parse_list_output(out.stdout.as_str()))
            },
        }
    }
}

impl Default for WingetManager {
    fn default() -> (r: Self)
        ensures
            r.exe() == "winget"@,
    {
        WingetManager::new()
    }
}

} // verus!
