use savvy::chocolatey::ChocolateyManager;
use savvy::types::CommandOutcome;
use savvy::types::PackageError;
use savvy::types::PackageSource;
use savvy::types::ProcessOutput;
use savvy::types::version_in_list;
use savvy::winget::WingetManager;

fn completed(success: bool, stdout: &str, stderr: &str) -> CommandOutcome {
    CommandOutcome::Completed(ProcessOutput {
        success,
        stdout: stdout.to_string(),
        stderr: stderr.to_string(),
    })
}

#[test]
fn choco_request_templates() {
    let m = ChocolateyManager::new();
    let probe = m.probe_request();
    assert_eq!(probe.program, "choco");
    assert_eq!(probe.args, vec!["--version"]);

    let req = m.install_request("7zip", true).unwrap();
    assert_eq!(req.program, "choco");
    assert_eq!(req.args, vec!["install", "7zip", "-y", "--no-progress"]);

    let req = m.uninstall_request("7zip", true).unwrap();
    assert_eq!(req.args, vec!["uninstall", "7zip", "-y"]);

    let req = m.upgrade_request("7zip", true).unwrap();
    assert_eq!(req.args, vec!["upgrade", "7zip", "-y", "--no-progress"]);

    let req = m.list_request(true).unwrap();
    assert_eq!(req.args, vec!["list", "--local-only", "--limit-output"]);
}

#[test]
fn winget_request_templates() {
    let m = WingetManager::new();
    let probe = m.probe_request();
    assert_eq!(probe.program, "winget");
    assert_eq!(probe.args, vec!["--version"]);

    let req = m.install_request("Mozilla.Firefox", true).unwrap();
    assert_eq!(req.program, "winget");
    assert_eq!(
        req.args,
        vec![
            "install",
            "--id",
            "Mozilla.Firefox",
            "--silent",
            "--accept-package-agreements",
            "--accept-source-agreements"
        ]
    );

    let req = m.uninstall_request("Mozilla.Firefox", true).unwrap();
    assert_eq!(req.args, vec!["uninstall", "--id", "Mozilla.Firefox", "--silent"]);

    let req = m.upgrade_request("Mozilla.Firefox", true).unwrap();
    assert_eq!(
        req.args,
        vec!["upgrade", "--id", "Mozilla.Firefox", "--silent", "--accept-package-agreements"]
    );

    let req = m.list_request(true).unwrap();
    assert_eq!(req.args, vec!["list"]);
}

#[test]
fn absent_backend_rejects_every_operation() {
    let c = ChocolateyManager::new();
    assert!(matches!(
        c.install_request("7zip", false),
        Err(PackageError::NotFound(m)) if m == "Chocolatey is not installed"
    ));
    assert!(matches!(c.uninstall_request("7zip", false), Err(PackageError::NotFound(_))));
    assert!(matches!(c.upgrade_request("7zip", false), Err(PackageError::NotFound(_))));
    assert!(matches!(c.list_request(false), Err(PackageError::NotFound(_))));

    let w = WingetManager::new();
    assert!(matches!(
        w.install_request("Git.Git", false),
        Err(PackageError::NotFound(m)) if m == "Winget is not installed"
    ));
    assert!(matches!(w.uninstall_request("Git.Git", false), Err(PackageError::NotFound(_))));
    assert!(matches!(w.upgrade_request("Git.Git", false), Err(PackageError::NotFound(_))));
    assert!(matches!(w.list_request(false), Err(PackageError::NotFound(_))));
}

#[test]
fn install_success_record_has_no_error() {
    let m = ChocolateyManager::new();
    let out = "installing\n7zip v19.0 successfully installed.\n";
    let res = m.complete_install("7zip", completed(true, out, "")).unwrap();
    assert!(res.success);
    assert_eq!(res.package_id, "7zip");
    assert_eq!(res.version.as_deref(), Some("19.0"));
    assert_eq!(res.output, out);
    assert_eq!(res.error, None);
}

#[test]
fn install_failure_record_carries_stderr() {
    let m = ChocolateyManager::new();
    let res = m
        .complete_install("7zip", completed(false, "some output", "boom"))
        .unwrap();
    assert!(!res.success);
    assert_eq!(res.version, None);
    assert_eq!(res.output, "some output");
    assert_eq!(res.error.as_deref(), Some("boom"));
}

#[test]
fn install_spawn_failure_is_command_failed() {
    let m = WingetManager::new();
    let err = m
        .complete_install("Git.Git", CommandOutcome::Failed("exec failure".to_string()))
        .unwrap_err();
    assert!(matches!(err, PackageError::CommandFailed(msg) if msg == "exec failure"));
}

#[test]
fn uninstall_records_follow_exit_status() {
    let m = WingetManager::new();
    let ok = m.complete_uninstall("Git.Git", completed(true, "done", "")).unwrap();
    assert!(ok.success);
    assert_eq!(ok.package_id, "Git.Git");
    assert_eq!(ok.output, "done");
    assert_eq!(ok.error, None);

    let bad = m
        .complete_uninstall("Git.Git", completed(false, "", "not permitted"))
        .unwrap();
    assert!(!bad.success);
    assert_eq!(bad.error.as_deref(), Some("not permitted"));
}

#[test]
fn upgrade_record_keeps_old_and_new_version() {
    let m = ChocolateyManager::new();
    let out = "vlc was upgraded to v3.0.20\n";
    let res = m
        .complete_upgrade("vlc", Some("3.0.18".to_string()), completed(true, out, ""))
        .unwrap();
    assert!(res.success);
    assert_eq!(res.old_version.as_deref(), Some("3.0.18"));
    assert_eq!(res.new_version.as_deref(), Some("3.0.20"));
    assert_eq!(res.error, None);
}

#[test]
fn upgrade_of_unlisted_identifier_still_runs() {
    // The identifier is absent from the pre-upgrade listing: the lookup
    // yields nothing, the upgrade command is still issued, and the record
    // keeps old_version unset.
    let m = ChocolateyManager::new();
    let listed = ChocolateyManager::parse_list_output("7zip|19.0|\nvlc|3.0.18|\n");
    let old = version_in_list(&listed, "git");
    assert_eq!(old, None);

    let req = m.upgrade_request("git", true).unwrap();
    assert_eq!(req.args, vec!["upgrade", "git", "-y", "--no-progress"]);

    let res = m.complete_upgrade("git", old, completed(true, "", "")).unwrap();
    assert!(res.success);
    assert_eq!(res.old_version, None);
    assert_eq!(res.new_version, None);
}

#[test]
fn version_in_list_finds_first_match() {
    let listed = ChocolateyManager::parse_list_output("7zip|19.0|\n7zip|20.0|\nvlc|3.0.18|\n");
    assert_eq!(version_in_list(&listed, "7zip").as_deref(), Some("19.0"));
    assert_eq!(version_in_list(&listed, "vlc").as_deref(), Some("3.0.18"));
    assert_eq!(version_in_list(&listed, "absent"), None);
}

#[test]
fn list_non_zero_exit_is_command_failed() {
    let c = ChocolateyManager::new();
    let err = c.complete_list(completed(false, "partial", "lock held")).unwrap_err();
    assert!(matches!(err, PackageError::CommandFailed(msg) if msg == "lock held"));

    let w = WingetManager::new();
    let err = w
        .complete_list(CommandOutcome::Failed("wait failed".to_string()))
        .unwrap_err();
    assert!(matches!(err, PackageError::CommandFailed(msg) if msg == "wait failed"));
}

#[test]
fn list_success_parses_records() {
    let c = ChocolateyManager::new();
    let pkgs = c.complete_list(completed(true, "7zip|19.0|\n", "")).unwrap();
    assert_eq!(pkgs.len(), 1);
    assert_eq!(pkgs[0].id, "7zip");

    let w = WingetManager::new();
    let pkgs = w
        .complete_list(completed(true, "Name Id Version\n---\nGit Git.Git 2.42.0 winget\n", ""))
        .unwrap();
    assert_eq!(pkgs.len(), 1);
    assert_eq!(pkgs[0].id, "Git.Git");
    assert_eq!(pkgs[0].name.as_deref(), Some("Git"));
}

#[test]
fn error_union_flattens_to_text() {
    assert_eq!(
        PackageError::NotFound("Chocolatey is not installed".to_string()).describe(),
        "Package not found: Chocolatey is not installed"
    );
    assert_eq!(PackageError::CommandFailed("x".to_string()).describe(), "Command failed: x");
    assert_eq!(
        PackageError::PermissionDenied("x".to_string()).describe(),
        "Permission denied: x"
    );
    assert_eq!(
        PackageError::AlreadyInstalled("x".to_string()).describe(),
        "Already installed: x"
    );
    assert_eq!(PackageError::NotInstalled("x".to_string()).describe(), "Not installed: x");
    assert_eq!(PackageError::Unknown("x".to_string()).describe(), "Unknown error: x");
}

#[test]
fn source_labels() {
    assert_eq!(PackageSource::Chocolatey.label(), "chocolatey");
    assert_eq!(PackageSource::Winget.label(), "winget");
    assert!(PackageSource::Chocolatey != PackageSource::Winget);
}

#[test]
fn strip_leading_v_markers() {
    assert_eq!(savvy::version::strip_leading_v("v1.2"), "1.2");
    assert_eq!(savvy::version::strip_leading_v("vv2"), "2");
    assert_eq!(savvy::version::strip_leading_v("1.2"), "1.2");
}
