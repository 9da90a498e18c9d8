use savvy::chocolatey::ChocolateyManager;
use savvy::types::PackageSource;
use savvy::winget::WingetManager;

#[test]
fn choco_delimiter_line_basic() {
    let pkgs = ChocolateyManager::parse_list_output("7zip|19.0|");
    assert_eq!(pkgs.len(), 1);
    assert_eq!(pkgs[0].id, "7zip");
    assert_eq!(pkgs[0].version, "19.0");
    assert_eq!(pkgs[0].name.as_deref(), Some("7zip"));
    assert!(pkgs[0].source == PackageSource::Chocolatey);
}

#[test]
fn choco_extra_fields_ignored() {
    let pkgs = ChocolateyManager::parse_list_output("git|2.40.1|extra|more");
    assert_eq!(pkgs.len(), 1);
    assert_eq!(pkgs[0].id, "git");
    assert_eq!(pkgs[0].version, "2.40.1");
}

#[test]
fn choco_short_lines_dropped() {
    let out = "Chocolatey v1.4.0\n7zip|19.0\nno-delimiter-here\n\nvlc|3.0.18\n";
    let pkgs = ChocolateyManager::parse_list_output(out);
    assert_eq!(pkgs.len(), 2);
    assert_eq!(pkgs[0].id, "7zip");
    assert_eq!(pkgs[0].version, "19.0");
    assert_eq!(pkgs[1].id, "vlc");
    assert_eq!(pkgs[1].version, "3.0.18");
}

#[test]
fn choco_fields_trimmed() {
    let pkgs = ChocolateyManager::parse_list_output("  7zip \t| 19.0 |x");
    assert_eq!(pkgs.len(), 1);
    assert_eq!(pkgs[0].id, "7zip");
    assert_eq!(pkgs[0].version, "19.0");
}

#[test]
fn choco_empty_output_no_records() {
    let pkgs = ChocolateyManager::parse_list_output("");
    assert_eq!(pkgs.len(), 0);
}

#[test]
fn winget_column_line_basic() {
    let out = "Name   Id   Version   Source\n\
               -----------------------------\n\
               Mozilla Firefox   Mozilla.Firefox   118.0   winget\n";
    let pkgs = WingetManager::parse_list_output(out);
    assert_eq!(pkgs.len(), 1);
    assert_eq!(pkgs[0].id, "Mozilla.Firefox");
    assert_eq!(pkgs[0].version, "118.0");
    assert_eq!(pkgs[0].name.as_deref(), Some("Mozilla Firefox"));
    assert!(pkgs[0].source == PackageSource::Winget);
}

#[test]
fn winget_header_block_skipped_unconditionally() {
    // The first two lines would both fit the heuristic, yet never count.
    let out = "Fake.Header 1.0 winget\nAlso.Fake 2.0 winget\nReal Name Real.Id 3.0 winget\n";
    let pkgs = WingetManager::parse_list_output(out);
    assert_eq!(pkgs.len(), 1);
    assert_eq!(pkgs[0].id, "Real.Id");
    assert_eq!(pkgs[0].version, "3.0");
    assert_eq!(pkgs[0].name.as_deref(), Some("Real Name"));
}

#[test]
fn winget_separator_and_blank_lines_skipped() {
    let out = "Name Id Version\n---\n\n--------\nVideoLAN VLC VideoLAN.VLC 3.0.18 winget\n";
    let pkgs = WingetManager::parse_list_output(out);
    assert_eq!(pkgs.len(), 1);
    assert_eq!(pkgs[0].id, "VideoLAN.VLC");
    assert_eq!(pkgs[0].version, "3.0.18");
    assert_eq!(pkgs[0].name.as_deref(), Some("VideoLAN VLC"));
}

#[test]
fn winget_line_without_period_token_yields_no_record() {
    let out = "Name Id Version\n---\nSome Tool Without Dotted Id 10 winget\n";
    let pkgs = WingetManager::parse_list_output(out);
    assert_eq!(pkgs.len(), 0);
}

#[test]
fn winget_line_with_fewer_than_three_tokens_dropped() {
    let out = "Name Id Version\n---\nA.B 1.0\n";
    let pkgs = WingetManager::parse_list_output(out);
    assert_eq!(pkgs.len(), 0);
}

#[test]
fn winget_version_falls_back_to_unknown() {
    // The period-bearing token is last, so no version token follows it.
    let out = "Name Id Version\n---\nSome Tool Some.Tool\n";
    let pkgs = WingetManager::parse_list_output(out);
    assert_eq!(pkgs.len(), 1);
    assert_eq!(pkgs[0].id, "Some.Tool");
    assert_eq!(pkgs[0].version, "unknown");
    assert_eq!(pkgs[0].name.as_deref(), Some("Some Tool"));
}

#[test]
fn winget_name_falls_back_to_id() {
    let out = "Name Id Version\n---\nGit.Git 2.42.0 winget\n";
    let pkgs = WingetManager::parse_list_output(out);
    assert_eq!(pkgs.len(), 1);
    assert_eq!(pkgs[0].id, "Git.Git");
    assert_eq!(pkgs[0].version, "2.42.0");
    assert_eq!(pkgs[0].name.as_deref(), Some("Git.Git"));
}

#[test]
fn choco_version_heuristic_leading_v() {
    let out = "Installing 7zip...\n7zip v19.0 successfully installed.\n";
    assert_eq!(
        ChocolateyManager::parse_version_from_output(out).as_deref(),
        Some("19.0")
    );
}

#[test]
fn choco_version_heuristic_needs_marker() {
    let out = "7zip v19.0 has been set up\n";
    assert_eq!(ChocolateyManager::parse_version_from_output(out), None);
}

#[test]
fn choco_version_heuristic_upgraded_marker() {
    let out = "nothing here\nvlc was upgraded to v3.0.20\n";
    assert_eq!(
        ChocolateyManager::parse_version_from_output(out).as_deref(),
        Some("3.0.20")
    );
}

#[test]
fn choco_version_heuristic_marked_line_without_token_keeps_scanning() {
    let out = "successfully installed the package\nlater it was upgraded to v2.1\n";
    assert_eq!(
        ChocolateyManager::parse_version_from_output(out).as_deref(),
        Some("2.1")
    );
}

#[test]
fn winget_version_heuristic_embedded_period() {
    let out = "Found Firefox\nSuccessfully installed Mozilla.Firefox version 118.0.1\n";
    assert_eq!(
        WingetManager::parse_version_from_output(out).as_deref(),
        Some("118.0.1")
    );
}

#[test]
fn winget_version_heuristic_marker_is_capitalized() {
    // Winget's success marker is capitalized; lower case does not match.
    let out = "successfully installed thing 1.2.3\n";
    assert_eq!(WingetManager::parse_version_from_output(out), None);
}

#[test]
fn winget_version_heuristic_none_without_digit() {
    let out = "Successfully installed Mozilla.Firefox\n";
    assert_eq!(WingetManager::parse_version_from_output(out), None);
}

#[test]
fn text_split_keeps_empty_pieces() {
    let parts = savvy::text::split_on("a||b|", '|');
    assert_eq!(parts, vec!["a", "", "b", ""]);
}

#[test]
fn text_tokens_drop_blank_runs() {
    let toks = savvy::text::tokens("  one \t two\r\nthree  ");
    assert_eq!(toks, vec!["one", "two", "three"]);
}

#[test]
fn text_trimmed_both_ends() {
    assert_eq!(savvy::text::trimmed(" \t x y \r\n"), "x y");
    assert_eq!(savvy::text::trimmed("   "), "");
}

#[test]
fn text_contains_str_basic() {
    assert!(savvy::text::contains_str("fully installed ok", "installed"));
    assert!(!savvy::text::contains_str("nothing", "installed"));
    assert!(savvy::text::contains_str("abc", ""));
}
