use gitcomet_update::apply_update::is_macos_app_bundle_executable;
use gitcomet_update::exit_code;
use gitcomet_update::launch::{
    build_focused_mergetool_gui_config, emit_result, focused_diff_labels, hex_encode,
    mode_uses_configured_git_executable_preference, should_launch_focused_diff_gui,
    startup_crash_report_hint, AppMode, ConflictStyle, DiffAlgorithm, DifftoolConfig,
    DifftoolRunResult, ExtractMergeFixturesConfig, MergetoolConfig, RunResult,
    DEFAULT_MARKER_SIZE,
};
use gitcomet_update::view_config::StartupCrashReport;

fn difftool_config(gui: bool) -> DifftoolConfig {
    DifftoolConfig {
        local: "left.txt".to_string(),
        remote: "right.txt".to_string(),
        display_path: None,
        label_left: None,
        label_right: None,
        gui,
    }
}

fn mergetool_config(base: Option<&str>) -> MergetoolConfig {
    MergetoolConfig {
        merged: "merged.txt".to_string(),
        local: "local.txt".to_string(),
        remote: "remote.txt".to_string(),
        base: base.map(|b| b.to_string()),
        label_base: None,
        label_local: None,
        label_remote: None,
        conflict_style: ConflictStyle::Merge,
        diff_algorithm: DiffAlgorithm::Myers,
        marker_size: DEFAULT_MARKER_SIZE,
        auto: false,
        gui: false,
    }
}

#[test]
fn focused_diff_gui_launches_for_success_even_when_diff_output_is_empty() {
    let config = difftool_config(true);
    let result = DifftoolRunResult {
        stdout: String::new(),
        stderr: String::new(),
        exit_code: exit_code::SUCCESS,
    };

    assert!(should_launch_focused_diff_gui(&config, &result));
}

#[test]
fn focused_diff_gui_does_not_launch_when_not_requested() {
    let config = difftool_config(false);
    let result = DifftoolRunResult {
        stdout: "diff --git".to_string(),
        stderr: String::new(),
        exit_code: exit_code::SUCCESS,
    };

    assert!(!should_launch_focused_diff_gui(&config, &result));
}

#[test]
fn focused_diff_gui_does_not_launch_on_error_exit() {
    let config = difftool_config(true);
    let result = DifftoolRunResult {
        stdout: "diff --git".to_string(),
        stderr: "error".to_string(),
        exit_code: exit_code::ERROR,
    };

    assert!(!should_launch_focused_diff_gui(&config, &result));
}

#[test]
fn configured_git_preference_is_intentionally_browser_only() {
    assert!(mode_uses_configured_git_executable_preference(
        &AppMode::Browser { path: None }
    ));
    assert!(!mode_uses_configured_git_executable_preference(
        &AppMode::Difftool(difftool_config(false))
    ));
    assert!(!mode_uses_configured_git_executable_preference(
        &AppMode::Mergetool(mergetool_config(Some("base.txt")))
    ));
    assert!(!mode_uses_configured_git_executable_preference(
        &AppMode::Setup {
            dry_run: false,
            local: false,
        }
    ));
    assert!(!mode_uses_configured_git_executable_preference(
        &AppMode::Uninstall {
            dry_run: false,
            local: false,
        }
    ));
    assert!(!mode_uses_configured_git_executable_preference(
        &AppMode::ExtractMergeFixtures(ExtractMergeFixturesConfig {
            repo: "/tmp/repo".to_string(),
            output_dir: "/tmp/out".to_string(),
            max_merges: 10,
            max_files_per_merge: 5,
        })
    ));
}

#[test]
fn detects_macos_app_bundle_executable_paths() {
    assert!(is_macos_app_bundle_executable(
        "/tmp/GitComet.app/Contents/MacOS/gitcomet"
    ));
    assert!(!is_macos_app_bundle_executable("/opt/homebrew/bin/gitcomet"));
}

#[test]
fn emit_result_writes_stdout_stderr_and_flushes() {
    let result = Ok(RunResult {
        stdout: "out".to_string(),
        stderr: "err".to_string(),
        exit_code: 7,
    });

    let emitted = emit_result(result);

    assert_eq!(emitted.exit_code, 7);
    assert_eq!(emitted.stdout.as_deref(), Some("out"));
    assert_eq!(emitted.stderr.as_deref(), Some("err"));
    assert!(emitted.flush);
}

#[test]
fn emit_result_writes_error_message_to_stderr() {
    let emitted = emit_result(Err("boom".to_string()));

    assert_eq!(emitted.exit_code, exit_code::ERROR);
    assert_eq!(emitted.stdout.as_deref(), None);
    assert_eq!(emitted.stderr.as_deref(), Some("boom\n"));
    assert!(!emitted.flush);
}

#[test]
fn emit_result_skips_empty_streams() {
    let emitted = emit_result(Ok(RunResult {
        stdout: String::new(),
        stderr: String::new(),
        exit_code: exit_code::CANCELED,
    }));
    assert_eq!(emitted.stdout, None);
    assert_eq!(emitted.stderr, None);
    assert!(emitted.flush);
    assert_eq!(emitted.exit_code, 1);
}

#[test]
fn exit_code_values_match_design() {
    assert_eq!(exit_code::SUCCESS, 0);
    assert_eq!(exit_code::CANCELED, 1);
    assert_eq!(exit_code::ERROR, 2);
}

#[test]
fn hex_encode_writes_two_lowercase_digits_per_byte() {
    assert_eq!(hex_encode(&[]), "");
    assert_eq!(hex_encode(&[0x00, 0x0f, 0xa5, 0xff]), "000fa5ff");
    assert_eq!(hex_encode(b"Hi"), "4869");
}

#[test]
fn startup_crash_report_hint_names_url_and_log() {
    let report = StartupCrashReport {
        issue_url: "https://example.com/issue".to_string(),
        summary: "panic".to_string(),
        crash_log_path: "/tmp/crash.log".to_string(),
    };
    assert_eq!(
        startup_crash_report_hint(&report),
        vec![
            "GitComet detected a crash from a previous run.".to_string(),
            "Open this URL to file a prefilled crash report:\nhttps://example.com/issue".to_string(),
            "Crash log: /tmp/crash.log".to_string(),
        ]
    );
}

#[test]
fn build_focused_mergetool_gui_config_uses_default_labels() {
    let mut config = mergetool_config(Some("/repo/base.txt"));
    config.merged = "/repo/src/conflicted.txt".to_string();
    config.local = "/repo/local.txt".to_string();
    config.remote = "/repo/remote.txt".to_string();
    let gui_config =
        build_focused_mergetool_gui_config(&config, Some("/repo".to_string())).expect("gui config");
    assert_eq!(gui_config.repo_path, "/repo");
    assert_eq!(gui_config.conflicted_file_path, "/repo/src/conflicted.txt");
    assert_eq!(gui_config.label_local, "local.txt");
    assert_eq!(gui_config.label_remote, "remote.txt");
    assert_eq!(gui_config.label_base, "base.txt");
}

#[test]
fn build_focused_mergetool_gui_config_uses_empty_tree_without_base() {
    let config = mergetool_config(None);
    let gui_config =
        build_focused_mergetool_gui_config(&config, Some("/repo".to_string())).expect("gui config");
    assert_eq!(gui_config.label_base, "empty tree");
}

#[test]
fn build_focused_mergetool_gui_config_errors_without_repo_root() {
    let mut config = mergetool_config(None);
    config.merged = "/tmp/outside-repo/merged.txt".to_string();
    let err = build_focused_mergetool_gui_config(&config, None).expect_err("missing repo root");
    assert!(err.contains("Failed to locate repository root"));
    assert!(err.contains("/tmp/outside-repo/merged.txt"));
}

#[test]
fn focused_diff_labels_prefer_given_labels() {
    let mut config = difftool_config(true);
    config.local = "/a/left.rs".to_string();
    config.label_right = Some("theirs".to_string());
    assert_eq!(
        focused_diff_labels(&config),
        ("left.rs".to_string(), "theirs".to_string())
    );
}

use gitcomet_update::launch::{
    bundle_preparation_failure_details, candidate_macos_app_bundle_paths,
    codesign_failure_message, command_failure_details, macos_dev_bundle_info_plist,
    sips_failure_message,
};

#[test]
fn helper_failures_name_their_output() {
    assert_eq!(command_failure_details("  ", "\n"), "");
    assert_eq!(command_failure_details(" out \n", ""), ": out");
    assert_eq!(command_failure_details("", " err "), ": err");
    assert_eq!(command_failure_details("o", "e"), ": stdout=o; stderr=e");
    assert_eq!(
        codesign_failure_message("/tmp/GitComet.app", "", "bad"),
        "codesign returned non-zero exit status while signing /tmp/GitComet.app: bad"
    );
    assert_eq!(
        sips_failure_message("/tmp/x.icns", "", ""),
        "sips returned non-zero exit status while generating /tmp/x.icns"
    );
}

#[test]
fn bundle_preparation_failures_are_joined() {
    assert_eq!(
        bundle_preparation_failure_details(&[]),
        "no app bundle destination available"
    );
    assert_eq!(
        bundle_preparation_failure_details(&["a: denied".to_string(), "b: full".to_string()]),
        "a: denied; b: full"
    );
}

#[test]
fn candidate_macos_app_bundle_paths_include_executable_dir_and_fallback() {
    let candidates = candidate_macos_app_bundle_paths(
        Some("/opt/homebrew/bin/GitComet.app".to_string()),
        "/Users/example/Library/Application Support/GitComet/GitComet.app".to_string(),
    );
    assert_eq!(
        candidates.first().map(String::as_str),
        Some("/opt/homebrew/bin/GitComet.app")
    );
    assert_eq!(
        candidates.last().map(String::as_str),
        Some("/Users/example/Library/Application Support/GitComet/GitComet.app")
    );
    assert_eq!(
        candidate_macos_app_bundle_paths(Some("/x/GitComet.app".to_string()), "/x/GitComet.app".to_string()),
        vec!["/x/GitComet.app".to_string()]
    );
    assert_eq!(
        candidate_macos_app_bundle_paths(None, "/y".to_string()),
        vec!["/y".to_string()]
    );
}

#[test]
fn dev_bundle_plist_carries_the_version_twice() {
    let plist = macos_dev_bundle_info_plist("1.2.3");
    assert!(plist.starts_with("<?xml version=\"1.0\" encoding=\"UTF-8\"?>\n<!DOCTYPE plist"));
    assert!(plist.contains("<key>CFBundleShortVersionString</key>\n  <string>1.2.3</string>"));
    assert!(plist.contains("<key>CFBundleVersion</key>\n  <string>1.2.3</string>"));
    assert!(plist.ends_with("</dict>\n</plist>\n"));
}

use gitcomet_update::launch::{resolve_extract_merge_fixtures, ExtractMergeFixturesArgs};

#[test]
fn extract_merge_fixtures_rejects_zero_limits() {
    let err = resolve_extract_merge_fixtures(ExtractMergeFixturesArgs {
        repo: ".".to_string(),
        out: "fixtures".to_string(),
        max_merges: 0,
        max_files_per_merge: 1,
    })
    .expect_err("zero max-merges should error");
    assert!(err.contains("--max-merges"), "unexpected error: {err}");

    let err = resolve_extract_merge_fixtures(ExtractMergeFixturesArgs {
        repo: ".".to_string(),
        out: "fixtures".to_string(),
        max_merges: 1,
        max_files_per_merge: 0,
    })
    .expect_err("zero max-files-per-merge should error");
    assert!(err.contains("--max-files-per-merge"), "unexpected error: {err}");
}

#[test]
fn extract_merge_fixtures_keeps_positive_limits() {
    let config = resolve_extract_merge_fixtures(ExtractMergeFixturesArgs {
        repo: "/tmp/repo".to_string(),
        out: "/tmp/out".to_string(),
        max_merges: 20,
        max_files_per_merge: 5,
    })
    .expect("positive limits");
    assert_eq!(
        config,
        ExtractMergeFixturesConfig {
            repo: "/tmp/repo".to_string(),
            output_dir: "/tmp/out".to_string(),
            max_merges: 20,
            max_files_per_merge: 5,
        }
    );
}
