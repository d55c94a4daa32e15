use gitcomet_update::apply_update::{restart_command, RestartCommand};
use gitcomet_update::updater_args::{parse_apply_update_args, parse_u32_text};
use gitcomet_update::apply_update::{
    macos_app_bundle_root, not_in_bundle_error, task_list_mentions_pid, updater_temp_exe_name,
    wait_decision, wait_timeout_error, ApplyStep, ApplyUpdateError, ApplyUpdateRequest,
    WaitDecision,
};
use gitcomet_update::auto_update::{
    archive_filename_from_url, archive_kind_for, check_staging_available, download_progress_message,
    download_started_message, extracting_message, find_app_bundle_in_dir, is_staging_locked,
    update_binary_name, ArchiveKind, BinarySearch, BundleLocation, ListedEntry,
    BundleProbe, DirEntryInfo, DownloadProgress, UpdateError, UpdateLock, BYTES_PER_MB,
    UPDATE_LOCK_TTL_SECS,
};
use gitcomet_update::semver_tag::parse_semver_tag;
use gitcomet_update::toast::{ToastAction, ToastKind};
use gitcomet_update::update_check::{
    build_update_notice, parse_github_repo_from_url, parse_repo_slug, platform_asset_identifiers,
    resolve_platform_asset, resolve_update_repo, update_check_user_agent, GitHubRelease,
    GitHubReleaseAsset, GitHubRepo, Platform, TargetArch, TargetOs,
};
use gitcomet_update::update_download::{DownloadAction, DownloadEvent, DownloadStage, UpdateDownload};
use gitcomet_update::update_service::{
    update_checks_enabled, update_prompt, CheckResultEffect, PromptRequest, UpdatePhase,
    UpdateState, UpgradeStart,
};
use gitcomet_update::update_check::UpdateNotice;
use gitcomet_update::view_config::GitCometViewMode;

const LINUX_X86_64: Platform = Platform {
    os: TargetOs::Linux,
    arch: TargetArch::X86_64,
};

fn github_release(tag_name: &str, html_url: Option<&str>) -> GitHubRelease {
    GitHubRelease {
        tag_name: tag_name.to_string(),
        html_url: html_url.map(ToOwned::to_owned),
        assets: Vec::new(),
    }
}

#[test]
fn macos_app_bundle_root_resolves_three_levels_up_from_macos_dir() {
    let exe = "/Applications/GitComet.app/Contents/MacOS/gitcomet";
    assert_eq!(
        macos_app_bundle_root(exe),
        Some("/Applications/GitComet.app".to_string())
    );
}

#[test]
fn macos_app_bundle_root_returns_none_for_standalone_binary() {
    let exe = "/usr/local/bin/gitcomet";
    assert_eq!(macos_app_bundle_root(exe), None);
}

#[test]
fn apply_update_cli_args_include_expected_flags() {
    let request = ApplyUpdateRequest {
        wait_pid: 42,
        target_exe: "/tmp/gitcomet".to_string(),
        new_binary: "/tmp/staging/gitcomet".to_string(),
        staging_dir: "/tmp/staging".to_string(),
        app_bundle: Some("/tmp/staging/GitComet.app".to_string()),
    };
    assert_eq!(
        request.apply_update_cli_args(),
        vec![
            "apply-update".to_string(),
            "--wait-pid".to_string(),
            "42".to_string(),
            "--target-exe".to_string(),
            "/tmp/gitcomet".to_string(),
            "--new-binary".to_string(),
            "/tmp/staging/gitcomet".to_string(),
            "--staging-dir".to_string(),
            "/tmp/staging".to_string(),
            "--app-bundle".to_string(),
            "/tmp/staging/GitComet.app".to_string(),
        ]
    );
}

#[test]
fn apply_update_plan_replaces_then_restarts_then_cleans_up() {
    let request = ApplyUpdateRequest {
        wait_pid: 7,
        target_exe: "/opt/gitcomet".to_string(),
        new_binary: "/tmp/s/gitcomet".to_string(),
        staging_dir: "/tmp/s".to_string(),
        app_bundle: None,
    };
    assert_eq!(request.plan(true), vec![ApplyStep::ReexecFromTemp]);
    assert_eq!(
        request.plan(false),
        vec![
            ApplyStep::WaitForExit { pid: 7 },
            ApplyStep::ReplaceBinary {
                target: "/opt/gitcomet".to_string(),
                new_binary: "/tmp/s/gitcomet".to_string(),
            },
            ApplyStep::Restart {
                target_exe: "/opt/gitcomet".to_string(),
                used_bundle_replace: false,
            },
            ApplyStep::CleanupStaging {
                staging_dir: "/tmp/s".to_string(),
            },
        ]
    );
}

#[test]
fn apply_update_errors_and_waiting() {
    assert_eq!(wait_decision(false, 10, 5), WaitDecision::Exited);
    assert_eq!(wait_decision(true, 10, 5), WaitDecision::TimedOut);
    assert_eq!(wait_decision(true, 1, 5), WaitDecision::KeepWaiting);
    let timeout = wait_timeout_error(42);
    assert_eq!(
        timeout,
        ApplyUpdateError::WaitPid(42, "timed out waiting for main process to exit".to_string())
    );
    assert_eq!(
        not_in_bundle_error().message(),
        "apply update failed: target executable is not inside a macOS app bundle"
    );
    assert_eq!(
        timeout.message(),
        "failed waiting for process 42: timed out waiting for main process to exit"
    );
    assert_eq!(
        ApplyUpdateError::Io("denied".to_string()).message(),
        "io error: denied"
    );
    assert!(task_list_mentions_pid("gitcomet.exe   4242 Console", 4242));
    assert!(!task_list_mentions_pid("INFO: No tasks are running", 4242));
    assert_eq!(updater_temp_exe_name(99), "gitcomet-updater-99.exe");
}

#[test]
fn parse_semver_tag_accepts_plain_and_prefixed_versions() {
    for raw in ["1.2.3", "v1.2.3", "V1.2.3"] {
        let v = parse_semver_tag(raw).expect("version expected");
        assert_eq!((v.major, v.minor, v.patch), (1, 2, 3));
        assert_eq!(v.pre, "");
        assert_eq!(v.build, "");
        assert_eq!(v.display(), "1.2.3");
        assert_eq!(semver::Version::parse(&v.display()).ok(), Some(semver::Version::new(1, 2, 3)));
        assert_eq!(parse_semver_tag(raw), parse_semver_tag("1.2.3"));
    }
    assert_ne!(parse_semver_tag("1.2.3+build.7"), parse_semver_tag("1.2.3"));
    assert!(parse_semver_tag("release-1").is_none());
}

#[test]
fn build_update_notice_returns_none_when_release_is_not_newer() {
    let repo = GitHubRepo::from_slug("Auto-Explore/GitComet");
    let release = github_release("v0.1.0", None);
    assert!(build_update_notice("0.1.0", &release, &repo, LINUX_X86_64).is_none());
}

#[test]
fn build_update_notice_returns_notice_when_new_release_exists() {
    let repo = GitHubRepo::from_slug("Auto-Explore/GitComet");
    let notice = build_update_notice(
        "0.2.0",
        &github_release("v0.2.1", Some("https://example.invalid/releases/0.2.1")),
        &repo,
        LINUX_X86_64,
    )
    .expect("update notice expected");
    assert_eq!(notice.current_version, "0.2.0");
    assert_eq!(notice.latest_version, "0.2.1");
    assert_eq!(
        notice.releases_url,
        "https://example.invalid/releases/0.2.1"
    );
}

#[test]
fn build_update_notice_falls_back_to_repo_releases_page_when_no_release_url() {
    let repo = GitHubRepo::from_slug("Auto-Explore/GitComet");
    let notice = build_update_notice("0.2.0", &github_release("0.2.1", None), &repo, LINUX_X86_64)
        .expect("update notice expected");
    assert_eq!(
        notice.releases_url,
        "https://github.com/Auto-Explore/GitComet/releases"
    );
}

#[test]
fn build_update_notice_returns_none_for_non_stable_release_tag() {
    let repo = GitHubRepo::from_slug("Auto-Explore/GitComet");
    let release = github_release(
        "v0.3.0-beta.1",
        Some("https://example.invalid/releases/0.3.0-beta.1"),
    );
    assert!(build_update_notice("0.2.0", &release, &repo, LINUX_X86_64).is_none());
}

#[test]
fn parse_github_repo_from_url_supports_https_and_ssh_forms() {
    assert_eq!(
        parse_github_repo_from_url("https://github.com/Auto-Explore/GitComet.git"),
        Some(GitHubRepo {
            owner: "Auto-Explore".to_string(),
            repo: "GitComet".to_string(),
        })
    );
    assert_eq!(
        parse_github_repo_from_url("git@github.com:Auto-Explore/GitComet.git"),
        Some(GitHubRepo {
            owner: "Auto-Explore".to_string(),
            repo: "GitComet".to_string(),
        })
    );
}

#[test]
fn resolve_platform_asset_finds_matching_asset() {
    let assets = vec![
        GitHubReleaseAsset {
            name: "gitcomet-v0.2.0-macos-arm64.tar.gz".to_string(),
            browser_download_url: "https://example.com/macos-arm64.tar.gz".to_string(),
            size: 100,
        },
        GitHubReleaseAsset {
            name: "gitcomet-v0.2.0-linux-x86_64.tar.gz".to_string(),
            browser_download_url: "https://example.com/linux-x86_64.tar.gz".to_string(),
            size: 200,
        },
        GitHubReleaseAsset {
            name: "gitcomet-v0.2.0-windows-x86_64-portable.zip".to_string(),
            browser_download_url: "https://example.com/windows-x86_64-portable.zip".to_string(),
            size: 300,
        },
    ];

    for platform in [
        LINUX_X86_64,
        Platform {
            os: TargetOs::Macos,
            arch: TargetArch::Aarch64,
        },
        Platform {
            os: TargetOs::Windows,
            arch: TargetArch::X86_64,
        },
    ] {
        let result = resolve_platform_asset(&assets, platform);
        assert!(result.is_some(), "should find a matching asset for the platform");
    }
    assert_eq!(
        resolve_platform_asset(&assets, LINUX_X86_64).map(|a| a.size),
        Some(200)
    );
}

#[test]
fn resolve_platform_asset_returns_none_for_empty_assets() {
    assert!(resolve_platform_asset(&[], LINUX_X86_64).is_none());
}

#[test]
fn build_update_notice_populates_download_url_from_assets() {
    let repo = GitHubRepo::from_slug("Auto-Explore/GitComet");
    let (os_part, arch_part, extension) = platform_asset_identifiers(LINUX_X86_64);
    let asset_name = format!("gitcomet-v0.2.1-{os_part}-{arch_part}{extension}");

    let release = GitHubRelease {
        tag_name: "v0.2.1".to_string(),
        html_url: Some("https://example.invalid/releases/0.2.1".to_string()),
        assets: vec![GitHubReleaseAsset {
            name: asset_name.clone(),
            browser_download_url: format!("https://example.com/{asset_name}"),
            size: 500,
        }],
    };

    let notice = build_update_notice("0.2.0", &release, &repo, LINUX_X86_64)
        .expect("update notice expected");
    assert!(notice.download_url.is_some());
    assert_eq!(
        notice.download_url.as_deref(),
        Some("https://example.com/gitcomet-v0.2.1-linux-x86_64.tar.gz")
    );
}

#[test]
fn repository_slugs_and_urls() {
    let repo = GitHubRepo::from_slug("Auto-Explore/GitComet");
    assert_eq!(
        repo.releases_latest_api_url(),
        "https://api.github.com/repos/Auto-Explore/GitComet/releases/latest"
    );
    assert_eq!(parse_repo_slug("not a slug"), None);
    let from_env = resolve_update_repo(Some("me/fork"), "https://github.com/Auto-Explore/GitComet");
    assert_eq!(from_env.owner, "me");
    assert_eq!(from_env.repo, "fork");
    assert_eq!(
        update_check_user_agent("0.2.0", "https://github.com/Auto-Explore/GitComet"),
        "GitComet/0.2.0 (+https://github.com/Auto-Explore/GitComet)"
    );
}

#[test]
fn archive_names_and_kinds() {
    assert_eq!(
        archive_filename_from_url("https://example.com/dl/gitcomet-v1-linux-x86_64.tar.gz"),
        "gitcomet-v1-linux-x86_64.tar.gz"
    );
    assert_eq!(archive_filename_from_url("plain.zip"), "plain.zip");
    assert_eq!(archive_kind_for("a.tar.gz", TargetOs::Linux), Ok(ArchiveKind::TarGz));
    assert_eq!(archive_kind_for("a.tgz", TargetOs::Macos), Ok(ArchiveKind::TarGz));
    assert_eq!(archive_kind_for("a.zip", TargetOs::Windows), Ok(ArchiveKind::Zip));
    assert_eq!(
        archive_kind_for("a.zip", TargetOs::Linux),
        Err(UpdateError::UnsupportedArchive(
            "zip not supported on this platform".to_string()
        ))
    );
    assert_eq!(
        archive_kind_for("a.rar", TargetOs::Linux),
        Err(UpdateError::UnsupportedArchive("a.rar".to_string()))
    );
    assert_eq!(update_binary_name(TargetOs::Windows), "gitcomet.exe");
    assert_eq!(update_binary_name(TargetOs::Linux), "gitcomet");
}

#[test]
fn update_error_messages() {
    assert_eq!(UpdateError::Http("404".to_string()).message(), "HTTP error: 404");
    assert_eq!(UpdateError::Io("denied".to_string()).message(), "IO error: denied");
    assert_eq!(UpdateError::Zip("bad".to_string()).message(), "ZIP error: bad");
    assert_eq!(
        UpdateError::UnsupportedArchive("x".to_string()).message(),
        "Unsupported archive format: x"
    );
    assert_eq!(UpdateError::BinaryNotFound.message(), "Binary not found in archive");
    assert_eq!(
        UpdateError::UpdateInProgress.message(),
        "An update is already in progress"
    );
}

#[test]
fn staging_lock_blocks_until_expired() {
    let now = 10_000;
    let fresh = UpdateLock { pid: 1, started_at: now };
    let expired = UpdateLock {
        pid: 1,
        started_at: now - (UPDATE_LOCK_TTL_SECS + 1),
    };
    assert!(is_staging_locked(Some(fresh), now));
    assert!(is_staging_locked(
        Some(UpdateLock {
            pid: 1,
            started_at: now - UPDATE_LOCK_TTL_SECS
        }),
        now
    ));
    assert!(!is_staging_locked(Some(expired), now));
    assert!(!is_staging_locked(None, now));
    assert_eq!(
        check_staging_available(Some(fresh), now),
        Err(UpdateError::UpdateInProgress)
    );
    assert_eq!(check_staging_available(Some(expired), now), Ok(()));
}

#[test]
fn download_progress_reports_each_new_mebibyte() {
    let mut progress = DownloadProgress::new();
    assert_eq!(progress.record_chunk(BYTES_PER_MB - 1), None);
    assert_eq!(progress.record_chunk(1), Some(1));
    assert_eq!(progress.record_chunk(10), None);
    assert_eq!(progress.record_chunk(3 * BYTES_PER_MB), Some(4));
    assert_eq!(download_started_message("1.2.3"), "Downloading update v1.2.3...");
    assert_eq!(
        download_progress_message("1.2.3", 4),
        "Downloading update v1.2.3... 4 MB"
    );
    assert_eq!(extracting_message("1.2.3"), "Extracting update v1.2.3...");
}

/// A directory tree in memory: every path with its kind (`true` for a
/// directory), listed in the order given.
fn search_tree(tree: &[(&str, bool)], root: &str, binary_name: &str) -> Option<String> {
    let mut search = BinarySearch::new(root.to_string());
    while let Some(dir) = search.next_dir() {
        let prefix = format!("{dir}/");
        let listing: Vec<ListedEntry> = tree
            .iter()
            .filter(|(path, _)| {
                path.strip_prefix(&prefix).is_some_and(|rest| !rest.is_empty() && !rest.contains('/'))
            })
            .map(|(path, is_dir)| ListedEntry {
                path: path.to_string(),
                info: DirEntryInfo {
                    name: path.rsplit('/').next().map(str::to_string),
                    is_file: !is_dir,
                    is_dir: *is_dir,
                },
            })
            .collect();
        if let Some(found) = search.visit(&listing, binary_name) {
            return Some(found);
        }
    }
    None
}

const BINARY_NAME: &str = "gitcomet";

#[test]
fn binary_search_prefers_files_of_a_directory() {
    let tree = [
        ("/s/gitcomet-v1-linux", true),
        ("/s/gitcomet-v1-linux/gitcomet", false),
        ("/s/gitcomet", false),
        ("/s/docs", true),
    ];
    assert_eq!(search_tree(&tree, "/s", "gitcomet"), Some("/s/gitcomet".to_string()));
    assert_eq!(search_tree(&tree, "/s", "gitcomet.exe"), None);
}

#[test]
fn find_binary_in_dir_finds_direct_child() {
    let tree = [("/tmp/t/gitcomet", false)];
    assert_eq!(search_tree(&tree, "/tmp/t", BINARY_NAME), Some("/tmp/t/gitcomet".to_string()));
}

#[test]
fn find_binary_in_dir_finds_one_level_nested_release_root() {
    let tree = [
        ("/tmp/t/gitcomet-v0.0.0-linux-x86_64", true),
        ("/tmp/t/gitcomet-v0.0.0-linux-x86_64/gitcomet", false),
    ];
    assert_eq!(
        search_tree(&tree, "/tmp/t", BINARY_NAME),
        Some("/tmp/t/gitcomet-v0.0.0-linux-x86_64/gitcomet".to_string())
    );
}

#[test]
fn find_binary_in_dir_finds_deeply_nested_binary() {
    let tree = [
        ("/tmp/t/release-root", true),
        ("/tmp/t/release-root/app", true),
        ("/tmp/t/release-root/app/bin", true),
        ("/tmp/t/release-root/app/bin/gitcomet", false),
    ];
    assert_eq!(
        search_tree(&tree, "/tmp/t", BINARY_NAME),
        Some("/tmp/t/release-root/app/bin/gitcomet".to_string())
    );
}

#[test]
fn find_binary_in_dir_prefers_shallower_match() {
    let tree = [
        ("/tmp/t/gitcomet-v0.0.0-macos-arm64", true),
        ("/tmp/t/gitcomet-v0.0.0-macos-arm64/GitComet.app", true),
        ("/tmp/t/gitcomet-v0.0.0-macos-arm64/GitComet.app/Contents", true),
        ("/tmp/t/gitcomet-v0.0.0-macos-arm64/GitComet.app/Contents/MacOS", true),
        ("/tmp/t/gitcomet-v0.0.0-macos-arm64/GitComet.app/Contents/MacOS/gitcomet", false),
        ("/tmp/t/gitcomet-v0.0.0-macos-arm64/gitcomet", false),
    ];
    assert_eq!(
        search_tree(&tree, "/tmp/t", BINARY_NAME),
        Some("/tmp/t/gitcomet-v0.0.0-macos-arm64/gitcomet".to_string())
    );
}

#[test]
fn binary_search_finds_nothing_in_empty_directories() {
    let tree = [("/tmp/t/empty", true)];
    assert_eq!(search_tree(&tree, "/tmp/t", BINARY_NAME), None);
}

#[test]
fn binary_search_reads_a_level_in_listing_order_before_the_next() {
    let tree = [
        ("/r/a", true),
        ("/r/b", true),
        ("/r/a/deep", true),
        ("/r/a/deep/gitcomet", false),
        ("/r/a/gitcomet", false),
        ("/r/b/gitcomet", false),
    ];
    assert_eq!(search_tree(&tree, "/r", BINARY_NAME), Some("/r/a/gitcomet".to_string()));
}

#[test]
fn app_bundle_search_finds_bundle_or_stops_at_unreadable_entry() {
    let probe = |readable, is_dir, name: &str, nested| BundleProbe {
        readable,
        is_dir,
        name: Some(name.to_string()),
        nested_bundle_is_dir: nested,
    };
    assert_eq!(
        find_app_bundle_in_dir(&[probe(true, false, "x", false), probe(true, true, "GitComet.app", false)]),
        Some(BundleLocation::Entry(1))
    );
    assert_eq!(
        find_app_bundle_in_dir(&[probe(true, true, "release", true)]),
        Some(BundleLocation::InsideEntry(0))
    );
    assert_eq!(
        find_app_bundle_in_dir(&[probe(false, true, "GitComet.app", false)]),
        None
    );
    assert_eq!(find_app_bundle_in_dir(&[]), None);
}

fn notice(download_url: Option<&str>) -> UpdateNotice {
    UpdateNotice {
        latest_version: "0.3.0".to_string(),
        current_version: "0.2.0".to_string(),
        releases_url: "https://example.com/releases".to_string(),
        download_url: download_url.map(|u| u.to_string()),
    }
}

#[test]
fn update_workflow_status_lines() {
    let mut state = UpdateState::new();
    assert_eq!(state.status_line, "Check for updates to see status.");
    assert!(!state.check_for_updates(true, false));
    assert_eq!(state.status_line, "Update checks are disabled for this session.");
    assert!(state.check_for_updates(false, true));
    assert_eq!(state.phase, UpdatePhase::Checking);
    match state.handle_update_check_result(Some(notice(None)), false, true, false) {
        CheckResultEffect::PromptUpdate(n) => assert_eq!(n.latest_version, "0.3.0"),
        _ => panic!("a found update is offered"),
    }
    assert_eq!(state.status_line, "v0.3.0 available");
    assert!(state.should_show_update_badge(false));
    assert!(!state.should_show_update_badge(true));
    assert_eq!(
        state.update_status_for_settings(true),
        ("You're up to date.".to_string(), false)
    );
    match state.show_update_prompt() {
        PromptRequest::Prompt(n) => assert_eq!(n.latest_version, "0.3.0"),
        _ => panic!("the known update is offered"),
    }
    match state.begin_upgrade_from_notice(&notice(None)) {
        UpgradeStart::NoPackage(t) => assert_eq!(t.kind, ToastKind::Warning),
        UpgradeStart::Download { .. } => panic!("no package to download"),
    }
    state.dismiss_update_version();
    assert_eq!(state.phase, UpdatePhase::UpToDate);
    assert!(state.available_update.is_none());
    match state.handle_update_check_result(None, true, false, false) {
        CheckResultEffect::UpToDateToast(t) => assert_eq!(t.message, "You're up to date."),
        _ => panic!("a manual check reports being up to date"),
    }
    assert!(update_checks_enabled(GitCometViewMode::Normal, false));
    assert!(!update_checks_enabled(GitCometViewMode::Normal, true));
    assert!(!update_checks_enabled(GitCometViewMode::FocusedMergetool, false));
}

#[test]
fn update_prompt_offers_update_later_skip_and_notes() {
    let (message, actions) = update_prompt(&notice(Some("https://example.com/a.tar.gz")));
    assert_eq!(
        message,
        "A newer GitComet version is available: 0.3.0 (current 0.2.0)."
    );
    assert_eq!(actions.len(), 4);
    assert!(matches!(&actions[0], ToastAction::StartUpdate { label, .. } if label == "Update now"));
    assert!(matches!(&actions[1], ToastAction::PostponeUpdate { postpone_seconds: 86400, .. }));
    assert!(matches!(&actions[2], ToastAction::DismissUpdate { .. }));
    assert!(matches!(&actions[3], ToastAction::OpenUrl { .. }));
    let (_, without_package) = update_prompt(&notice(None));
    assert_eq!(without_package.len(), 3);
}

#[test]
fn update_download_runs_its_steps_in_order() {
    let mut state = UpdateState::new();
    let mut download = UpdateDownload::begin(&state, "https://example.com/dl/app.tar.gz", "0.3.0")
        .expect("no update in progress");
    assert!(matches!(
        download.handle(&mut state, DownloadEvent::Downloaded(Ok(()))),
        DownloadAction::Ignore
    ));
    assert!(matches!(
        download.handle(&mut state, DownloadEvent::ExecutableLocated(Ok(()))),
        DownloadAction::PrepareStaging
    ));
    match download.handle(&mut state, DownloadEvent::StagingPrepared(Ok(()))) {
        DownloadAction::Download {
            archive_name,
            progress_message,
        } => {
            assert_eq!(archive_name, "app.tar.gz");
            assert_eq!(progress_message, "Downloading update v0.3.0...");
        }
        _ => panic!("download starts"),
    }
    assert!(state.update_in_progress);
    assert_eq!(state.status_line, "Downloading v0.3.0\u{2026}");
    assert!(UpdateDownload::begin(&state, "u", "v").is_none());
    match download.handle(&mut state, DownloadEvent::Progress(3)) {
        DownloadAction::ShowProgress(m) => assert_eq!(m, "Downloading update v0.3.0... 3 MB"),
        _ => panic!("progress shown"),
    }
    match download.handle(&mut state, DownloadEvent::Downloaded(Ok(()))) {
        DownloadAction::Extract { progress_message } => {
            assert_eq!(progress_message, "Extracting update v0.3.0...")
        }
        _ => panic!("extract next"),
    }
    assert!(matches!(
        download.handle(&mut state, DownloadEvent::Extracted(Ok(()))),
        DownloadAction::WriteLock
    ));
    assert!(matches!(
        download.handle(&mut state, DownloadEvent::LockWritten(Ok(()))),
        DownloadAction::LaunchUpdater
    ));
    match download.handle(&mut state, DownloadEvent::UpdaterLaunched(Ok(()))) {
        DownloadAction::Restart(t) => assert_eq!(t.message, "Restarting to apply update..."),
        _ => panic!("restart"),
    }
    assert_eq!(state.phase, UpdatePhase::Applying);
    assert_eq!(download.stage, DownloadStage::Done);
    assert!(matches!(
        download.handle(&mut state, DownloadEvent::Progress(9)),
        DownloadAction::Ignore
    ));
}

#[test]
fn update_download_failures_stop_and_report() {
    let mut state = UpdateState::new();
    let mut download = UpdateDownload::begin(&state, "https://example.com/a.zip", "1.0.0").unwrap();
    download.handle(&mut state, DownloadEvent::ExecutableLocated(Ok(())));
    download.handle(&mut state, DownloadEvent::StagingPrepared(Ok(())));
    match download.handle(
        &mut state,
        DownloadEvent::Downloaded(Err(UpdateError::Http("timeout".to_string()))),
    ) {
        DownloadAction::CleanupAndReport(t) => {
            assert_eq!(t.kind, ToastKind::Error);
            assert_eq!(t.message, "Update download failed: HTTP error: timeout");
        }
        _ => panic!("failure reported"),
    }
    assert!(!state.update_in_progress);
    assert_eq!(state.phase, UpdatePhase::Failed("HTTP error: timeout".to_string()));
    assert_eq!(download.stage, DownloadStage::Done);

    let mut other = UpdateDownload::begin(&state, "u", "2.0.0").unwrap();
    other.handle(&mut state, DownloadEvent::ExecutableLocated(Ok(())));
    match other.handle(
        &mut state,
        DownloadEvent::StagingPrepared(Err(UpdateError::UpdateInProgress)),
    ) {
        DownloadAction::Abort(t) => {
            assert_eq!(t.kind, ToastKind::Warning);
            assert_eq!(t.message, "An update is already in progress.");
        }
        _ => panic!("staging locked"),
    }
    let mut third = UpdateDownload::begin(&state, "u", "2.0.0").unwrap();
    match third.handle(&mut state, DownloadEvent::ExecutableLocated(Err("gone".to_string()))) {
        DownloadAction::Abort(t) => {
            assert_eq!(t.message, "Cannot determine current executable path: gone")
        }
        _ => panic!("no executable"),
    }
}

#[test]
fn download_user_agent_names_the_version() {
    assert_eq!(
        gitcomet_update::auto_update::download_user_agent("0.3.0"),
        "GitComet/0.3.0"
    );
}

fn strings(items: &[&str]) -> Vec<String> {
    items.iter().map(|s| s.to_string()).collect()
}

#[test]
fn apply_update_arguments_are_read_into_a_request() {
    let request = parse_apply_update_args(&strings(&[
        "--wait-pid",
        "42",
        "--target-exe",
        "/tmp/gitcomet",
        "--new-binary",
        "/tmp/staging/gitcomet",
        "--staging-dir",
        "/tmp/staging",
    ]))
    .expect("parse apply-update arguments");
    assert_eq!(request.wait_pid, 42);
    assert_eq!(request.target_exe, "/tmp/gitcomet");
    assert_eq!(request.new_binary, "/tmp/staging/gitcomet");
    assert_eq!(request.staging_dir, "/tmp/staging");
    assert!(request.app_bundle.is_none());
}

#[test]
fn apply_update_arguments_read_back_what_was_written() {
    let request = ApplyUpdateRequest {
        wait_pid: 4294967295,
        target_exe: "/Applications/GitComet.app/Contents/MacOS/gitcomet".to_string(),
        new_binary: "/tmp/staging/GitComet.app/Contents/MacOS/gitcomet".to_string(),
        staging_dir: "/tmp/staging".to_string(),
        app_bundle: Some("/tmp/staging/GitComet.app".to_string()),
    };
    let args = request.apply_update_cli_args();
    assert_eq!(args[0], "apply-update");
    assert_eq!(parse_apply_update_args(&args[1..]), Ok(request));
}

#[test]
fn apply_update_arguments_report_what_is_wrong() {
    assert_eq!(
        parse_apply_update_args(&strings(&["--wait-pid"])),
        Err("missing value for --wait-pid".to_string())
    );
    assert_eq!(
        parse_apply_update_args(&strings(&["--wait-pid", "-1"])),
        Err("invalid --wait-pid value '-1'".to_string())
    );
    assert_eq!(
        parse_apply_update_args(&strings(&["--verbose", "yes"])),
        Err("unexpected argument '--verbose'".to_string())
    );
    assert_eq!(parse_apply_update_args(&[]), Err("missing --wait-pid".to_string()));
    assert_eq!(
        parse_apply_update_args(&strings(&["--wait-pid", "7", "--target-exe", "/a"])),
        Err("missing --new-binary".to_string())
    );
}

#[test]
fn process_ids_are_read_as_unsigned_numbers() {
    assert_eq!(parse_u32_text("42"), Some(42));
    assert_eq!(parse_u32_text("+42"), Some(42));
    assert_eq!(parse_u32_text("007"), Some(7));
    assert_eq!(parse_u32_text("4294967295"), Some(4294967295));
    assert_eq!(parse_u32_text("4294967296"), None);
    assert_eq!(parse_u32_text(""), None);
    assert_eq!(parse_u32_text("+"), None);
    assert_eq!(parse_u32_text("12a"), None);
    for text in ["0", "+5", "99999999999", "-3", "1 2"] {
        assert_eq!(parse_u32_text(text), text.parse::<u32>().ok());
    }
}

#[test]
fn restart_opens_a_replaced_bundle_on_macos_only() {
    let exe = "/Applications/GitComet.app/Contents/MacOS/gitcomet";
    assert_eq!(
        restart_command(exe, true, true),
        RestartCommand::OpenBundle("/Applications/GitComet.app".to_string())
    );
    assert_eq!(restart_command(exe, true, false), RestartCommand::RunExecutable(exe.to_string()));
    assert_eq!(restart_command(exe, false, true), RestartCommand::RunExecutable(exe.to_string()));
    assert_eq!(
        restart_command("/usr/local/bin/gitcomet", true, true),
        RestartCommand::RunExecutable("/usr/local/bin/gitcomet".to_string())
    );
}

#[test]
fn apply_update_plan_replaces_the_bundle_around_the_executable() {
    let mut request = ApplyUpdateRequest {
        wait_pid: 9,
        target_exe: "/Applications/GitComet.app/Contents/MacOS/gitcomet".to_string(),
        new_binary: "/tmp/s/gitcomet".to_string(),
        staging_dir: "/tmp/s".to_string(),
        app_bundle: Some("/tmp/s/GitComet.app".to_string()),
    };
    assert_eq!(
        request.plan(false),
        vec![
            ApplyStep::WaitForExit { pid: 9 },
            ApplyStep::ReplaceAppBundle {
                current_bundle: "/Applications/GitComet.app".to_string(),
                new_bundle: "/tmp/s/GitComet.app".to_string(),
            },
            ApplyStep::Restart {
                target_exe: "/Applications/GitComet.app/Contents/MacOS/gitcomet".to_string(),
                used_bundle_replace: true,
            },
            ApplyStep::CleanupStaging {
                staging_dir: "/tmp/s".to_string(),
            },
        ]
    );
    request.target_exe = "/opt/homebrew/bin/gitcomet".to_string();
    assert_eq!(
        request.plan(false),
        vec![
            ApplyStep::WaitForExit { pid: 9 },
            ApplyStep::Fail {
                error: not_in_bundle_error(),
            },
        ]
    );
}

#[test]
fn macos_app_bundle_root_goes_three_levels_up_wherever_the_marker_is() {
    assert_eq!(
        macos_app_bundle_root("/x.app/Contents/MacOS/sub/g"),
        Some("/x.app/Contents".to_string())
    );
    assert_eq!(
        macos_app_bundle_root("/Vol/a:b.app/Contents/MacOS/g"),
        Some("/Vol/a:b.app".to_string())
    );
    assert_eq!(
        macos_app_bundle_root("/Applications/GitComet.app/Contents/MacOS//gitcomet"),
        Some("/Applications/GitComet.app".to_string())
    );
    assert_eq!(
        macos_app_bundle_root("/x.app/Contents/MacOS/g/"),
        Some("/x.app".to_string())
    );
    assert_eq!(macos_app_bundle_root("/opt/homebrew/bin/gitcomet"), None);
    assert_eq!(macos_app_bundle_root("/x.app/Contents/MacOS/"), Some("/".to_string()));
    assert_eq!(macos_app_bundle_root("x.app/Contents/MacOS/"), Some(String::new()));
    assert_eq!(
        macos_app_bundle_root("/a.app/Contents/MacOS/./g"),
        Some("/a.app".to_string())
    );
}

#[test]
fn binary_search_prefers_shallower_matches() {
    let tree = [
        ("/d/A", true),
        ("/d/A/x", true),
        ("/d/A/x/gitcomet", false),
        ("/d/B", true),
        ("/d/B/gitcomet", false),
    ];
    assert_eq!(search_tree(&tree, "/d", BINARY_NAME), Some("/d/B/gitcomet".to_string()));
    let tree = [("/d/empty", true)];
    assert_eq!(search_tree(&tree, "/d", BINARY_NAME), None);
}

#[test]
fn staging_cleanup_waits_for_an_active_lock() {
    let now = 10_000;
    let fresh = UpdateLock { pid: 1, started_at: now - 5 };
    let expired = UpdateLock { pid: 1, started_at: now - 601 };
    assert!(!gitcomet_update::auto_update::staging_cleanup_allowed(false, None, now));
    assert!(gitcomet_update::auto_update::staging_cleanup_allowed(true, None, now));
    assert!(!gitcomet_update::auto_update::staging_cleanup_allowed(true, Some(fresh), now));
    assert!(gitcomet_update::auto_update::staging_cleanup_allowed(true, Some(expired), now));
}
