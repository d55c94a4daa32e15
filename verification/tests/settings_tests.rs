use gitcomet_update::git_runtime::{git_runtime_status, GitStatusTone};
use gitcomet_update::settings_model::SettingsUpdateStatus;
use gitcomet_update::git_runtime::SettingsRuntimeInfo;
use gitcomet_update::git_runtime::{
    applied_git_executable_path, git_executable_scope_note, git_runtime_info_from_state,
    is_supported_git_version, parse_git_version, parse_git_version_token, parse_u32_prefix,
    GitCompatibility, GitExecutableAvailability, GitExecutableMode, GitExecutablePreference,
    GitRuntimeState, GitVersion, MIN_GIT_MAJOR, MIN_GIT_MINOR,
};
use gitcomet_update::settings::{
    git_log_tag_fetch_mode_label, history_columns_settings_label, settings_theme_modes,
    ChangeTrackingView, ClockCatalog, DateTimeFormat, DiffContentMode, DiffScrollSync,
    DiffWhitespaceMode, GitLogTagFetchMode, HistoryMode, ThemeMode, Timezone,
};

#[test]
fn git_executable_mode_tracks_runtime_preference() {
    assert_eq!(
        GitExecutableMode::from_preference(&GitExecutablePreference::SystemPath),
        GitExecutableMode::SystemPath
    );
    assert_eq!(
        GitExecutableMode::from_preference(&GitExecutablePreference::Custom(
            "/opt/git/bin/git".to_string()
        )),
        GitExecutableMode::Custom
    );
}

#[test]
fn git_runtime_info_from_state_surfaces_unavailable_detail() {
    let runtime = GitRuntimeState {
        preference: GitExecutablePreference::Custom(String::new()),
        availability: GitExecutableAvailability::Unavailable {
            detail: "Custom Git executable is not configured. Choose an executable or switch back to System PATH.".to_string(),
        },
    };

    let info = git_runtime_info_from_state(runtime.clone());
    assert_eq!(info.runtime, runtime);
    assert_eq!(info.compatibility, GitCompatibility::Unavailable);
    assert_eq!(info.version_display.as_str(), "Unavailable");
    assert_eq!(
        info.detail.as_deref(),
        Some(
            "Custom Git executable is not configured. Choose an executable or switch back to System PATH."
        )
    );
}

#[test]
fn applied_git_executable_path_tracks_runtime_preference() {
    assert_eq!(
        applied_git_executable_path(&GitRuntimeState {
            preference: GitExecutablePreference::SystemPath,
            availability: GitExecutableAvailability::Available {
                version_output: "git version 2.51.0".to_string(),
            },
        }),
        None
    );
    assert_eq!(
        applied_git_executable_path(&GitRuntimeState {
            preference: GitExecutablePreference::Custom("/opt/git/bin/git".to_string()),
            availability: GitExecutableAvailability::Available {
                version_output: "git version 2.51.0".to_string(),
            },
        }),
        Some("/opt/git/bin/git".to_string())
    );
    assert_eq!(
        applied_git_executable_path(&GitRuntimeState {
            preference: GitExecutablePreference::Custom(String::new()),
            availability: GitExecutableAvailability::Unavailable {
                detail: "missing".to_string(),
            },
        }),
        Some(String::new())
    );
}

#[test]
fn git_executable_scope_note_mentions_browser_only_scope() {
    let note = git_executable_scope_note();
    assert!(
        note.contains("browser window"),
        "expected browser-only scope note, got: {note}"
    );
    assert!(
        note.contains("System PATH"),
        "expected command-mode fallback note, got: {note}"
    );
}

#[test]
fn parse_git_version_extracts_first_version_token() {
    assert_eq!(
        parse_git_version("git version 2.50.7"),
        Some(GitVersion {
            major: 2,
            minor: 50
        })
    );
}

#[test]
fn parse_git_version_token_accepts_numeric_prefixes_and_rejects_non_numeric_prefixes() {
    assert_eq!(
        parse_git_version_token("2.45.1.windows.1"),
        Some(GitVersion {
            major: 2,
            minor: 45
        })
    );
    assert_eq!(parse_git_version_token("v2.45.1"), None);
    assert_eq!(parse_u32_prefix("53rc1"), Some(53));
    assert_eq!(parse_u32_prefix("rc53"), None);
}

#[test]
fn supported_version_requires_minimum_2_50() {
    assert!(is_supported_git_version(GitVersion {
        major: MIN_GIT_MAJOR,
        minor: MIN_GIT_MINOR,
    }));
    assert!(is_supported_git_version(GitVersion {
        major: MIN_GIT_MAJOR,
        minor: MIN_GIT_MINOR + 1,
    }));
    assert!(!is_supported_git_version(GitVersion {
        major: MIN_GIT_MAJOR,
        minor: MIN_GIT_MINOR - 1,
    }));
    assert!(is_supported_git_version(GitVersion {
        major: MIN_GIT_MAJOR + 1,
        minor: 0,
    }));
}

#[test]
fn settings_theme_modes_include_automatic_and_all_available_named_themes() {
    let available_themes = vec![
        "gitcomet_dark".to_string(),
        "gitcomet_light".to_string(),
        "solarized".to_string(),
    ];
    let modes = settings_theme_modes(&available_themes);
    assert_eq!(modes.first(), Some(&ThemeMode::Automatic));

    let named_modes = modes.iter().skip(1).map(ThemeMode::key).collect::<Vec<_>>();

    assert_eq!(
        named_modes,
        available_themes
            .iter()
            .map(String::as_str)
            .collect::<Vec<_>>()
    );
}

#[test]
fn parse_git_version_skips_tokens_without_a_version() {
    assert_eq!(parse_git_version(""), None);
    assert_eq!(parse_git_version("git version unknown"), None);
    assert_eq!(
        parse_git_version("  git\tversion 2.39.3 (Apple Git-146)"),
        Some(GitVersion {
            major: 2,
            minor: 39
        })
    );
    assert_eq!(parse_git_version_token("2"), None);
    assert_eq!(parse_u32_prefix("4294967295"), Some(u32::MAX));
    assert_eq!(parse_u32_prefix("4294967296"), None);
    assert_eq!(parse_u32_prefix("007x"), Some(7));
}

#[test]
fn git_runtime_info_classifies_versions() {
    let available = |out: &str| GitRuntimeState {
        preference: GitExecutablePreference::SystemPath,
        availability: GitExecutableAvailability::Available {
            version_output: out.to_string(),
        },
    };
    let supported = git_runtime_info_from_state(available("git version 2.51.0"));
    assert_eq!(supported.compatibility, GitCompatibility::Supported);
    assert_eq!(supported.version_display, "git version 2.51.0");
    assert_eq!(supported.detail, None);

    let old = git_runtime_info_from_state(available("git version 2.39.0"));
    assert_eq!(old.compatibility, GitCompatibility::TooOld);
    assert_eq!(
        old.detail.as_deref(),
        Some("GitComet has been tested only with Git 2.50 or newer.")
    );

    let unknown = git_runtime_info_from_state(available("not git"));
    assert_eq!(unknown.compatibility, GitCompatibility::Unknown);
    assert_eq!(
        unknown.detail.as_deref(),
        Some("GitComet has been tested only with Git 2.50 or newer.")
    );
}

#[test]
fn preference_keys_round_trip() {
    for v in [ChangeTrackingView::Combined, ChangeTrackingView::SplitUntracked] {
        assert_eq!(ChangeTrackingView::from_key(v.key()), Some(v));
    }
    for v in [
        DiffScrollSync::Vertical,
        DiffScrollSync::Horizontal,
        DiffScrollSync::Off,
        DiffScrollSync::Both,
    ] {
        assert_eq!(DiffScrollSync::from_key(v.key()), Some(v));
    }
    for v in [DiffContentMode::Full, DiffContentMode::Collapsed] {
        assert_eq!(DiffContentMode::from_key(v.key()), Some(v));
    }
    for v in [DiffWhitespaceMode::Show, DiffWhitespaceMode::Ignore] {
        assert_eq!(DiffWhitespaceMode::from_key(v.key()), Some(v));
        assert_eq!(v.toggled().toggled(), v);
        assert_ne!(v.toggled(), v);
    }
    assert_eq!(DiffScrollSync::from_key("none"), Some(DiffScrollSync::Off));
    assert_eq!(DiffContentMode::from_key("changed_lines_only"), Some(DiffContentMode::Collapsed));
    assert_eq!(ChangeTrackingView::from_key("bogus"), None);
    assert_eq!(DiffScrollSync::default(), DiffScrollSync::Both);
    assert_eq!(ChangeTrackingView::default(), ChangeTrackingView::Combined);
}

#[test]
fn preference_labels() {
    assert_eq!(ChangeTrackingView::Combined.label(), "Combined with Unstaged");
    assert_eq!(
        ChangeTrackingView::SplitUntracked.menu_label(),
        "Show separate Untracked block"
    );
    assert_eq!(ChangeTrackingView::Combined.settings_label(), "Combined");
    assert_eq!(DiffScrollSync::Off.label(), "None");
    assert!(DiffScrollSync::Both.includes_vertical());
    assert!(!DiffScrollSync::Horizontal.includes_vertical());
    assert!(DiffScrollSync::Horizontal.includes_horizontal());
    assert_eq!(DiffContentMode::Collapsed.settings_label(), "Collapsed");
    assert_eq!(
        git_log_tag_fetch_mode_label(GitLogTagFetchMode::OnRepositoryActivation),
        "On repository activation"
    );
    assert_eq!(git_log_tag_fetch_mode_label(GitLogTagFetchMode::Disabled), "Disabled");
}

#[test]
fn history_columns_label_joins_shown_columns() {
    assert_eq!(history_columns_settings_label(false, false, false, false), "None");
    assert_eq!(history_columns_settings_label(true, false, false, false), "Graph");
    assert_eq!(
        history_columns_settings_label(true, true, true, true),
        "Graph, Author, Commit date, SHA"
    );
    assert_eq!(
        history_columns_settings_label(false, true, false, true),
        "Author, SHA"
    );
}

#[test]
fn theme_mode_keys() {
    assert_eq!(ThemeMode::Automatic.key(), "automatic");
    assert!(ThemeMode::Automatic.is_automatic());
    assert_eq!(ThemeMode::Named("nord".to_string()).key(), "nord");
    assert!(!ThemeMode::Named("nord".to_string()).is_automatic());
    assert_eq!(settings_theme_modes(&[]), vec![ThemeMode::Automatic]);
}

use gitcomet_update::diff_view::DiffViewMode;
use gitcomet_update::settings_model::{SettingsModel, SettingsSection, SettingsView};

fn settings_model() -> SettingsModel {
    SettingsModel {
        theme_mode: ThemeMode::Automatic,
        ui_scale_percent: 100,
        ui_font_family: "Inter".to_string(),
        editor_font_family: "Mono".to_string(),
        use_font_ligatures: true,
        date_time_format: DateTimeFormat::YmdHm,
        timezone: Timezone { key: "local".to_string() },
        show_timezone: false,
        change_tracking_view: ChangeTrackingView::Combined,
        diff_content_mode: DiffContentMode::Full,
        diff_whitespace_mode: DiffWhitespaceMode::Show,
        diff_view_mode: DiffViewMode::Inline,
        diff_reveal_whitespace_chars: false,
        diff_word_wrap: false,
        diff_show_line_numbers: true,
        diff_scroll_sync: DiffScrollSync::Both,
        history_show_graph: true,
        history_show_author: true,
        history_show_date: true,
        history_show_sha: false,
        history_show_tags: true,
        history_tag_fetch_mode: GitLogTagFetchMode::OnRepositoryActivation,
        default_history_mode: HistoryMode(0),
        current_view: SettingsView::Root,
        git_executable_mode: GitExecutableMode::SystemPath,
        git_custom_path_draft: String::new(),
        expanded_section: None,
    }
}

#[test]
fn settings_changes_report_whether_anything_changed() {
    let mut s = settings_model();
    s.toggle_section(SettingsSection::DiffViewMode);
    assert_eq!(s.expanded_section, Some(SettingsSection::DiffViewMode));
    assert!(s.set_diff_view_mode(DiffViewMode::Split));
    assert_eq!(s.diff_view_mode, DiffViewMode::Split);
    assert_eq!(s.expanded_section, None);
    assert!(!s.set_diff_view_mode(DiffViewMode::Split));
    s.toggle_section(SettingsSection::Theme);
    s.toggle_section(SettingsSection::Theme);
    assert_eq!(s.expanded_section, None);
    assert!(!s.set_theme_mode(ThemeMode::Automatic));
    assert!(s.set_theme_mode(ThemeMode::Named("nord".to_string())));
    assert!(!s.set_theme_mode(ThemeMode::Named("nord".to_string())));
    assert!(s.set_history_column_preferences(true, false, true, false));
    assert!(!s.set_history_column_preferences(true, false, true, false));
    assert!(!s.set_diff_whitespace_mode(DiffWhitespaceMode::Show));
    assert!(s.set_ui_font_family("Fira".to_string()));
    assert!(!s.set_ui_font_family("Fira".to_string()));
    assert!(s.set_ui_scale_percent(125));
    assert!(!s.set_ui_scale_percent(125));
}

#[test]
fn hiding_tags_closes_the_tag_fetch_section() {
    let mut s = settings_model();
    s.toggle_section(SettingsSection::GitLogTagFetch);
    assert!(s.set_history_show_tags(false));
    assert_eq!(s.expanded_section, None);
    s.toggle_section(SettingsSection::Diff);
    assert!(s.set_history_show_tags(true));
    assert_eq!(s.expanded_section, Some(SettingsSection::Diff));
    assert!(s.set_history_tag_fetch_mode(GitLogTagFetchMode::Disabled));
    assert_eq!(s.expanded_section, None);
}

#[test]
fn settings_pages_and_git_executable_choice() {
    let mut s = settings_model();
    assert!(!s.show_root());
    s.toggle_section(SettingsSection::UiFont);
    assert!(s.show_open_source_licenses());
    assert_eq!(s.current_view, SettingsView::OpenSourceLicenses);
    assert_eq!(s.expanded_section, None);
    assert!(s.show_root());
    assert_eq!(s.selected_git_executable_path(), None);
    assert!(s.set_git_executable_mode(GitExecutableMode::Custom));
    s.git_custom_path_draft = "  /opt/git/bin/git \n".to_string();
    assert_eq!(
        s.selected_git_executable_path().as_deref(),
        Some("/opt/git/bin/git")
    );
    let changed = s.sync_git_runtime_state(&GitRuntimeState {
        preference: GitExecutablePreference::Custom("/usr/bin/git".to_string()),
        availability: GitExecutableAvailability::Available {
            version_output: "git version 2.50.0".to_string(),
        },
    });
    assert!(changed);
    assert_eq!(s.git_custom_path_draft, "/usr/bin/git");
    let changed = s.sync_git_runtime_state(&GitRuntimeState {
        preference: GitExecutablePreference::SystemPath,
        availability: GitExecutableAvailability::Available {
            version_output: "git version 2.50.0".to_string(),
        },
    });
    assert!(!changed);
    assert_eq!(s.git_executable_mode, GitExecutableMode::SystemPath);
    assert_eq!(s.git_custom_path_draft, "/usr/bin/git");
}

#[test]
fn each_setting_changes_only_its_own_field() {
    let mut s = settings_model();
    s.toggle_section(SettingsSection::ChangeTracking);
    assert!(s.set_change_tracking_view(ChangeTrackingView::SplitUntracked));
    assert_eq!(s.expanded_section, None);
    s.toggle_section(SettingsSection::Diff);
    assert!(s.set_diff_scroll_sync(DiffScrollSync::Vertical));
    assert_eq!(s.expanded_section, None);
    s.toggle_section(SettingsSection::DiffContentMode);
    assert!(s.set_diff_content_mode(DiffContentMode::Collapsed));
    assert_eq!(s.expanded_section, None);
    s.toggle_section(SettingsSection::Diff);
    assert!(s.set_diff_whitespace_mode(DiffWhitespaceMode::Ignore));
    assert!(s.set_diff_reveal_whitespace_chars(true));
    assert!(s.set_diff_word_wrap(true));
    assert!(s.set_diff_show_line_numbers(false));
    assert!(s.set_use_font_ligatures(false));
    assert!(s.set_show_timezone(true));
    assert_eq!(s.expanded_section, Some(SettingsSection::Diff));
    assert!(s.set_editor_font_family("Iosevka".to_string()));
    assert_eq!(s.expanded_section, None);
    assert!(!s.set_editor_font_family("Iosevka".to_string()));
    assert!(!s.set_show_timezone(true));
    assert_eq!(s.diff_scroll_sync, DiffScrollSync::Vertical);
    assert_eq!(s.change_tracking_view, ChangeTrackingView::SplitUntracked);
    assert!(s.diff_word_wrap);
    assert!(!s.diff_show_line_numbers);
}

use gitcomet_update::settings_store::{StoredUiSettings, ThemeCatalog};

fn theme_catalog() -> ThemeCatalog {
    ThemeCatalog {
        keys: vec!["gitcomet-light".to_string(), "gitcomet-dark".to_string(), "nord".to_string()],
        default_light_key: "gitcomet-light".to_string(),
        default_dark_key: "gitcomet-dark".to_string(),
    }
}

fn clock_catalog() -> ClockCatalog {
    ClockCatalog {
        ymd_hm_key: "ymd_hm".to_string(),
        ymd_hms_key: "ymd_hms".to_string(),
        dmy_hm_key: "dmy_hm".to_string(),
        mdy_hm_key: "mdy_hm".to_string(),
        timezone_keys: vec!["local".to_string(), "utc".to_string(), "europe_berlin".to_string()],
        default_timezone_key: "local".to_string(),
    }
}

fn empty_stored_settings() -> StoredUiSettings {
    StoredUiSettings {
        theme_mode: None,
        ui_scale_percent: None,
        ui_font_family: None,
        editor_font_family: None,
        use_font_ligatures: None,
        date_time_format: None,
        timezone: None,
        show_timezone: None,
        change_tracking_view: None,
        diff_scroll_sync: None,
        diff_content_mode: None,
        diff_whitespace_mode: None,
        diff_view_mode: None,
        diff_reveal_whitespace_chars: None,
        diff_word_wrap: None,
        diff_show_line_numbers: None,
        history_show_graph: None,
        history_show_author: None,
        history_show_date: None,
        history_show_sha: None,
        history_show_tags: None,
        history_tag_fetch_mode: None,
        default_history_mode: None,
        git_executable_path: None,
    }
}

fn system_runtime() -> GitRuntimeState {
    GitRuntimeState {
        preference: GitExecutablePreference::SystemPath,
        availability: GitExecutableAvailability::Unavailable {
            detail: "not checked".to_string(),
        },
    }
}

#[test]
fn theme_mode_from_key_maps_legacy_light_and_dark() {
    let catalog = theme_catalog();
    assert_eq!(ThemeMode::from_key("automatic", &catalog), Some(ThemeMode::Automatic));
    assert_eq!(
        ThemeMode::from_key("light", &catalog),
        Some(ThemeMode::Named("gitcomet-light".to_string()))
    );
    assert_eq!(
        ThemeMode::from_key("dark", &catalog),
        Some(ThemeMode::Named("gitcomet-dark".to_string()))
    );
    assert_eq!(
        ThemeMode::from_key("nord", &catalog),
        Some(ThemeMode::Named("nord".to_string()))
    );
    assert_eq!(ThemeMode::from_key("solarized", &catalog), None);
}

#[test]
fn settings_window_opens_with_defaults_when_nothing_is_stored() {
    let s = gitcomet_update::settings_model::SettingsModel::from_stored(
        &empty_stored_settings(),
        &theme_catalog(),
        &clock_catalog(),
        &system_runtime(),
        125,
        "Inter".to_string(),
        "JetBrains Mono".to_string(),
        false,
        GitLogTagFetchMode::OnRepositoryActivation,
        HistoryMode(2),
    );
    assert_eq!(s.date_time_format, DateTimeFormat::YmdHm);
    assert_eq!(s.timezone, Timezone { key: "local".to_string() });
    assert_eq!(s.default_history_mode, HistoryMode(2));
    assert_eq!(s.theme_mode, ThemeMode::Automatic);
    assert_eq!(s.ui_scale_percent, 125);
    assert_eq!(s.ui_font_family, "Inter");
    assert_eq!(s.editor_font_family, "JetBrains Mono");
    assert!(!s.use_font_ligatures);
    assert!(s.show_timezone);
    assert_eq!(s.change_tracking_view, ChangeTrackingView::Combined);
    assert_eq!(s.diff_scroll_sync, DiffScrollSync::Both);
    assert_eq!(s.diff_content_mode, DiffContentMode::Full);
    assert_eq!(s.diff_whitespace_mode, DiffWhitespaceMode::Show);
    assert_eq!(s.diff_view_mode, DiffViewMode::Split);
    assert!(!s.diff_reveal_whitespace_chars);
    assert!(!s.diff_word_wrap);
    assert!(s.diff_show_line_numbers);
    assert!(s.history_show_graph && s.history_show_author && s.history_show_date);
    assert!(!s.history_show_sha);
    assert!(s.history_show_tags);
    assert_eq!(s.history_tag_fetch_mode, GitLogTagFetchMode::OnRepositoryActivation);
    assert_eq!(s.current_view, SettingsView::Root);
    assert_eq!(s.expanded_section, None);
    assert_eq!(s.git_executable_mode, GitExecutableMode::SystemPath);
    assert_eq!(s.git_custom_path_draft, "");
}

#[test]
fn settings_window_ignores_unknown_stored_keys() {
    let mut stored = empty_stored_settings();
    stored.theme_mode = Some("solarized".to_string());
    stored.diff_view_mode = Some("sideways".to_string());
    stored.diff_scroll_sync = Some("none".to_string());
    stored.history_show_sha = Some(true);
    stored.date_time_format = Some("hm_ymd".to_string());
    stored.timezone = Some("mars_olympus".to_string());
    let runtime = GitRuntimeState {
        preference: GitExecutablePreference::Custom("/opt/git/bin/git".to_string()),
        availability: GitExecutableAvailability::Unavailable {
            detail: "not checked".to_string(),
        },
    };
    let s = gitcomet_update::settings_model::SettingsModel::from_stored(
        &stored,
        &theme_catalog(),
        &clock_catalog(),
        &runtime,
        100,
        "Inter".to_string(),
        "Mono".to_string(),
        true,
        GitLogTagFetchMode::Disabled,
        HistoryMode(0),
    );
    assert_eq!(s.date_time_format, DateTimeFormat::YmdHm);
    assert_eq!(s.timezone.key, "local");
    assert_eq!(s.theme_mode, ThemeMode::Automatic);
    assert_eq!(s.diff_view_mode, DiffViewMode::Split);
    assert_eq!(s.diff_scroll_sync, DiffScrollSync::Off);
    assert!(s.history_show_sha);
    assert_eq!(s.history_tag_fetch_mode, GitLogTagFetchMode::Disabled);
    assert_eq!(s.git_executable_mode, GitExecutableMode::Custom);
    assert_eq!(s.git_custom_path_draft, "/opt/git/bin/git");
}

#[test]
fn settings_window_reads_back_what_it_stored() {
    let mut m = settings_model();
    m.theme_mode = ThemeMode::Named("nord".to_string());
    m.diff_view_mode = DiffViewMode::Inline;
    m.diff_scroll_sync = DiffScrollSync::Horizontal;
    m.diff_whitespace_mode = DiffWhitespaceMode::Ignore;
    m.change_tracking_view = ChangeTrackingView::SplitUntracked;
    m.history_show_sha = true;
    m.history_tag_fetch_mode = GitLogTagFetchMode::Disabled;
    m.expanded_section = Some(SettingsSection::Theme);
    m.date_time_format = DateTimeFormat::DmyHm;
    m.timezone = Timezone { key: "europe_berlin".to_string() };
    m.default_history_mode = HistoryMode(1);
    let runtime = system_runtime();
    let clock = clock_catalog();
    let stored = m.to_stored(&clock, &runtime);
    assert_eq!(stored.date_time_format.as_deref(), Some("dmy_hm"));
    assert_eq!(stored.timezone.as_deref(), Some("europe_berlin"));
    assert_eq!(stored.default_history_mode, Some(HistoryMode(1)));
    assert_eq!(stored.theme_mode.as_deref(), Some("nord"));
    assert_eq!(stored.diff_view_mode.as_deref(), Some("inline"));
    assert_eq!(stored.diff_scroll_sync.as_deref(), Some("horizontal"));
    assert_eq!(stored.git_executable_path, Some(None));
    let r = gitcomet_update::settings_model::SettingsModel::from_stored(
        &stored,
        &theme_catalog(),
        &clock,
        &runtime,
        m.ui_scale_percent,
        m.ui_font_family.clone(),
        m.editor_font_family.clone(),
        m.use_font_ligatures,
        GitLogTagFetchMode::OnRepositoryActivation,
        HistoryMode(0),
    );
    assert_eq!(r.date_time_format, DateTimeFormat::DmyHm);
    assert_eq!(r.timezone, m.timezone);
    assert_eq!(r.default_history_mode, HistoryMode(1));
    assert_eq!(r.theme_mode, m.theme_mode);
    assert_eq!(r.diff_view_mode, m.diff_view_mode);
    assert_eq!(r.diff_scroll_sync, m.diff_scroll_sync);
    assert_eq!(r.diff_whitespace_mode, m.diff_whitespace_mode);
    assert_eq!(r.change_tracking_view, m.change_tracking_view);
    assert_eq!(r.show_timezone, m.show_timezone);
    assert_eq!(r.history_show_sha, m.history_show_sha);
    assert_eq!(r.history_tag_fetch_mode, m.history_tag_fetch_mode);
    assert_eq!(r.expanded_section, None);
}

#[test]
fn settings_update_status_reports_changes_only() {
    let mut status = SettingsUpdateStatus::new();
    assert_eq!(status.status_line, "Check for updates to see status.");
    assert!(!status.update_available);
    assert!(!status.update_check_in_progress);
    status.check_for_updates_from_settings();
    assert!(status.update_check_in_progress);
    assert_eq!(status.status_line, "Checking for updates\u{2026}");
    assert!(status.set_update_settings_state("v1.2.0 available".to_string(), true, false));
    assert_eq!(status.status_line, "v1.2.0 available");
    assert!(status.update_available);
    assert!(!status.update_check_in_progress);
    assert!(!status.set_update_settings_state("v1.2.0 available".to_string(), true, false));
}

#[test]
fn settings_runtime_info_describes_app_and_platform() {
    let info = SettingsRuntimeInfo::from_runtime(system_runtime(), "0.3.1", "linux", "unix", "x86_64");
    assert_eq!(info.app_version_display, "GitComet v0.3.1");
    assert_eq!(info.operating_system, "linux (unix, x86_64)");
    assert_eq!(info.git.compatibility, GitCompatibility::Unavailable);
    assert_eq!(info.git.version_display, "Unavailable");
}

#[test]
fn ui_scale_presets_carry_notes() {
    assert_eq!(gitcomet_update::settings::ui_scale_preset_detail(100, 100), Some("Default scale"));
    assert_eq!(gitcomet_update::settings::ui_scale_preset_detail(90, 100), Some("Fit more on screen"));
    assert_eq!(
        gitcomet_update::settings::ui_scale_preset_detail(125, 100),
        Some("Larger controls and text")
    );
    assert_eq!(gitcomet_update::settings::ui_scale_preset_detail(175, 100), None);
}

#[test]
fn git_runtime_status_line_matches_compatibility() {
    assert_eq!(
        git_runtime_status(GitCompatibility::Supported),
        ("icons/check.svg", GitStatusTone::Success, "Git >= 2.50")
    );
    assert_eq!(
        git_runtime_status(GitCompatibility::TooOld),
        ("icons/warning.svg", GitStatusTone::Warning, "Git < 2.50")
    );
    assert_eq!(
        git_runtime_status(GitCompatibility::Unknown),
        ("icons/warning.svg", GitStatusTone::Warning, "Git version unknown")
    );
    assert_eq!(
        git_runtime_status(GitCompatibility::Unavailable),
        ("icons/warning.svg", GitStatusTone::Danger, "Unavailable")
    );
}

#[test]
fn date_time_and_history_settings_report_changes() {
    let mut s = settings_model();
    s.toggle_section(SettingsSection::Diff);
    assert!(!s.set_date_time_format(DateTimeFormat::YmdHm));
    assert_eq!(s.expanded_section, Some(SettingsSection::Diff));
    assert!(s.set_date_time_format(DateTimeFormat::MdyHm));
    assert_eq!(s.date_time_format, DateTimeFormat::MdyHm);
    assert!(!s.set_timezone(Timezone { key: "local".to_string() }));
    assert!(s.set_timezone(Timezone { key: "utc".to_string() }));
    assert_eq!(s.timezone.key, "utc");
    assert!(!s.set_default_history_mode(HistoryMode(0)));
    assert!(s.set_default_history_mode(HistoryMode(3)));
    assert_eq!(s.default_history_mode, HistoryMode(3));
}

#[test]
fn date_time_format_and_timezone_keys() {
    let clock = clock_catalog();
    assert_eq!(DateTimeFormat::YmdHms.key(&clock), "ymd_hms");
    assert_eq!(DateTimeFormat::from_key("mdy_hm", &clock), Some(DateTimeFormat::MdyHm));
    assert_eq!(DateTimeFormat::from_key("hm", &clock), None);
    assert_eq!(
        Timezone::from_key("utc", &clock),
        Some(Timezone { key: "utc".to_string() })
    );
    assert_eq!(Timezone::from_key("nowhere", &clock), None);
}
