use gitcomet_update::view_config::{FocusedMergetoolLabels, FocusedMergetoolViewConfig};
use gitcomet_update::settings::DiffWhitespaceMode;
use gitcomet_update::conflict_state::{
    VisibleLineSpan,
    ConflictBlock, ConflictChoice, ConflictResolverUiState, ConflictResolverViewMode,
    ConflictSegment, ThreeWayConflictMaps,
};
use gitcomet_update::diff_view::is_svg_path;
use std::any::TypeId;

use gitcomet_update::conflict::{
    append_conflict_row_without_whitespace, deferred_line_starts_for_text, indexed_line_text,
    three_way_widest_rows, DeferredLineStarts, FileDiffRow, FileDiffRowKind, LineStats,
    SegmentLineStats, ThreeWayColumn, ThreeWaySides, WidestLine,
};
use gitcomet_update::diff_view::{
    diff_target_rendered_preview_kind, is_markdown_extension, is_markdown_path,
    main_diff_rendered_preview_toggle_kind, preview_path_rendered_kind,
    selected_branch_history_entry_text, should_hide_unified_diff_header_line, AnnotatedDiffLine,
    BranchSection, ConflictDiffSplitResizeDragGhost, ConflictHSplitResizeDragGhost,
    ConflictVSplitResizeDragGhost, DiffLineKind, DiffSplitResizeDragGhost, DiffTextOffsetMap,
    DiffTextPos, DiffTextRegion, DiffViewMode, HistoryColResizeDragGhost, PaneResizeDragGhost,
    RenderedPreviewKind, RenderedPreviewMode, RenderedPreviewModes, ResizeDragGhost,
    SelectedBranch, StatusSectionResizeDragGhost,
};
use gitcomet_update::status::{
    reconcile_status_multi_selection, reconcile_status_multi_selection_with_repo, status_section_is_loading,
    status_section_rev, DiffArea, FileStatus, FileStatusKind, RepoStatus, RepoStatusState,
    StatusMultiSelection, StatusSection, StatusSectionEntries,
};
use gitcomet_update::view_config::{
    focused_mergetool_bootstrap_action, renders_full_chrome, repository_entry_interstitial_active,
    should_seed_initial_repository_from_session, should_show_splash_screen,
    should_show_startup_repository_loading_screen, submodule_diff_bootstrap_action,
    titlebar_workspace_actions_enabled, BootstrapRepo, BootstrapState, DiffTarget,
    FocusedMergetoolBootstrap, FocusedMergetoolBootstrapAction, GitCometViewConfig,
    GitCometViewMode, InitialRepositoryLaunchMode, RepoId, StartupCrashReport,
    SubmoduleDiffBootstrap, SubmoduleDiffBootstrapAction,
};

#[test]
fn all_resize_drag_ghost_aliases_use_shared_type() {
    let shared = TypeId::of::<ResizeDragGhost>();

    assert_eq!(TypeId::of::<HistoryColResizeDragGhost>(), shared);
    assert_eq!(TypeId::of::<PaneResizeDragGhost>(), shared);
    assert_eq!(TypeId::of::<DiffSplitResizeDragGhost>(), shared);
    assert_eq!(TypeId::of::<ConflictVSplitResizeDragGhost>(), shared);
    assert_eq!(TypeId::of::<StatusSectionResizeDragGhost>(), shared);
    assert_eq!(TypeId::of::<ConflictHSplitResizeDragGhost>(), shared);
    assert_eq!(TypeId::of::<ConflictDiffSplitResizeDragGhost>(), shared);
}

#[test]
fn three_way_sides_keep_each_column_separate() {
    let mut sides = ThreeWaySides {
        base: vec![1],
        ours: vec![2],
        theirs: vec![3],
    };

    sides.base.push(10);
    sides.ours.push(20);
    sides.theirs.push(30);

    assert_eq!(sides.base, vec![1, 10]);
    assert_eq!(sides.ours, vec![2, 20]);
    assert_eq!(sides.theirs, vec![3, 30]);
}

#[test]
fn three_way_sides_index_by_column() {
    let mut sides = ThreeWaySides {
        base: 10,
        ours: 20,
        theirs: 30,
    };

    assert_eq!(sides[ThreeWayColumn::Base], 10);
    assert_eq!(sides[ThreeWayColumn::Ours], 20);
    assert_eq!(sides[ThreeWayColumn::Theirs], 30);

    sides[ThreeWayColumn::Ours] = 42;
    assert_eq!(sides.ours, 42);
}

#[test]
fn three_way_sides_get_and_set_touch_one_column() {
    let mut sides = ThreeWaySides {
        base: 1,
        ours: 2,
        theirs: 3,
    };
    sides.set(ThreeWayColumn::Theirs, 9);
    assert_eq!(*sides.get(ThreeWayColumn::Theirs), 9);
    assert_eq!(*sides.get(ThreeWayColumn::Base), 1);
    assert_eq!(*sides.get(ThreeWayColumn::Ours), 2);
}

fn status(path: &str, kind: FileStatusKind) -> FileStatus {
    FileStatus {
        path: path.to_string(),
        kind,
    }
}

fn paths(ps: &[&str]) -> Vec<String> {
    ps.iter().map(|p| p.to_string()).collect()
}

#[test]
fn reconcile_keeps_only_paths_still_listed() {
    let mut selection = StatusMultiSelection::new();
    selection.untracked = paths(&["new.txt", "gone.txt", "now_tracked.txt"]);
    selection.untracked_anchor = Some("gone.txt".to_string());
    selection.unstaged = paths(&["a.txt", "b.txt"]);
    selection.unstaged_anchor = Some("a.txt".to_string());
    selection.unstaged_anchor_index = Some(0);
    selection.unstaged_anchor_status_rev = Some(3);
    selection.staged = paths(&["s.txt", "t.txt"]);
    selection.staged_anchor = Some("t.txt".to_string());
    selection.staged_anchor_index = Some(1);
    selection.staged_anchor_status_rev = Some(4);

    let repo_status = RepoStatus {
        unstaged: vec![
            status("new.txt", FileStatusKind::Untracked),
            status("now_tracked.txt", FileStatusKind::Modified),
            status("a.txt", FileStatusKind::Modified),
        ],
        staged: vec![status("s.txt", FileStatusKind::Added)],
    };
    reconcile_status_multi_selection(&mut selection, &repo_status);

    assert_eq!(selection.untracked, paths(&["new.txt"]));
    assert_eq!(selection.untracked_anchor, None);
    assert_eq!(selection.unstaged, paths(&["a.txt"]));
    assert_eq!(selection.unstaged_anchor.as_deref(), Some("a.txt"));
    assert_eq!(selection.unstaged_anchor_index, Some(0));
    assert_eq!(selection.unstaged_anchor_status_rev, Some(3));
    assert_eq!(selection.staged, paths(&["s.txt"]));
    assert_eq!(selection.staged_anchor, None);
    assert_eq!(selection.staged_anchor_index, None);
    assert_eq!(selection.staged_anchor_status_rev, None);

    let untracked_before = selection.untracked.clone();
    reconcile_status_multi_selection(&mut selection, &repo_status);
    assert_eq!(selection.untracked, untracked_before);
}

#[test]
fn reconcile_with_repo_leaves_unloaded_sides_alone() {
    let mut selection = StatusMultiSelection::new();
    selection.unstaged = paths(&["a.txt"]);
    selection.staged = paths(&["gone.txt"]);
    let repo = RepoStatusState {
        worktree: None,
        staged: Some(vec![]),
        worktree_rev: 1,
        staged_rev: 2,
        worktree_loading: true,
        staged_loading: false,
    };
    reconcile_status_multi_selection_with_repo(&mut selection, &repo);
    assert_eq!(selection.unstaged, paths(&["a.txt"]));
    assert!(selection.staged.is_empty());
    assert_eq!(status_section_rev(&repo, StatusSection::Staged), 2);
    assert_eq!(status_section_rev(&repo, StatusSection::Untracked), 1);
    assert!(status_section_is_loading(&repo, StatusSection::Unstaged));
    assert!(!status_section_is_loading(&repo, StatusSection::Staged));
}

#[test]
fn selection_for_area_falls_back_to_untracked() {
    let mut selection = StatusMultiSelection::new();
    assert!(selection.is_empty());
    selection.untracked = paths(&["u.txt"]);
    selection.staged = paths(&["s1", "s2"]);
    assert_eq!(selection.selected_paths_for_area(DiffArea::Unstaged), &paths(&["u.txt"])[..]);
    assert_eq!(selection.selected_count_for_area(DiffArea::Staged), 2);
    assert_eq!(
        selection.first_selected_for_area(DiffArea::Staged).map(String::as_str),
        Some("s1")
    );
    selection.unstaged = paths(&["m.txt"]);
    assert_eq!(selection.selected_paths_for_area(DiffArea::Unstaged), &paths(&["m.txt"])[..]);
    assert_eq!(
        selection.take_selected_paths_for_area(DiffArea::Unstaged),
        paths(&["m.txt"])
    );
}

#[test]
fn status_sections_filter_entries() {
    let repo = RepoStatusState {
        worktree: Some(vec![
            status("a", FileStatusKind::Modified),
            status("b", FileStatusKind::Untracked),
            status("c", FileStatusKind::Deleted),
        ]),
        staged: None,
        worktree_rev: 0,
        staged_rev: 0,
        worktree_loading: false,
        staged_loading: false,
    };
    let untracked = StatusSectionEntries::from_repo(&repo, StatusSection::Untracked).unwrap();
    assert_eq!(untracked.len(), 1);
    assert_eq!(untracked.path_vec(), paths(&["b"]));
    let unstaged = StatusSectionEntries::from_repo(&repo, StatusSection::Unstaged).unwrap();
    assert_eq!(unstaged.path_vec(), paths(&["a", "c"]));
    assert_eq!(unstaged.get(1).map(|e| e.path.as_str()), Some("c"));
    assert!(unstaged.get(2).is_none());
    assert!(unstaged.contains_path("c"));
    assert!(!unstaged.contains_path("b"));
    let combined = StatusSectionEntries::from_repo(&repo, StatusSection::CombinedUnstaged).unwrap();
    assert_eq!(combined.len(), 3);
    assert!(StatusSectionEntries::from_repo(&repo, StatusSection::Staged).is_none());
    assert_eq!(StatusSection::Staged.diff_area(), DiffArea::Staged);
    assert_eq!(StatusSection::Untracked.diff_area(), DiffArea::Unstaged);
    assert_eq!(StatusSection::CombinedUnstaged.id_label(), "unstaged");
    assert_eq!(StatusSection::Untracked.id_label(), "untracked");
}

#[test]
fn view_config_constructors() {
    let report = StartupCrashReport {
        issue_url: "u".to_string(),
        summary: "s".to_string(),
        crash_log_path: "p".to_string(),
    };
    let normal = GitCometViewConfig::normal(Some(report.clone()));
    assert_eq!(normal.initial_path, None);
    assert_eq!(
        normal.initial_repository_launch_mode,
        InitialRepositoryLaunchMode::RestoreSession
    );
    assert_eq!(normal.view_mode, GitCometViewMode::Normal);
    assert!(normal.focused_mergetool.is_none());
    assert!(normal.focused_mergetool_exit_code.is_none());
    assert_eq!(normal.startup_crash_report, Some(report));

    let explicit = GitCometViewConfig::normal_with_initial_repository("/repo".to_string(), None);
    assert_eq!(explicit.initial_path.as_deref(), Some("/repo"));
    assert_eq!(
        explicit.initial_repository_launch_mode,
        InitialRepositoryLaunchMode::OpenExplicitly
    );
    assert_eq!(explicit.startup_crash_report, None);
}

#[test]
fn startup_screens_are_exclusive() {
    let normal = GitCometViewMode::Normal;
    let focused = GitCometViewMode::FocusedMergetool;
    assert!(renders_full_chrome(normal));
    assert!(!renders_full_chrome(focused));
    assert!(repository_entry_interstitial_active(normal, false));
    assert!(!repository_entry_interstitial_active(normal, true));
    assert!(!repository_entry_interstitial_active(focused, false));
    assert!(should_show_startup_repository_loading_screen(normal, false, true));
    assert!(!should_show_splash_screen(normal, false, true));
    assert!(should_show_splash_screen(normal, false, false));
    assert!(!titlebar_workspace_actions_enabled(normal, false));
    assert!(titlebar_workspace_actions_enabled(normal, true));
    assert!(should_seed_initial_repository_from_session(
        normal,
        Some("/r"),
        InitialRepositoryLaunchMode::OpenExplicitly,
        false
    ));
    assert!(!should_seed_initial_repository_from_session(
        normal,
        Some("/r"),
        InitialRepositoryLaunchMode::RestoreSession,
        false
    ));
    assert!(should_seed_initial_repository_from_session(
        normal,
        Some("/r"),
        InitialRepositoryLaunchMode::RestoreSession,
        true
    ));
    assert!(!should_seed_initial_repository_from_session(
        focused,
        Some("/r"),
        InitialRepositoryLaunchMode::OpenExplicitly,
        true
    ));
    assert!(!should_seed_initial_repository_from_session(
        normal,
        None,
        InitialRepositoryLaunchMode::OpenExplicitly,
        true
    ));
}

fn repo(id: u64, workdir: &str) -> BootstrapRepo {
    BootstrapRepo {
        id: RepoId(id),
        workdir: workdir.to_string(),
        open_ready: false,
        diff_target: None,
        conflict_file_path: None,
        conflict_file_requested: false,
    }
}

#[test]
fn focused_mergetool_bootstrap_walks_through_its_steps() {
    let bootstrap = FocusedMergetoolBootstrap {
        repo_path: "/repo".to_string(),
        target_path: "src/a.txt".to_string(),
    };
    let mut state = BootstrapState {
        repos: vec![repo(1, "/other")],
        active_repo: None,
    };
    assert_eq!(
        focused_mergetool_bootstrap_action(&state, &bootstrap),
        Some(FocusedMergetoolBootstrapAction::OpenRepo("/repo".to_string()))
    );
    state.repos.push(repo(2, "/repo"));
    assert_eq!(
        focused_mergetool_bootstrap_action(&state, &bootstrap),
        Some(FocusedMergetoolBootstrapAction::SetActiveRepo(RepoId(2)))
    );
    state.active_repo = Some(RepoId(2));
    assert_eq!(focused_mergetool_bootstrap_action(&state, &bootstrap), None);
    state.repos[1].open_ready = true;
    assert_eq!(
        focused_mergetool_bootstrap_action(&state, &bootstrap),
        Some(FocusedMergetoolBootstrapAction::SelectConflictDiff {
            repo_id: RepoId(2),
            path: "src/a.txt".to_string()
        })
    );
    state.repos[1].diff_target = Some(DiffTarget::WorkingTree {
        path: "src/a.txt".to_string(),
        area: DiffArea::Unstaged,
    });
    assert_eq!(
        focused_mergetool_bootstrap_action(&state, &bootstrap),
        Some(FocusedMergetoolBootstrapAction::LoadConflictFile {
            repo_id: RepoId(2),
            path: "src/a.txt".to_string()
        })
    );
    state.repos[1].conflict_file_path = Some("src/a.txt".to_string());
    state.repos[1].conflict_file_requested = true;
    assert_eq!(
        focused_mergetool_bootstrap_action(&state, &bootstrap),
        Some(FocusedMergetoolBootstrapAction::Complete)
    );
}

#[test]
fn submodule_diff_bootstrap_selects_its_target() {
    let target = DiffTarget::Commit {
        commit_id: "abc".to_string(),
        path: Some("lib.rs".to_string()),
    };
    let bootstrap = SubmoduleDiffBootstrap {
        repo_path: "/sub".to_string(),
        target: target.clone(),
    };
    let mut ready = repo(5, "/sub");
    ready.open_ready = true;
    let mut state = BootstrapState {
        repos: vec![ready],
        active_repo: Some(RepoId(5)),
    };
    assert_eq!(
        submodule_diff_bootstrap_action(&state, &bootstrap),
        Some(SubmoduleDiffBootstrapAction::SelectDiff {
            repo_id: RepoId(5),
            target: target.clone()
        })
    );
    state.repos[0].diff_target = Some(target);
    assert_eq!(
        submodule_diff_bootstrap_action(&state, &bootstrap),
        Some(SubmoduleDiffBootstrapAction::Complete)
    );
}

#[test]
fn preview_kinds_follow_extensions() {
    assert!(is_markdown_extension("MD"));
    assert!(is_markdown_extension("mkdn"));
    assert!(!is_markdown_extension("txt"));
    assert!(is_markdown_path("docs/README.markdown"));
    assert!(!is_markdown_path("Makefile"));
    assert_eq!(preview_path_rendered_kind("logo.SVG"), Some(RenderedPreviewKind::Svg));
    assert_eq!(preview_path_rendered_kind("notes.md"), Some(RenderedPreviewKind::Markdown));
    assert_eq!(preview_path_rendered_kind("main.rs"), None);
    let wt = DiffTarget::WorkingTree {
        path: "a.md".to_string(),
        area: DiffArea::Staged,
    };
    assert_eq!(
        diff_target_rendered_preview_kind(Some(&wt)),
        Some(RenderedPreviewKind::Markdown)
    );
    let commit_all = DiffTarget::Commit {
        commit_id: "c".to_string(),
        path: None,
    };
    assert_eq!(diff_target_rendered_preview_kind(Some(&commit_all)), None);
    assert_eq!(diff_target_rendered_preview_kind(None), None);
    assert_eq!(
        main_diff_rendered_preview_toggle_kind(false, true, Some(RenderedPreviewKind::Markdown)),
        Some(RenderedPreviewKind::Markdown)
    );
    assert_eq!(
        main_diff_rendered_preview_toggle_kind(false, true, Some(RenderedPreviewKind::Svg)),
        None
    );
    assert_eq!(
        main_diff_rendered_preview_toggle_kind(true, false, Some(RenderedPreviewKind::Svg)),
        Some(RenderedPreviewKind::Svg)
    );
}

#[test]
fn preview_modes_and_labels() {
    let mut modes = RenderedPreviewModes::default();
    assert_eq!(modes.get(RenderedPreviewKind::Svg), RenderedPreviewMode::Rendered);
    modes.set(RenderedPreviewKind::Svg, RenderedPreviewMode::Source);
    assert_eq!(modes.get(RenderedPreviewKind::Svg), RenderedPreviewMode::Source);
    assert_eq!(modes.get(RenderedPreviewKind::Markdown), RenderedPreviewMode::Rendered);
    assert_eq!(RenderedPreviewKind::Svg.rendered_label(), "Image");
    assert_eq!(RenderedPreviewKind::Markdown.source_label(), "Text");
    assert_eq!(RenderedPreviewKind::Markdown.toggle_id(), "markdown_diff_view_toggle");
    assert_eq!(RenderedPreviewKind::Svg.rendered_button_id(), "svg_diff_view_image");
    assert_eq!(RenderedPreviewKind::Svg.source_button_id(), "svg_diff_view_code");
    assert_eq!(DiffViewMode::from_key(DiffViewMode::Split.key()), Some(DiffViewMode::Split));
    assert_eq!(DiffViewMode::Inline.settings_label(), "Inline");
}

#[test]
fn unified_diff_header_lines_are_hidden() {
    let line = |kind, text: &str| AnnotatedDiffLine {
        kind,
        text: text.to_string(),
    };
    assert!(should_hide_unified_diff_header_line(&line(DiffLineKind::Header, "index 123..456")));
    assert!(should_hide_unified_diff_header_line(&line(DiffLineKind::Header, "--- a/x")));
    assert!(should_hide_unified_diff_header_line(&line(DiffLineKind::Header, "+++ b/x")));
    assert!(!should_hide_unified_diff_header_line(&line(
        DiffLineKind::Header,
        "diff --git a/x b/x"
    )));
    assert!(!should_hide_unified_diff_header_line(&line(DiffLineKind::Remove, "--- a/x")));
}

#[test]
fn diff_text_positions_and_offsets() {
    let pos = DiffTextPos {
        source_visible_ix: 3,
        region: DiffTextRegion::SplitRight,
        offset: 7,
    };
    assert_eq!(pos.cmp_key(), (3, 1, 7));
    assert_eq!(DiffTextRegion::SplitLeft.order(), 0);
    let map = DiffTextOffsetMap {
        display_to_source: vec![0, 1, 1, 2],
        source_to_display: vec![0, 1, 3],
    };
    assert_eq!(map.display_len(), 3);
    assert_eq!(map.source_len(), 2);
    assert_eq!(map.source_offset_for_display(2), 1);
    assert_eq!(map.source_offset_for_display(99), 2);
    assert_eq!(map.display_offset_for_source(1), 1);
    assert_eq!(map.display_offset_for_source(99), 3);
    let empty = DiffTextOffsetMap {
        display_to_source: vec![],
        source_to_display: vec![],
    };
    assert_eq!(empty.source_offset_for_display(5), 0);
}

#[test]
fn selected_branch_history_text() {
    let local = SelectedBranch {
        repo_id: RepoId(1),
        section: BranchSection::Local,
        name: "main".to_string(),
    };
    assert_eq!(
        selected_branch_history_entry_text(Some(&local), RepoId(1), true, true).as_deref(),
        Some("HEAD \u{2192} main")
    );
    assert_eq!(
        selected_branch_history_entry_text(Some(&local), RepoId(1), false, true).as_deref(),
        Some("main")
    );
    assert_eq!(selected_branch_history_entry_text(Some(&local), RepoId(2), true, true), None);
    assert_eq!(selected_branch_history_entry_text(Some(&local), RepoId(1), true, false), None);
    let remote = SelectedBranch {
        section: BranchSection::Remote,
        name: "origin/main".to_string(),
        ..local
    };
    assert_eq!(
        selected_branch_history_entry_text(Some(&remote), RepoId(1), true, true).as_deref(),
        Some("origin/main")
    );
}

#[test]
fn line_starts_and_line_text() {
    let text = "ctx\nbase 1\nend\n";
    let starts = deferred_line_starts_for_text(text);
    assert_eq!(starts, vec![0, 4, 11, 15]);
    assert_eq!(indexed_line_text(text, &starts, 0), Some("ctx"));
    assert_eq!(indexed_line_text(text, &starts, 1), Some("base 1"));
    assert_eq!(indexed_line_text(text, &starts, 2), Some("end"));
    assert_eq!(indexed_line_text(text, &starts, 3), None);
    assert_eq!(indexed_line_text("", &starts, 0), None);
    assert_eq!(indexed_line_text("h\u{e9}llo", &[0, 2], 0), Some(""));
    let mut deferred = DeferredLineStarts::with_line_count(3);
    assert!(!deferred.is_materialized());
    assert!(!deferred.is_empty());
    deferred.materialize(text);
    assert_eq!(deferred.starts(), Some(&starts[..]));
    assert_eq!(deferred.line_count(), 3);
    let ready = DeferredLineStarts::from_starts(vec![0, 5]);
    assert_eq!(ready.line_count(), 2);
    assert!(ready.is_materialized());
}

#[test]
fn conflict_rows_drop_whitespace() {
    let mut old_out = String::new();
    let mut new_out = String::new();
    let row = FileDiffRow {
        kind: FileDiffRowKind::Modify,
        old: Some("let x = 1\n".to_string()),
        new: Some("let x=1".to_string()),
    };
    append_conflict_row_without_whitespace(&row, &mut old_out, &mut new_out);
    assert_eq!(old_out, "letx=1");
    assert_eq!(new_out, "letx=1");
    let context = FileDiffRow {
        kind: FileDiffRowKind::Context,
        old: Some("a b".to_string()),
        new: Some("a b".to_string()),
    };
    append_conflict_row_without_whitespace(&context, &mut old_out, &mut new_out);
    assert_eq!(old_out, "letx=1");
    let add = FileDiffRow {
        kind: FileDiffRowKind::Add,
        old: None,
        new: Some(" y ".to_string()),
    };
    append_conflict_row_without_whitespace(&add, &mut old_out, &mut new_out);
    assert_eq!(new_out, "letx=1y");
}

#[test]
fn widest_rows_follow_each_column() {
    let stats = |line_count, widest: Option<(usize, usize)>| LineStats {
        line_count,
        widest: widest.map(|(index, width)| WidestLine { index, width }),
    };
    let segments = vec![
        SegmentLineStats::Text(stats(2, Some((1, 5)))),
        SegmentLineStats::Block {
            base: Some(stats(1, Some((0, 9)))),
            ours: stats(3, Some((2, 4))),
            theirs: stats(1, Some((0, 7))),
        },
        SegmentLineStats::Text(stats(1, Some((0, 6)))),
    ];
    let rows = three_way_widest_rows(&segments);
    assert_eq!(rows.base, 2);
    assert_eq!(rows.ours, 5);
    assert_eq!(rows.theirs, 2);
    let none = three_way_widest_rows(&[]);
    assert_eq!((none.base, none.ours, none.theirs), (0, 0, 0));
}

#[test]
fn materialized_line_starts_keep_their_count() {
    let starts = DeferredLineStarts::materialized_with_count(vec![0, 3, 7], 2);
    assert_eq!(starts.line_count(), 2);
    assert!(starts.is_materialized());
    assert_eq!(starts.starts(), Some(&[0usize, 3, 7][..]));
    let mut again = DeferredLineStarts::materialized_with_count(vec![0], 1);
    again.materialize("a\nb\n");
    assert_eq!(again.starts(), Some(&[0usize][..]));
}

use gitcomet_update::bootstrap_paths::{
    bootstrap_kept_path, focused_mergetool_target_path, normalize_bootstrap_diff_target,
};

#[test]
fn bootstrap_kept_path_prefers_relative_forms() {
    assert_eq!(bootstrap_kept_path("src/a.rs", true, None, None), "src/a.rs");
    assert_eq!(
        bootstrap_kept_path("/repo/src/a.rs", false, Some("src/a.rs".to_string()), None),
        "src/a.rs"
    );
    assert_eq!(
        bootstrap_kept_path("/link/src/a.rs", false, None, Some("src/a.rs".to_string())),
        "src/a.rs"
    );
    assert_eq!(bootstrap_kept_path("/elsewhere/a.rs", false, None, None), "/elsewhere/a.rs");
}

#[test]
fn focused_mergetool_target_path_is_relative_to_the_repository() {
    assert_eq!(focused_mergetool_target_path("/repo", "conflict.txt", "conflict.txt"), "conflict.txt");
    assert_eq!(focused_mergetool_target_path("/repo", "src/a.rs", "/repo/src/a.rs"), "src/a.rs");
    assert_eq!(
        focused_mergetool_target_path("/repo", "/repo/src/a.rs", "/repo/src/a.rs"),
        "src/a.rs"
    );
    assert_eq!(
        focused_mergetool_target_path("/repo", "/link/src/a.rs", "/repo/src/a.rs"),
        "src/a.rs"
    );
    assert_eq!(
        focused_mergetool_target_path("/repo", "/other/a.rs", "/other/a.rs"),
        "/other/a.rs"
    );
}

#[test]
fn normalize_bootstrap_diff_target_keeps_commit_ids() {
    let target = DiffTarget::Commit {
        commit_id: "abc123".to_string(),
        path: Some("/repo/sub/file.txt".to_string()),
    };
    let normalized = normalize_bootstrap_diff_target("/repo", target, "/repo/sub/file.txt");
    assert_eq!(
        normalized,
        DiffTarget::Commit {
            commit_id: "abc123".to_string(),
            path: Some("sub/file.txt".to_string()),
        }
    );
    let wt = DiffTarget::WorkingTree { path: "/repo/x.txt".to_string(), area: DiffArea::Staged };
    assert_eq!(
        normalize_bootstrap_diff_target("/repo", wt, "/repo/x.txt"),
        DiffTarget::WorkingTree { path: "x.txt".to_string(), area: DiffArea::Staged }
    );
}

#[test]
fn is_svg_path_ignores_extension_case() {
    assert!(is_svg_path("assets/icon.svg"));
    assert!(is_svg_path("assets/ICON.SVG"));
    assert!(!is_svg_path("assets/icon.png"));
    assert!(!is_svg_path("svg"));
}

#[test]
fn source_line_text_for_choice_reads_two_way_inputs_from_indexed_text() {
    let mut state = ConflictResolverUiState {
        view_mode: ConflictResolverViewMode::TwoWayDiff,
        ..Default::default()
    };
    state.three_way_text.ours = "o0\no1\n".into();
    state.three_way_text.theirs = "t0\nt1\n".into();
    state.three_way_line_starts.ours = DeferredLineStarts::from_starts(vec![0, 3]);
    state.three_way_line_starts.theirs = DeferredLineStarts::from_starts(vec![0, 3]);

    assert_eq!(state.source_line_text_for_choice(ConflictChoice::Ours, 1), Some("o1"));
    assert_eq!(state.source_line_text_for_choice(ConflictChoice::Theirs, 0), Some("t0"));
    assert_eq!(state.source_line_text_for_choice(ConflictChoice::Base, 0), None);
    assert_eq!(state.source_line_text_for_choice(ConflictChoice::Both, 0), None);
}

#[test]
fn source_line_text_for_choice_reads_base_only_in_three_way_mode() {
    let mut state = ConflictResolverUiState {
        view_mode: ConflictResolverViewMode::ThreeWay,
        ..Default::default()
    };
    state.three_way_text.base = "b0\nb1\n".into();
    state.three_way_text.ours = "o0\no1\n".into();
    state.three_way_text.theirs = "t0\nt1\n".into();
    state.three_way_line_starts.base = DeferredLineStarts::from_starts(vec![0, 3]);
    state.three_way_line_starts.ours = DeferredLineStarts::from_starts(vec![0, 3]);
    state.three_way_line_starts.theirs = DeferredLineStarts::from_starts(vec![0, 3]);

    assert_eq!(state.source_line_text_for_choice(ConflictChoice::Base, 1), Some("b1"));
    assert_eq!(state.source_line_text_for_choice(ConflictChoice::Ours, 0), Some("o0"));
    assert_eq!(state.source_line_text_for_choice(ConflictChoice::Theirs, 1), Some("t1"));
}

#[test]
fn three_way_line_text_computes_line_starts_when_missing() {
    let mut state = ConflictResolverUiState::default();
    state.three_way_text.ours = "first\nsecond\nthird".into();
    state.three_way_line_starts.ours = DeferredLineStarts::with_line_count(3);
    assert_eq!(state.three_way_line_count(ThreeWayColumn::Ours), 3);
    assert_eq!(state.three_way_line_text(ThreeWayColumn::Ours, 1), Some("second"));
    assert_eq!(state.three_way_line_text(ThreeWayColumn::Ours, 2), Some("third"));
    assert!(state.three_way_has_line(ThreeWayColumn::Ours, 2));
    assert!(!state.three_way_has_line(ThreeWayColumn::Ours, 3));
    assert!(!state.three_way_has_line(ThreeWayColumn::Base, 0));
}

#[test]
fn apply_three_way_conflict_maps_distributes_ranges_and_flags() {
    let mut state = ConflictResolverUiState::default();
    state.marker_segments = vec![ConflictSegment::Block(ConflictBlock {
        base: Some("base\n".into()),
        ours: "ours\n".into(),
        theirs: "theirs\n".into(),
        choice: ConflictChoice::Theirs,
        resolved: true,
    })];
    let maps = ThreeWayConflictMaps {
        conflict_ranges: ThreeWaySides { base: vec![0..3], ours: vec![0..5], theirs: vec![0..4] },
        line_conflict_maps: ThreeWaySides {
            base: vec![Some(0); 3],
            ours: vec![Some(0); 5],
            theirs: vec![Some(0); 4],
        },
        conflict_has_base: vec![true],
        conflict_resolved: vec![true],
    };
    state.apply_three_way_conflict_maps(maps);

    assert_eq!(state.three_way_conflict_ranges.base, vec![0..3]);
    assert_eq!(state.three_way_conflict_ranges.ours, vec![0..5]);
    assert_eq!(state.three_way_conflict_ranges.theirs, vec![0..4]);
    assert_eq!(state.conflict_has_base, vec![true]);
    assert_eq!(state.conflict_choices, vec![ConflictChoice::Theirs]);
}

#[test]
fn refresh_conflict_has_base_from_segments_refreshes_choice_cache() {
    let mut state = ConflictResolverUiState::default();
    state.marker_segments = vec![
        ConflictSegment::Text("ctx\n".into()),
        ConflictSegment::Block(ConflictBlock {
            base: None,
            ours: "ours\n".into(),
            theirs: "theirs\n".into(),
            choice: ConflictChoice::Ours,
            resolved: false,
        }),
        ConflictSegment::Block(ConflictBlock {
            base: Some("base\n".into()),
            ours: "ours2\n".into(),
            theirs: "theirs2\n".into(),
            choice: ConflictChoice::Both,
            resolved: true,
        }),
    ];

    state.refresh_conflict_has_base_from_segments();

    assert_eq!(state.conflict_has_base, vec![false, true]);
    assert_eq!(state.conflict_choices, vec![ConflictChoice::Ours, ConflictChoice::Both]);
}

#[test]
fn conflict_resolver_matches_its_target() {
    let mut state = ConflictResolverUiState::default();
    assert!(!state.matches_target(RepoId(1), "a.txt"));
    state.repo_id = Some(RepoId(1));
    state.path = Some("a.txt".to_string());
    assert!(state.matches_target(RepoId(1), "a.txt"));
    assert!(!state.matches_target(RepoId(2), "a.txt"));
    assert!(!state.matches_target(RepoId(1), "b.txt"));
}

fn modify_row(old: &str, new: &str) -> FileDiffRow {
    FileDiffRow {
        kind: FileDiffRowKind::Modify,
        old: Some(old.to_string()),
        new: Some(new.to_string()),
    }
}

#[test]
fn visual_kind_of_whitespace_only_run_is_context() {
    let rows = vec![modify_row("let x = 1", "let x=1"), modify_row("abc  ", "abc")];
    let mut state = ConflictResolverUiState::default();
    assert_eq!(
        state.two_way_split_visual_kind_at(&rows, 0, &rows[0], DiffWhitespaceMode::Ignore),
        FileDiffRowKind::Context
    );
    assert_eq!(state.two_way_split_visual_kind_cache.len(), 2);
    assert_eq!(state.two_way_split_visual_kind_cache.get(&1).copied(), Some(FileDiffRowKind::Context));
}

#[test]
fn visual_kind_keeps_real_changes_and_shown_whitespace() {
    let context = FileDiffRow {
        kind: FileDiffRowKind::Context,
        old: Some("same".to_string()),
        new: Some("same".to_string()),
    };
    let rows = vec![context.clone(), modify_row("a = 1", "a = 2"), context];
    let mut state = ConflictResolverUiState::default();
    assert_eq!(
        state.two_way_split_visual_kind_at(&rows, 1, &rows[1], DiffWhitespaceMode::Show),
        FileDiffRowKind::Modify
    );
    assert!(state.two_way_split_visual_kind_cache.is_empty());
    assert_eq!(
        state.two_way_split_visual_kind_at(&rows, 0, &rows[0], DiffWhitespaceMode::Ignore),
        FileDiffRowKind::Context
    );
    assert!(state.two_way_split_visual_kind_cache.is_empty());
    assert_eq!(
        state.two_way_split_visual_kind_at(&rows, 1, &rows[1], DiffWhitespaceMode::Ignore),
        FileDiffRowKind::Modify
    );
    assert_eq!(state.two_way_split_visual_kind_cache.len(), 1);
}

#[test]
fn bootstraps_keep_targets_relative_to_the_repository() {
    let config = FocusedMergetoolViewConfig {
        repo_path: "repo".to_string(),
        conflicted_file_path: "/work/repo/src/conflict.rs".to_string(),
        labels: FocusedMergetoolLabels {
            local: "LOCAL".to_string(),
            remote: "REMOTE".to_string(),
            base: "BASE".to_string(),
        },
    };
    let bootstrap = FocusedMergetoolBootstrap::from_view_config(
        config,
        "/work/repo".to_string(),
        "/work/repo/src/conflict.rs",
    );
    assert_eq!(bootstrap.repo_path, "/work/repo");
    assert_eq!(bootstrap.target_path, "src/conflict.rs");

    let submodule = SubmoduleDiffBootstrap::new(
        "/work/repo".to_string(),
        DiffTarget::WorkingTree { path: "notes.md".to_string(), area: DiffArea::Unstaged },
        "/work/repo/notes.md",
    );
    assert_eq!(
        submodule.target,
        DiffTarget::WorkingTree { path: "notes.md".to_string(), area: DiffArea::Unstaged }
    );
}

#[test]
fn widest_visible_rows_are_measured_without_materializing_line_starts() {
    let mut state = ConflictResolverUiState::default();
    state.three_way_text = ThreeWaySides {
        base: "ctx\nbase 1234567890\nend\n".into(),
        ours: "ctx\nours abcdefghij\nend\n".into(),
        theirs: "ctx\ntheirs klmnopqrstuv\nend\n".into(),
    };
    state.three_way_line_starts = ThreeWaySides {
        base: DeferredLineStarts::with_line_count(3),
        ours: DeferredLineStarts::with_line_count(3),
        theirs: DeferredLineStarts::with_line_count(3),
    };
    let spans = [VisibleLineSpan { visible_start: 0, source_line_start: 0, len: 3 }];
    let rows = state.three_way_widest_visible_rows(&spans);
    assert_eq!((rows.base, rows.ours, rows.theirs), (1, 1, 1));
    assert!(!state.three_way_line_starts.base.is_materialized());
    assert!(!state.three_way_line_starts.ours.is_materialized());
    assert!(!state.three_way_line_starts.theirs.is_materialized());

    // Rows of a later span keep their own visible positions.
    let spans = [
        VisibleLineSpan { visible_start: 0, source_line_start: 0, len: 1 },
        VisibleLineSpan { visible_start: 5, source_line_start: 2, len: 1 },
    ];
    let rows = state.three_way_widest_visible_rows(&spans);
    assert_eq!((rows.base, rows.ours, rows.theirs), (0, 0, 0));
    assert_eq!(state.three_way_widest_visible_rows(&[]).ours, 0);
}

#[test]
fn hidden_resolved_blocks_need_hiding_and_a_resolved_block() {
    let mut state = ConflictResolverUiState::default();
    let block = |resolved| {
        ConflictSegment::Block(ConflictBlock {
            base: None,
            ours: "a\n".into(),
            theirs: "b\n".into(),
            choice: ConflictChoice::Ours,
            resolved,
        })
    };
    state.marker_segments = vec![ConflictSegment::Text("x\n".into()), block(false)];
    assert!(!state.has_hidden_resolved_blocks(true));
    state.marker_segments.push(block(true));
    assert!(state.has_hidden_resolved_blocks(true));
    assert!(!state.has_hidden_resolved_blocks(false));
}

#[test]
fn streamed_conflict_index_for_side_line_uses_grouped_side_ranges() {
    let mut state = ConflictResolverUiState::default();
    state.three_way_conflict_ranges = ThreeWaySides {
        base: vec![0..1, 4..6],
        ours: vec![2..5, 8..9],
        theirs: vec![1..3, 7..10],
    };

    assert_eq!(state.conflict_index_for_side_line(ThreeWayColumn::Base, 4), Some(1));
    assert_eq!(state.conflict_index_for_side_line(ThreeWayColumn::Ours, 3), Some(0));
    assert_eq!(state.conflict_index_for_side_line(ThreeWayColumn::Theirs, 8), Some(1));
    assert_eq!(state.conflict_index_for_side_line(ThreeWayColumn::Base, 2), None);
}

fn two_line_maps() -> ThreeWayConflictMaps {
    ThreeWayConflictMaps {
        conflict_ranges: ThreeWaySides {
            base: vec![0..0],
            ours: vec![0..2],
            theirs: vec![0..1],
        },
        line_conflict_maps: ThreeWaySides {
            base: vec![],
            ours: vec![Some(0), Some(0)],
            theirs: vec![Some(0)],
        },
        conflict_has_base: vec![false],
        conflict_resolved: vec![true],
    }
}

#[test]
fn rebuild_three_way_visible_state_takes_maps_and_measures_rows() {
    let mut state = ConflictResolverUiState::default();
    state.marker_segments = vec![ConflictSegment::Block(ConflictBlock {
        base: None,
        ours: "a\nbbb\n".into(),
        theirs: "c\n".into(),
        choice: ConflictChoice::Ours,
        resolved: true,
    })];
    state.three_way_text.ours = "a\nbbb\n".into();
    state.three_way_text.theirs = "c\n".into();
    state.three_way_line_starts.ours = DeferredLineStarts::from_starts(vec![0, 2]);
    state.three_way_line_starts.theirs = DeferredLineStarts::from_starts(vec![0]);
    let projection = vec![VisibleLineSpan { visible_start: 0, source_line_start: 0, len: 2 }];

    let full = ThreeWaySides { base: 7, ours: 8, theirs: 9 };
    state.rebuild_three_way_visible_state(two_line_maps(), projection.clone(), false, full);
    assert!(state.three_way_visible_state_ready);
    assert_eq!(state.three_way_visible_projection, projection);
    assert_eq!(state.three_way_conflict_ranges.ours, vec![0..2]);
    assert_eq!(state.conflict_choices, vec![ConflictChoice::Ours]);
    let rows = &state.three_way_horizontal_measure_rows;
    assert_eq!((rows.base, rows.ours, rows.theirs), (7, 8, 9));

    state.rebuild_three_way_visible_state(two_line_maps(), projection, true, full);
    let rows = &state.three_way_horizontal_measure_rows;
    assert_eq!((rows.base, rows.ours, rows.theirs), (0, 1, 0));
}
