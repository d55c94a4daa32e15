//! How a main window is configured at launch, which of the startup screens it
//! shows, and the steps that bring a focused mergetool or submodule diff
//! window to its target.
use vstd::prelude::*;
use std::sync::atomic::AtomicI32;
use std::sync::Arc;
use crate::status::DiffArea;
use crate::text::str_eq;

verus! {

/// Whether a window is a full main window or a focused mergetool.
#[derive(Clone, Copy, Debug, PartialEq, Eq, Structural)]
pub enum GitCometViewMode {
    Normal,
    FocusedMergetool,
}

impl Default for GitCometViewMode {
    fn default() -> (r: Self)
        ensures
            r == GitCometViewMode::Normal,
    {
        GitCometViewMode::Normal
    }
}

/// How the repository given at launch is opened.
#[derive(Clone, Copy, Debug, PartialEq, Eq, Structural)]
pub enum InitialRepositoryLaunchMode {
    /// It only seeds the session when the session restores repositories.
    RestoreSession,
    /// The user named it: it is opened whatever the session holds.
    OpenExplicitly,
}

impl Default for InitialRepositoryLaunchMode {
    fn default() -> (r: Self)
        ensures
            r == InitialRepositoryLaunchMode::RestoreSession,
    {
        InitialRepositoryLaunchMode::RestoreSession
    }
}

/// A crash of an earlier run, offered for reporting at startup.
#[derive(Clone, Debug, PartialEq, Eq)]
pub struct StartupCrashReport {
    pub issue_url: String,
    pub summary: String,
    pub crash_log_path: String,
}

/// Column labels of a focused mergetool window.
#[derive(Clone, Debug, PartialEq, Eq)]
pub struct FocusedMergetoolLabels {
    pub local: String,
    pub remote: String,
    pub base: String,
}

/// What a focused mergetool window opens.
#[derive(Clone, Debug, PartialEq, Eq)]
pub struct FocusedMergetoolViewConfig {
    pub repo_path: String,
    pub conflicted_file_path: String,
    pub labels: FocusedMergetoolLabels,
}

/// How a main window starts.
#[derive(Clone, Debug)]
pub struct GitCometViewConfig {
    pub initial_path: Option<String>,
    pub initial_repository_launch_mode: InitialRepositoryLaunchMode,
    pub view_mode: GitCometViewMode,
    pub focused_mergetool: Option<FocusedMergetoolViewConfig>,
    pub focused_mergetool_exit_code: Option<Arc<AtomicI32>>,
    pub startup_crash_report: Option<StartupCrashReport>,
}

impl GitCometViewConfig {
    /// A normal window that restores the previous session.
    pub fn normal(startup_crash_report: Option<StartupCrashReport>) -> (r: Self)
        ensures
            r.initial_path is None,
            r.initial_repository_launch_mode == InitialRepositoryLaunchMode::RestoreSession,
            r.view_mode == GitCometViewMode::Normal,
            r.focused_mergetool is None,
            r.focused_mergetool_exit_code is None,
            r.startup_crash_report == startup_crash_report,
    {
        GitCometViewConfig {
            initial_path: None,
            initial_repository_launch_mode: InitialRepositoryLaunchMode::RestoreSession,
            view_mode: GitCometViewMode::Normal,
            focused_mergetool: None,
            focused_mergetool_exit_code: None,
            startup_crash_report,
        }
    }

    /// A normal window that opens `initial_path`, which the user named.
    pub fn normal_with_initial_repository(
        initial_path: String,
        startup_crash_report: Option<StartupCrashReport>,
    ) -> (r: Self)
        ensures
            r.initial_path == Some(initial_path),
            r.initial_repository_launch_mode == InitialRepositoryLaunchMode::OpenExplicitly,
            r.view_mode == GitCometViewMode::Normal,
            r.focused_mergetool is None,
            r.focused_mergetool_exit_code is None,
            r.startup_crash_report == startup_crash_report,
    {
        GitCometViewConfig {
            initial_path: Some(initial_path),
            initial_repository_launch_mode: InitialRepositoryLaunchMode::OpenExplicitly,
            view_mode: GitCometViewMode::Normal,
            focused_mergetool: None,
            focused_mergetool_exit_code: None,
            startup_crash_report,
        }
    }
}

impl Default for GitCometViewConfig {
    fn default() -> (r: Self)
        ensures
            r.initial_path is None,
            r.initial_repository_launch_mode == InitialRepositoryLaunchMode::RestoreSession,
            r.view_mode == GitCometViewMode::Normal,
            r.focused_mergetool is None,
            r.focused_mergetool_exit_code is None,
            r.startup_crash_report is None,
    {
        GitCometViewConfig::normal(None)
    }
}

/// Whether the window shows its full chrome (toolbars, sidebars, tabs).
pub fn renders_full_chrome(view_mode: GitCometViewMode) -> (r: bool)
    ensures
        r == (view_mode == GitCometViewMode::Normal),
{
    match view_mode {
        GitCometViewMode::Normal => true,
        GitCometViewMode::FocusedMergetool => false,
    }
}

/// Whether the repository given at launch is added to the session: only in a
/// normal window, only when there is one, and either because the user named
/// it or because the session restores repositories anyway.
pub fn should_seed_initial_repository_from_session(
    view_mode: GitCometViewMode,
    initial_path: Option<&str>,
    initial_repository_launch_mode: InitialRepositoryLaunchMode,
    has_saved_open_repos: bool,
) -> (r: bool)
    ensures
        r == (view_mode == GitCometViewMode::Normal && initial_path is Some && (
        initial_repository_launch_mode == InitialRepositoryLaunchMode::OpenExplicitly
            || has_saved_open_repos)),
{
    renders_full_chrome(view_mode) && initial_path.is_some() && (match initial_repository_launch_mode {
        InitialRepositoryLaunchMode::OpenExplicitly => true,
        InitialRepositoryLaunchMode::RestoreSession => false,
    } || has_saved_open_repos)
}

/// A normal window without repository tabs shows a screen in place of a repository.
pub open spec fn interstitial_spec(view_mode: GitCometViewMode, has_repo_tabs: bool) -> bool {
    view_mode == GitCometViewMode::Normal && !has_repo_tabs
}

/// Whether the window shows a startup screen in place of a repository.
pub fn repository_entry_interstitial_active(view_mode: GitCometViewMode, has_repo_tabs: bool) -> (r:
    bool)
    ensures
        r == interstitial_spec(view_mode, has_repo_tabs),
{
    renders_full_chrome(view_mode) && !has_repo_tabs
}

/// The loading screen shows while repositories from startup are still opening.
pub fn should_show_startup_repository_loading_screen(
    view_mode: GitCometViewMode,
    has_repo_tabs: bool,
    startup_repo_bootstrap_pending: bool,
) -> (r: bool)
    ensures
        r == (interstitial_spec(view_mode, has_repo_tabs) && startup_repo_bootstrap_pending),
{
    repository_entry_interstitial_active(view_mode, has_repo_tabs) && startup_repo_bootstrap_pending
}

/// The splash screen shows when no repository is open and none is coming.
pub fn should_show_splash_screen(
    view_mode: GitCometViewMode,
    has_repo_tabs: bool,
    startup_repo_bootstrap_pending: bool,
) -> (r: bool)
    ensures
        r == (interstitial_spec(view_mode, has_repo_tabs) && !startup_repo_bootstrap_pending),
{
    repository_entry_interstitial_active(view_mode, has_repo_tabs) && !startup_repo_bootstrap_pending
}

/// The title bar's workspace actions are enabled unless a startup screen shows.
pub fn titlebar_workspace_actions_enabled(view_mode: GitCometViewMode, has_repo_tabs: bool) -> (r:
    bool)
    ensures
        r == !interstitial_spec(view_mode, has_repo_tabs),
{
    !repository_entry_interstitial_active(view_mode, has_repo_tabs)
}

/// Of the loading screen, the splash screen and the workspace actions, exactly
/// one is on: the two screens never show together, and the workspace actions
/// are enabled exactly when neither screen shows.
pub proof fn lemma_startup_screens_exclusive(
    view_mode: GitCometViewMode,
    has_repo_tabs: bool,
    pending: bool,
)
    ensures
        !((interstitial_spec(view_mode, has_repo_tabs) && pending) && (interstitial_spec(
            view_mode,
            has_repo_tabs,
        ) && !pending)),
        !interstitial_spec(view_mode, has_repo_tabs) <==> !((interstitial_spec(
            view_mode,
            has_repo_tabs,
        ) && pending) || (interstitial_spec(view_mode, has_repo_tabs) && !pending)),
        view_mode == GitCometViewMode::FocusedMergetool ==> !interstitial_spec(
            view_mode,
            has_repo_tabs,
        ),
{
}

/// Identifier of an open repository.
#[derive(Clone, Copy, Debug, PartialEq, Eq, Structural)]
pub struct RepoId(pub u64);

/// What a diff view shows.
#[derive(Clone, Debug, PartialEq, Eq)]
pub enum DiffTarget {
    WorkingTree { path: String, area: DiffArea },
    Commit { commit_id: String, path: Option<String> },
    CommitRange { from_commit_id: String, to_commit_id: String, path: Option<String> },
}

/// Whether two optional strings hold the same text.
pub open spec fn same_opt_text(a: Option<String>, b: Option<String>) -> bool {
    match (a, b) {
        (Some(x), Some(y)) => x@ == y@,
        (None, None) => true,
        _ => false,
    }
}

/// Whether two diff targets name the same thing.
pub open spec fn same_target(a: DiffTarget, b: DiffTarget) -> bool {
    match (a, b) {
        (
            DiffTarget::WorkingTree { path: p1, area: a1 },
            DiffTarget::WorkingTree { path: p2, area: a2 },
        ) => p1@ == p2@ && a1 == a2,
        (
            DiffTarget::Commit { commit_id: c1, path: p1 },
            DiffTarget::Commit { commit_id: c2, path: p2 },
        ) => c1@ == c2@ && same_opt_text(p1, p2),
        (
            DiffTarget::CommitRange { from_commit_id: f1, to_commit_id: t1, path: p1 },
            DiffTarget::CommitRange { from_commit_id: f2, to_commit_id: t2, path: p2 },
        ) => f1@ == f2@ && t1@ == t2@ && same_opt_text(p1, p2),
        _ => false,
    }
}

/// Whether two optional strings hold the same text.
fn opt_str_eq(a: &Option<String>, b: &Option<String>) -> (r: bool)
    ensures
        r == same_opt_text(*a, *b),
{
    match (a, b) {
        (Some(x), Some(y)) => str_eq(x.as_str(), y.as_str()),
        (None, None) => true,
        _ => false,
    }
}

/// Whether two diff targets name the same thing.
pub fn diff_target_eq(a: &DiffTarget, b: &DiffTarget) -> (r: bool)
    ensures
        r == same_target(*a, *b),
{
    match (a, b) {
        (
            DiffTarget::WorkingTree { path: p1, area: a1 },
            DiffTarget::WorkingTree { path: p2, area: a2 },
        ) => str_eq(p1.as_str(), p2.as_str()) && *a1 == *a2,
        (
            DiffTarget::Commit { commit_id: c1, path: p1 },
            DiffTarget::Commit { commit_id: c2, path: p2 },
        ) => str_eq(c1.as_str(), c2.as_str()) && opt_str_eq(p1, p2),
        (
            DiffTarget::CommitRange { from_commit_id: f1, to_commit_id: t1, path: p1 },
            DiffTarget::CommitRange { from_commit_id: f2, to_commit_id: t2, path: p2 },
        ) => str_eq(f1.as_str(), f2.as_str()) && str_eq(t1.as_str(), t2.as_str()) && opt_str_eq(
            p1,
            p2,
        ),
        _ => false,
    }
}

/// What the startup steps need to know of an open repository.
pub struct BootstrapRepo {
    pub id: RepoId,
    pub workdir: String,
    /// Whether opening the repository has finished.
    pub open_ready: bool,
    pub diff_target: Option<DiffTarget>,
    pub conflict_file_path: Option<String>,
    /// Whether loading of the conflict file has started or finished.
    pub conflict_file_requested: bool,
}

/// The open repositories and which one is active.
pub struct BootstrapState {
    pub repos: Vec<BootstrapRepo>,
    pub active_repo: Option<RepoId>,
}

/// A focused mergetool window's target, with paths already normalised.
#[derive(Clone, Debug, PartialEq, Eq)]
pub struct FocusedMergetoolBootstrap {
    pub repo_path: String,
    pub target_path: String,
}

/// The next step towards a focused mergetool window's target.
#[derive(Clone, Debug, PartialEq, Eq)]
pub enum FocusedMergetoolBootstrapAction {
    OpenRepo(String),
    SetActiveRepo(RepoId),
    SelectConflictDiff { repo_id: RepoId, path: String },
    LoadConflictFile { repo_id: RepoId, path: String },
    Complete,
}

/// A submodule diff window's target, with paths already normalised.
#[derive(Clone, Debug, PartialEq, Eq)]
pub struct SubmoduleDiffBootstrap {
    pub repo_path: String,
    pub target: DiffTarget,
}

/// The next step towards a submodule diff window's target.
#[derive(Clone, Debug, PartialEq, Eq)]
pub enum SubmoduleDiffBootstrapAction {
    OpenRepo(String),
    SetActiveRepo(RepoId),
    SelectDiff { repo_id: RepoId, target: DiffTarget },
    Complete,
}

/// The first open repository whose working directory is `workdir`.
pub open spec fn first_repo_at(repos: Seq<BootstrapRepo>, workdir: Seq<char>) -> Option<int> {
    if exists|i: int| 0 <= i < repos.len() && repos[i].workdir@ == workdir {
        Some(
            choose|i: int|
                0 <= i < repos.len() && repos[i].workdir@ == workdir && forall|j: int|
                    0 <= j < i ==> repos[j].workdir@ != workdir,
        )
    } else {
        None
    }
}

/// Finds the first open repository whose working directory is `workdir`.
fn find_repo(repos: &Vec<BootstrapRepo>, workdir: &str) -> (r: Option<usize>)
    ensures
        match r {
            Some(i) => i < repos@.len() && repos@[i as int].workdir@ == workdir@ && forall|j: int|
                0 <= j < i ==> repos@[j].workdir@ != workdir@,
            None => forall|j: int| 0 <= j < repos@.len() ==> repos@[j].workdir@ != workdir@,
        },
        r matches Some(i) ==> first_repo_at(repos@, workdir@) == Some(i as int),
        r is None ==> first_repo_at(repos@, workdir@) is None,
{
    let mut i: usize = 0;
    while i < repos.len()
        invariant
            i <= repos@.len(),
            forall|j: int| 0 <= j < i ==> repos@[j].workdir@ != workdir@,
        decreases repos.len() - i,
    {
        if str_eq(repos[i].workdir.as_str(), workdir) {
            proof {
                let k = choose|k: int|
                    0 <= k < repos@.len() && repos@[k].workdir@ == workdir@ && forall|j: int|
                        0 <= j < k ==> repos@[j].workdir@ != workdir@;
                if k < i {
                } else if k > i {
                    assert(repos@[i as int].workdir@ == workdir@);
                }
            }
            return Some(i);
        }
        i = i + 1;
    }
    None
}

/// The step towards a focused mergetool target, as a function of the state.
pub open spec fn mergetool_bootstrap_spec(
    state: BootstrapState,
    b: FocusedMergetoolBootstrap,
) -> Option<FocusedMergetoolBootstrapAction> {
    match first_repo_at(state.repos@, b.repo_path@) {
        None => Some(FocusedMergetoolBootstrapAction::OpenRepo(b.repo_path)),
        Some(i) => {
            let repo = state.repos@[i];
            if state.active_repo != Some(repo.id) {
                Some(FocusedMergetoolBootstrapAction::SetActiveRepo(repo.id))
            } else if !repo.open_ready {
                None
            } else if !(repo.diff_target matches Some(t) && same_target(
                t,
                DiffTarget::WorkingTree { path: b.target_path, area: DiffArea::Unstaged },
            )) {
                Some(
                    FocusedMergetoolBootstrapAction::SelectConflictDiff {
                        repo_id: repo.id,
                        path: b.target_path,
                    },
                )
            } else if !(repo.conflict_file_path matches Some(p) && p@ == b.target_path@)
                || !repo.conflict_file_requested {
                Some(
                    FocusedMergetoolBootstrapAction::LoadConflictFile {
                        repo_id: repo.id,
                        path: b.target_path,
                    },
                )
            } else {
                Some(FocusedMergetoolBootstrapAction::Complete)
            }
        },
    }
}

/// The next step towards a focused mergetool window's target: open the
/// repository, make it active, wait for it to open, select the conflict diff,
/// load the conflict file, and then nothing more.
pub fn focused_mergetool_bootstrap_action(
    state: &BootstrapState,
    bootstrap: &FocusedMergetoolBootstrap,
) -> (r: Option<FocusedMergetoolBootstrapAction>)
    ensures
        r == mergetool_bootstrap_spec(*state, *bootstrap),
{
    let ix = match find_repo(&state.repos, bootstrap.repo_path.as_str()) {
        None => return Some(FocusedMergetoolBootstrapAction::OpenRepo(bootstrap.repo_path.clone())),
        Some(i) => i,
    };
    let repo = &state.repos[ix];
    let is_active = match state.active_repo {
        Some(id) => id == repo.id,
        None => false,
    };
    if !is_active {
        return Some(FocusedMergetoolBootstrapAction::SetActiveRepo(repo.id));
    }
    if !repo.open_ready {
        return None;
    }
    let target = DiffTarget::WorkingTree {
        path: bootstrap.target_path.clone(),
        area: DiffArea::Unstaged,
    };
    let on_target = match &repo.diff_target {
        Some(t) => diff_target_eq(t, &target),
        None => false,
    };
    if !on_target {
        return Some(
            FocusedMergetoolBootstrapAction::SelectConflictDiff {
                repo_id: repo.id,
                path: bootstrap.target_path.clone(),
            },
        );
    }
    let has_conflict_file_target = match &repo.conflict_file_path {
        Some(p) => str_eq(p.as_str(), bootstrap.target_path.as_str()),
        None => false,
    };
    if !has_conflict_file_target || !repo.conflict_file_requested {
        return Some(
            FocusedMergetoolBootstrapAction::LoadConflictFile {
                repo_id: repo.id,
                path: bootstrap.target_path.clone(),
            },
        );
    }
    Some(FocusedMergetoolBootstrapAction::Complete)
}

/// The step towards a submodule diff target, as a function of the state.
pub open spec fn submodule_bootstrap_spec(state: BootstrapState, b: SubmoduleDiffBootstrap) -> Option<
    SubmoduleDiffBootstrapAction,
> {
    match first_repo_at(state.repos@, b.repo_path@) {
        None => Some(SubmoduleDiffBootstrapAction::OpenRepo(b.repo_path)),
        Some(i) => {
            let repo = state.repos@[i];
            if state.active_repo != Some(repo.id) {
                Some(SubmoduleDiffBootstrapAction::SetActiveRepo(repo.id))
            } else if !repo.open_ready {
                None
            } else if !(repo.diff_target matches Some(t) && same_target(t, b.target)) {
                Some(SubmoduleDiffBootstrapAction::SelectDiff { repo_id: repo.id, target: b.target })
            } else {
                Some(SubmoduleDiffBootstrapAction::Complete)
            }
        },
    }
}

/// A copy of a diff target.
fn copy_target(t: &DiffTarget) -> (r: DiffTarget)
    ensures
        r == *t,
{
    match t {
        DiffTarget::WorkingTree { path, area } => DiffTarget::WorkingTree {
            path: path.clone(),
            area: *area,
        },
        DiffTarget::Commit { commit_id, path } => DiffTarget::Commit {
            commit_id: commit_id.clone(),
            path: match path {
                Some(p) => Some(p.clone()),
                None => None,
            },
        },
        DiffTarget::CommitRange { from_commit_id, to_commit_id, path } => DiffTarget::CommitRange {
            from_commit_id: from_commit_id.clone(),
            to_commit_id: to_commit_id.clone(),
            path: match path {
                Some(p) => Some(p.clone()),
                None => None,
            },
        },
    }
}

/// The next step towards a submodule diff window's target: open the
/// repository, make it active, wait for it to open, select the diff.
pub fn submodule_diff_bootstrap_action(
    state: &BootstrapState,
    bootstrap: &SubmoduleDiffBootstrap,
) -> (r: Option<SubmoduleDiffBootstrapAction>)
    ensures
        r == submodule_bootstrap_spec(*state, *bootstrap),
{
    let ix = match find_repo(&state.repos, bootstrap.repo_path.as_str()) {
        None => return Some(SubmoduleDiffBootstrapAction::OpenRepo(bootstrap.repo_path.clone())),
        Some(i) => i,
    };
    let repo = &state.repos[ix];
    let is_active = match state.active_repo {
        Some(id) => id == repo.id,
        None => false,
    };
    if !is_active {
        return Some(SubmoduleDiffBootstrapAction::SetActiveRepo(repo.id));
    }
    if !repo.open_ready {
        return None;
    }
    let on_target = match &repo.diff_target {
        Some(t) => diff_target_eq(t, &bootstrap.target),
        None => false,
    };
    if !on_target {
        return Some(
            SubmoduleDiffBootstrapAction::SelectDiff {
                repo_id: repo.id,
                target: copy_target(&bootstrap.target),
            },
        );
    }
    Some(SubmoduleDiffBootstrapAction::Complete)
}

} // verus!
