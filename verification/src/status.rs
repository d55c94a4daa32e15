//! The status panel: its sections, the entries each section lists, and the
//! multi-selection kept across status refreshes.
use vstd::prelude::*;
use crate::text::str_eq;

verus! {

/// Side of the index a diff or selection refers to.
#[derive(Clone, Copy, Debug, PartialEq, Eq, Structural)]
pub enum DiffArea {
    Staged,
    Unstaged,
}

/// How a file differs from the index or from `HEAD`.
#[derive(Clone, Copy, Debug, PartialEq, Eq, Structural)]
pub enum FileStatusKind {
    Untracked,
    Modified,
    Added,
    Deleted,
    Renamed,
    Conflicted,
}

/// One entry of a repository status.
#[derive(Clone, Debug, PartialEq, Eq)]
pub struct FileStatus {
    pub path: String,
    pub kind: FileStatusKind,
}

/// A repository status: the working tree entries and the staged entries.
pub struct RepoStatus {
    pub unstaged: Vec<FileStatus>,
    pub staged: Vec<FileStatus>,
}

/// What the status panel knows of a repository: each side's entries once
/// loaded, with a revision counter and whether a reload runs.
pub struct RepoStatusState {
    pub worktree: Option<Vec<FileStatus>>,
    pub staged: Option<Vec<FileStatus>>,
    pub worktree_rev: u64,
    pub staged_rev: u64,
    pub worktree_loading: bool,
    pub staged_loading: bool,
}

/// A section of the status panel.
#[derive(Clone, Copy, Debug, PartialEq, Eq, Structural)]
pub enum StatusSection {
    CombinedUnstaged,
    Untracked,
    Unstaged,
    Staged,
}

impl StatusSection {
    /// The side of the index the section's entries are on.
    pub fn diff_area(self) -> (r: DiffArea)
        ensures
            r == (if self == StatusSection::Staged {
                DiffArea::Staged
            } else {
                DiffArea::Unstaged
            }),
    {
        match self {
            StatusSection::CombinedUnstaged | StatusSection::Untracked | StatusSection::Unstaged => {
                DiffArea::Unstaged
            },
            StatusSection::Staged => DiffArea::Staged,
        }
    }

    /// The word that identifies the section in element ids.
    pub fn id_label(self) -> (r: &'static str)
        ensures
            r@ == match self {
                StatusSection::CombinedUnstaged | StatusSection::Unstaged => "unstaged"@,
                StatusSection::Untracked => "untracked"@,
                StatusSection::Staged => "staged"@,
            },
    {
        match self {
            StatusSection::CombinedUnstaged | StatusSection::Unstaged => "unstaged",
            StatusSection::Untracked => "untracked",
            StatusSection::Staged => "staged",
        }
    }
}

/// Which entries of a side a section lists.
#[derive(Clone, Copy, Debug, PartialEq, Eq, Structural)]
pub enum StatusSectionFilter {
    All,
    UntrackedOnly,
    ExcludeUntracked,
}

/// Whether a section with `filter` lists an entry of `kind`.
pub open spec fn filter_matches(filter: StatusSectionFilter, kind: FileStatusKind) -> bool {
    match filter {
        StatusSectionFilter::All => true,
        StatusSectionFilter::UntrackedOnly => kind == FileStatusKind::Untracked,
        StatusSectionFilter::ExcludeUntracked => kind != FileStatusKind::Untracked,
    }
}

/// Whether a section with `filter` lists `entry`.
pub fn status_section_filter_matches(filter: StatusSectionFilter, entry: &FileStatus) -> (r: bool)
    ensures
        r == filter_matches(filter, entry.kind),
{
    match filter {
        StatusSectionFilter::All => true,
        StatusSectionFilter::UntrackedOnly => entry.kind == FileStatusKind::Untracked,
        StatusSectionFilter::ExcludeUntracked => entry.kind != FileStatusKind::Untracked,
    }
}

/// The side and filter a section reads from.
pub open spec fn section_filter(section: StatusSection) -> StatusSectionFilter {
    match section {
        StatusSection::CombinedUnstaged => StatusSectionFilter::All,
        StatusSection::Untracked => StatusSectionFilter::UntrackedOnly,
        StatusSection::Unstaged => StatusSectionFilter::ExcludeUntracked,
        StatusSection::Staged => StatusSectionFilter::All,
    }
}

/// Positions of the entries among the first `n` that `filter` lets through, in order.
pub open spec fn matching_indexes(entries: Seq<FileStatus>, filter: StatusSectionFilter, n: int) -> Seq<
    usize,
>
    decreases n,
{
    if n <= 0 {
        Seq::empty()
    } else {
        let rest = matching_indexes(entries, filter, n - 1);
        if filter_matches(filter, entries[n - 1].kind) {
            rest.push((n - 1) as usize)
        } else {
            rest
        }
    }
}

/// Positions listed are in range and let through, and every entry that is
/// let through is listed.
pub proof fn lemma_matching_indexes(entries: Seq<FileStatus>, filter: StatusSectionFilter, n: int)
    requires
        0 <= n <= entries.len(),
        entries.len() <= usize::MAX,
    ensures
        forall|k: int|
            0 <= k < matching_indexes(entries, filter, n).len() ==> {
                let i = #[trigger] matching_indexes(entries, filter, n)[k];
                i < n && filter_matches(filter, entries[i as int].kind)
            },
        forall|i: int|
            0 <= i < n && filter_matches(filter, #[trigger] entries[i].kind) ==> matching_indexes(
                entries,
                filter,
                n,
            ).contains(i as usize),
        forall|a: int, b: int|
            0 <= a < b < matching_indexes(entries, filter, n).len() ==> matching_indexes(
                entries,
                filter,
                n,
            )[a] < matching_indexes(entries, filter, n)[b],
    decreases n,
{
    if n > 0 {
        lemma_matching_indexes(entries, filter, n - 1);
        let rest = matching_indexes(entries, filter, n - 1);
        let cur = matching_indexes(entries, filter, n);
        if filter_matches(filter, entries[n - 1].kind) {
            assert(cur == rest.push((n - 1) as usize));
            assert forall|k: int| 0 <= k < cur.len() implies {
                let i = #[trigger] cur[k];
                i < n && filter_matches(filter, entries[i as int].kind)
            } by {
                if k < rest.len() {
                    assert(cur[k] == rest[k]);
                }
            }
            assert forall|a: int, b: int| 0 <= a < b < cur.len() implies cur[a] < cur[b] by {
                assert(cur[a] == rest[a]);
                if b < rest.len() {
                    assert(cur[b] == rest[b]);
                }
            }
        } else {
            assert(cur == rest);
        }
        assert forall|i: int|
            0 <= i < n && filter_matches(filter, #[trigger] entries[i].kind) implies cur.contains(
            i as usize,
        ) by {
            if i < n - 1 {
                let k = choose|k: int| 0 <= k < rest.len() && rest[k] == i as usize;
                assert(cur[k] == i as usize);
            } else {
                assert(cur[rest.len() as int] == i as usize);
            }
        }
    }
}

/// The entries of one status section: a side's entries and the positions of
/// those the section lists (all of them when it lists all).
pub struct StatusSectionEntries<'a> {
    pub entries: &'a [FileStatus],
    pub indexes: Option<Vec<usize>>,
}

impl<'a> StatusSectionEntries<'a> {
    /// Positions, among the side's entries, of those the section lists.
    pub open spec fn listed(self) -> Seq<usize> {
        match self.indexes {
            None => Seq::new(self.entries@.len(), |i: int| i as usize),
            Some(ix) => ix@,
        }
    }

    /// Every listed position lies among the side's entries.
    pub open spec fn wf(self) -> bool {
        forall|k: int| 0 <= k < self.listed().len() ==> #[trigger] self.listed()[k] < self.entries@.len()
    }

    /// The entries of `section`, when the side it reads from has loaded.
    pub fn from_repo(repo: &'a RepoStatusState, section: StatusSection) -> (r: Option<Self>)
        ensures
            ({
                let side = if section == StatusSection::Staged {
                    repo.staged
                } else {
                    repo.worktree
                };
                match r {
                    None => side is None,
                    Some(s) => side matches Some(v) && s.entries@ == v@ && s.wf() && s.listed()
                        == if section_filter(section) == StatusSectionFilter::All {
                        Seq::new(v@.len(), |i: int| i as usize)
                    } else {
                        matching_indexes(v@, section_filter(section), v@.len() as int)
                    },
                }
            }),
    {
        let (entries, filter) = match section {
            StatusSection::CombinedUnstaged => match &repo.worktree {
                Some(v) => (v.as_slice(), StatusSectionFilter::All),
                None => return None,
            },
            StatusSection::Untracked => match &repo.worktree {
                Some(v) => (v.as_slice(), StatusSectionFilter::UntrackedOnly),
                None => return None,
            },
            StatusSection::Unstaged => match &repo.worktree {
                Some(v) => (v.as_slice(), StatusSectionFilter::ExcludeUntracked),
                None => return None,
            },
            StatusSection::Staged => match &repo.staged {
                Some(v) => (v.as_slice(), StatusSectionFilter::All),
                None => return None,
            },
        };
        let indexes = match filter {
            StatusSectionFilter::All => None,
            _ => {
                let mut ix: Vec<usize> = Vec::new();
                let mut i: usize = 0;
                while i < entries.len()
                    invariant
                        i <= entries@.len(),
                        ix@ == matching_indexes(entries@, filter, i as int),
                    decreases entries.len() - i,
                {
                    if status_section_filter_matches(filter, &entries[i]) {
                        ix.push(i);
                    }
                    i = i + 1;
                }
                proof {
                    lemma_matching_indexes(entries@, filter, entries@.len() as int);
                }
                Some(ix)
            },
        };
        Some(StatusSectionEntries { entries, indexes })
    }

    /// How many entries the section lists.
    pub fn len(&self) -> (r: usize)
        ensures
            r == self.listed().len(),
    {
        match &self.indexes {
            None => self.entries.len(),
            Some(ix) => ix.len(),
        }
    }

    /// The section's entry at `index`, if there is one.
    pub fn get(&self, index: usize) -> (r: Option<&'a FileStatus>)
        requires
            self.wf(),
        ensures
            match r {
                Some(e) => index < self.listed().len() && *e == self.entries@[self.listed()[index as int] as int],
                None => index >= self.listed().len(),
            },
    {
        match &self.indexes {
            None => {
                if index < self.entries.len() {
                    Some(&self.entries[index])
                } else {
                    None
                }
            },
            Some(ix) => {
                if index < ix.len() {
                    let source = ix[index];
                    Some(&self.entries[source])
                } else {
                    None
                }
            },
        }
    }

    /// The paths of the section's entries, in order.
    pub fn path_vec(&self) -> (r: Vec<String>)
        requires
            self.wf(),
        ensures
            r@.len() == self.listed().len(),
            forall|k: int|
                0 <= k < r@.len() ==> r@[k] == self.entries@[#[trigger] self.listed()[k] as int].path,
    {
        let n = self.len();
        let mut out: Vec<String> = Vec::new();
        let mut k: usize = 0;
        while k < n
            invariant
                self.wf(),
                n == self.listed().len(),
                k <= n,
                out@.len() == k,
                forall|j: int|
                    0 <= j < k ==> out@[j] == self.entries@[#[trigger] self.listed()[j] as int].path,
            decreases n - k,
        {
            let e = self.get(k).unwrap();
            out.push(e.path.clone());
            k = k + 1;
        }
        out
    }

    /// Whether the section lists an entry for `path`.
    pub fn contains_path(&self, path: &str) -> (r: bool)
        requires
            self.wf(),
        ensures
            r == exists|k: int|
                0 <= k < self.listed().len() && self.entries@[#[trigger] self.listed()[k] as int].path@
                    == path@,
    {
        let n = self.len();
        let mut k: usize = 0;
        while k < n
            invariant
                self.wf(),
                n == self.listed().len(),
                k <= n,
                forall|j: int|
                    0 <= j < k ==> self.entries@[#[trigger] self.listed()[j] as int].path@ != path@,
            decreases n - k,
        {
            let e = self.get(k).unwrap();
            if str_eq(e.path.as_str(), path) {
                return true;
            }
            k = k + 1;
        }
        false
    }
}

/// The revision of the side a section reads from.
pub fn status_section_rev(repo: &RepoStatusState, section: StatusSection) -> (r: u64)
    ensures
        r == if section == StatusSection::Staged {
            repo.staged_rev
        } else {
            repo.worktree_rev
        },
{
    match section {
        StatusSection::Staged => repo.staged_rev,
        _ => repo.worktree_rev,
    }
}

/// Whether the side a section reads from is reloading.
pub fn status_section_is_loading(repo: &RepoStatusState, section: StatusSection) -> (r: bool)
    ensures
        r == if section == StatusSection::Staged {
            repo.staged_loading
        } else {
            repo.worktree_loading
        },
{
    match section {
        StatusSection::Staged => repo.staged_loading,
        _ => repo.worktree_loading,
    }
}

/// Paths selected in the status panel, per section, with the anchor of each
/// range selection.
pub struct StatusMultiSelection {
    pub untracked: Vec<String>,
    pub untracked_anchor: Option<String>,
    pub unstaged: Vec<String>,
    pub unstaged_anchor: Option<String>,
    pub unstaged_anchor_index: Option<usize>,
    pub unstaged_anchor_status_rev: Option<u64>,
    pub staged: Vec<String>,
    pub staged_anchor: Option<String>,
    pub staged_anchor_index: Option<usize>,
    pub staged_anchor_status_rev: Option<u64>,
}

/// The selected paths that an action on `area` applies to: on the unstaged
/// side the unstaged selection, or the untracked one when that is empty.
pub open spec fn selected_for_area(s: StatusMultiSelection, area: DiffArea) -> Seq<String> {
    match area {
        DiffArea::Unstaged => if s.unstaged@.len() > 0 {
            s.unstaged@
        } else {
            s.untracked@
        },
        DiffArea::Staged => s.staged@,
    }
}

impl StatusMultiSelection {
    /// Nothing selected.
    pub fn new() -> (r: Self)
        ensures
            r.untracked@.len() == 0 && r.unstaged@.len() == 0 && r.staged@.len() == 0,
            r.untracked_anchor is None && r.unstaged_anchor is None && r.staged_anchor is None,
            r.unstaged_anchor_index is None && r.unstaged_anchor_status_rev is None,
            r.staged_anchor_index is None && r.staged_anchor_status_rev is None,
    {
        StatusMultiSelection {
            untracked: Vec::new(),
            untracked_anchor: None,
            unstaged: Vec::new(),
            unstaged_anchor: None,
            unstaged_anchor_index: None,
            unstaged_anchor_status_rev: None,
            staged: Vec::new(),
            staged_anchor: None,
            staged_anchor_index: None,
            staged_anchor_status_rev: None,
        }
    }

    /// Whether nothing is selected in any section.
    pub fn is_empty(&self) -> (r: bool)
        ensures
            r == (self.untracked@.len() == 0 && self.unstaged@.len() == 0 && self.staged@.len() == 0),
    {
        self.untracked.len() == 0 && self.unstaged.len() == 0 && self.staged.len() == 0
    }

    /// The selected paths an action on `area` applies to.
    pub fn selected_paths_for_area(&self, area: DiffArea) -> (r: &[String])
        ensures
            r@ == selected_for_area(*self, area),
    {
        match area {
            DiffArea::Unstaged => {
                if self.unstaged.len() > 0 {
                    self.unstaged.as_slice()
                } else {
                    self.untracked.as_slice()
                }
            },
            DiffArea::Staged => self.staged.as_slice(),
        }
    }

    /// How many paths an action on `area` applies to.
    pub fn selected_count_for_area(&self, area: DiffArea) -> (r: usize)
        ensures
            r == selected_for_area(*self, area).len(),
    {
        self.selected_paths_for_area(area).len()
    }

    /// The first path an action on `area` applies to.
    pub fn first_selected_for_area(&self, area: DiffArea) -> (r: Option<&String>)
        ensures
            match r {
                Some(p) => selected_for_area(*self, area).len() > 0 && *p == selected_for_area(
                    *self,
                    area,
                )[0],
                None => selected_for_area(*self, area).len() == 0,
            },
    {
        let paths = self.selected_paths_for_area(area);
        if paths.len() > 0 {
            Some(&paths[0])
        } else {
            None
        }
    }

    /// Consumes the selection and returns the paths an action on `area` applies to.
    pub fn take_selected_paths_for_area(self, area: DiffArea) -> (r: Vec<String>)
        ensures
            r@ == selected_for_area(self, area),
    {
        match area {
            DiffArea::Unstaged => {
                if self.unstaged.len() > 0 {
                    self.unstaged
                } else {
                    self.untracked
                }
            },
            DiffArea::Staged => self.staged,
        }
    }
}

/// Whether `entries` has an entry for `path` (an untracked one, when `untracked_only`).
pub open spec fn lists_path(entries: Seq<FileStatus>, path: Seq<char>, untracked_only: bool) -> bool {
    exists|i: int|
        0 <= i < entries.len() && #[trigger] entries[i].path@ == path && (!untracked_only
            || entries[i].kind == FileStatusKind::Untracked)
}

/// The paths of `paths` that `entries` still lists, in their order.
pub open spec fn retained(paths: Seq<String>, entries: Seq<FileStatus>, untracked_only: bool) -> Seq<
    String,
>
    decreases paths.len(),
{
    if paths.len() == 0 {
        paths
    } else {
        let rest = retained(paths.drop_last(), entries, untracked_only);
        if lists_path(entries, paths.last()@, untracked_only) {
            rest.push(paths.last())
        } else {
            rest
        }
    }
}

/// An anchor survives while `entries` still lists it.
pub open spec fn anchor_kept(anchor: Option<String>, entries: Seq<FileStatus>, untracked_only: bool) -> bool {
    anchor matches Some(a) ==> lists_path(entries, a@, untracked_only)
}

/// Whether `entries` lists `path`.
fn entries_list_path(entries: &[FileStatus], path: &str, untracked_only: bool) -> (r: bool)
    ensures
        r == lists_path(entries@, path@, untracked_only),
{
    let mut i: usize = 0;
    while i < entries.len()
        invariant
            i <= entries@.len(),
            forall|j: int|
                0 <= j < i ==> !(#[trigger] entries@[j].path@ == path@ && (!untracked_only
                    || entries@[j].kind == FileStatusKind::Untracked)),
        decreases entries.len() - i,
    {
        let e = &entries[i];
        if str_eq(e.path.as_str(), path) && (!untracked_only || e.kind == FileStatusKind::Untracked) {
            return true;
        }
        i = i + 1;
    }
    false
}

/// Keeps the paths that `entries` still lists.
fn retain_listed(paths: &mut Vec<String>, entries: &[FileStatus], untracked_only: bool)
    ensures
        final(paths)@ == retained(old(paths)@, entries@, untracked_only),
{
    let mut kept: Vec<String> = Vec::new();
    let mut i: usize = 0;
    while i < paths.len()
        invariant
            i <= paths@.len(),
            kept@ == retained(paths@.subrange(0, i as int), entries@, untracked_only),
        decreases paths.len() - i,
    {
        proof {
            assert(paths@.subrange(0, i + 1).drop_last() =~= paths@.subrange(0, i as int));
        }
        if entries_list_path(entries, paths[i].as_str(), untracked_only) {
            kept.push(paths[i].clone());
        }
        i = i + 1;
    }
    proof {
        assert(paths@.subrange(0, paths@.len() as int) =~= paths@);
    }
    *paths = kept;
}

/// Whether an anchor is to be dropped: it names a path `entries` no longer lists.
fn anchor_is_stale(anchor: &Option<String>, entries: &[FileStatus], untracked_only: bool) -> (r: bool)
    ensures
        r == !anchor_kept(*anchor, entries@, untracked_only),
{
    match anchor {
        Some(a) => !entries_list_path(entries, a.as_str(), untracked_only),
        None => false,
    }
}

/// The untracked and unstaged selections after the working tree entries became `worktree`.
pub open spec fn worktree_reconciled(
    old_sel: StatusMultiSelection,
    new_sel: StatusMultiSelection,
    worktree: Seq<FileStatus>,
) -> bool {
    &&& new_sel.untracked@ == retained(old_sel.untracked@, worktree, true)
    &&& new_sel.untracked_anchor == if anchor_kept(old_sel.untracked_anchor, worktree, true) {
        old_sel.untracked_anchor
    } else {
        None
    }
    &&& new_sel.unstaged@ == retained(old_sel.unstaged@, worktree, false)
    &&& if anchor_kept(old_sel.unstaged_anchor, worktree, false) {
        &&& new_sel.unstaged_anchor == old_sel.unstaged_anchor
        &&& new_sel.unstaged_anchor_index == old_sel.unstaged_anchor_index
        &&& new_sel.unstaged_anchor_status_rev == old_sel.unstaged_anchor_status_rev
    } else {
        &&& new_sel.unstaged_anchor is None
        &&& new_sel.unstaged_anchor_index is None
        &&& new_sel.unstaged_anchor_status_rev is None
    }
}

/// The staged selection after the staged entries became `staged`.
pub open spec fn staged_reconciled(
    old_sel: StatusMultiSelection,
    new_sel: StatusMultiSelection,
    staged: Seq<FileStatus>,
) -> bool {
    &&& new_sel.staged@ == retained(old_sel.staged@, staged, false)
    &&& if anchor_kept(old_sel.staged_anchor, staged, false) {
        &&& new_sel.staged_anchor == old_sel.staged_anchor
        &&& new_sel.staged_anchor_index == old_sel.staged_anchor_index
        &&& new_sel.staged_anchor_status_rev == old_sel.staged_anchor_status_rev
    } else {
        &&& new_sel.staged_anchor is None
        &&& new_sel.staged_anchor_index is None
        &&& new_sel.staged_anchor_status_rev is None
    }
}

/// The working tree side of the selection, left as it is.
pub open spec fn worktree_unchanged(old_sel: StatusMultiSelection, new_sel: StatusMultiSelection) -> bool {
    &&& new_sel.untracked == old_sel.untracked
    &&& new_sel.untracked_anchor == old_sel.untracked_anchor
    &&& new_sel.unstaged == old_sel.unstaged
    &&& new_sel.unstaged_anchor == old_sel.unstaged_anchor
    &&& new_sel.unstaged_anchor_index == old_sel.unstaged_anchor_index
    &&& new_sel.unstaged_anchor_status_rev == old_sel.unstaged_anchor_status_rev
}

/// The staged side of the selection, left as it is.
pub open spec fn staged_unchanged(old_sel: StatusMultiSelection, new_sel: StatusMultiSelection) -> bool {
    &&& new_sel.staged == old_sel.staged
    &&& new_sel.staged_anchor == old_sel.staged_anchor
    &&& new_sel.staged_anchor_index == old_sel.staged_anchor_index
    &&& new_sel.staged_anchor_status_rev == old_sel.staged_anchor_status_rev
}

/// Drops from the untracked and unstaged selections what `worktree` no longer lists.
fn reconcile_worktree(selection: &mut StatusMultiSelection, worktree: &[FileStatus])
    ensures
        worktree_reconciled(*old(selection), *final(selection), worktree@),
        staged_unchanged(*old(selection), *final(selection)),
{
    retain_listed(&mut selection.untracked, worktree, true);
    if anchor_is_stale(&selection.untracked_anchor, worktree, true) {
        selection.untracked_anchor = None;
    }
    retain_listed(&mut selection.unstaged, worktree, false);
    if anchor_is_stale(&selection.unstaged_anchor, worktree, false) {
        selection.unstaged_anchor = None;
        selection.unstaged_anchor_index = None;
        selection.unstaged_anchor_status_rev = None;
    }
}

/// Drops from the staged selection what `staged` no longer lists.
fn reconcile_staged(selection: &mut StatusMultiSelection, staged: &[FileStatus])
    ensures
        staged_reconciled(*old(selection), *final(selection), staged@),
        worktree_unchanged(*old(selection), *final(selection)),
{
    retain_listed(&mut selection.staged, staged, false);
    if anchor_is_stale(&selection.staged_anchor, staged, false) {
        selection.staged_anchor = None;
        selection.staged_anchor_index = None;
        selection.staged_anchor_status_rev = None;
    }
}

/// After a status refresh, keeps in each section only the selected paths the
/// new status still lists there (untracked paths among the untracked
/// entries), in their order, and drops anchors the status no longer lists.
pub fn reconcile_status_multi_selection(selection: &mut StatusMultiSelection, status: &RepoStatus)
    ensures
        worktree_reconciled(*old(selection), *final(selection), status.unstaged@),
        staged_reconciled(*old(selection), *final(selection), status.staged@),
{
    reconcile_worktree(selection, status.unstaged.as_slice());
    reconcile_staged(selection, status.staged.as_slice());
}

/// As `reconcile_status_multi_selection`, for each side whose entries have
/// loaded; a side that has not loaded leaves its selections as they are.
pub fn reconcile_status_multi_selection_with_repo(
    selection: &mut StatusMultiSelection,
    repo: &RepoStatusState,
)
    ensures
        match repo.worktree {
            Some(w) => worktree_reconciled(*old(selection), *final(selection), w@),
            None => worktree_unchanged(*old(selection), *final(selection)),
        },
        match repo.staged {
            Some(s) => staged_reconciled(*old(selection), *final(selection), s@),
            None => staged_unchanged(*old(selection), *final(selection)),
        },
{
    if let Some(worktree) = &repo.worktree {
        reconcile_worktree(selection, worktree.as_slice());
    }
    if let Some(staged) = &repo.staged {
        reconcile_staged(selection, staged.as_slice());
    }
}

/// What is kept is a subsequence of the selection, every kept path is still
/// listed, and every selected path that is still listed is kept.
pub proof fn lemma_retained_members(paths: Seq<String>, entries: Seq<FileStatus>, untracked_only: bool)
    ensures
        retained(paths, entries, untracked_only).len() <= paths.len(),
        forall|k: int|
            0 <= k < retained(paths, entries, untracked_only).len() ==> lists_path(
                entries,
                (#[trigger] retained(paths, entries, untracked_only)[k])@,
                untracked_only,
            ) && paths.contains(retained(paths, entries, untracked_only)[k]),
        forall|i: int|
            0 <= i < paths.len() && lists_path(entries, (#[trigger] paths[i])@, untracked_only)
                ==> retained(paths, entries, untracked_only).contains(paths[i]),
    decreases paths.len(),
{
    if paths.len() > 0 {
        let init = paths.drop_last();
        lemma_retained_members(init, entries, untracked_only);
        let rest = retained(init, entries, untracked_only);
        let r = retained(paths, entries, untracked_only);
        assert forall|k: int| 0 <= k < r.len() implies lists_path(
            entries,
            (#[trigger] r[k])@,
            untracked_only,
        ) && paths.contains(r[k]) by {
            if k < rest.len() {
                assert(r[k] == rest[k]);
                let j = choose|j: int| 0 <= j < init.len() && init[j] == rest[k];
                assert(paths[j] == r[k]);
            } else {
                assert(r[k] == paths[paths.len() - 1]);
            }
        }
        assert forall|i: int|
            0 <= i < paths.len() && lists_path(entries, (#[trigger] paths[i])@, untracked_only)
                implies r.contains(paths[i]) by {
            if i < paths.len() - 1 {
                assert(init[i] == paths[i]);
                let k = choose|k: int| 0 <= k < rest.len() && rest[k] == init[i];
                assert(r[k] == paths[i]);
            } else {
                assert(r[rest.len() as int] == paths[i]);
            }
        }
    }
}

/// Reconciling again against the same status changes nothing.
pub proof fn lemma_retained_idempotent(paths: Seq<String>, entries: Seq<FileStatus>, untracked_only: bool)
    ensures
        retained(retained(paths, entries, untracked_only), entries, untracked_only) == retained(
            paths,
            entries,
            untracked_only,
        ),
    decreases paths.len(),
{
    if paths.len() > 0 {
        let init = paths.drop_last();
        lemma_retained_idempotent(init, entries, untracked_only);
        let rest = retained(init, entries, untracked_only);
        if lists_path(entries, paths.last()@, untracked_only) {
            let r = rest.push(paths.last());
            assert(r.drop_last() =~= rest);
        }
    }
}

/// A reconciled selection is left as it is by a second reconciliation against
/// the same status.
pub proof fn lemma_reconcile_idempotent(
    s0: StatusMultiSelection,
    s1: StatusMultiSelection,
    s2: StatusMultiSelection,
    status: RepoStatus,
)
    requires
        worktree_reconciled(s0, s1, status.unstaged@),
        staged_reconciled(s0, s1, status.staged@),
        worktree_reconciled(s1, s2, status.unstaged@),
        staged_reconciled(s1, s2, status.staged@),
    ensures
        s2.untracked@ == s1.untracked@,
        s2.unstaged@ == s1.unstaged@,
        s2.staged@ == s1.staged@,
        s2.untracked_anchor == s1.untracked_anchor,
        s2.unstaged_anchor == s1.unstaged_anchor,
        s2.staged_anchor == s1.staged_anchor,
{
    lemma_retained_idempotent(s0.untracked@, status.unstaged@, true);
    lemma_retained_idempotent(s0.unstaged@, status.unstaged@, false);
    lemma_retained_idempotent(s0.staged@, status.staged@, false);
}

} // verus!
