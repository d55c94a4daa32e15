//! Toast notifications: message formatting, toast buttons, and how clone
//! and submodule progress snapshots turn into toast updates.
use vstd::prelude::*;
use crate::text::{
    char_pos, chars_of, has_prefix, lemma_char_pos_bounds, find_char, owned, push_str,
    slice_subrange, starts_with, string_from_chars,
};

verus! {

/// Severity of a toast.
#[derive(Clone, Copy, Debug, PartialEq, Eq, Structural)]
pub enum ToastKind {
    Success,
    Warning,
    Error,
}

/// Where the toast stack is anchored in the window.
#[derive(Clone, Copy, Debug, PartialEq, Eq, Structural)]
pub enum ToastViewportCorner {
    BottomRight,
}

/// The corner the toast stack grows from.
pub fn toast_viewport_corner() -> (r: ToastViewportCorner)
    ensures
        r == ToastViewportCorner::BottomRight,
{
    ToastViewportCorner::BottomRight
}

// ---------------------------------------------------------------------------
// Lines of a message.
// ---------------------------------------------------------------------------

/// Pieces of `s` between `'\n'` characters (always at least one piece).
pub open spec fn split_newlines(s: Seq<char>) -> Seq<Seq<char>>
    decreases s.len(),
{
    let k = char_pos(s, '\n');
    if k < s.len() {
        seq![s.subrange(0, k as int)] + split_newlines(s.subrange(k + 1int, s.len() as int))
    } else {
        seq![s]
    }
}

/// One line without a trailing carriage return.
pub open spec fn strip_cr(line: Seq<char>) -> Seq<char> {
    if line.len() > 0 && line.last() == '\r' {
        line.drop_last()
    } else {
        line
    }
}

/// The lines of `s` as `str::lines` yields them: split at `'\n'`, no final
/// empty line after a terminating newline, and each line's trailing `'\r'`
/// removed.
pub open spec fn lines_spec(s: Seq<char>) -> Seq<Seq<char>> {
    let parts = split_newlines(s);
    let kept = if s.len() == 0 || s.last() == '\n' {
        parts.drop_last()
    } else {
        parts
    };
    kept.map_values(|l: Seq<char>| strip_cr(l))
}

/// A line of `s` is a newline-separated piece without its carriage return.
proof fn lemma_lines_index(s: Seq<char>, i: int)
    requires
        split_newlines(s).len() >= 1,
        0 <= i < lines_spec(s).len(),
    ensures
        lines_spec(s)[i] == strip_cr(split_newlines(s)[i]),
        i < split_newlines(s).len(),
{
    let parts = split_newlines(s);
    let kept = if s.len() == 0 || s.last() == '\n' {
        parts.drop_last()
    } else {
        parts
    };
    assert(lines_spec(s) == kept.map_values(|l: Seq<char>| strip_cr(l)));
    assert(kept[i] == parts[i]);
}

/// Line counts: all pieces, less a final empty one after a terminating newline.
proof fn lemma_lines_len(s: Seq<char>)
    requires
        split_newlines(s).len() >= 1,
    ensures
        lines_spec(s).len() == if s.len() == 0 || s.last() == '\n' {
            split_newlines(s).len() - 1
        } else {
            split_newlines(s).len() as int
        },
{
}

/// The pieces of `s` split at newlines.
fn split_newline_pieces(s: &[char]) -> (r: Vec<Vec<char>>)
    ensures
        r@.len() == split_newlines(s@).len(),
        forall|i: int| 0 <= i < r@.len() ==> #[trigger] r@[i]@ == split_newlines(s@)[i],
    decreases s.len(),
{
    let k = find_char(s, '\n');
    proof {
        lemma_char_pos_bounds(s@, '\n');
    }
    let mut out: Vec<Vec<char>> = Vec::new();
    let mut first: Vec<char> = Vec::new();
    let mut i: usize = 0;
    while i < k
        invariant
            i <= k <= s@.len(),
            first@ == s@.subrange(0, i as int),
        decreases k - i,
    {
        first.push(s[i]);
        i = i + 1;
    }
    out.push(first);
    if k < s.len() {
        let rest = split_newline_pieces(slice_subrange(s, k + 1, s.len()));
        let mut j: usize = 0;
        let ghost tail = split_newlines(s@.subrange(k + 1int, s@.len() as int));
        while j < rest.len()
            invariant
                j <= rest@.len() == tail.len(),
                out@.len() == 1 + j,
                out@[0]@ == s@.subrange(0, k as int),
                forall|t: int| 0 <= t < rest@.len() ==> #[trigger] rest@[t]@ == tail[t],
                forall|t: int| 1 <= t < out@.len() ==> #[trigger] out@[t]@ == tail[t - 1],
            decreases rest.len() - j,
        {
            let piece = copy_chars(&rest[j]);
            out.push(piece);
            j = j + 1;
        }
    }
    out
}

/// A copy of a character vector.
fn copy_chars(v: &Vec<char>) -> (r: Vec<char>)
    ensures
        r@ == v@,
{
    let mut out: Vec<char> = Vec::new();
    let mut i: usize = 0;
    while i < v.len()
        invariant
            i <= v@.len(),
            out@ == v@.subrange(0, i as int),
        decreases v.len() - i,
    {
        out.push(v[i]);
        i = i + 1;
    }
    out
}

/// The lines of `s` (`str::lines`).
pub fn lines_of(s: &[char]) -> (r: Vec<Vec<char>>)
    ensures
        r@.len() == lines_spec(s@).len(),
        forall|i: int| 0 <= i < r@.len() ==> #[trigger] r@[i]@ == lines_spec(s@)[i],
{
    let pieces = split_newline_pieces(s);
    let ghost parts = split_newlines(s@);
    let keep = if s.len() == 0 || s[s.len() - 1] == '\n' {
        pieces.len() - 1
    } else {
        pieces.len()
    };
    proof {
        lemma_split_newlines_nonempty(s@);
        lemma_lines_len(s@);
    }
    let mut out: Vec<Vec<char>> = Vec::new();
    let mut i: usize = 0;
    while i < keep
        invariant
            keep <= pieces@.len() == parts.len(),
            parts == split_newlines(s@),
            parts.len() >= 1,
            keep == lines_spec(s@).len(),
            keep == (if s@.len() == 0 || s@.last() == '\n' {
                parts.len() - 1
            } else {
                parts.len() as int
            }),
            i <= keep,
            out@.len() == i,
            forall|t: int| 0 <= t < pieces@.len() ==> #[trigger] pieces@[t]@ == parts[t],
            forall|t: int| 0 <= t < i ==> #[trigger] out@[t]@ == lines_spec(s@)[t],
        decreases keep - i,
    {
        let line = &pieces[i];
        let n = line.len();
        let stripped = if n > 0 && line[n - 1] == '\r' {
            copy_chars_prefix(line, n - 1)
        } else {
            copy_chars(line)
        };
        proof {
            lemma_lines_index(s@, i as int);
            assert(lines_spec(s@)[i as int] == strip_cr(split_newlines(s@)[i as int]));
            assert(split_newlines(s@) == parts);
            assert(line@ == parts[i as int]);
            if n > 0 && line@[n - 1] == '\r' {
                assert(line@.drop_last() =~= line@.subrange(0, n - 1));
            }
            assert(stripped@ == strip_cr(line@));
        }
        let ghost expected = lines_spec(s@)[i as int];
        assert(strip_cr(parts[i as int]) == expected);
        assert(stripped@ == strip_cr(parts[i as int]));
        assert(stripped@ == expected);
        out.push(stripped);
        assert(out@[i as int]@ == expected);
        i = i + 1;
    }
    out
}

/// Every string splits into at least one piece.
proof fn lemma_split_newlines_nonempty(s: Seq<char>)
    ensures
        split_newlines(s).len() >= 1,
    decreases s.len(),
{
    lemma_char_pos_bounds(s, '\n');
    let k = char_pos(s, '\n');
    if k < s.len() {
        lemma_split_newlines_nonempty(s.subrange(k + 1int, s.len() as int));
    }
}

/// The first `n` characters of `v`.
fn copy_chars_prefix(v: &Vec<char>, n: usize) -> (r: Vec<char>)
    requires
        n <= v@.len(),
    ensures
        r@ == v@.subrange(0, n as int),
{
    let mut out: Vec<char> = Vec::new();
    let mut i: usize = 0;
    while i < n
        invariant
            i <= n <= v@.len(),
            out@ == v@.subrange(0, i as int),
        decreases n - i,
    {
        out.push(v[i]);
        i = i + 1;
    }
    out
}

/// Four spaces: the indentation that marks a code block line.
pub open spec fn code_indent() -> Seq<char> {
    seq![' ', ' ', ' ', ' ']
}

/// A message is shown as code when one of its lines is indented by four spaces.
pub open spec fn is_code_message(message: Seq<char>) -> bool {
    exists|i: int| 0 <= i < lines_spec(message).len() && has_prefix(lines_spec(message)[i], code_indent())
}

/// Whether the message holds a code-indented line.
pub fn looks_like_code_message(message: &str) -> (r: bool)
    ensures
        r == is_code_message(message@),
{
    let cs = chars_of(message);
    let lines = lines_of(cs.as_slice());
    let indent: Vec<char> = vec![' ', ' ', ' ', ' '];
    let mut i: usize = 0;
    while i < lines.len()
        invariant
            i <= lines@.len() == lines_spec(message@).len(),
            cs@ == message@,
            indent@ == code_indent(),
            forall|t: int| 0 <= t < lines@.len() ==> #[trigger] lines@[t]@ == lines_spec(message@)[t],
            forall|t: int| 0 <= t < i ==> !has_prefix(#[trigger] lines_spec(message@)[t], code_indent()),
        decreases lines.len() - i,
    {
        if starts_with(lines[i].as_slice(), indent.as_slice()) {
            return true;
        }
        i = i + 1;
    }
    false
}

/// One line with a leading four-space indentation removed.
pub open spec fn unindent(line: Seq<char>) -> Seq<char> {
    if has_prefix(line, code_indent()) {
        line.subrange(4, line.len() as int)
    } else {
        line
    }
}

/// Lines joined with `'\n'` between them.
pub open spec fn join_lines(ls: Seq<Seq<char>>) -> Seq<char>
    decreases ls.len(),
{
    if ls.len() == 0 {
        Seq::empty()
    } else if ls.len() == 1 {
        ls[0]
    } else {
        join_lines(ls.drop_last()) + seq!['\n'] + ls.last()
    }
}

/// The message with each line's four-space indentation removed and its
/// lines joined by newlines.
pub open spec fn strip_code_indentation_spec(message: Seq<char>) -> Seq<char> {
    join_lines(unindented_lines(message))
}

/// The message's lines with their code indentation removed.
pub open spec fn unindented_lines(message: Seq<char>) -> Seq<Seq<char>> {
    lines_spec(message).map_values(|l: Seq<char>| unindent(l))
}

/// Each unindented line is the corresponding line without its indentation.
proof fn lemma_unindented_index(message: Seq<char>, i: int)
    requires
        0 <= i < lines_spec(message).len(),
    ensures
        unindented_lines(message)[i] == unindent(lines_spec(message)[i]),
        unindented_lines(message).len() == lines_spec(message).len(),
{
}

/// Removes the code-block indentation from every line of the message.
pub fn strip_code_message_indentation(message: &str) -> (r: String)
    ensures
        r@ == strip_code_indentation_spec(message@),
{
    let cs = chars_of(message);
    let lines = lines_of(cs.as_slice());
    let ghost ls = unindented_lines(message@);
    let indent: Vec<char> = vec![' ', ' ', ' ', ' '];
    let mut out = String::new();
    let mut i: usize = 0;
    while i < lines.len()
        invariant
            i <= lines@.len() == lines_spec(message@).len() == ls.len(),
            ls == unindented_lines(message@),
            cs@ == message@,
            indent@ == code_indent(),
            forall|t: int| 0 <= t < lines@.len() ==> #[trigger] lines@[t]@ == lines_spec(message@)[t],
            out@ == join_lines(ls.subrange(0, i as int)),
        decreases lines.len() - i,
    {
        let line = lines[i].as_slice();
        assert(line@ == lines_spec(message@)[i as int]);
        proof {
            lemma_unindented_index(message@, i as int);
        }
        let has_indent = starts_with(line, indent.as_slice());
        let piece = if has_indent {
            slice_subrange(line, 4, line.len())
        } else {
            line
        };
        proof {
            assert(code_indent().len() == 4);
            if has_indent {
                assert(has_prefix(line@, code_indent()));
                assert(piece@ == line@.subrange(4, line@.len() as int));
            } else {
                assert(!has_prefix(line@, code_indent()));
                assert(piece@ == line@);
            }
            assert(piece@ == unindent(line@));
        }
        assert(piece@ == ls[i as int]);
        if i > 0 {
            out.push('\n');
        }
        let s = string_from_chars(piece);
        push_str(&mut out, s.as_str());
        assert(ls.subrange(0, i + 1).drop_last() =~= ls.subrange(0, i as int));
        i = i + 1;
    }
    assert(ls.subrange(0, ls.len() as int) =~= ls);
    out
}

/// A button on a toast and what it does.
#[derive(Clone, Debug, PartialEq, Eq)]
pub enum ToastAction {
    OpenUrl { url: String, label: String },
    OpenSurvey { survey_id: String, survey_name: String, url: String, label: String },
    PostponeSurvey {
        survey_id: String,
        survey_name: String,
        postpone_seconds: u64,
        label: String,
    },
    StartUpdate { download_url: String, target_version: String, label: String },
    PostponeUpdate { version: String, postpone_seconds: u64, label: String },
    DismissUpdate { version: String, label: String },
}

/// What closing a toast does besides removing it.
#[derive(Clone, Debug, PartialEq, Eq)]
pub enum ToastDismissBehavior {
    Remove,
    PostponeSurvey { survey_id: String, survey_name: String, postpone_seconds: u64 },
}

// ---------------------------------------------------------------------------
// Clone progress.
// ---------------------------------------------------------------------------

/// Lifecycle of a clone operation.
#[derive(Clone, Debug, PartialEq, Eq)]
pub enum CloneOpStatus {
    Running,
    Cancelling,
    FinishedOk,
    Cancelled,
    FinishedErr(String),
}

/// Phase a running clone reports.
#[derive(Clone, Copy, Debug, PartialEq, Eq, Structural)]
pub enum CloneProgressStage {
    Loading,
    RemoteObjects,
}

/// Progress reported by a running clone.
#[derive(Clone, Copy, Debug, PartialEq, Eq, Structural)]
pub struct CloneProgressMeter {
    pub stage: CloneProgressStage,
    pub percent: u8,
}

/// The destination of one clone operation. Each started clone gets its own
/// `id`; a clone restarted into the same path is a different destination.
#[derive(Clone, Debug, PartialEq, Eq)]
pub struct CloneDest {
    pub id: u64,
    pub path: String,
}

/// Snapshot of a clone operation.
#[derive(Clone, Debug, PartialEq, Eq)]
pub struct CloneOpState {
    pub url: String,
    pub dest: CloneDest,
    pub status: CloneOpStatus,
    pub progress: CloneProgressMeter,
    pub seq: u64,
}

/// What one progress synchronisation asks the toast host to do.
#[derive(Clone, Debug, PartialEq, Eq)]
pub struct CloneProgressSyncAction {
    pub progress_changed: bool,
    pub notice: Option<(ToastKind, String)>,
}

/// The clone state a toast host tracks: the shown progress, the last
/// sequence number seen, and the tracked destination.
pub struct CloneTracking {
    pub progress: Option<CloneOpState>,
    pub last_seq: u64,
    pub dest: Option<CloneDest>,
}

/// Whether the tracked destination is the same clone as `dest`.
pub open spec fn same_dest(current: Option<CloneDest>, dest: CloneDest) -> bool {
    current matches Some(d) && d.id == dest.id
}

/// The notice that a finished clone produces.
pub open spec fn finish_notice(op: CloneOpState) -> (ToastKind, Seq<char>) {
    match op.status {
        CloneOpStatus::FinishedOk => (ToastKind::Success, "Clone finished: "@ + op.dest.path@),
        CloneOpStatus::Cancelled => (ToastKind::Warning, "Clone aborted: "@ + op.dest.path@),
        CloneOpStatus::FinishedErr(e) => (ToastKind::Error, e@),
        _ => (ToastKind::Warning, Seq::empty()),
    }
}

/// View of a sync action: whether progress changed and the notice, if any.
pub open spec fn action_view(a: CloneProgressSyncAction) -> (bool, Option<(ToastKind, Seq<char>)>) {
    (
        a.progress_changed,
        match a.notice {
            Some(n) => Some((n.0, n.1@)),
            None => None,
        },
    )
}

/// One synchronisation step: the tracked state after seeing `next`, and
/// what changed.
pub open spec fn clone_sync_step(t: CloneTracking, next: Option<CloneOpState>) -> (
    CloneTracking,
    (bool, Option<(ToastKind, Seq<char>)>),
) {
    match next {
        None => (
            CloneTracking { progress: None, last_seq: 0, dest: None },
            (t.progress is Some, None),
        ),
        Some(op) => match op.status {
            CloneOpStatus::Running | CloneOpStatus::Cancelling => {
                let needs_reset = t.progress is None || !same_dest(t.dest, op.dest);
                if needs_reset || t.last_seq != op.seq {
                    (
                        CloneTracking {
                            progress: Some(op),
                            last_seq: op.seq,
                            dest: if needs_reset {
                                Some(op.dest)
                            } else {
                                t.dest
                            },
                        },
                        (true, None),
                    )
                } else {
                    (t, (false, None))
                }
            },
            _ => {
                if t.last_seq != op.seq {
                    (
                        CloneTracking { progress: None, last_seq: op.seq, dest: None },
                        (t.progress is Some, Some(finish_notice(op))),
                    )
                } else {
                    (t, (false, None))
                }
            },
        },
    }
}

/// A copy of a string, by its characters.
fn dup_string(s: &String) -> (r: String)
    ensures
        r == *s,
{
    s.clone()
}

impl CloneDest {
    /// A copy of this destination.
    pub fn duplicate(&self) -> (r: Self)
        ensures
            r == *self,
    {
        CloneDest { id: self.id, path: dup_string(&self.path) }
    }
}

impl CloneOpState {
    /// A copy of this snapshot.
    pub fn duplicate(&self) -> (r: Self)
        ensures
            r == *self,
    {
        let status = match &self.status {
            CloneOpStatus::Running => CloneOpStatus::Running,
            CloneOpStatus::Cancelling => CloneOpStatus::Cancelling,
            CloneOpStatus::FinishedOk => CloneOpStatus::FinishedOk,
            CloneOpStatus::Cancelled => CloneOpStatus::Cancelled,
            CloneOpStatus::FinishedErr(e) => CloneOpStatus::FinishedErr(dup_string(e)),
        };
        CloneOpState {
            url: dup_string(&self.url),
            dest: self.dest.duplicate(),
            status,
            progress: self.progress,
            seq: self.seq,
        }
    }
}

/// Brings the tracked clone progress up to date with the latest snapshot:
/// running clones replace the shown progress when they are new or report a
/// new sequence number; finished clones clear it once and produce a notice.
pub fn apply_clone_progress_sync(
    clone_progress: &mut Option<CloneOpState>,
    clone_progress_last_seq: &mut u64,
    clone_progress_dest: &mut Option<CloneDest>,
    next_clone: Option<&CloneOpState>,
) -> (r: CloneProgressSyncAction)
    ensures
        ({
            let step = clone_sync_step(
                CloneTracking {
                    progress: *old(clone_progress),
                    last_seq: *old(clone_progress_last_seq),
                    dest: *old(clone_progress_dest),
                },
                match next_clone {
                    Some(op) => Some(*op),
                    None => None,
                },
            );
            &&& *final(clone_progress) == step.0.progress
            &&& *final(clone_progress_last_seq) == step.0.last_seq
            &&& *final(clone_progress_dest) == step.0.dest
            &&& action_view(r) == step.1
        }),
{
    match next_clone {
        Some(op) => match &op.status {
            CloneOpStatus::Running | CloneOpStatus::Cancelling => {
                let same = match clone_progress_dest {
                    Some(d) => d.id == op.dest.id,
                    None => false,
                };
                let needs_reset = clone_progress.is_none() || !same;
                if needs_reset {
                    *clone_progress_last_seq = 0;
                    *clone_progress_dest = Some(op.dest.duplicate());
                }
                if needs_reset || *clone_progress_last_seq != op.seq {
                    *clone_progress_last_seq = op.seq;
                    *clone_progress = Some(op.duplicate());
                    CloneProgressSyncAction { progress_changed: true, notice: None }
                } else {
                    CloneProgressSyncAction { progress_changed: false, notice: None }
                }
            },
            _ => {
                if *clone_progress_last_seq != op.seq {
                    let had_progress = clone_progress.is_some();
                    *clone_progress = None;
                    *clone_progress_dest = None;
                    *clone_progress_last_seq = op.seq;
                    let notice = finished_clone_notice(op);
                    CloneProgressSyncAction { progress_changed: had_progress, notice: Some(notice) }
                } else {
                    CloneProgressSyncAction { progress_changed: false, notice: None }
                }
            },
        },
        None => {
            let had_progress = clone_progress.is_some();
            *clone_progress = None;
            *clone_progress_last_seq = 0;
            *clone_progress_dest = None;
            CloneProgressSyncAction { progress_changed: had_progress, notice: None }
        },
    }
}

/// The notice for a clone that finished, was cancelled or failed.
fn finished_clone_notice(op: &CloneOpState) -> (r: (ToastKind, String))
    requires
        !(op.status is Running || op.status is Cancelling),
    ensures
        (r.0, r.1@) == finish_notice(*op),
{
    match &op.status {
        CloneOpStatus::FinishedOk => {
            let mut s = owned("Clone finished: ");
            push_str(&mut s, op.dest.path.as_str());
            (ToastKind::Success, s)
        },
        CloneOpStatus::Cancelled => {
            let mut s = owned("Clone aborted: ");
            push_str(&mut s, op.dest.path.as_str());
            (ToastKind::Warning, s)
        },
        CloneOpStatus::FinishedErr(e) => (ToastKind::Error, dup_string(e)),
        _ => (ToastKind::Warning, String::new()),
    }
}

/// Seeing the same snapshot twice in a row changes nothing the second time:
/// the tracked state stays as it was and no notice is produced.
pub proof fn lemma_clone_sync_repeat_is_quiet(t: CloneTracking, next: Option<CloneOpState>)
    ensures
        ({
            let first = clone_sync_step(t, next);
            let second = clone_sync_step(first.0, next);
            &&& second.0 == first.0
            &&& second.1.1 is None
            &&& !second.1.0
        }),
{
}

/// A finished clone produces its notice exactly once: the step that first
/// sees it reports the notice, and afterwards the tracked progress is empty.
pub proof fn lemma_clone_finish_notifies_once(t: CloneTracking, op: CloneOpState)
    requires
        !(op.status is Running || op.status is Cancelling),
        t.last_seq != op.seq,
    ensures
        clone_sync_step(t, Some(op)).1.1 == Some(finish_notice(op)),
        clone_sync_step(t, Some(op)).0.progress is None,
        clone_sync_step(clone_sync_step(t, Some(op)).0, Some(op)).1.1 is None,
{
}

// ---------------------------------------------------------------------------
// Submodule add progress.
// ---------------------------------------------------------------------------

/// A submodule being added: its remote and its path in the repository.
#[derive(Clone, Debug, PartialEq, Eq)]
pub struct SubmoduleAddProgressState {
    pub url: String,
    pub path: String,
}

impl SubmoduleAddProgressState {
    /// The entry as a pair of strings.
    pub open spec fn view_pair(self) -> (Seq<char>, Seq<char>) {
        (self.url@, self.path@)
    }

    /// A copy of this entry.
    pub fn duplicate(&self) -> (r: Self)
        ensures
            r == *self,
    {
        SubmoduleAddProgressState { url: dup_string(&self.url), path: dup_string(&self.path) }
    }
}

/// Entries as string pairs.
pub open spec fn submodule_entries_view(v: Seq<SubmoduleAddProgressState>) -> Seq<
    (Seq<char>, Seq<char>),
> {
    v.map_values(|e: SubmoduleAddProgressState| e.view_pair())
}

/// Whether two snapshots list the same entries in the same order.
fn submodule_snapshots_equal(a: &[SubmoduleAddProgressState], b: &[SubmoduleAddProgressState]) -> (r:
    bool)
    ensures
        r == (submodule_entries_view(a@) == submodule_entries_view(b@)),
{
    if a.len() != b.len() {
        assert(submodule_entries_view(a@).len() != submodule_entries_view(b@).len());
        return false;
    }
    let mut i: usize = 0;
    while i < a.len()
        invariant
            i <= a@.len() == b@.len(),
            forall|k: int| 0 <= k < i ==> (#[trigger] a@[k]).view_pair() == b@[k].view_pair(),
        decreases a.len() - i,
    {
        if a[i].url != b[i].url || a[i].path != b[i].path {
            assert(submodule_entries_view(a@)[i as int] != submodule_entries_view(b@)[i as int]);
            return false;
        }
        i = i + 1;
    }
    assert(submodule_entries_view(a@) =~= submodule_entries_view(b@));
    true
}

/// Replaces the shown submodule progress with the latest snapshot; returns
/// whether it changed.
pub fn apply_submodule_add_progress_sync(
    submodule_add_progress: &mut Vec<SubmoduleAddProgressState>,
    next_submodule_add_progress: &[SubmoduleAddProgressState],
) -> (r: bool)
    ensures
        r == (submodule_entries_view(old(submodule_add_progress)@) != submodule_entries_view(
            next_submodule_add_progress@,
        )),
        submodule_entries_view(final(submodule_add_progress)@) == submodule_entries_view(
            next_submodule_add_progress@,
        ),
{
    if submodule_snapshots_equal(submodule_add_progress.as_slice(), next_submodule_add_progress) {
        return false;
    }
    let mut copy: Vec<SubmoduleAddProgressState> = Vec::new();
    let mut i: usize = 0;
    while i < next_submodule_add_progress.len()
        invariant
            i <= next_submodule_add_progress@.len(),
            copy@ == next_submodule_add_progress@.subrange(0, i as int),
        decreases next_submodule_add_progress.len() - i,
    {
        copy.push(next_submodule_add_progress[i].duplicate());
        i = i + 1;
    }
    assert(copy@ =~= next_submodule_add_progress@);
    *submodule_add_progress = copy;
    true
}

/// What the clone progress toast shows besides its colours: the percentage
/// (at most 100), its text, and the abort button's label and state.
pub struct CloneProgressSummary {
    pub percent: u8,
    pub percent_text: String,
    pub aborting: bool,
    pub abort_label: String,
}

/// The clone progress toast's texts for a clone snapshot: the reported
/// percentage capped at 100, and "Aborting…" on a disabled abort button while
/// the clone is being cancelled.
pub fn clone_progress_summary(op: &CloneOpState) -> (r: CloneProgressSummary)
    ensures
        r.percent == if op.progress.percent > 100 {
            100u8
        } else {
            op.progress.percent
        },
        r.percent_text@ == crate::text::decimal(r.percent as nat) + "%"@,
        r.aborting == (op.status is Cancelling),
        r.abort_label@ == if r.aborting {
            "Aborting\u{2026}"@
        } else {
            "Abort"@
        },
{
    let percent = if op.progress.percent > 100 {
        100u8
    } else {
        op.progress.percent
    };
    let mut percent_text = crate::text::u64_to_decimal(percent as u64);
    push_str(&mut percent_text, "%");
    let aborting = match op.status {
        CloneOpStatus::Cancelling => true,
        _ => false,
    };
    let abort_label = if aborting {
        owned("Aborting\u{2026}")
    } else {
        owned("Abort")
    };
    CloneProgressSummary { percent, percent_text, aborting, abort_label }
}

} // verus!
