//! The conflict resolver's view of the file being resolved: which
//! repository and path it shows, the text of the three merge inputs with
//! their line starts, the conflict ranges on each input, and what is cached
//! per conflict block (whether it has a base, which side was chosen).
use vstd::prelude::*;
use std::ops::Range;
use std::collections::HashMap;
use crate::conflict::{
    append_conflict_row_without_whitespace, deferred_line_starts_for_text, indexed_line_text,
    line_span, line_starts_of, line_text_is, side_text, slice_is_text, DeferredLineStarts,
    FileDiffRow, FileDiffRowKind, ThreeWayColumn, ThreeWaySides,
};
use vstd::utf8::encode_utf8;
use crate::settings::DiffWhitespaceMode;
use crate::text::str_eq;
use crate::view_config::RepoId;

verus! {

/// Which input a conflict block resolves to.
#[derive(Clone, Copy, Debug, PartialEq, Eq, Structural)]
pub enum ConflictChoice {
    Base,
    Ours,
    Theirs,
    Both,
}

/// How the resolver lays out the inputs.
#[derive(Clone, Copy, Debug, PartialEq, Eq, Structural)]
pub enum ConflictResolverViewMode {
    ThreeWay,
    TwoWayDiff,
}

/// One conflict of a file with conflict markers.
#[derive(Clone, Debug, PartialEq, Eq)]
pub struct ConflictBlock {
    pub base: Option<String>,
    pub ours: String,
    pub theirs: String,
    pub choice: ConflictChoice,
    pub resolved: bool,
}

/// A piece of a file with conflict markers: text outside any conflict, or a
/// conflict block.
#[derive(Clone, Debug, PartialEq, Eq)]
pub enum ConflictSegment {
    Text(String),
    Block(ConflictBlock),
}

/// Where the conflicts lie on each input, as computed for the three-way view.
pub struct ThreeWayConflictMaps {
    /// The line ranges of the conflicts on each input, in conflict order.
    pub conflict_ranges: ThreeWaySides<Vec<Range<usize>>>,
    /// For each line of each input, the conflict it belongs to.
    pub line_conflict_maps: ThreeWaySides<Vec<Option<usize>>>,
    pub conflict_has_base: Vec<bool>,
    pub conflict_resolved: Vec<bool>,
}

/// The state of the conflict resolver for one file.
pub struct ConflictResolverUiState {
    pub repo_id: Option<RepoId>,
    pub path: Option<String>,
    pub marker_segments: Vec<ConflictSegment>,
    pub view_mode: ConflictResolverViewMode,
    /// The text of each input.
    pub three_way_text: ThreeWaySides<String>,
    /// Line starts of each input's text, computed when first needed.
    pub three_way_line_starts: ThreeWaySides<DeferredLineStarts>,
    pub three_way_conflict_ranges: ThreeWaySides<Vec<Range<usize>>>,
    /// For each conflict block, in order, whether it has a base.
    pub conflict_has_base: Vec<bool>,
    /// For each conflict block, in order, the side chosen.
    pub conflict_choices: Vec<ConflictChoice>,
    /// Row kinds of the two-way split rows, by source row, as shown when
    /// whitespace is ignored.
    pub two_way_split_visual_kind_cache: HashMap<usize, FileDiffRowKind>,
    /// The runs of rows the three-way view shows.
    pub three_way_visible_projection: Vec<VisibleLineSpan>,
    /// Whether the three-way view's visible state was built.
    pub three_way_visible_state_ready: bool,
    /// For each input, the row of its widest line, by which the view's
    /// horizontal extent is measured.
    pub three_way_horizontal_measure_rows: ThreeWaySides<usize>,
}

/// For each conflict block of `segs`, in order, whether it has a base.
pub open spec fn blocks_have_base(segs: Seq<ConflictSegment>) -> Seq<bool>
    decreases segs.len(),
{
    if segs.len() == 0 {
        seq![]
    } else {
        let rest = blocks_have_base(segs.drop_last());
        match segs.last() {
            ConflictSegment::Block(b) => rest.push(b.base is Some),
            ConflictSegment::Text(_) => rest,
        }
    }
}

/// For each conflict block of `segs`, in order, the side chosen.
pub open spec fn block_choices(segs: Seq<ConflictSegment>) -> Seq<ConflictChoice>
    decreases segs.len(),
{
    if segs.len() == 0 {
        seq![]
    } else {
        let rest = block_choices(segs.drop_last());
        match segs.last() {
            ConflictSegment::Block(b) => rest.push(b.choice),
            ConflictSegment::Text(_) => rest,
        }
    }
}

/// The line starts used for `side`: those computed already, else the ones
/// of its text.
pub open spec fn side_line_starts(s: ConflictResolverUiState, side: ThreeWayColumn) -> Seq<usize> {
    match s.three_way_line_starts.side(side).starts {
        Some(v) => v@,
        None => line_starts_of(s.three_way_text.side(side)@),
    }
}

/// Everything but the per-block caches and the conflict ranges is the same.
pub open spec fn same_source(a: ConflictResolverUiState, b: ConflictResolverUiState) -> bool {
    &&& a.repo_id == b.repo_id
    &&& a.path == b.path
    &&& a.marker_segments == b.marker_segments
    &&& a.view_mode == b.view_mode
    &&& a.three_way_text == b.three_way_text
    &&& a.three_way_line_starts == b.three_way_line_starts
    &&& a.two_way_split_visual_kind_cache == b.two_way_split_visual_kind_cache
}

/// Whether row `i` exists and shows a change.
pub open spec fn is_change(rows: Seq<FileDiffRow>, i: int) -> bool {
    0 <= i < rows.len() && rows[i].kind != FileDiffRowKind::Context
}

/// The first row of the run of change rows that ends just before or at
/// `ix`: going back from `ix` over change rows.
pub open spec fn run_start(rows: Seq<FileDiffRow>, ix: int) -> int
    decreases ix,
{
    if ix > 0 && is_change(rows, ix - 1) {
        run_start(rows, ix - 1)
    } else {
        ix
    }
}

/// One past the last row of the run of change rows starting at `i`.
pub open spec fn run_end(rows: Seq<FileDiffRow>, i: int) -> int
    decreases rows.len() - i,
{
    if is_change(rows, i) {
        run_end(rows, i + 1)
    } else {
        i
    }
}

/// What a row adds to the old side's whitespace-free text.
pub open spec fn old_part(row: FileDiffRow) -> Seq<char> {
    match row.kind {
        FileDiffRowKind::Remove | FileDiffRowKind::Modify => side_text(row.old),
        _ => Seq::empty(),
    }
}

/// What a row adds to the new side's whitespace-free text.
pub open spec fn new_part(row: FileDiffRow) -> Seq<char> {
    match row.kind {
        FileDiffRowKind::Add | FileDiffRowKind::Modify => side_text(row.new),
        _ => Seq::empty(),
    }
}

/// The old side's whitespace-free text of rows `a..b`.
pub open spec fn run_old_text(rows: Seq<FileDiffRow>, a: int, b: int) -> Seq<char>
    decreases b - a,
{
    if b <= a {
        Seq::empty()
    } else {
        run_old_text(rows, a, b - 1) + old_part(rows[b - 1])
    }
}

/// The new side's whitespace-free text of rows `a..b`.
pub open spec fn run_new_text(rows: Seq<FileDiffRow>, a: int, b: int) -> Seq<char>
    decreases b - a,
{
    if b <= a {
        Seq::empty()
    } else {
        run_new_text(rows, a, b - 1) + new_part(rows[b - 1])
    }
}

/// The kinds shown for rows `s..e` when whitespace is ignored: context for
/// all of them when the run changes only whitespace, else their own kinds.
pub open spec fn run_kinds(rows: Seq<FileDiffRow>, s: int, e: int) -> Map<usize, FileDiffRowKind> {
    let same = run_old_text(rows, s, e) == run_new_text(rows, s, e);
    Map::new(
        |k: usize| s <= k < e,
        |k: usize|
            if same {
                FileDiffRowKind::Context
            } else {
                rows[k as int].kind
            },
    )
}

/// The cache after recording the kinds of the change run around row `ix`.
pub open spec fn cache_after_run(cache: Map<usize, FileDiffRowKind>, rows: Seq<FileDiffRow>, ix: usize) -> Map<
    usize,
    FileDiffRowKind,
> {
    let s = run_start(rows, ix as int);
    let e = run_end(rows, s);
    if s == e {
        cache
    } else {
        cache.union_prefer_right(run_kinds(rows, s, e))
    }
}

/// Whether the shown kind of `row` needs the cache: whitespace is ignored
/// and the row shows a change.
pub open spec fn needs_visual_kind(row: FileDiffRow, mode: DiffWhitespaceMode) -> bool {
    mode != DiffWhitespaceMode::Show && row.kind != FileDiffRowKind::Context
}

/// The cache after asking for the shown kind of row `ix`.
pub open spec fn cache_after_lookup(
    cache: Map<usize, FileDiffRowKind>,
    rows: Seq<FileDiffRow>,
    ix: usize,
    row: FileDiffRow,
    mode: DiffWhitespaceMode,
) -> Map<usize, FileDiffRowKind> {
    if !needs_visual_kind(row, mode) || cache.contains_key(ix) {
        cache
    } else {
        cache_after_run(cache, rows, ix)
    }
}

/// The kind shown for row `ix`: its own kind when whitespace is shown or it
/// is context, else the cached kind of its change run, computed when first
/// needed.
pub open spec fn visual_kind(
    cache: Map<usize, FileDiffRowKind>,
    rows: Seq<FileDiffRow>,
    ix: usize,
    row: FileDiffRow,
    mode: DiffWhitespaceMode,
) -> FileDiffRowKind {
    let after = cache_after_lookup(cache, rows, ix, row, mode);
    if !needs_visual_kind(row, mode) {
        row.kind
    } else if after.contains_key(ix) {
        after[ix]
    } else {
        row.kind
    }
}

/// A run of rows of the three-way view that show source lines one to one:
/// row `visible_start + k` shows line `source_line_start + k`, for `k < len`.
#[derive(Clone, Copy, Debug, PartialEq, Eq, Structural)]
pub struct VisibleLineSpan {
    pub visible_start: usize,
    pub source_line_start: usize,
    pub len: usize,
}

/// The rows a span shows, as (row, line) pairs, in order.
pub open spec fn span_pairs(span: VisibleLineSpan, n: int) -> Seq<(int, int)> {
    Seq::new(n as nat, |k: int| (span.visible_start + k, span.source_line_start + k))
}

/// The (row, line) pairs of all spans, in order.
pub open spec fn visible_pairs(spans: Seq<VisibleLineSpan>) -> Seq<(int, int)>
    decreases spans.len(),
{
    if spans.len() == 0 {
        seq![]
    } else {
        visible_pairs(spans.drop_last()) + span_pairs(spans.last(), spans.last().len as int)
    }
}

/// The width in bytes of line `line_ix` of input `side`, as it is read
/// (0 for a missing line).
pub open spec fn line_width(s: ConflictResolverUiState, side: ThreeWayColumn, line_ix: int) -> nat {
    let bytes = encode_utf8(s.three_way_text.side(side)@);
    if line_ix < 0 || line_ix > usize::MAX {
        0
    } else {
        match line_span(bytes, side_line_starts(s, side), line_ix as usize) {
            None => 0,
            Some((a, b)) => if slice_is_text(bytes, a, b) {
                (b - a) as nat
            } else {
                0
            },
        }
    }
}

/// The row of the first widest line among `pairs` for input `side`, with
/// its width; row 0 and width 0 when no line has any width.
pub open spec fn widest_visible(s: ConflictResolverUiState, side: ThreeWayColumn, pairs: Seq<(int, int)>) -> (
    int,
    nat,
)
    decreases pairs.len(),
{
    if pairs.len() == 0 {
        (0, 0)
    } else {
        let best = widest_visible(s, side, pairs.drop_last());
        let w = line_width(s, side, pairs.last().1);
        if w > best.1 {
            (pairs.last().0, w)
        } else {
            best
        }
    }
}

/// The widest visible line of an input depends only on the inputs' texts and
/// line starts.
proof fn lemma_widest_visible_same_inputs(
    a: ConflictResolverUiState,
    b: ConflictResolverUiState,
    side: ThreeWayColumn,
    pairs: Seq<(int, int)>,
)
    requires
        a.three_way_text == b.three_way_text,
        a.three_way_line_starts == b.three_way_line_starts,
    ensures
        widest_visible(a, side, pairs) == widest_visible(b, side, pairs),
    decreases pairs.len(),
{
    if pairs.len() > 0 {
        lemma_widest_visible_same_inputs(a, b, side, pairs.drop_last());
    }
}

/// Whether some resolved block is hidden from the three-way view.
pub open spec fn hides_resolved_blocks(hide_resolved: bool, segs: Seq<ConflictSegment>) -> bool {
    hide_resolved && exists|i: int| 0 <= i < segs.len() && (#[trigger] segs[i] matches ConflictSegment::Block(b) && b.resolved)
}

/// Whether line `line` lies in the range `r`.
pub open spec fn range_holds(r: Range<usize>, line: usize) -> bool {
    r.start <= line && line < r.end
}

/// Whether ranges are in order and do not overlap.
pub open spec fn ranges_ordered(ranges: Seq<Range<usize>>) -> bool {
    &&& forall|i: int| 0 <= i < ranges.len() ==> (#[trigger] ranges[i]).start <= ranges[i].end
    &&& forall|i: int, j: int| 0 <= i < j < ranges.len() ==> (#[trigger] ranges[i]).end <= (#[trigger] ranges[j]).start
}

/// The conflict whose range holds line `line`, found by binary search: a
/// range found holds the line, and for ranges in order and not overlapping
/// nothing is found exactly when no range holds it.
pub fn conflict_index_for_line(ranges: &[Range<usize>], line: usize) -> (r: Option<usize>)
    ensures
        r matches Some(i) ==> i < ranges@.len() && range_holds(ranges@[i as int], line),
        ranges_ordered(ranges@) && r is None ==> forall|i: int|
            0 <= i < ranges@.len() ==> !range_holds(#[trigger] ranges@[i], line),
{
    let mut lo: usize = 0;
    let mut hi: usize = ranges.len();
    while lo < hi
        invariant
            lo <= hi <= ranges@.len(),
            ranges_ordered(ranges@) ==> forall|j: int| 0 <= j < lo ==> !range_holds(#[trigger] ranges@[j], line),
            ranges_ordered(ranges@) ==> forall|j: int| hi <= j < ranges@.len() ==> !range_holds(#[trigger] ranges@[j], line),
        decreases hi - lo,
    {
        let mid = lo + (hi - lo) / 2;
        let r = &ranges[mid];
        if line < r.start {
            proof {
                if ranges_ordered(ranges@) {
                    assert forall|j: int| mid <= j < ranges@.len() implies !range_holds(#[trigger] ranges@[j], line) by {
                        if j > mid {
                            assert(ranges@[mid as int].end <= ranges@[j].start);
                            assert(ranges@[mid as int].start <= ranges@[mid as int].end);
                        }
                    }
                }
            }
            hi = mid;
        } else if line >= r.end {
            proof {
                if ranges_ordered(ranges@) {
                    assert forall|j: int| 0 <= j < mid + 1 implies !range_holds(#[trigger] ranges@[j], line) by {
                        if j < mid {
                            assert(ranges@[j].end <= ranges@[mid as int].start);
                            assert(ranges@[mid as int].start <= ranges@[mid as int].end);
                        }
                    }
                }
            }
            lo = mid + 1;
        } else {
            return Some(mid);
        }
    }
    None
}

impl Default for ConflictResolverUiState {
    /// No file: no repository or path, no segments, the two-way layout, empty
    /// inputs with no lines, and no conflicts.
    fn default() -> (r: Self)
        ensures
            r.repo_id is None,
            r.path is None,
            r.marker_segments@.len() == 0,
            r.view_mode == ConflictResolverViewMode::TwoWayDiff,
            r.three_way_text.base@.len() == 0,
            r.three_way_text.ours@.len() == 0,
            r.three_way_text.theirs@.len() == 0,
            r.three_way_line_starts.base.line_count == 0,
            r.three_way_line_starts.ours.line_count == 0,
            r.three_way_line_starts.theirs.line_count == 0,
            r.three_way_conflict_ranges.base@.len() == 0,
            r.three_way_conflict_ranges.ours@.len() == 0,
            r.three_way_conflict_ranges.theirs@.len() == 0,
            r.conflict_has_base@.len() == 0,
            r.conflict_choices@.len() == 0,
            r.two_way_split_visual_kind_cache@ == Map::<usize, FileDiffRowKind>::empty(),
            r.three_way_visible_projection@.len() == 0,
            !r.three_way_visible_state_ready,
            r.three_way_horizontal_measure_rows == (ThreeWaySides { base: 0usize, ours: 0usize, theirs: 0usize }),
    {
        ConflictResolverUiState {
            repo_id: None,
            path: None,
            marker_segments: Vec::new(),
            view_mode: ConflictResolverViewMode::TwoWayDiff,
            three_way_text: ThreeWaySides { base: String::new(), ours: String::new(), theirs: String::new() },
            three_way_line_starts: ThreeWaySides {
                base: DeferredLineStarts::with_line_count(0),
                ours: DeferredLineStarts::with_line_count(0),
                theirs: DeferredLineStarts::with_line_count(0),
            },
            three_way_conflict_ranges: ThreeWaySides { base: Vec::new(), ours: Vec::new(), theirs: Vec::new() },
            conflict_has_base: Vec::new(),
            conflict_choices: Vec::new(),
            two_way_split_visual_kind_cache: HashMap::new(),
            three_way_visible_projection: Vec::new(),
            three_way_visible_state_ready: false,
            three_way_horizontal_measure_rows: ThreeWaySides { base: 0, ours: 0, theirs: 0 },
        }
    }
}

impl ConflictResolverUiState {
    /// Whether the resolver shows the file at `path` of repository `repo_id`.
    pub fn matches_target(&self, repo_id: RepoId, path: &str) -> (r: bool)
        ensures
            r == match self.path {
                Some(p) => self.repo_id == Some(repo_id) && p@ == path@,
                None => false,
            },
    {
        match (&self.repo_id, &self.path) {
            (Some(id), Some(p)) => *id == repo_id && str_eq(p.as_str(), path),
            _ => false,
        }
    }

    /// The number of lines of input `side`.
    pub fn three_way_line_count(&self, side: ThreeWayColumn) -> (r: usize)
        ensures
            r == self.three_way_line_starts.side(side).line_count,
    {
        self.three_way_line_starts.get(side).line_count()
    }

    /// Line `line_ix` of input `side`, without its newline (see
    /// `line_text_is`), by the line starts computed already or else by those
    /// of its text.
    pub fn three_way_line_text(&self, side: ThreeWayColumn, line_ix: usize) -> (r: Option<&str>)
        ensures
            line_text_is(self.three_way_text.side(side)@, side_line_starts(*self, side), line_ix, r),
    {
        let text = self.three_way_text.get(side).as_str();
        match self.three_way_line_starts.get(side).starts() {
            Some(starts) => indexed_line_text(text, starts, line_ix),
            None => {
                let computed = deferred_line_starts_for_text(text);
                indexed_line_text(text, computed.as_slice(), line_ix)
            },
        }
    }

    /// Whether input `side` has a line `line_ix`.
    pub fn three_way_has_line(&self, side: ThreeWayColumn, line_ix: usize) -> (r: bool)
        ensures
            r == exists|t: &str| line_text_is(
                self.three_way_text.side(side)@,
                side_line_starts(*self, side),
                line_ix,
                Some(t),
            ),
    {
        let line = self.three_way_line_text(side, line_ix);
        match line {
            Some(t) => {
                assert(line_text_is(
                    self.three_way_text.side(side)@,
                    side_line_starts(*self, side),
                    line_ix,
                    Some(t),
                ));
                true
            },
            None => false,
        }
    }

    /// The source text of line `line_ix` for a choice: the chosen input's line
    /// for "ours" and "theirs", the base's line in the three-way layout, and
    /// nothing for "both" or for the base in the two-way layout.
    pub fn source_line_text_for_choice(&self, choice: ConflictChoice, line_ix: usize) -> (r: Option<&str>)
        ensures
            match choice {
                ConflictChoice::Ours => line_text_is(
                    self.three_way_text.ours@,
                    side_line_starts(*self, ThreeWayColumn::Ours),
                    line_ix,
                    r,
                ),
                ConflictChoice::Theirs => line_text_is(
                    self.three_way_text.theirs@,
                    side_line_starts(*self, ThreeWayColumn::Theirs),
                    line_ix,
                    r,
                ),
                ConflictChoice::Base => if self.view_mode == ConflictResolverViewMode::ThreeWay {
                    line_text_is(
                        self.three_way_text.base@,
                        side_line_starts(*self, ThreeWayColumn::Base),
                        line_ix,
                        r,
                    )
                } else {
                    r is None
                },
                ConflictChoice::Both => r is None,
            },
    {
        match choice {
            ConflictChoice::Base => {
                if self.view_mode == ConflictResolverViewMode::ThreeWay {
                    self.three_way_line_text(ThreeWayColumn::Base, line_ix)
                } else {
                    None
                }
            },
            ConflictChoice::Ours => self.three_way_line_text(ThreeWayColumn::Ours, line_ix),
            ConflictChoice::Theirs => self.three_way_line_text(ThreeWayColumn::Theirs, line_ix),
            ConflictChoice::Both => None,
        }
    }

    /// Records the shown kinds of the change run around row `ix` of the
    /// two-way split rows `rows` (see `cache_after_run`).
    fn cache_two_way_split_visual_kind_run(&mut self, rows: &[FileDiffRow], row_ix: usize)
        ensures
            final(self).two_way_split_visual_kind_cache@ == cache_after_run(
                old(self).two_way_split_visual_kind_cache@,
                rows@,
                row_ix,
            ),
            final(self).repo_id == old(self).repo_id,
            final(self).path == old(self).path,
            final(self).marker_segments == old(self).marker_segments,
            final(self).view_mode == old(self).view_mode,
            final(self).three_way_text == old(self).three_way_text,
            final(self).three_way_line_starts == old(self).three_way_line_starts,
            final(self).three_way_conflict_ranges == old(self).three_way_conflict_ranges,
            final(self).conflict_has_base == old(self).conflict_has_base,
            final(self).conflict_choices == old(self).conflict_choices,
    {
        broadcast use vstd::std_specs::hash::group_hash_axioms;

        let mut start = row_ix;
        while start > 0 && start - 1 < rows.len() && rows[start - 1].kind != FileDiffRowKind::Context
            invariant
                start <= row_ix,
                run_start(rows@, start as int) == run_start(rows@, row_ix as int),
            decreases start,
        {
            start = start - 1;
        }
        let mut old_stripped = String::new();
        let mut new_stripped = String::new();
        let mut end = start;
        while end < rows.len() && rows[end].kind != FileDiffRowKind::Context
            invariant
                start <= end,
                end <= rows@.len() || end == start,
                run_end(rows@, end as int) == run_end(rows@, start as int),
                old_stripped@ == run_old_text(rows@, start as int, end as int),
                new_stripped@ == run_new_text(rows@, start as int, end as int),
            decreases rows.len() - end,
        {
            append_conflict_row_without_whitespace(&rows[end], &mut old_stripped, &mut new_stripped);
            end = end + 1;
        }
        if start == end {
            return;
        }
        let same = str_eq(old_stripped.as_str(), new_stripped.as_str());
        let ghost before = self.two_way_split_visual_kind_cache@;
        let ghost kinds = run_kinds(rows@, start as int, end as int);
        let mut ix = start;
        while ix < end
            invariant
                start <= ix <= end,
                end <= rows@.len(),
                same == (run_old_text(rows@, start as int, end as int) == run_new_text(
                    rows@,
                    start as int,
                    end as int,
                )),
                kinds == run_kinds(rows@, start as int, end as int),
                self.two_way_split_visual_kind_cache@ == before.union_prefer_right(
                    kinds.restrict(Set::new(|k: usize| start <= k < ix)),
                ),
                self.repo_id == old(self).repo_id,
                self.path == old(self).path,
                self.marker_segments == old(self).marker_segments,
                self.view_mode == old(self).view_mode,
                self.three_way_text == old(self).three_way_text,
                self.three_way_line_starts == old(self).three_way_line_starts,
                self.three_way_conflict_ranges == old(self).three_way_conflict_ranges,
                self.conflict_has_base == old(self).conflict_has_base,
                self.conflict_choices == old(self).conflict_choices,
            decreases end - ix,
        {
            let kind = if same {
                FileDiffRowKind::Context
            } else {
                rows[ix].kind
            };
            self.two_way_split_visual_kind_cache.insert(ix, kind);
            proof {
                assert(self.two_way_split_visual_kind_cache@ =~= before.union_prefer_right(
                    kinds.restrict(Set::new(|k: usize| start <= k < ix + 1)),
                ));
            }
            ix = ix + 1;
        }
        proof {
            assert(kinds.restrict(Set::new(|k: usize| start <= k < end)) =~= kinds);
        }
    }

    /// The kind shown for row `row_ix` of the two-way split rows `rows`, whose
    /// row is `row` (see `visual_kind`); the kinds of its change run are
    /// cached when first needed.
    pub fn two_way_split_visual_kind_at(
        &mut self,
        rows: &[FileDiffRow],
        row_ix: usize,
        row: &FileDiffRow,
        whitespace_mode: DiffWhitespaceMode,
    ) -> (r: FileDiffRowKind)
        ensures
            r == visual_kind(old(self).two_way_split_visual_kind_cache@, rows@, row_ix, *row, whitespace_mode),
            final(self).two_way_split_visual_kind_cache@ == cache_after_lookup(
                old(self).two_way_split_visual_kind_cache@,
                rows@,
                row_ix,
                *row,
                whitespace_mode,
            ),
            final(self).marker_segments == old(self).marker_segments,
            final(self).three_way_text == old(self).three_way_text,
            final(self).three_way_line_starts == old(self).three_way_line_starts,
            final(self).three_way_conflict_ranges == old(self).three_way_conflict_ranges,
            final(self).conflict_has_base == old(self).conflict_has_base,
            final(self).conflict_choices == old(self).conflict_choices,
    {
        broadcast use vstd::std_specs::hash::group_hash_axioms;

        if whitespace_mode == DiffWhitespaceMode::Show || row.kind == FileDiffRowKind::Context {
            return row.kind;
        }
        match self.two_way_split_visual_kind_cache.get(&row_ix) {
            Some(kind) => {
                return *kind;
            },
            None => {},
        }
        self.cache_two_way_split_visual_kind_run(rows, row_ix);
        match self.two_way_split_visual_kind_cache.get(&row_ix) {
            Some(kind) => *kind,
            None => row.kind,
        }
    }

    /// Whether the widest rows must be measured on the visible rows: some
    /// resolved block is hidden from the three-way view.
    pub fn has_hidden_resolved_blocks(&self, hide_resolved: bool) -> (r: bool)
        ensures
            r == hides_resolved_blocks(hide_resolved, self.marker_segments@),
    {
        if !hide_resolved {
            return false;
        }
        let mut i: usize = 0;
        while i < self.marker_segments.len()
            invariant
                i <= self.marker_segments@.len(),
                hide_resolved,
                forall|j: int| 0 <= j < i ==> !(#[trigger] self.marker_segments@[j] matches ConflictSegment::Block(b) && b.resolved),
            decreases self.marker_segments.len() - i,
        {
            match &self.marker_segments[i] {
                ConflictSegment::Block(block) => {
                    if block.resolved {
                        return true;
                    }
                },
                ConflictSegment::Text(_) => {},
            }
            i = i + 1;
        }
        false
    }

    /// The width in bytes of line `line_ix` of input `side` (0 when missing).
    fn line_width_of(&self, side: ThreeWayColumn, line_ix: usize) -> (r: usize)
        ensures
            r == line_width(*self, side, line_ix as int),
    {
        let line = self.three_way_line_text(side, line_ix);
        match line {
            Some(t) => {
                proof {
                    let bytes = encode_utf8(self.three_way_text.side(side)@);
                    assert(((line_ix as int) as usize) == line_ix);
                    if let Some((a, b)) = line_span(bytes, side_line_starts(*self, side), line_ix) {
                        if !slice_is_text(bytes, a, b) {
                            assert(t@ =~= Seq::<char>::empty());
                            assert(encode_utf8(t@) =~= Seq::<u8>::empty());
                        }
                    }
                }
                t.as_bytes().len()
            },
            None => 0,
        }
    }

    /// For each input, the visible row of its first widest line among the
    /// rows the spans show (see `widest_visible`).
    pub fn three_way_widest_visible_rows(&self, spans: &[VisibleLineSpan]) -> (r: ThreeWaySides<usize>)
        requires
            forall|k: int|
                0 <= k < spans@.len() ==> (#[trigger] spans@[k]).visible_start + spans@[k].len <= usize::MAX
                    && spans@[k].source_line_start + spans@[k].len <= usize::MAX,
        ensures
            r.base == widest_visible(*self, ThreeWayColumn::Base, visible_pairs(spans@)).0,
            r.ours == widest_visible(*self, ThreeWayColumn::Ours, visible_pairs(spans@)).0,
            r.theirs == widest_visible(*self, ThreeWayColumn::Theirs, visible_pairs(spans@)).0,
    {
        let mut rows = ThreeWaySides { base: 0usize, ours: 0usize, theirs: 0usize };
        let mut widths = ThreeWaySides { base: 0usize, ours: 0usize, theirs: 0usize };
        let mut k: usize = 0;
        while k < spans.len()
            invariant
                k <= spans@.len(),
                forall|j: int|
                    0 <= j < spans@.len() ==> (#[trigger] spans@[j]).visible_start + spans@[j].len <= usize::MAX
                        && spans@[j].source_line_start + spans@[j].len <= usize::MAX,
                forall|side: ThreeWayColumn| #![auto]
                    widest_visible(*self, side, visible_pairs(spans@.subrange(0, k as int))) == (
                        rows.side(side) as int,
                        widths.side(side) as nat,
                    ),
            decreases spans.len() - k,
        {
            let span = spans[k];
            proof {
                assert(span == spans@[k as int]);
            }
            let ghost before = visible_pairs(spans@.subrange(0, k as int));
            let mut o: usize = 0;
            while o < span.len
                invariant
                    o <= span.len,
                    span.visible_start + span.len <= usize::MAX,
                    span.source_line_start + span.len <= usize::MAX,
                    forall|side: ThreeWayColumn| #![auto]
                        widest_visible(*self, side, before + span_pairs(span, o as int)) == (
                            rows.side(side) as int,
                            widths.side(side) as nat,
                        ),
                decreases span.len - o,
            {
                let visible_ix = span.visible_start + o;
                let line_ix = span.source_line_start + o;
                let ghost prev_rows = rows;
                let ghost prev_widths = widths;
                let ghost prefix = before + span_pairs(span, o as int);
                let ghost next = before + span_pairs(span, o + 1);
                proof {
                    assert(next.drop_last() =~= prefix);
                    assert(next.last() == (visible_ix as int, line_ix as int));
                    assert(widest_visible(*self, ThreeWayColumn::Base, prefix) == (
                        prev_rows.base as int,
                        prev_widths.base as nat,
                    ));
                    assert(widest_visible(*self, ThreeWayColumn::Ours, prefix) == (
                        prev_rows.ours as int,
                        prev_widths.ours as nat,
                    ));
                    assert(widest_visible(*self, ThreeWayColumn::Theirs, prefix) == (
                        prev_rows.theirs as int,
                        prev_widths.theirs as nat,
                    ));
                }
                let wb = self.line_width_of(ThreeWayColumn::Base, line_ix);
                if wb > widths.base {
                    widths.base = wb;
                    rows.base = visible_ix;
                }
                let wo = self.line_width_of(ThreeWayColumn::Ours, line_ix);
                if wo > widths.ours {
                    widths.ours = wo;
                    rows.ours = visible_ix;
                }
                let wt = self.line_width_of(ThreeWayColumn::Theirs, line_ix);
                if wt > widths.theirs {
                    widths.theirs = wt;
                    rows.theirs = visible_ix;
                }
                proof {
                    assert(widest_visible(*self, ThreeWayColumn::Base, next) == (
                        rows.base as int,
                        widths.base as nat,
                    ));
                    assert(widest_visible(*self, ThreeWayColumn::Ours, next) == (
                        rows.ours as int,
                        widths.ours as nat,
                    ));
                    assert(widest_visible(*self, ThreeWayColumn::Theirs, next) == (
                        rows.theirs as int,
                        widths.theirs as nat,
                    ));
                    assert forall|side: ThreeWayColumn| #![auto]
                        widest_visible(*self, side, next) == (
                            rows.side(side) as int,
                            widths.side(side) as nat,
                        ) by {
                        match side {
                            ThreeWayColumn::Base => {},
                            ThreeWayColumn::Ours => {},
                            ThreeWayColumn::Theirs => {},
                        }
                    }
                }
                o = o + 1;
            }
            proof {
                assert(spans@.subrange(0, k + 1).drop_last() =~= spans@.subrange(0, k as int));
                assert(spans@.subrange(0, k + 1).last() == span);
                assert(visible_pairs(spans@.subrange(0, k + 1)) == before + span_pairs(span, span.len as int));
            }
            k = k + 1;
        }
        proof {
            assert(spans@.subrange(0, spans@.len() as int) =~= spans@);
        }
        rows
    }

    /// The conflict whose range on input `side` holds line `line_ix` (see
    /// `conflict_index_for_line`).
    pub fn conflict_index_for_side_line(&self, side: ThreeWayColumn, line_ix: usize) -> (r: Option<usize>)
        ensures
            r matches Some(i) ==> i < self.three_way_conflict_ranges.side(side)@.len() && range_holds(
                self.three_way_conflict_ranges.side(side)@[i as int],
                line_ix,
            ),
            ranges_ordered(self.three_way_conflict_ranges.side(side)@) && r is None ==> forall|i: int|
                0 <= i < self.three_way_conflict_ranges.side(side)@.len() ==> !range_holds(
                    #[trigger] self.three_way_conflict_ranges.side(side)@[i],
                    line_ix,
                ),
    {
        conflict_index_for_line(self.three_way_conflict_ranges.get(side).as_slice(), line_ix)
    }

    /// Recomputes the side chosen for each conflict block from the segments.
    pub fn refresh_conflict_choices_from_segments(&mut self)
        ensures
            final(self).conflict_choices@ == block_choices(old(self).marker_segments@),
            final(self).conflict_has_base == old(self).conflict_has_base,
            final(self).three_way_conflict_ranges == old(self).three_way_conflict_ranges,
            same_source(*final(self), *old(self)),
    {
        let mut choices: Vec<ConflictChoice> = Vec::new();
        let mut i: usize = 0;
        while i < self.marker_segments.len()
            invariant
                i <= self.marker_segments@.len(),
                choices@ == block_choices(self.marker_segments@.subrange(0, i as int)),
            decreases self.marker_segments.len() - i,
        {
            proof {
                assert(self.marker_segments@.subrange(0, i as int + 1).drop_last()
                    =~= self.marker_segments@.subrange(0, i as int));
            }
            match &self.marker_segments[i] {
                ConflictSegment::Block(block) => choices.push(block.choice),
                ConflictSegment::Text(_) => {},
            }
            i = i + 1;
        }
        proof {
            assert(self.marker_segments@.subrange(0, i as int) =~= self.marker_segments@);
        }
        self.conflict_choices = choices;
    }

    /// Recomputes, for each conflict block, whether it has a base, and the
    /// side chosen, from the segments.
    pub fn refresh_conflict_has_base_from_segments(&mut self)
        ensures
            final(self).conflict_has_base@ == blocks_have_base(old(self).marker_segments@),
            final(self).conflict_choices@ == block_choices(old(self).marker_segments@),
            final(self).three_way_conflict_ranges == old(self).three_way_conflict_ranges,
            same_source(*final(self), *old(self)),
    {
        let mut has_base: Vec<bool> = Vec::new();
        let mut i: usize = 0;
        while i < self.marker_segments.len()
            invariant
                i <= self.marker_segments@.len(),
                has_base@ == blocks_have_base(self.marker_segments@.subrange(0, i as int)),
            decreases self.marker_segments.len() - i,
        {
            proof {
                assert(self.marker_segments@.subrange(0, i as int + 1).drop_last()
                    =~= self.marker_segments@.subrange(0, i as int));
            }
            match &self.marker_segments[i] {
                ConflictSegment::Block(block) => has_base.push(block.base.is_some()),
                ConflictSegment::Text(_) => {},
            }
            i = i + 1;
        }
        proof {
            assert(self.marker_segments@.subrange(0, i as int) =~= self.marker_segments@);
        }
        self.conflict_has_base = has_base;
        self.refresh_conflict_choices_from_segments();
    }

    /// Rebuilds the three-way view after the conflicts changed: takes over
    /// `maps` (see `apply_three_way_conflict_maps`), keeps `projection`, the
    /// runs of rows built from them, marks the visible state ready, and
    /// measures the widest rows: on the visible rows when resolved blocks are
    /// hidden, else `full_measure_rows`, the widest rows of the whole inputs
    /// as the conflict resolver's line scan finds them.
    pub fn rebuild_three_way_visible_state(
        &mut self,
        maps: ThreeWayConflictMaps,
        projection: Vec<VisibleLineSpan>,
        hide_resolved: bool,
        full_measure_rows: ThreeWaySides<usize>,
    )
        requires
            forall|k: int|
                0 <= k < projection@.len() ==> (#[trigger] projection@[k]).visible_start + projection@[k].len
                    <= usize::MAX && projection@[k].source_line_start + projection@[k].len <= usize::MAX,
        ensures
            final(self).three_way_conflict_ranges == maps.conflict_ranges,
            final(self).conflict_has_base == maps.conflict_has_base,
            final(self).conflict_choices@ == block_choices(old(self).marker_segments@),
            same_source(*final(self), *old(self)),
            final(self).three_way_visible_projection == projection,
            final(self).three_way_visible_state_ready,
            hides_resolved_blocks(hide_resolved, old(self).marker_segments@) ==> {
                &&& final(self).three_way_horizontal_measure_rows.base == widest_visible(
                    *old(self),
                    ThreeWayColumn::Base,
                    visible_pairs(projection@),
                ).0
                &&& final(self).three_way_horizontal_measure_rows.ours == widest_visible(
                    *old(self),
                    ThreeWayColumn::Ours,
                    visible_pairs(projection@),
                ).0
                &&& final(self).three_way_horizontal_measure_rows.theirs == widest_visible(
                    *old(self),
                    ThreeWayColumn::Theirs,
                    visible_pairs(projection@),
                ).0
            },
            !hides_resolved_blocks(hide_resolved, old(self).marker_segments@)
                ==> final(self).three_way_horizontal_measure_rows == full_measure_rows,
    {
        let hidden = self.has_hidden_resolved_blocks(hide_resolved);
        let ghost before = *self;
        self.apply_three_way_conflict_maps(maps);
        let rows = if hidden {
            self.three_way_widest_visible_rows(projection.as_slice())
        } else {
            full_measure_rows
        };
        proof {
            lemma_widest_visible_same_inputs(*self, before, ThreeWayColumn::Base, visible_pairs(projection@));
            lemma_widest_visible_same_inputs(*self, before, ThreeWayColumn::Ours, visible_pairs(projection@));
            lemma_widest_visible_same_inputs(*self, before, ThreeWayColumn::Theirs, visible_pairs(projection@));
        }
        self.three_way_visible_projection = projection;
        self.three_way_visible_state_ready = true;
        self.three_way_horizontal_measure_rows = rows;
    }

    /// Takes over the conflict ranges of each input and which conflicts have
    /// a base from `maps`, and recomputes the side chosen for each block.
    pub fn apply_three_way_conflict_maps(&mut self, maps: ThreeWayConflictMaps)
        ensures
            final(self).three_way_conflict_ranges == maps.conflict_ranges,
            final(self).conflict_has_base == maps.conflict_has_base,
            final(self).conflict_choices@ == block_choices(old(self).marker_segments@),
            same_source(*final(self), *old(self)),
    {
        self.three_way_conflict_ranges = maps.conflict_ranges;
        self.conflict_has_base = maps.conflict_has_base;
        self.refresh_conflict_choices_from_segments();
    }
}

/// Caching is invisible: asking again for the kind shown for a row gives the
/// kind given the first time.
pub proof fn lemma_visual_kind_is_stable(
    cache: Map<usize, FileDiffRowKind>,
    rows: Seq<FileDiffRow>,
    ix: usize,
    row: FileDiffRow,
    mode: DiffWhitespaceMode,
)
    ensures
        visual_kind(cache_after_lookup(cache, rows, ix, row, mode), rows, ix, row, mode)
            == visual_kind(cache, rows, ix, row, mode),
{
    let after = cache_after_lookup(cache, rows, ix, row, mode);
    if needs_visual_kind(row, mode) && !cache.contains_key(ix) && !after.contains_key(ix) {
        let s = run_start(rows, ix as int);
        let e = run_end(rows, s);
        if s != e {
            assert(!run_kinds(rows, s, e).contains_key(ix));
            assert(!after.union_prefer_right(run_kinds(rows, s, e)).contains_key(ix));
        }
    }
}

} // verus!
