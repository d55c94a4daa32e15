//! Bookkeeping of the conflict resolver's three inputs: per-column values,
//! line starts of each input's text, reading one line of it, and the
//! whitespace-free text of changed rows.
use vstd::prelude::*;
use vstd::string::StringSliceAdditionalSpecFns;
use vstd::utf8::{
    encode_utf8,
    encode_utf8_valid_utf8, is_char_boundary, is_char_boundary_iff_not_is_continuation_byte,
    is_char_boundary_start_end_of_seq, valid_utf8_split,
};
use crate::text::{chars_of, is_whitespace, is_ws};

verus! {

/// One of the three inputs of a merge.
#[derive(Clone, Copy, Debug, PartialEq, Eq, Structural)]
pub enum ThreeWayColumn {
    Base,
    Ours,
    Theirs,
}

/// A value for each of the three inputs of a merge.
#[derive(Clone, Copy, Debug, Default)]
pub struct ThreeWaySides<T> {
    pub base: T,
    pub ours: T,
    pub theirs: T,
}

impl<T> ThreeWaySides<T> {
    /// The value of `side`.
    pub open spec fn side(self, side: ThreeWayColumn) -> T {
        match side {
            ThreeWayColumn::Base => self.base,
            ThreeWayColumn::Ours => self.ours,
            ThreeWayColumn::Theirs => self.theirs,
        }
    }

    /// The same values with that of `side` replaced by `value`.
    pub open spec fn replaced(self, side: ThreeWayColumn, value: T) -> Self {
        match side {
            ThreeWayColumn::Base => ThreeWaySides { base: value, ..self },
            ThreeWayColumn::Ours => ThreeWaySides { ours: value, ..self },
            ThreeWayColumn::Theirs => ThreeWaySides { theirs: value, ..self },
        }
    }

    /// The value of `side`.
    pub fn get(&self, side: ThreeWayColumn) -> (r: &T)
        ensures
            *r == self.side(side),
    {
        match side {
            ThreeWayColumn::Base => &self.base,
            ThreeWayColumn::Ours => &self.ours,
            ThreeWayColumn::Theirs => &self.theirs,
        }
    }

    /// Replaces the value of `side`; the other two keep theirs.
    pub fn set(&mut self, side: ThreeWayColumn, value: T)
        ensures
            *final(self) == old(self).replaced(side, value),
    {
        match side {
            ThreeWayColumn::Base => self.base = value,
            ThreeWayColumn::Ours => self.ours = value,
            ThreeWayColumn::Theirs => self.theirs = value,
        }
    }
}

impl<T> std::ops::Index<ThreeWayColumn> for ThreeWaySides<T> {
    type Output = T;

    fn index(&self, side: ThreeWayColumn) -> (r: &T)
        ensures
            *r == self.side(side),
    {
        match side {
            ThreeWayColumn::Base => &self.base,
            ThreeWayColumn::Ours => &self.ours,
            ThreeWayColumn::Theirs => &self.theirs,
        }
    }
}

impl<T> vstd::std_specs::core::IndexSpecImpl<ThreeWayColumn> for ThreeWaySides<T> {
    /// Every column can be read.
    open spec fn index_req(&self, side: &ThreeWayColumn) -> bool {
        true
    }
}

impl<T> std::ops::IndexMut<ThreeWayColumn> for ThreeWaySides<T> {
    fn index_mut(&mut self, side: ThreeWayColumn) -> (r: &mut T)
        ensures
            *r == old(self).side(side),
            *final(self) == old(self).replaced(side, *final(r)),
    {
        match side {
            ThreeWayColumn::Base => &mut self.base,
            ThreeWayColumn::Ours => &mut self.ours,
            ThreeWayColumn::Theirs => &mut self.theirs,
        }
    }
}

/// Byte offsets at which the lines of `bytes[..n]` start: 0, then one past
/// each newline.
pub open spec fn line_starts_upto(bytes: Seq<u8>, n: int) -> Seq<usize>
    decreases n,
{
    if n <= 0 {
        seq![0usize]
    } else {
        let rest = line_starts_upto(bytes, n - 1);
        if bytes[n - 1] == 10u8 {
            rest.push(n as usize)
        } else {
            rest
        }
    }
}

/// Byte offsets at which the lines of the text with characters `text` start.
pub open spec fn line_starts_of(text: Seq<char>) -> Seq<usize> {
    line_starts_upto(encode_utf8(text), encode_utf8(text).len() as int)
}

/// Byte offsets at which the lines of `text` start.
pub open spec fn line_starts_spec(text: &str) -> Seq<usize> {
    line_starts_of(text@)
}

/// The byte offsets at which the lines of `text` start: 0, then one past each
/// newline.
pub fn deferred_line_starts_for_text(text: &str) -> (r: Vec<usize>)
    ensures
        r@ == line_starts_spec(text),
{
    let bytes = text.as_bytes();
    let mut starts: Vec<usize> = Vec::new();
    starts.push(0);
    let mut ix: usize = 0;
    while ix < bytes.len()
        invariant
            bytes@ == text.spec_bytes(),
            ix <= bytes@.len(),
            starts@ == line_starts_upto(bytes@, ix as int),
        decreases bytes.len() - ix,
    {
        if bytes[ix] == 10u8 {
            starts.push(ix + 1);
        }
        ix = ix + 1;
    }
    starts
}

/// Line starts of one merge input, computed only when first needed; the line
/// count is known from the start.
#[derive(Clone, Debug, Default)]
pub struct DeferredLineStarts {
    pub line_count: usize,
    pub starts: Option<Vec<usize>>,
}

impl DeferredLineStarts {
    /// Line starts of an input with `line_count` lines, not computed yet.
    pub fn with_line_count(line_count: usize) -> (r: Self)
        ensures
            r.line_count == line_count,
            r.starts is None,
    {
        DeferredLineStarts { line_count, starts: None }
    }

    /// Line starts computed already; the line count is their number.
    pub fn from_starts(starts: Vec<usize>) -> (r: Self)
        ensures
            r.line_count == starts@.len(),
            r.starts == Some(starts),
    {
        let line_count = starts.len();
        DeferredLineStarts { line_count, starts: Some(starts) }
    }

    /// Line starts computed already, with a line count of their own.
    pub fn materialized_with_count(starts: Vec<usize>, line_count: usize) -> (r: Self)
        ensures
            r.line_count == line_count,
            r.starts == Some(starts),
    {
        DeferredLineStarts { line_count, starts: Some(starts) }
    }

    /// The number of lines.
    pub fn line_count(&self) -> (r: usize)
        ensures
            r == self.line_count,
    {
        self.line_count
    }

    /// Whether the input has no lines.
    pub fn is_empty(&self) -> (r: bool)
        ensures
            r == (self.line_count == 0),
    {
        self.line_count == 0
    }

    /// Whether the line starts have been computed.
    pub fn is_materialized(&self) -> (r: bool)
        ensures
            r == (self.starts is Some),
    {
        self.starts.is_some()
    }

    /// Computes the line starts of `text` unless they are known already.
    pub fn materialize(&mut self, text: &str)
        ensures
            final(self).line_count == old(self).line_count,
            old(self).starts is Some ==> final(self).starts == old(self).starts,
            old(self).starts is None ==> (final(self).starts matches Some(v) && v@
                == line_starts_spec(text)),
    {
        if self.starts.is_none() {
            self.starts = Some(deferred_line_starts_for_text(text));
        }
    }

    /// The line starts, once computed.
    pub fn starts(&self) -> (r: Option<&[usize]>)
        ensures
            match self.starts {
                Some(v) => r matches Some(s) && s@ == v@,
                None => r is None,
            },
    {
        match &self.starts {
            Some(v) => Some(v.as_slice()),
            None => None,
        }
    }
}

/// Where the text of line `line_ix` starts and ends (before its newline), in
/// bytes, when `text` has such a line.
pub open spec fn line_span(bytes: Seq<u8>, line_starts: Seq<usize>, line_ix: usize) -> Option<(int, int)> {
    let len = bytes.len() as int;
    let start = if line_ix < line_starts.len() {
        line_starts[line_ix as int] as int
    } else {
        len
    };
    if len == 0 || start >= len {
        None
    } else {
        let next = line_ix as int + 1;
        let raw_end = if next <= usize::MAX && next < line_starts.len() {
            line_starts[next] as int
        } else {
            len
        };
        let end0 = if raw_end < len {
            raw_end
        } else {
            len
        };
        let end = if end0 > start && bytes[end0 - 1] == 10u8 {
            end0 - 1
        } else {
            end0
        };
        Some((start, end))
    }
}

/// The subslice `bytes[start..end]` is text exactly when both ends fall on
/// character boundaries and they are in order.
pub open spec fn slice_is_text(bytes: Seq<u8>, start: int, end: int) -> bool {
    start <= end && is_char_boundary(bytes, start) && is_char_boundary(bytes, end)
}

/// Whether `r` is the text of line `line_ix` of `text`, given its line
/// starts, without the newline: nothing for an empty text or a line past its
/// end, and the empty text when the recorded offsets do not delimit text.
pub open spec fn line_text_is(text: Seq<char>, line_starts: Seq<usize>, line_ix: usize, r: Option<&str>) -> bool {
    match line_span(encode_utf8(text), line_starts, line_ix) {
        None => r is None,
        Some((start, end)) => r matches Some(t) && if slice_is_text(encode_utf8(text), start, end) {
            t.spec_bytes() == encode_utf8(text).subrange(start, end)
        } else {
            t@.len() == 0
        },
    }
}

/// The text of line `line_ix` of `text`, given its line starts (see
/// `line_text_is`).
pub fn indexed_line_text<'a>(text: &'a str, line_starts: &[usize], line_ix: usize) -> (r: Option<
    &'a str,
>)
    ensures
        line_text_is(text@, line_starts@, line_ix, r),
{
    let bytes = text.as_bytes();
    let text_len = bytes.len();
    if text_len == 0 {
        return None;
    }
    let start = if line_ix < line_starts.len() {
        line_starts[line_ix]
    } else {
        text_len
    };
    if start >= text_len {
        return None;
    }
    let raw_end = if line_ix < usize::MAX && line_ix + 1 < line_starts.len() {
        line_starts[line_ix + 1]
    } else {
        text_len
    };
    let mut end = if raw_end < text_len {
        raw_end
    } else {
        text_len
    };
    if end > start && bytes[end - 1] == 10u8 {
        end = end - 1;
    }
    if start <= end && text.is_char_boundary(start) && text.is_char_boundary(end) {
        let ghost b = text.spec_bytes();
        proof {
            encode_utf8_valid_utf8(text@);
            valid_utf8_split(b, end as int);
        }
        let (head, _) = text.split_at(end);
        proof {
            let hb = b.subrange(0, end as int);
            assert(head.spec_bytes() == hb);
            if start < end {
                is_char_boundary_iff_not_is_continuation_byte(b, start as int);
                is_char_boundary_iff_not_is_continuation_byte(hb, start as int);
            } else {
                is_char_boundary_start_end_of_seq(hb);
            }
        }
        let (_, line) = head.split_at(start);
        proof {
            assert(line.spec_bytes() =~= b.subrange(start as int, end as int));
        }
        Some(line)
    } else {
        proof {
            reveal_strlit("");
        }
        Some("")
    }
}

/// The kind of a row of a two-way file diff.
#[derive(Clone, Copy, Debug, PartialEq, Eq, Structural)]
pub enum FileDiffRowKind {
    Context,
    Remove,
    Add,
    Modify,
}

/// A row of a two-way file diff, with the old and new text it shows.
#[derive(Clone, Debug, PartialEq, Eq)]
pub struct FileDiffRow {
    pub kind: FileDiffRowKind,
    pub old: Option<String>,
    pub new: Option<String>,
}

/// `s` without its whitespace characters.
pub open spec fn without_whitespace(s: Seq<char>) -> Seq<char>
    decreases s.len(),
{
    if s.len() == 0 {
        s
    } else {
        let rest = without_whitespace(s.drop_last());
        if is_ws(s.last()) {
            rest
        } else {
            rest.push(s.last())
        }
    }
}

/// What a row's side adds to that side's whitespace-free text.
pub open spec fn side_text(t: Option<String>) -> Seq<char> {
    match t {
        Some(s) => without_whitespace(s@),
        None => Seq::empty(),
    }
}

/// Appends the non-whitespace characters of `text` to `out`.
fn extend_without_whitespace(out: &mut String, text: &str)
    ensures
        final(out)@ == old(out)@ + without_whitespace(text@),
{
    let cs = chars_of(text);
    let mut i: usize = 0;
    while i < cs.len()
        invariant
            cs@ == text@,
            i <= cs@.len(),
            out@ == old(out)@ + without_whitespace(cs@.subrange(0, i as int)),
        decreases cs.len() - i,
    {
        proof {
            assert(cs@.subrange(0, i + 1).drop_last() =~= cs@.subrange(0, i as int));
        }
        let c = cs[i];
        if !is_whitespace(c) {
            out.push(c);
            proof {
                assert(old(out)@ + without_whitespace(cs@.subrange(0, i + 1)) =~= (old(out)@
                    + without_whitespace(cs@.subrange(0, i as int))).push(c));
            }
        }
        i = i + 1;
    }
    proof {
        assert(cs@.subrange(0, cs@.len() as int) =~= cs@);
    }
}

/// Appends the changed text of a row, without whitespace, to the old and new
/// texts being compared: removed text to the old one, added text to the new
/// one, both for a modified row, nothing for context.
pub fn append_conflict_row_without_whitespace(row: &FileDiffRow, old_out: &mut String, new_out: &mut String)
    ensures
        final(old_out)@ == old(old_out)@ + match row.kind {
            FileDiffRowKind::Remove | FileDiffRowKind::Modify => side_text(row.old),
            _ => Seq::empty(),
        },
        final(new_out)@ == old(new_out)@ + match row.kind {
            FileDiffRowKind::Add | FileDiffRowKind::Modify => side_text(row.new),
            _ => Seq::empty(),
        },
{
    match row.kind {
        FileDiffRowKind::Context => {
            assert(old_out@ =~= old_out@ + Seq::<char>::empty());
            assert(new_out@ =~= new_out@ + Seq::<char>::empty());
        },
        FileDiffRowKind::Remove => {
            match &row.old {
                Some(text) => extend_without_whitespace(old_out, text.as_str()),
                None => assert(old_out@ =~= old_out@ + Seq::<char>::empty()),
            }
            assert(new_out@ =~= new_out@ + Seq::<char>::empty());
        },
        FileDiffRowKind::Add => {
            match &row.new {
                Some(text) => extend_without_whitespace(new_out, text.as_str()),
                None => assert(new_out@ =~= new_out@ + Seq::<char>::empty()),
            }
            assert(old_out@ =~= old_out@ + Seq::<char>::empty());
        },
        FileDiffRowKind::Modify => {
            match &row.old {
                Some(text) => extend_without_whitespace(old_out, text.as_str()),
                None => assert(old_out@ =~= old_out@ + Seq::<char>::empty()),
            }
            match &row.new {
                Some(text) => extend_without_whitespace(new_out, text.as_str()),
                None => assert(new_out@ =~= new_out@ + Seq::<char>::empty()),
            }
        },
    }
}

/// The widest line of a piece of text: its index and its width.
#[derive(Clone, Copy, Debug, PartialEq, Eq, Structural)]
pub struct WidestLine {
    pub index: usize,
    pub width: usize,
}

/// Line count of a piece of text and its widest line, if it has lines.
#[derive(Clone, Copy, Debug, PartialEq, Eq, Structural)]
pub struct LineStats {
    pub line_count: usize,
    pub widest: Option<WidestLine>,
}

/// Line statistics of one segment of a conflicted file: shared text, or a
/// conflict block with the text of each side (the base only in three-way
/// conflicts).
#[derive(Clone, Copy, Debug, PartialEq, Eq, Structural)]
pub enum SegmentLineStats {
    Text(LineStats),
    Block { base: Option<LineStats>, ours: LineStats, theirs: LineStats },
}

/// Progress of the search for each column's widest row: the row and width
/// found so far, and the number of lines seen.
#[derive(Clone, Copy, Debug)]
pub struct MeasureProgress {
    pub rows: ThreeWaySides<usize>,
    pub widths: ThreeWaySides<usize>,
    pub lines: ThreeWaySides<usize>,
}

/// Nothing seen yet.
pub open spec fn measure_start() -> MeasureProgress {
    MeasureProgress {
        rows: ThreeWaySides { base: 0, ours: 0, theirs: 0 },
        widths: ThreeWaySides { base: 0, ours: 0, theirs: 0 },
        lines: ThreeWaySides { base: 0, ours: 0, theirs: 0 },
    }
}

/// `sides` with `side` set to `v`.
pub open spec fn with_side(sides: ThreeWaySides<usize>, side: ThreeWayColumn, v: usize) -> ThreeWaySides<
    usize,
> {
    match side {
        ThreeWayColumn::Base => ThreeWaySides { base: v, ..sides },
        ThreeWayColumn::Ours => ThreeWaySides { ours: v, ..sides },
        ThreeWayColumn::Theirs => ThreeWaySides { theirs: v, ..sides },
    }
}

/// Offers the widest line of `stats` to `side`: it wins when strictly wider
/// than the best so far. Its row is the side's line count plus its index.
pub open spec fn offer_widest(p: MeasureProgress, side: ThreeWayColumn, stats: LineStats) -> MeasureProgress {
    match stats.widest {
        Some(WidestLine { index: ix, width }) => if width > p.widths.side(side) {
            MeasureProgress {
                rows: with_side(p.rows, side, (p.lines.side(side) + ix) as usize),
                widths: with_side(p.widths, side, width),
                lines: p.lines,
            }
        } else {
            p
        },
        None => p,
    }
}

/// Counts the lines of `stats` for `side` (saturating at the maximum).
pub open spec fn count_lines(p: MeasureProgress, side: ThreeWayColumn, stats: LineStats) -> MeasureProgress {
    let sum = p.lines.side(side) + stats.line_count;
    MeasureProgress {
        lines: with_side(p.lines, side, if sum > usize::MAX { usize::MAX } else { sum as usize }),
        ..p
    }
}

/// One side reads one piece of text: its widest line is offered, then its lines counted.
pub open spec fn read_side(p: MeasureProgress, side: ThreeWayColumn, stats: LineStats) -> MeasureProgress {
    count_lines(offer_widest(p, side, stats), side, stats)
}

/// Whether the row of the widest line of `stats` fits in a `usize` on `side`.
pub open spec fn row_fits(p: MeasureProgress, side: ThreeWayColumn, stats: LineStats) -> bool {
    stats.widest matches Some(w) ==> p.lines.side(side) + w.index <= usize::MAX
}

/// The progress after one segment. Shared text is offered to all three
/// columns before any line is counted; a block's sides are read one by one.
pub open spec fn measure_step(p: MeasureProgress, seg: SegmentLineStats) -> MeasureProgress {
    match seg {
        SegmentLineStats::Text(st) => {
            let q = offer_widest(
                offer_widest(offer_widest(p, ThreeWayColumn::Base, st), ThreeWayColumn::Ours, st),
                ThreeWayColumn::Theirs,
                st,
            );
            count_lines(
                count_lines(count_lines(q, ThreeWayColumn::Base, st), ThreeWayColumn::Ours, st),
                ThreeWayColumn::Theirs,
                st,
            )
        },
        SegmentLineStats::Block { base, ours, theirs } => {
            let q = match base {
                Some(b) => read_side(p, ThreeWayColumn::Base, b),
                None => p,
            };
            read_side(read_side(q, ThreeWayColumn::Ours, ours), ThreeWayColumn::Theirs, theirs)
        },
    }
}

/// Whether every row index computed in the step from `p` over `seg` fits.
pub open spec fn step_fits(p: MeasureProgress, seg: SegmentLineStats) -> bool {
    match seg {
        SegmentLineStats::Text(st) => row_fits(p, ThreeWayColumn::Base, st) && row_fits(
            p,
            ThreeWayColumn::Ours,
            st,
        ) && row_fits(p, ThreeWayColumn::Theirs, st),
        SegmentLineStats::Block { base, ours, theirs } => {
            let q = match base {
                Some(b) => read_side(p, ThreeWayColumn::Base, b),
                None => p,
            };
            &&& (base matches Some(b) ==> row_fits(p, ThreeWayColumn::Base, b))
            &&& row_fits(q, ThreeWayColumn::Ours, ours)
            &&& row_fits(read_side(q, ThreeWayColumn::Ours, ours), ThreeWayColumn::Theirs, theirs)
        },
    }
}

/// The progress after the first `n` segments.
pub open spec fn measure_upto(segs: Seq<SegmentLineStats>, n: int) -> MeasureProgress
    decreases n,
{
    if n <= 0 {
        measure_start()
    } else {
        measure_step(measure_upto(segs, n - 1), segs[n - 1])
    }
}

/// Whether every row index computed over `segs` fits in a `usize`.
pub open spec fn measure_fits(segs: Seq<SegmentLineStats>) -> bool {
    forall|k: int| 0 <= k < segs.len() ==> step_fits(#[trigger] measure_upto(segs, k), segs[k])
}

/// Offers the widest line of `stats` to `side`.
fn offer_widest_exec(p: &mut MeasureProgress, side: ThreeWayColumn, stats: LineStats)
    requires
        row_fits(*old(p), side, stats),
    ensures
        *final(p) == offer_widest(*old(p), side, stats),
{
    match stats.widest {
        Some(w) => {
            let width = w.width;
            if width > *p.widths.get(side) {
                let row = *p.lines.get(side) + w.index;
                match side {
                    ThreeWayColumn::Base => {
                        p.rows.base = row;
                        p.widths.base = width;
                    },
                    ThreeWayColumn::Ours => {
                        p.rows.ours = row;
                        p.widths.ours = width;
                    },
                    ThreeWayColumn::Theirs => {
                        p.rows.theirs = row;
                        p.widths.theirs = width;
                    },
                }
            }
        },
        None => {},
    }
}

/// Counts the lines of `stats` for `side`.
fn count_lines_exec(p: &mut MeasureProgress, side: ThreeWayColumn, stats: LineStats)
    ensures
        *final(p) == count_lines(*old(p), side, stats),
{
    let sum = p.lines.get(side).saturating_add(stats.line_count);
    match side {
        ThreeWayColumn::Base => p.lines.base = sum,
        ThreeWayColumn::Ours => p.lines.ours = sum,
        ThreeWayColumn::Theirs => p.lines.theirs = sum,
    }
}

/// For each of the three columns, the row of its widest line (the first of
/// equally wide ones; row 0 when nothing is wider than 0), reading the
/// segments in order: shared text counts for every column, a block's sides
/// only for their own.
pub fn three_way_widest_rows(segments: &[SegmentLineStats]) -> (r: ThreeWaySides<usize>)
    requires
        measure_fits(segments@),
    ensures
        r == measure_upto(segments@, segments@.len() as int).rows,
{
    let mut p = MeasureProgress {
        rows: ThreeWaySides { base: 0, ours: 0, theirs: 0 },
        widths: ThreeWaySides { base: 0, ours: 0, theirs: 0 },
        lines: ThreeWaySides { base: 0, ours: 0, theirs: 0 },
    };
    let mut k: usize = 0;
    while k < segments.len()
        invariant
            k <= segments@.len(),
            measure_fits(segments@),
            p == measure_upto(segments@, k as int),
        decreases segments.len() - k,
    {
        let seg = segments[k];
        proof {
            assert(step_fits(measure_upto(segments@, k as int), segments@[k as int]));
        }
        match seg {
            SegmentLineStats::Text(st) => {
                offer_widest_exec(&mut p, ThreeWayColumn::Base, st);
                offer_widest_exec(&mut p, ThreeWayColumn::Ours, st);
                offer_widest_exec(&mut p, ThreeWayColumn::Theirs, st);
                count_lines_exec(&mut p, ThreeWayColumn::Base, st);
                count_lines_exec(&mut p, ThreeWayColumn::Ours, st);
                count_lines_exec(&mut p, ThreeWayColumn::Theirs, st);
            },
            SegmentLineStats::Block { base, ours, theirs } => {
                match base {
                    Some(b) => {
                        offer_widest_exec(&mut p, ThreeWayColumn::Base, b);
                        count_lines_exec(&mut p, ThreeWayColumn::Base, b);
                    },
                    None => {},
                }
                offer_widest_exec(&mut p, ThreeWayColumn::Ours, ours);
                count_lines_exec(&mut p, ThreeWayColumn::Ours, ours);
                offer_widest_exec(&mut p, ThreeWayColumn::Theirs, theirs);
                count_lines_exec(&mut p, ThreeWayColumn::Theirs, theirs);
            },
        }
        k = k + 1;
    }
    p.rows
}

} // verus!
