//! Small decisions of the diff view: its modes, which files get a rendered
//! preview, which header lines are hidden, text positions, and the label of
//! the selected branch in the history.
use vstd::prelude::*;
use crate::text::{
    ascii_lower, chars_of, contains_seq, has_prefix, last_char_pos, owned, plain_path, push_str, starts_with, str_eq,
    to_ascii_lower,
};
use crate::view_config::{DiffTarget, RepoId};

verus! {

/// How a diff is laid out.
#[derive(Clone, Copy, Debug, PartialEq, Eq, Structural)]
pub enum DiffViewMode {
    Inline,
    Split,
}

/// Stored key of a diff view mode.
pub open spec fn view_mode_key(m: DiffViewMode) -> Seq<char> {
    match m {
        DiffViewMode::Inline => "inline"@,
        DiffViewMode::Split => "split"@,
    }
}

/// The diff view mode a stored key names.
pub open spec fn view_mode_from(raw: Seq<char>) -> Option<DiffViewMode> {
    if raw == "inline"@ {
        Some(DiffViewMode::Inline)
    } else if raw == "split"@ {
        Some(DiffViewMode::Split)
    } else {
        None
    }
}

impl DiffViewMode {
    /// The key under which the mode is stored.
    pub fn key(self) -> (r: &'static str)
        ensures
            r@ == view_mode_key(self),
    {
        match self {
            DiffViewMode::Inline => "inline",
            DiffViewMode::Split => "split",
        }
    }

    /// The mode a stored key names, if any.
    pub fn from_key(raw: &str) -> (r: Option<Self>)
        ensures
            r == view_mode_from(raw@),
    {
        if str_eq(raw, "inline") {
            Some(DiffViewMode::Inline)
        } else if str_eq(raw, "split") {
            Some(DiffViewMode::Split)
        } else {
            None
        }
    }

    /// The label in the settings window.
    pub fn settings_label(self) -> (r: &'static str)
        ensures
            r@ == match self {
                DiffViewMode::Inline => "Inline"@,
                DiffViewMode::Split => "Split"@,
            },
    {
        match self {
            DiffViewMode::Inline => "Inline",
            DiffViewMode::Split => "Split",
        }
    }
}

/// A diff view mode is read back from its key.
pub proof fn lemma_view_mode_key_round_trip(m: DiffViewMode)
    ensures
        view_mode_from(view_mode_key(m)) == Some(m),
{
    reveal_strlit("inline");
    reveal_strlit("split");
    assert("inline"@[0] != "split"@[0]);
}

/// A kind of file that can be shown rendered instead of as text.
#[derive(Clone, Copy, Debug, PartialEq, Eq, Structural)]
pub enum RenderedPreviewKind {
    Svg,
    Markdown,
}

impl RenderedPreviewKind {
    /// Label of the rendered view's button.
    pub fn rendered_label(self) -> (r: &'static str)
        ensures
            r@ == match self {
                RenderedPreviewKind::Svg => "Image"@,
                RenderedPreviewKind::Markdown => "Preview"@,
            },
    {
        match self {
            RenderedPreviewKind::Svg => "Image",
            RenderedPreviewKind::Markdown => "Preview",
        }
    }

    /// Label of the source view's button.
    pub fn source_label(self) -> (r: &'static str)
        ensures
            r@ == match self {
                RenderedPreviewKind::Svg => "Code"@,
                RenderedPreviewKind::Markdown => "Text"@,
            },
    {
        match self {
            RenderedPreviewKind::Svg => "Code",
            RenderedPreviewKind::Markdown => "Text",
        }
    }

    /// Element id of the rendered view's button.
    pub fn rendered_button_id(self) -> (r: &'static str)
        ensures
            r@ == match self {
                RenderedPreviewKind::Svg => "svg_diff_view_image"@,
                RenderedPreviewKind::Markdown => "markdown_diff_view_preview"@,
            },
    {
        match self {
            RenderedPreviewKind::Svg => "svg_diff_view_image",
            RenderedPreviewKind::Markdown => "markdown_diff_view_preview",
        }
    }

    /// Element id of the toggle.
    pub fn toggle_id(self) -> (r: &'static str)
        ensures
            r@ == match self {
                RenderedPreviewKind::Svg => "svg_diff_view_toggle"@,
                RenderedPreviewKind::Markdown => "markdown_diff_view_toggle"@,
            },
    {
        match self {
            RenderedPreviewKind::Svg => "svg_diff_view_toggle",
            RenderedPreviewKind::Markdown => "markdown_diff_view_toggle",
        }
    }

    /// Element id of the source view's button.
    pub fn source_button_id(self) -> (r: &'static str)
        ensures
            r@ == match self {
                RenderedPreviewKind::Svg => "svg_diff_view_code"@,
                RenderedPreviewKind::Markdown => "markdown_diff_view_text"@,
            },
    {
        match self {
            RenderedPreviewKind::Svg => "svg_diff_view_code",
            RenderedPreviewKind::Markdown => "markdown_diff_view_text",
        }
    }
}

/// Whether a previewable file is shown rendered or as its source.
#[derive(Clone, Copy, Debug, PartialEq, Eq, Structural)]
pub enum RenderedPreviewMode {
    Rendered,
    Source,
}

/// The chosen mode for each kind of previewable file.
#[derive(Clone, Copy, Debug, PartialEq, Eq, Structural)]
pub struct RenderedPreviewModes {
    pub svg: RenderedPreviewMode,
    pub markdown: RenderedPreviewMode,
}

/// The mode chosen for `kind`.
pub open spec fn preview_mode_of(m: RenderedPreviewModes, kind: RenderedPreviewKind) -> RenderedPreviewMode {
    match kind {
        RenderedPreviewKind::Svg => m.svg,
        RenderedPreviewKind::Markdown => m.markdown,
    }
}

impl Default for RenderedPreviewModes {
    fn default() -> (r: Self)
        ensures
            r.svg == RenderedPreviewMode::Rendered,
            r.markdown == RenderedPreviewMode::Rendered,
    {
        RenderedPreviewModes {
            svg: RenderedPreviewMode::Rendered,
            markdown: RenderedPreviewMode::Rendered,
        }
    }
}

impl RenderedPreviewModes {
    /// The mode chosen for `kind`.
    pub fn get(self, kind: RenderedPreviewKind) -> (r: RenderedPreviewMode)
        ensures
            r == preview_mode_of(self, kind),
    {
        match kind {
            RenderedPreviewKind::Svg => self.svg,
            RenderedPreviewKind::Markdown => self.markdown,
        }
    }

    /// Chooses `mode` for `kind`; the other kind keeps its mode.
    pub fn set(&mut self, kind: RenderedPreviewKind, mode: RenderedPreviewMode)
        ensures
            preview_mode_of(*final(self), kind) == mode,
            forall|other: RenderedPreviewKind|
                other != kind ==> preview_mode_of(*final(self), other) == preview_mode_of(
                    *old(self),
                    other,
                ),
    {
        match kind {
            RenderedPreviewKind::Svg => self.svg = mode,
            RenderedPreviewKind::Markdown => self.markdown = mode,
        }
    }
}

/// Markdown file extensions, compared in ASCII lower case.
pub open spec fn is_markdown_extension_spec(ext: Seq<char>) -> bool {
    let e = ascii_lower(ext);
    e == "md"@ || e == "markdown"@ || e == "mdown"@ || e == "mkd"@ || e == "mkdn"@ || e == "mdwn"@
}

/// The SVG extension, compared in ASCII lower case.
pub open spec fn is_svg_extension_spec(ext: Seq<char>) -> bool {
    ascii_lower(ext) == "svg"@
}

/// Whether a file extension marks a markdown file.
pub fn is_markdown_extension(ext: &str) -> (r: bool)
    ensures
        r == is_markdown_extension_spec(ext@),
{
    let cs = chars_of(ext);
    let lower = to_ascii_lower(cs.as_slice());
    let s = crate::text::string_from_chars(lower.as_slice());
    let e = s.as_str();
    str_eq(e, "md") || str_eq(e, "markdown") || str_eq(e, "mdown") || str_eq(e, "mkd") || str_eq(
        e,
        "mkdn",
    ) || str_eq(e, "mdwn")
}

/// Whether a file extension marks an SVG file.
pub fn is_svg_extension(ext: &str) -> (r: bool)
    ensures
        r == is_svg_extension_spec(ext@),
{
    let cs = chars_of(ext);
    let lower = to_ascii_lower(cs.as_slice());
    let s = crate::text::string_from_chars(lower.as_slice());
    str_eq(s.as_str(), "svg")
}

/// The preview kind for a file with extension `ext`: SVG first, then markdown.
pub open spec fn preview_kind_for_extension_spec(ext: Option<Seq<char>>) -> Option<RenderedPreviewKind> {
    match ext {
        Some(e) => if is_svg_extension_spec(e) {
            Some(RenderedPreviewKind::Svg)
        } else if is_markdown_extension_spec(e) {
            Some(RenderedPreviewKind::Markdown)
        } else {
            None
        },
        None => None,
    }
}

/// The preview kind for a file with the given extension, if it has one.
pub fn preview_kind_for_extension(ext: Option<&str>) -> (r: Option<RenderedPreviewKind>)
    ensures
        r == preview_kind_for_extension_spec(match ext {
            Some(e) => Some(e@),
            None => None,
        }),
{
    match ext {
        Some(e) => {
            if is_svg_extension(e) {
                Some(RenderedPreviewKind::Svg)
            } else if is_markdown_extension(e) {
                Some(RenderedPreviewKind::Markdown)
            } else {
                None
            }
        },
        None => None,
    }
}

/// The extension of a plain path (see `plain_path`) whose final component
/// is read the same way everywhere: what follows its last `.`, when that is
/// not empty, holds no `/`, and the `.` neither starts the path nor follows a
/// `/`.
pub open spec fn plain_extension(path: Seq<char>) -> Option<Seq<char>> {
    match last_char_pos(path, '.') {
        Some(i) => {
            let before = path.subrange(0, i as int);
            let ext = path.subrange(i as int + 1, path.len() as int);
            if plain_path(path) && before.len() > 0 && before.last() != '/' && ext.len() > 0
                && !ext.contains('/') {
                Some(ext)
            } else {
                None
            }
        },
        None => None,
    }
}

/// `Path::extension` of a path, as text: what follows the last `.` of the
/// final component, unless that component starts with its only `.`. Stated:
/// an extension is preceded by a `.` somewhere in the path, so a path without
/// a `.` has none; and on a plain path the extension is `plain_extension`
/// (there the final component is the text after the last `/` on every
/// platform). Where other paths are split into components depends on the
/// platform and is not stated.
#[verifier::external_body]
fn path_extension(path: &str) -> (r: Option<String>)
    ensures
        r matches Some(e) ==> contains_seq(path@, seq!['.'] + e@),
        !contains_seq(path@, seq!['.']) ==> r is None,
        plain_extension(path@) is Some ==> r is Some && r.unwrap()@ == plain_extension(path@).unwrap(),
{
    std::path::Path::new(path).extension().and_then(|e| e.to_str()).map(|e| e.to_string())
}

/// Whether a path names a markdown file, judged by its extension. A path
/// without a `.` is never one; a plain path is one exactly when its
/// extension is a markdown extension.
pub fn is_markdown_path(path: &str) -> (r: bool)
    ensures
        plain_extension(path@) is Some ==> r == is_markdown_extension_spec(
            plain_extension(path@).unwrap(),
        ),
        r ==> exists|e: Seq<char>| contains_seq(path@, seq!['.'] + e) && is_markdown_extension_spec(e),
        !contains_seq(path@, seq!['.']) ==> !r,
{
    match path_extension(path) {
        Some(e) => is_markdown_extension(e.as_str()),
        None => false,
    }
}

/// Whether a path names an SVG file, judged by its extension in any case. A
/// path without a `.` is never one; a plain path is one exactly when its
/// extension is `svg` in any case.
pub fn is_svg_path(path: &str) -> (r: bool)
    ensures
        plain_extension(path@) is Some ==> r == is_svg_extension_spec(plain_extension(path@).unwrap()),
        r ==> exists|e: Seq<char>| contains_seq(path@, seq!['.'] + e) && is_svg_extension_spec(e),
        !contains_seq(path@, seq!['.']) ==> !r,
{
    match path_extension(path) {
        Some(e) => is_svg_extension(e.as_str()),
        None => false,
    }
}

/// The preview kind of a path, judged by its extension: SVG first, then
/// markdown; for a plain path, the kind of its extension.
pub fn preview_path_rendered_kind(path: &str) -> (r: Option<RenderedPreviewKind>)
    ensures
        plain_extension(path@) is Some ==> r == preview_kind_for_extension_spec(plain_extension(path@)),
        r is Some ==> exists|e: Seq<char>| contains_seq(path@, seq!['.'] + e)
            && preview_kind_for_extension_spec(Some(e)) == r,
        !contains_seq(path@, seq!['.']) ==> r is None,
{
    match path_extension(path) {
        Some(e) => preview_kind_for_extension(Some(e.as_str())),
        None => None,
    }
}

/// The preview kind of a diff target's file: only working tree targets and
/// commit targets for one file have one.
pub fn diff_target_rendered_preview_kind(target: Option<&DiffTarget>) -> (r: Option<
    RenderedPreviewKind,
>)
    ensures
        match target {
            Some(DiffTarget::WorkingTree { path, .. }) => (r is Some ==> exists|e: Seq<char>|
                contains_seq(path@, seq!['.'] + e) && preview_kind_for_extension_spec(Some(e)) == r)
                && (plain_extension(path@) is Some ==> r == preview_kind_for_extension_spec(
                plain_extension(path@),
            )),
            Some(DiffTarget::Commit { path: Some(path), .. }) => (r is Some ==> exists|e: Seq<char>|
                contains_seq(path@, seq!['.'] + e) && preview_kind_for_extension_spec(Some(e)) == r)
                && (plain_extension(path@) is Some ==> r == preview_kind_for_extension_spec(
                plain_extension(path@),
            )),
            _ => r is None,
        },
{
    match target {
        Some(DiffTarget::WorkingTree { path, .. }) => preview_path_rendered_kind(path.as_str()),
        Some(DiffTarget::Commit { path: Some(path), .. }) => preview_path_rendered_kind(path.as_str()),
        _ => None,
    }
}

/// Which preview toggle the main diff shows: SVG only for a file diff,
/// markdown for a file diff or a file preview.
pub fn main_diff_rendered_preview_toggle_kind(
    wants_file_diff: bool,
    is_file_preview: bool,
    preview_kind: Option<RenderedPreviewKind>,
) -> (r: Option<RenderedPreviewKind>)
    ensures
        r == match preview_kind {
            Some(RenderedPreviewKind::Svg) => if wants_file_diff {
                Some(RenderedPreviewKind::Svg)
            } else {
                None
            },
            Some(RenderedPreviewKind::Markdown) => if wants_file_diff || is_file_preview {
                Some(RenderedPreviewKind::Markdown)
            } else {
                None
            },
            None => None,
        },
{
    match preview_kind {
        Some(RenderedPreviewKind::Svg) => {
            if wants_file_diff {
                Some(RenderedPreviewKind::Svg)
            } else {
                None
            }
        },
        Some(RenderedPreviewKind::Markdown) => {
            if wants_file_diff || is_file_preview {
                Some(RenderedPreviewKind::Markdown)
            } else {
                None
            }
        },
        None => None,
    }
}

/// The role of a line in a unified diff.
#[derive(Clone, Copy, Debug, PartialEq, Eq, Structural)]
pub enum DiffLineKind {
    Header,
    Hunk,
    Add,
    Remove,
    Context,
}

/// One line of a unified diff.
#[derive(Clone, Debug, PartialEq, Eq)]
pub struct AnnotatedDiffLine {
    pub kind: DiffLineKind,
    pub text: String,
}

/// Header lines the diff view hides: `index `, `--- ` and `+++ ` lines.
pub fn should_hide_unified_diff_header_line(line: &AnnotatedDiffLine) -> (r: bool)
    ensures
        r == (line.kind == DiffLineKind::Header && (has_prefix(line.text@, "index "@) || has_prefix(
            line.text@,
            "--- "@,
        ) || has_prefix(line.text@, "+++ "@))),
{
    if line.kind != DiffLineKind::Header {
        return false;
    }
    let text = chars_of(line.text.as_str());
    let index = chars_of("index ");
    let minus = chars_of("--- ");
    let plus = chars_of("+++ ");
    starts_with(text.as_slice(), index.as_slice()) || starts_with(text.as_slice(), minus.as_slice())
        || starts_with(text.as_slice(), plus.as_slice())
}

/// Where on a diff row a piece of text is.
#[derive(Clone, Copy, Debug, PartialEq, Eq, Structural)]
pub enum DiffTextRegion {
    Inline,
    SplitLeft,
    SplitRight,
}

impl DiffTextRegion {
    /// Left-to-right order of the region on its row.
    pub fn order(self) -> (r: u8)
        ensures
            r == (if self == DiffTextRegion::SplitRight {
                1u8
            } else {
                0u8
            }),
    {
        match self {
            DiffTextRegion::Inline | DiffTextRegion::SplitLeft => 0,
            DiffTextRegion::SplitRight => 1,
        }
    }
}

/// A position in the diff's text: row, region, and offset in the region.
#[derive(Clone, Copy, Debug, PartialEq, Eq, Structural)]
pub struct DiffTextPos {
    pub source_visible_ix: usize,
    pub region: DiffTextRegion,
    pub offset: usize,
}

impl DiffTextPos {
    /// The key positions are ordered by: row, then region, then offset.
    pub fn cmp_key(self) -> (r: (usize, u8, usize))
        ensures
            r == (self.source_visible_ix, if self.region == DiffTextRegion::SplitRight {
                1u8
            } else {
                0u8
            }, self.offset),
    {
        (self.source_visible_ix, self.region.order(), self.offset)
    }
}

/// Maps offsets between displayed text and the source text it shows. Each
/// table has one entry per offset, including the end.
#[derive(Clone, Debug)]
pub struct DiffTextOffsetMap {
    pub display_to_source: Vec<usize>,
    pub source_to_display: Vec<usize>,
}

/// The last offset of a table (its length less one, or zero when empty).
pub open spec fn table_last(table: Seq<usize>) -> int {
    if table.len() == 0 {
        0
    } else {
        table.len() - 1
    }
}

/// The entry of `table` for `offset`, clamped to the table's last offset;
/// `fallback` for an empty table.
pub open spec fn clamped_lookup(table: Seq<usize>, offset: usize, fallback: int) -> int {
    let last = if table.len() == 0 {
        0
    } else {
        table.len() - 1
    };
    let ix = if offset < last {
        offset as int
    } else {
        last
    };
    if ix < table.len() {
        table[ix] as int
    } else {
        fallback
    }
}

impl DiffTextOffsetMap {
    /// Length of the displayed text.
    pub fn display_len(&self) -> (r: usize)
        ensures
            r == if self.display_to_source@.len() == 0 {
                0
            } else {
                self.display_to_source@.len() - 1
            },
    {
        self.display_to_source.len().saturating_sub(1)
    }

    /// Length of the source text.
    pub fn source_len(&self) -> (r: usize)
        ensures
            r == if self.source_to_display@.len() == 0 {
                0
            } else {
                self.source_to_display@.len() - 1
            },
    {
        self.source_to_display.len().saturating_sub(1)
    }

    /// The source offset shown at display offset `offset` (clamped to the end).
    pub fn source_offset_for_display(&self, offset: usize) -> (r: usize)
        ensures
            r == clamped_lookup(self.display_to_source@, offset, table_last(self.source_to_display@)),
    {
        let last = self.display_len();
        let ix = if offset < last {
            offset
        } else {
            last
        };
        if ix < self.display_to_source.len() {
            self.display_to_source[ix]
        } else {
            self.source_len()
        }
    }

    /// The display offset that shows source offset `offset` (clamped to the end).
    pub fn display_offset_for_source(&self, offset: usize) -> (r: usize)
        ensures
            r == clamped_lookup(self.source_to_display@, offset, table_last(self.display_to_source@)),
    {
        let last = self.source_len();
        let ix = if offset < last {
            offset
        } else {
            last
        };
        if ix < self.source_to_display.len() {
            self.source_to_display[ix]
        } else {
            self.display_len()
        }
    }
}

/// Which list of the sidebar a branch is in.
#[derive(Clone, Copy, Debug, PartialEq, Eq, Structural)]
pub enum BranchSection {
    Local,
    Remote,
}

/// The branch selected in the sidebar.
#[derive(Clone, Debug, PartialEq, Eq)]
pub struct SelectedBranch {
    pub repo_id: RepoId,
    pub section: BranchSection,
    pub name: String,
}

/// The text a selected history row shows for the selected branch: the
/// branch's name, marked `HEAD → ` on the checked-out local branch; nothing
/// for an unselected row or a branch of another repository.
pub fn selected_branch_history_entry_text(
    selected_branch: Option<&SelectedBranch>,
    repo_id: RepoId,
    is_head: bool,
    selected: bool,
) -> (r: Option<String>)
    ensures
        match selected_branch {
            Some(b) if selected && b.repo_id == repo_id => r matches Some(t) && t@ == if is_head
                && b.section == BranchSection::Local {
                "HEAD \u{2192} "@ + b.name@
            } else {
                b.name@
            },
            _ => r is None,
        },
{
    if !selected {
        return None;
    }
    let b = match selected_branch {
        Some(b) => b,
        None => return None,
    };
    if b.repo_id != repo_id {
        return None;
    }
    match b.section {
        BranchSection::Local => {
            if is_head {
                let mut t = owned("HEAD \u{2192} ");
                push_str(&mut t, b.name.as_str());
                Some(t)
            } else {
                Some(owned(b.name.as_str()))
            }
        },
        BranchSection::Remote => Some(owned(b.name.as_str())),
    }
}

/// The value dragged while a divider is resized; every resizable divider uses it.
pub struct ResizeDragGhost;

/// Drag value of a history column divider.
pub type HistoryColResizeDragGhost = ResizeDragGhost;

/// Drag value of a side pane divider.
pub type PaneResizeDragGhost = ResizeDragGhost;

/// Drag value of the split diff divider.
pub type DiffSplitResizeDragGhost = ResizeDragGhost;

/// Drag value of the conflict resolver's vertical divider.
pub type ConflictVSplitResizeDragGhost = ResizeDragGhost;

/// Drag value of a status section divider.
pub type StatusSectionResizeDragGhost = ResizeDragGhost;

/// Drag value of the conflict resolver's horizontal divider.
pub type ConflictHSplitResizeDragGhost = ResizeDragGhost;

/// Drag value of the conflict diff divider.
pub type ConflictDiffSplitResizeDragGhost = ResizeDragGhost;

} // verus!
