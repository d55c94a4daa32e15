//! User preferences of the main window and the settings window: their stored
//! keys, their labels, and the labels the settings window composes.
use vstd::prelude::*;
use crate::text::{owned, push_str, str_eq};

verus! {

/// Where untracked files are listed.
#[derive(Clone, Copy, Debug, PartialEq, Eq, Structural)]
pub enum ChangeTrackingView {
    Combined,
    SplitUntracked,
}

/// Which panes of a split or merge view scroll together.
#[derive(Clone, Copy, Debug, PartialEq, Eq, Structural)]
pub enum DiffScrollSync {
    Vertical,
    Horizontal,
    Off,
    Both,
}

/// Whether a diff shows whole files or only the changed parts.
#[derive(Clone, Copy, Debug, PartialEq, Eq, Structural)]
pub enum DiffContentMode {
    Full,
    Collapsed,
}

/// Whether whitespace-only changes are shown.
#[derive(Clone, Copy, Debug, PartialEq, Eq, Structural)]
pub enum DiffWhitespaceMode {
    Show,
    Ignore,
}

/// Stored key of a change tracking view.
pub open spec fn change_tracking_key(v: ChangeTrackingView) -> Seq<char> {
    match v {
        ChangeTrackingView::Combined => "combined"@,
        ChangeTrackingView::SplitUntracked => "split_untracked"@,
    }
}

/// The change tracking view a stored key names.
pub open spec fn change_tracking_from(raw: Seq<char>) -> Option<ChangeTrackingView> {
    if raw == "combined"@ {
        Some(ChangeTrackingView::Combined)
    } else if raw == "split_untracked"@ {
        Some(ChangeTrackingView::SplitUntracked)
    } else {
        None
    }
}

impl Default for ChangeTrackingView {
    fn default() -> (r: Self)
        ensures
            r == ChangeTrackingView::Combined,
    {
        ChangeTrackingView::Combined
    }
}

impl ChangeTrackingView {
    /// The key under which the view is stored.
    pub fn key(self) -> (r: &'static str)
        ensures
            r@ == change_tracking_key(self),
    {
        match self {
            ChangeTrackingView::Combined => "combined",
            ChangeTrackingView::SplitUntracked => "split_untracked",
        }
    }

    /// The view a stored key names, if any.
    pub fn from_key(raw: &str) -> (r: Option<Self>)
        ensures
            r == change_tracking_from(raw@),
    {
        if str_eq(raw, "combined") {
            Some(ChangeTrackingView::Combined)
        } else if str_eq(raw, "split_untracked") {
            Some(ChangeTrackingView::SplitUntracked)
        } else {
            None
        }
    }

    /// The label in the status panel.
    pub fn label(self) -> (r: &'static str)
        ensures
            r@ == match self {
                ChangeTrackingView::Combined => "Combined with Unstaged"@,
                ChangeTrackingView::SplitUntracked => "Separate section"@,
            },
    {
        match self {
            ChangeTrackingView::Combined => "Combined with Unstaged",
            ChangeTrackingView::SplitUntracked => "Separate section",
        }
    }

    /// The label in the status panel's menu.
    pub fn menu_label(self) -> (r: &'static str)
        ensures
            r@ == match self {
                ChangeTrackingView::Combined => "Combine with Unstaged"@,
                ChangeTrackingView::SplitUntracked => "Show separate Untracked block"@,
            },
    {
        match self {
            ChangeTrackingView::Combined => "Combine with Unstaged",
            ChangeTrackingView::SplitUntracked => "Show separate Untracked block",
        }
    }

    /// The label in the settings window.
    pub fn settings_label(self) -> (r: &'static str)
        ensures
            r@ == match self {
                ChangeTrackingView::Combined => "Combined"@,
                ChangeTrackingView::SplitUntracked => "Separate section"@,
            },
    {
        match self {
            ChangeTrackingView::Combined => "Combined",
            ChangeTrackingView::SplitUntracked => "Separate section",
        }
    }
}

/// Stored key of a scroll sync setting.
pub open spec fn scroll_sync_key(v: DiffScrollSync) -> Seq<char> {
    match v {
        DiffScrollSync::Vertical => "vertical"@,
        DiffScrollSync::Horizontal => "horizontal"@,
        DiffScrollSync::Off => "none"@,
        DiffScrollSync::Both => "both"@,
    }
}

/// The scroll sync setting a stored key names.
pub open spec fn scroll_sync_from(raw: Seq<char>) -> Option<DiffScrollSync> {
    if raw == "vertical"@ {
        Some(DiffScrollSync::Vertical)
    } else if raw == "horizontal"@ {
        Some(DiffScrollSync::Horizontal)
    } else if raw == "none"@ {
        Some(DiffScrollSync::Off)
    } else if raw == "both"@ {
        Some(DiffScrollSync::Both)
    } else {
        None
    }
}

impl Default for DiffScrollSync {
    fn default() -> (r: Self)
        ensures
            r == DiffScrollSync::Both,
    {
        DiffScrollSync::Both
    }
}

impl DiffScrollSync {
    /// The key under which the setting is stored.
    pub fn key(self) -> (r: &'static str)
        ensures
            r@ == scroll_sync_key(self),
    {
        match self {
            DiffScrollSync::Vertical => "vertical",
            DiffScrollSync::Horizontal => "horizontal",
            DiffScrollSync::Off => "none",
            DiffScrollSync::Both => "both",
        }
    }

    /// The setting a stored key names, if any.
    pub fn from_key(raw: &str) -> (r: Option<Self>)
        ensures
            r == scroll_sync_from(raw@),
    {
        if str_eq(raw, "vertical") {
            Some(DiffScrollSync::Vertical)
        } else if str_eq(raw, "horizontal") {
            Some(DiffScrollSync::Horizontal)
        } else if str_eq(raw, "none") {
            Some(DiffScrollSync::Off)
        } else if str_eq(raw, "both") {
            Some(DiffScrollSync::Both)
        } else {
            None
        }
    }

    /// The label shown for the setting.
    pub fn label(self) -> (r: &'static str)
        ensures
            r@ == match self {
                DiffScrollSync::Vertical => "Vertical"@,
                DiffScrollSync::Horizontal => "Horizontal"@,
                DiffScrollSync::Off => "None"@,
                DiffScrollSync::Both => "Both"@,
            },
    {
        match self {
            DiffScrollSync::Vertical => "Vertical",
            DiffScrollSync::Horizontal => "Horizontal",
            DiffScrollSync::Off => "None",
            DiffScrollSync::Both => "Both",
        }
    }

    /// Whether vertical scrolling is shared.
    pub fn includes_vertical(self) -> (r: bool)
        ensures
            r == (self == DiffScrollSync::Vertical || self == DiffScrollSync::Both),
    {
        match self {
            DiffScrollSync::Vertical | DiffScrollSync::Both => true,
            _ => false,
        }
    }

    /// Whether horizontal scrolling is shared.
    pub fn includes_horizontal(self) -> (r: bool)
        ensures
            r == (self == DiffScrollSync::Horizontal || self == DiffScrollSync::Both),
    {
        match self {
            DiffScrollSync::Horizontal | DiffScrollSync::Both => true,
            _ => false,
        }
    }
}

/// Stored key of a content mode.
pub open spec fn content_mode_key(v: DiffContentMode) -> Seq<char> {
    match v {
        DiffContentMode::Full => "content"@,
        DiffContentMode::Collapsed => "changed_lines_only"@,
    }
}

/// The content mode a stored key names.
pub open spec fn content_mode_from(raw: Seq<char>) -> Option<DiffContentMode> {
    if raw == "content"@ {
        Some(DiffContentMode::Full)
    } else if raw == "changed_lines_only"@ {
        Some(DiffContentMode::Collapsed)
    } else {
        None
    }
}

impl Default for DiffContentMode {
    fn default() -> (r: Self)
        ensures
            r == DiffContentMode::Full,
    {
        DiffContentMode::Full
    }
}

impl DiffContentMode {
    /// The key under which the mode is stored.
    pub fn key(self) -> (r: &'static str)
        ensures
            r@ == content_mode_key(self),
    {
        match self {
            DiffContentMode::Full => "content",
            DiffContentMode::Collapsed => "changed_lines_only",
        }
    }

    /// The mode a stored key names, if any.
    pub fn from_key(raw: &str) -> (r: Option<Self>)
        ensures
            r == content_mode_from(raw@),
    {
        if str_eq(raw, "content") {
            Some(DiffContentMode::Full)
        } else if str_eq(raw, "changed_lines_only") {
            Some(DiffContentMode::Collapsed)
        } else {
            None
        }
    }

    /// The label shown for the mode.
    pub fn label(self) -> (r: &'static str)
        ensures
            r@ == match self {
                DiffContentMode::Full => "Full"@,
                DiffContentMode::Collapsed => "Collapsed"@,
            },
    {
        match self {
            DiffContentMode::Full => "Full",
            DiffContentMode::Collapsed => "Collapsed",
        }
    }

    /// The label in the settings window, the same as `label`.
    pub fn settings_label(self) -> (r: &'static str)
        ensures
            r@ == match self {
                DiffContentMode::Full => "Full"@,
                DiffContentMode::Collapsed => "Collapsed"@,
            },
    {
        self.label()
    }
}

/// Stored key of a whitespace mode.
pub open spec fn whitespace_mode_key(v: DiffWhitespaceMode) -> Seq<char> {
    match v {
        DiffWhitespaceMode::Show => "show"@,
        DiffWhitespaceMode::Ignore => "ignore"@,
    }
}

/// The whitespace mode a stored key names.
pub open spec fn whitespace_mode_from(raw: Seq<char>) -> Option<DiffWhitespaceMode> {
    if raw == "show"@ {
        Some(DiffWhitespaceMode::Show)
    } else if raw == "ignore"@ {
        Some(DiffWhitespaceMode::Ignore)
    } else {
        None
    }
}

/// The other whitespace mode.
pub open spec fn whitespace_toggled(v: DiffWhitespaceMode) -> DiffWhitespaceMode {
    match v {
        DiffWhitespaceMode::Show => DiffWhitespaceMode::Ignore,
        DiffWhitespaceMode::Ignore => DiffWhitespaceMode::Show,
    }
}

impl Default for DiffWhitespaceMode {
    fn default() -> (r: Self)
        ensures
            r == DiffWhitespaceMode::Show,
    {
        DiffWhitespaceMode::Show
    }
}

impl DiffWhitespaceMode {
    /// The key under which the mode is stored.
    pub fn key(self) -> (r: &'static str)
        ensures
            r@ == whitespace_mode_key(self),
    {
        match self {
            DiffWhitespaceMode::Show => "show",
            DiffWhitespaceMode::Ignore => "ignore",
        }
    }

    /// The mode a stored key names, if any.
    pub fn from_key(raw: &str) -> (r: Option<Self>)
        ensures
            r == whitespace_mode_from(raw@),
    {
        if str_eq(raw, "show") {
            Some(DiffWhitespaceMode::Show)
        } else if str_eq(raw, "ignore") {
            Some(DiffWhitespaceMode::Ignore)
        } else {
            None
        }
    }

    /// The other mode.
    pub fn toggled(self) -> (r: Self)
        ensures
            r == whitespace_toggled(self),
    {
        match self {
            DiffWhitespaceMode::Show => DiffWhitespaceMode::Ignore,
            DiffWhitespaceMode::Ignore => DiffWhitespaceMode::Show,
        }
    }
}

/// Every setting is read back from the key it is stored under, and toggling
/// the whitespace mode twice gives it back.
pub proof fn lemma_setting_keys_round_trip(
    c: ChangeTrackingView,
    s: DiffScrollSync,
    m: DiffContentMode,
    w: DiffWhitespaceMode,
)
    ensures
        change_tracking_from(change_tracking_key(c)) == Some(c),
        scroll_sync_from(scroll_sync_key(s)) == Some(s),
        content_mode_from(content_mode_key(m)) == Some(m),
        whitespace_mode_from(whitespace_mode_key(w)) == Some(w),
        whitespace_toggled(whitespace_toggled(w)) == w,
        whitespace_toggled(w) != w,
{
    reveal_strlit("combined");
    reveal_strlit("split_untracked");
    reveal_strlit("vertical");
    reveal_strlit("horizontal");
    reveal_strlit("none");
    reveal_strlit("both");
    reveal_strlit("content");
    reveal_strlit("changed_lines_only");
    reveal_strlit("show");
    reveal_strlit("ignore");
    assert("combined"@[0] != "split_untracked"@[0]);
    assert("vertical"@[0] != "horizontal"@[0]);
    assert("vertical"@[0] != "none"@[0]);
    assert("vertical"@[0] != "both"@[0]);
    assert("horizontal"@[0] != "none"@[0]);
    assert("horizontal"@[0] != "both"@[0]);
    assert("none"@[0] != "both"@[0]);
    assert("content"@[1] != "changed_lines_only"@[1]);
    assert("show"@[0] != "ignore"@[0]);
}

/// The theme setting: follow the system appearance, or a named theme.
#[derive(Clone, Debug, PartialEq, Eq)]
pub enum ThemeMode {
    Automatic,
    Named(String),
}

impl Default for ThemeMode {
    fn default() -> (r: Self)
        ensures
            r is Automatic,
    {
        ThemeMode::Automatic
    }
}

/// Stored key of a theme setting.
pub open spec fn theme_key(m: ThemeMode) -> Seq<char> {
    match m {
        ThemeMode::Automatic => "automatic"@,
        ThemeMode::Named(k) => k@,
    }
}

impl ThemeMode {
    /// The key under which the setting is stored: "automatic" or the theme's key.
    pub fn key(&self) -> (r: &str)
        ensures
            r@ == theme_key(*self),
    {
        match self {
            ThemeMode::Automatic => "automatic",
            ThemeMode::Named(key) => key.as_str(),
        }
    }

    /// Whether the setting follows the system appearance.
    pub fn is_automatic(&self) -> (r: bool)
        ensures
            r == (*self is Automatic),
    {
        match self {
            ThemeMode::Automatic => true,
            ThemeMode::Named(_) => false,
        }
    }
}

/// The theme choices of the settings window: "Automatic" first, then each
/// available theme by its key, in the order given.
pub fn settings_theme_modes(available_theme_keys: &[String]) -> (r: Vec<ThemeMode>)
    ensures
        r@.len() == available_theme_keys@.len() + 1,
        r@[0] is Automatic,
        forall|i: int|
            0 <= i < available_theme_keys@.len() ==> #[trigger] r@[i + 1] == ThemeMode::Named(
                available_theme_keys@[i],
            ),
{
    let mut modes: Vec<ThemeMode> = Vec::new();
    modes.push(ThemeMode::Automatic);
    let mut i: usize = 0;
    while i < available_theme_keys.len()
        invariant
            i <= available_theme_keys@.len(),
            modes@.len() == i + 1,
            modes@[0] is Automatic,
            forall|j: int|
                0 <= j < i ==> #[trigger] modes@[j + 1] == ThemeMode::Named(available_theme_keys@[j]),
        decreases available_theme_keys.len() - i,
    {
        modes.push(ThemeMode::Named(available_theme_keys[i].clone()));
        i = i + 1;
    }
    modes
}

/// Names of the history columns that are shown, in column order.
pub open spec fn shown_columns(show_graph: bool, show_author: bool, show_date: bool, show_sha: bool) -> Seq<
    Seq<char>,
> {
    let a: Seq<Seq<char>> = if show_graph {
        seq!["Graph"@]
    } else {
        seq![]
    };
    let b = if show_author {
        a.push("Author"@)
    } else {
        a
    };
    let c = if show_date {
        b.push("Commit date"@)
    } else {
        b
    };
    if show_sha {
        c.push("SHA"@)
    } else {
        c
    }
}

/// Names joined with ", ".
pub open spec fn join_comma(names: Seq<Seq<char>>) -> Seq<char>
    decreases names.len(),
{
    if names.len() == 0 {
        Seq::empty()
    } else if names.len() == 1 {
        names[0]
    } else {
        join_comma(names.drop_last()) + ", "@ + names.last()
    }
}

/// Appends a column name, separated from earlier ones by ", ".
fn push_column(out: &mut String, count: &mut usize, name: &str, names: Ghost<Seq<Seq<char>>>)
    requires
        old(out)@ == join_comma(names@),
        *old(count) == names@.len(),
        names@.len() < 4,
    ensures
        final(out)@ == join_comma(names@.push(name@)),
        *final(count) == names@.len() + 1,
{
    if *count > 0 {
        push_str(out, ", ");
    }
    push_str(out, name);
    *count = *count + 1;
    proof {
        assert(names@.push(name@).drop_last() =~= names@);
    }
}

/// The summary of the shown history columns: their names joined by ", ", or
/// "None" when no column is shown.
pub fn history_columns_settings_label(
    show_graph: bool,
    show_author: bool,
    show_date: bool,
    show_sha: bool,
) -> (r: String)
    ensures
        r@ == if shown_columns(show_graph, show_author, show_date, show_sha).len() == 0 {
            "None"@
        } else {
            join_comma(shown_columns(show_graph, show_author, show_date, show_sha))
        },
{
    let mut out = String::new();
    let mut count: usize = 0;
    let ghost mut names: Seq<Seq<char>> = seq![];
    if show_graph {
        push_column(&mut out, &mut count, "Graph", Ghost(names));
        proof {
            names = names.push("Graph"@);
        }
    }
    if show_author {
        push_column(&mut out, &mut count, "Author", Ghost(names));
        proof {
            names = names.push("Author"@);
        }
    }
    if show_date {
        push_column(&mut out, &mut count, "Commit date", Ghost(names));
        proof {
            names = names.push("Commit date"@);
        }
    }
    if show_sha {
        push_column(&mut out, &mut count, "SHA", Ghost(names));
        proof {
            names = names.push("SHA"@);
        }
    }
    assert(names =~= shown_columns(show_graph, show_author, show_date, show_sha));
    if count == 0 {
        owned("None")
    } else {
        out
    }
}

/// When the history fetches tags.
#[derive(Clone, Copy, Debug, PartialEq, Eq, Structural)]
pub enum GitLogTagFetchMode {
    OnRepositoryActivation,
    Disabled,
}

/// The label of a tag fetch setting.
pub fn git_log_tag_fetch_mode_label(mode: GitLogTagFetchMode) -> (r: &'static str)
    ensures
        r@ == match mode {
            GitLogTagFetchMode::OnRepositoryActivation => "On repository activation"@,
            GitLogTagFetchMode::Disabled => "Disabled"@,
        },
{
    match mode {
        GitLogTagFetchMode::OnRepositoryActivation => "On repository activation",
        GitLogTagFetchMode::Disabled => "Disabled",
    }
}

/// The note beside a UI scale preset: the default scale, the smaller ones
/// and the larger ones are described; other scales have none.
pub open spec fn preset_detail(percent: u32, default_percent: u32) -> Option<Seq<char>> {
    if percent == default_percent {
        Some("Default scale"@)
    } else if percent == 80 || percent == 90 {
        Some("Fit more on screen"@)
    } else if percent == 110 || percent == 125 || percent == 150 {
        Some("Larger controls and text"@)
    } else {
        None
    }
}

/// The note beside a UI scale preset (see `preset_detail`).
pub fn ui_scale_preset_detail(percent: u32, default_percent: u32) -> (r: Option<&'static str>)
    ensures
        match r {
            Some(d) => preset_detail(percent, default_percent) == Some(d@),
            None => preset_detail(percent, default_percent) is None,
        },
{
    if percent == default_percent {
        Some("Default scale")
    } else if percent == 80 || percent == 90 {
        Some("Fit more on screen")
    } else if percent == 110 || percent == 125 || percent == 150 {
        Some("Larger controls and text")
    } else {
        None
    }
}

/// How dates and times are written: the four layouts the settings offer.
#[derive(Clone, Copy, Debug, PartialEq, Eq, Structural)]
pub enum DateTimeFormat {
    YmdHm,
    YmdHms,
    DmyHm,
    MdyHm,
}

/// A timezone choice, by the key it is stored under.
#[derive(Clone, Debug, PartialEq, Eq)]
pub struct Timezone {
    pub key: String,
}

/// The history mode a repository's history opens in, by its position in
/// the history view's list of modes.
#[derive(Clone, Copy, Debug, PartialEq, Eq, Structural)]
pub struct HistoryMode(pub u32);

/// What the date and time settings module defines: the key each date and
/// time layout is stored under, the keys of the timezones it knows, and the
/// timezone used when none is stored.
#[derive(Clone, Debug)]
pub struct ClockCatalog {
    pub ymd_hm_key: String,
    pub ymd_hms_key: String,
    pub dmy_hm_key: String,
    pub mdy_hm_key: String,
    pub timezone_keys: Vec<String>,
    pub default_timezone_key: String,
}

/// The key a date and time layout is stored under.
pub open spec fn format_key(c: ClockCatalog, f: DateTimeFormat) -> Seq<char> {
    match f {
        DateTimeFormat::YmdHm => c.ymd_hm_key@,
        DateTimeFormat::YmdHms => c.ymd_hms_key@,
        DateTimeFormat::DmyHm => c.dmy_hm_key@,
        DateTimeFormat::MdyHm => c.mdy_hm_key@,
    }
}

/// The layout a stored key names, if any (the first layout whose key it is).
pub open spec fn format_from(c: ClockCatalog, raw: Seq<char>) -> Option<DateTimeFormat> {
    if raw == c.ymd_hm_key@ {
        Some(DateTimeFormat::YmdHm)
    } else if raw == c.ymd_hms_key@ {
        Some(DateTimeFormat::YmdHms)
    } else if raw == c.dmy_hm_key@ {
        Some(DateTimeFormat::DmyHm)
    } else if raw == c.mdy_hm_key@ {
        Some(DateTimeFormat::MdyHm)
    } else {
        None
    }
}

/// Whether the four layouts have four different keys.
pub open spec fn format_keys_distinct(c: ClockCatalog) -> bool {
    &&& c.ymd_hm_key@ != c.ymd_hms_key@
    &&& c.ymd_hm_key@ != c.dmy_hm_key@
    &&& c.ymd_hm_key@ != c.mdy_hm_key@
    &&& c.ymd_hms_key@ != c.dmy_hm_key@
    &&& c.ymd_hms_key@ != c.mdy_hm_key@
    &&& c.dmy_hm_key@ != c.mdy_hm_key@
}

/// Whether `raw` is the key of a known timezone.
pub open spec fn timezone_known(c: ClockCatalog, raw: Seq<char>) -> bool {
    exists|i: int| 0 <= i < c.timezone_keys@.len() && (#[trigger] c.timezone_keys@[i])@ == raw
}

impl DateTimeFormat {
    /// The key the layout is stored under.
    pub fn key(self, catalog: &ClockCatalog) -> (r: &str)
        ensures
            r@ == format_key(*catalog, self),
    {
        match self {
            DateTimeFormat::YmdHm => catalog.ymd_hm_key.as_str(),
            DateTimeFormat::YmdHms => catalog.ymd_hms_key.as_str(),
            DateTimeFormat::DmyHm => catalog.dmy_hm_key.as_str(),
            DateTimeFormat::MdyHm => catalog.mdy_hm_key.as_str(),
        }
    }

    /// The layout a stored key names, if any.
    pub fn from_key(raw: &str, catalog: &ClockCatalog) -> (r: Option<DateTimeFormat>)
        ensures
            r == format_from(*catalog, raw@),
    {
        if str_eq(raw, catalog.ymd_hm_key.as_str()) {
            Some(DateTimeFormat::YmdHm)
        } else if str_eq(raw, catalog.ymd_hms_key.as_str()) {
            Some(DateTimeFormat::YmdHms)
        } else if str_eq(raw, catalog.dmy_hm_key.as_str()) {
            Some(DateTimeFormat::DmyHm)
        } else if str_eq(raw, catalog.mdy_hm_key.as_str()) {
            Some(DateTimeFormat::MdyHm)
        } else {
            None
        }
    }
}

impl Timezone {
    /// The timezone a stored key names, when it is a known timezone.
    pub fn from_key(raw: &str, catalog: &ClockCatalog) -> (r: Option<Timezone>)
        ensures
            match r {
                Some(t) => timezone_known(*catalog, raw@) && t.key@ == raw@,
                None => !timezone_known(*catalog, raw@),
            },
    {
        let mut i: usize = 0;
        while i < catalog.timezone_keys.len()
            invariant
                i <= catalog.timezone_keys@.len(),
                forall|j: int| 0 <= j < i ==> (#[trigger] catalog.timezone_keys@[j])@ != raw@,
            decreases catalog.timezone_keys.len() - i,
        {
            if str_eq(catalog.timezone_keys[i].as_str(), raw) {
                return Some(Timezone { key: owned(raw) });
            }
            i = i + 1;
        }
        None
    }
}

} // verus!
