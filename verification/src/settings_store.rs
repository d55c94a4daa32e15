//! Reading the settings window's preferences from the stored UI settings,
//! and writing them back. What is read back of what was written is stated
//! as a law.
use vstd::prelude::*;
use crate::diff_view::{lemma_view_mode_key_round_trip, view_mode_from, view_mode_key, DiffViewMode};
use crate::git_runtime::{
    applied_git_executable_path, GitExecutableMode, GitExecutablePreference, GitRuntimeState,
};
use crate::settings::{
    change_tracking_from, change_tracking_key, lemma_setting_keys_round_trip, content_mode_from, content_mode_key,
    scroll_sync_from, scroll_sync_key, theme_key, whitespace_mode_from, whitespace_mode_key,
    format_from, format_key, format_keys_distinct, timezone_known, ChangeTrackingView, ClockCatalog,
    DateTimeFormat, DiffContentMode, DiffScrollSync, DiffWhitespaceMode, GitLogTagFetchMode,
    HistoryMode, ThemeMode, Timezone,
};
use crate::settings_model::{SettingsModel, SettingsView};
use crate::text::{owned, str_eq};

verus! {

/// The themes the application knows: their keys, and the keys that the
/// older stored values "light" and "dark" stand for.
#[derive(Clone, Debug)]
pub struct ThemeCatalog {
    pub keys: Vec<String>,
    pub default_light_key: String,
    pub default_dark_key: String,
}

/// Whether `raw` is the key of a known theme.
pub open spec fn catalog_has(keys: Seq<String>, raw: Seq<char>) -> bool {
    exists|i: int| 0 <= i < keys.len() && (#[trigger] keys[i])@ == raw
}

/// A theme setting by value: `None` to follow the system, else the theme key.
pub open spec fn theme_choice(m: ThemeMode) -> Option<Seq<char>> {
    match m {
        ThemeMode::Automatic => None,
        ThemeMode::Named(k) => Some(k@),
    }
}

/// The theme setting a stored key names, if any.
pub open spec fn theme_from(raw: Seq<char>, catalog: ThemeCatalog) -> Option<Option<Seq<char>>> {
    if raw == "automatic"@ {
        Some(None)
    } else if raw == "light"@ {
        Some(Some(catalog.default_light_key@))
    } else if raw == "dark"@ {
        Some(Some(catalog.default_dark_key@))
    } else if catalog_has(catalog.keys@, raw) {
        Some(Some(raw))
    } else {
        None
    }
}

/// Whether `raw` is the key of a known theme.
fn catalog_contains(keys: &Vec<String>, raw: &str) -> (r: bool)
    ensures
        r == catalog_has(keys@, raw@),
{
    let mut i: usize = 0;
    while i < keys.len()
        invariant
            i <= keys@.len(),
            forall|j: int| 0 <= j < i ==> (#[trigger] keys@[j])@ != raw@,
        decreases keys.len() - i,
    {
        if str_eq(keys[i].as_str(), raw) {
            return true;
        }
        i = i + 1;
    }
    false
}

impl ThemeMode {
    /// The theme setting a stored key names: "automatic", the older "light"
    /// and "dark" (the catalog's default light and dark themes), or the key
    /// of a known theme.
    pub fn from_key(raw: &str, catalog: &ThemeCatalog) -> (r: Option<ThemeMode>)
        ensures
            match r {
                Some(m) => theme_from(raw@, *catalog) == Some(theme_choice(m)),
                None => theme_from(raw@, *catalog) is None,
            },
    {
        if str_eq(raw, "automatic") {
            Some(ThemeMode::Automatic)
        } else if str_eq(raw, "light") {
            Some(ThemeMode::Named(catalog.default_light_key.clone()))
        } else if str_eq(raw, "dark") {
            Some(ThemeMode::Named(catalog.default_dark_key.clone()))
        } else if catalog_contains(&catalog.keys, raw) {
            Some(ThemeMode::Named(owned(raw)))
        } else {
            None
        }
    }
}

/// The UI settings the settings window reads and writes, as stored: enums
/// by their keys, each entry absent until first written.
#[derive(Clone, Debug, PartialEq, Eq)]
pub struct StoredUiSettings {
    pub theme_mode: Option<String>,
    pub ui_scale_percent: Option<u32>,
    pub ui_font_family: Option<String>,
    pub editor_font_family: Option<String>,
    pub use_font_ligatures: Option<bool>,
    pub date_time_format: Option<String>,
    pub timezone: Option<String>,
    pub show_timezone: Option<bool>,
    pub change_tracking_view: Option<String>,
    pub diff_scroll_sync: Option<String>,
    pub diff_content_mode: Option<String>,
    pub diff_whitespace_mode: Option<String>,
    pub diff_view_mode: Option<String>,
    pub diff_reveal_whitespace_chars: Option<bool>,
    pub diff_word_wrap: Option<bool>,
    pub diff_show_line_numbers: Option<bool>,
    pub history_show_graph: Option<bool>,
    pub history_show_author: Option<bool>,
    pub history_show_date: Option<bool>,
    pub history_show_sha: Option<bool>,
    pub history_show_tags: Option<bool>,
    pub history_tag_fetch_mode: Option<GitLogTagFetchMode>,
    pub default_history_mode: Option<HistoryMode>,
    /// The Git executable: `Some(None)` for the one on `PATH`.
    pub git_executable_path: Option<Option<String>>,
}

/// A stored flag, or `fallback` when none is stored.
pub open spec fn flag_or(v: Option<bool>, fallback: bool) -> bool {
    match v {
        Some(b) => b,
        None => fallback,
    }
}

/// The value a stored key names, or `fallback` when none is stored or the
/// key names nothing.
pub open spec fn decoded_or<T>(v: Option<String>, decode: spec_fn(Seq<char>) -> Option<T>, fallback: T) -> T {
    match v {
        Some(s) => match decode(s@) {
            Some(x) => x,
            None => fallback,
        },
        None => fallback,
    }
}

/// The theme setting read from a stored key: automatic when none is stored
/// or the key names nothing.
pub open spec fn restored_theme(v: Option<String>, catalog: ThemeCatalog) -> Option<Seq<char>> {
    match v {
        Some(s) => match theme_from(s@, catalog) {
            Some(c) => c,
            None => None,
        },
        None => None,
    }
}

/// The timezone key read from a stored key: the stored one when it is a
/// known timezone, else the default timezone.
pub open spec fn restored_timezone(v: Option<String>, clock: ClockCatalog) -> Seq<char> {
    match v {
        Some(s) => if timezone_known(clock, s@) {
            s@
        } else {
            clock.default_timezone_key@
        },
        None => clock.default_timezone_key@,
    }
}

/// The custom path that the Git executable field starts with: the custom
/// executable's path, or nothing.
pub open spec fn initial_git_draft(preference: GitExecutablePreference) -> Seq<char> {
    match preference {
        GitExecutablePreference::Custom(p) => p@,
        GitExecutablePreference::SystemPath => Seq::empty(),
    }
}

/// The settings window as opened on `stored`: each preference read from its
/// entry, with the built-in default where the entry is absent or names
/// nothing; scale and fonts as given; the root page with no section open;
/// the Git executable choice from the runtime.
pub open spec fn restores(
    r: SettingsModel,
    stored: StoredUiSettings,
    catalog: ThemeCatalog,
    clock: ClockCatalog,
    runtime: GitRuntimeState,
    ui_scale_percent: u32,
    ui_font_family: Seq<char>,
    editor_font_family: Seq<char>,
    use_font_ligatures: bool,
    default_tag_fetch_mode: GitLogTagFetchMode,
    default_history_mode: HistoryMode,
) -> bool {
    &&& theme_choice(r.theme_mode) == restored_theme(stored.theme_mode, catalog)
    &&& r.ui_scale_percent == ui_scale_percent
    &&& r.ui_font_family@ == ui_font_family
    &&& r.editor_font_family@ == editor_font_family
    &&& r.use_font_ligatures == use_font_ligatures
    &&& r.date_time_format == decoded_or(
        stored.date_time_format,
        |s: Seq<char>| format_from(clock, s),
        DateTimeFormat::YmdHm,
    )
    &&& r.timezone.key@ == restored_timezone(stored.timezone, clock)
    &&& r.show_timezone == flag_or(stored.show_timezone, true)
    &&& r.change_tracking_view == decoded_or(
        stored.change_tracking_view,
        |s: Seq<char>| change_tracking_from(s),
        ChangeTrackingView::Combined,
    )
    &&& r.diff_scroll_sync == decoded_or(
        stored.diff_scroll_sync,
        |s: Seq<char>| scroll_sync_from(s),
        DiffScrollSync::Both,
    )
    &&& r.diff_content_mode == decoded_or(
        stored.diff_content_mode,
        |s: Seq<char>| content_mode_from(s),
        DiffContentMode::Full,
    )
    &&& r.diff_whitespace_mode == decoded_or(
        stored.diff_whitespace_mode,
        |s: Seq<char>| whitespace_mode_from(s),
        DiffWhitespaceMode::Show,
    )
    &&& r.diff_view_mode == decoded_or(
        stored.diff_view_mode,
        |s: Seq<char>| view_mode_from(s),
        DiffViewMode::Split,
    )
    &&& r.diff_reveal_whitespace_chars == flag_or(stored.diff_reveal_whitespace_chars, false)
    &&& r.diff_word_wrap == flag_or(stored.diff_word_wrap, false)
    &&& r.diff_show_line_numbers == flag_or(stored.diff_show_line_numbers, true)
    &&& r.history_show_graph == flag_or(stored.history_show_graph, true)
    &&& r.history_show_author == flag_or(stored.history_show_author, true)
    &&& r.history_show_date == flag_or(stored.history_show_date, true)
    &&& r.history_show_sha == flag_or(stored.history_show_sha, false)
    &&& r.history_show_tags == flag_or(stored.history_show_tags, true)
    &&& r.history_tag_fetch_mode == match stored.history_tag_fetch_mode {
        Some(m) => m,
        None => default_tag_fetch_mode,
    }
    &&& r.default_history_mode == match stored.default_history_mode {
        Some(m) => m,
        None => default_history_mode,
    }
    &&& r.current_view == SettingsView::Root
    &&& r.expanded_section is None
    &&& r.git_executable_mode == (if runtime.preference is SystemPath {
        GitExecutableMode::SystemPath
    } else {
        GitExecutableMode::Custom
    })
    &&& r.git_custom_path_draft@ == initial_git_draft(runtime.preference)
}

/// What the settings window writes for `m`: every preference it shows, enums
/// by their keys, and the Git executable the runtime applies.
pub open spec fn stores(
    s: StoredUiSettings,
    m: SettingsModel,
    clock: ClockCatalog,
    runtime: GitRuntimeState,
) -> bool {
    &&& s.theme_mode matches Some(k) && k@ == theme_key(m.theme_mode)
    &&& s.ui_scale_percent == Some(m.ui_scale_percent)
    &&& s.ui_font_family matches Some(f) && f@ == m.ui_font_family@
    &&& s.editor_font_family matches Some(f) && f@ == m.editor_font_family@
    &&& s.use_font_ligatures == Some(m.use_font_ligatures)
    &&& s.date_time_format matches Some(k) && k@ == format_key(clock, m.date_time_format)
    &&& s.timezone matches Some(k) && k@ == m.timezone.key@
    &&& s.show_timezone == Some(m.show_timezone)
    &&& s.change_tracking_view matches Some(k) && k@ == change_tracking_key(m.change_tracking_view)
    &&& s.diff_scroll_sync matches Some(k) && k@ == scroll_sync_key(m.diff_scroll_sync)
    &&& s.diff_content_mode matches Some(k) && k@ == content_mode_key(m.diff_content_mode)
    &&& s.diff_whitespace_mode matches Some(k) && k@ == whitespace_mode_key(m.diff_whitespace_mode)
    &&& s.diff_view_mode matches Some(k) && k@ == view_mode_key(m.diff_view_mode)
    &&& s.diff_reveal_whitespace_chars == Some(m.diff_reveal_whitespace_chars)
    &&& s.diff_word_wrap == Some(m.diff_word_wrap)
    &&& s.diff_show_line_numbers == Some(m.diff_show_line_numbers)
    &&& s.history_show_graph == Some(m.history_show_graph)
    &&& s.history_show_author == Some(m.history_show_author)
    &&& s.history_show_date == Some(m.history_show_date)
    &&& s.history_show_sha == Some(m.history_show_sha)
    &&& s.history_show_tags == Some(m.history_show_tags)
    &&& s.history_tag_fetch_mode == Some(m.history_tag_fetch_mode)
    &&& s.default_history_mode == Some(m.default_history_mode)
    &&& s.git_executable_path == Some(
        match runtime.preference {
            GitExecutablePreference::SystemPath => None,
            GitExecutablePreference::Custom(p) => Some(p),
        },
    )
}

/// A stored flag, or `fallback`.
fn flag_or_default(v: Option<bool>, fallback: bool) -> (r: bool)
    ensures
        r == flag_or(v, fallback),
{
    match v {
        Some(b) => b,
        None => fallback,
    }
}

impl SettingsModel {
    /// The settings window as it opens: preferences read from `stored`, the
    /// UI scale and fonts as the application currently uses them, and the
    /// Git executable choice from `runtime`. `default_tag_fetch_mode` and
    /// `default_history_mode` are the tag fetch setting and the history mode
    /// used when none is stored; the date and time layout defaults to
    /// year-month-day with hours and minutes, the timezone to the clock
    /// catalog's default.
    pub fn from_stored(
        stored: &StoredUiSettings,
        catalog: &ThemeCatalog,
        clock: &ClockCatalog,
        runtime: &GitRuntimeState,
        ui_scale_percent: u32,
        ui_font_family: String,
        editor_font_family: String,
        use_font_ligatures: bool,
        default_tag_fetch_mode: GitLogTagFetchMode,
        default_history_mode: HistoryMode,
    ) -> (r: SettingsModel)
        ensures
            restores(
                r,
                *stored,
                *catalog,
                *clock,
                *runtime,
                ui_scale_percent,
                ui_font_family@,
                editor_font_family@,
                use_font_ligatures,
                default_tag_fetch_mode,
                default_history_mode,
            ),
    {
        let theme_mode = match &stored.theme_mode {
            Some(raw) => match ThemeMode::from_key(raw.as_str(), catalog) {
                Some(m) => m,
                None => ThemeMode::Automatic,
            },
            None => ThemeMode::Automatic,
        };
        let date_time_format = match &stored.date_time_format {
            Some(raw) => match DateTimeFormat::from_key(raw.as_str(), clock) {
                Some(f) => f,
                None => DateTimeFormat::YmdHm,
            },
            None => DateTimeFormat::YmdHm,
        };
        let timezone = match &stored.timezone {
            Some(raw) => match Timezone::from_key(raw.as_str(), clock) {
                Some(t) => t,
                None => Timezone { key: clock.default_timezone_key.clone() },
            },
            None => Timezone { key: clock.default_timezone_key.clone() },
        };
        let change_tracking_view = match &stored.change_tracking_view {
            Some(raw) => match ChangeTrackingView::from_key(raw.as_str()) {
                Some(v) => v,
                None => ChangeTrackingView::Combined,
            },
            None => ChangeTrackingView::Combined,
        };
        let diff_scroll_sync = match &stored.diff_scroll_sync {
            Some(raw) => match DiffScrollSync::from_key(raw.as_str()) {
                Some(v) => v,
                None => DiffScrollSync::Both,
            },
            None => DiffScrollSync::Both,
        };
        let diff_content_mode = match &stored.diff_content_mode {
            Some(raw) => match DiffContentMode::from_key(raw.as_str()) {
                Some(v) => v,
                None => DiffContentMode::Full,
            },
            None => DiffContentMode::Full,
        };
        let diff_whitespace_mode = match &stored.diff_whitespace_mode {
            Some(raw) => match DiffWhitespaceMode::from_key(raw.as_str()) {
                Some(v) => v,
                None => DiffWhitespaceMode::Show,
            },
            None => DiffWhitespaceMode::Show,
        };
        let diff_view_mode = match &stored.diff_view_mode {
            Some(raw) => match DiffViewMode::from_key(raw.as_str()) {
                Some(v) => v,
                None => DiffViewMode::Split,
            },
            None => DiffViewMode::Split,
        };
        let history_tag_fetch_mode = match stored.history_tag_fetch_mode {
            Some(m) => m,
            None => default_tag_fetch_mode,
        };
        let default_history_mode = match stored.default_history_mode {
            Some(m) => m,
            None => default_history_mode,
        };
        let git_executable_mode = GitExecutableMode::from_preference(&runtime.preference);
        let git_custom_path_draft = match &runtime.preference {
            GitExecutablePreference::Custom(path) => path.clone(),
            GitExecutablePreference::SystemPath => String::new(),
        };
        SettingsModel {
            theme_mode,
            ui_scale_percent,
            ui_font_family,
            editor_font_family,
            use_font_ligatures,
            date_time_format,
            timezone,
            show_timezone: flag_or_default(stored.show_timezone, true),
            change_tracking_view,
            diff_content_mode,
            diff_whitespace_mode,
            diff_view_mode,
            diff_reveal_whitespace_chars: flag_or_default(stored.diff_reveal_whitespace_chars, false),
            diff_word_wrap: flag_or_default(stored.diff_word_wrap, false),
            diff_show_line_numbers: flag_or_default(stored.diff_show_line_numbers, true),
            diff_scroll_sync,
            history_show_graph: flag_or_default(stored.history_show_graph, true),
            history_show_author: flag_or_default(stored.history_show_author, true),
            history_show_date: flag_or_default(stored.history_show_date, true),
            history_show_sha: flag_or_default(stored.history_show_sha, false),
            history_show_tags: flag_or_default(stored.history_show_tags, true),
            history_tag_fetch_mode,
            default_history_mode,
            current_view: SettingsView::Root,
            git_executable_mode,
            git_custom_path_draft,
            expanded_section: None,
        }
    }

    /// The settings to store for the window's current preferences, with the
    /// Git executable that `runtime` applies; date and time layouts by the
    /// keys of `clock`.
    pub fn to_stored(&self, clock: &ClockCatalog, runtime: &GitRuntimeState) -> (r: StoredUiSettings)
        ensures
            stores(r, *self, *clock, *runtime),
    {
        StoredUiSettings {
            theme_mode: Some(owned(self.theme_mode.key())),
            ui_scale_percent: Some(self.ui_scale_percent),
            ui_font_family: Some(self.ui_font_family.clone()),
            editor_font_family: Some(self.editor_font_family.clone()),
            use_font_ligatures: Some(self.use_font_ligatures),
            date_time_format: Some(owned(self.date_time_format.key(clock))),
            timezone: Some(self.timezone.key.clone()),
            show_timezone: Some(self.show_timezone),
            change_tracking_view: Some(owned(self.change_tracking_view.key())),
            diff_scroll_sync: Some(owned(self.diff_scroll_sync.key())),
            diff_content_mode: Some(owned(self.diff_content_mode.key())),
            diff_whitespace_mode: Some(owned(self.diff_whitespace_mode.key())),
            diff_view_mode: Some(owned(self.diff_view_mode.key())),
            diff_reveal_whitespace_chars: Some(self.diff_reveal_whitespace_chars),
            diff_word_wrap: Some(self.diff_word_wrap),
            diff_show_line_numbers: Some(self.diff_show_line_numbers),
            history_show_graph: Some(self.history_show_graph),
            history_show_author: Some(self.history_show_author),
            history_show_date: Some(self.history_show_date),
            history_show_sha: Some(self.history_show_sha),
            history_show_tags: Some(self.history_show_tags),
            history_tag_fetch_mode: Some(self.history_tag_fetch_mode),
            default_history_mode: Some(self.default_history_mode),
            git_executable_path: Some(applied_git_executable_path(runtime)),
        }
    }
}

/// Whether a theme setting is read back from its own key: the automatic
/// setting always is; a named one when the theme is known and its key is
/// none of the words "automatic", "light" and "dark", which stand for
/// other settings.
pub open spec fn theme_round_trips(m: ThemeMode, catalog: ThemeCatalog) -> bool {
    match m {
        ThemeMode::Automatic => true,
        ThemeMode::Named(k) => {
            &&& catalog_has(catalog.keys@, k@)
            &&& k@ != "automatic"@
            &&& k@ != "light"@
            &&& k@ != "dark"@
        },
    }
}

/// Whether two settings windows hold the same stored preferences.
pub open spec fn same_preferences(a: SettingsModel, b: SettingsModel) -> bool {
    &&& theme_choice(a.theme_mode) == theme_choice(b.theme_mode)
    &&& a.ui_scale_percent == b.ui_scale_percent
    &&& a.ui_font_family@ == b.ui_font_family@
    &&& a.editor_font_family@ == b.editor_font_family@
    &&& a.use_font_ligatures == b.use_font_ligatures
    &&& a.date_time_format == b.date_time_format
    &&& a.timezone.key@ == b.timezone.key@
    &&& a.show_timezone == b.show_timezone
    &&& a.change_tracking_view == b.change_tracking_view
    &&& a.diff_scroll_sync == b.diff_scroll_sync
    &&& a.diff_content_mode == b.diff_content_mode
    &&& a.diff_whitespace_mode == b.diff_whitespace_mode
    &&& a.diff_view_mode == b.diff_view_mode
    &&& a.diff_reveal_whitespace_chars == b.diff_reveal_whitespace_chars
    &&& a.diff_word_wrap == b.diff_word_wrap
    &&& a.diff_show_line_numbers == b.diff_show_line_numbers
    &&& a.history_show_graph == b.history_show_graph
    &&& a.history_show_author == b.history_show_author
    &&& a.history_show_date == b.history_show_date
    &&& a.history_show_sha == b.history_show_sha
    &&& a.history_show_tags == b.history_show_tags
    &&& a.history_tag_fetch_mode == b.history_tag_fetch_mode
    &&& a.default_history_mode == b.default_history_mode
}

/// The settings window opened on what it stored, with the same scale, fonts
/// and Git runtime, shows every preference it stored, on the root page with
/// no section open; the theme setting comes back whenever it round-trips
/// through its key, the date and time layout whenever the four layouts have
/// four keys, and the timezone whenever it is a known one.
pub proof fn lemma_restore_after_persist(
    m: SettingsModel,
    stored: StoredUiSettings,
    r: SettingsModel,
    catalog: ThemeCatalog,
    clock: ClockCatalog,
    runtime: GitRuntimeState,
    default_tag_fetch_mode: GitLogTagFetchMode,
    default_history_mode: HistoryMode,
)
    requires
        stores(stored, m, clock, runtime),
        restores(
            r,
            stored,
            catalog,
            clock,
            runtime,
            m.ui_scale_percent,
            m.ui_font_family@,
            m.editor_font_family@,
            m.use_font_ligatures,
            default_tag_fetch_mode,
            default_history_mode,
        ),
        theme_round_trips(m.theme_mode, catalog),
        format_keys_distinct(clock),
        timezone_known(clock, m.timezone.key@),
    ensures
        same_preferences(r, m),
        r.current_view == SettingsView::Root,
        r.expanded_section is None,
{
    lemma_setting_keys_round_trip(
        m.change_tracking_view,
        m.diff_scroll_sync,
        m.diff_content_mode,
        m.diff_whitespace_mode,
    );
    lemma_view_mode_key_round_trip(m.diff_view_mode);
}

} // verus!
