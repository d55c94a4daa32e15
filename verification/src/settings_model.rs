//! The state behind the settings window: which page and section are open,
//! the chosen preferences, and the Git executable choice. Each change
//! reports whether anything changed, so that the window stores the
//! preferences and tells the main windows only then.
use vstd::prelude::*;
use crate::diff_view::DiffViewMode;
use crate::git_runtime::{GitExecutableMode, GitExecutablePreference, GitRuntimeState};
use crate::settings::{
    ChangeTrackingView, DateTimeFormat, DiffContentMode, DiffScrollSync, DiffWhitespaceMode,
    GitLogTagFetchMode, HistoryMode, ThemeMode, Timezone,
};
use crate::text::{owned, str_eq, trim, trim_spec};

verus! {

/// A collapsible section of the settings window.
#[derive(Clone, Copy, Debug, PartialEq, Eq, Structural)]
pub enum SettingsSection {
    Theme,
    UiScale,
    UiFont,
    EditorFont,
    DateFormat,
    Timezone,
    ChangeTracking,
    DiffContentMode,
    Diff,
    DiffViewMode,
    GitLogDefaultMode,
    GitLogColumns,
    GitLogTagFetch,
}

/// The page the settings window shows.
#[derive(Clone, Copy, Debug, PartialEq, Eq, Structural)]
pub enum SettingsView {
    Root,
    OpenSourceLicenses,
}

/// The settings window's state.
pub struct SettingsModel {
    pub theme_mode: ThemeMode,
    pub ui_scale_percent: u32,
    pub ui_font_family: String,
    pub editor_font_family: String,
    pub use_font_ligatures: bool,
    pub date_time_format: DateTimeFormat,
    pub timezone: Timezone,
    pub show_timezone: bool,
    pub change_tracking_view: ChangeTrackingView,
    pub diff_content_mode: DiffContentMode,
    pub diff_whitespace_mode: DiffWhitespaceMode,
    pub diff_view_mode: DiffViewMode,
    pub diff_reveal_whitespace_chars: bool,
    pub diff_word_wrap: bool,
    pub diff_show_line_numbers: bool,
    pub diff_scroll_sync: DiffScrollSync,
    pub history_show_graph: bool,
    pub history_show_author: bool,
    pub history_show_date: bool,
    pub history_show_sha: bool,
    pub history_show_tags: bool,
    pub history_tag_fetch_mode: GitLogTagFetchMode,
    pub default_history_mode: HistoryMode,
    pub current_view: SettingsView,
    pub git_executable_mode: GitExecutableMode,
    pub git_custom_path_draft: String,
    pub expanded_section: Option<SettingsSection>,
}

/// Whether two theme settings are the same.
pub open spec fn same_theme(a: ThemeMode, b: ThemeMode) -> bool {
    match (a, b) {
        (ThemeMode::Automatic, ThemeMode::Automatic) => true,
        (ThemeMode::Named(x), ThemeMode::Named(y)) => x@ == y@,
        _ => false,
    }
}

impl SettingsModel {
    /// Opens `section`, or closes it when it is the open one.
    pub fn toggle_section(&mut self, section: SettingsSection)
        ensures
            *final(self) == (SettingsModel {
                expanded_section: if old(self).expanded_section == Some(section) {
                    None
                } else {
                    Some(section)
                },
                ..*old(self)
            }),
    {
        self.expanded_section = if self.expanded_section == Some(section) {
            None
        } else {
            Some(section)
        };
    }

    /// Shows the main page; returns whether the page changed.
    pub fn show_root(&mut self) -> (changed: bool)
        ensures
            changed == (old(self).current_view != SettingsView::Root),
            *final(self) == (SettingsModel { current_view: SettingsView::Root, ..*old(self) }),
    {
        if self.current_view == SettingsView::Root {
            return false;
        }
        self.current_view = SettingsView::Root;
        true
    }

    /// Shows the open source licenses, closing any open section; returns
    /// whether the page changed.
    pub fn show_open_source_licenses(&mut self) -> (changed: bool)
        ensures
            changed == (old(self).current_view != SettingsView::OpenSourceLicenses),
            !changed ==> *final(self) == *old(self),
            changed ==> *final(self) == (SettingsModel {
                current_view: SettingsView::OpenSourceLicenses,
                expanded_section: None,
                ..*old(self)
            }),
    {
        if self.current_view == SettingsView::OpenSourceLicenses {
            return false;
        }
        self.current_view = SettingsView::OpenSourceLicenses;
        self.expanded_section = None;
        true
    }

    /// The Git executable to install: none for the system one, else the
    /// custom path as typed without surrounding whitespace (possibly empty).
    pub fn selected_git_executable_path(&self) -> (r: Option<String>)
        ensures
            match self.git_executable_mode {
                GitExecutableMode::SystemPath => r is None,
                GitExecutableMode::Custom => r matches Some(p) && p@ == trim_spec(
                    self.git_custom_path_draft@,
                ),
            },
    {
        match self.git_executable_mode {
            GitExecutableMode::SystemPath => None,
            GitExecutableMode::Custom => Some(trim(self.git_custom_path_draft.as_str())),
        }
    }

    /// Takes over a new Git runtime state: the mode follows its preference,
    /// and a custom path replaces the draft. Returns whether the draft changed
    /// (the text field then shows the new draft).
    pub fn sync_git_runtime_state(&mut self, runtime: &GitRuntimeState) -> (draft_changed: bool)
        ensures
            final(self).git_executable_mode == (if runtime.preference is SystemPath {
                GitExecutableMode::SystemPath
            } else {
                GitExecutableMode::Custom
            }),
            match runtime.preference {
                GitExecutablePreference::Custom(p) => {
                    &&& final(self).git_custom_path_draft@ == p@
                    &&& draft_changed == (old(self).git_custom_path_draft@ != p@)
                },
                GitExecutablePreference::SystemPath => {
                    &&& final(self).git_custom_path_draft == old(self).git_custom_path_draft
                    &&& !draft_changed
                },
            },
            *final(self) == (SettingsModel {
                git_executable_mode: final(self).git_executable_mode,
                git_custom_path_draft: final(self).git_custom_path_draft,
                ..*old(self)
            }),
    {
        self.git_executable_mode = GitExecutableMode::from_preference(&runtime.preference);
        match &runtime.preference {
            GitExecutablePreference::Custom(path) => {
                if !str_eq(self.git_custom_path_draft.as_str(), path.as_str()) {
                    self.git_custom_path_draft = owned(path.as_str());
                    true
                } else {
                    false
                }
            },
            GitExecutablePreference::SystemPath => false,
        }
    }

    /// Chooses the date and time layout; returns whether it changed (the
    /// open section then closes).
    pub fn set_date_time_format(&mut self, format: DateTimeFormat) -> (changed: bool)
        ensures
            changed == (old(self).date_time_format != format),
            !changed ==> *final(self) == *old(self),
            changed ==> *final(self) == (SettingsModel {
                date_time_format: format,
                expanded_section: None,
                ..*old(self)
            }),
    {
        if self.date_time_format == format {
            return false;
        }
        self.date_time_format = format;
        self.expanded_section = None;
        true
    }

    /// Chooses the timezone; returns whether it changed (the open section
    /// then closes).
    pub fn set_timezone(&mut self, timezone: Timezone) -> (changed: bool)
        ensures
            changed == (old(self).timezone.key@ != timezone.key@),
            !changed ==> *final(self) == *old(self),
            changed ==> *final(self) == (SettingsModel {
                timezone: timezone,
                expanded_section: None,
                ..*old(self)
            }),
    {
        if str_eq(self.timezone.key.as_str(), timezone.key.as_str()) {
            return false;
        }
        self.timezone = timezone;
        self.expanded_section = None;
        true
    }

    /// Chooses the mode a history opens in; returns whether it changed (the
    /// open section then closes).
    pub fn set_default_history_mode(&mut self, mode: HistoryMode) -> (changed: bool)
        ensures
            changed == (old(self).default_history_mode != mode),
            !changed ==> *final(self) == *old(self),
            changed ==> *final(self) == (SettingsModel {
                default_history_mode: mode,
                expanded_section: None,
                ..*old(self)
            }),
    {
        if self.default_history_mode == mode {
            return false;
        }
        self.default_history_mode = mode;
        self.expanded_section = None;
        true
    }

    /// Chooses the Git executable mode; returns whether it changed (the
    /// chosen executable is then installed).
    pub fn set_git_executable_mode(&mut self, mode: GitExecutableMode) -> (changed: bool)
        ensures
            changed == (old(self).git_executable_mode != mode),
            *final(self) == (SettingsModel { git_executable_mode: mode, ..*old(self) }),
    {
        if self.git_executable_mode == mode {
            return false;
        }
        self.git_executable_mode = mode;
        true
    }

    /// Chooses a theme, closing any open section; returns whether it changed.
    pub fn set_theme_mode(&mut self, mode: ThemeMode) -> (changed: bool)
        ensures
            changed == !same_theme(old(self).theme_mode, mode),
            !changed ==> *final(self) == *old(self),
            changed ==> *final(self) == (SettingsModel {
                theme_mode: mode,
                expanded_section: None,
                ..*old(self)
            }),
    {
        let same = match (&self.theme_mode, &mode) {
            (ThemeMode::Automatic, ThemeMode::Automatic) => true,
            (ThemeMode::Named(a), ThemeMode::Named(b)) => str_eq(a.as_str(), b.as_str()),
            _ => false,
        };
        if same {
            return false;
        }
        self.theme_mode = mode;
        self.expanded_section = None;
        true
    }

    /// Chooses the interface scale, as already made valid; closes any open
    /// section and returns whether it changed.
    pub fn set_ui_scale_percent(&mut self, percent: u32) -> (changed: bool)
        ensures
            changed == (old(self).ui_scale_percent != percent),
            !changed ==> *final(self) == *old(self),
            changed ==> *final(self) == (SettingsModel {
                ui_scale_percent: percent,
                expanded_section: None,
                ..*old(self)
            }),
    {
        if self.ui_scale_percent == percent {
            return false;
        }
        self.ui_scale_percent = percent;
        self.expanded_section = None;
        true
    }

    /// Chooses the interface font, closing any open section; returns whether it changed.
    pub fn set_ui_font_family(&mut self, family: String) -> (changed: bool)
        ensures
            changed == (old(self).ui_font_family@ != family@),
            !changed ==> *final(self) == *old(self),
            changed ==> *final(self) == (SettingsModel {
                ui_font_family: family,
                expanded_section: None,
                ..*old(self)
            }),
    {
        if str_eq(self.ui_font_family.as_str(), family.as_str()) {
            return false;
        }
        self.ui_font_family = family;
        self.expanded_section = None;
        true
    }

    /// Chooses the editor font, closing any open section; returns whether it changed.
    pub fn set_editor_font_family(&mut self, family: String) -> (changed: bool)
        ensures
            changed == (old(self).editor_font_family@ != family@),
            !changed ==> *final(self) == *old(self),
            changed ==> *final(self) == (SettingsModel {
                editor_font_family: family,
                expanded_section: None,
                ..*old(self)
            }),
    {
        if str_eq(self.editor_font_family.as_str(), family.as_str()) {
            return false;
        }
        self.editor_font_family = family;
        self.expanded_section = None;
        true
    }

    /// Turns font ligatures on or off; returns whether that changed.
    pub fn set_use_font_ligatures(&mut self, enabled: bool) -> (changed: bool)
        ensures
            changed == (old(self).use_font_ligatures != enabled),
            *final(self) == (SettingsModel { use_font_ligatures: enabled, ..*old(self) }),
    {
        if self.use_font_ligatures == enabled {
            return false;
        }
        self.use_font_ligatures = enabled;
        true
    }

    /// Shows or hides the time zone next to dates; returns whether that changed.
    pub fn set_show_timezone(&mut self, enabled: bool) -> (changed: bool)
        ensures
            changed == (old(self).show_timezone != enabled),
            *final(self) == (SettingsModel { show_timezone: enabled, ..*old(self) }),
    {
        if self.show_timezone == enabled {
            return false;
        }
        self.show_timezone = enabled;
        true
    }

    /// Chooses where untracked files are listed, closing any open section;
    /// returns whether it changed.
    pub fn set_change_tracking_view(&mut self, next: ChangeTrackingView) -> (changed: bool)
        ensures
            changed == (old(self).change_tracking_view != next),
            !changed ==> *final(self) == *old(self),
            changed ==> *final(self) == (SettingsModel {
                change_tracking_view: next,
                expanded_section: None,
                ..*old(self)
            }),
    {
        if self.change_tracking_view == next {
            return false;
        }
        self.change_tracking_view = next;
        self.expanded_section = None;
        true
    }

    /// Chooses which panes scroll together, closing any open section;
    /// returns whether it changed.
    pub fn set_diff_scroll_sync(&mut self, next: DiffScrollSync) -> (changed: bool)
        ensures
            changed == (old(self).diff_scroll_sync != next),
            !changed ==> *final(self) == *old(self),
            changed ==> *final(self) == (SettingsModel {
                diff_scroll_sync: next,
                expanded_section: None,
                ..*old(self)
            }),
    {
        if self.diff_scroll_sync == next {
            return false;
        }
        self.diff_scroll_sync = next;
        self.expanded_section = None;
        true
    }

    /// Chooses whole-file or collapsed diffs, closing any open section;
    /// returns whether it changed.
    pub fn set_diff_content_mode(&mut self, next: DiffContentMode) -> (changed: bool)
        ensures
            changed == (old(self).diff_content_mode != next),
            !changed ==> *final(self) == *old(self),
            changed ==> *final(self) == (SettingsModel {
                diff_content_mode: next,
                expanded_section: None,
                ..*old(self)
            }),
    {
        if self.diff_content_mode == next {
            return false;
        }
        self.diff_content_mode = next;
        self.expanded_section = None;
        true
    }

    /// Shows or ignores whitespace changes; returns whether that changed.
    pub fn set_diff_whitespace_mode(&mut self, next: DiffWhitespaceMode) -> (changed: bool)
        ensures
            changed == (old(self).diff_whitespace_mode != next),
            *final(self) == (SettingsModel { diff_whitespace_mode: next, ..*old(self) }),
    {
        if self.diff_whitespace_mode == next {
            return false;
        }
        self.diff_whitespace_mode = next;
        true
    }

    /// Chooses inline or split diffs, closing any open section; returns
    /// whether it changed.
    pub fn set_diff_view_mode(&mut self, next: DiffViewMode) -> (changed: bool)
        ensures
            changed == (old(self).diff_view_mode != next),
            !changed ==> *final(self) == *old(self),
            changed ==> *final(self) == (SettingsModel {
                diff_view_mode: next,
                expanded_section: None,
                ..*old(self)
            }),
    {
        if self.diff_view_mode == next {
            return false;
        }
        self.diff_view_mode = next;
        self.expanded_section = None;
        true
    }

    /// Shows or hides whitespace characters; returns whether that changed.
    pub fn set_diff_reveal_whitespace_chars(&mut self, next: bool) -> (changed: bool)
        ensures
            changed == (old(self).diff_reveal_whitespace_chars != next),
            *final(self) == (SettingsModel { diff_reveal_whitespace_chars: next, ..*old(self) }),
    {
        if self.diff_reveal_whitespace_chars == next {
            return false;
        }
        self.diff_reveal_whitespace_chars = next;
        true
    }

    /// Turns word wrap on or off; returns whether that changed.
    pub fn set_diff_word_wrap(&mut self, next: bool) -> (changed: bool)
        ensures
            changed == (old(self).diff_word_wrap != next),
            *final(self) == (SettingsModel { diff_word_wrap: next, ..*old(self) }),
    {
        if self.diff_word_wrap == next {
            return false;
        }
        self.diff_word_wrap = next;
        true
    }

    /// Shows or hides line numbers; returns whether that changed.
    pub fn set_diff_show_line_numbers(&mut self, next: bool) -> (changed: bool)
        ensures
            changed == (old(self).diff_show_line_numbers != next),
            *final(self) == (SettingsModel { diff_show_line_numbers: next, ..*old(self) }),
    {
        if self.diff_show_line_numbers == next {
            return false;
        }
        self.diff_show_line_numbers = next;
        true
    }

    /// Chooses the history columns; returns whether any changed.
    pub fn set_history_column_preferences(
        &mut self,
        show_graph: bool,
        show_author: bool,
        show_date: bool,
        show_sha: bool,
    ) -> (changed: bool)
        ensures
            changed == !(old(self).history_show_graph == show_graph
                && old(self).history_show_author == show_author && old(self).history_show_date
                == show_date && old(self).history_show_sha == show_sha),
            *final(self) == (SettingsModel {
                history_show_graph: show_graph,
                history_show_author: show_author,
                history_show_date: show_date,
                history_show_sha: show_sha,
                ..*old(self)
            }),
    {
        if self.history_show_graph == show_graph && self.history_show_author == show_author
            && self.history_show_date == show_date && self.history_show_sha == show_sha {
            return false;
        }
        self.history_show_graph = show_graph;
        self.history_show_author = show_author;
        self.history_show_date = show_date;
        self.history_show_sha = show_sha;
        true
    }

    /// Shows or hides tags in the history; hiding them closes the tag fetch
    /// section if it is open. Returns whether the setting changed.
    pub fn set_history_show_tags(&mut self, enabled: bool) -> (changed: bool)
        ensures
            changed == (old(self).history_show_tags != enabled),
            !changed ==> *final(self) == *old(self),
            changed ==> *final(self) == (SettingsModel {
                history_show_tags: enabled,
                expanded_section: if !enabled && old(self).expanded_section == Some(
                    SettingsSection::GitLogTagFetch,
                ) {
                    None
                } else {
                    old(self).expanded_section
                },
                ..*old(self)
            }),
    {
        if self.history_show_tags == enabled {
            return false;
        }
        self.history_show_tags = enabled;
        if !enabled && self.expanded_section == Some(SettingsSection::GitLogTagFetch) {
            self.expanded_section = None;
        }
        true
    }

    /// Chooses when tags are fetched, closing any open section; returns
    /// whether it changed.
    pub fn set_history_tag_fetch_mode(&mut self, mode: GitLogTagFetchMode) -> (changed: bool)
        ensures
            changed == (old(self).history_tag_fetch_mode != mode),
            !changed ==> *final(self) == *old(self),
            changed ==> *final(self) == (SettingsModel {
                history_tag_fetch_mode: mode,
                expanded_section: None,
                ..*old(self)
            }),
    {
        if self.history_tag_fetch_mode == mode {
            return false;
        }
        self.history_tag_fetch_mode = mode;
        self.expanded_section = None;
        true
    }
}

/// Setting a diff view mode twice in a row changes nothing the second time,
/// and a change touches no other preference.
pub proof fn lemma_set_twice_is_quiet(s0: SettingsModel, s1: SettingsModel, s2: SettingsModel, next: DiffViewMode, c1: bool, c2: bool)
    requires
        c1 == (s0.diff_view_mode != next),
        !c1 ==> s1 == s0,
        c1 ==> s1 == (SettingsModel { diff_view_mode: next, expanded_section: None, ..s0 }),
        c2 == (s1.diff_view_mode != next),
        !c2 ==> s2 == s1,
        c2 ==> s2 == (SettingsModel { diff_view_mode: next, expanded_section: None, ..s1 }),
    ensures
        !c2,
        s2 == s1,
        s2.diff_view_mode == next,
        s2.theme_mode == s0.theme_mode,
        s2.diff_scroll_sync == s0.diff_scroll_sync,
{
}

/// The update status that the settings window shows, as the main window
/// last reported it.
pub struct SettingsUpdateStatus {
    pub status_line: String,
    pub update_available: bool,
    pub update_check_in_progress: bool,
}

impl SettingsUpdateStatus {
    /// The status before any check: "Check for updates to see status.".
    pub fn new() -> (r: Self)
        ensures
            r.status_line@ == "Check for updates to see status."@,
            !r.update_available,
            !r.update_check_in_progress,
    {
        SettingsUpdateStatus {
            status_line: owned("Check for updates to see status."),
            update_available: false,
            update_check_in_progress: false,
        }
    }

    /// Takes over the main window's update status; returns whether any part
    /// of it changed (the window is then redrawn).
    pub fn set_update_settings_state(
        &mut self,
        status_line: String,
        update_available: bool,
        update_check_in_progress: bool,
    ) -> (changed: bool)
        ensures
            changed == (old(self).status_line@ != status_line@ || old(self).update_available
                != update_available || old(self).update_check_in_progress
                != update_check_in_progress),
            changed ==> final(self).status_line@ == status_line@,
            changed ==> final(self).update_available == update_available,
            changed ==> final(self).update_check_in_progress == update_check_in_progress,
            !changed ==> *final(self) == *old(self),
    {
        let changed = !str_eq(self.status_line.as_str(), status_line.as_str())
            || self.update_available != update_available || self.update_check_in_progress
            != update_check_in_progress;
        if !changed {
            return false;
        }
        self.status_line = status_line;
        self.update_available = update_available;
        self.update_check_in_progress = update_check_in_progress;
        true
    }

    /// A check started from the settings window: shown as in progress,
    /// "Checking for updates…", until the main window reports back.
    pub fn check_for_updates_from_settings(&mut self)
        ensures
            final(self).update_check_in_progress,
            final(self).status_line@ == "Checking for updates\u{2026}"@,
            final(self).update_available == old(self).update_available,
    {
        self.update_check_in_progress = true;
        self.status_line = owned("Checking for updates\u{2026}");
    }
}

} // verus!
