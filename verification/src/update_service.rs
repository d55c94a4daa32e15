//! The update workflow as a state machine: checking, offering, downloading
//! and applying an update, with the status line and badge it shows.
use vstd::prelude::*;
use crate::text::{owned, push_str};
use crate::toast::{ToastAction, ToastKind};
use crate::update_check::UpdateNotice;
use crate::view_config::GitCometViewMode;

verus! {

/// How long "Later" postpones the update prompt, in seconds.
pub const UPDATE_POSTPONE_SECONDS: u64 = 86400;

/// Where the update workflow stands.
#[derive(Clone, Debug, PartialEq, Eq)]
pub enum UpdatePhase {
    Idle,
    Checking,
    UpToDate,
    Available,
    Downloading { version: String },
    Applying,
    Failed(String),
}

/// State of the update workflow of one main window.
pub struct UpdateState {
    pub phase: UpdatePhase,
    pub available_update: Option<UpdateNotice>,
    pub update_in_progress: bool,
    pub status_line: String,
}

/// A toast the workflow asks to show.
pub struct UpdateToast {
    pub kind: ToastKind,
    pub message: String,
}

/// What the host does after a finished update check.
pub enum CheckResultEffect {
    /// Nothing beyond refreshing the status.
    Quiet,
    /// Tell the user they are up to date.
    UpToDateToast(UpdateToast),
    /// Offer the update.
    PromptUpdate(UpdateNotice),
}

/// What asking to see the update prompt leads to.
pub enum PromptRequest {
    /// No update is known yet: check now, as a manual check.
    CheckNow,
    /// Offer the known update.
    Prompt(UpdateNotice),
    /// A check or download is under way: nothing to do.
    Nothing,
}

/// What starting an upgrade from a notice leads to.
pub enum UpgradeStart {
    /// No package for this platform: warn with this message.
    NoPackage(UpdateToast),
    /// Download `url` for version `version`.
    Download { url: String, version: String },
}

/// Update checks run only in a normal main window and only when the
/// environment does not switch them off.
pub fn update_checks_enabled(view_mode: GitCometViewMode, disable_env_present: bool) -> (r: bool)
    ensures
        r == (view_mode == GitCometViewMode::Normal && !disable_env_present),
{
    match view_mode {
        GitCometViewMode::Normal => !disable_env_present,
        GitCometViewMode::FocusedMergetool => false,
    }
}

/// The status line text for a phase, and whether an update is on offer.
/// `dismissed` says whether the offered version was skipped by the user.
pub open spec fn status_for(phase: UpdatePhase, available: Option<UpdateNotice>, dismissed: bool) -> (
    Seq<char>,
    bool,
) {
    match phase {
        UpdatePhase::Idle => ("Check for updates to see status."@, false),
        UpdatePhase::Checking => ("Checking for updates\u{2026}"@, false),
        UpdatePhase::UpToDate => ("You're up to date."@, false),
        UpdatePhase::Available => match available {
            None => ("Update available"@, false),
            Some(n) => if dismissed {
                ("You're up to date."@, false)
            } else {
                ("v"@ + n.latest_version@ + " available"@, true)
            },
        },
        UpdatePhase::Downloading { version } => (
            "Downloading v"@ + version@ + "\u{2026}"@,
            false,
        ),
        UpdatePhase::Applying => ("Applying update\u{2026}"@, false),
        UpdatePhase::Failed(message) => (message@, false),
    }
}

/// The toolbar badge shows while an update that was not skipped is on offer.
pub open spec fn badge_for(phase: UpdatePhase, available: Option<UpdateNotice>, dismissed: bool) -> bool {
    phase is Available && available is Some && !dismissed
}

/// A copy of a string.
fn dup(s: &String) -> (r: String)
    ensures
        r == *s,
{
    s.clone()
}

/// A copy of an update notice.
pub fn duplicate_notice(n: &UpdateNotice) -> (r: UpdateNotice)
    ensures
        r == *n,
{
    UpdateNotice {
        latest_version: dup(&n.latest_version),
        current_version: dup(&n.current_version),
        releases_url: dup(&n.releases_url),
        download_url: match &n.download_url {
            Some(u) => Some(dup(u)),
            None => None,
        },
    }
}

/// The message of the toast that offers an update.
pub open spec fn update_prompt_message(n: UpdateNotice) -> Seq<char> {
    "A newer GitComet version is available: "@ + n.latest_version@ + " (current "@
        + n.current_version@ + ")."@
}

impl UpdateState {
    /// A workflow that has not checked yet.
    pub fn new() -> (r: Self)
        ensures
            r.phase == UpdatePhase::Idle,
            r.available_update is None,
            !r.update_in_progress,
            r.status_line@ == status_for(UpdatePhase::Idle, None, false).0,
    {
        UpdateState {
            phase: UpdatePhase::Idle,
            available_update: None,
            update_in_progress: false,
            status_line: owned("Check for updates to see status."),
        }
    }

    /// Status line and "update available" flag for the settings window.
    pub fn update_status_for_settings(&self, dismissed: bool) -> (r: (String, bool))
        ensures
            (r.0@, r.1) == status_for(self.phase, self.available_update, dismissed),
    {
        match &self.phase {
            UpdatePhase::Idle => (owned("Check for updates to see status."), false),
            UpdatePhase::Checking => (owned("Checking for updates\u{2026}"), false),
            UpdatePhase::UpToDate => (owned("You're up to date."), false),
            UpdatePhase::Available => match &self.available_update {
                None => (owned("Update available"), false),
                Some(n) => {
                    if dismissed {
                        (owned("You're up to date."), false)
                    } else {
                        let mut s = owned("v");
                        push_str(&mut s, n.latest_version.as_str());
                        push_str(&mut s, " available");
                        (s, true)
                    }
                },
            },
            UpdatePhase::Downloading { version } => {
                let mut s = owned("Downloading v");
                push_str(&mut s, version.as_str());
                push_str(&mut s, "\u{2026}");
                (s, false)
            },
            UpdatePhase::Applying => (owned("Applying update\u{2026}"), false),
            UpdatePhase::Failed(message) => (dup(message), false),
        }
    }

    /// Refreshes the status line from the phase.
    pub fn sync_update_status_line(&mut self, dismissed: bool)
        ensures
            final(self).status_line@ == status_for(old(self).phase, old(self).available_update, dismissed).0,
            final(self).phase == old(self).phase,
            final(self).available_update == old(self).available_update,
            final(self).update_in_progress == old(self).update_in_progress,
    {
        let (line, _) = self.update_status_for_settings(dismissed);
        self.status_line = line;
    }

    /// Whether the toolbar badge shows.
    pub fn should_show_update_badge(&self, dismissed: bool) -> (r: bool)
        ensures
            r == badge_for(self.phase, self.available_update, dismissed),
    {
        match self.phase {
            UpdatePhase::Available => self.available_update.is_some() && !dismissed,
            _ => false,
        }
    }

    /// Starts a check. When checks are disabled nothing starts, and a manual
    /// request records why. Returns whether a check was started.
    pub fn check_for_updates(&mut self, manual: bool, checks_enabled: bool) -> (r: bool)
        ensures
            r == checks_enabled,
            checks_enabled ==> final(self).phase == UpdatePhase::Checking,
            !checks_enabled && manual ==> (final(self).phase matches UpdatePhase::Failed(m) && m@
                == "Update checks are disabled for this session."@),
            !checks_enabled && !manual ==> final(self).phase == old(self).phase,
            final(self).available_update == old(self).available_update,
            final(self).update_in_progress == old(self).update_in_progress,
            final(self).status_line@ == status_for(final(self).phase, final(self).available_update, false).0
                || (!checks_enabled && !manual && final(self).status_line == old(self).status_line),
    {
        if !checks_enabled {
            if manual {
                self.phase = UpdatePhase::Failed(owned("Update checks are disabled for this session."));
                self.sync_update_status_line(false);
            }
            return false;
        }
        self.phase = UpdatePhase::Checking;
        self.sync_update_status_line(false);
        true
    }

    /// Records the result of a check. `should_prompt` says whether the user
    /// has not postponed or skipped the found version.
    pub fn handle_update_check_result(
        &mut self,
        notice: Option<UpdateNotice>,
        manual: bool,
        should_prompt: bool,
        dismissed: bool,
    ) -> (r: CheckResultEffect)
        ensures
            match notice {
                None => {
                    &&& final(self).phase == if manual {
                        UpdatePhase::UpToDate
                    } else {
                        UpdatePhase::Idle
                    }
                    &&& manual ==> final(self).available_update is None
                    &&& !manual ==> final(self).available_update == old(self).available_update
                    &&& match r {
                        CheckResultEffect::UpToDateToast(t) => manual && t.kind == ToastKind::Success
                            && t.message@ == "You're up to date."@,
                        CheckResultEffect::Quiet => !manual,
                        CheckResultEffect::PromptUpdate(_) => false,
                    }
                },
                Some(n) => {
                    &&& final(self).phase == UpdatePhase::Available
                    &&& final(self).available_update == Some(n)
                    &&& match r {
                        CheckResultEffect::PromptUpdate(p) => (manual || should_prompt) && p == n,
                        CheckResultEffect::Quiet => !(manual || should_prompt),
                        CheckResultEffect::UpToDateToast(_) => false,
                    }
                },
            },
            final(self).update_in_progress == old(self).update_in_progress,
            final(self).status_line@ == status_for(
                final(self).phase,
                final(self).available_update,
                dismissed,
            ).0,
    {
        match notice {
            None => {
                let effect = if manual {
                    self.phase = UpdatePhase::UpToDate;
                    self.available_update = None;
                    CheckResultEffect::UpToDateToast(
                        UpdateToast { kind: ToastKind::Success, message: owned("You're up to date.") },
                    )
                } else {
                    self.phase = UpdatePhase::Idle;
                    CheckResultEffect::Quiet
                };
                self.sync_update_status_line(dismissed);
                effect
            },
            Some(n) => {
                let copy = duplicate_notice(&n);
                self.available_update = Some(n);
                self.phase = UpdatePhase::Available;
                self.sync_update_status_line(dismissed);
                if manual || should_prompt {
                    CheckResultEffect::PromptUpdate(copy)
                } else {
                    CheckResultEffect::Quiet
                }
            },
        }
    }

    /// What a request to see the update prompt leads to.
    pub fn show_update_prompt(&self) -> (r: PromptRequest)
        ensures
            match self.available_update {
                Some(n) => r matches PromptRequest::Prompt(p) && p == n,
                None => if self.phase is Idle || self.phase is UpToDate {
                    r is CheckNow
                } else {
                    r is Nothing
                },
            },
    {
        match &self.available_update {
            Some(n) => PromptRequest::Prompt(duplicate_notice(n)),
            None => match self.phase {
                UpdatePhase::Idle | UpdatePhase::UpToDate => PromptRequest::CheckNow,
                _ => PromptRequest::Nothing,
            },
        }
    }

    /// Starts upgrading to the offered version when it has a package for
    /// this platform.
    pub fn begin_upgrade_from_notice(&mut self, notice: &UpdateNotice) -> (r: UpgradeStart)
        ensures
            match notice.download_url {
                None => {
                    &&& r matches UpgradeStart::NoPackage(t) && t.kind == ToastKind::Warning
                        && t.message@ == no_package_message()
                    &&& final(self).phase == old(self).phase
                    &&& final(self).status_line == old(self).status_line
                },
                Some(url) => {
                    &&& r matches UpgradeStart::Download { url: u, version: v } && u == url && v
                        == notice.latest_version
                    &&& final(self).phase == (UpdatePhase::Downloading {
                        version: notice.latest_version,
                    })
                    &&& final(self).status_line@ == status_for(final(self).phase, None, false).0
                },
            },
            final(self).available_update == old(self).available_update,
            final(self).update_in_progress == old(self).update_in_progress,
    {
        match &notice.download_url {
            None => UpgradeStart::NoPackage(
                UpdateToast {
                    kind: ToastKind::Warning,
                    message: owned(
                        "No download package is available for this platform. Open the release page instead.",
                    ),
                },
            ),
            Some(url) => {
                self.phase = UpdatePhase::Downloading { version: dup(&notice.latest_version) };
                self.sync_update_status_line(false);
                UpgradeStart::Download { url: dup(url), version: dup(&notice.latest_version) }
            },
        }
    }

    /// The user skipped a version: nothing is offered any more.
    pub fn dismiss_update_version(&mut self)
        ensures
            final(self).available_update is None,
            final(self).phase == UpdatePhase::UpToDate,
            final(self).update_in_progress == old(self).update_in_progress,
            final(self).status_line@ == "You're up to date."@,
    {
        self.available_update = None;
        self.phase = UpdatePhase::UpToDate;
        self.sync_update_status_line(false);
    }

    /// Begins a download of `version`; refused while another is under way.
    pub fn start_download(&mut self, version: &str) -> (r: bool)
        ensures
            r == !old(self).update_in_progress,
            r ==> final(self).update_in_progress && final(self).phase == (UpdatePhase::Downloading {
                version: final(self).phase->version,
            }) && final(self).phase->version@ == version@,
            !r ==> final(self).phase == old(self).phase && final(self).update_in_progress
                && final(self).status_line == old(self).status_line,
            final(self).available_update == old(self).available_update,
            r ==> final(self).status_line@ == status_for(final(self).phase, None, false).0,
    {
        if self.update_in_progress {
            return false;
        }
        self.update_in_progress = true;
        self.phase = UpdatePhase::Downloading { version: owned(version) };
        self.sync_update_status_line(false);
        true
    }

    /// A step of the download failed: the workflow stops and reports it.
    /// `context` names the step, such as "Update download failed".
    pub fn fail_download(&mut self, context: &str, error: &str) -> (r: UpdateToast)
        ensures
            !final(self).update_in_progress,
            final(self).phase matches UpdatePhase::Failed(m) && m@ == error@,
            final(self).status_line@ == error@,
            final(self).available_update == old(self).available_update,
            r.kind == ToastKind::Error,
            r.message@ == context@ + ": "@ + error@,
    {
        self.update_in_progress = false;
        self.phase = UpdatePhase::Failed(owned(error));
        self.sync_update_status_line(false);
        let mut message = owned(context);
        push_str(&mut message, ": ");
        push_str(&mut message, error);
        UpdateToast { kind: ToastKind::Error, message }
    }

    /// The updater was launched: the application restarts to apply it.
    pub fn updater_launched(&mut self) -> (r: UpdateToast)
        ensures
            final(self).phase == UpdatePhase::Applying,
            final(self).update_in_progress == old(self).update_in_progress,
            final(self).available_update == old(self).available_update,
            final(self).status_line@ == "Applying update\u{2026}"@,
            r.kind == ToastKind::Success,
            r.message@ == "Restarting to apply update..."@,
    {
        self.phase = UpdatePhase::Applying;
        self.sync_update_status_line(false);
        UpdateToast { kind: ToastKind::Success, message: owned("Restarting to apply update...") }
    }
}

/// Message shown when a release has no package for this platform.
pub open spec fn no_package_message() -> Seq<char> {
    "No download package is available for this platform. Open the release page instead."@
}

/// The toast text and buttons that offer an update: "Update now" when a
/// package exists, then "Later", "Skip this version" and "Release notes".
pub fn update_prompt(notice: &UpdateNotice) -> (r: (String, Vec<ToastAction>))
    ensures
        r.0@ == update_prompt_message(*notice),
        r.1@.len() == if notice.download_url is Some {
            4int
        } else {
            3int
        },
        notice.download_url matches Some(u) ==> (r.1@[0] matches ToastAction::StartUpdate {
            download_url: d,
            target_version: v,
            label: l,
        } && d == u && v == notice.latest_version && l@ == "Update now"@),
        r.1@[r.1@.len() - 3] matches ToastAction::PostponeUpdate {
            version: v,
            postpone_seconds: p,
            label: l,
        } && v == notice.latest_version && p == UPDATE_POSTPONE_SECONDS && l@ == "Later"@,
        r.1@[r.1@.len() - 2] matches ToastAction::DismissUpdate { version: v, label: l } && v
            == notice.latest_version && l@ == "Skip this version"@,
        r.1@[r.1@.len() - 1] matches ToastAction::OpenUrl { url: u, label: l } && u
            == notice.releases_url && l@ == "Release notes"@,
{
    let mut actions: Vec<ToastAction> = Vec::new();
    if let Some(u) = &notice.download_url {
        actions.push(
            ToastAction::StartUpdate {
                download_url: dup(u),
                target_version: dup(&notice.latest_version),
                label: owned("Update now"),
            },
        );
    }
    actions.push(
        ToastAction::PostponeUpdate {
            version: dup(&notice.latest_version),
            postpone_seconds: UPDATE_POSTPONE_SECONDS,
            label: owned("Later"),
        },
    );
    actions.push(
        ToastAction::DismissUpdate { version: dup(&notice.latest_version), label: owned("Skip this version") },
    );
    actions.push(ToastAction::OpenUrl { url: dup(&notice.releases_url), label: owned("Release notes") });
    let mut message = owned("A newer GitComet version is available: ");
    push_str(&mut message, notice.latest_version.as_str());
    push_str(&mut message, " (current ");
    push_str(&mut message, notice.current_version.as_str());
    push_str(&mut message, ").");
    (message, actions)
}

/// The settings window's "update available" flag is exactly the toolbar
/// badge: both show only while an update that was not skipped is on offer.
pub proof fn lemma_settings_flag_matches_badge(
    phase: UpdatePhase,
    available: Option<UpdateNotice>,
    dismissed: bool,
)
    ensures
        status_for(phase, available, dismissed).1 == badge_for(phase, available, dismissed),
{
}

/// After the user skips a version, no badge shows, whatever is remembered
/// about dismissals.
pub proof fn lemma_no_badge_after_dismiss(dismissed: bool)
    ensures
        !badge_for(UpdatePhase::UpToDate, None, dismissed),
{
}

} // verus!
