//! Downloading and applying an update, step by step: the host performs each
//! step (locating the executable, preparing the staging directory, the
//! download, unpacking, the lock file, launching the updater) and reports its
//! outcome; this module decides what comes next and what the user is told.
use vstd::prelude::*;
use crate::auto_update::{
    archive_filename_from_url, download_progress_message, download_started_message,
    extracting_message, update_error_message, url_last_segment, UpdateError,
};
use crate::text::{decimal, owned, push_str};
use crate::toast::ToastKind;
use crate::update_service::{status_for, UpdatePhase, UpdateState, UpdateToast};

verus! {

/// The step a download is waiting on.
#[derive(Clone, Copy, Debug, PartialEq, Eq, Structural)]
pub enum DownloadStage {
    LocatingExecutable,
    PreparingStaging,
    Downloading,
    Extracting,
    WritingLock,
    LaunchingUpdater,
    /// Finished, successfully or not: nothing more happens.
    Done,
}

/// The outcome of the step the host just performed.
pub enum DownloadEvent {
    ExecutableLocated(Result<(), String>),
    StagingPrepared(Result<(), UpdateError>),
    Progress(u64),
    Downloaded(Result<(), UpdateError>),
    Extracted(Result<(), UpdateError>),
    LockWritten(Result<(), UpdateError>),
    UpdaterLaunched(Result<(), String>),
}

/// What the host does next.
pub enum DownloadAction {
    /// Nothing: the event does not belong to the current step.
    Ignore,
    /// Prepare a clean staging directory.
    PrepareStaging,
    /// Show this toast; the download does not start.
    Abort(UpdateToast),
    /// Download the archive into the staging directory under `archive_name`,
    /// showing `progress_message`.
    Download { archive_name: String, progress_message: String },
    /// Replace the progress toast's text.
    ShowProgress(String),
    /// Unpack the downloaded archive, showing `progress_message`.
    Extract { progress_message: String },
    /// Write the update lock into the staging directory.
    WriteLock,
    /// Launch the updater process.
    LaunchUpdater,
    /// Remove the staging directory and show this error toast.
    CleanupAndReport(UpdateToast),
    /// Show this toast and quit, so that the updater can replace the binary.
    Restart(UpdateToast),
}

/// One update download of one main window.
pub struct UpdateDownload {
    pub version: String,
    pub download_url: String,
    pub stage: DownloadStage,
}

/// Toast for a step that failed before the download started.
pub open spec fn abort_toast(kind: ToastKind, message: Seq<char>, t: UpdateToast) -> bool {
    t.kind == kind && t.message@ == message
}

/// The stage after `stage` when `event` arrives (the stage stays when the
/// event does not belong to it); `busy` says whether another update is
/// already in progress.
pub open spec fn next_stage(stage: DownloadStage, event: DownloadEvent, busy: bool) -> DownloadStage {
    match (stage, event) {
        (DownloadStage::LocatingExecutable, DownloadEvent::ExecutableLocated(r)) => if r is Ok {
            DownloadStage::PreparingStaging
        } else {
            DownloadStage::Done
        },
        (DownloadStage::PreparingStaging, DownloadEvent::StagingPrepared(r)) => if r is Ok && !busy {
            DownloadStage::Downloading
        } else {
            DownloadStage::Done
        },
        (DownloadStage::Downloading, DownloadEvent::Progress(_)) => DownloadStage::Downloading,
        (DownloadStage::Downloading, DownloadEvent::Downloaded(r)) => if r is Ok {
            DownloadStage::Extracting
        } else {
            DownloadStage::Done
        },
        (DownloadStage::Extracting, DownloadEvent::Extracted(r)) => if r is Ok {
            DownloadStage::WritingLock
        } else {
            DownloadStage::Done
        },
        (DownloadStage::WritingLock, DownloadEvent::LockWritten(r)) => if r is Ok {
            DownloadStage::LaunchingUpdater
        } else {
            DownloadStage::Done
        },
        (DownloadStage::LaunchingUpdater, DownloadEvent::UpdaterLaunched(_)) => DownloadStage::Done,
        _ => stage,
    }
}

/// Whether `event` belongs to `stage`.
pub open spec fn event_expected(stage: DownloadStage, event: DownloadEvent) -> bool {
    match (stage, event) {
        (DownloadStage::LocatingExecutable, DownloadEvent::ExecutableLocated(_)) => true,
        (DownloadStage::PreparingStaging, DownloadEvent::StagingPrepared(_)) => true,
        (DownloadStage::Downloading, DownloadEvent::Progress(_)) => true,
        (DownloadStage::Downloading, DownloadEvent::Downloaded(_)) => true,
        (DownloadStage::Extracting, DownloadEvent::Extracted(_)) => true,
        (DownloadStage::WritingLock, DownloadEvent::LockWritten(_)) => true,
        (DownloadStage::LaunchingUpdater, DownloadEvent::UpdaterLaunched(_)) => true,
        _ => false,
    }
}

/// The workflow state after a failed step: stopped, failed with `error`.
pub open spec fn failed_state(old_state: UpdateState, new_state: UpdateState, error: Seq<char>) -> bool {
    &&& !new_state.update_in_progress
    &&& new_state.phase matches UpdatePhase::Failed(m) && m@ == error
    &&& new_state.status_line@ == error
    &&& new_state.available_update == old_state.available_update
}

/// A failed step is reported as "`context`: `error`".
pub open spec fn failure_report(a: DownloadAction, context: Seq<char>, error: Seq<char>) -> bool {
    a matches DownloadAction::CleanupAndReport(t) && t.kind == ToastKind::Error && t.message@
        == context + ": "@ + error
}

/// Everything that one step of the download does.
pub open spec fn download_step(
    d: UpdateDownload,
    state: UpdateState,
    event: DownloadEvent,
    d2: UpdateDownload,
    state2: UpdateState,
    a: DownloadAction,
) -> bool {
    &&& d2.version == d.version
    &&& d2.download_url == d.download_url
    &&& d2.stage == next_stage(d.stage, event, state.update_in_progress)
    &&& if !event_expected(d.stage, event) {
        a is Ignore && state2 == state
    } else {
        match event {
            DownloadEvent::ExecutableLocated(r) => match r {
                Ok(_) => a is PrepareStaging && state2 == state,
                Err(e) => state2 == state && (a matches DownloadAction::Abort(t) && abort_toast(
                    ToastKind::Error,
                    "Cannot determine current executable path: "@ + e@,
                    t,
                )),
            },
            DownloadEvent::StagingPrepared(r) => match r {
                Ok(_) => if state.update_in_progress {
                    state2 == state && (a matches DownloadAction::Abort(t) && abort_toast(
                        ToastKind::Warning,
                        "An update is already in progress."@,
                        t,
                    ))
                } else {
                    &&& state2.update_in_progress
                    &&& state2.phase matches UpdatePhase::Downloading { version } && version@
                        == d.version@
                    &&& state2.status_line@ == status_for(state2.phase, None, false).0
                    &&& state2.available_update == state.available_update
                    &&& a matches DownloadAction::Download { archive_name, progress_message }
                        && archive_name@ == url_last_segment(d.download_url@) && progress_message@
                        == "Downloading update v"@ + d.version@ + "..."@
                },
                Err(e) => state2 == state && (a matches DownloadAction::Abort(t) && if e
                    is UpdateInProgress {
                    abort_toast(ToastKind::Warning, "An update is already in progress."@, t)
                } else {
                    abort_toast(
                        ToastKind::Error,
                        "Cannot create staging directory: "@ + update_error_message(e),
                        t,
                    )
                }),
            },
            DownloadEvent::Progress(mb) => state2 == state && (a matches DownloadAction::ShowProgress(
                m,
            ) && m@ == "Downloading update v"@ + d.version@ + "... "@ + decimal(mb as nat)
                + " MB"@),
            DownloadEvent::Downloaded(r) => match r {
                Ok(_) => state2 == state && (a matches DownloadAction::Extract { progress_message }
                    && progress_message@ == "Extracting update v"@ + d.version@ + "..."@),
                Err(e) => failed_state(state, state2, update_error_message(e)) && failure_report(
                    a,
                    "Update download failed"@,
                    update_error_message(e),
                ),
            },
            DownloadEvent::Extracted(r) => match r {
                Ok(_) => state2 == state && a is WriteLock,
                Err(e) => failed_state(state, state2, update_error_message(e)) && failure_report(
                    a,
                    "Failed to extract update"@,
                    update_error_message(e),
                ),
            },
            DownloadEvent::LockWritten(r) => match r {
                Ok(_) => state2 == state && a is LaunchUpdater,
                Err(e) => failed_state(state, state2, update_error_message(e)) && failure_report(
                    a,
                    "Failed to prepare update lock"@,
                    update_error_message(e),
                ),
            },
            DownloadEvent::UpdaterLaunched(r) => match r {
                Ok(_) => {
                    &&& state2.phase == UpdatePhase::Applying
                    &&& state2.update_in_progress == state.update_in_progress
                    &&& state2.available_update == state.available_update
                    &&& state2.status_line@ == "Applying update\u{2026}"@
                    &&& a matches DownloadAction::Restart(t) && t.kind == ToastKind::Success
                        && t.message@ == "Restarting to apply update..."@
                },
                Err(e) => failed_state(state, state2, e@) && failure_report(
                    a,
                    "Failed to launch apply-update"@,
                    e@,
                ),
            },
        }
    }
}

fn copy(s: &String) -> (r: String)
    ensures
        r == *s,
{
    s.clone()
}

impl UpdateDownload {
    /// Starts a download of `target_version` from `download_url`, unless an
    /// update is already under way.
    pub fn begin(state: &UpdateState, download_url: &str, target_version: &str) -> (r: Option<
        UpdateDownload,
    >)
        ensures
            r is None <==> state.update_in_progress,
            r matches Some(d) ==> d.stage == DownloadStage::LocatingExecutable && d.version@
                == target_version@ && d.download_url@ == download_url@,
    {
        if state.update_in_progress {
            return None;
        }
        Some(
            UpdateDownload {
                version: owned(target_version),
                download_url: owned(download_url),
                stage: DownloadStage::LocatingExecutable,
            },
        )
    }

    /// Takes the outcome of the current step and decides the next one.
    pub fn handle(&mut self, state: &mut UpdateState, event: DownloadEvent) -> (r: DownloadAction)
        ensures
            download_step(*old(self), *old(state), event, *final(self), *final(state), r),
    {
        match (self.stage, event) {
            (DownloadStage::LocatingExecutable, DownloadEvent::ExecutableLocated(r)) => match r {
                Ok(()) => {
                    self.stage = DownloadStage::PreparingStaging;
                    DownloadAction::PrepareStaging
                },
                Err(e) => {
                    self.stage = DownloadStage::Done;
                    let mut message = owned("Cannot determine current executable path: ");
                    push_str(&mut message, e.as_str());
                    DownloadAction::Abort(UpdateToast { kind: ToastKind::Error, message })
                },
            },
            (DownloadStage::PreparingStaging, DownloadEvent::StagingPrepared(r)) => match r {
                Ok(()) => {
                    if state.update_in_progress {
                        self.stage = DownloadStage::Done;
                        return DownloadAction::Abort(
                            UpdateToast {
                                kind: ToastKind::Warning,
                                message: owned("An update is already in progress."),
                            },
                        );
                    }
                    self.stage = DownloadStage::Downloading;
                    state.start_download(self.version.as_str());
                    let archive_name = archive_filename_from_url(self.download_url.as_str());
                    let progress_message = download_started_message(self.version.as_str());
                    DownloadAction::Download { archive_name, progress_message }
                },
                Err(e) => {
                    self.stage = DownloadStage::Done;
                    match e {
                        UpdateError::UpdateInProgress => DownloadAction::Abort(
                            UpdateToast {
                                kind: ToastKind::Warning,
                                message: owned("An update is already in progress."),
                            },
                        ),
                        _ => {
                            let mut message = owned("Cannot create staging directory: ");
                            push_str(&mut message, e.message().as_str());
                            DownloadAction::Abort(UpdateToast { kind: ToastKind::Error, message })
                        },
                    }
                },
            },
            (DownloadStage::Downloading, DownloadEvent::Progress(mb)) => {
                DownloadAction::ShowProgress(download_progress_message(self.version.as_str(), mb))
            },
            (DownloadStage::Downloading, DownloadEvent::Downloaded(r)) => match r {
                Ok(()) => {
                    self.stage = DownloadStage::Extracting;
                    DownloadAction::Extract {
                        progress_message: extracting_message(self.version.as_str()),
                    }
                },
                Err(e) => {
                    self.stage = DownloadStage::Done;
                    let toast = state.fail_download("Update download failed", e.message().as_str());
                    DownloadAction::CleanupAndReport(toast)
                },
            },
            (DownloadStage::Extracting, DownloadEvent::Extracted(r)) => match r {
                Ok(()) => {
                    self.stage = DownloadStage::WritingLock;
                    DownloadAction::WriteLock
                },
                Err(e) => {
                    self.stage = DownloadStage::Done;
                    let toast = state.fail_download("Failed to extract update", e.message().as_str());
                    DownloadAction::CleanupAndReport(toast)
                },
            },
            (DownloadStage::WritingLock, DownloadEvent::LockWritten(r)) => match r {
                Ok(()) => {
                    self.stage = DownloadStage::LaunchingUpdater;
                    DownloadAction::LaunchUpdater
                },
                Err(e) => {
                    self.stage = DownloadStage::Done;
                    let toast = state.fail_download(
                        "Failed to prepare update lock",
                        e.message().as_str(),
                    );
                    DownloadAction::CleanupAndReport(toast)
                },
            },
            (DownloadStage::LaunchingUpdater, DownloadEvent::UpdaterLaunched(r)) => {
                self.stage = DownloadStage::Done;
                match r {
                    Ok(()) => DownloadAction::Restart(state.updater_launched()),
                    Err(e) => {
                        let toast = state.fail_download("Failed to launch apply-update", e.as_str());
                        DownloadAction::CleanupAndReport(toast)
                    },
                }
            },
            _ => DownloadAction::Ignore,
        }
    }
}

/// A finished download stays finished: every later event is ignored and
/// changes nothing.
pub proof fn lemma_done_ignores_events(
    d: UpdateDownload,
    state: UpdateState,
    event: DownloadEvent,
    d2: UpdateDownload,
    state2: UpdateState,
    a: DownloadAction,
)
    requires
        d.stage == DownloadStage::Done,
        download_step(d, state, event, d2, state2, a),
    ensures
        d2.stage == DownloadStage::Done,
        a is Ignore,
        state2 == state,
{
}

/// Every failure after the download started leaves no update in progress and
/// ends the download.
pub proof fn lemma_failure_stops_download(
    d: UpdateDownload,
    state: UpdateState,
    event: DownloadEvent,
    d2: UpdateDownload,
    state2: UpdateState,
    a: DownloadAction,
)
    requires
        download_step(d, state, event, d2, state2, a),
        a is CleanupAndReport,
    ensures
        d2.stage == DownloadStage::Done,
        !state2.update_in_progress,
        state2.phase is Failed,
{
}

} // verus!
