//! The stack of toasts of a main window: which toasts it holds, the ids it
//! gives them, how long they stay, and what their buttons and dismissal do.
use vstd::prelude::*;
use crate::text::{owned, push_str};
use crate::toast::{
    is_code_message, looks_like_code_message, strip_code_indentation_spec,
    strip_code_message_indentation, ToastAction, ToastDismissBehavior, ToastKind,
};

verus! {

/// One toast on the stack.
pub struct ToastEntry {
    pub id: u64,
    pub kind: ToastKind,
    /// The text shown (code messages lose their four-space indentation).
    pub message: String,
    pub is_code_message: bool,
    pub actions: Vec<ToastAction>,
    pub dismiss_behavior: ToastDismissBehavior,
    /// Seconds the toast stays before it fades, if it goes away by itself.
    pub ttl_secs: Option<u64>,
}

/// The toasts of a window, oldest first.
pub struct ToastQueue {
    pub toasts: Vec<ToastEntry>,
}

/// The id the next toast gets: one more than the newest toast's (wrapping),
/// or 1 for an empty stack.
pub open spec fn next_id_spec(toasts: Seq<ToastEntry>) -> u64 {
    if toasts.len() == 0 {
        1
    } else if toasts.last().id == u64::MAX {
        0
    } else {
        (toasts.last().id + 1) as u64
    }
}

/// How long a toast of `kind` stays, in seconds, when toasts expire.
pub open spec fn ttl_for_kind(kind: ToastKind) -> u64 {
    match kind {
        ToastKind::Error => 15,
        ToastKind::Warning => 10,
        ToastKind::Success => 6,
    }
}

/// The stack without the toasts whose id is `id`.
pub open spec fn without_id(toasts: Seq<ToastEntry>, id: u64) -> Seq<ToastEntry>
    decreases toasts.len(),
{
    if toasts.len() == 0 {
        toasts
    } else {
        let rest = without_id(toasts.drop_last(), id);
        if toasts.last().id == id {
            rest
        } else {
            rest.push(toasts.last())
        }
    }
}

/// Whether some toast has id `id`.
pub open spec fn has_id(toasts: Seq<ToastEntry>, id: u64) -> bool {
    exists|i: int| 0 <= i < toasts.len() && #[trigger] toasts[i].id == id
}

/// Ids grow from the oldest toast to the newest.
pub open spec fn ids_increasing(toasts: Seq<ToastEntry>) -> bool {
    forall|i: int, j: int| 0 <= i < j < toasts.len() ==> #[trigger] toasts[i].id < #[trigger] toasts[j].id
}

/// What pushing a toast led to.
pub enum PushOutcome {
    /// Errors are shown in the window's error banner instead of a toast.
    RoutedToBanner(String),
    /// The toast was added with this id.
    Shown(u64),
}

/// What the host does after a toast button was pressed.
pub enum ToastActionEffect {
    /// Open `url`, then report with `finish_open_url`.
    OpenUrl { url: String },
    /// Record that the survey was opened and open `url`, then report with
    /// `finish_open_survey`.
    OpenSurvey { survey_id: String, survey_name: String, url: String },
    /// The toast is gone; record that the survey is postponed, and report a
    /// failure with `survey_postpone_failed`.
    PostponeSurvey { survey_id: String, survey_name: String, postpone_seconds: u64 },
    /// The toast is gone; download and apply the update.
    BeginUpdateDownload { download_url: String, target_version: String },
    /// The toast is gone; postpone the update prompt.
    PostponeUpdate { version: String, postpone_seconds: u64 },
    /// The toast is gone; skip this version.
    DismissUpdate { version: String },
}

/// The text an entry shows for `message`.
pub open spec fn shown_text(message: Seq<char>) -> Seq<char> {
    if is_code_message(message) {
        strip_code_indentation_spec(message)
    } else {
        message
    }
}

/// A removed toast: the stack keeps the others, in order.
proof fn lemma_without_id_members(toasts: Seq<ToastEntry>, id: u64)
    ensures
        without_id(toasts, id).len() <= toasts.len(),
        !has_id(without_id(toasts, id), id),
        !has_id(toasts, id) ==> without_id(toasts, id) == toasts,
        has_id(toasts, id) ==> without_id(toasts, id).len() < toasts.len(),
    decreases toasts.len(),
{
    if toasts.len() > 0 {
        let init = toasts.drop_last();
        lemma_without_id_members(init, id);
        let rest = without_id(init, id);
        if toasts.last().id != id {
            assert forall|i: int| 0 <= i < rest.push(toasts.last()).len() implies #[trigger] rest.push(
                toasts.last(),
            )[i].id != id by {
                if i < rest.len() {
                    assert(rest.push(toasts.last())[i] == rest[i]);
                }
            }
        }
        if !has_id(toasts, id) {
            assert(!has_id(init, id)) by {
                if has_id(init, id) {
                    let i = choose|i: int| 0 <= i < init.len() && #[trigger] init[i].id == id;
                    assert(toasts[i].id == id);
                }
            }
            assert(toasts =~= init.push(toasts.last()));
        }
        if has_id(toasts, id) && toasts.last().id != id {
            let i = choose|i: int| 0 <= i < toasts.len() && #[trigger] toasts[i].id == id;
            assert(init[i].id == id);
        }
    }
}

impl ToastQueue {
    /// An empty stack.
    pub fn new() -> (r: Self)
        ensures
            r.toasts@.len() == 0,
    {
        ToastQueue { toasts: Vec::new() }
    }

    /// The id the next toast gets.
    pub fn next_toast_id(&self) -> (r: u64)
        ensures
            r == next_id_spec(self.toasts@),
    {
        let n = self.toasts.len();
        if n == 0 {
            1
        } else {
            self.toasts[n - 1].id.wrapping_add(1)
        }
    }

    /// Adds a toast and returns its id. Code messages are shown without their
    /// indentation. A time to live applies only where toasts expire.
    pub fn push_toast_inner(
        &mut self,
        kind: ToastKind,
        message: String,
        actions: Vec<ToastAction>,
        dismiss_behavior: ToastDismissBehavior,
        ttl_secs: Option<u64>,
        toasts_expire: bool,
    ) -> (id: u64)
        ensures
            id == next_id_spec(old(self).toasts@),
            final(self).toasts@.len() == old(self).toasts@.len() + 1,
            final(self).toasts@.drop_last() == old(self).toasts@,
            ({
                let e = final(self).toasts@.last();
                &&& e.id == id
                &&& e.kind == kind
                &&& e.message@ == shown_text(message@)
                &&& e.is_code_message == is_code_message(message@)
                &&& e.actions == actions
                &&& e.dismiss_behavior == dismiss_behavior
                &&& e.ttl_secs == if toasts_expire {
                    ttl_secs
                } else {
                    None
                }
            }),
    {
        let id = self.next_toast_id();
        let is_code = looks_like_code_message(message.as_str());
        let display_message = if is_code {
            strip_code_message_indentation(message.as_str())
        } else {
            message
        };
        let ttl = if toasts_expire {
            ttl_secs
        } else {
            None
        };
        self.toasts.push(
            ToastEntry {
                id,
                kind,
                message: display_message,
                is_code_message: is_code,
                actions,
                dismiss_behavior,
                ttl_secs: ttl,
            },
        );
        proof {
            assert(self.toasts@.drop_last() =~= old(self).toasts@);
        }
        id
    }

    /// Shows a message: an error goes to the error banner, anything else
    /// becomes a toast that stays 10 seconds (warnings) or 6 (successes).
    pub fn push_toast(&mut self, kind: ToastKind, message: String, toasts_expire: bool) -> (r:
        PushOutcome)
        ensures
            kind == ToastKind::Error ==> (r matches PushOutcome::RoutedToBanner(m) && m == message)
                && final(self).toasts@ == old(self).toasts@,
            kind != ToastKind::Error ==> (r matches PushOutcome::Shown(id) && id == next_id_spec(
                old(self).toasts@,
            )) && final(self).toasts@.drop_last() == old(self).toasts@ && ({
                let e = final(self).toasts@.last();
                &&& e.kind == kind
                &&& e.message@ == shown_text(message@)
                &&& e.actions@.len() == 0
                &&& e.dismiss_behavior is Remove
                &&& e.ttl_secs == if toasts_expire {
                    Some(ttl_for_kind(kind))
                } else {
                    None
                }
            }),
    {
        match kind {
            ToastKind::Error => PushOutcome::RoutedToBanner(message),
            _ => {
                let ttl: u64 = match kind {
                    ToastKind::Error => 15,
                    ToastKind::Warning => 10,
                    ToastKind::Success => 6,
                };
                let id = self.push_toast_inner(
                    kind,
                    message,
                    Vec::new(),
                    ToastDismissBehavior::Remove,
                    Some(ttl),
                    toasts_expire,
                );
                PushOutcome::Shown(id)
            },
        }
    }

    /// Adds a survey invitation: a warning with "open" and "later" buttons
    /// that postpones the survey when dismissed, and never expires.
    pub fn push_survey_toast(
        &mut self,
        survey_id: &str,
        survey_name: &str,
        message: &str,
        url: &str,
        open_label: &str,
        postpone_label: &str,
        postpone_seconds: u64,
    ) -> (id: u64)
        ensures
            id == next_id_spec(old(self).toasts@),
            final(self).toasts@.drop_last() == old(self).toasts@,
            final(self).toasts@.len() == old(self).toasts@.len() + 1,
            ({
                let e = final(self).toasts@.last();
                &&& e.kind == ToastKind::Warning
                &&& e.message@ == shown_text(message@)
                &&& e.ttl_secs is None
                &&& e.actions@.len() == 2
                &&& e.actions@[0] matches ToastAction::OpenSurvey { survey_id: i, survey_name: n, url: u, label: l }
                    && i@ == survey_id@ && n@ == survey_name@ && u@ == url@ && l@ == open_label@
                &&& e.actions@[1] matches ToastAction::PostponeSurvey {
                    survey_id: i,
                    survey_name: n,
                    postpone_seconds: s,
                    label: l,
                } && i@ == survey_id@ && n@ == survey_name@ && s == postpone_seconds && l@
                    == postpone_label@
                &&& e.dismiss_behavior matches ToastDismissBehavior::PostponeSurvey {
                    survey_id: i,
                    survey_name: n,
                    postpone_seconds: s,
                } && i@ == survey_id@ && n@ == survey_name@ && s == postpone_seconds
            }),
    {
        let mut actions: Vec<ToastAction> = Vec::new();
        actions.push(
            ToastAction::OpenSurvey {
                survey_id: owned(survey_id),
                survey_name: owned(survey_name),
                url: owned(url),
                label: owned(open_label),
            },
        );
        actions.push(
            ToastAction::PostponeSurvey {
                survey_id: owned(survey_id),
                survey_name: owned(survey_name),
                postpone_seconds,
                label: owned(postpone_label),
            },
        );
        self.push_toast_inner(
            ToastKind::Warning,
            owned(message),
            actions,
            ToastDismissBehavior::PostponeSurvey {
                survey_id: owned(survey_id),
                survey_name: owned(survey_name),
                postpone_seconds,
            },
            None,
            false,
        )
    }

    /// Removes the toast with `id`; returns whether one was there.
    pub fn remove_toast(&mut self, id: u64) -> (changed: bool)
        ensures
            final(self).toasts@ == without_id(old(self).toasts@, id),
            changed == has_id(old(self).toasts@, id),
    {
        let ghost old_toasts = self.toasts@;
        let mut kept: Vec<ToastEntry> = Vec::new();
        let mut removed = false;
        let mut rest: Vec<ToastEntry> = Vec::new();
        std::mem::swap(&mut rest, &mut self.toasts);
        let ghost all = rest@;
        proof {
            assert(all == old_toasts);
        }
        let mut pending: Vec<ToastEntry> = Vec::new();
        // Move entries out from the back, then restore their order.
        while rest.len() > 0
            invariant
                all == old_toasts,
                rest@.len() <= all.len(),
                rest@ == all.subrange(0, rest@.len() as int),
                pending@ == all.subrange(rest@.len() as int, all.len() as int).reverse(),
            decreases rest@.len(),
        {
            let e = rest.pop().unwrap();
            proof {
                assert(all.subrange(rest@.len() as int, all.len() as int).reverse() =~= all.subrange(
                    rest@.len() + 1int,
                    all.len() as int,
                ).reverse().push(e));
            }
            pending.push(e);
        }
        while pending.len() > 0
            invariant
                all == old_toasts,
                pending@ == all.subrange(all.len() - pending@.len(), all.len() as int).reverse(),
                pending@.len() <= all.len(),
                kept@ == without_id(all.subrange(0, all.len() - pending@.len()), id),
                removed == has_id(all.subrange(0, all.len() - pending@.len()), id),
            decreases pending@.len(),
        {
            let e = pending.pop().unwrap();
            let ghost k = all.len() - pending@.len();
            proof {
                assert(all.subrange(0, k).drop_last() =~= all.subrange(0, k - 1));
                assert(all.subrange(0, k).last() == e);
                assert(all.subrange(k, all.len() as int).reverse() =~= pending@);
                if has_id(all.subrange(0, k - 1), id) {
                    let j = choose|j: int| 0 <= j < k - 1 && #[trigger] all.subrange(0, k - 1)[j].id
                        == id;
                    assert(all.subrange(0, k)[j].id == id);
                }
                if has_id(all.subrange(0, k), id) && e.id != id {
                    let j = choose|j: int| 0 <= j < k && #[trigger] all.subrange(0, k)[j].id == id;
                    assert(all.subrange(0, k - 1)[j].id == id);
                }
                if e.id == id {
                    assert(all.subrange(0, k)[k - 1].id == id);
                }
            }
            if e.id == id {
                removed = true;
            } else {
                kept.push(e);
            }
        }
        proof {
            assert(all.subrange(0, all.len() as int) =~= all);
        }
        self.toasts = kept;
        removed
    }

    /// Closes a toast. Closing a survey invitation also asks the host to
    /// record that the survey is postponed.
    pub fn dismiss_toast(&mut self, id: u64, behavior: ToastDismissBehavior) -> (r: Option<
        ToastActionEffect,
    >)
        ensures
            final(self).toasts@ == without_id(old(self).toasts@, id),
            match behavior {
                ToastDismissBehavior::Remove => r is None,
                ToastDismissBehavior::PostponeSurvey { survey_id, survey_name, postpone_seconds } => r
                    == Some(
                    ToastActionEffect::PostponeSurvey { survey_id, survey_name, postpone_seconds },
                ),
            },
    {
        self.remove_toast(id);
        match behavior {
            ToastDismissBehavior::Remove => None,
            ToastDismissBehavior::PostponeSurvey { survey_id, survey_name, postpone_seconds } => Some(
                ToastActionEffect::PostponeSurvey { survey_id, survey_name, postpone_seconds },
            ),
        }
    }

    /// A toast button was pressed. Opening a link or a survey waits for the
    /// host's outcome before the toast goes; every other button removes the
    /// toast at once and hands its request to the host.
    pub fn handle_toast_action(&mut self, id: u64, action: ToastAction) -> (r: ToastActionEffect)
        ensures
            match action {
                ToastAction::OpenUrl { url, .. } => final(self).toasts@ == old(self).toasts@ && r
                    == ToastActionEffect::OpenUrl { url },
                ToastAction::OpenSurvey { survey_id, survey_name, url, .. } => final(self).toasts@
                    == old(self).toasts@ && r == ToastActionEffect::OpenSurvey {
                    survey_id,
                    survey_name,
                    url,
                },
                ToastAction::PostponeSurvey { survey_id, survey_name, postpone_seconds, .. } => (final(self).toasts@
                    == without_id(old(self).toasts@, id)) && r
                    == ToastActionEffect::PostponeSurvey { survey_id, survey_name, postpone_seconds },
                ToastAction::StartUpdate { download_url, target_version, .. } => final(self).toasts@
                    == without_id(old(self).toasts@, id) && r
                    == ToastActionEffect::BeginUpdateDownload { download_url, target_version },
                ToastAction::PostponeUpdate { version, postpone_seconds, .. } => final(self).toasts@
                    == without_id(old(self).toasts@, id) && r == ToastActionEffect::PostponeUpdate {
                    version,
                    postpone_seconds,
                },
                ToastAction::DismissUpdate { version, .. } => final(self).toasts@ == without_id(
                    old(self).toasts@,
                    id,
                ) && r == ToastActionEffect::DismissUpdate { version },
            },
    {
        match action {
            ToastAction::OpenUrl { url, .. } => ToastActionEffect::OpenUrl { url },
            ToastAction::OpenSurvey { survey_id, survey_name, url, .. } => {
                ToastActionEffect::OpenSurvey { survey_id, survey_name, url }
            },
            ToastAction::PostponeSurvey { survey_id, survey_name, postpone_seconds, .. } => {
                self.remove_toast(id);
                ToastActionEffect::PostponeSurvey { survey_id, survey_name, postpone_seconds }
            },
            ToastAction::StartUpdate { download_url, target_version, .. } => {
                self.remove_toast(id);
                ToastActionEffect::BeginUpdateDownload { download_url, target_version }
            },
            ToastAction::PostponeUpdate { version, postpone_seconds, .. } => {
                self.remove_toast(id);
                ToastActionEffect::PostponeUpdate { version, postpone_seconds }
            },
            ToastAction::DismissUpdate { version, .. } => {
                self.remove_toast(id);
                ToastActionEffect::DismissUpdate { version }
            },
        }
    }

    /// The link of toast `id` was opened, or failed to open: on success the
    /// toast goes; a failure is reported in the error banner and the toast stays.
    pub fn finish_open_url(&mut self, id: u64, result: Result<(), String>) -> (banner: Option<String>)
        ensures
            match result {
                Ok(()) => final(self).toasts@ == without_id(old(self).toasts@, id) && banner is None,
                Err(e) => final(self).toasts@ == old(self).toasts@ && (banner matches Some(m) && m@
                    == "Failed to open link: "@ + e@),
            },
    {
        match result {
            Ok(()) => {
                self.remove_toast(id);
                None
            },
            Err(e) => {
                let mut m = owned("Failed to open link: ");
                push_str(&mut m, e.as_str());
                Some(m)
            },
        }
    }

    /// The survey of toast `id` was recorded as opened and its link opened,
    /// each perhaps failing: the toast goes either way, and each failure is
    /// reported in the error banner.
    pub fn finish_open_survey(
        &mut self,
        id: u64,
        survey_name: &str,
        persisted: Result<(), String>,
        opened: Result<(), String>,
    ) -> (banners: Vec<String>)
        ensures
            final(self).toasts@ == without_id(old(self).toasts@, id),
            banners@.len() == (if persisted is Err {
                1int
            } else {
                0int
            }) + (if opened is Err {
                1int
            } else {
                0int
            }),
            persisted matches Err(e) ==> banners@[0]@ == "Failed to save "@ + survey_name@
                + " preference: "@ + e@,
            opened matches Err(e) ==> banners@.last()@ == "Failed to open "@ + survey_name@ + ": "@
                + e@,
    {
        let mut banners: Vec<String> = Vec::new();
        match persisted {
            Ok(()) => {},
            Err(e) => {
                let mut m = owned("Failed to save ");
                push_str(&mut m, survey_name);
                push_str(&mut m, " preference: ");
                push_str(&mut m, e.as_str());
                banners.push(m);
            },
        }
        self.remove_toast(id);
        match opened {
            Ok(()) => {},
            Err(e) => {
                let mut m = owned("Failed to open ");
                push_str(&mut m, survey_name);
                push_str(&mut m, ": ");
                push_str(&mut m, e.as_str());
                banners.push(m);
            },
        }
        banners
    }
}

/// How many ordinary toasts the stack shows: two beside progress toasts,
/// three otherwise.
pub open spec fn shown_toast_limit(has_progress: bool) -> nat {
    if has_progress {
        2
    } else {
        3
    }
}

impl ToastQueue {
    /// The positions of the toasts that are shown, newest first: the newest
    /// two when progress toasts are shown as well, else the newest three.
    pub fn displayed_toast_indexes(&self, has_progress: bool) -> (r: Vec<usize>)
        ensures
            r@.len() == if self.toasts@.len() < shown_toast_limit(has_progress) {
                self.toasts@.len()
            } else {
                shown_toast_limit(has_progress)
            },
            forall|k: int| 0 <= k < r@.len() ==> #[trigger] r@[k] == self.toasts@.len() - 1 - k,
    {
        let limit: usize = if has_progress {
            2
        } else {
            3
        };
        let n = self.toasts.len();
        let mut out: Vec<usize> = Vec::new();
        while out.len() < limit && out.len() < n
            invariant
                out@.len() <= limit,
                out@.len() <= n,
                n == self.toasts@.len(),
                limit == shown_toast_limit(has_progress),
                forall|k: int| 0 <= k < out@.len() ==> #[trigger] out@[k] == n - 1 - k,
            decreases n - out@.len(),
        {
            let k = out.len();
            out.push(n - 1 - k);
        }
        out
    }
}

/// Whether the toast layer draws anything: a toast, a clone in progress, or
/// a submodule being added.
pub fn toast_layer_visible(toast_count: usize, has_clone_progress: bool, submodule_add_count: usize) -> (r:
    bool)
    ensures
        r == (toast_count > 0 || has_clone_progress || submodule_add_count > 0),
{
    toast_count > 0 || has_clone_progress || submodule_add_count > 0
}

/// How a toast button is drawn.
#[derive(Clone, Copy, Debug, PartialEq, Eq, Structural)]
pub enum ToastButtonStyle {
    Transparent,
    Outlined,
}

/// The label of a toast button.
pub open spec fn action_label(action: ToastAction) -> Seq<char> {
    match action {
        ToastAction::OpenUrl { label, .. } => label@,
        ToastAction::OpenSurvey { label, .. } => label@,
        ToastAction::PostponeSurvey { label, .. } => label@,
        ToastAction::StartUpdate { label, .. } => label@,
        ToastAction::PostponeUpdate { label, .. } => label@,
        ToastAction::DismissUpdate { label, .. } => label@,
    }
}

/// The label of a toast button.
pub fn toast_action_label(action: &ToastAction) -> (r: &str)
    ensures
        r@ == action_label(*action),
{
    match action {
        ToastAction::OpenUrl { label, .. } => label.as_str(),
        ToastAction::OpenSurvey { label, .. } => label.as_str(),
        ToastAction::PostponeSurvey { label, .. } => label.as_str(),
        ToastAction::StartUpdate { label, .. } => label.as_str(),
        ToastAction::PostponeUpdate { label, .. } => label.as_str(),
        ToastAction::DismissUpdate { label, .. } => label.as_str(),
    }
}

/// How a toast button is drawn: buttons that put something off are plain,
/// those that open or start something are outlined.
pub fn toast_action_style(action: &ToastAction) -> (r: ToastButtonStyle)
    ensures
        r == match action {
            ToastAction::PostponeSurvey { .. } | ToastAction::PostponeUpdate { .. }
            | ToastAction::DismissUpdate { .. } => ToastButtonStyle::Transparent,
            ToastAction::OpenUrl { .. } | ToastAction::OpenSurvey { .. }
            | ToastAction::StartUpdate { .. } => ToastButtonStyle::Outlined,
        },
{
    match action {
        ToastAction::PostponeSurvey { .. } | ToastAction::PostponeUpdate { .. }
        | ToastAction::DismissUpdate { .. } => ToastButtonStyle::Transparent,
        ToastAction::OpenUrl { .. } | ToastAction::OpenSurvey { .. }
        | ToastAction::StartUpdate { .. } => ToastButtonStyle::Outlined,
    }
}

/// The error banner text when postponing a survey could not be recorded.
pub fn survey_postpone_failed(survey_name: &str, error: &str) -> (r: String)
    ensures
        r@ == "Failed to save "@ + survey_name@ + " reminder preference: "@ + error@,
{
    let mut m = owned("Failed to save ");
    push_str(&mut m, survey_name);
    push_str(&mut m, " reminder preference: ");
    push_str(&mut m, error);
    m
}

/// Removing a toast that was just added gives back the stack as it was,
/// provided its id was not already taken.
pub proof fn lemma_remove_undoes_push(old_toasts: Seq<ToastEntry>, e: ToastEntry)
    requires
        !has_id(old_toasts, e.id),
    ensures
        without_id(old_toasts.push(e), e.id) == old_toasts,
{
    lemma_without_id_members(old_toasts, e.id);
    assert(old_toasts.push(e).drop_last() =~= old_toasts);
}

/// While ids grow and the newest id is below the maximum, the next id is
/// taken by no toast on the stack, and a toast added with it keeps the ids
/// growing.
pub proof fn lemma_next_id_is_fresh(toasts: Seq<ToastEntry>, e: ToastEntry)
    requires
        ids_increasing(toasts),
        toasts.len() > 0 ==> toasts.last().id < u64::MAX,
        e.id == next_id_spec(toasts),
    ensures
        !has_id(toasts, e.id),
        ids_increasing(toasts.push(e)),
{
    let t = toasts.push(e);
    if toasts.len() > 0 {
        let n = toasts.len() - 1;
        assert forall|i: int| 0 <= i < toasts.len() implies #[trigger] toasts[i].id != e.id by {
            if i < n {
                assert(toasts[i].id < toasts[n].id);
            }
        }
    }
    assert forall|i: int, j: int| 0 <= i < j < t.len() implies #[trigger] t[i].id
        < #[trigger] t[j].id by {
        if j < toasts.len() {
            assert(t[i] == toasts[i] && t[j] == toasts[j]);
        } else {
            let n = toasts.len() - 1;
            if i < n {
                assert(toasts[i].id < toasts[n].id);
            }
        }
    }
}

} // verus!
