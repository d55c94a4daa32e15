use gitcomet_update::toast_queue::toast_layer_visible;
use gitcomet_update::toast_queue::{toast_action_label, toast_action_style, ToastButtonStyle};
use gitcomet_update::toast::{
    apply_clone_progress_sync, apply_submodule_add_progress_sync, clone_progress_summary,
    looks_like_code_message, strip_code_message_indentation, toast_viewport_corner, CloneDest,
    CloneOpState, CloneOpStatus, CloneProgressMeter, CloneProgressStage, CloneProgressSyncAction,
    SubmoduleAddProgressState, ToastAction, ToastDismissBehavior, ToastKind, ToastViewportCorner,
};
use gitcomet_update::toast_queue::{
    survey_postpone_failed, PushOutcome, ToastActionEffect, ToastQueue,
};

fn clone_op(
    dest: &CloneDest,
    status: CloneOpStatus,
    stage: CloneProgressStage,
    percent: u8,
    seq: u64,
) -> CloneOpState {
    CloneOpState {
        url: "file:///tmp/repo.git".to_string(),
        dest: dest.clone(),
        status,
        progress: CloneProgressMeter { stage, percent },
        seq,
    }
}

fn dest(id: u64) -> CloneDest {
    CloneDest {
        id,
        path: "/tmp/repo".to_string(),
    }
}

fn submodule_add_progress(url: &str, path: &str) -> SubmoduleAddProgressState {
    SubmoduleAddProgressState {
        url: url.to_string(),
        path: path.to_string(),
    }
}

#[test]
fn toast_stack_anchor_is_bottom_right() {
    assert_eq!(toast_viewport_corner(), ToastViewportCorner::BottomRight);
}

#[test]
fn apply_clone_progress_sync_tracks_running_progress_and_deduplicates_same_seq() {
    let dest = dest(1);
    let op = clone_op(&dest, CloneOpStatus::Running, CloneProgressStage::Loading, 32, 7);
    let mut progress = None;
    let mut last_seq = 0;
    let mut tracked_dest = None;

    let first =
        apply_clone_progress_sync(&mut progress, &mut last_seq, &mut tracked_dest, Some(&op));
    assert_eq!(
        first,
        CloneProgressSyncAction {
            progress_changed: true,
            notice: None,
        }
    );
    assert_eq!(progress.as_ref(), Some(&op));
    assert_eq!(last_seq, 7);
    assert_eq!(tracked_dest.as_ref(), Some(&dest));

    let second =
        apply_clone_progress_sync(&mut progress, &mut last_seq, &mut tracked_dest, Some(&op));
    assert_eq!(
        second,
        CloneProgressSyncAction {
            progress_changed: false,
            notice: None,
        }
    );
    assert_eq!(progress.as_ref(), Some(&op));
    assert_eq!(last_seq, 7);
}

#[test]
fn apply_clone_progress_sync_resets_for_restarted_clone_even_at_same_path() {
    let first_dest = dest(1);
    let second_dest = dest(2);
    let first = clone_op(
        &first_dest,
        CloneOpStatus::Running,
        CloneProgressStage::RemoteObjects,
        91,
        9,
    );
    let restarted = clone_op(
        &second_dest,
        CloneOpStatus::Running,
        CloneProgressStage::Loading,
        4,
        1,
    );
    let mut progress = Some(first.clone());
    let mut last_seq = first.seq;
    let mut tracked_dest = Some(first_dest);

    let action = apply_clone_progress_sync(
        &mut progress,
        &mut last_seq,
        &mut tracked_dest,
        Some(&restarted),
    );

    assert_eq!(
        action,
        CloneProgressSyncAction {
            progress_changed: true,
            notice: None,
        }
    );
    assert_eq!(progress.as_ref(), Some(&restarted));
    assert_eq!(last_seq, 1);
    assert_eq!(tracked_dest.as_ref(), Some(&second_dest));
}

#[test]
fn apply_clone_progress_sync_emits_success_notice_once_and_clears_progress() {
    let dest = dest(1);
    let finished = clone_op(
        &dest,
        CloneOpStatus::FinishedOk,
        CloneProgressStage::RemoteObjects,
        100,
        8,
    );
    let mut progress = Some(clone_op(
        &dest,
        CloneOpStatus::Running,
        CloneProgressStage::RemoteObjects,
        84,
        7,
    ));
    let mut last_seq = 7;
    let mut tracked_dest = Some(dest);

    let first = apply_clone_progress_sync(
        &mut progress,
        &mut last_seq,
        &mut tracked_dest,
        Some(&finished),
    );
    assert_eq!(
        first,
        CloneProgressSyncAction {
            progress_changed: true,
            notice: Some((ToastKind::Success, "Clone finished: /tmp/repo".to_string())),
        }
    );
    assert!(progress.is_none());
    assert_eq!(last_seq, 8);
    assert!(tracked_dest.is_none());

    let second = apply_clone_progress_sync(
        &mut progress,
        &mut last_seq,
        &mut tracked_dest,
        Some(&finished),
    );
    assert_eq!(
        second,
        CloneProgressSyncAction {
            progress_changed: false,
            notice: None,
        }
    );
}

#[test]
fn apply_clone_progress_sync_emits_cancel_notice_and_clears_progress() {
    let dest = dest(1);
    let finished = clone_op(&dest, CloneOpStatus::Cancelled, CloneProgressStage::Loading, 12, 5);
    let mut progress = Some(clone_op(
        &dest,
        CloneOpStatus::Cancelling,
        CloneProgressStage::Loading,
        12,
        4,
    ));
    let mut last_seq = 4;
    let mut tracked_dest = Some(dest);

    let action = apply_clone_progress_sync(
        &mut progress,
        &mut last_seq,
        &mut tracked_dest,
        Some(&finished),
    );

    assert_eq!(
        action,
        CloneProgressSyncAction {
            progress_changed: true,
            notice: Some((ToastKind::Warning, "Clone aborted: /tmp/repo".to_string())),
        }
    );
    assert!(progress.is_none());
    assert_eq!(last_seq, 5);
    assert!(tracked_dest.is_none());
}

#[test]
fn apply_clone_progress_sync_emits_error_notice_and_clears_progress() {
    let dest = dest(1);
    let finished = clone_op(
        &dest,
        CloneOpStatus::FinishedErr("Clone failed: permission denied".to_string()),
        CloneProgressStage::RemoteObjects,
        57,
        11,
    );
    let mut progress = Some(clone_op(
        &dest,
        CloneOpStatus::Running,
        CloneProgressStage::RemoteObjects,
        57,
        10,
    ));
    let mut last_seq = 10;
    let mut tracked_dest = Some(dest);

    let action = apply_clone_progress_sync(
        &mut progress,
        &mut last_seq,
        &mut tracked_dest,
        Some(&finished),
    );

    assert_eq!(
        action,
        CloneProgressSyncAction {
            progress_changed: true,
            notice: Some((ToastKind::Error, "Clone failed: permission denied".to_string())),
        }
    );
    assert!(progress.is_none());
    assert_eq!(last_seq, 11);
    assert!(tracked_dest.is_none());
}

#[test]
fn apply_clone_progress_sync_clears_progress_when_clone_disappears() {
    let dest = dest(1);
    let mut progress = Some(clone_op(
        &dest,
        CloneOpStatus::Running,
        CloneProgressStage::Loading,
        43,
        3,
    ));
    let mut last_seq = 3;
    let mut tracked_dest = Some(dest);

    let action = apply_clone_progress_sync(&mut progress, &mut last_seq, &mut tracked_dest, None);

    assert_eq!(
        action,
        CloneProgressSyncAction {
            progress_changed: true,
            notice: None,
        }
    );
    assert!(progress.is_none());
    assert_eq!(last_seq, 0);
    assert!(tracked_dest.is_none());
}

#[test]
fn apply_submodule_add_progress_sync_deduplicates_equal_snapshots() {
    let mut progress = vec![submodule_add_progress("https://example.com/sub.git", "mods/sub")];

    assert!(!apply_submodule_add_progress_sync(
        &mut progress,
        &[submodule_add_progress("https://example.com/sub.git", "mods/sub")],
    ));
    assert_eq!(
        progress,
        vec![submodule_add_progress("https://example.com/sub.git", "mods/sub")]
    );
}

#[test]
fn apply_submodule_add_progress_sync_replaces_and_clears_entries() {
    let mut progress = vec![submodule_add_progress("https://example.com/one.git", "mods/one")];

    assert!(apply_submodule_add_progress_sync(
        &mut progress,
        &[
            submodule_add_progress("https://example.com/two.git", "mods/two"),
            submodule_add_progress("https://example.com/three.git", "mods/three"),
        ],
    ));
    assert_eq!(
        progress,
        vec![
            submodule_add_progress("https://example.com/two.git", "mods/two"),
            submodule_add_progress("https://example.com/three.git", "mods/three"),
        ]
    );

    assert!(apply_submodule_add_progress_sync(&mut progress, &[]));
    assert!(progress.is_empty());
}

#[test]
fn code_messages_lose_their_indentation() {
    assert!(looks_like_code_message("error:\n    at main.rs:1"));
    assert!(!looks_like_code_message("plain message"));
    assert_eq!(
        strip_code_message_indentation("error:\n    at main.rs:1\r\n  two"),
        "error:\nat main.rs:1\n  two"
    );
}

#[test]
fn toast_ids_count_up_and_removal_undoes_a_push() {
    let mut queue = ToastQueue::new();
    assert_eq!(queue.next_toast_id(), 1);
    let first = match queue.push_toast(ToastKind::Success, "Saved".to_string(), true) {
        PushOutcome::Shown(id) => id,
        PushOutcome::RoutedToBanner(_) => panic!("success toasts are shown"),
    };
    assert_eq!(first, 1);
    assert_eq!(queue.toasts[0].ttl_secs, Some(6));
    let second = match queue.push_toast(ToastKind::Warning, "Careful".to_string(), true) {
        PushOutcome::Shown(id) => id,
        PushOutcome::RoutedToBanner(_) => panic!("warnings are shown"),
    };
    assert_eq!(second, 2);
    assert_eq!(queue.toasts[1].ttl_secs, Some(10));
    assert!(queue.remove_toast(second));
    assert_eq!(queue.toasts.len(), 1);
    assert_eq!(queue.toasts[0].id, 1);
    assert!(!queue.remove_toast(second));
    assert_eq!(queue.toasts.len(), 1);
}

#[test]
fn error_toasts_go_to_the_banner() {
    let mut queue = ToastQueue::new();
    match queue.push_toast(ToastKind::Error, "boom".to_string(), true) {
        PushOutcome::RoutedToBanner(m) => assert_eq!(m, "boom"),
        PushOutcome::Shown(_) => panic!("errors are routed to the banner"),
    }
    assert!(queue.toasts.is_empty());
}

#[test]
fn toasts_do_not_expire_where_the_runtime_keeps_them() {
    let mut queue = ToastQueue::new();
    let id = queue.push_toast_inner(
        ToastKind::Warning,
        "line\n    code".to_string(),
        Vec::new(),
        ToastDismissBehavior::Remove,
        Some(10),
        false,
    );
    assert_eq!(id, 1);
    assert_eq!(queue.toasts[0].ttl_secs, None);
    assert!(queue.toasts[0].is_code_message);
    assert_eq!(queue.toasts[0].message, "line\ncode");
}

#[test]
fn survey_toast_buttons_and_dismissal() {
    let mut queue = ToastQueue::new();
    let id = queue.push_survey_toast("s1", "Survey", "Help us", "https://example.com", "Open", "Later", 60);
    assert_eq!(queue.toasts[0].actions.len(), 2);
    assert_eq!(
        queue.toasts[0].dismiss_behavior,
        ToastDismissBehavior::PostponeSurvey {
            survey_id: "s1".to_string(),
            survey_name: "Survey".to_string(),
            postpone_seconds: 60,
        }
    );
    let behavior = queue.toasts[0].dismiss_behavior.clone();
    match queue.dismiss_toast(id, behavior) {
        Some(ToastActionEffect::PostponeSurvey {
            survey_id,
            postpone_seconds,
            ..
        }) => {
            assert_eq!(survey_id, "s1");
            assert_eq!(postpone_seconds, 60);
        }
        _ => panic!("dismissing a survey postpones it"),
    }
    assert!(queue.toasts.is_empty());
    assert_eq!(
        survey_postpone_failed("Survey", "disk full"),
        "Failed to save Survey reminder preference: disk full"
    );
}

#[test]
fn toast_buttons_hand_their_requests_to_the_host() {
    let mut queue = ToastQueue::new();
    let id = queue.push_toast_inner(
        ToastKind::Warning,
        "update".to_string(),
        Vec::new(),
        ToastDismissBehavior::Remove,
        None,
        true,
    );
    match queue.handle_toast_action(
        id,
        ToastAction::OpenUrl {
            url: "https://example.com".to_string(),
            label: "Open".to_string(),
        },
    ) {
        ToastActionEffect::OpenUrl { url } => assert_eq!(url, "https://example.com"),
        _ => panic!("open url"),
    }
    assert_eq!(queue.toasts.len(), 1);
    assert_eq!(
        queue.finish_open_url(id, Err("no browser".to_string())),
        Some("Failed to open link: no browser".to_string())
    );
    assert_eq!(queue.toasts.len(), 1);
    match queue.handle_toast_action(
        id,
        ToastAction::StartUpdate {
            download_url: "https://example.com/a.tar.gz".to_string(),
            target_version: "1.2.3".to_string(),
            label: "Update now".to_string(),
        },
    ) {
        ToastActionEffect::BeginUpdateDownload {
            download_url,
            target_version,
        } => {
            assert_eq!(download_url, "https://example.com/a.tar.gz");
            assert_eq!(target_version, "1.2.3");
        }
        _ => panic!("start update"),
    }
    assert!(queue.toasts.is_empty());
    let id2 = queue.push_toast_inner(
        ToastKind::Warning,
        "survey".to_string(),
        Vec::new(),
        ToastDismissBehavior::Remove,
        None,
        true,
    );
    let banners = queue.finish_open_survey(
        id2,
        "Survey",
        Err("locked".to_string()),
        Err("no browser".to_string()),
    );
    assert_eq!(
        banners,
        vec![
            "Failed to save Survey preference: locked".to_string(),
            "Failed to open Survey: no browser".to_string(),
        ]
    );
    assert!(queue.toasts.is_empty());
}

#[test]
fn clone_progress_summary_caps_percent() {
    let d = dest(1);
    let running = clone_op(&d, CloneOpStatus::Running, CloneProgressStage::Loading, 140, 1);
    let summary = clone_progress_summary(&running);
    assert_eq!(summary.percent, 100);
    assert_eq!(summary.percent_text, "100%");
    assert!(!summary.aborting);
    assert_eq!(summary.abort_label, "Abort");
    let cancelling = clone_op(&d, CloneOpStatus::Cancelling, CloneProgressStage::Loading, 12, 2);
    let summary = clone_progress_summary(&cancelling);
    assert_eq!(summary.percent_text, "12%");
    assert!(summary.aborting);
    assert_eq!(summary.abort_label, "Aborting\u{2026}");
}

#[test]
fn toast_stack_shows_newest_toasts_first_within_limit() {
    let mut queue = ToastQueue::new();
    assert!(queue.displayed_toast_indexes(false).is_empty());
    assert!(!toast_layer_visible(0, false, 0));
    for message in ["one", "two", "three", "four"] {
        let _ = queue.push_toast(ToastKind::Success, message.to_string(), true);
    }
    assert_eq!(queue.displayed_toast_indexes(false), vec![3, 2, 1]);
    assert_eq!(queue.displayed_toast_indexes(true), vec![3, 2]);
    assert_eq!(queue.toasts[3].message, "four");
    assert!(toast_layer_visible(4, false, 0));
    assert!(toast_layer_visible(0, true, 0));
    assert!(toast_layer_visible(0, false, 1));
}

#[test]
fn toast_buttons_put_off_actions_plainly() {
    let later = ToastAction::PostponeUpdate {
        version: "1.2.0".to_string(),
        postpone_seconds: 86400,
        label: "Later".to_string(),
    };
    let update = ToastAction::StartUpdate {
        download_url: "https://example.com/gitcomet.tar.gz".to_string(),
        target_version: "1.2.0".to_string(),
        label: "Update now".to_string(),
    };
    assert_eq!(toast_action_label(&later), "Later");
    assert_eq!(toast_action_style(&later), ToastButtonStyle::Transparent);
    assert_eq!(toast_action_label(&update), "Update now");
    assert_eq!(toast_action_style(&update), ToastButtonStyle::Outlined);
}
