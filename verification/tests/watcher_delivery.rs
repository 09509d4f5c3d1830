use agentdesk_discord::task_cards::context::TaskNotificationContext;
use agentdesk_discord::task_cards::identity::TaskNotificationKind;
use agentdesk_discord::task_cards::marker::{
    footer_only_background_marker_content, MarkerContent,
};
use agentdesk_discord::watcher::cancel_handoff::{
    ClaimPin, Custody, HandoffFacts, HandoffRow, Pending, PendingFacts, ReaderState, RetainedTurn,
    WatcherHandleFacts,
};
use agentdesk_discord::watcher::commit_decisions::InflightTurnIdentity;
use agentdesk_discord::watcher::discrete_marker::{
    enqueue_suppressed_machine_trigger_marker, lists_monitor_entries, marker_target,
    SuppressedTaskNotificationMarker,
};
use agentdesk_discord::watcher::source_epoch::{SourceFileIdentity, WatcherSourceAuthority};
use agentdesk_discord::watcher::status_panel::{
    after_panel_edit, panel_edit_is_due, record_status_panel_send_failure,
    refresh_existing_status_panel, status_panel_send_is_due, status_panel_send_payload,
    PanelRefresh, PreparedStatusPanelTransition,
};
use agentdesk_discord::watcher::task_response::{
    after_card_ensured, after_claim_renewed, after_placeholder_deleted, after_response_claimed,
    after_response_sent, apply_watcher_task_response, commit_watcher_task_response_fence,
    prepare_watcher_task_response, settle_placeholder, ApplyStep, PrepareStep,
    PreparedWatcherTaskResponse, ResponseDeliveryClaimOutcome, WatcherTaskResponseLocals,
    WatcherTaskResponseOutcome,
};
use agentdesk_discord::watcher::terminal_preflight::{
    adopt_recorded_messages, clear_stale_terminal_messages, reclaim_orphaned_messages,
    run_terminal_preflight_prepare, seed_to_confirm, settle_adopted_panel, OrphanReclaim,
    TerminalPreflightFacts, TerminalPreflightState,
};
use agentdesk_discord::watcher::terminal_send::{
    after_short_replace, apply_watcher_short_replace_controller,
    deliver_short_replace_via_controller, watcher_short_replace_cutover,
    watcher_short_replace_cutover_decision, watcher_terminal_controller_enabled,
    watcher_terminal_lease_range, AcquireFailureMode, DeliveryOutcome, EditFailPlaceholderPolicy,
    FallbackCommitPolicy, FormattedAnswer, OutputPlan, PlaceholderLifecycle, SendFailurePlan, WatcherShortReplaceLocals,
    WatcherShortReplaceResult,
};
use agentdesk_discord::watcher::utf8_decoder::Utf8ChunkDecoder;

// Sending a terminal answer

#[test]
fn controller_is_off_unless_switched_on() {
    for on in ["1", "true", " TRUE \n"] {
        assert!(watcher_terminal_controller_enabled(Some(on)));
    }
    for off in ["", "0", "yes", "true1"] {
        assert!(!watcher_terminal_controller_enabled(Some(off)));
    }
    assert!(!watcher_terminal_controller_enabled(None));
}

#[test]
fn cutover_skips_watcher_lease_acquire() {
    assert_eq!(watcher_terminal_lease_range(Some((1, 2)), true), None);
    assert_eq!(watcher_terminal_lease_range(Some((1, 2)), false), Some((1, 2)));
    assert_eq!(watcher_terminal_lease_range(None, false), None);
}

#[test]
fn cutover_needs_every_condition() {
    assert!(watcher_short_replace_cutover(true, true, true, true, false, false, false));
    assert!(!watcher_short_replace_cutover(false, true, true, true, false, false, false));
    assert!(!watcher_short_replace_cutover(true, true, true, true, true, false, false));
    assert!(!watcher_short_replace_cutover(true, true, true, true, false, true, false));
    assert!(!watcher_short_replace_cutover(true, true, true, true, false, false, true));
    let answer = |text| Some(FormattedAnswer { text, sends_ordered_new_chunks: false });
    assert!(watcher_short_replace_cutover_decision(true, answer("x"), true, true, true, false));
    assert!(!watcher_short_replace_cutover_decision(true, answer(""), true, true, true, false));
    assert!(!watcher_short_replace_cutover_decision(false, None, true, true, true, false));
}

#[test]
fn watcher_short_replace_preserve_always() {
    let request = deliver_short_replace_via_controller(7, 8, "answer", (9, 10));
    assert_eq!(request.edit_fail_policy, EditFailPlaceholderPolicy::PreserveAlways);
    assert_eq!(request.fallback_commit_policy, FallbackCommitPolicy::CommitOnFallback);
    assert_eq!(request.acquire_failure_mode, AcquireFailureMode::Transient);
    assert_eq!(
        (request.instance_id, request.message_id, request.send_range),
        (7, 8, (9, 10))
    );
    assert_eq!(request.plan, OutputPlan::Replace { lifecycle: PlaceholderLifecycle::Active });
    assert_eq!((request.body.as_str(), request.advance_to), ("answer", 10));
}

fn short_replace_locals() -> WatcherShortReplaceLocals {
    WatcherShortReplaceLocals {
        relay_ok: true,
        direct_send_delivered: false,
        tui_direct_anchor_terminal_body_visible: false,
        external_input_lease_consumed_by_relay: false,
        placeholder_msg_id: Some(8),
        placeholder_from_restored_inflight: true,
        last_edit_text: "…".to_string(),
        retry_terminal_delivery_from_offset: false,
    }
}

#[test]
fn controller_outcome_is_taken_over() {
    let plan = SendFailurePlan { relay_ok: false, retry_offset: true };
    assert_eq!(
        after_short_replace(DeliveryOutcome::NotDelivered),
        WatcherShortReplaceResult::Delivered
    );
    assert_eq!(
        after_short_replace(DeliveryOutcome::Transient),
        WatcherShortReplaceResult::B2Skip
    );
    assert_eq!(
        after_short_replace(DeliveryOutcome::Unknown),
        WatcherShortReplaceResult::PartialFailureRetry
    );
    assert_eq!(
        after_short_replace(DeliveryOutcome::Skipped),
        WatcherShortReplaceResult::Skipped
    );

    let mut locals = short_replace_locals();
    let settle = apply_watcher_short_replace_controller(
        after_short_replace(DeliveryOutcome::Delivered),
        true,
        plan,
        &mut locals,
    );
    assert!(settle && locals.relay_ok && locals.direct_send_delivered);
    assert!(locals.external_input_lease_consumed_by_relay);
    assert_eq!(locals.placeholder_msg_id, None);
    assert_eq!(locals.last_edit_text, "");

    let mut locals = short_replace_locals();
    assert!(!apply_watcher_short_replace_controller(
        WatcherShortReplaceResult::B2Skip,
        true,
        plan,
        &mut locals,
    ));
    assert!(!locals.relay_ok && !locals.direct_send_delivered);
    assert_eq!(locals.placeholder_msg_id, Some(8));

    let mut locals = short_replace_locals();
    assert!(!apply_watcher_short_replace_controller(
        WatcherShortReplaceResult::PartialFailureRetry,
        true,
        plan,
        &mut locals,
    ));
    assert!(!locals.relay_ok && locals.retry_terminal_delivery_from_offset);
}

// The answer of a task turn

fn response_locals(placeholder: Option<u64>) -> WatcherTaskResponseLocals<String> {
    WatcherTaskResponseLocals {
        placeholder_msg_id: placeholder,
        placeholder_from_restored_inflight: true,
        last_edit_text: "…".to_string(),
        retry_terminal_delivery_from_offset: false,
        tui_direct_anchor_terminal_body_visible: false,
        tui_direct_anchor_or_lease_present_for_lifecycle: false,
        task_response_claim: None,
    }
}

#[test]
fn task_response_is_prepared_step_by_step() {
    let existing: Result<Option<(ResponseDeliveryClaimOutcome<String>, u64)>, String> = Ok(None);
    assert_eq!(
        prepare_watcher_task_response(existing, false),
        PrepareStep::EnsureCard { recovered: true }
    );
    assert_eq!(
        prepare_watcher_task_response(
            Ok(Some((
                ResponseDeliveryClaimOutcome::Owned("claim".to_string()),
                4
            ))),
            true
        ),
        PrepareStep::Ready {
            prepared: PreparedWatcherTaskResponse {
                claim: ResponseDeliveryClaimOutcome::Owned("claim".to_string()),
                card_message_id: 4,
            },
            claim_slot: true,
        }
    );
    assert_eq!(
        prepare_watcher_task_response::<String>(Err("down".to_string()), true),
        PrepareStep::Failed("resume watcher task response: down".to_string())
    );
    assert_eq!(
        after_card_ensured::<String>(Ok(4)),
        PrepareStep::ClaimResponse { card_message_id: 4 }
    );
    assert_eq!(
        after_card_ensured::<String>(Err("gone".to_string())),
        PrepareStep::Failed("confirm watcher task card: gone".to_string())
    );
    assert_eq!(
        after_response_claimed::<String>(Ok(ResponseDeliveryClaimOutcome::Wait), 4),
        PrepareStep::Ready {
            prepared: PreparedWatcherTaskResponse {
                claim: ResponseDeliveryClaimOutcome::Wait,
                card_message_id: 4,
            },
            claim_slot: false,
        }
    );
    assert_eq!(
        after_response_claimed::<String>(Err("lost".to_string()), 4),
        PrepareStep::Failed("claim watcher task response: lost".to_string())
    );
}

const RETRIED: WatcherTaskResponseOutcome = WatcherTaskResponseOutcome {
    relay_ok: false,
    direct_send_delivered: false,
    external_input_lease_consumed_by_relay: false,
};

const DELIVERED: WatcherTaskResponseOutcome = WatcherTaskResponseOutcome {
    relay_ok: true,
    direct_send_delivered: true,
    external_input_lease_consumed_by_relay: true,
};

#[test]
fn task_response_is_sent_once_under_its_claim() {
    let mut locals = response_locals(Some(3));
    let step = apply_watcher_task_response(
        Ok(ResponseDeliveryClaimOutcome::Owned("claim".to_string())),
        true,
        &mut locals,
    );
    assert_eq!(step, ApplyStep::Renew("claim".to_string()));
    let step = after_claim_renewed(true, "claim".to_string(), &mut locals);
    assert_eq!(step, ApplyStep::Send("claim".to_string()));
    let step = after_response_sent(None, "claim".to_string(), true, &mut locals);
    assert_eq!(step, ApplyStep::SettlePlaceholder(DELIVERED));
    assert_eq!(locals.task_response_claim.as_deref(), Some("claim"));
    assert_eq!(settle_placeholder(4, &mut locals), Some(3));
    assert!(!after_placeholder_deleted(false, &mut locals));
    assert_eq!(locals.placeholder_msg_id, Some(3));
    assert!(after_placeholder_deleted(true, &mut locals));
    assert_eq!(locals.placeholder_msg_id, None);
    assert_eq!(locals.last_edit_text, "");
    assert!(commit_watcher_task_response_fence(
        true,
        locals.task_response_claim.as_ref()
    ));
    assert!(!commit_watcher_task_response_fence(
        false,
        locals.task_response_claim.as_ref()
    ));
    assert!(!commit_watcher_task_response_fence::<String>(true, None));
}

#[test]
fn task_response_that_is_not_owned_is_not_sent() {
    for prepared in [Err("down".to_string()), Ok(ResponseDeliveryClaimOutcome::Wait)] {
        let mut locals = response_locals(None);
        assert_eq!(
            apply_watcher_task_response(prepared, true, &mut locals),
            ApplyStep::Finished(RETRIED)
        );
        assert!(locals.retry_terminal_delivery_from_offset);
    }
    let mut locals = response_locals(Some(4));
    assert_eq!(
        apply_watcher_task_response(
            Ok(ResponseDeliveryClaimOutcome::Delivered),
            true,
            &mut locals
        ),
        ApplyStep::SettlePlaceholder(DELIVERED)
    );
    assert_eq!(settle_placeholder(4, &mut locals), None);
    assert_eq!(locals.placeholder_msg_id, None);
    let mut locals = response_locals(None);
    assert_eq!(
        after_claim_renewed(false, "claim".to_string(), &mut locals),
        ApplyStep::Finished(RETRIED)
    );
    assert!(locals.retry_terminal_delivery_from_offset);
    let mut locals = response_locals(None);
    assert_eq!(
        after_response_sent(
            Some(SendFailurePlan { relay_ok: true, retry_offset: false }),
            "claim".to_string(),
            true,
            &mut locals
        ),
        ApplyStep::Finished(WatcherTaskResponseOutcome { relay_ok: true, ..RETRIED })
    );
    assert_eq!(locals.task_response_claim, None);
}

// Markers

fn marker(kind: TaskNotificationKind) -> SuppressedTaskNotificationMarker {
    SuppressedTaskNotificationMarker {
        channel_id: 4_912,
        tmux_session_name: "AgentDesk-codex-4912".to_string(),
        session_channel_name: None,
        data_start_offset: 44,
        kind,
        task_notification_event_key: Some("event-identity".to_string()),
        background_content: Some("marker".to_string()),
        event_count: 1,
        monitor_entry_keys: Vec::new(),
        monitor_reason_code: "lifecycle.monitor_auto_turn".to_string(),
    }
}

/// Cuts a marker where the library says, and marks the cut by three dots.
fn cut(content: MarkerContent) -> String {
    match content.limit {
        Some(limit) if content.text.chars().count() > limit => {
            let head: String = content.text.chars().take(limit).collect();
            format!("{head}...")
        }
        _ => content.text,
    }
}

#[test]
fn background_marker_includes_summary_and_preserves_event_identity() {
    let content = "⚙️ Background complete\n✅ Task completed\n**Background command \"short task\" completed (exit code 0)**";
    let mut input = marker(TaskNotificationKind::Background);
    input.background_content = Some(cut(footer_only_background_marker_content(
        "✅ Task completed\n**Background command \"short task\" completed (exit code 0)**\n-# subtext",
        &Vec::new(),
    )));
    let rendered = input
        .render()
        .expect("footer-owned background completion gets a marker");
    assert_eq!(rendered.session_key, "footer_background:ch:4912:event-identity");
    assert_eq!(rendered.reason_code, "lifecycle.background_task_complete");
    assert_eq!(rendered.content, content);
    input.background_content = None;
    assert!(input.render().is_none());
}

#[test]
fn background_marker_matches_shared_projection_and_bound() {
    let summary = "x".repeat(1_000);
    let card = format!("✅ Task completed\n**{summary}**");
    let event = TaskNotificationContext {
        task_id: Some("background-4912".to_string()),
        tool_use_id: None,
        status: "completed".to_string(),
        summary,
        kind: "background".to_string(),
        event_key: "event-identity".to_string(),
    }
    .to_event(4_912, "codex", "AgentDesk-codex-4912");
    let projected = event.footer_only_marker_content(&card, &Vec::new());
    assert_eq!(projected, footer_only_background_marker_content(&card, &Vec::new()));
    assert_eq!(projected.text, format!("⚙️ Background complete\n{card}"));
    assert_eq!(projected.limit, Some(600));
    let content = cut(projected);
    let mut input = marker(TaskNotificationKind::Background);
    input.background_content = Some(content.clone());
    let rendered = input.render().expect("background marker");
    assert_eq!(rendered.content, content);
    assert!(rendered.content.chars().count() <= 603);
}

#[test]
fn subagent_marker_remains_suppressed() {
    assert!(marker(TaskNotificationKind::Subagent).render().is_none());
}

#[test]
fn monitor_marker_names_what_it_is_about() {
    let mut input = marker(TaskNotificationKind::MonitorAutoTurn);
    let rendered = input.render().expect("monitor marker");
    assert_eq!(rendered.session_key, "monitor_auto_turn:ch:4912:event:event-identity");
    assert_eq!(rendered.reason_code, "lifecycle.monitor_auto_turn");
    assert_eq!(
        rendered.content,
        "🔔 Monitor 1회 처리 · (등록된 모니터 없음) · 대상: AgentDesk-codex-4912"
    );
    input.task_notification_event_key = None;
    input.session_channel_name = Some("adk-cc".to_string());
    input.monitor_entry_keys = vec!["a".to_string(), "b".to_string()];
    let rendered = input.render().expect("monitor marker");
    assert_eq!(rendered.session_key, "monitor_auto_turn:ch:4912:off:44");
    assert_eq!(
        rendered.content,
        "🔔 Monitor 1회 처리 · 다음 모니터: {a, b} · 대상: adk-cc"
    );
    assert_eq!(marker_target(4_912), "channel:4912");
    assert!(lists_monitor_entries(Some(TaskNotificationKind::MonitorAutoTurn)));
    assert!(!lists_monitor_entries(Some(TaskNotificationKind::Background)));
}

#[test]
fn only_monitor_turns_and_background_tasks_get_a_marker() {
    let context = TaskNotificationContext {
        task_id: None,
        tool_use_id: None,
        status: String::new(),
        summary: String::new(),
        kind: "background".to_string(),
        event_key: "key".to_string(),
    };
    let selected = enqueue_suppressed_machine_trigger_marker(
        Some(TaskNotificationKind::Background),
        Some(&context),
    )
    .expect("background marker");
    assert_eq!(selected.task_notification_event_key.as_deref(), Some("key"));
    assert!(selected.background);
    assert!(
        enqueue_suppressed_machine_trigger_marker(
            Some(TaskNotificationKind::Subagent),
            Some(&context),
        )
        .is_none()
    );
    assert!(enqueue_suppressed_machine_trigger_marker(None, Some(&context)).is_none());
}

// The status panel

#[test]
fn prepared_panel_decides_what_is_sent() {
    let prepared = PreparedStatusPanelTransition { send_now: false, content: "panel".to_string() };
    assert!(!status_panel_send_is_due(Some(&prepared)));
    assert!(status_panel_send_is_due(None));
    assert_eq!(status_panel_send_payload(Some(&prepared), "fallback"), "panel");
    assert_eq!(status_panel_send_payload(None, "fallback"), "fallback");
    assert_eq!(record_status_panel_send_failure(Some(Ok(3))), Some(3));
    assert_eq!(
        record_status_panel_send_failure::<u8>(Some(Err("down".to_string()))),
        None
    );
    assert_eq!(record_status_panel_send_failure::<u8>(None), None);
}

#[test]
fn panel_is_edited_when_it_would_change() {
    assert_eq!(
        refresh_existing_status_panel(true, true, None, Some(5)),
        PanelRefresh { session_panel_turn: Some(0), panel_message: Some(5) }
    );
    assert_eq!(
        refresh_existing_status_panel(false, false, Some(7), Some(5)),
        PanelRefresh { session_panel_turn: None, panel_message: None }
    );
    assert!(!panel_edit_is_due(None, "a", "a"));
    assert!(panel_edit_is_due(Some(1), "a", "a"));
    assert!(panel_edit_is_due(None, "a", "b"));
    let mut last = "a".to_string();
    assert_eq!(after_panel_edit(false, Some(1), "b".to_string(), &mut last), None);
    assert_eq!(last, "a");
    assert_eq!(after_panel_edit(true, Some(1), "b".to_string(), &mut last), Some(1));
    assert_eq!(last, "b");
}

// Custody

fn turn_identity(user_msg_id: u64) -> InflightTurnIdentity {
    InflightTurnIdentity {
        user_msg_id,
        started_at: "start".to_string(),
        tmux_session_name: Some("session".to_string()),
        turn_start_offset: Some(10),
    }
}

fn handoff_row(user_msg_id: u64) -> HandoffRow {
    HandoffRow {
        identity: turn_identity(user_msg_id),
        nonce: Some("nonce".to_string()),
        output_path: Some("/tmp/out.jsonl".to_string()),
    }
}

fn reader() -> ReaderState {
    ReaderState {
        source: Some(1),
        source_file: SourceFileIdentity::Unix { dev: 1, ino: 2 },
        authority: WatcherSourceAuthority {
            generation_mtime_ns: 77,
            reset_incarnation: 9,
            source_stamp: None,
        },
        offset: 20,
        buffer: "half a rec".to_string(),
        buffer_start: 10,
        utf8: Utf8ChunkDecoder::default(),
        carried: 0,
        rewind_attempts: 0,
        mirrored: false,
        first_sequence: None,
    }
}

fn facts(user_msg_id: u64) -> HandoffFacts {
    HandoffFacts {
        row: Some(handoff_row(user_msg_id)),
        generation_mtime_ns: 77,
        reset_incarnation: 9,
        file: Some((SourceFileIdentity::Unix { dev: 1, ino: 2 }, 20)),
    }
}

fn handle(cancel: u64) -> Option<WatcherHandleFacts> {
    Some(WatcherHandleFacts { cancel, paused: false, resume_pending: false })
}

fn pin(cancel: u64) -> Option<ClaimPin> {
    Some(ClaimPin { cancel, current: true, paused: false, resume_pending: false })
}

const OWN: PendingFacts = PendingFacts { cancelled: true, turn_stopped: false };

fn custody(pending: Vec<Pending>, cancel: u64) -> Custody {
    Custody::acquire(Some(pending), "codex", "session", "/tmp/out.jsonl", cancel)
        .expect("custody")
}

fn left_by(cancel: u64) -> Vec<Pending> {
    let mut first = custody(Vec::new(), cancel);
    first.checkpoint(&reader(), None, None, Some(&handoff_row(7)));
    first.release(true)
}

#[test]
fn interrupted_take_over_is_left_to_the_next_watcher() {
    assert!(Custody::acquire(None, "codex", "session", "/tmp/out.jsonl", 1).is_none());
    let mut second = custody(left_by(1), 2);
    let found = second.position_for_current(false, handle(2), &facts(7), &vec![OWN]);
    assert_eq!(found, Some(0));
    let taken = second.take_for_current(0, false, pin(2)).expect("taken over");
    assert_eq!((taken.cancel, taken.offset, taken.stop_range_start()), (1, 20, 10));
    assert_eq!(taken.buffer, "half a rec");

    let left = second.release(true);
    assert_eq!(left.len(), 1);
    assert_eq!((left[0].cancel, left[0].buffer.as_str()), (2, "half a rec"));
    let mut third = custody(left, 3);
    assert_eq!(
        third.position_for_current(false, handle(3), &facts(7), &vec![OWN]),
        Some(0)
    );
    assert!(third.take_for_current(0, false, pin(3)).is_some());
    third.settled();
    assert!(third.release(true).is_empty());
}

#[test]
fn take_over_is_fenced() {
    let second = custody(left_by(1), 2);
    let found = |cancelled: bool, handle, facts: &HandoffFacts, own: PendingFacts| {
        second.position_for_current(cancelled, handle, facts, &vec![own])
    };
    assert_eq!(found(true, handle(2), &facts(7), OWN), None);
    assert_eq!(found(false, None, &facts(7), OWN), None);
    assert_eq!(found(false, handle(9), &facts(7), OWN), None);
    let paused = Some(WatcherHandleFacts { cancel: 2, paused: true, resume_pending: false });
    assert_eq!(found(false, paused, &facts(7), OWN), None);
    let resuming = Some(WatcherHandleFacts { cancel: 2, paused: false, resume_pending: true });
    assert_eq!(found(false, resuming, &facts(7), OWN), None);
    assert_eq!(found(false, handle(2), &facts(8), OWN), None);
    let other_generation = HandoffFacts { generation_mtime_ns: 78, ..facts(7) };
    assert_eq!(found(false, handle(2), &other_generation, OWN), None);
    let reset = HandoffFacts { reset_incarnation: 10, ..facts(7) };
    assert_eq!(found(false, handle(2), &reset, OWN), None);
    let cut = HandoffFacts {
        file: Some((SourceFileIdentity::Unix { dev: 1, ino: 2 }, 19)),
        ..facts(7)
    };
    assert_eq!(found(false, handle(2), &cut, OWN), None);
    let replaced = HandoffFacts {
        file: Some((SourceFileIdentity::Unix { dev: 1, ino: 3 }, 20)),
        ..facts(7)
    };
    assert_eq!(found(false, handle(2), &replaced, OWN), None);
    let running = PendingFacts { cancelled: false, ..OWN };
    assert_eq!(found(false, handle(2), &facts(7), running), None);
    let stopped = PendingFacts { turn_stopped: true, ..OWN };
    assert_eq!(found(false, handle(2), &facts(7), stopped), None);
    assert_eq!(found(false, handle(2), &facts(7), OWN), Some(0));
}

#[test]
fn refused_take_over_leaves_everything() {
    let mut second = custody(left_by(1), 2);
    assert!(second.take_for_current(0, true, pin(2)).is_none());
    assert!(second.take_for_current(0, false, pin(5)).is_none());
    assert!(second.take_for_current(0, false, None).is_none());
    let left = second.release(true);
    assert_eq!(left.len(), 1);
    assert_eq!(left[0].cancel, 1);
}

#[test]
fn empty_checkpoint_keeps_the_useful_one() {
    let mut first = custody(Vec::new(), 1);
    first.checkpoint(&reader(), None, None, None);
    let empty = ReaderState { buffer: String::new(), offset: 30, ..reader() };
    first.checkpoint(&empty, None, None, None);
    let no_source = ReaderState { source: None, offset: 40, ..reader() };
    first.checkpoint(&no_source, None, None, None);
    assert_eq!(first.checkpoint.as_ref().map(|pending| pending.offset), Some(20));
    let turn = RetainedTurn { handle: 5, was_paused: false };
    first.checkpoint(&empty, Some(turn), Some(&handoff_row(7)), Some(&handoff_row(8)));
    let kept = first.checkpoint.as_ref().expect("checkpoint");
    assert_eq!(kept.offset, 30);
    assert_eq!(kept.identity.as_ref().map(|identity| identity.user_msg_id), Some(7));
    assert!(first.release(false).is_empty());
}

// Before the relay

fn preflight_facts() -> TerminalPreflightFacts {
    TerminalPreflightFacts {
        prompt_anchor_present: true,
        external_input_lease_generation: None,
        inflight_present: true,
        inflight_represents_external_input: false,
        inflight_is_stale_newer_turn: false,
        inflight_silent_turn: true,
        recent_stop: false,
        single_message_panel_footer_mode: true,
        turn_is_external_input_for_session: true,
        task_notification: false,
    }
}

fn preflight_state(response: &str) -> TerminalPreflightState {
    TerminalPreflightState {
        placeholder_msg_id: Some(1),
        placeholder_from_restored_inflight: true,
        status_panel_msg_id: Some(2),
        full_response: response.to_string(),
        response_sent_offset: 3,
        last_edit_text: "…".to_string(),
    }
}

#[test]
fn preflight_adopts_only_the_own_turn() {
    assert!(adopt_recorded_messages(&preflight_facts()));
    let newer = TerminalPreflightFacts { inflight_is_stale_newer_turn: true, ..preflight_facts() };
    assert!(!adopt_recorded_messages(&newer));
    let leased = TerminalPreflightFacts {
        external_input_lease_generation: Some(4),
        ..preflight_facts()
    };
    assert!(!adopt_recorded_messages(&leased));
    let own = TerminalPreflightFacts { inflight_represents_external_input: true, ..leased };
    assert!(adopt_recorded_messages(&own));
    let mut state = preflight_state("");
    settle_adopted_panel(&preflight_facts(), &mut state);
    assert_eq!(state.status_panel_msg_id, None);
}

#[test]
fn preflight_reports_what_the_relay_starts_from() {
    let prepared = run_terminal_preflight_prepare(&preflight_facts(), &preflight_state("안답"));
    assert!(prepared.has_assistant_response && prepared.has_current_response);
    assert!(prepared.inflight_silent_turn && !prepared.inflight_missing_before_relay);
    assert!(!prepared.external_input_lease_before_relay);
    let sent = run_terminal_preflight_prepare(&preflight_facts(), &preflight_state("abc  "));
    assert!(sent.has_assistant_response && !sent.has_current_response);
    assert_eq!(seed_to_confirm(true, "abcdef", 3), Some("def"));
    assert_eq!(seed_to_confirm(true, "abc  ", 3), None);
    assert_eq!(seed_to_confirm(false, "abcdef", 3), None);
    assert_eq!(seed_to_confirm(true, "ab", 3), None);
}

#[test]
fn preflight_reclaims_what_nobody_completes() {
    assert_eq!(
        reclaim_orphaned_messages(&preflight_facts(), &preflight_state(" "), true, false),
        OrphanReclaim { status_panel: true, placeholder: true }
    );
    assert_eq!(
        reclaim_orphaned_messages(&preflight_facts(), &preflight_state("text"), true, false),
        OrphanReclaim { status_panel: false, placeholder: false }
    );
    assert_eq!(
        reclaim_orphaned_messages(&preflight_facts(), &preflight_state("text"), false, true),
        OrphanReclaim { status_panel: true, placeholder: false }
    );
    let mut state = preflight_state("text");
    clear_stale_terminal_messages(true, false, &mut state);
    assert_eq!((state.placeholder_msg_id, state.status_panel_msg_id), (None, Some(2)));
    clear_stale_terminal_messages(true, true, &mut state);
    assert_eq!(state.status_panel_msg_id, None);
}

#[test]
fn unsent_text_is_assistant_text() {
    for (response, offset, unsent, assistant) in [
        ("done", 0, true, true),
        ("done  \n", 4, false, true),
        ("답 done", 3, true, true),
        ("답 done", 1, false, true),
        (" \u{3000}\n", 1, false, false),
    ] {
        let mut state = preflight_state(response);
        state.response_sent_offset = offset;
        let prepared = run_terminal_preflight_prepare(&preflight_facts(), &state);
        assert_eq!(prepared.has_current_response, unsent, "{response:?} {offset}");
        assert_eq!(prepared.has_assistant_response, assistant, "{response:?} {offset}");
    }
}
