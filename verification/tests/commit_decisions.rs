use agentdesk_discord::message_id::{
    is_synthetic_headless_message_id_raw, SYNTHETIC_HEADLESS_MESSAGE_ID_FLOOR,
};
use agentdesk_discord::native_codex::WatcherTerminalKind;
use agentdesk_discord::relay_coord::{TmuxRelayCoord, UNRECORDED_RELAY_OFFSET};
use agentdesk_discord::watcher::commit_decisions::{
    commit_proven_soft_terminal_backlog, committed_row_requires_marker_tombstone,
    committed_synthetic_commit_requires_marker_tombstone,
    mark_watcher_terminal_delivery_committed, missing_inflight_after_session_bound_delivery,
    terminal_commit_is_recorded, watcher_commit_should_advance_runtime_binding,
    watcher_terminal_commit_side_effects_for_test,
    watcher_terminal_kind_requires_tui_completion_gate, CommittedRow, InflightTurnIdentity,
    RelayOwnerKind, TuiCompletionGateOutcome, TurnSource, WatcherTerminalCommitOutcome,
    WatcherTerminalCommitPatch,
};

#[test]
fn predicate_preserves_floor_boundary() {
    assert!(!is_synthetic_headless_message_id_raw(
        SYNTHETIC_HEADLESS_MESSAGE_ID_FLOOR - 1
    ));
    assert!(is_synthetic_headless_message_id_raw(SYNTHETIC_HEADLESS_MESSAGE_ID_FLOOR));
    assert!(is_synthetic_headless_message_id_raw(u64::MAX));
}

#[test]
fn committed_watcher_output_advances_runtime_binding_even_without_inflight() {
    assert!(watcher_commit_should_advance_runtime_binding(
        true,
        TuiCompletionGateOutcome::ConfirmedIdle,
        false,
    ));
}

#[test]
fn uncommitted_watcher_output_does_not_advance_runtime_binding() {
    assert!(!watcher_commit_should_advance_runtime_binding(
        false,
        TuiCompletionGateOutcome::ConfirmedIdle,
        false,
    ));
}

#[test]
fn busy_observation_without_delivery_still_advances_runtime_binding() {
    assert!(watcher_commit_should_advance_runtime_binding(
        true,
        TuiCompletionGateOutcome::BusyObserved,
        false,
    ));
}

#[test]
fn busy_observation_without_terminal_delivery_allows_cleanup() {
    let side_effects = watcher_terminal_commit_side_effects_for_test(
        true,
        TuiCompletionGateOutcome::BusyObserved,
        false,
    );

    assert!(side_effects.advance_runtime_binding);
    assert!(side_effects.advance_confirmed_end);
    assert!(side_effects.clear_inflight);
    assert!(side_effects.finish_restored_turn);
    assert!(!side_effects.late_output_retry_possible);

    let confirmed = watcher_terminal_commit_side_effects_for_test(
        true,
        TuiCompletionGateOutcome::ConfirmedIdle,
        false,
    );
    assert!(confirmed.advance_runtime_binding);
    assert!(confirmed.advance_confirmed_end);
    assert!(confirmed.clear_inflight);
    assert!(confirmed.finish_restored_turn);
    assert!(!confirmed.late_output_retry_possible);
}

#[test]
fn tui_completion_gate_busy_observation_after_terminal_delivery_allows_lifecycle_cleanup() {
    let side_effects = watcher_terminal_commit_side_effects_for_test(
        true,
        TuiCompletionGateOutcome::BusyObserved,
        true,
    );

    assert!(side_effects.advance_runtime_binding);
    assert!(side_effects.advance_confirmed_end);
    assert!(side_effects.clear_inflight);
    assert!(side_effects.finish_restored_turn);
    assert!(!side_effects.late_output_retry_possible);
}

#[test]
fn soft_user_boundary_terminal_skips_tui_completion_gate() {
    assert!(!watcher_terminal_kind_requires_tui_completion_gate(Some(
        WatcherTerminalKind::SoftUserBoundary
    )));
    assert!(watcher_terminal_kind_requires_tui_completion_gate(Some(
        WatcherTerminalKind::SoftStopHookSummary
    )));
    assert!(watcher_terminal_kind_requires_tui_completion_gate(Some(
        WatcherTerminalKind::HardResult
    )));
    assert!(watcher_terminal_kind_requires_tui_completion_gate(None));
}

#[test]
fn acknowledged_session_bound_delivery_is_not_missing_inflight_fallback() {
    assert!(!missing_inflight_after_session_bound_delivery(true, true));
    assert!(missing_inflight_after_session_bound_delivery(true, false));
    assert!(!missing_inflight_after_session_bound_delivery(false, false));
}

#[test]
fn suppressed_commit_requires_tombstone_only_for_watcher_synthetic_rows() {
    assert!(committed_synthetic_commit_requires_marker_tombstone(true, true, 42, true));
    assert!(!committed_synthetic_commit_requires_marker_tombstone(true, false, 42, true));
    assert!(!committed_synthetic_commit_requires_marker_tombstone(false, true, 42, true));
    assert!(!committed_synthetic_commit_requires_marker_tombstone(true, true, 0, true));
    assert!(!committed_synthetic_commit_requires_marker_tombstone(true, true, 42, false));
}

#[test]
fn tombstone_is_decided_by_the_row() {
    let row = CommittedRow {
        turn_source: TurnSource::ExternalInput,
        relay_owner_kind: RelayOwnerKind::Watcher,
        user_msg_id: 42,
        tmux_session_present: true,
    };
    assert!(committed_row_requires_marker_tombstone(&row));
    let managed = CommittedRow { turn_source: TurnSource::Managed, ..row };
    assert!(!committed_row_requires_marker_tombstone(&managed));
    let bridge = CommittedRow { relay_owner_kind: RelayOwnerKind::Other, ..row };
    assert!(!committed_row_requires_marker_tombstone(&bridge));
}

fn identity(user_msg_id: u64, turn_start_offset: Option<u64>) -> InflightTurnIdentity {
    InflightTurnIdentity {
        user_msg_id,
        started_at: "2026-07-11 01:37:00".to_string(),
        tmux_session_name: Some("AgentDesk-codex-adk-cc".to_string()),
        turn_start_offset,
    }
}

#[test]
fn delivery_is_marked_with_the_turn_that_it_belongs_to() {
    let patch = mark_watcher_terminal_delivery_committed(
        Some(&identity(7, None)),
        "answer",
        10,
        Some(77),
        20,
    );
    assert_eq!(
        patch,
        Some(WatcherTerminalCommitPatch {
            full_response: "answer".to_string(),
            last_offset: 20,
            last_watcher_relayed_offset: Some(10),
            last_watcher_relayed_generation_mtime_ns: Some(77),
        })
    );
    let mark = |identity: Option<&InflightTurnIdentity>, response: &str| {
        mark_watcher_terminal_delivery_committed(identity, response, 10, None, 20)
    };
    assert_eq!(mark(None, "answer"), None);
    assert_eq!(mark(Some(&identity(7, None)), " \n"), None);
    assert_eq!(mark(Some(&identity(0, None)), "answer"), None);
    assert!(mark(Some(&identity(0, Some(5))), "answer").is_some());
    assert!(terminal_commit_is_recorded(WatcherTerminalCommitOutcome::Committed));
    assert!(!terminal_commit_is_recorded(WatcherTerminalCommitOutcome::Skipped));
    assert!(!terminal_commit_is_recorded(WatcherTerminalCommitOutcome::IoError));
}

#[test]
fn identity_is_told_apart_by_every_part() {
    let base = identity(7, Some(3));
    assert!(base.matches_state(&identity(7, Some(3))));
    assert!(!base.matches_state(&identity(8, Some(3))));
    assert!(!base.matches_state(&identity(7, Some(4))));
    assert!(!base.matches_state(&identity(7, None)));
    let mut other = identity(7, Some(3));
    other.tmux_session_name = None;
    assert!(!base.matches_state(&other));
    let mut later = identity(7, Some(3));
    later.started_at = "later".to_string();
    assert!(!base.matches_state(&later));
}

#[test]
fn contiguous_proof_advances_the_frontier_4961() {
    let mut coord = TmuxRelayCoord::new();
    assert_eq!(coord.confirmed_end_or_zero(), 0);
    let target = commit_proven_soft_terminal_backlog(
        Some((0, 5000)),
        coord.confirmed_end_or_zero(),
        (5000, 6200),
    );
    assert_eq!(target, Some(5000));
    assert!(coord.advance_confirmed_end(target.unwrap()));
    assert_eq!(coord.confirmed_end_or_zero(), 5000);
}

#[test]
fn non_contiguous_proof_must_not_jump_the_hole_4961() {
    let coord = TmuxRelayCoord::new();
    assert_eq!(
        commit_proven_soft_terminal_backlog(
            Some((3000, 5000)),
            coord.confirmed_end_or_zero(),
            (5000, 6200),
        ),
        None
    );
}

#[test]
fn advance_is_capped_at_the_refused_range_4961() {
    assert_eq!(
        commit_proven_soft_terminal_backlog(Some((0, 9000)), 0, (0, 4000)),
        Some(4000),
        "proof reached 9000 but only the refused range may be settled here"
    );
}

#[test]
fn unproven_backlog_is_left_alone_4961() {
    assert_eq!(commit_proven_soft_terminal_backlog(None, 0, (0, 256)), None);
}

#[test]
fn catch_up_never_goes_back() {
    assert_eq!(commit_proven_soft_terminal_backlog(Some((0, 5000)), 5000, (5000, 6200)), None);
    assert_eq!(commit_proven_soft_terminal_backlog(Some((0, 5000)), 4500, (0, 4000)), None);
}

#[test]
fn frontier_is_published_and_only_advances() {
    let mut coord = TmuxRelayCoord::new();
    assert_eq!(coord.confirmed_end_publication(), None);
    assert!(coord.advance_confirmed_end(0));
    assert_eq!(coord.confirmed_end_publication(), Some(0));
    assert!(coord.advance_confirmed_end(10));
    assert!(!coord.advance_confirmed_end(10));
    assert!(!coord.advance_confirmed_end(5));
    assert_eq!(coord.confirmed_end_publication(), Some(10));
    assert_eq!(coord.reset_state.incarnation, 0);
}

#[test]
fn frontier_is_reset_where_it_is_expected() {
    let mut coord = TmuxRelayCoord::new();
    coord.publish_confirmed_end_for_test(10);
    assert!(!coord.reset_confirmed_frontier(11, 0));
    assert_eq!(coord.reset_state.incarnation, 0);
    coord.reset_state.active_mutations = 1;
    assert!(!coord.reset_confirmed_frontier(10, 0));
    coord.reset_state.active_mutations = 0;
    assert!(coord.reset_confirmed_frontier(10, 0));
    assert_eq!(coord.confirmed_end_publication(), Some(0));
    assert_eq!(coord.reset_state.incarnation, 1);
    coord.reset_state.incarnation = u64::MAX;
    coord.publish_confirmed_end_for_test(3);
    assert!(coord.reset_confirmed_frontier(3, 1));
    assert_eq!(coord.reset_state.incarnation, 0);
    coord.note_relay_progress_heartbeat(99);
    assert_eq!(coord.last_relay_ts_ms, 99);
    assert_eq!(coord.confirmed_end_or_zero(), 1);
}

#[test]
fn end_that_stands_for_no_frontier_unpublishes_it() {
    let mut coord = TmuxRelayCoord::new();
    coord.publish_confirmed_end_for_test(3);
    assert!(coord.advance_confirmed_end(UNRECORDED_RELAY_OFFSET));
    assert_eq!(coord.confirmed_end_publication(), None);
}
