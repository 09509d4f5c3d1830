use agentdesk_discord::watcher::forced_kill::{
    live_background_workers, write_watcher_forced_kill_log, KillOffset, WatcherForcedKillLog,
};
use agentdesk_discord::watcher::session::{
    active_pane_id, parse_tmux_pane_identity, strictly_parse_provider_and_channel_from_tmux_name,
    terminal_kill_identity_matches, watcher_session_is_main_orchestration, watcher_session_role,
    WatcherSessionRole,
};
use agentdesk_discord::watcher::stale_resume::{
    after_inflight_loaded, after_kill, after_placeholder_edited, after_provider_cleared,
    after_retry, after_session_taken, after_stale_id_cleared, handle_stale_resume_exit,
    stale_resume_kill_reason, RetryDecision, RetryRow, StaleResumeExitContext, StaleResumeStep,
};
use agentdesk_discord::watcher::terminal_abort::{
    execute_authorized_terminal_kill, execute_terminal_abort_plan_with, finish_terminal_abort,
    kill_detail, kill_is_revalidated, kill_ownership, legacy_no_row_terminal_abort, pinned_terminal_abort,
    project_terminal_abort_notice, AbortExitOutcome, AbortStep, ChannelMailboxSnapshot,
    KillAdmission, NoticeTarget, PinnedRow, PinnedTerminalAbort, TerminalAbortAuthority, TerminalAbortDiagnosis,
    TerminalAbortDispatchAction, TerminalAbortExitState, TerminalAbortPlan, TurnKey,
};

fn providers() -> Vec<String> {
    vec!["codex".to_string(), "gemini".to_string()]
}

fn segment(session: &str) -> Option<String> {
    strictly_parse_provider_and_channel_from_tmux_name(session, "", &providers())
        .map(|(_, channel)| channel)
}

#[test]
fn main_orchestration_session_is_never_automatic_kill_target() {
    let channel_id = 1_504_468_805_772_902_471;
    assert!(watcher_session_is_main_orchestration(
        segment("AgentDesk-codex-adk-cc").as_deref(),
        channel_id,
    ));
    assert!(!watcher_session_is_main_orchestration(
        segment("AgentDesk-codex-adk-cc-t1504468805772902471").as_deref(),
        channel_id,
    ));
}

#[test]
fn unparseable_session_role_fails_closed_as_main() {
    assert_eq!(segment("operator-created-session"), None);
    assert!(watcher_session_is_main_orchestration(
        segment("operator-created-session").as_deref(),
        42,
    ));
}

#[test]
fn diagnosis_by_session_role_kill_matrix_is_fail_closed() {
    let sessions = [
        ("AgentDesk-codex-adk-cc-t42", true),
        ("AgentDesk-gemini-worker-t42", false),
        ("AgentDesk-unknown-t42", false),
        ("AgentDesk-unknown-worker-t42", false),
        ("AgentDesk--adk-cc-t42", false),
        ("AgentDesk-codex--t42", false),
        ("AgentDesk-codex-adk-cc", false),
        ("AgentDesk-codex-adk-cc-t41", false),
        ("AgentDesk-codex-adk-cc-t42-extra", false),
        ("malformed-t42", false),
    ];
    for diagnosis in [
        TerminalAbortDiagnosis::PromptTooLong,
        TerminalAbortDiagnosis::AuthenticationFailed,
        TerminalAbortDiagnosis::ProviderOverload,
    ] {
        for (session, expected_kill) in sessions {
            let plan = TerminalAbortPlan {
                diagnosis,
                session_role: watcher_session_role(session, "", &providers(), "codex", 42),
            };
            let kills: Vec<AbortStep> = execute_terminal_abort_plan_with(plan)
                .into_iter()
                .filter(|step| matches!(step, AbortStep::Kill { .. }))
                .collect();
            assert_eq!(
                kills,
                [AbortStep::Kill { should_kill: expected_kill, diagnosis }],
                "session={session} diagnosis={diagnosis:?}"
            );
        }
    }
}

#[test]
fn replacement_tmux_identity_invalidates_authorized_kill() {
    let authorized = parse_tmux_pane_identity("$1\t%2\t300").expect("authorized identity");
    let same = parse_tmux_pane_identity("$1\t%2\t300").expect("same identity");
    let replacement_session = parse_tmux_pane_identity("$3\t%2\t300").expect("replacement session");
    let replacement_pane = parse_tmux_pane_identity("$1\t%4\t301").expect("replacement pane");

    assert!(terminal_kill_identity_matches(&authorized, Some(&same)));
    assert!(!terminal_kill_identity_matches(&authorized, Some(&replacement_session)));
    assert!(!terminal_kill_identity_matches(&authorized, Some(&replacement_pane)));
    assert!(!terminal_kill_identity_matches(&authorized, None));
    assert!(parse_tmux_pane_identity("$1\t%2\t0").is_none());
}

#[test]
fn pane_identity_needs_three_fields() {
    assert!(parse_tmux_pane_identity("$1\t%2").is_none());
    assert!(parse_tmux_pane_identity("$1\t%2\t3\t4").is_none());
    assert!(parse_tmux_pane_identity("\t%2\t3").is_none());
    assert!(parse_tmux_pane_identity("$1\t%2\t4294967296").is_none());
    let identity = parse_tmux_pane_identity(" $1\t%2\t4294967295\n").expect("identity");
    assert_eq!(identity.session_id, "$1");
    assert_eq!(identity.pane_id, "%2");
    assert_eq!(identity.pane_pid, 4294967295);
}

fn row(message_id: u64, session: &str, turn_start_offset: u64) -> PinnedRow {
    PinnedRow {
        finalizer_turn_id: message_id,
        turn_start_offset: Some(turn_start_offset),
        last_offset: turn_start_offset,
        tmux_session_name: Some(session.to_string()),
        dispatch_id: None,
        text_dispatch_id: Some("dispatch-in-text".to_string()),
    }
}

#[test]
fn pinned_identity_rejects_stale_evidence_and_newer_row() {
    let channel_id = 4_895_001;
    let session = "AgentDesk-codex-worker-t4895001";
    let old = row(4_895_101, session, 100);
    let abort = |evidence: Option<u64>, current_matches: Option<bool>| {
        pinned_terminal_abort(
            3,
            channel_id,
            session,
            Some(&old),
            evidence,
            180,
            current_matches,
        )
    };

    let admitted = abort(Some(150), Some(true)).expect("own turn");
    assert_eq!(
        admitted.key,
        TurnKey { channel_id, turn_id: 4_895_101, generation: 3 }
    );
    assert_eq!(
        TerminalAbortAuthority::Pinned(admitted).dispatch_id(),
        Some("dispatch-in-text")
    );
    assert!(
        abort(Some(99), Some(true)).is_none(),
        "terminal evidence before the pinned turn must not be admitted"
    );
    assert!(
        abort(Some(150), Some(false)).is_none(),
        "a newer durable identity must survive a stale watcher terminal"
    );
    assert!(abort(None, None).is_none());
    assert_eq!(TerminalAbortAuthority::LegacyNoRow.dispatch_id(), None);
}

#[test]
fn legacy_no_row_authority_is_bounded_to_idle_mailbox_and_watched_bytes() {
    let idle = ChannelMailboxSnapshot::default();
    assert!(legacy_no_row_terminal_abort(false, false, &idle, Some(150), 100, 180));
    for diagnosis in [
        TerminalAbortDiagnosis::PromptTooLong,
        TerminalAbortDiagnosis::AuthenticationFailed,
        TerminalAbortDiagnosis::ProviderOverload,
    ] {
        let plan = TerminalAbortPlan {
            diagnosis,
            session_role: WatcherSessionRole::Protected,
        };
        assert!(
            !plan.kills_session(),
            "legacy {diagnosis:?} must preserve tmux"
        );
    }

    let active = ChannelMailboxSnapshot {
        cancel_token: true,
        active_request_owner: Some(1),
        active_user_message_id: Some(2),
        active_turn_nonce: Some("successor".to_string()),
    };
    assert!(!legacy_no_row_terminal_abort(false, false, &active, Some(150), 100, 180));
    assert!(!legacy_no_row_terminal_abort(false, true, &idle, Some(150), 100, 180));
    assert!(!legacy_no_row_terminal_abort(false, false, &idle, Some(99), 100, 180));
    assert!(!legacy_no_row_terminal_abort(false, false, &idle, Some(180), 100, 180));
}

#[test]
fn auth_session_clear_is_exactly_once_before_kill_and_finalize() {
    assert_eq!(
        execute_terminal_abort_plan_with(TerminalAbortPlan {
            diagnosis: TerminalAbortDiagnosis::AuthenticationFailed,
            session_role: WatcherSessionRole::DisposableCurrentThread,
        }),
        [
            AbortStep::Dispatch {
                action: TerminalAbortDispatchAction::FailAuthExpired,
                reason: "provider_authentication_failed",
            },
            AbortStep::ClearAuthSession(true),
            AbortStep::Kill {
                should_kill: true,
                diagnosis: TerminalAbortDiagnosis::AuthenticationFailed,
            },
            AbortStep::Finalize,
            AbortStep::Project,
            AbortStep::Settle,
        ]
    );
}

#[test]
fn executor_finalizes_once_and_settles_after_projection_failure() {
    assert_eq!(
        execute_terminal_abort_plan_with(TerminalAbortPlan {
            diagnosis: TerminalAbortDiagnosis::ProviderOverload,
            session_role: WatcherSessionRole::Protected,
        }),
        [
            AbortStep::Dispatch {
                action: TerminalAbortDispatchAction::FailWithRetry,
                reason: "provider_capacity_response",
            },
            AbortStep::ClearAuthSession(false),
            AbortStep::Kill {
                should_kill: false,
                diagnosis: TerminalAbortDiagnosis::ProviderOverload,
            },
            AbortStep::Finalize,
            AbortStep::Project,
            AbortStep::Settle,
        ]
    );
    let mut state = TerminalAbortExitState {
        placeholder_from_restored_inflight: false,
        last_edit_text: String::new(),
        monitor_auto_turn_claimed: true,
        monitor_auto_turn_finished: false,
        monitor_auto_turn_synthetic_msg_id: Some(1),
        monitor_auto_turn_ledger_generation: Some(2),
        all_data: String::new(),
        all_data_start_offset: 0,
        all_data_fully_mirrored_to_session_relay: false,
        all_data_session_bound_relay_ack: false,
        all_data_first_forwarded_relay_sequence: None,
        prompt_too_long_killed: false,
    };
    assert_eq!(
        finish_terminal_abort(&mut state),
        AbortExitOutcome::ContinueWatcherLoop
    );
    assert!(state.monitor_auto_turn_finished);
    assert!(!state.monitor_auto_turn_claimed);
    assert_eq!(state.monitor_auto_turn_synthetic_msg_id, None);
}

#[test]
fn diagnoses_are_told_in_their_own_words() {
    assert_eq!(TerminalAbortDiagnosis::PromptTooLong.public_reason(), "prompt_too_long");
    assert_eq!(TerminalAbortDiagnosis::AuthenticationFailed.termination_reason(), "auth_error");
    assert_ne!(
        TerminalAbortDiagnosis::ProviderOverload.notice(true),
        TerminalAbortDiagnosis::ProviderOverload.notice(false)
    );
    assert_eq!(
        kill_detail(TerminalAbortDiagnosis::ProviderOverload),
        "watcher cleanup: provider_capacity_response"
    );
    assert_eq!(project_terminal_abort_notice(Some(5)), NoticeTarget::EditMessage(5));
    assert_eq!(project_terminal_abort_notice(None), NoticeTarget::NewMessage);
}

#[test]
fn kill_is_checked_once_more() {
    let pane = parse_tmux_pane_identity("$1\t%2\t300").expect("identity");
    let other = parse_tmux_pane_identity("$1\t%2\t301").expect("identity");
    let role = WatcherSessionRole::DisposableCurrentThread;
    assert_eq!(
        execute_authorized_terminal_kill(false, Some(&pane)),
        KillAdmission::PreserveProtected
    );
    assert_eq!(
        execute_authorized_terminal_kill(true, None),
        KillAdmission::PreserveUnidentified
    );
    assert_eq!(
        execute_authorized_terminal_kill(true, Some(&pane)),
        KillAdmission::Revalidate
    );
    assert!(kill_is_revalidated(None, role, &pane, Some(&pane)));
    assert!(!kill_is_revalidated(Some(false), role, &pane, Some(&pane)));
    assert!(!kill_is_revalidated(None, role, &pane, Some(&other)));
    assert!(!kill_is_revalidated(None, WatcherSessionRole::Protected, &pane, Some(&pane)));
}

#[test]
fn kill_is_rechecked_with_the_recorded_turn() {
    let pinned = TerminalAbortAuthority::Pinned(PinnedTerminalAbort {
        key: TurnKey { channel_id: 1, turn_id: 2, generation: 3 },
        dispatch_id: None,
    });
    assert_eq!(kill_ownership(&pinned, Some(true)), Some(true));
    assert_eq!(kill_ownership(&pinned, Some(false)), Some(false));
    assert_eq!(kill_ownership(&pinned, None), Some(false));
    assert_eq!(kill_ownership(&TerminalAbortAuthority::LegacyNoRow, Some(true)), None);
}

#[test]
fn control_characters_are_escaped_in_the_log() {
    let line = write_watcher_forced_kill_log(&WatcherForcedKillLog {
        timestamp: "\u{0}\u{1f}\u{7f}".to_string(),
        session: "\u{8}\t\n\u{c}\r".to_string(),
        pane_id: Some("\"\\/안".to_string()),
        pane_pid: None,
        offset: KillOffset::Current(0),
        decision_reason: String::new(),
        live_background_workers: Vec::new(),
    });
    assert_eq!(
        line,
        concat_lines(&[
            "{\"timestamp\":\"\\u0000\\u001f\u{7f}\",\"session\":\"\\b\\t\\n\\f\\r\",",
            "\"pane_id\":\"\\\"\\\\/안\",\"pane_pid\":null,\"current_offset\":0,",
            "\"decision_reason\":\"\",\"live_background_workers\":[]}\n",
        ])
    );
}

#[test]
fn forced_kill_is_logged_as_one_line_of_json() {
    let line = write_watcher_forced_kill_log(&WatcherForcedKillLog {
        timestamp: "2026-07-11T01:37:00+00:00".to_string(),
        session: "AgentDesk-\"x\"".to_string(),
        pane_id: None,
        pane_pid: Some(300),
        offset: KillOffset::Current(12),
        decision_reason: "prompt_too_long".to_string(),
        live_background_workers: vec!["a".to_string(), "b\n".to_string()],
    });
    assert_eq!(
        line,
        concat_lines(&[
            r#"{"timestamp":"2026-07-11T01:37:00+00:00","session":"AgentDesk-\"x\"","#,
            r#""pane_id":null,"pane_pid":300,"current_offset":12,"#,
            r#""decision_reason":"prompt_too_long","live_background_workers":["a","b\n"]}"#,
        ]) + "\n"
    );
    let parsed: serde_json::Value = serde_json::from_str(&line).expect("valid JSON");
    assert_eq!(parsed["session"], "AgentDesk-\"x\"");
}

#[test]
fn terminal_kill_log_names_the_evidence() {
    let mut record = WatcherForcedKillLog {
        timestamp: "t".to_string(),
        session: "s".to_string(),
        pane_id: Some("%1".to_string()),
        pane_pid: None,
        offset: KillOffset::TerminalEvidence(Some(9)),
        decision_reason: "r".to_string(),
        live_background_workers: vec![],
    };
    let line = write_watcher_forced_kill_log(&record);
    assert!(line.contains(r#""pane_id":"%1","pane_pid":null,"terminal_evidence_offset":9,"#));
    record.offset = KillOffset::TerminalEvidence(None);
    let line = write_watcher_forced_kill_log(&record);
    assert!(line.contains(r#""terminal_evidence_offset":null,"#));
}

#[test]
fn the_active_pane_is_what_tmux_names() {
    assert_eq!(active_pane_id(" %12\n"), Some("%12".to_string()));
    assert_eq!(active_pane_id(" \n"), None);
}

#[test]
fn only_the_first_filled_lines_are_logged_as_workers() {
    assert_eq!(live_background_workers(None), Vec::<String>::new());
    assert_eq!(live_background_workers(Some(" a \r\n\n\tb\n")), vec!["a", "b"]);
    let block = (0..40).map(|n| format!("w{n}")).collect::<Vec<_>>().join("\n\n");
    let workers = live_background_workers(Some(&block));
    assert_eq!(workers.len(), 32);
    assert_eq!(workers[31], "w31");
}

fn concat_lines(parts: &[&str]) -> String {
    parts.concat()
}

#[test]
fn stale_resume_goes_through_its_steps() {
    let context = StaleResumeExitContext {
        hostname: "host".to_string(),
        tmux_session_name: "AgentDesk-codex-adk-cc-t42".to_string(),
        channel_segment: Some("adk-cc-t42".to_string()),
        channel_id: 42,
        placeholder_msg_id: Some(9),
    };
    assert_eq!(handle_stale_resume_exit(false), StaleResumeStep::Finished);
    assert_eq!(handle_stale_resume_exit(true), StaleResumeStep::TakeProviderSession);
    assert_eq!(
        after_session_taken(&context, Some("stale".to_string())),
        StaleResumeStep::ClearProviderSession {
            session_key: "host:AgentDesk-codex-adk-cc-t42".to_string(),
            stale_session_id: Some("stale".to_string()),
        }
    );
    assert_eq!(
        after_provider_cleared(&context, Some("stale".to_string())),
        StaleResumeStep::ClearStaleSessionId("stale".to_string())
    );
    assert_eq!(
        after_stale_id_cleared(&context),
        StaleResumeStep::KillSession { blocked: false }
    );
    assert_eq!(stale_resume_kill_reason(), "stale_resume_retry");
    assert_eq!(after_kill(&context), StaleResumeStep::EditPlaceholder(9));
    assert_eq!(after_placeholder_edited(), StaleResumeStep::LoadInflight);
    assert_eq!(after_retry(), StaleResumeStep::Finished);
    let mut response = "partial".to_string();
    assert_eq!(
        after_inflight_loaded(
            Some(RetryRow {
                rebind_origin: false,
                user_msg_id: 7,
                user_text: "again".to_string(),
            }),
            &mut response,
        ),
        StaleResumeStep::Retry(RetryDecision::Queue {
            user_msg_id: 7,
            user_text: "again".to_string(),
        })
    );
    assert_eq!(response, "");
    let main = StaleResumeExitContext { channel_segment: None, ..context };
    assert_eq!(
        after_stale_id_cleared(&main),
        StaleResumeStep::KillSession { blocked: true }
    );
    assert_eq!(
        after_inflight_loaded(
            Some(RetryRow {
                rebind_origin: false,
                user_msg_id: 0,
                user_text: String::new(),
            }),
            &mut response,
        ),
        StaleResumeStep::Retry(RetryDecision::SkipNoUserMessage)
    );
    assert_eq!(
        after_inflight_loaded(None, &mut response),
        StaleResumeStep::Retry(RetryDecision::SkipMissing)
    );
}
