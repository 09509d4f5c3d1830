use agentdesk_discord::native_codex::WatcherTerminalKind;
use agentdesk_discord::watcher::orphan_frame::{
    observe_orphan_terminal_frame, owner_or_record_holds, range_already_committed,
    terminal_frame_owner_or_record_invariant, OrphanFrameNames, OrphanFrameStep,
    OrphanTerminalFrameFacts, SessionBoundRelayAckOutcome, SoftTerminalAuthorityDenial,
};

const SESSION: &str = "AgentDesk-codex-adk-cc";
const FRAME_START: u64 = 1_534_426;
const FRAME_END: u64 = 1_650_085;
const LOST_BODY: &str = "the assistant answer the sink declined and the watcher could not send";
const LOST_CHANNEL: u64 = 1_479_671_298_497_183_835;
const SENT_PREFIX: usize = 4_096;
const GENERATION_MTIME_NS: i64 = 1_758_000_000_000_000_000;

fn orphan_facts() -> OrphanTerminalFrameFacts<'static> {
    OrphanTerminalFrameFacts {
        denial: Some(SoftTerminalAuthorityDenial::TurnStartOutsideFrame),
        watcher_direct_fallback_requested: true,
        watcher_direct_fallback_authorized: false,
        session_bound_relay_owns_terminal_delivery: false,
        direct_terminal_response_refused_duplicate: false,
        current_response: LOST_BODY,
        response_sent_offset: SENT_PREFIX,
        full_response_len: SENT_PREFIX + LOST_BODY.len(),
        data_start_offset: FRAME_START,
        current_offset: FRAME_END,
        terminal_event_consumed_offset: FRAME_END,
        watcher_resend_committed: FRAME_START,
        terminal_kind: Some(WatcherTerminalKind::SoftStopHookSummary),
        session_bound_ack_outcome: SessionBoundRelayAckOutcome::NotDelivered,
        inflight_present: true,
        inflight_relay_owner: "none",
        startup_snapshot_authority: false,
        tmux_session_name: SESSION,
        placeholder_msg_id: Some(5_941_000),
        request_owner_user_id: Some(343_742_347_365_974_026),
    }
}

fn names() -> OrphanFrameNames<'static> {
    OrphanFrameNames {
        denial: "turn_start_outside_frame",
        terminal_kind: Some("soft_stop_hook_summary"),
        frame_ack_outcome: "NotDelivered",
    }
}

#[test]
fn r3_6_range_already_committed_compares_the_end_only_baseline_6292() {
    assert!(!range_already_committed(150, 100), "straddle [50,150) over F=100 is sent");
    assert!(range_already_committed(100, 100));
    assert!(range_already_committed(60, 100));
    assert!(!range_already_committed(0, 100), "END 0 is never committed");
}

#[test]
fn denied_terminal_frame_with_a_body_requires_a_durable_record_5941() {
    assert!(orphan_facts().record_required());
}

#[test]
fn a_frame_with_no_denial_requires_no_record_5941() {
    let facts = OrphanTerminalFrameFacts { denial: None, ..orphan_facts() };
    assert!(!facts.record_required());
}

#[test]
fn an_empty_terminal_body_requires_no_record_5941() {
    let facts = OrphanTerminalFrameFacts { current_response: "", ..orphan_facts() };
    assert!(!facts.record_required());
}

#[test]
fn a_frame_whose_consumed_range_did_not_advance_requires_no_record_5941() {
    for consumed_end in [FRAME_START, FRAME_START - 1, 0] {
        let facts = OrphanTerminalFrameFacts {
            terminal_event_consumed_offset: consumed_end,
            ..orphan_facts()
        };
        assert!(
            !facts.record_required(),
            "consumed_end {consumed_end} does not advance past data_start_offset {FRAME_START}"
        );
    }
}

#[test]
fn a_frame_someone_else_delivered_requires_no_record_5941() {
    for facts in [
        OrphanTerminalFrameFacts {
            session_bound_relay_owns_terminal_delivery: true,
            ..orphan_facts()
        },
        OrphanTerminalFrameFacts {
            direct_terminal_response_refused_duplicate: true,
            ..orphan_facts()
        },
        OrphanTerminalFrameFacts {
            watcher_direct_fallback_authorized: true,
            ..orphan_facts()
        },
        OrphanTerminalFrameFacts {
            watcher_direct_fallback_requested: false,
            ..orphan_facts()
        },
    ] {
        assert!(
            !facts.record_required(),
            "a frame with a delivery owner must not be dead-lettered"
        );
    }
}

#[test]
fn a_post_that_may_have_landed_requires_no_record() {
    for outcome in [
        SessionBoundRelayAckOutcome::RingUnknown,
        SessionBoundRelayAckOutcome::TimedOut,
    ] {
        let facts = OrphanTerminalFrameFacts {
            session_bound_ack_outcome: outcome,
            ..orphan_facts()
        };
        assert!(!facts.record_required());
        assert_eq!(observe_orphan_terminal_frame(&facts), OrphanFrameStep::Report);
    }
    let other = OrphanTerminalFrameFacts {
        session_bound_ack_outcome: SessionBoundRelayAckOutcome::Other,
        ..orphan_facts()
    };
    assert!(other.record_required());
}

#[test]
fn record_decision_is_pinned_across_every_kind_and_denial_pair_5941() {
    for terminal_kind in [
        None,
        Some(WatcherTerminalKind::HardResult),
        Some(WatcherTerminalKind::SoftStopHookSummary),
        Some(WatcherTerminalKind::SoftUserBoundary),
    ] {
        for denial in [
            None,
            Some(SoftTerminalAuthorityDenial::NoInflightRow),
            Some(SoftTerminalAuthorityDenial::SessionMismatch),
            Some(SoftTerminalAuthorityDenial::TurnStartOutsideFrame),
            Some(SoftTerminalAuthorityDenial::RelayOwnerNone),
            Some(SoftTerminalAuthorityDenial::TurnNonceMissing),
            Some(SoftTerminalAuthorityDenial::TurnNonceMismatch),
        ] {
            let soft = matches!(
                terminal_kind,
                Some(WatcherTerminalKind::SoftStopHookSummary)
                    | Some(WatcherTerminalKind::SoftUserBoundary)
            );
            let authorized = !soft || denial.is_none();
            let facts = OrphanTerminalFrameFacts {
                denial,
                terminal_kind,
                watcher_direct_fallback_authorized: authorized,
                ..orphan_facts()
            };
            assert_eq!(
                facts.record_required(),
                denial.is_some() && !authorized,
                "kind {terminal_kind:?} denial {denial:?} authorized {authorized}"
            );
        }
    }
}

#[test]
fn the_record_reason_carries_both_coordinate_systems_5941() {
    let facts = orphan_facts();
    let reason = facts.reason(&names(), "codex", GENERATION_MTIME_NS);

    assert!(reason.starts_with("terminal_no_delivery_owner "), "{reason}");
    for expected in [
        "denial=turn_start_outside_frame".to_string(),
        "terminal_kind=soft_stop_hook_summary".to_string(),
        format!("response_sent_offset={SENT_PREFIX}"),
        format!("full_response_len={}", SENT_PREFIX + LOST_BODY.len()),
        format!("jsonl_start={FRAME_START}"),
        format!("jsonl_end={FRAME_END}"),
        format!("current_offset={FRAME_END}"),
        format!("generation_mtime_ns={GENERATION_MTIME_NS}"),
        format!("tmux_session={SESSION}"),
        "provider=codex".to_string(),
        "inflight_relay_owner=none".to_string(),
        "frame_ack_outcome=NotDelivered".to_string(),
    ] {
        assert!(reason.contains(&expected), "reason must carry `{expected}`: {reason}");
    }
    assert!(
        !reason.contains(&format!("jsonl_start={SENT_PREFIX}")),
        "the response coordinate must never be reported as a transcript offset: {reason}"
    );
}

#[test]
fn reason_is_one_line() {
    let names = OrphanFrameNames { terminal_kind: None, ..names() };
    let facts = OrphanTerminalFrameFacts {
        response_sent_offset: 1,
        full_response_len: 2,
        data_start_offset: 3,
        terminal_event_consumed_offset: 4,
        current_offset: 5,
        ..orphan_facts()
    };
    assert_eq!(
        facts.reason(&names, "codex", i64::MIN),
        [
            "terminal_no_delivery_owner denial=turn_start_outside_frame terminal_kind=unknown ",
            "response_sent_offset=1 full_response_len=2 jsonl_start=3 jsonl_end=4 ",
            "current_offset=5 generation_mtime_ns=-9223372036854775808 ",
            "tmux_session=AgentDesk-codex-adk-cc provider=codex inflight_relay_owner=none ",
            "frame_ack_outcome=NotDelivered",
        ]
        .concat()
    );
}

#[test]
fn the_dead_letter_row_preserves_the_unsent_tail_and_the_delivery_channel_5941() {
    let record = orphan_facts().dead_letter_record(LOST_CHANNEL, "why".to_string());
    assert_eq!(record.kind, "terminal_no_delivery_owner");
    assert_eq!(record.content, LOST_BODY, "the row must carry the unsent tail");
    assert_eq!(record.channel_id, "1479671298497183835");
    assert_eq!(record.author_id.as_deref(), Some("343742347365974026"));
    assert_eq!(record.message_id.as_deref(), Some("5941000"));
    assert_eq!(record.reason, "why");
    let anonymous = OrphanTerminalFrameFacts {
        placeholder_msg_id: None,
        request_owner_user_id: None,
        ..orphan_facts()
    };
    let record = anonymous.dead_letter_record(1, String::new());
    assert_eq!((record.author_id, record.message_id), (None, None));
}

#[test]
fn a_dropped_body_with_no_durable_record_violates_i17_5941() {
    let observe = |facts: &OrphanTerminalFrameFacts<'_>, recorded: bool| {
        owner_or_record_holds(observe_orphan_terminal_frame(facts), recorded)
    };
    assert!(
        !observe(&orphan_facts(), false),
        "a body dropped with no delivery owner AND no durable record must violate I17"
    );
    assert!(observe(&orphan_facts(), true));

    for benign in [
        OrphanTerminalFrameFacts {
            session_bound_relay_owns_terminal_delivery: true,
            ..orphan_facts()
        },
        OrphanTerminalFrameFacts { current_response: "", ..orphan_facts() },
        OrphanTerminalFrameFacts { denial: None, ..orphan_facts() },
    ] {
        assert!(
            observe(&benign, false),
            "a frame with an owner, no body, or no denial must not page as an unrecorded loss"
        );
    }

    assert_eq!(
        terminal_frame_owner_or_record_invariant(),
        "terminal_frame_has_a_delivery_owner_or_a_record"
    );
}
