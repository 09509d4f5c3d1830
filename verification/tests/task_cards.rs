use std::collections::HashMap;

use agentdesk_discord::json::{JsonField, JsonNumber, JsonValue};
use agentdesk_discord::task_cards::context::{
    merge_context, task_stream_fields, TaskNotificationContext, TaskStart,
};
use agentdesk_discord::task_cards::delivery::{
    after_claim, after_edit, after_failure_recorded, after_post, after_recorded,
    after_replacement_prepared, deliver_claim, ensure_card, map_transport_error, record_footer_only, CardClaim, CardDisposition,
    CardEnsureError, CardEnsureOutcome, ClaimAction, ClaimedCard, DeliverStep, EnsureIntent,
    EnsureStep, MAX_CLAIM_ATTEMPTS,
};
use agentdesk_discord::task_cards::event::{
    SubagentNotificationSemantic, TaskCardEvent, TaskCardPayload, TaskNotification,
};
use agentdesk_discord::task_cards::fence::{
    bind_response_turn_memory, check_response_turn_key, fallback_query_is_keyed,
    mark_response_delivered_memory, response_fallback_must_wait,
    response_fallback_must_wait_memory, MemoryRow, MemoryState, MemoryStore,
};
use agentdesk_discord::task_cards::gateway::{
    map_card_edit_error, map_card_post_error, CardBot, CardDeliveryClients,
    ClassifiedOutboundEditError, ClassifiedOutboundPostError, TaskCardTransportError,
};
use agentdesk_discord::task_cards::identity::{
    clean_line, clean_optional, content_hash, fingerprint, normalized_task_payload_fingerprint,
    provider_bot_key, response_turn_key, semantic_event_key, source_bound_scope, stable_nonce,
    task_notification_marker_session_key, terminal_source_fingerprint, TaskCardScope,
    TaskNotificationKind,
};
use agentdesk_discord::task_cards::marker::{
    footer_only_background_marker_content, marker_lines, MarkerContent,
};
use agentdesk_discord::task_cards::started_at::{
    parse_turn_started_at, resolve_started_at, UtcInstant,
};

const SESSION: &str = "AgentDesk-codex-4055";

fn plain(value: serde_json::Value) -> JsonValue {
    match value {
        serde_json::Value::Null => JsonValue::Null,
        serde_json::Value::Bool(flag) => JsonValue::Bool(flag),
        serde_json::Value::Number(number) => JsonValue::Number(JsonNumber {
            unsigned: number.as_u64(),
            text: number.to_string(),
        }),
        serde_json::Value::String(text) => JsonValue::Text(text),
        serde_json::Value::Array(values) => {
            JsonValue::Array(values.into_iter().map(plain).collect())
        }
        serde_json::Value::Object(fields) => JsonValue::Object(
            fields
                .into_iter()
                .map(|(name, value)| JsonField { name, value: plain(value) })
                .collect(),
        ),
    }
}

fn stream_context(
    text: &str,
    starts: Vec<TaskStart>,
    classified: &str,
) -> Option<TaskNotificationContext> {
    let value = plain(serde_json::from_str(text).expect("valid JSON"));
    task_stream_fields(&value)
        .map(|fields| TaskNotificationContext::from_stream_json(&fields, &starts, classified))
}

fn note(task_id: Option<&str>, tool_use_id: Option<&str>, summary: &str) -> TaskNotification {
    TaskNotification {
        task_id: task_id.map(str::to_string),
        tool_use_id: tool_use_id.map(str::to_string),
        status: Some("completed".to_string()),
        summary: Some(summary.to_string()),
        kind: "background".to_string(),
        routing_kind: TaskNotificationKind::Background,
    }
}

fn event(task_id: &str) -> TaskCardEvent {
    let tool = format!("toolu-{task_id}");
    TaskCardEvent::from_task_prompt(
        44_055,
        "codex",
        SESSION,
        note(
            Some(task_id),
            Some(&tool),
            "Background command \"CI\" completed",
        ),
    )
}

#[test]
fn authoritative_card_post_4xx_maps_to_permanent_transport_failure() {
    let error = map_card_post_error(ClassifiedOutboundPostError::Permanent(
        "Discord rejected task card POST with 403".to_string(),
    ));
    assert!(matches!(error, TaskCardTransportError::Permanent(_)));
}

#[test]
fn transport_errors_keep_their_text() {
    assert_eq!(
        map_card_post_error(ClassifiedOutboundPostError::Transient("429".to_string())),
        TaskCardTransportError::Transient("429".to_string())
    );
    assert_eq!(
        map_card_edit_error(ClassifiedOutboundEditError::ConfirmedMissing("404".to_string())),
        TaskCardTransportError::ConfirmedMissing("404".to_string())
    );
    assert_eq!(
        map_card_edit_error(ClassifiedOutboundEditError::Other("500".to_string())),
        TaskCardTransportError::Transient("500".to_string())
    );
    assert_eq!(
        map_transport_error(TaskCardTransportError::ConfirmedMissing("404".to_string())),
        CardEnsureError::Permanent("404".to_string())
    );
    assert_eq!(
        CardEnsureError::Busy("x".to_string()).message(),
        "task card delivery is busy: x"
    );
    assert_eq!(
        CardEnsureError::Transient("x".to_string()).message(),
        "task card delivery is transient: x"
    );
    assert_eq!(
        CardEnsureError::Permanent("x".to_string()).message(),
        "task card delivery failed permanently: x"
    );
    assert_eq!(
        CardEnsureError::Store("x".to_string()).message(),
        "task card state error: x"
    );
}

#[test]
fn response_turn_key_is_stable_and_separates_offsets() {
    let first = response_turn_key(4055, "2026-07-11T01:37:00Z", Some(10));
    assert_eq!(first.len(), 64);
    assert_eq!(
        first,
        response_turn_key(4055, "2026-07-11T01:37:00Z", Some(10))
    );
    assert_ne!(
        first,
        response_turn_key(4055, "2026-07-11T01:37:00Z", Some(11))
    );
}

#[test]
fn fingerprints_have_known_values() {
    assert_eq!(
        response_turn_key(4055, "2026-07-11T01:37:00Z", Some(10)),
        "02e4a2f587e357b1c85fc96bf62a15b12b2f35f411821020438cf5565c1a0221"
    );
    assert_eq!(
        response_turn_key(0, "x", None),
        "a722db28fb453916c786f3a9a6c274b1dbb3aad72e930ed91e3e6063a60967bc"
    );
    assert_eq!(
        content_hash("done"),
        "11253cadee19e014922e672e5f52363f5fa4a7b190989e438e00767416278652"
    );
    assert_eq!(fingerprint(&vec!["done".to_string()]), "11253cadee19e014");
    let scope = TaskCardScope::new(44_055, " CODEX ", SESSION, "task:same");
    assert_eq!(scope.provider, "codex");
    assert_eq!(stable_nonce(&scope, 1), "adktn0b7863de6f7db9de6ad2");
}

#[test]
fn xml_and_stream_json_share_semantic_key_and_nonce_is_bounded() {
    let event = event("same-task");
    let context = stream_context(
        r#"{
            "type": "system",
            "subtype": "task_notification",
            "task_id": "same-task",
            "tool_use_id": "toolu-same-task",
            "status": "completed",
            "summary": "Background command \"CI\" completed",
            "task_notification_kind": "background"
        }"#,
        Vec::new(),
        "background",
    )
    .expect("stream task context");
    let stream_event = context.to_event(44_055, "codex", SESSION);
    assert_eq!(event.scope.event_key, stream_event.scope.event_key);
    let nonce = stable_nonce(&event.scope, 1);
    assert!(nonce.len() <= 25, "Discord nonce length: {nonce}");
    assert_eq!(nonce, stable_nonce(&stream_event.scope, 1));
}

#[test]
fn stream_context_recovers_tool_identity_from_task_start_state() {
    let context = stream_context(
        r#"{
            "type": "system",
            "subtype": "task_notification",
            "task_id": "state-task",
            "status": "completed",
            "summary": "Subagent finished"
        }"#,
        vec![TaskStart {
            task_id: "state-task".to_string(),
            tool_use_id: Some("toolu-from-start".to_string()),
        }],
        "subagent",
    )
    .expect("stream task context");
    assert_eq!(context.tool_use_id.as_deref(), Some("toolu-from-start"));
    assert_eq!(context.routing_kind(), TaskNotificationKind::Subagent);
}

#[test]
fn other_values_of_the_stream_give_no_context() {
    assert!(stream_context(r#"{"type": "result"}"#, Vec::new(), "background").is_none());
    assert!(stream_context(r#"{"type": "system"}"#, Vec::new(), "background").is_none());
}

#[test]
fn semantic_identity_separates_tasks_sessions_and_channels() {
    let first = event("identity-a");
    let different_task = event("identity-b");
    let different_channel = TaskCardEvent::from_task_prompt(
        44_056,
        "codex",
        SESSION,
        note(Some("identity-a"), None, "done"),
    );
    let different_session = TaskCardEvent::from_task_prompt(
        44_055,
        "codex",
        "AgentDesk-codex-other",
        note(Some("identity-a"), None, "done"),
    );

    assert_ne!(first.scope.event_key, different_task.scope.event_key);
    assert_ne!(
        stable_nonce(&first.scope, 1),
        stable_nonce(&different_task.scope, 1)
    );
    assert_ne!(
        stable_nonce(&first.scope, 1),
        stable_nonce(&different_channel.scope, 1)
    );
    assert_ne!(
        stable_nonce(&first.scope, 1),
        stable_nonce(&different_session.scope, 1)
    );
}

#[test]
fn fully_unkeyed_task_event_cannot_be_deferred_to_footer() {
    let event = TaskCardEvent::from_task_prompt(
        44_055,
        "codex",
        SESSION,
        note(None, None, "unkeyed work"),
    );
    assert!(!event.supports_footer_deferral());
    assert!(event.scope.event_key.starts_with("payload:"));

    let stream = stream_context(
        r#"{
            "type": "system",
            "subtype": "task_notification",
            "status": "completed",
            "summary": "unkeyed work",
            "task_notification_kind": "subagent"
        }"#,
        Vec::new(),
        "background",
    )
    .expect("unkeyed stream context")
    .to_event(44_055, "codex", SESSION);
    assert_eq!(event.scope.event_key, stream.scope.event_key);
    assert_eq!(
        stable_nonce(&event.scope, 1),
        stable_nonce(&stream.scope, 1)
    );
}

fn done() -> SubagentNotificationSemantic {
    SubagentNotificationSemantic {
        task_id: None,
        tool_use_id: None,
        payload_fingerprint: normalized_task_payload_fingerprint(None, None, "completed", "done"),
    }
}

#[test]
fn subagent_agent_path_is_ignored_and_never_enters_identity() {
    let raw = r#"<subagent_notification>{"agent_path":"/private/secret/agent-42","status":{"completed":"done"}}</subagent_notification>"#;
    let from = |prompt: &str| {
        TaskCardEvent::from_subagent_prompt(
            1,
            "codex",
            "session",
            Some(done()),
            prompt,
            "Subagent completed".to_string(),
        )
    };
    let event = from(raw);
    assert!(!event.scope.event_key.contains("/private/secret"));
    assert!(!event.payload.render(1, "").contains("/private/secret"));
    let elsewhere = from(&raw.replace("/private/secret/agent-42", "/private/other/agent-7"));
    assert_eq!(event.scope, elsewhere.scope);
    assert_eq!(stable_nonce(&event.scope, 1), stable_nonce(&elsewhere.scope, 1));
    assert_eq!(
        event.scope.event_key,
        format!("payload:{}", done().payload_fingerprint)
    );
}

#[test]
fn identity_less_subagent_prompt_and_stream_share_one_semantic_event() {
    let prompt = r#"<subagent_notification>{"agent_path":"/private/secret/agent-42","status":{"completed":"done"}}</subagent_notification>"#;
    let prompt_event = TaskCardEvent::from_subagent_prompt(
        1,
        "codex",
        "session",
        Some(done()),
        prompt,
        "Subagent completed".to_string(),
    );
    let stream_event = stream_context(
        r#"{
            "type": "system",
            "subtype": "task_notification",
            "status": "completed",
            "summary": "done",
            "task_notification_kind": "subagent"
        }"#,
        Vec::new(),
        "background",
    )
    .expect("identity-less stream context")
    .to_event(1, "codex", "session");

    assert_eq!(
        prompt_event.scope.event_key, stream_event.scope.event_key,
        "prompt observation and stream delivery must converge on one card",
    );
    assert_eq!(stream_event.scope.terminal_delivery_fingerprint, None);
}

#[test]
fn malformed_subagent_still_has_safe_durable_identity_and_card() {
    let secret = "/private/secret/malformed-agent";
    let raw = format!(
        r#"<subagent_notification>{{"agent_path":"{secret}",broken}}</subagent_notification>"#
    );
    let event = TaskCardEvent::from_subagent_prompt(
        1,
        "codex",
        "session",
        None,
        &raw,
        "malformed payload omitted".to_string(),
    );
    assert!(!event.scope.event_key.contains(secret));
    let digits = event.scope.event_key.strip_prefix("payload:").expect("payload key");
    assert_eq!(digits.len(), 16);
    assert!(digits.bytes().all(|byte| byte.is_ascii_hexdigit()));
    let again = |prompt: &str| {
        TaskCardEvent::from_subagent_prompt(1, "codex", "session", None, prompt, String::new())
    };
    assert_eq!(again(&raw).scope, event.scope);
    assert_ne!(again(&raw.replace("broken", "other")).scope, event.scope);
    assert!(!event.payload.render(1, "").contains(secret));
    assert!(event.payload.render(1, "").contains("malformed payload omitted"));
    assert_eq!(event.kind(), "subagent");
    assert_eq!(
        event.payload.render(3, ""),
        "malformed payload omitted\n\n-# 3 updates"
    );
}

#[test]
fn event_keys_prefer_the_task() {
    let task = semantic_event_key(Some("a"), Some("b"), "c");
    assert!(task.starts_with("task:"));
    assert_eq!(task.len(), 5 + 16);
    assert!(semantic_event_key(Some(" "), Some("b"), "c").starts_with("tool:"));
    assert_eq!(semantic_event_key(None, Some(""), "c"), "payload:c");
    assert_eq!(clean_line("  a \n\t b "), "a b");
    assert_eq!(clean_optional(Some(" \n")), None);
    assert_eq!(clean_optional(Some(" x ")), Some("x".to_string()));
    assert_eq!(provider_bot_key(" Codex "), "provider:codex");
    assert_eq!(
        task_notification_marker_session_key(1, "e", TaskNotificationKind::MonitorAutoTurn),
        Some("monitor_auto_turn:ch:1:event:e".to_string())
    );
    assert_eq!(
        task_notification_marker_session_key(1, "e", TaskNotificationKind::Subagent),
        None
    );
}

#[test]
fn source_event_does_not_enter_the_key() {
    let with = TaskCardEvent::from_task_prompt_with_source_event_id(
        1,
        "codex",
        "s",
        note(Some("t"), None, "done"),
        Some("entry-1"),
    );
    let without = TaskCardEvent::from_task_prompt(1, "codex", "s", note(Some("t"), None, "done"));
    assert_eq!(with.scope.event_key, without.scope.event_key);
    assert_eq!(without.scope.terminal_delivery_fingerprint, None);
    assert_eq!(
        with.scope.terminal_delivery_fingerprint,
        Some(terminal_source_fingerprint("codex", "entry-1"))
    );
    let bound = source_bound_scope(1, "codex", "s", "k".to_string(), None);
    assert!(bound.same_card(&TaskCardScope::new(1, "codex", "s", "k")));
    assert!(!bound.same_card(&TaskCardScope::new(2, "codex", "s", "k")));
}

#[test]
fn merged_context_keeps_the_higher_priority() {
    let of_kind = |kind: &str| {
        stream_context(
            &format!(
                r#"{{"type": "system", "subtype": "task_notification", "task_id": "{kind}", "task_notification_kind": "{kind}"}}"#
            ),
            Vec::new(),
            "background",
        )
        .expect("context")
    };
    let kind = |merged: &Option<TaskNotificationContext>| {
        merged.as_ref().map(TaskNotificationContext::routing_kind)
    };
    let merged = merge_context(Some(of_kind("background")), of_kind("monitor_auto_turn"));
    assert_eq!(kind(&merged), Some(TaskNotificationKind::MonitorAutoTurn));
    let kept = merge_context(merged, of_kind("background"));
    assert_eq!(kind(&kept), Some(TaskNotificationKind::MonitorAutoTurn));
    assert_eq!(
        kind(&merge_context(None, of_kind("subagent"))),
        Some(TaskNotificationKind::Subagent)
    );
}

fn clients() -> CardDeliveryClients {
    CardDeliveryClients::new(vec![
        CardBot::new("notify", 0),
        CardBot::new("provider:codex", 1),
        CardBot::new("notify", 2),
    ])
}

fn claimed(action: ClaimAction) -> ClaimedCard {
    ClaimedCard {
        bot_key: "notify".to_string(),
        discord_nonce: "nonce".to_string(),
        revision: 1,
        update_count: 2,
        rendered_content: "stored".to_string(),
        action,
    }
}

#[test]
fn card_is_claimed_with_the_preferred_bot() {
    assert_eq!(clients().bots.len(), 2);
    assert_eq!(
        ensure_card(&clients(), &event("a"), "card"),
        EnsureStep::Claim {
            bot_key: "notify".to_string(),
            content: "card".to_string(),
            hash: content_hash("card"),
        }
    );
    assert_eq!(
        ensure_card(&CardDeliveryClients::new(Vec::new()), &event("a"), "card"),
        EnsureStep::Return(Err(CardEnsureError::Transient(
            "no notify/provider Discord bot is available".to_string()
        )))
    );
    assert_eq!(
        record_footer_only(&event("a"), "card"),
        ("card".to_string(), content_hash("card"))
    );
}

#[test]
fn busy_claim_is_tried_again_and_then_reported() {
    let busy = || Ok(CardClaim::Busy { bot_key: "notify".to_string() });
    assert_eq!(after_claim(0, busy()), EnsureStep::Retry { attempt: 1 });
    assert_eq!(
        after_claim(MAX_CLAIM_ATTEMPTS - 1, busy()),
        EnsureStep::Return(Err(CardEnsureError::Busy(
            "another worker owns the card lease (bot=notify)".to_string()
        )))
    );
    assert_eq!(
        after_claim(0, Err("down".to_string())),
        EnsureStep::Return(Err(CardEnsureError::Store("down".to_string())))
    );
    assert_eq!(
        after_claim(
            0,
            Ok(CardClaim::Existing { message_id: 5, bot_key: "notify".to_string() })
        ),
        EnsureStep::Return(Ok(CardEnsureOutcome {
            message_id: 5,
            bot_key: "notify".to_string(),
            disposition: CardDisposition::Existing,
        }))
    );
    assert_eq!(
        after_claim(0, Ok(CardClaim::Owned(claimed(ClaimAction::Post)))),
        EnsureStep::Deliver(claimed(ClaimAction::Post))
    );
}

#[test]
fn promotion_posts_what_was_stored() {
    let card = claimed(ClaimAction::Post);
    assert_eq!(
        deliver_claim(&clients(), &event("a"), EnsureIntent::Promotion, &card, "card"),
        DeliverStep::Post {
            client: 0,
            content: "stored".to_string(),
            hash: content_hash("stored"),
            nonce: "nonce".to_string(),
        }
    );
    assert_eq!(
        deliver_claim(&clients(), &event("a"), EnsureIntent::Observation, &card, "card"),
        DeliverStep::Post {
            client: 0,
            content: "card".to_string(),
            hash: content_hash("card"),
            nonce: "nonce".to_string(),
        }
    );
    let edit = claimed(ClaimAction::Edit { message_id: 9 });
    assert_eq!(
        deliver_claim(&clients(), &event("a"), EnsureIntent::Promotion, &edit, "card"),
        DeliverStep::Edit {
            client: 0,
            message_id: 9,
            content: "card".to_string(),
            hash: content_hash("card"),
        }
    );
}

#[test]
fn unavailable_pinned_bot_is_reported_as_transient() {
    let provider_only = CardDeliveryClients::new(vec![CardBot::new("provider:codex", 0)]);
    let text = "the card's pinned bot notify is unavailable".to_string();
    assert_eq!(
        deliver_claim(
            &provider_only,
            &event("a"),
            EnsureIntent::Observation,
            &claimed(ClaimAction::Edit { message_id: 9 }),
            "card",
        ),
        DeliverStep::RecordEditFailure {
            message_id: 9,
            error: text.clone(),
            report: CardEnsureError::Transient(text),
        }
    );
}

#[test]
fn transient_edit_is_never_answered_with_a_post() {
    let card = claimed(ClaimAction::Edit { message_id: 9 });
    let after = |edited| after_edit(&card, 1, 9, "card".to_string(), "hash".to_string(), edited);
    assert_eq!(
        after(Err(TaskCardTransportError::Transient("429".to_string()))),
        DeliverStep::RecordEditFailure {
            message_id: 9,
            error: "429".to_string(),
            report: CardEnsureError::Transient("429".to_string()),
        }
    );
    assert_eq!(
        after(Err(TaskCardTransportError::ConfirmedMissing("404".to_string()))),
        DeliverStep::PrepareReplacement {
            client: 1,
            message_id: 9,
            content: "card".to_string(),
            hash: "hash".to_string(),
        }
    );
    assert_eq!(
        after(Ok(())),
        DeliverStep::RecordEdited(CardEnsureOutcome {
            message_id: 9,
            bot_key: "notify".to_string(),
            disposition: CardDisposition::Edited,
        })
    );
}

#[test]
fn prepared_replacement_is_posted_under_its_own_nonce() {
    let mut replacement = claimed(ClaimAction::Post);
    replacement.discord_nonce = "second".to_string();
    let (held, step) =
        after_replacement_prepared(Ok(replacement), 1, "card".to_string(), "hash".to_string())
            .expect("prepared replacement");
    assert_eq!(held.discord_nonce, "second");
    assert_eq!(
        step,
        DeliverStep::Post {
            client: 1,
            content: "card".to_string(),
            hash: "hash".to_string(),
            nonce: "second".to_string(),
        }
    );
    assert_eq!(
        after_replacement_prepared(Err("down".to_string()), 1, String::new(), String::new()),
        Err(CardEnsureError::Store("down".to_string()))
    );
}

/// A channel in which a nonce is posted once, and the state of one card.
struct Desk {
    event: TaskCardEvent,
    by_nonce: HashMap<String, u64>,
    revision: i32,
    message_id: Option<u64>,
    report_edit_missing: bool,
    fail_edits_transiently: bool,
}

impl Desk {
    fn new(task_id: &str) -> Self {
        Desk {
            event: event(task_id),
            by_nonce: HashMap::new(),
            revision: 1,
            message_id: None,
            report_edit_missing: false,
            fail_edits_transiently: false,
        }
    }

    fn physical_posts(&self) -> usize {
        self.by_nonce.len()
    }

    fn claim(&self, action: ClaimAction) -> ClaimedCard {
        ClaimedCard {
            bot_key: "notify".to_string(),
            discord_nonce: stable_nonce(&self.event.scope, self.revision),
            revision: self.revision,
            update_count: 1,
            rendered_content: String::new(),
            action,
        }
    }

    fn post(&mut self, nonce: String) -> Result<u64, TaskCardTransportError> {
        let next = 9_000 + self.by_nonce.len() as u64;
        Ok(*self.by_nonce.entry(nonce).or_insert(next))
    }

    fn edit(&self) -> Result<(), TaskCardTransportError> {
        if self.report_edit_missing {
            Err(TaskCardTransportError::ConfirmedMissing("404 / Discord 10008".to_string()))
        } else if self.fail_edits_transiently {
            Err(TaskCardTransportError::Transient("429".to_string()))
        } else {
            Ok(())
        }
    }

    fn record(&mut self, step: DeliverStep) -> Result<CardEnsureOutcome, CardEnsureError> {
        match step {
            DeliverStep::RecordPosted(outcome) | DeliverStep::RecordEdited(outcome) => {
                self.message_id = Some(outcome.message_id);
                after_recorded(Ok(()), outcome)
            }
            DeliverStep::RecordPostFailure { report, .. }
            | DeliverStep::RecordEditFailure { report, .. } => {
                Err(after_failure_recorded(Ok(()), report))
            }
            other => panic!("expected a record, got {other:?}"),
        }
    }

    fn ensure(&mut self) -> Result<CardEnsureOutcome, CardEnsureError> {
        let claimed = match self.message_id {
            None => self.claim(ClaimAction::Post),
            Some(message_id) => self.claim(ClaimAction::Edit { message_id }),
        };
        let step =
            deliver_claim(&clients(), &self.event, EnsureIntent::Observation, &claimed, "card");
        match step {
            DeliverStep::Post { nonce, .. } => {
                let posted = self.post(nonce);
                self.record(after_post(&claimed, false, posted))
            }
            DeliverStep::Edit { client, message_id, content, hash } => {
                let edited = self.edit();
                match after_edit(&claimed, client, message_id, content, hash, edited) {
                    DeliverStep::PrepareReplacement { client, content, hash, .. } => {
                        self.revision += 1;
                        let prepared = Ok(self.claim(ClaimAction::Post));
                        let (replacement, step) =
                            after_replacement_prepared(prepared, client, content, hash)?;
                        match step {
                            DeliverStep::Post { nonce, .. } => {
                                let posted = self.post(nonce);
                                self.record(after_post(&replacement, true, posted))
                            }
                            other => panic!("expected a post, got {other:?}"),
                        }
                    }
                    step => self.record(step),
                }
            }
            other => panic!("expected a delivery, got {other:?}"),
        }
    }
}

#[test]
fn transient_edit_never_falls_back_to_fresh_post() {
    let mut desk = Desk::new("edit-transient");
    desk.ensure().expect("first card");
    desk.fail_edits_transiently = true;
    assert!(desk.ensure().is_err());
    assert_eq!(desk.physical_posts(), 1);
    desk.fail_edits_transiently = false;
    desk.ensure().expect("later edit retry");
    assert_eq!(desk.physical_posts(), 1);
}

#[test]
fn confirmed_missing_edit_uses_revision_nonce_for_one_replacement() {
    let mut desk = Desk::new("confirmed-missing");
    let original = desk.ensure().expect("first card");
    desk.report_edit_missing = true;
    let replacement = desk.ensure().expect("confirmed-missing replacement");
    assert_eq!(replacement.disposition, CardDisposition::Replaced);
    assert_ne!(replacement.message_id, original.message_id);
    assert_eq!(desk.physical_posts(), 2);
    assert!(desk.by_nonce.contains_key(&stable_nonce(&desk.event.scope, 2)));
}

#[test]
fn post_of_a_later_revision_replaces() {
    let mut card = claimed(ClaimAction::Post);
    let disposition = |step: DeliverStep| match step {
        DeliverStep::RecordPosted(outcome) => outcome.disposition,
        other => panic!("expected a posted card, got {other:?}"),
    };
    assert_eq!(disposition(after_post(&card, false, Ok(4))), CardDisposition::Created);
    assert_eq!(disposition(after_post(&card, true, Ok(4))), CardDisposition::Replaced);
    card.revision = 2;
    assert_eq!(disposition(after_post(&card, false, Ok(4))), CardDisposition::Replaced);
    assert_eq!(
        after_post(&card, false, Err(TaskCardTransportError::Permanent("403".to_string()))),
        DeliverStep::RecordPostFailure {
            error: "403".to_string(),
            report: CardEnsureError::Permanent("403".to_string()),
        }
    );
    let outcome = || CardEnsureOutcome {
        message_id: 4,
        bot_key: "notify".to_string(),
        disposition: CardDisposition::Created,
    };
    assert_eq!(after_recorded(Ok(()), outcome()), Ok(outcome()));
    assert_eq!(
        after_recorded(Err("down".to_string()), outcome()),
        Err(CardEnsureError::Store("down".to_string()))
    );
    assert_eq!(
        after_failure_recorded(Ok(()), CardEnsureError::Permanent("403".to_string())),
        CardEnsureError::Permanent("403".to_string())
    );
    assert_eq!(
        after_failure_recorded(
            Err("down".to_string()),
            CardEnsureError::Permanent("403".to_string())
        ),
        CardEnsureError::Store("down".to_string())
    );
}

#[test]
fn marker_shows_what_the_card_shows() {
    let card = "✅ Task completed\n\n  **done**  \n-# subtext\n/private/x";
    assert_eq!(
        marker_lines(card),
        ["✅ Task completed", "**done**", "/private/x"]
    );
    assert_eq!(
        footer_only_background_marker_content(card, &vec!["/private/x".to_string()]),
        MarkerContent {
            text: "⚙️ Background complete\n✅ Task completed\n**done**".to_string(),
            limit: Some(600),
        }
    );
    assert_eq!(
        footer_only_background_marker_content("-# only", &Vec::new()),
        MarkerContent { text: "⚙️ Background complete".to_string(), limit: None }
    );
    assert_eq!(
        event("a").footer_only_marker_content("one\ntwo", &Vec::new()).text,
        "⚙️ Background complete\none\ntwo"
    );
    assert!(matches!(event("a").payload, TaskCardPayload::Task(_)));
}

fn posted(message_id: u64) -> MemoryRow {
    MemoryRow {
        state: MemoryState::CardPosted,
        message_id: Some(message_id),
        response_turn_key: None,
        response_card_message_id: None,
    }
}

#[test]
fn response_fence_goes_from_bound_to_delivered() {
    let scope = TaskCardScope::new(1, "codex", "s", "e");
    let other = TaskCardScope::new(1, "codex", "s", "f");
    let turn = response_turn_key(1, "t", None);
    let mut store = MemoryStore::new();
    assert!(store.insert(TaskCardScope::new(1, "codex", "s", "e"), posted(5)));
    assert!(store.insert(TaskCardScope::new(1, "codex", "s", "f"), posted(6)));
    assert!(!store.insert(TaskCardScope::new(1, "codex", "s", "f"), posted(7)));

    let waits = |store: &MemoryStore, event: Option<&str>, turn: Option<&str>| {
        response_fallback_must_wait_memory(store, 1, " CODEX ", "s", event, turn)
    };
    assert!(waits(&store, Some("e"), None));
    assert!(waits(&store, None, None));
    assert_eq!(bind_response_turn_memory(&mut store, &scope, &turn, 5), Ok(()));
    assert_eq!(bind_response_turn_memory(&mut store, &scope, &turn, 5), Ok(()));
    assert!(waits(&store, None, Some(&turn)));
    assert_eq!(mark_response_delivered_memory(&mut store, &scope, 5), Ok(()));
    let marked = format!("{store:?}");
    assert_eq!(mark_response_delivered_memory(&mut store, &scope, 5), Ok(()));
    assert_eq!(format!("{store:?}"), marked);
    assert!(!waits(&store, None, Some(&turn)));
    assert!(!waits(&store, Some("e"), None));
    assert!(waits(&store, Some("f"), Some(&turn)));

    let mut refused = |scope: &TaskCardScope, key: &str, card: u64| {
        bind_response_turn_memory(&mut store, scope, key, card).unwrap_err()
    };
    assert_eq!(
        refused(&scope, "short", 5),
        "task response turn key must be a 64-character fingerprint"
    );
    assert_eq!(
        refused(&other, &turn, 6),
        "task response turn is already bound to another event"
    );
    let missing = TaskCardScope::new(2, "codex", "s", "e");
    assert_eq!(refused(&missing, &turn, 5), "memory task card row disappeared");
    assert_eq!(
        refused(&scope, &turn, 8),
        "memory task response turn lost its confirmed card"
    );
    let next = response_turn_key(2, "t", None);
    assert_eq!(
        refused(&scope, &next, 5),
        "memory task response turn binding changed"
    );
    assert_eq!(
        mark_response_delivered_memory(&mut store, &missing, 5).unwrap_err(),
        "memory task card row disappeared"
    );
    assert_eq!(
        mark_response_delivered_memory(&mut store, &scope, 8).unwrap_err(),
        "memory task response delivery lost its confirmed card"
    );
    store.entries[0].row.message_id = Some(8);
    assert_eq!(
        mark_response_delivered_memory(&mut store, &scope, 8).unwrap_err(),
        "memory task response delivery changed card identity"
    );
}

#[test]
fn stored_fence_waits_until_a_delivery_is_on_record() {
    assert!(!fallback_query_is_keyed(None, None));
    assert!(fallback_query_is_keyed(None, Some("t")));
    assert!(fallback_query_is_keyed(Some("e"), None));
    assert!(response_fallback_must_wait(None));
    assert!(response_fallback_must_wait(Some(true)));
    assert!(!response_fallback_must_wait(Some(false)));
    assert!(check_response_turn_key(&"0".repeat(64)).is_ok());
    assert!(check_response_turn_key(&"é".repeat(32)).is_ok());
    assert!(check_response_turn_key(&"0".repeat(63)).is_err());
}

#[test]
fn turn_start_is_read_as_an_instant() {
    assert_eq!(parse_turn_started_at(None), Ok(None));
    assert_eq!(parse_turn_started_at(Some("  ")), Ok(None));
    assert_eq!(
        parse_turn_started_at(Some(" 2026-07-11T01:37:00.5+09:00 ")),
        Ok(Some(UtcInstant { seconds: 1_783_701_420, nanos: 500_000_000 }))
    );
    let local = parse_turn_started_at(Some(" 2026-07-11 01:37:00 ")).unwrap().unwrap();
    assert_eq!(local.nanos, 0);
    assert!((local.seconds - 1_783_733_820).abs() < 86_400, "{local:?}");
    let error = parse_turn_started_at(Some("yesterday")).unwrap_err();
    assert!(
        error.starts_with("parse task response turn start timestamp: "),
        "{error}"
    );
    let naive = UtcInstant { seconds: 1, nanos: 0 };
    assert_eq!(
        resolve_started_at(Some("x"), None, Ok(naive), None).unwrap_err(),
        "task response turn start timestamp is ambiguous in local time"
    );
    assert_eq!(
        resolve_started_at(Some("x"), None, Ok(naive), Some(naive)),
        Ok(Some(naive))
    );
}
