//! Delivering a short terminal answer through the turn output controller.

use vstd::prelude::*;

use crate::text;

verus! {

/// Whether a setting switches the controller on.
pub open spec fn is_switched_on(value: Option<&str>) -> bool {
    match value {
        Some(value) => {
            let word = text::ascii_lower(text::trimmed(value@));
            word == "1"@ || word == "true"@
        },
        None => false,
    }
}

/// Whether the setting switches the controller on.
pub fn watcher_terminal_controller_enabled(value: Option<&str>) -> (r: bool)
    ensures
        r == is_switched_on(value),
{
    match value {
        Some(value) => {
            let word = text::to_ascii_lower(text::trim(value));
            text::same_text(word.as_str(), "1") || text::same_text(word.as_str(), "true")
        },
        None => false,
    }
}

/// Whether the answer goes through the controller: it is switched on, the watcher
/// sends the answer itself, over a range of its own, into a message that is there, in
/// one piece, with something to show, and without waiting for the terminal.
pub fn watcher_short_replace_cutover(
    controller_enabled: bool,
    will_direct_send: bool,
    ordered_range: bool,
    has_placeholder: bool,
    should_send_ordered_new_chunks: bool,
    formatted_is_empty: bool,
    tui_completion_gate_required: bool,
) -> (r: bool)
    ensures
        r == (controller_enabled && will_direct_send && ordered_range && has_placeholder
            && !should_send_ordered_new_chunks && !formatted_is_empty
            && !tui_completion_gate_required),
{
    controller_enabled && will_direct_send && ordered_range && has_placeholder
        && !should_send_ordered_new_chunks && !formatted_is_empty && !tui_completion_gate_required
}

/// The answer as it would be shown.
#[derive(Debug, Clone, Copy, PartialEq, Eq)]
pub struct FormattedAnswer<'a> {
    pub text: &'a str,
    /// It is sent in new messages, piece by piece.
    pub sends_ordered_new_chunks: bool,
}

/// Whether the answer goes through the controller. `formatted` is the answer as it
/// would be shown; it is needed only where the controller is switched on.
pub fn watcher_short_replace_cutover_decision(
    controller_enabled: bool,
    formatted: Option<FormattedAnswer>,
    will_direct_send: bool,
    ordered_range: bool,
    has_placeholder: bool,
    tui_completion_gate_required: bool,
) -> (r: bool)
    requires
        controller_enabled ==> formatted is Some,
    ensures
        r == (controller_enabled && will_direct_send && ordered_range && has_placeholder
            && !tui_completion_gate_required && (formatted matches Some(answer)
            && !answer.sends_ordered_new_chunks && answer.text@.len() > 0)),
{
    if !controller_enabled {
        return false;
    }
    match formatted {
        Some(answer) => watcher_short_replace_cutover(
            controller_enabled,
            will_direct_send,
            ordered_range,
            has_placeholder,
            answer.sends_ordered_new_chunks,
            answer.text.is_empty(),
            tui_completion_gate_required,
        ),
        None => false,
    }
}

/// The range that the watcher takes a lease on: none where the controller holds the
/// lease, so that the two never both hold one.
pub fn watcher_terminal_lease_range(
    cutover_range: Option<(u64, u64)>,
    cutover_short_replace: bool,
) -> (r: Option<(u64, u64)>)
    ensures
        r == if cutover_short_replace {
            None
        } else {
            cutover_range
        },
{
    if cutover_short_replace {
        None
    } else {
        cutover_range
    }
}

/// What the controller does with the message where an edit fails.
#[derive(Debug, Clone, Copy, PartialEq, Eq, Structural)]
pub enum EditFailPlaceholderPolicy {
    PreserveAlways,
    DeleteIfProvenStale,
}

/// Whether an answer that was sent in place of a failed edit counts as delivered.
#[derive(Debug, Clone, Copy, PartialEq, Eq, Structural)]
pub enum FallbackCommitPolicy {
    CommitOnFallback,
    HoldOnFallback,
}

/// What the controller reports where somebody else holds the lease.
#[derive(Debug, Clone, Copy, PartialEq, Eq, Structural)]
pub enum AcquireFailureMode {
    Transient,
    Terminal,
}

/// What a message that is replaced becomes: it stays open, or it is done.
#[derive(Debug, Clone, Copy, PartialEq, Eq, Structural)]
pub enum PlaceholderLifecycle {
    Active,
    Terminal,
}

/// How the controller brings an answer into the channel.
#[derive(Debug, Clone, Copy, PartialEq, Eq, Structural)]
pub enum OutputPlan {
    Replace { lifecycle: PlaceholderLifecycle },
    SendNewChunks,
}

/// What the controller is asked to do.
#[derive(Debug, PartialEq, Eq)]
pub struct ShortReplaceRequest {
    /// The watcher that takes the lease.
    pub instance_id: u64,
    /// The message that is replaced.
    pub message_id: u64,
    pub body: String,
    pub send_range: (u64, u64),
    pub plan: OutputPlan,
    /// Where the frontier goes once the answer is confirmed.
    pub advance_to: u64,
    pub edit_fail_policy: EditFailPlaceholderPolicy,
    pub fallback_commit_policy: FallbackCommitPolicy,
    pub acquire_failure_mode: AcquireFailureMode,
}

/// What the controller is asked to do: replace the message by the answer over the
/// watcher's range, and take the frontier to the end of the range. The message stays
/// open and is never deleted, an answer sent instead of an edit counts, and a lease that
/// somebody else holds is no failure.
pub fn deliver_short_replace_via_controller(
    instance_id: u64,
    message_id: u64,
    relay_text: &str,
    range: (u64, u64),
) -> (r: ShortReplaceRequest)
    ensures
        r.body@ == relay_text@,
        r == (ShortReplaceRequest {
            instance_id,
            message_id,
            body: r.body,
            send_range: range,
            plan: OutputPlan::Replace { lifecycle: PlaceholderLifecycle::Active },
            advance_to: range.1,
            edit_fail_policy: EditFailPlaceholderPolicy::PreserveAlways,
            fallback_commit_policy: FallbackCommitPolicy::CommitOnFallback,
            acquire_failure_mode: AcquireFailureMode::Transient,
        }),
{
    ShortReplaceRequest {
        instance_id,
        message_id,
        body: relay_text.to_owned(),
        send_range: range,
        plan: OutputPlan::Replace { lifecycle: PlaceholderLifecycle::Active },
        advance_to: range.1,
        edit_fail_policy: EditFailPlaceholderPolicy::PreserveAlways,
        fallback_commit_policy: FallbackCommitPolicy::CommitOnFallback,
        acquire_failure_mode: AcquireFailureMode::Transient,
    }
}

/// What the controller reports.
#[derive(Debug, Clone, Copy, PartialEq, Eq, Structural)]
pub enum DeliveryOutcome {
    Delivered,
    NotDelivered,
    Transient,
    Unknown,
    Skipped,
}

/// What became of the answer.
#[derive(Debug, Clone, Copy, PartialEq, Eq, Structural)]
pub enum WatcherShortReplaceResult {
    /// The answer was sent, by an edit or instead of one.
    Delivered,
    /// Somebody else holds the range. Nothing was sent.
    B2Skip,
    /// It is not known what was sent.
    PartialFailureRetry,
    /// There was nothing to send.
    Skipped,
}

/// What became of the answer. An answer that the controller reports as not delivered
/// was sent: the report is of the lease.
pub open spec fn short_replace_result(outcome: DeliveryOutcome) -> WatcherShortReplaceResult {
    match outcome {
        DeliveryOutcome::Delivered => WatcherShortReplaceResult::Delivered,
        DeliveryOutcome::NotDelivered => WatcherShortReplaceResult::Delivered,
        DeliveryOutcome::Transient => WatcherShortReplaceResult::B2Skip,
        DeliveryOutcome::Unknown => WatcherShortReplaceResult::PartialFailureRetry,
        DeliveryOutcome::Skipped => WatcherShortReplaceResult::Skipped,
    }
}

/// What became of the answer.
pub fn after_short_replace(outcome: DeliveryOutcome) -> (r: WatcherShortReplaceResult)
    ensures
        r == short_replace_result(outcome),
{
    match outcome {
        DeliveryOutcome::Delivered => WatcherShortReplaceResult::Delivered,
        DeliveryOutcome::NotDelivered => WatcherShortReplaceResult::Delivered,
        DeliveryOutcome::Transient => WatcherShortReplaceResult::B2Skip,
        DeliveryOutcome::Unknown => WatcherShortReplaceResult::PartialFailureRetry,
        DeliveryOutcome::Skipped => WatcherShortReplaceResult::Skipped,
    }
}

/// What the watcher holds of a send.
#[derive(Debug)]
pub struct WatcherShortReplaceLocals {
    pub relay_ok: bool,
    pub direct_send_delivered: bool,
    pub tui_direct_anchor_terminal_body_visible: bool,
    pub external_input_lease_consumed_by_relay: bool,
    pub placeholder_msg_id: Option<u64>,
    pub placeholder_from_restored_inflight: bool,
    pub last_edit_text: String,
    pub retry_terminal_delivery_from_offset: bool,
}

/// How a send that failed is taken up again.
#[derive(Debug, Clone, Copy, PartialEq, Eq, Structural)]
pub struct SendFailurePlan {
    pub relay_ok: bool,
    pub retry_offset: bool,
}

/// Takes what became of the answer into what the watcher holds, and says whether the
/// delivered answer is still to be settled: its footer remembered, its orphan record
/// dropped and its cleanup noted.
pub fn apply_watcher_short_replace_controller(
    result: WatcherShortReplaceResult,
    represents_external_input: bool,
    partial_plan: SendFailurePlan,
    locals: &mut WatcherShortReplaceLocals,
) -> (settle: bool)
    ensures
        settle == (result is Delivered),
        result is Delivered ==> {
            &&& final(locals).relay_ok == old(locals).relay_ok
            &&& final(locals).direct_send_delivered
            &&& final(locals).tui_direct_anchor_terminal_body_visible
            &&& final(locals).external_input_lease_consumed_by_relay == represents_external_input
            &&& final(locals).placeholder_msg_id is None
            &&& !final(locals).placeholder_from_restored_inflight
            &&& final(locals).last_edit_text@.len() == 0
            &&& final(locals).retry_terminal_delivery_from_offset == old(
                locals,
            ).retry_terminal_delivery_from_offset
        },
        result is B2Skip || result is Skipped ==> *final(locals) == (WatcherShortReplaceLocals {
            relay_ok: false,
            ..*old(locals)
        }),
        result is PartialFailureRetry ==> *final(locals) == (WatcherShortReplaceLocals {
            relay_ok: partial_plan.relay_ok,
            retry_terminal_delivery_from_offset: partial_plan.retry_offset,
            ..*old(locals)
        }),
{
    match result {
        WatcherShortReplaceResult::Delivered => {
            locals.direct_send_delivered = true;
            locals.tui_direct_anchor_terminal_body_visible = true;
            locals.external_input_lease_consumed_by_relay = represents_external_input;
            locals.placeholder_msg_id = None;
            locals.placeholder_from_restored_inflight = false;
            locals.last_edit_text = String::new();
            true
        },
        WatcherShortReplaceResult::B2Skip => {
            locals.relay_ok = false;
            false
        },
        WatcherShortReplaceResult::Skipped => {
            locals.relay_ok = false;
            false
        },
        WatcherShortReplaceResult::PartialFailureRetry => {
            locals.relay_ok = partial_plan.relay_ok;
            locals.retry_terminal_delivery_from_offset = partial_plan.retry_offset;
            false
        },
    }
}

} // verus!
