//! What the watcher's steps towards an answer come to: its delivery below a card or through
//! the controller, the panels beside it, and the recovery from a stale session.

use vstd::prelude::*;

use crate::text;
use crate::watcher::stale_resume::{
    after_inflight_loaded, after_kill, after_placeholder_edited, after_provider_cleared,
    after_retry, after_session_taken, after_stale_id_cleared, handle_stale_resume_exit,
    RetryDecision, RetryRow, StaleResumeExitContext, StaleResumeStep,
};
use crate::watcher::status_panel::{
    after_panel_edit, panel_edit_is_due, record_status_panel_send_failure,
    refresh_existing_status_panel, status_panel_send_is_due, status_panel_send_payload,
    PanelRefresh, PreparedStatusPanelTransition,
};
use crate::watcher::task_response::{
    after_card_ensured, after_claim_renewed, after_placeholder_deleted, after_response_claimed,
    after_response_sent, apply_watcher_task_response, commit_watcher_task_response_fence,
    prepare_watcher_task_response, settle_placeholder, ApplyStep, PrepareStep,
    ResponseDeliveryClaimOutcome, WatcherTaskResponseLocals,
};
use crate::watcher::terminal_send::{
    after_short_replace, apply_watcher_short_replace_controller,
    deliver_short_replace_via_controller, watcher_short_replace_cutover,
    watcher_short_replace_cutover_decision, watcher_terminal_controller_enabled,
    watcher_terminal_lease_range, AcquireFailureMode, DeliveryOutcome, EditFailPlaceholderPolicy,
    FallbackCommitPolicy, FormattedAnswer, OutputPlan, PlaceholderLifecycle, SendFailurePlan,
    ShortReplaceRequest, WatcherShortReplaceLocals, WatcherShortReplaceResult,
};

verus! {

// ---------------------------------------------------------------------------
// The answer below a card
// ---------------------------------------------------------------------------
/// A turn that has a claim already goes on with it, under the same card; one without a claim
/// gets its card first, and the claim is made under that card. What could not be looked up,
/// ensured or claimed ends the preparation.
pub proof fn law_claim_is_made_under_its_card<C>(
    existing: Result<Option<(ResponseDeliveryClaimOutcome<C>, u64)>, String>,
    has_context: bool,
    first: PrepareStep<C>,
    card: Result<u64, String>,
    second: PrepareStep<C>,
    claim: Result<ResponseDeliveryClaimOutcome<C>, String>,
    card_message_id: u64,
    third: PrepareStep<C>,
)
    requires
        call_ensures(prepare_watcher_task_response::<C>, (existing, has_context), first),
        call_ensures(after_card_ensured::<C>, (card,), second),
        call_ensures(after_response_claimed::<C>, (claim, card_message_id), third),
    ensures
        existing matches Ok(Some((held, id))) ==> (first matches PrepareStep::Ready {
            prepared,
            claim_slot,
        } && prepared.claim == held && prepared.card_message_id == id && claim_slot == has_context),
        existing matches Ok(None) ==> (first matches PrepareStep::EnsureCard { recovered }
            && recovered == !has_context),
        existing is Err <==> first is Failed,
        existing matches Err(error) ==> (first matches PrepareStep::Failed(message) && message@
            == "resume watcher task response: "@ + error@),
        card matches Ok(id) ==> (second matches PrepareStep::ClaimResponse { card_message_id: held }
            && held == id),
        card is Err <==> second is Failed,
        card matches Err(error) ==> (second matches PrepareStep::Failed(message) && message@
            == "confirm watcher task card: "@ + error@),
        claim matches Ok(made) ==> (third matches PrepareStep::Ready { prepared, claim_slot }
            && prepared.claim == made && prepared.card_message_id == card_message_id && !claim_slot),
        claim is Err <==> third is Failed,
        claim matches Err(error) ==> (third matches PrepareStep::Failed(message) && message@
            == "claim watcher task response: "@ + error@),
{
}

/// An answer is sent only under a claim that was made and renewed. One that somebody else is
/// delivering, or whose claim failed or was lost, is tried again from where it stands; one
/// that is delivered already is not sent a second time.
pub proof fn law_answer_is_sent_under_its_claim<C>(
    prepared: Result<ResponseDeliveryClaimOutcome<C>, String>,
    lease: bool,
    applying: &mut WatcherTaskResponseLocals<C>,
    first: ApplyStep<C>,
    renewed: bool,
    claim: C,
    renewing: &mut WatcherTaskResponseLocals<C>,
    second: ApplyStep<C>,
)
    requires
        call_ensures(apply_watcher_task_response::<C>, (prepared, lease, applying), first),
        call_ensures(after_claim_renewed::<C>, (renewed, claim, renewing), second),
    ensures
        first !is Send,
        prepared matches Ok(ResponseDeliveryClaimOutcome::Owned(held)) ==> first == ApplyStep::Renew(
            held,
        ) && *final(applying) == *old(applying),
        prepared is Err || (prepared matches Ok(ResponseDeliveryClaimOutcome::Wait)) ==> (
        first matches ApplyStep::Finished(outcome) && !outcome.relay_ok
            && !outcome.direct_send_delivered && !outcome.external_input_lease_consumed_by_relay)
            && final(applying).retry_terminal_delivery_from_offset
            && final(applying).placeholder_msg_id == old(applying).placeholder_msg_id
            && final(applying).task_response_claim == old(applying).task_response_claim,
        prepared matches Ok(ResponseDeliveryClaimOutcome::Delivered) ==> (
        first matches ApplyStep::SettlePlaceholder(outcome) && outcome.relay_ok
            && outcome.direct_send_delivered && outcome.external_input_lease_consumed_by_relay
            == lease) && final(applying).tui_direct_anchor_terminal_body_visible
            && final(applying).tui_direct_anchor_or_lease_present_for_lifecycle
            && final(applying).retry_terminal_delivery_from_offset
            == old(applying).retry_terminal_delivery_from_offset,
        second == ApplyStep::Send(claim) <==> renewed,
        renewed ==> *final(renewing) == *old(renewing),
        !renewed ==> (second matches ApplyStep::Finished(outcome) && !outcome.relay_ok
            && !outcome.direct_send_delivered) && final(renewing).retry_terminal_delivery_from_offset,
{
}

/// An answer that was sent is delivered, its claim is kept for the commit, and the message
/// that showed its progress is settled. One that failed is taken up again as its plan says,
/// and its claim is not kept.
pub proof fn law_sent_answer_keeps_its_claim<C>(
    failure: Option<SendFailurePlan>,
    claim: C,
    lease: bool,
    locals: &mut WatcherTaskResponseLocals<C>,
    step: ApplyStep<C>,
)
    requires
        call_ensures(after_response_sent::<C>, (failure, claim, lease, locals), step),
    ensures
        failure is None ==> {
            &&& step matches ApplyStep::SettlePlaceholder(outcome)
            &&& outcome.relay_ok
            &&& outcome.direct_send_delivered
            &&& outcome.external_input_lease_consumed_by_relay == lease
            &&& final(locals).task_response_claim == Some(claim)
            &&& final(locals).tui_direct_anchor_terminal_body_visible
            &&& final(locals).tui_direct_anchor_or_lease_present_for_lifecycle
            &&& final(locals).retry_terminal_delivery_from_offset
                == old(locals).retry_terminal_delivery_from_offset
        },
        failure matches Some(plan) ==> {
            &&& step matches ApplyStep::Finished(outcome)
            &&& outcome.relay_ok == plan.relay_ok
            &&& !outcome.direct_send_delivered
            &&& !outcome.external_input_lease_consumed_by_relay
            &&& final(locals).task_response_claim == old(locals).task_response_claim
            &&& final(locals).retry_terminal_delivery_from_offset == plan.retry_offset
            &&& final(locals).tui_direct_anchor_terminal_body_visible
                == old(locals).tui_direct_anchor_terminal_body_visible
        },
        final(locals).placeholder_msg_id == old(locals).placeholder_msg_id,
{
}

/// The message that showed the progress is deleted unless it is the card itself, and it is
/// forgotten only once it has become the card or is deleted.
pub proof fn law_progress_message_is_settled_once<C>(
    card_message_id: u64,
    settling: &mut WatcherTaskResponseLocals<C>,
    stale: Option<u64>,
    committed: bool,
    deleting: &mut WatcherTaskResponseLocals<C>,
    drop_record: bool,
)
    requires
        call_ensures(settle_placeholder::<C>, (card_message_id, settling), stale),
        call_ensures(after_placeholder_deleted::<C>, (committed, deleting), drop_record),
    ensures
        stale is Some <==> old(settling).placeholder_msg_id is Some && old(settling).placeholder_msg_id != Some(card_message_id),
        stale is Some ==> stale == old(settling).placeholder_msg_id && *final(settling) == *old(settling),
        old(settling).placeholder_msg_id == Some(card_message_id) ==> final(settling).placeholder_msg_id is None && !final(settling).placeholder_from_restored_inflight
            && final(settling).last_edit_text@.len() == 0,
        final(settling).task_response_claim == old(settling).task_response_claim,
        drop_record == committed,
        committed ==> final(deleting).placeholder_msg_id is None && !final(deleting).placeholder_from_restored_inflight && final(deleting).last_edit_text@.len() == 0,
        !committed ==> *final(deleting) == *old(deleting),
        final(deleting).task_response_claim == old(deleting).task_response_claim,
        final(deleting).retry_terminal_delivery_from_offset
            == old(deleting).retry_terminal_delivery_from_offset,
{
}

/// The fence is committed with the frontier and not before, and only under a claim.
pub proof fn law_fence_follows_the_frontier<C>(committed: bool, claim: Option<&C>, r: bool)
    requires
        call_ensures(commit_watcher_task_response_fence::<C>, (committed, claim), r),
    ensures
        !committed ==> !r,
        claim is None ==> !r,
        committed && claim is Some ==> r,
{
}

// ---------------------------------------------------------------------------
// The answer through the controller
// ---------------------------------------------------------------------------
/// The controller is switched on by `1` and by `true`, in any case and with white space
/// around, and by nothing else: it is off where nothing is set.
pub proof fn law_controller_is_off_unless_switched_on(value: Option<&str>, r: bool)
    requires
        call_ensures(watcher_terminal_controller_enabled, (value,), r),
    ensures
        value is None ==> !r,
        value matches Some(word) ==> {
            &&& text::trimmed(word@) == "1"@ ==> r
            &&& text::ascii_lower(text::trimmed(word@)) == "true"@ ==> r
            &&& text::trimmed(word@).len() != 1 && text::trimmed(word@).len() != 4 ==> !r
            &&& text::trimmed(word@) == "0"@ ==> !r
        },
{
    reveal_strlit("1");
    reveal_strlit("0");
    reveal_strlit("true");
    assert("1"@.len() == 1 && "true"@.len() == 4);
    if value is Some {
        let t = text::trimmed(value->0@);
        if t == "1"@ {
            assert(text::ascii_lower(t) =~= "1"@);
        }
        if t == "0"@ {
            assert(text::ascii_lower(t)[0] == '0');
        }
    }
}

/// The answer goes through the controller only where every condition holds, and where they
/// all hold it does. Then, and only then, the watcher takes no lease of its own: one of the
/// two holds the range, never both.
pub proof fn law_one_of_the_two_holds_the_lease(
    enabled: bool,
    formatted: FormattedAnswer,
    direct: bool,
    ordered: bool,
    placeholder: bool,
    gated: bool,
    range: (u64, u64),
    cutover: bool,
    lease: Option<(u64, u64)>,
    plain: bool,
)
    requires
        call_ensures(
            watcher_short_replace_cutover_decision,
            (enabled, Some(formatted), direct, ordered, placeholder, gated),
            cutover,
        ),
        call_ensures(watcher_terminal_lease_range, (Some(range), cutover), lease),
        call_ensures(
            watcher_short_replace_cutover,
            (
                enabled,
                direct,
                ordered,
                placeholder,
                formatted.sends_ordered_new_chunks,
                formatted.text@.len() == 0,
                gated,
            ),
            plain,
        ),
    ensures
        enabled && direct && ordered && placeholder && !gated && !formatted.sends_ordered_new_chunks
            && formatted.text@.len() > 0 ==> cutover,
        !enabled || !direct || !ordered || !placeholder || gated
            || formatted.sends_ordered_new_chunks || formatted.text@.len() == 0 ==> !cutover,
        plain == cutover,
        cutover ==> lease is None,
        !cutover ==> lease == Some(range),
{
}

/// The controller replaces the watcher's own message by the answer over the watcher's range
/// and takes the frontier to its end; the message stays open and is never deleted.
pub proof fn law_controller_gets_the_whole_answer(
    instance_id: u64,
    message_id: u64,
    relay_text: &str,
    range: (u64, u64),
    r: ShortReplaceRequest,
)
    requires
        call_ensures(
            deliver_short_replace_via_controller,
            (instance_id, message_id, relay_text, range),
            r,
        ),
    ensures
        r.instance_id == instance_id,
        r.message_id == message_id,
        r.body@ == relay_text@,
        r.send_range == range,
        r.advance_to == range.1,
        r.plan == (OutputPlan::Replace { lifecycle: PlaceholderLifecycle::Active }),
        r.edit_fail_policy == EditFailPlaceholderPolicy::PreserveAlways,
        r.fallback_commit_policy == FallbackCommitPolicy::CommitOnFallback,
        r.acquire_failure_mode == AcquireFailureMode::Transient,
{
}

/// From the controller's report to what the watcher holds. An answer that was sent, whatever
/// was said of the lease, is delivered and its message is let go; a range that somebody else
/// holds, and an answer without anything to send, leave all but the relay as it was; where it
/// is not known what was sent, the answer is taken up again as the plan says.
pub proof fn law_report_decides_the_delivery(
    outcome: DeliveryOutcome,
    result: WatcherShortReplaceResult,
    external: bool,
    plan: SendFailurePlan,
    locals: &mut WatcherShortReplaceLocals,
    settle: bool,
)
    requires
        call_ensures(after_short_replace, (outcome,), result),
        call_ensures(
            apply_watcher_short_replace_controller,
            (result, external, plan, locals),
            settle,
        ),
    ensures
        settle <==> outcome is Delivered || outcome is NotDelivered,
        settle ==> {
            &&& final(locals).direct_send_delivered
            &&& final(locals).tui_direct_anchor_terminal_body_visible
            &&& final(locals).external_input_lease_consumed_by_relay == external
            &&& final(locals).placeholder_msg_id is None
            &&& !final(locals).placeholder_from_restored_inflight
            &&& final(locals).last_edit_text@.len() == 0
            &&& final(locals).relay_ok == old(locals).relay_ok
            &&& final(locals).retry_terminal_delivery_from_offset
                == old(locals).retry_terminal_delivery_from_offset
        },
        !settle ==> {
            &&& final(locals).direct_send_delivered == old(locals).direct_send_delivered
            &&& final(locals).placeholder_msg_id == old(locals).placeholder_msg_id
            &&& final(locals).external_input_lease_consumed_by_relay
                == old(locals).external_input_lease_consumed_by_relay
        },
        outcome is Transient || outcome is Skipped ==> !final(locals).relay_ok && final(locals).retry_terminal_delivery_from_offset == old(locals).retry_terminal_delivery_from_offset,
        outcome is Unknown ==> final(locals).relay_ok == plan.relay_ok && final(locals).retry_terminal_delivery_from_offset == plan.retry_offset,
        result is B2Skip <==> outcome is Transient,
        result is Skipped <==> outcome is Skipped,
        result is PartialFailureRetry <==> outcome is Unknown,
{
}

// ---------------------------------------------------------------------------
// The panels
// ---------------------------------------------------------------------------
/// A prepared panel is sent when it says so, with what was prepared; without one the
/// fallback is sent.
pub proof fn law_prepared_panel_is_sent_as_prepared(
    prepared: Option<&PreparedStatusPanelTransition>,
    fallback: &str,
    due: bool,
    payload: &str,
    recorded: Option<Result<u64, String>>,
    disposition: Option<u64>,
)
    requires
        call_ensures(status_panel_send_is_due, (prepared,), due),
        call_ensures(status_panel_send_payload, (prepared, fallback), payload),
        call_ensures(record_status_panel_send_failure::<u64>, (recorded,), disposition),
    ensures
        prepared is None ==> due && payload@ == fallback@,
        prepared matches Some(panel) ==> due == panel.send_now && payload@ == panel.content@,
        recorded matches Some(Ok(held)) ==> disposition == Some(held),
        recorded is None || recorded->0 is Err ==> disposition is None,
{
}

/// The session panel is refreshed wherever panels are enabled, for the turn of the user's
/// message; the status panel just where it is a message of its own and there is one.
pub proof fn law_enabled_panels_are_refreshed(
    panels: bool,
    separate: bool,
    turn: Option<u64>,
    panel: Option<u64>,
    r: PanelRefresh,
)
    requires
        call_ensures(refresh_existing_status_panel, (panels, separate, turn, panel), r),
    ensures
        r.session_panel_turn is Some <==> panels,
        panels && turn is Some ==> r.session_panel_turn == turn,
        panels && turn is None ==> r.session_panel_turn == Some(0u64),
        separate ==> r.panel_message == panel,
        !separate ==> r.panel_message is None,
{
}

/// A panel that shows already what it should is left alone, unless what it shows was
/// invalidated. An edit that succeeded is remembered and answers the invalidation, so that
/// the same text is not due again; one that failed changes nothing and stays due.
pub proof fn law_panel_edit_is_answered_once(
    epoch: Option<u64>,
    text: &str,
    last: &str,
    due: bool,
    edited: bool,
    panel_text: String,
    held: &mut String,
    answered: Option<u64>,
    again: &str,
    due_again: bool,
)
    requires
        call_ensures(panel_edit_is_due, (epoch, text, last), due),
        call_ensures(after_panel_edit, (edited, epoch, panel_text, held), answered),
        panel_text@ == text@,
        again@ == final(held)@,
        call_ensures(panel_edit_is_due, (None, text, again), due_again),
    ensures
        text@ != last@ ==> due,
        epoch is Some ==> due,
        text@ == last@ && epoch is None ==> !due,
        edited ==> final(held)@ == text@ && answered == epoch && !due_again,
        !edited ==> final(held)@ == old(held)@ && answered is None,
{
}

// ---------------------------------------------------------------------------
// The recovery from a stale session
// ---------------------------------------------------------------------------
/// The recovery runs just where a stale session was found, and in this order: the provider's
/// session is taken and cleared under the name of this host and session, then a session
/// identifier that went stale, then the tmux session is killed, the channel is told, and the
/// turn that was recorded is tried again.
pub proof fn law_recovery_runs_in_order(
    detected: bool,
    context: StaleResumeExitContext,
    stale: Option<String>,
    first: StaleResumeStep,
    cleared: StaleResumeStep,
    killed: StaleResumeStep,
    killed_later: StaleResumeStep,
    told: StaleResumeStep,
    loaded: StaleResumeStep,
    last: StaleResumeStep,
)
    requires
        call_ensures(handle_stale_resume_exit, (detected,), first),
        call_ensures(after_session_taken, (&context, stale), cleared),
        call_ensures(after_provider_cleared, (&context, stale), killed),
        call_ensures(after_stale_id_cleared, (&context,), killed_later),
        call_ensures(after_kill, (&context,), told),
        call_ensures(after_placeholder_edited, (), loaded),
        call_ensures(after_retry, (), last),
    ensures
        first is TakeProviderSession <==> detected,
        first is Finished <==> !detected,
        cleared matches StaleResumeStep::ClearProviderSession { session_key, stale_session_id }
            && session_key@ == context.hostname@ + ":"@ + context.tmux_session_name@
            && stale_session_id == stale,
        stale matches Some(id) ==> killed == StaleResumeStep::ClearStaleSessionId(id),
        stale is None ==> killed is KillSession && killed == killed_later,
        killed_later is KillSession,
        context.placeholder_msg_id matches Some(id) ==> told == StaleResumeStep::EditPlaceholder(id),
        context.placeholder_msg_id is None ==> told is LoadInflight,
        loaded is LoadInflight,
        last is Finished,
{
}

/// A session that is the thread of this very channel is killed; one whose name tells no
/// channel, or does not end with the mark of this thread, is left.
pub proof fn law_only_the_thread_of_the_channel_is_killed(
    context: StaleResumeExitContext,
    step: StaleResumeStep,
)
    requires
        call_ensures(after_stale_id_cleared, (&context,), step),
    ensures
        context.channel_segment is None ==> step == (StaleResumeStep::KillSession { blocked: true }),
        context.channel_segment matches Some(segment) ==> step == (StaleResumeStep::KillSession {
            blocked: !text::has_suffix(
                segment@,
                "-t"@ + text::decimal(context.channel_id as nat),
            ),
        }),
{
}

/// A turn that a user's message began is tried again with that very message; one without a
/// user, and one that is not recorded, is not. Either way what the stale session said is
/// given up.
pub proof fn law_recorded_message_is_tried_again(
    row: Option<RetryRow>,
    full_response: &mut String,
    step: StaleResumeStep,
)
    requires
        call_ensures(after_inflight_loaded, (row, full_response), step),
    ensures
        final(full_response)@.len() == 0,
        step is Retry,
        row is None ==> step == StaleResumeStep::Retry(RetryDecision::SkipMissing),
        row matches Some(held) ==> {
            &&& held.rebind_origin || held.user_msg_id == 0 ==> step == StaleResumeStep::Retry(
                RetryDecision::SkipNoUserMessage,
            )
            &&& !held.rebind_origin && held.user_msg_id != 0 ==> step == StaleResumeStep::Retry(
                RetryDecision::Queue { user_msg_id: held.user_msg_id, user_text: held.user_text },
            )
        },
{
}

} // verus!
