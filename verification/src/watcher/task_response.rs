//! Delivering the answer of a task turn below the task's card.
//!
//! The watcher first claims the delivery of the answer, so that only one of those who
//! could deliver it does. A claim is held as a value of type `C`, of which nothing is
//! known here.

use vstd::prelude::*;

use crate::watcher::terminal_send::SendFailurePlan;

verus! {

/// What became of a claim on the delivery of an answer.
#[derive(Debug, PartialEq, Eq)]
pub enum ResponseDeliveryClaimOutcome<C> {
    /// Somebody else is delivering the answer.
    Wait,
    /// The answer is delivered.
    Delivered,
    /// The watcher delivers the answer.
    Owned(C),
}

/// A claim on the delivery of an answer, and the card below which it is delivered.
#[derive(Debug, PartialEq, Eq)]
pub struct PreparedWatcherTaskResponse<C> {
    pub claim: ResponseDeliveryClaimOutcome<C>,
    pub card_message_id: u64,
}

/// What is done next to prepare the delivery.
#[derive(Debug, PartialEq, Eq)]
pub enum PrepareStep<C> {
    /// The delivery is prepared. Where `claim_slot`, the terminal slot is taken for
    /// the card of the turn's notification.
    Ready { prepared: PreparedWatcherTaskResponse<C>, claim_slot: bool },
    /// The card is ensured: of the turn's notification where it is known, or else of
    /// the turn as it was recovered.
    EnsureCard { recovered: bool },
    /// The terminal slot is taken for the card, and the delivery is claimed.
    ClaimResponse { card_message_id: u64 },
    Failed(String),
}

/// What is done next, where `existing` is the claim that the turn has already.
pub fn prepare_watcher_task_response<C>(
    existing: Result<Option<(ResponseDeliveryClaimOutcome<C>, u64)>, String>,
    has_context: bool,
) -> (r: PrepareStep<C>)
    ensures
        match existing {
            Ok(Some((claim, card_message_id))) => r == (PrepareStep::Ready {
                prepared: PreparedWatcherTaskResponse { claim, card_message_id },
                claim_slot: has_context,
            }),
            Ok(None) => r == (PrepareStep::<C>::EnsureCard { recovered: !has_context }),
            Err(error) => r matches PrepareStep::Failed(message) && message@
                == "resume watcher task response: "@ + error@,
        },
{
    match existing {
        Ok(Some((claim, card_message_id))) => PrepareStep::Ready {
            prepared: PreparedWatcherTaskResponse { claim, card_message_id },
            claim_slot: has_context,
        },
        Ok(None) => PrepareStep::EnsureCard { recovered: !has_context },
        Err(error) => {
            let mut message: String = "resume watcher task response: ".to_owned();
            message.append(error.as_str());
            PrepareStep::Failed(message)
        },
    }
}

/// What is done next, where `card` is the message of the card that was ensured.
pub fn after_card_ensured<C>(card: Result<u64, String>) -> (r: PrepareStep<C>)
    ensures
        match card {
            Ok(card_message_id) => r == (PrepareStep::<C>::ClaimResponse { card_message_id }),
            Err(error) => r matches PrepareStep::Failed(message) && message@
                == "confirm watcher task card: "@ + error@,
        },
{
    match card {
        Ok(card_message_id) => PrepareStep::ClaimResponse { card_message_id },
        Err(error) => {
            let mut message: String = "confirm watcher task card: ".to_owned();
            message.append(error.as_str());
            PrepareStep::Failed(message)
        },
    }
}

/// What is done next, where `claim` is what became of the claim. The terminal slot
/// has been taken.
pub fn after_response_claimed<C>(
    claim: Result<ResponseDeliveryClaimOutcome<C>, String>,
    card_message_id: u64,
) -> (r: PrepareStep<C>)
    ensures
        match claim {
            Ok(claim) => r == (PrepareStep::Ready {
                prepared: PreparedWatcherTaskResponse { claim, card_message_id },
                claim_slot: false,
            }),
            Err(error) => r matches PrepareStep::Failed(message) && message@
                == "claim watcher task response: "@ + error@,
        },
{
    match claim {
        Ok(claim) => PrepareStep::Ready {
            prepared: PreparedWatcherTaskResponse { claim, card_message_id },
            claim_slot: false,
        },
        Err(error) => {
            let mut message: String = "claim watcher task response: ".to_owned();
            message.append(error.as_str());
            PrepareStep::Failed(message)
        },
    }
}

/// What the watcher holds of a task turn's answer.
#[derive(Debug)]
pub struct WatcherTaskResponseLocals<C> {
    pub placeholder_msg_id: Option<u64>,
    pub placeholder_from_restored_inflight: bool,
    pub last_edit_text: String,
    pub retry_terminal_delivery_from_offset: bool,
    pub tui_direct_anchor_terminal_body_visible: bool,
    pub tui_direct_anchor_or_lease_present_for_lifecycle: bool,
    pub task_response_claim: Option<C>,
}

/// What became of the answer.
#[derive(Debug, Clone, Copy, PartialEq, Eq, Structural)]
pub struct WatcherTaskResponseOutcome {
    pub relay_ok: bool,
    pub direct_send_delivered: bool,
    pub external_input_lease_consumed_by_relay: bool,
}

/// The answer was not delivered, and is to be tried again.
pub open spec fn retried() -> WatcherTaskResponseOutcome {
    WatcherTaskResponseOutcome {
        relay_ok: false,
        direct_send_delivered: false,
        external_input_lease_consumed_by_relay: false,
    }
}

/// The answer is delivered.
pub open spec fn delivered(external_input_lease: bool) -> WatcherTaskResponseOutcome {
    WatcherTaskResponseOutcome {
        relay_ok: true,
        direct_send_delivered: true,
        external_input_lease_consumed_by_relay: external_input_lease,
    }
}

/// `locals` with the delivery to be tried again.
pub open spec fn with_retry<C>(locals: WatcherTaskResponseLocals<C>) -> WatcherTaskResponseLocals<
    C,
> {
    WatcherTaskResponseLocals { retry_terminal_delivery_from_offset: true, ..locals }
}

/// `locals` with the answer shown.
pub open spec fn with_body_shown<C>(
    locals: WatcherTaskResponseLocals<C>,
) -> WatcherTaskResponseLocals<C> {
    WatcherTaskResponseLocals {
        tui_direct_anchor_terminal_body_visible: true,
        tui_direct_anchor_or_lease_present_for_lifecycle: true,
        ..locals
    }
}

/// What is done next to deliver the answer.
#[derive(Debug, PartialEq, Eq)]
pub enum ApplyStep<C> {
    /// Nothing more: this became of the answer.
    Finished(WatcherTaskResponseOutcome),
    /// The answer is delivered; the message that showed its progress is settled.
    SettlePlaceholder(WatcherTaskResponseOutcome),
    /// The claim is renewed.
    Renew(C),
    /// The answer is sent as a reply to the card, while the claim is kept alive.
    Send(C),
}

/// What is done next, where `prepared` is the claim, if it could be prepared.
pub fn apply_watcher_task_response<C>(
    prepared: Result<ResponseDeliveryClaimOutcome<C>, String>,
    external_input_lease_before_relay: bool,
    locals: &mut WatcherTaskResponseLocals<C>,
) -> (r: ApplyStep<C>)
    ensures
        match prepared {
            Err(_) => r == ApplyStep::<C>::Finished(retried()) && *final(locals) == with_retry(
                *old(locals),
            ),
            Ok(ResponseDeliveryClaimOutcome::Wait) => r == ApplyStep::<C>::Finished(retried())
                && *final(locals) == with_retry(*old(locals)),
            Ok(ResponseDeliveryClaimOutcome::Delivered) => r == ApplyStep::<C>::SettlePlaceholder(
                delivered(external_input_lease_before_relay),
            ) && *final(locals) == with_body_shown(*old(locals)),
            Ok(ResponseDeliveryClaimOutcome::Owned(claim)) => r == ApplyStep::Renew(claim)
                && *final(locals) == *old(locals),
        },
{
    match prepared {
        Err(_) => {
            locals.retry_terminal_delivery_from_offset = true;
            ApplyStep::Finished(
                WatcherTaskResponseOutcome {
                    relay_ok: false,
                    direct_send_delivered: false,
                    external_input_lease_consumed_by_relay: false,
                },
            )
        },
        Ok(ResponseDeliveryClaimOutcome::Wait) => {
            locals.retry_terminal_delivery_from_offset = true;
            ApplyStep::Finished(
                WatcherTaskResponseOutcome {
                    relay_ok: false,
                    direct_send_delivered: false,
                    external_input_lease_consumed_by_relay: false,
                },
            )
        },
        Ok(ResponseDeliveryClaimOutcome::Delivered) => {
            locals.tui_direct_anchor_terminal_body_visible = true;
            locals.tui_direct_anchor_or_lease_present_for_lifecycle = true;
            ApplyStep::SettlePlaceholder(
                WatcherTaskResponseOutcome {
                    relay_ok: true,
                    direct_send_delivered: true,
                    external_input_lease_consumed_by_relay: external_input_lease_before_relay,
                },
            )
        },
        Ok(ResponseDeliveryClaimOutcome::Owned(claim)) => ApplyStep::Renew(claim),
    }
}

/// What is done next, where `renewed` says whether the claim was renewed: an answer
/// whose claim was lost is not sent.
pub fn after_claim_renewed<C>(
    renewed: bool,
    claim: C,
    locals: &mut WatcherTaskResponseLocals<C>,
) -> (r: ApplyStep<C>)
    ensures
        renewed ==> r == ApplyStep::Send(claim) && *final(locals) == *old(locals),
        !renewed ==> r == ApplyStep::<C>::Finished(retried()) && *final(locals) == with_retry(
            *old(locals),
        ),
{
    if renewed {
        ApplyStep::Send(claim)
    } else {
        locals.retry_terminal_delivery_from_offset = true;
        ApplyStep::Finished(
            WatcherTaskResponseOutcome {
                relay_ok: false,
                direct_send_delivered: false,
                external_input_lease_consumed_by_relay: false,
            },
        )
    }
}

/// What is done next, where `failure` says how a send that failed is taken up again.
/// The claim of an answer that was sent is kept, to be committed with the frontier.
pub fn after_response_sent<C>(
    failure: Option<SendFailurePlan>,
    claim: C,
    external_input_lease_before_relay: bool,
    locals: &mut WatcherTaskResponseLocals<C>,
) -> (r: ApplyStep<C>)
    ensures
        match failure {
            None => r == ApplyStep::<C>::SettlePlaceholder(
                delivered(external_input_lease_before_relay),
            ) && *final(locals) == (WatcherTaskResponseLocals {
                task_response_claim: Some(claim),
                ..with_body_shown(*old(locals))
            }),
            Some(plan) => r == ApplyStep::<C>::Finished(
                WatcherTaskResponseOutcome { relay_ok: plan.relay_ok, ..retried() },
            ) && *final(locals) == (WatcherTaskResponseLocals {
                retry_terminal_delivery_from_offset: plan.retry_offset,
                ..*old(locals)
            }),
        },
{
    match failure {
        None => {
            locals.task_response_claim = Some(claim);
            locals.tui_direct_anchor_terminal_body_visible = true;
            locals.tui_direct_anchor_or_lease_present_for_lifecycle = true;
            ApplyStep::SettlePlaceholder(
                WatcherTaskResponseOutcome {
                    relay_ok: true,
                    direct_send_delivered: true,
                    external_input_lease_consumed_by_relay: external_input_lease_before_relay,
                },
            )
        },
        Some(plan) => {
            locals.retry_terminal_delivery_from_offset = plan.retry_offset;
            ApplyStep::Finished(
                WatcherTaskResponseOutcome {
                    relay_ok: plan.relay_ok,
                    direct_send_delivered: false,
                    external_input_lease_consumed_by_relay: false,
                },
            )
        },
    }
}

/// `locals` and `before` agree on all but the message that showed the progress.
pub open spec fn same_but_placeholder<C>(
    locals: WatcherTaskResponseLocals<C>,
    before: WatcherTaskResponseLocals<C>,
) -> bool {
    &&& locals.retry_terminal_delivery_from_offset == before.retry_terminal_delivery_from_offset
    &&& locals.tui_direct_anchor_terminal_body_visible
        == before.tui_direct_anchor_terminal_body_visible
    &&& locals.tui_direct_anchor_or_lease_present_for_lifecycle
        == before.tui_direct_anchor_or_lease_present_for_lifecycle
    &&& locals.task_response_claim == before.task_response_claim
}

/// `locals` holds no message that shows progress.
pub open spec fn placeholder_cleared<C>(locals: WatcherTaskResponseLocals<C>) -> bool {
    &&& locals.placeholder_msg_id is None
    &&& !locals.placeholder_from_restored_inflight
    &&& locals.last_edit_text@.len() == 0
}

/// Settles the message that showed the progress of a delivered answer: one that has
/// become the card is given up, and any other is to be deleted.
pub fn settle_placeholder<C>(card_message_id: u64, locals: &mut WatcherTaskResponseLocals<C>) -> (r:
    Option<u64>)
    ensures
        match old(locals).placeholder_msg_id {
            None => r is None && *final(locals) == *old(locals),
            Some(id) => if id == card_message_id {
                r is None && placeholder_cleared(*final(locals)) && same_but_placeholder(
                    *final(locals),
                    *old(locals),
                )
            } else {
                r == Some(id) && *final(locals) == *old(locals)
            },
        },
{
    match locals.placeholder_msg_id {
        None => None,
        Some(id) => {
            if id == card_message_id {
                locals.placeholder_msg_id = None;
                locals.placeholder_from_restored_inflight = false;
                locals.last_edit_text = String::new();
                None
            } else {
                Some(id)
            }
        },
    }
}

/// Takes the deletion of the message into what is held. Where it was deleted, its
/// orphan record is dropped; where not, the deletion is tried again elsewhere.
pub fn after_placeholder_deleted<C>(
    committed: bool,
    locals: &mut WatcherTaskResponseLocals<C>,
) -> (drop_orphan_record: bool)
    ensures
        drop_orphan_record == committed,
        committed ==> placeholder_cleared(*final(locals)) && same_but_placeholder(
            *final(locals),
            *old(locals),
        ),
        !committed ==> *final(locals) == *old(locals),
{
    if committed {
        locals.placeholder_msg_id = None;
        locals.placeholder_from_restored_inflight = false;
        locals.last_edit_text = String::new();
    }
    committed
}

/// Whether the delivery of an answer is committed under its claim: with the frontier,
/// and where the watcher holds a claim.
pub fn commit_watcher_task_response_fence<C>(frontier_committed: bool, claim: Option<&C>) -> (r:
    bool)
    ensures
        r == (frontier_committed && claim is Some),
{
    frontier_committed && claim.is_some()
}

} // verus!
