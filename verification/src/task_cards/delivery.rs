//! Bringing a card into the channel.
//!
//! The state of a card is stored; a caller claims it, posts or edits the message, and
//! records what came of it. The functions here say what is to be done at each point
//! and what the caller is told in the end; the caller talks to Discord and the store.

use vstd::prelude::*;

use crate::task_cards::event::{TaskCardEvent, TaskCardPayload};
use crate::task_cards::event;
use crate::task_cards::gateway::{CardDeliveryClients, TaskCardTransportError};
use crate::task_cards::gateway;
use crate::task_cards::identity::content_hash;
use crate::task_cards::identity;
use crate::text;

verus! {

/// Why a card is brought in: because its event was observed, or because a response
/// is about to follow it.
#[derive(Debug, Clone, Copy, PartialEq, Eq, Structural)]
pub enum EnsureIntent {
    Observation,
    Promotion,
}

#[derive(Debug, Clone, Copy, PartialEq, Eq, Structural)]
pub enum CardDisposition {
    Created,
    Existing,
    Edited,
    Replaced,
}

/// The card that is in the channel.
#[derive(Debug, PartialEq, Eq)]
pub struct CardEnsureOutcome {
    pub message_id: u64,
    pub bot_key: String,
    pub disposition: CardDisposition,
}

/// Why there is no card.
#[derive(Debug, PartialEq, Eq)]
pub enum CardEnsureError {
    Busy(String),
    Transient(String),
    Permanent(String),
    Store(String),
}

/// The text of an error.
pub open spec fn ensure_error_text(error: CardEnsureError) -> Seq<char> {
    match error {
        CardEnsureError::Busy(what) => "task card delivery is busy: "@ + what@,
        CardEnsureError::Transient(what) => "task card delivery is transient: "@ + what@,
        CardEnsureError::Permanent(what) => "task card delivery failed permanently: "@ + what@,
        CardEnsureError::Store(what) => "task card state error: "@ + what@,
    }
}

impl CardEnsureError {
    /// The text of an error.
    pub fn message(&self) -> (out: String)
        ensures
            out@ == ensure_error_text(*self),
    {
        let mut out: String = String::new();
        match self {
            CardEnsureError::Busy(what) => {
                out.append("task card delivery is busy: ");
                out.append(what.as_str());
            },
            CardEnsureError::Transient(what) => {
                out.append("task card delivery is transient: ");
                out.append(what.as_str());
            },
            CardEnsureError::Permanent(what) => {
                out.append("task card delivery failed permanently: ");
                out.append(what.as_str());
            },
            CardEnsureError::Store(what) => {
                out.append("task card state error: ");
                out.append(what.as_str());
            },
        }
        assert(out@ =~= ensure_error_text(*self));
        out
    }
}

/// What a claimed card asks for.
#[derive(Debug, Clone, Copy, PartialEq, Eq, Structural)]
pub enum ClaimAction {
    Post,
    Edit { message_id: u64 },
}

/// A card that this worker has claimed.
#[derive(Debug, PartialEq, Eq)]
pub struct ClaimedCard {
    pub bot_key: String,
    pub discord_nonce: String,
    pub revision: i32,
    pub update_count: u64,
    pub rendered_content: String,
    pub action: ClaimAction,
}

/// What came of claiming a card.
#[derive(Debug, PartialEq, Eq)]
pub enum CardClaim {
    Existing { message_id: u64, bot_key: String },
    Owned(ClaimedCard),
    Busy { bot_key: String },
}

// ---------------------------------------------------------------------------
// Claiming
// ---------------------------------------------------------------------------
/// How often a card is claimed before another worker's lease is reported.
pub const MAX_CLAIM_ATTEMPTS: u32 = 20;

/// How long a worker waits for another worker's lease, in milliseconds.
pub const CLAIM_RETRY_MILLIS: u64 = 25;

/// What follows an attempt to claim a card.
#[derive(Debug, PartialEq, Eq)]
pub enum EnsureStep {
    /// Claim the card: with this bot, seeded with this content.
    Claim { bot_key: String, content: String, hash: String },
    /// Wait, and claim again.
    Retry { attempt: u32 },
    /// Deliver the claimed card.
    Deliver(ClaimedCard),
    Return(Result<CardEnsureOutcome, CardEnsureError>),
}

/// The first step: claim the card with the preferred bot. `task_card` is the card of
/// a task notification as it is first written.
pub fn ensure_card(clients: &CardDeliveryClients, event: &TaskCardEvent, task_card: &str) -> (r:
    EnsureStep)
    ensures
        clients.bots@.len() > 0 ==> (r matches EnsureStep::Claim { bot_key, content, hash }
            && bot_key@ == clients.bots@[0].key@ && content@ == event::rendered(
            event.payload,
            1,
            task_card@,
        ) && hash@ == identity::fingerprint_of(seq![content@])),
        clients.bots@.len() == 0 ==> (r matches EnsureStep::Return(
            Err(CardEnsureError::Transient(error)),
        ) && error@ == "no notify/provider Discord bot is available"@),
{
    match clients.preferred() {
        Some(preferred) => {
            let content = event.payload.render(1, task_card);
            let hash = content_hash(content.as_str());
            EnsureStep::Claim { bot_key: preferred.key.clone(), content, hash }
        },
        None => EnsureStep::Return(
            Err(
                CardEnsureError::Transient(
                    "no notify/provider Discord bot is available".to_owned(),
                ),
            ),
        ),
    }
}

/// What follows the claim number `attempt`, counted from zero.
pub fn after_claim(attempt: u32, claim: Result<CardClaim, String>) -> (r: EnsureStep)
    requires
        attempt < MAX_CLAIM_ATTEMPTS,
    ensures
        match claim {
            Err(error) => r == EnsureStep::Return(Err(CardEnsureError::Store(error))),
            Ok(CardClaim::Existing { message_id, bot_key }) => r == EnsureStep::Return(
                Ok(
                    CardEnsureOutcome {
                        message_id,
                        bot_key,
                        disposition: CardDisposition::Existing,
                    },
                ),
            ),
            Ok(CardClaim::Owned(claimed)) => r == EnsureStep::Deliver(claimed),
            Ok(CardClaim::Busy { bot_key }) => if attempt + 1 < MAX_CLAIM_ATTEMPTS {
                r == (EnsureStep::Retry { attempt: (attempt + 1) as u32 })
            } else {
                r matches EnsureStep::Return(Err(CardEnsureError::Busy(error))) && error@
                    == "another worker owns the card lease (bot="@ + bot_key@ + ")"@
            },
        },
{
    match claim {
        Err(error) => EnsureStep::Return(Err(CardEnsureError::Store(error))),
        Ok(CardClaim::Existing { message_id, bot_key }) => EnsureStep::Return(
            Ok(
                CardEnsureOutcome {
                    message_id,
                    bot_key,
                    disposition: CardDisposition::Existing,
                },
            ),
        ),
        Ok(CardClaim::Owned(claimed)) => EnsureStep::Deliver(claimed),
        Ok(CardClaim::Busy { bot_key }) => {
            if attempt + 1 < MAX_CLAIM_ATTEMPTS {
                EnsureStep::Retry { attempt: attempt + 1 }
            } else {
                let mut error: String = "another worker owns the card lease (bot=".to_owned();
                error.append(bot_key.as_str());
                error.append(")");
                EnsureStep::Return(Err(CardEnsureError::Busy(error)))
            }
        },
    }
}

// ---------------------------------------------------------------------------
// Delivering
// ---------------------------------------------------------------------------
/// What the delivery of a claimed card asks for.
#[derive(Debug, PartialEq, Eq)]
pub enum DeliverStep {
    /// Post the card under the nonce.
    Post { client: usize, content: String, hash: String, nonce: String },
    /// Edit the card.
    Edit { client: usize, message_id: u64, content: String, hash: String },
    /// Record that the card was posted as `outcome.message_id`.
    RecordPosted(CardEnsureOutcome),
    /// Record that the card was edited.
    RecordEdited(CardEnsureOutcome),
    /// Record that posting failed, and report `report`.
    RecordPostFailure { error: String, report: CardEnsureError },
    /// Record that editing failed, and report `report`.
    RecordEditFailure { message_id: u64, error: String, report: CardEnsureError },
    /// Prepare a replacement for a message that is gone. What it shows, and by which
    /// client, stays as it was for the edit.
    PrepareReplacement { client: usize, message_id: u64, content: String, hash: String },
}

/// What a claimed card shows: a response that promotes a card shows what was stored
/// for it, everything else the event as it stands.
pub open spec fn delivered_content(
    claimed: ClaimedCard,
    intent: EnsureIntent,
    payload: TaskCardPayload,
    task_card: Seq<char>,
) -> Seq<char> {
    if claimed.action is Post && intent is Promotion && claimed.rendered_content@.len() > 0 {
        claimed.rendered_content@
    } else {
        event::rendered(payload, claimed.update_count, task_card)
    }
}

/// The complaint about a bot that is not there.
pub open spec fn missing_bot_text(bot_key: Seq<char>) -> Seq<char> {
    "the card's pinned bot "@ + bot_key + " is unavailable"@
}

/// The client of the bot that a card is pinned to: of the first bot with the key.
pub open spec fn is_pinned_bot(clients: CardDeliveryClients, key: Seq<char>, client: usize) -> bool {
    exists|i: int|
        0 <= i < clients.bots@.len() && (#[trigger] clients.bots@[i]).key@ == key
            && clients.bots@[i].client == client && forall|k: int|
            0 <= k < i ==> (#[trigger] clients.bots@[k]).key@ != key
}

/// The first step of delivering a claimed card. `task_card` is the card of a task
/// notification, written for the claim's number of updates.
pub fn deliver_claim(
    clients: &CardDeliveryClients,
    event: &TaskCardEvent,
    intent: EnsureIntent,
    claimed: &ClaimedCard,
    task_card: &str,
) -> (r: DeliverStep)
    ensures
        !gateway::has_key(clients.bots@, claimed.bot_key@) ==> match claimed.action {
            ClaimAction::Post => r matches DeliverStep::RecordPostFailure { error, report }
                && error@ == missing_bot_text(claimed.bot_key@) && (report
                matches CardEnsureError::Transient(what) && what@ == error@),
            ClaimAction::Edit { message_id } => r matches DeliverStep::RecordEditFailure {
                message_id: id,
                error,
                report,
            } && id == message_id && error@ == missing_bot_text(claimed.bot_key@) && (report
                matches CardEnsureError::Transient(what) && what@ == error@),
        },
        gateway::has_key(clients.bots@, claimed.bot_key@) ==> match claimed.action {
            ClaimAction::Post => r matches DeliverStep::Post { client, content, hash, nonce }
                && is_pinned_bot(*clients, claimed.bot_key@, client) && content@
                == delivered_content(*claimed, intent, event.payload, task_card@) && hash@
                == identity::fingerprint_of(seq![content@]) && nonce@ == claimed.discord_nonce@,
            ClaimAction::Edit { message_id } => r matches DeliverStep::Edit {
                client,
                message_id: id,
                content,
                hash,
            } && is_pinned_bot(*clients, claimed.bot_key@, client) && id == message_id && content@
                == delivered_content(*claimed, intent, event.payload, task_card@) && hash@
                == identity::fingerprint_of(seq![content@]),
        },
{
    let client: usize = match clients.by_key(claimed.bot_key.as_str()) {
        Some(bot) => bot.client,
        None => {
            let mut error: String = "the card's pinned bot ".to_owned();
            error.append(claimed.bot_key.as_str());
            error.append(" is unavailable");
            let report = CardEnsureError::Transient(error.clone());
            return match claimed.action {
                ClaimAction::Post => DeliverStep::RecordPostFailure { error, report },
                ClaimAction::Edit { message_id } => DeliverStep::RecordEditFailure {
                    message_id,
                    error,
                    report,
                },
            };
        },
    };
    let stored = claimed.action == ClaimAction::Post && intent == EnsureIntent::Promotion
        && !claimed.rendered_content.as_str().is_empty();
    let content = if stored {
        claimed.rendered_content.clone()
    } else {
        event.payload.render(claimed.update_count, task_card)
    };
    let hash = content_hash(content.as_str());
    match claimed.action {
        ClaimAction::Post => DeliverStep::Post {
            client,
            content,
            hash,
            nonce: claimed.discord_nonce.clone(),
        },
        ClaimAction::Edit { message_id } => DeliverStep::Edit { client, message_id, content, hash },
    }
}

/// What a failed transport means for the caller.
pub open spec fn transport_report(error: TaskCardTransportError) -> CardEnsureError {
    match error {
        TaskCardTransportError::Transient(error) => CardEnsureError::Transient(error),
        TaskCardTransportError::ConfirmedMissing(error) => CardEnsureError::Permanent(error),
        TaskCardTransportError::Permanent(error) => CardEnsureError::Permanent(error),
    }
}

/// What a failed transport means for the caller.
pub fn map_transport_error(error: TaskCardTransportError) -> (r: CardEnsureError)
    ensures
        r == transport_report(error),
{
    match error {
        TaskCardTransportError::Transient(error) => CardEnsureError::Transient(error),
        TaskCardTransportError::ConfirmedMissing(error) => CardEnsureError::Permanent(error),
        TaskCardTransportError::Permanent(error) => CardEnsureError::Permanent(error),
    }
}

/// What follows a post. `replacing` says that the post replaces a message that was
/// gone; a first post of a later revision replaces one too.
pub fn after_post(
    claimed: &ClaimedCard,
    replacing: bool,
    posted: Result<u64, TaskCardTransportError>,
) -> (r: DeliverStep)
    ensures
        match posted {
            Ok(message_id) => r matches DeliverStep::RecordPosted(outcome) && outcome.message_id
                == message_id && outcome.bot_key@ == claimed.bot_key@ && outcome.disposition == (
            if replacing || claimed.revision > 1 {
                CardDisposition::Replaced
            } else {
                CardDisposition::Created
            }),
            Err(error) => r matches DeliverStep::RecordPostFailure { error: text, report }
                && text@ == error.text() && report == transport_report(error),
        },
{
    match posted {
        Ok(message_id) => {
            let disposition = if replacing || claimed.revision > 1 {
                CardDisposition::Replaced
            } else {
                CardDisposition::Created
            };
            DeliverStep::RecordPosted(
                CardEnsureOutcome { message_id, bot_key: claimed.bot_key.clone(), disposition },
            )
        },
        Err(error) => {
            let text = error.message().to_owned();
            DeliverStep::RecordPostFailure { error: text, report: map_transport_error(error) }
        },
    }
}

/// What follows an edit: a message that is certainly gone is replaced, and no other.
/// `client`, `content` and `hash` are those of the edit.
pub fn after_edit(
    claimed: &ClaimedCard,
    client: usize,
    message_id: u64,
    content: String,
    hash: String,
    edited: Result<(), TaskCardTransportError>,
) -> (r: DeliverStep)
    ensures
        match edited {
            Ok(_) => r matches DeliverStep::RecordEdited(outcome) && outcome.message_id
                == message_id && outcome.bot_key@ == claimed.bot_key@ && outcome.disposition
                == CardDisposition::Edited,
            Err(TaskCardTransportError::ConfirmedMissing(_)) => r == (
            DeliverStep::PrepareReplacement { client, message_id, content, hash }),
            Err(error) => r matches DeliverStep::RecordEditFailure {
                message_id: id,
                error: text,
                report,
            } && id == message_id && text@ == error.text() && report == transport_report(error),
        },
{
    match edited {
        Ok(_) => DeliverStep::RecordEdited(
            CardEnsureOutcome {
                message_id,
                bot_key: claimed.bot_key.clone(),
                disposition: CardDisposition::Edited,
            },
        ),
        Err(TaskCardTransportError::ConfirmedMissing(_)) => DeliverStep::PrepareReplacement {
            client,
            message_id,
            content,
            hash,
        },
        Err(error) => {
            let text = error.message().to_owned();
            DeliverStep::RecordEditFailure {
                message_id,
                error: text,
                report: map_transport_error(error),
            }
        },
    }
}

/// What follows the preparation of a replacement: one post, by the client and with the
/// content of the edit, under the nonce of the prepared replacement. The replacement is
/// the claim under which the post is recorded.
pub fn after_replacement_prepared(
    prepared: Result<ClaimedCard, String>,
    client: usize,
    content: String,
    hash: String,
) -> (r: Result<(ClaimedCard, DeliverStep), CardEnsureError>)
    ensures
        match prepared {
            Ok(replacement) => r matches Ok(
                (held, DeliverStep::Post { client: c, content: t, hash: h, nonce }),
            ) && held == replacement && c == client && t@ == content@ && h@ == hash@ && nonce@
                == replacement.discord_nonce@,
            Err(error) => r matches Err(CardEnsureError::Store(what)) && what@ == error@,
        },
{
    match prepared {
        Ok(replacement) => {
            let nonce = replacement.discord_nonce.clone();
            Ok((replacement, DeliverStep::Post { client, content, hash, nonce }))
        },
        Err(error) => Err(CardEnsureError::Store(error)),
    }
}

/// What the caller is told once a success has been recorded.
pub fn after_recorded(stored: Result<(), String>, outcome: CardEnsureOutcome) -> (r: Result<
    CardEnsureOutcome,
    CardEnsureError,
>)
    ensures
        r == match stored {
            Ok(_) => Ok::<CardEnsureOutcome, CardEnsureError>(outcome),
            Err(error) => Err(CardEnsureError::Store(error)),
        },
{
    match stored {
        Ok(_) => Ok(outcome),
        Err(error) => Err(CardEnsureError::Store(error)),
    }
}

/// What the caller is told once a failure has been recorded.
pub fn after_failure_recorded(stored: Result<(), String>, report: CardEnsureError) -> (r:
    CardEnsureError)
    ensures
        r == match stored {
            Ok(_) => report,
            Err(error) => CardEnsureError::Store(error),
        },
{
    match stored {
        Ok(_) => report,
        Err(error) => CardEnsureError::Store(error),
    }
}

/// What is stored for an event that is only shown in the footer.
pub fn record_footer_only(event: &TaskCardEvent, task_card: &str) -> (out: (String, String))
    ensures
        out.0@ == event::rendered(event.payload, 1, task_card@),
        out.1@ == identity::fingerprint_of(seq![out.0@]),
{
    let content = event.payload.render(1, task_card);
    let hash = content_hash(content.as_str());
    (content, hash)
}

} // verus!
