//! What the steps of a card's delivery come to, one after another.

use vstd::prelude::*;

use crate::task_cards::delivery::{
    after_claim, after_edit, after_failure_recorded, after_post, after_recorded,
    after_replacement_prepared, deliver_claim, ensure_card, map_transport_error,
    record_footer_only, CardClaim, CardDisposition, CardEnsureError, CardEnsureOutcome,
    ClaimAction, ClaimedCard, DeliverStep, EnsureIntent, EnsureStep,
};
use crate::task_cards::event::{TaskCardEvent, TaskCardPayload};
use crate::task_cards::gateway::{
    map_card_edit_error, map_card_post_error, CardBot, CardDeliveryClients,
    ClassifiedOutboundEditError, ClassifiedOutboundPostError, TaskCardTransportError,
};
use crate::task_cards::identity::content_hash;

verus! {

// ---------------------------------------------------------------------------
// The bots
// ---------------------------------------------------------------------------
/// Every key that a bot was given with is still there, and of bots with one key the first
/// one given; the first bot of all stays the first.
pub proof fn law_first_bot_of_each_key_is_kept(
    bots: Vec<CardBot>,
    clients: CardDeliveryClients,
    i: int,
)
    requires
        call_ensures(CardDeliveryClients::new, (bots,), clients),
        0 <= i < bots@.len(),
        forall|k: int| 0 <= k < i ==> (#[trigger] bots@[k]).key@ != bots@[i].key@,
    ensures
        exists|j: int|
            0 <= j < clients.bots@.len() && #[trigger] clients.bots@[j] == bots@[i],
        clients.bots@.len() > 0,
        clients.bots@[0] == bots@[0],
        clients.bots@.len() <= bots@.len(),
{
    lemma_kept(bots@, i);
}

proof fn lemma_kept(bots: Seq<CardBot>, i: int)
    requires
        0 <= i < bots.len(),
        forall|k: int| 0 <= k < i ==> (#[trigger] bots[k]).key@ != bots[i].key@,
    ensures
        ({
            let kept = crate::task_cards::gateway::first_of_each_key(bots);
            &&& exists|j: int| 0 <= j < kept.len() && #[trigger] kept[j] == bots[i]
            &&& kept.len() > 0
            &&& kept[0] == bots[0]
            &&& kept.len() <= bots.len()
        }),
    decreases bots.len(),
{
    let kept = crate::task_cards::gateway::first_of_each_key(bots);
    let before = crate::task_cards::gateway::first_of_each_key(bots.drop_last());
    lemma_kept_are_given(bots.drop_last());
    if bots.len() == 1 {
        assert(before.len() == 0);
        assert(kept[0] == bots[0]);
    } else {
        assert forall|k: int| 0 <= k < 0 implies (#[trigger] bots.drop_last()[k]).key@
            != bots.drop_last()[0].key@ by {}
        lemma_kept(bots.drop_last(), 0);
        if i < bots.len() - 1 {
            assert forall|k: int| 0 <= k < i implies (#[trigger] bots.drop_last()[k]).key@
                != bots.drop_last()[i].key@ by {
                assert(bots.drop_last()[k] == bots[k]);
            }
            lemma_kept(bots.drop_last(), i);
            let j = choose|j: int|
                0 <= j < before.len() && #[trigger] before[j] == bots.drop_last()[i];
            assert(kept[j] == bots[i]);
        } else {
            if crate::task_cards::gateway::has_key(before, bots.last().key@) {
                let j = choose|j: int|
                    0 <= j < before.len() && #[trigger] before[j].key@ == bots.last().key@;
                let k = choose|k: int|
                    0 <= k < bots.drop_last().len() && #[trigger] bots.drop_last()[k] == before[j];
                assert(bots[k].key@ == bots[i].key@);
                assert(false);
            }
            assert(kept[before.len() as int] == bots[i]);
        }
    }
}

proof fn lemma_kept_are_given(bots: Seq<CardBot>)
    ensures
        ({
            let kept = crate::task_cards::gateway::first_of_each_key(bots);
            &&& kept.len() <= bots.len()
            &&& forall|j: int|
                0 <= j < kept.len() ==> exists|k: int|
                    0 <= k < bots.len() && #[trigger] bots[k] == #[trigger] kept[j]
        }),
    decreases bots.len(),
{
    if bots.len() > 0 {
        let kept = crate::task_cards::gateway::first_of_each_key(bots);
        let before = crate::task_cards::gateway::first_of_each_key(bots.drop_last());
        lemma_kept_are_given(bots.drop_last());
        assert forall|j: int| 0 <= j < kept.len() implies exists|k: int|
            0 <= k < bots.len() && #[trigger] bots[k] == #[trigger] kept[j] by {
            if j < before.len() {
                assert(kept[j] == before[j]);
                let k = choose|k: int|
                    0 <= k < bots.drop_last().len() && #[trigger] bots.drop_last()[k] == before[j];
                assert(bots[k] == kept[j]);
            } else {
                assert(bots[bots.len() - 1] == kept[j]);
            }
        }
    }
}

/// The first bot is preferred, and a key finds its bot wherever it stands in the list.
pub proof fn law_bots_are_found(
    clients: CardDeliveryClients,
    key: &str,
    i: int,
    preferred: Option<&CardBot>,
    found: Option<&CardBot>,
)
    requires
        call_ensures(CardDeliveryClients::preferred, (&clients,), preferred),
        call_ensures(CardDeliveryClients::by_key, (&clients, key), found),
    ensures
        clients.bots@.len() > 0 ==> preferred is Some && *preferred->0 == clients.bots@[0],
        clients.bots@.len() == 0 ==> preferred is None && found is None,
        0 <= i < clients.bots@.len() && clients.bots@[i].key@ == key@ ==> found is Some
            && found->0.key@ == key@,
        0 <= i < clients.bots@.len() && clients.bots@[i].key@ == key@ && (forall|k: int|
            0 <= k < i ==> (#[trigger] clients.bots@[k]).key@ != key@) ==> found is Some
            && *found->0 == clients.bots@[i],
        (forall|k: int| 0 <= k < clients.bots@.len() ==> (#[trigger] clients.bots@[k]).key@ != key@)
            ==> found is None,
{
    if found is Some {
        let j = choose|j: int|
            0 <= j < clients.bots@.len() && #[trigger] clients.bots@[j] == *found->0 && forall|k: int|
                0 <= k < j ==> #[trigger] clients.bots@[k].key@ != key@;
        assert(clients.bots@[j].key@ == key@);
        if 0 <= i < clients.bots@.len() && clients.bots@[i].key@ == key@ && (forall|k: int|
            0 <= k < i ==> (#[trigger] clients.bots@[k]).key@ != key@) {
            assert(i == j);
        }
    }
    if 0 <= i < clients.bots@.len() && clients.bots@[i].key@ == key@ {
        assert(crate::task_cards::gateway::has_key(clients.bots@, key@));
    }
}

// ---------------------------------------------------------------------------
// Claiming
// ---------------------------------------------------------------------------
/// A card is claimed with the preferred bot and the card as it is first written; without any
/// bot there is nothing to claim with, which may change.
pub proof fn law_card_is_claimed_with_the_preferred_bot(
    clients: CardDeliveryClients,
    event: TaskCardEvent,
    task_card: &str,
    first: String,
    text: &str,
    hash: String,
    step: EnsureStep,
)
    requires
        call_ensures(ensure_card, (&clients, &event, task_card), step),
        call_ensures(TaskCardPayload::render, (&event.payload, 1, task_card), first),
        call_ensures(content_hash, (text,), hash),
        text@ == first@,
    ensures
        clients.bots@.len() > 0 ==> (step matches EnsureStep::Claim {
            bot_key,
            content,
            hash: held,
        } && bot_key@ == clients.bots@[0].key@ && content@ == first@ && held@ == hash@),
        clients.bots@.len() == 0 ==> (step matches EnsureStep::Return(
            Err(CardEnsureError::Transient(_)),
        )),
{
    assert(seq![first@] =~= seq![text@]);
}

/// A card that is there already is the outcome; one that this worker owns is delivered; one
/// that another worker holds is claimed again, until the last attempt is reported as busy. A
/// store that fails is reported as such at any attempt.
pub proof fn law_claim_leads_on(attempt: u32, claim: Result<CardClaim, String>, step: EnsureStep)
    requires
        call_ensures(after_claim, (attempt, claim), step),
        attempt < 20,
    ensures
        claim matches Err(error) ==> step == EnsureStep::Return(Err(CardEnsureError::Store(error))),
        claim matches Ok(CardClaim::Existing { message_id, bot_key }) ==> (
        step matches EnsureStep::Return(Ok(outcome)) && outcome.message_id == message_id
            && outcome.bot_key == bot_key && outcome.disposition == CardDisposition::Existing),
        claim matches Ok(CardClaim::Owned(claimed)) ==> step == EnsureStep::Deliver(claimed),
        claim matches Ok(CardClaim::Busy { .. }) ==> (attempt < 19 ==> step == (EnsureStep::Retry {
            attempt: (attempt + 1) as u32,
        })) && (attempt == 19 ==> (step matches EnsureStep::Return(Err(CardEnsureError::Busy(_))))),
{
}

// ---------------------------------------------------------------------------
// Delivering
// ---------------------------------------------------------------------------
/// A claimed card is posted or edited, as its claim says, by the bot that it is pinned to.
/// It shows the event with the claim's number of updates, but for a response that promotes a
/// card which has been written already: that one is posted as it was written.
pub proof fn law_claim_is_carried_out(
    clients: CardDeliveryClients,
    event: TaskCardEvent,
    intent: EnsureIntent,
    claimed: ClaimedCard,
    task_card: &str,
    found: Option<&CardBot>,
    key: &str,
    written: String,
    step: DeliverStep,
)
    requires
        call_ensures(deliver_claim, (&clients, &event, intent, &claimed, task_card), step),
        key@ == claimed.bot_key@,
        call_ensures(CardDeliveryClients::by_key, (&clients, key), found),
        call_ensures(
            TaskCardPayload::render,
            (&event.payload, claimed.update_count, task_card),
            written,
        ),
    ensures
        found is Some ==> match claimed.action {
            ClaimAction::Post => {
                &&& step matches DeliverStep::Post { client, content, hash, nonce }
                &&& client == found->0.client
                &&& nonce@ == claimed.discord_nonce@
                &&& intent is Promotion && claimed.rendered_content@.len() > 0 ==> content@
                    == claimed.rendered_content@
                &&& intent is Observation || claimed.rendered_content@.len() == 0 ==> content@
                    == written@
            },
            ClaimAction::Edit { message_id } => {
                &&& step matches DeliverStep::Edit { client, message_id: id, content, hash }
                &&& client == found->0.client
                &&& id == message_id
                &&& content@ == written@
            },
        },
        found is None ==> match claimed.action {
            ClaimAction::Post => step matches DeliverStep::RecordPostFailure {
                error,
                report: CardEnsureError::Transient(what),
            } && error@ == "the card's pinned bot "@ + claimed.bot_key@ + " is unavailable"@
                && what@ == error@,
            ClaimAction::Edit { message_id } => step matches DeliverStep::RecordEditFailure {
                message_id: id,
                error,
                report: CardEnsureError::Transient(what),
            } && id == message_id && error@ == "the card's pinned bot "@ + claimed.bot_key@
                + " is unavailable"@ && what@ == error@,
        },
{
    let bots = clients.bots@;
    if found is Some {
        let j = choose|j: int|
            0 <= j < bots.len() && #[trigger] bots[j] == *found->0 && forall|k: int|
                0 <= k < j ==> #[trigger] bots[k].key@ != key@;
        assert(bots[j].key@ == key@);
        assert(crate::task_cards::gateway::has_key(bots, key@));
        let client = match step {
            DeliverStep::Post { client, .. } => client,
            DeliverStep::Edit { client, .. } => client,
            _ => 0,
        };
        assert(crate::task_cards::delivery::is_pinned_bot(clients, key@, client));
        let i = choose|i: int|
            0 <= i < bots.len() && (#[trigger] bots[i]).key@ == key@ && bots[i].client == client
                && forall|k: int| 0 <= k < i ==> (#[trigger] bots[k]).key@ != key@;
        assert(i == j);
    }
}

/// The hash that goes with a delivered card is the hash of what it shows.
pub proof fn law_hash_is_of_the_content(
    clients: CardDeliveryClients,
    event: TaskCardEvent,
    intent: EnsureIntent,
    claimed: ClaimedCard,
    task_card: &str,
    step: DeliverStep,
    text: &str,
    hash: String,
)
    requires
        call_ensures(deliver_claim, (&clients, &event, intent, &claimed, task_card), step),
        call_ensures(content_hash, (text,), hash),
    ensures
        step matches DeliverStep::Post { content, hash: held, .. } ==> (content@ == text@ ==> held@
            == hash@),
        step matches DeliverStep::Edit { content, hash: held, .. } ==> (content@ == text@ ==> held@
            == hash@),
{
    if let DeliverStep::Post { content, .. } = step {
        if content@ == text@ {
            assert(seq![content@] =~= seq![text@]);
        }
    }
}

/// A post that succeeded is recorded under the message that Discord gave: as created where
/// it is the card's first, as a replacement otherwise. One that failed is recorded with the
/// error and reported in its class; a message that is gone is nothing that a post can mend.
pub proof fn law_post_is_recorded(
    claimed: ClaimedCard,
    replacing: bool,
    posted: Result<u64, TaskCardTransportError>,
    step: DeliverStep,
)
    requires
        call_ensures(after_post, (&claimed, replacing, posted), step),
    ensures
        posted matches Ok(message_id) ==> {
            &&& step matches DeliverStep::RecordPosted(outcome)
            &&& outcome.message_id == message_id
            &&& outcome.bot_key@ == claimed.bot_key@
            &&& outcome.disposition == CardDisposition::Created <==> !replacing && claimed.revision
                <= 1
            &&& outcome.disposition == CardDisposition::Replaced <==> replacing || claimed.revision
                > 1
        },
        posted matches Err(TaskCardTransportError::Transient(what)) ==> (
        step matches DeliverStep::RecordPostFailure { error, report } && error@ == what@ && report
            == CardEnsureError::Transient(what)),
        posted matches Err(TaskCardTransportError::Permanent(what)) ==> (
        step matches DeliverStep::RecordPostFailure { error, report } && error@ == what@ && report
            == CardEnsureError::Permanent(what)),
        posted matches Err(TaskCardTransportError::ConfirmedMissing(what)) ==> (
        step matches DeliverStep::RecordPostFailure { error, report } && error@ == what@ && report
            == CardEnsureError::Permanent(what)),
{
}

/// An edit that succeeded is recorded. A message that is certainly gone, and no other, is
/// replaced: by one post of the same content, by the same client, under the nonce of the
/// replacement. Every other failure keeps the message and is recorded and reported in its
/// class.
pub proof fn law_only_a_missing_message_is_replaced(
    claimed: ClaimedCard,
    client: usize,
    message_id: u64,
    content: String,
    hash: String,
    edited: Result<(), TaskCardTransportError>,
    step: DeliverStep,
)
    requires
        call_ensures(after_edit, (&claimed, client, message_id, content, hash, edited), step),
    ensures
        edited is Ok ==> (step matches DeliverStep::RecordEdited(outcome) && outcome.message_id
            == message_id && outcome.bot_key@ == claimed.bot_key@ && outcome.disposition
            == CardDisposition::Edited),
        step is PrepareReplacement <==> (edited matches Err(
            TaskCardTransportError::ConfirmedMissing(_),
        )),
        step matches DeliverStep::PrepareReplacement { client: c, message_id: id, content: t, hash: h }
            ==> c == client && id == message_id && t@ == content@ && h@ == hash@,
        edited matches Err(TaskCardTransportError::Transient(what)) ==> (
        step matches DeliverStep::RecordEditFailure { message_id: id, error, report } && id
            == message_id && error@ == what@ && report == CardEnsureError::Transient(what)),
        edited matches Err(TaskCardTransportError::Permanent(what)) ==> (
        step matches DeliverStep::RecordEditFailure { message_id: id, error, report } && id
            == message_id && error@ == what@ && report == CardEnsureError::Permanent(what)),
{
}

/// A prepared replacement is posted once, with the content and by the client of the edit,
/// under its own nonce, and is then recorded as a replacement; where it could not be
/// prepared nothing is posted.
pub proof fn law_replacement_is_posted_as_prepared(
    prepared: Result<ClaimedCard, String>,
    client: usize,
    content: String,
    hash: String,
    r: Result<(ClaimedCard, DeliverStep), CardEnsureError>,
    message_id: u64,
    step: DeliverStep,
)
    requires
        call_ensures(after_replacement_prepared, (prepared, client, content, hash), r),
        prepared matches Ok(replacement) ==> call_ensures(
            after_post,
            (&replacement, true, Ok(message_id)),
            step,
        ),
    ensures
        prepared matches Ok(replacement) ==> {
            &&& r matches Ok((held, DeliverStep::Post { client: c, content: t, hash: h, nonce }))
            &&& held == replacement
            &&& c == client
            &&& t@ == content@
            &&& h@ == hash@
            &&& nonce@ == replacement.discord_nonce@
            &&& step matches DeliverStep::RecordPosted(outcome) && outcome.message_id == message_id
                && outcome.disposition == CardDisposition::Replaced
        },
        prepared matches Err(error) ==> (r matches Err(CardEnsureError::Store(what)) && what@
            == error@),
{
}

/// A success counts once it is recorded; a failure is reported as it is once it is recorded.
/// A store that fails comes before either.
pub proof fn law_record_comes_before_the_report(
    stored: Result<(), String>,
    outcome: CardEnsureOutcome,
    report: CardEnsureError,
    success: Result<CardEnsureOutcome, CardEnsureError>,
    failure: CardEnsureError,
)
    requires
        call_ensures(after_recorded, (stored, outcome), success),
        call_ensures(after_failure_recorded, (stored, report), failure),
    ensures
        stored is Ok ==> success == Ok::<CardEnsureOutcome, CardEnsureError>(outcome),
        stored is Ok ==> failure == report,
        stored matches Err(error) ==> success == Err::<CardEnsureOutcome, CardEnsureError>(
            CardEnsureError::Store(error),
        ) && failure == CardEnsureError::Store(error),
{
}

/// From Discord's failure to the report: what may pass is transient, and an edit that failed
/// for any reason but a missing message is nothing else.
pub proof fn law_failures_keep_their_class(
    post: ClassifiedOutboundPostError,
    edit: ClassifiedOutboundEditError,
    post_error: TaskCardTransportError,
    edit_error: TaskCardTransportError,
    post_report: CardEnsureError,
    edit_report: CardEnsureError,
)
    requires
        call_ensures(map_card_post_error, (post,), post_error),
        call_ensures(map_card_edit_error, (edit,), edit_error),
        call_ensures(map_transport_error, (post_error,), post_report),
        call_ensures(map_transport_error, (edit_error,), edit_report),
    ensures
        post matches ClassifiedOutboundPostError::Transient(what) ==> post_error
            == TaskCardTransportError::Transient(what) && post_report == CardEnsureError::Transient(
            what,
        ),
        post matches ClassifiedOutboundPostError::Permanent(what) ==> post_error
            == TaskCardTransportError::Permanent(what) && post_report == CardEnsureError::Permanent(
            what,
        ),
        edit matches ClassifiedOutboundEditError::ConfirmedMissing(what) ==> edit_error
            == TaskCardTransportError::ConfirmedMissing(what) && edit_report
            == CardEnsureError::Permanent(what),
        edit matches ClassifiedOutboundEditError::Other(what) ==> edit_error
            == TaskCardTransportError::Transient(what) && edit_report == CardEnsureError::Transient(
            what,
        ),
{
}

/// Each kind of failure says which it is, in front of what it reports.
pub proof fn law_failure_says_what_it_is(error: CardEnsureError, out: String)
    requires
        call_ensures(CardEnsureError::message, (&error,), out),
    ensures
        error matches CardEnsureError::Busy(what) ==> out@ == "task card delivery is busy: "@
            + what@,
        error matches CardEnsureError::Transient(what) ==> out@
            == "task card delivery is transient: "@ + what@,
        error matches CardEnsureError::Permanent(what) ==> out@
            == "task card delivery failed permanently: "@ + what@,
        error matches CardEnsureError::Store(what) ==> out@ == "task card state error: "@ + what@,
{
}

/// What is stored for a card that is shown in the footer only is the card as it is first
/// written, with its hash.
pub proof fn law_footer_card_is_the_first_writing(
    event: TaskCardEvent,
    task_card: &str,
    first: String,
    text: &str,
    hash: String,
    out: (String, String),
)
    requires
        call_ensures(record_footer_only, (&event, task_card), out),
        call_ensures(TaskCardPayload::render, (&event.payload, 1, task_card), first),
        call_ensures(content_hash, (text,), hash),
        text@ == first@,
    ensures
        out.0@ == first@,
        out.1@ == hash@,
{
    assert(seq![out.0@] =~= seq![text@]);
}

/// The card of a task is the card that was written for it, whatever the count. The card of a
/// subagent is its own, with a line that tells the number of updates from the second on.
pub proof fn law_card_tells_its_updates(
    payload: TaskCardPayload,
    update_count: u64,
    task_card: &str,
    out: String,
)
    requires
        call_ensures(TaskCardPayload::render, (&payload, update_count, task_card), out),
    ensures
        payload is Task ==> out@ == task_card@,
        payload matches TaskCardPayload::Subagent(card) ==> (update_count <= 1 ==> out@ == card@)
            && (update_count > 1 ==> out@ == card@ + "\n\n-# "@ + crate::text::decimal(
            update_count as nat,
        ) + " updates"@),
{
}

/// A bot is the one of its key and its client, and an error tells what it was given.
pub proof fn law_bots_and_errors_keep_what_they_are_given(
    key: &str,
    client: usize,
    bot: CardBot,
    error: TaskCardTransportError,
    message: &str,
)
    requires
        call_ensures(CardBot::new, (key, client), bot),
        call_ensures(TaskCardTransportError::message, (&error,), message),
    ensures
        bot.key@ == key@,
        bot.client == client,
        match error {
            TaskCardTransportError::Transient(what) => message@ == what@,
            TaskCardTransportError::ConfirmedMissing(what) => message@ == what@,
            TaskCardTransportError::Permanent(what) => message@ == what@,
        },
{
}

} // verus!
