//! What each of the journal's operations does with what it is given, case by case.

use vstd::prelude::*;

use crate::journal::channel::{ChannelJournal, ChannelRecord, LoadedChannel, Transition};
use crate::journal::codec::ChannelWire;
use crate::journal::digest;
use crate::journal::model;
use crate::journal::model::{
    BoundOperation, ChannelSnapshot, DeleteDisposition, DeleteObservation, JournalOwnedBind,
    JournalOwnedRetire, JournalState, Mutation, PanelPlan, PreparedOperation, ReadOutcome,
    StoreError,
};

verus! {

/// Preparing makes progress. A plan of the channel itself, with a turn and without the
/// message number zero, is stored over whatever the journal holds, in any state or not at
/// all, as soon as the caller expects the revision that is stored. It is stale just where
/// the caller expects another one.
pub proof fn law_prepare_makes_progress(
    journal: ChannelJournal,
    plan: PanelPlan,
    expected_revision: u64,
    stored: Result<Option<ChannelSnapshot>, StoreError>,
    operation_id: String,
    owner_nonce: String,
    step: Transition<PreparedOperation>,
)
    requires
        call_ensures(
            ChannelJournal::prepare_with_ids,
            (&journal, plan, expected_revision, stored, operation_id, owner_nonce),
            step,
        ),
    ensures
        ({
            let admitted = plan.identity@ == journal.identity@ && plan.turn_id != 0
                && plan.expected_prior_message_id != Some(0u64);
            &&& !admitted ==> step == Transition::<PreparedOperation>::Failed(
                StoreError::InvariantViolation,
            )
            &&& admitted ==> match stored {
                Err(error) => step == Transition::<PreparedOperation>::Failed(error),
                Ok(current) => {
                    let (revision, generation, panel) = match current {
                        Some(held) => (
                            held.revision,
                            held.channel_generation,
                            held.current_singleton_message_id,
                        ),
                        None => (0u64, 0u64, None),
                    };
                    &&& step is Stale <==> revision != expected_revision
                    &&& revision == expected_revision && revision < u64::MAX && generation
                        < u64::MAX ==> {
                        &&& step matches Transition::Persist { snapshot, applied }
                        &&& snapshot.revision == revision + 1
                        &&& snapshot.channel_generation == generation + 1
                        &&& snapshot.current_singleton_message_id == panel
                        &&& snapshot.state matches JournalState::Prepared {
                            plan: held_plan,
                            generation: held_generation,
                        } && held_plan@ == plan@ && held_generation == generation + 1
                        &&& snapshot.last_operation.operation_id@ == operation_id@
                        &&& snapshot.last_operation.owner_nonce@ == owner_nonce@
                        &&& snapshot.last_operation.revision == revision + 1
                        &&& applied.operation_id@ == operation_id@
                        &&& applied.owner_nonce@ == owner_nonce@
                        &&& applied.digest@ == snapshot.last_operation.digest@
                        &&& applied.expected_revision == expected_revision
                        &&& applied.plan@ == plan@
                        &&& applied.generation == generation + 1
                    }
                    &&& revision == expected_revision && (revision == u64::MAX || generation
                        == u64::MAX) ==> step == Transition::<PreparedOperation>::Failed(
                        StoreError::InvariantViolation,
                    )
                },
            }
        }),
{
}

/// The expected revision is all that decides whether a plan is stale: the state in which the
/// journal stands takes no part in it.
pub proof fn law_only_the_revision_makes_a_plan_stale(
    journal: ChannelJournal,
    plan: PanelPlan,
    expected_revision: u64,
    held: ChannelSnapshot,
    operation_id: String,
    owner_nonce: String,
    step: Transition<PreparedOperation>,
)
    requires
        call_ensures(
            ChannelJournal::prepare_with_ids,
            (&journal, plan, expected_revision, Ok(Some(held)), operation_id, owner_nonce),
            step,
        ),
        held.revision == expected_revision,
    ensures
        !(step is Stale),
{
    assert(step is Stale ==> step@ is Stale);
}

/// Preparing under fresh identifiers makes the same progress.
pub proof fn law_fresh_prepare_makes_progress(
    journal: ChannelJournal,
    plan: PanelPlan,
    expected_revision: u64,
    stored: Result<Option<ChannelSnapshot>, StoreError>,
    step: Transition<PreparedOperation>,
)
    requires
        call_ensures(ChannelJournal::prepare, (&journal, plan, expected_revision, stored), step),
        plan.identity@ == journal.identity@,
        plan.turn_id != 0,
        plan.expected_prior_message_id != Some(0u64),
        stored is Ok,
    ensures
        ({
            let (revision, generation) = match stored->Ok_0 {
                Some(held) => (held.revision, held.channel_generation),
                None => (0u64, 0u64),
            };
            &&& step is Stale <==> revision != expected_revision
            &&& step is Persist <==> revision == expected_revision && revision < u64::MAX
                && generation < u64::MAX
            &&& step matches Transition::Persist { snapshot, applied } ==> {
                &&& snapshot.revision == revision + 1
                &&& snapshot.state matches JournalState::Prepared { plan: held, .. } && held@
                    == plan@
                &&& applied.plan@ == plan@
                &&& applied.operation_id@.len() == 32 && applied.owner_nonce@.len() == 32
            }
        }),
{
}

/// Once a retirement has been recorded, the channel is free for the next turn: a plan of
/// the channel is stored at the revision that the retirement stored.
pub proof fn law_next_turn_follows_a_retirement(
    journal: ChannelJournal,
    authorization: JournalOwnedRetire,
    observation: DeleteObservation,
    before: Result<Option<ChannelSnapshot>, StoreError>,
    retirement: Transition<DeleteDisposition>,
    plan: PanelPlan,
    operation_id: String,
    owner_nonce: String,
    step: Transition<PreparedOperation>,
)
    requires
        call_ensures(
            ChannelJournal::record_delete_observation,
            (&journal, &authorization, observation, before),
            retirement,
        ),
        retirement is Persist,
        call_ensures(
            ChannelJournal::prepare_with_ids,
            (
                &journal,
                plan,
                retirement->snapshot.revision,
                Ok(Some(retirement->snapshot)),
                operation_id,
                owner_nonce,
            ),
            step,
        ),
        plan.identity@ == journal.identity@,
        plan.turn_id != 0,
        plan.expected_prior_message_id != Some(0u64),
        retirement->snapshot.revision < u64::MAX,
        retirement->snapshot.channel_generation < u64::MAX,
    ensures
        step matches Transition::Persist { snapshot, .. } && snapshot.state is Prepared
            && snapshot.channel_generation == retirement->snapshot.channel_generation + 1,
{
}

/// Recording a sent message takes the operation that the journal holds as its last one, in
/// the state in which preparing left it, and nothing else; it then authorizes just that
/// message for just that plan.
pub proof fn law_sent_message_is_recorded_for_its_operation(
    journal: ChannelJournal,
    operation: PreparedOperation,
    message_id: u64,
    held: ChannelSnapshot,
    step: Transition<JournalOwnedBind>,
)
    requires
        call_ensures(
            ChannelJournal::record_sent,
            (&journal, &operation, message_id, Ok(Some(held))),
            step,
        ),
    ensures
        ({
            let admitted = operation.plan.identity@ == journal.identity@ && operation.plan.turn_id
                != 0 && operation.plan.expected_prior_message_id != Some(0u64) && message_id != 0
                && operation.generation != 0 && operation.plan.expected_prior_message_id != Some(
                message_id,
            ) && operation.expected_revision <= u64::MAX - 2;
            let own = held.revision == operation.expected_revision + 1 && held.last_operation@ == (
            model::StampView {
                operation_id: operation.operation_id@,
                owner_nonce: operation.owner_nonce@,
                digest: operation.digest@,
                revision: held.revision,
            }) && held.state@ == (model::StateView::Prepared {
                plan: operation.plan@,
                generation: operation.generation,
            });
            &&& !admitted ==> step == Transition::<JournalOwnedBind>::Failed(
                StoreError::InvariantViolation,
            )
            &&& step is Persist <==> admitted && own
            &&& admitted && !own && held.revision != operation.expected_revision + 2 ==> step is Stale
            &&& admitted ==> step !is Failed
            &&& step matches Transition::Persist { snapshot, applied } ==> {
                &&& snapshot.revision == held.revision + 1
                &&& snapshot.channel_generation == held.channel_generation
                &&& snapshot.current_singleton_message_id == held.current_singleton_message_id
                &&& snapshot.state matches JournalState::BindAuthorized {
                    candidate,
                    authorization,
                } && candidate.message_id == message_id && candidate.plan@ == operation.plan@
                    && candidate.generation == operation.generation && authorization@ == applied@
                &&& snapshot.last_operation.operation_id@ == operation.operation_id@
                &&& snapshot.last_operation.owner_nonce@ == operation.owner_nonce@
                &&& snapshot.last_operation.revision == snapshot.revision
                &&& applied@.operation_id == operation.operation_id@
                &&& applied@.owner_nonce == operation.owner_nonce@
                &&& applied@.revision == snapshot.revision
                &&& applied@.candidate.message_id == message_id
                &&& applied@.candidate.plan == operation.plan@
                &&& applied@.candidate.generation == operation.generation
            }
            &&& step matches Transition::Replayed(applied) ==> {
                &&& held.revision == operation.expected_revision + 2
                &&& held.state matches JournalState::BindAuthorized { authorization, .. }
                    && authorization@ == applied@
                &&& applied@.candidate.message_id == message_id
                &&& applied@.candidate.plan == operation.plan@
                &&& applied@.operation_id == operation.operation_id@
                &&& applied@.owner_nonce == operation.owner_nonce@
            }
        }),
{
}

/// Committing takes the authorization that the journal holds, and nothing else; its message
/// then is the channel's panel.
pub proof fn law_held_authorization_is_committed(
    journal: ChannelJournal,
    authorization: JournalOwnedBind,
    held: ChannelSnapshot,
    step: Transition<BoundOperation>,
)
    requires
        call_ensures(
            ChannelJournal::commit_bind,
            (&journal, &authorization, Ok(Some(held))),
            step,
        ),
    ensures
        ({
            let genuine = authorization@.digest == digest::digest_of(
                digest::bind_parts(
                    authorization@.operation_id,
                    authorization@.owner_nonce,
                    authorization@.candidate,
                ),
            );
            let own = held.revision == authorization@.revision && held.state@ == (
            model::StateView::BindAuthorized {
                candidate: authorization@.candidate,
                authorization: authorization@,
            });
            &&& step is Persist <==> genuine && own && authorization@.revision < u64::MAX
            &&& !genuine ==> step == Transition::<BoundOperation>::Failed(
                StoreError::InvariantViolation,
            )
            &&& !own && held.revision != authorization@.revision + 1 ==> step
                == Transition::<BoundOperation>::Failed(StoreError::InvariantViolation)
            &&& step is Stale ==> held.revision == authorization@.revision + 1
            &&& step matches Transition::Persist { snapshot, applied } ==> {
                &&& snapshot.revision == held.revision + 1
                &&& snapshot.channel_generation == held.channel_generation
                &&& snapshot.current_singleton_message_id == Some(
                    authorization@.candidate.message_id,
                )
                &&& snapshot.state matches JournalState::Bound { panel } && panel@
                    == authorization@.candidate
                &&& snapshot.last_operation.operation_id@ == authorization@.operation_id
                &&& snapshot.last_operation.owner_nonce@ == authorization@.owner_nonce
                &&& snapshot.last_operation.revision == snapshot.revision
                &&& applied.operation_id@ == authorization@.operation_id
                &&& applied.owner_nonce@ == authorization@.owner_nonce
                &&& applied.bind_digest@ == authorization@.digest
                &&& applied.revision == snapshot.revision
                &&& applied.panel@ == authorization@.candidate
            }
            &&& step matches Transition::Replayed(applied) ==> {
                &&& held.revision == authorization@.revision + 1
                &&& held.state matches JournalState::Bound { panel } && panel@
                    == authorization@.candidate
                &&& applied.panel@ == authorization@.candidate
                &&& applied.revision == held.revision
                &&& applied.operation_id@ == authorization@.operation_id
                &&& applied.owner_nonce@ == authorization@.owner_nonce
                &&& applied.bind_digest@ == authorization@.digest
            }
        }),
{
}

/// Authorizing a retirement takes the panel that the journal holds as bound by the same
/// commit, and authorizes the deletion of the very message that this panel replaced.
pub proof fn law_replaced_message_is_retired(
    journal: ChannelJournal,
    bound: BoundOperation,
    held: ChannelSnapshot,
    step: Transition<JournalOwnedRetire>,
)
    requires
        call_ensures(ChannelJournal::authorize_retire, (&journal, &bound, Ok(Some(held))), step),
    ensures
        ({
            let prior = bound.panel.candidate.plan.expected_prior_message_id;
            let replaced = prior is Some && prior != Some(0u64) && prior != Some(
                bound.panel.candidate.message_id,
            );
            let own = held.revision == bound.revision && held.replay@ == (model::ReplayView::Bound {
                bind_digest: bound.bind_digest@,
            }) && held.state@ == (model::StateView::Bound { panel: bound.panel@ });
            &&& step is Persist <==> replaced && own && bound.revision < u64::MAX
            &&& !replaced ==> step == Transition::<JournalOwnedRetire>::Failed(
                StoreError::InvariantViolation,
            )
            &&& replaced && bound.revision < u64::MAX && !own && held.revision != bound.revision + 1
                ==> step is Stale
            &&& step matches Transition::Persist { snapshot, applied } ==> {
                &&& snapshot.revision == held.revision + 1
                &&& snapshot.channel_generation == held.channel_generation
                &&& snapshot.current_singleton_message_id == held.current_singleton_message_id
                &&& snapshot.state matches JournalState::RetireAuthorized { panel, authorization }
                    && panel@ == bound.panel@ && authorization@ == applied@
                &&& snapshot.last_operation.operation_id@ == bound.operation_id@
                &&& snapshot.last_operation.revision == snapshot.revision
                &&& Some(applied@.delete_message_id) == prior
                &&& applied@.panel == bound.panel@
                &&& applied@.revision == snapshot.revision
                &&& applied@.operation_id == bound.operation_id@
                &&& applied@.owner_nonce == bound.owner_nonce@
            }
            &&& step matches Transition::Replayed(applied) ==> {
                &&& held.revision == bound.revision + 1
                &&& held.state matches JournalState::RetireAuthorized { authorization, .. }
                    && authorization@ == applied@
                &&& Some(applied@.delete_message_id) == prior
                &&& applied@.panel == bound.panel@
            }
        }),
{
}

/// A message that Discord reports as deleted, or as unknown in either way, is gone, and the
/// retirement that the journal holds is recorded; one that could not be deleted keeps the
/// authorization, and nothing is stored.
pub proof fn law_observed_deletion_is_recorded(
    journal: ChannelJournal,
    authorization: JournalOwnedRetire,
    observation: DeleteObservation,
    held: ChannelSnapshot,
    step: Transition<DeleteDisposition>,
)
    requires
        call_ensures(
            ChannelJournal::record_delete_observation,
            (&journal, &authorization, observation, Ok(Some(held))),
            step,
        ),
        authorization@.panel.plan.prior == Some(authorization@.delete_message_id),
        authorization@.delete_message_id != 0,
        authorization@.delete_message_id != authorization@.panel.message_id,
        authorization@.digest == digest::digest_of(
            digest::retire_parts(
                authorization@.operation_id,
                authorization@.owner_nonce,
                authorization@.panel,
                authorization@.delete_message_id,
            ),
        ),
        authorization@.revision < u64::MAX,
    ensures
        ({
            let own = held.state@ == (model::StateView::RetireAuthorized {
                panel: authorization@.panel,
                authorization: authorization@,
            });
            match observation {
                DeleteObservation::Deleted
                | DeleteObservation::NotFound404
                | DeleteObservation::UnknownMessage10008 => {
                    &&& step is Persist <==> own && held.revision == authorization@.revision
                    &&& step is Stale ==> held.revision == authorization@.revision + 1
                    &&& step matches Transition::Persist { snapshot, applied } ==> {
                        &&& applied == DeleteDisposition::Retired
                        &&& snapshot.revision == held.revision + 1
                        &&& snapshot.channel_generation == held.channel_generation
                        &&& snapshot.current_singleton_message_id
                            == held.current_singleton_message_id
                        &&& snapshot.state matches JournalState::Retired {
                            panel,
                            retired_message_id,
                        } && panel@ == authorization@.panel && retired_message_id
                            == authorization@.delete_message_id
                        &&& snapshot.last_operation.operation_id@ == authorization@.operation_id
                        &&& snapshot.last_operation.revision == snapshot.revision
                        &&& snapshot.replay@ == (model::ReplayView::Retired {
                            retire_digest: authorization@.digest,
                            observation,
                        })
                    }
                    &&& step matches Transition::Replayed(applied) ==> applied
                        == DeleteDisposition::Retired && held.revision == authorization@.revision
                        + 1
                },
                DeleteObservation::Forbidden403 | DeleteObservation::Transient => {
                    &&& own ==> step == Transition::Replayed(DeleteDisposition::RetainAuthorization)
                    &&& !(held.state is RetireAuthorized) ==> step is Stale
                    &&& step !is Persist && step !is Failed
                },
            }
        }),
{
}

/// What could not be read is reported as it is by every operation that is in order; where
/// nothing is stored there is nothing to go on from.
pub proof fn law_unreadable_journal_is_reported(
    journal: ChannelJournal,
    operation: PreparedOperation,
    message_id: u64,
    bound: BoundOperation,
    error: StoreError,
    sent: Transition<JournalOwnedBind>,
    sent_missing: Transition<JournalOwnedBind>,
    retire: Transition<JournalOwnedRetire>,
    retire_missing: Transition<JournalOwnedRetire>,
)
    requires
        call_ensures(
            ChannelJournal::record_sent,
            (&journal, &operation, message_id, Err(error)),
            sent,
        ),
        call_ensures(
            ChannelJournal::record_sent,
            (&journal, &operation, message_id, Ok(None)),
            sent_missing,
        ),
        call_ensures(ChannelJournal::authorize_retire, (&journal, &bound, Err(error)), retire),
        call_ensures(
            ChannelJournal::authorize_retire,
            (&journal, &bound, Ok(None)),
            retire_missing,
        ),
    ensures
        operation.plan.identity@ == journal.identity@ && operation.plan.turn_id != 0
            && operation.plan.expected_prior_message_id != Some(0u64) && message_id != 0
            && operation.generation != 0 && operation.plan.expected_prior_message_id != Some(
            message_id,
        ) && operation.expected_revision <= u64::MAX - 2 ==> sent == Transition::<
            JournalOwnedBind,
        >::Failed(error),
        sent_missing == Transition::<JournalOwnedBind>::Failed(StoreError::InvariantViolation),
        bound.panel.candidate.plan.expected_prior_message_id matches Some(prior) && prior != 0
            && prior != bound.panel.candidate.message_id && bound.revision < u64::MAX ==> retire
            == Transition::<JournalOwnedRetire>::Failed(error),
        retire_missing == Transition::<JournalOwnedRetire>::Failed(StoreError::InvariantViolation),
{
}

/// The caller is told that a step was applied just where it asked for a write that
/// succeeded; a write that failed is a failure with the same error, and an answer that
/// needed no write does not depend on one.
pub proof fn law_only_a_stored_step_is_applied<T>(
    transition: Transition<T>,
    written: Result<(), StoreError>,
    r: Mutation<T>,
)
    requires
        call_ensures(Transition::<T>::settle, (transition, written), r),
    ensures
        r is Applied <==> transition is Persist && written is Ok,
        transition matches Transition::Persist { applied, .. } ==> (written is Ok ==> r
            == Mutation::Applied(applied)),
        transition is Persist ==> (written matches Err(error) ==> r == Mutation::<
            T,
        >::DurabilityFailure(error)),
        transition matches Transition::Failed(error) ==> r == Mutation::<T>::DurabilityFailure(
            error,
        ),
        transition is Stale <==> r is Stale,
        transition matches Transition::Replayed(value) ==> r == Mutation::Replayed(value),
        r is Replayed ==> transition is Replayed,
{
}

/// What a step persists is read back by whoever loads the channel next, from the record
/// that persisting writes and its copy in the operation's file, and is not quarantined; a
/// record whose copy differs, or is missing, is quarantined and stands for nothing.
pub proof fn law_persisted_step_is_read_back(
    journal: ChannelJournal,
    plan: PanelPlan,
    expected_revision: u64,
    stored: Result<Option<ChannelSnapshot>, StoreError>,
    step: Transition<PreparedOperation>,
    wire: ChannelWire,
    bytes: Vec<u8>,
    copy: Vec<u8>,
    loaded: LoadedChannel,
    loaded_alone: LoadedChannel,
)
    requires
        call_ensures(ChannelJournal::prepare, (&journal, plan, expected_revision, stored), step),
        step is Persist,
        call_ensures(ChannelJournal::persist_locked, (&journal, &step->snapshot), wire),
        call_ensures(
            ChannelJournal::load_optional_locked,
            (
                &journal,
                ChannelRecord::Parsed { bytes, wire, operation: Ok(Some(copy)) },
            ),
            loaded,
        ),
        call_ensures(
            ChannelJournal::load_optional_locked,
            (&journal, ChannelRecord::Parsed { bytes, wire, operation: Ok(None) }),
            loaded_alone,
        ),
    ensures
        copy@ == bytes@ ==> (loaded.stored matches Ok(Some(snapshot)) && snapshot@
            == step->snapshot@) && !loaded.quarantine,
        copy@ != bytes@ ==> loaded.stored is Err && loaded.quarantine,
        loaded_alone.stored is Err,
        loaded_alone.quarantine,
{
    crate::journal::codec::law_record_round_trip(journal.identity@, step->snapshot@);
}

/// A channel without a record is empty; a record that cannot be read stays where it is, one
/// that was read and is none goes to the quarantine.
pub proof fn law_only_read_records_are_quarantined(
    journal: ChannelJournal,
    error: StoreError,
    absent: LoadedChannel,
    unreadable: LoadedChannel,
    malformed: LoadedChannel,
)
    requires
        call_ensures(
            ChannelJournal::load_optional_locked,
            (&journal, ChannelRecord::Absent),
            absent,
        ),
        call_ensures(
            ChannelJournal::load_optional_locked,
            (&journal, ChannelRecord::Unreadable(error)),
            unreadable,
        ),
        call_ensures(
            ChannelJournal::load_optional_locked,
            (&journal, ChannelRecord::Malformed),
            malformed,
        ),
    ensures
        absent.stored == Ok::<Option<ChannelSnapshot>, StoreError>(None),
        !absent.quarantine,
        unreadable.stored == Err::<Option<ChannelSnapshot>, StoreError>(error),
        !unreadable.quarantine,
        malformed.stored == Err::<Option<ChannelSnapshot>, StoreError>(
            StoreError::MalformedRecord,
        ),
        malformed.quarantine,
{
}

/// After a restart, an authorization to bind that the journal holds, with the digest of what
/// it says, is found again; in every other state there is none.
pub proof fn law_held_bind_is_recovered(
    journal: ChannelJournal,
    held: ChannelSnapshot,
    r: ReadOutcome<JournalOwnedBind>,
)
    requires
        call_ensures(ChannelJournal::recover_bind_authorization, (&journal, Ok(Some(held))), r),
    ensures
        r !is DurabilityFailure,
        match held.state@ {
            model::StateView::BindAuthorized { candidate, authorization } => {
                let genuine = authorization.candidate == candidate && authorization.digest
                    == digest::digest_of(
                    digest::bind_parts(
                        authorization.operation_id,
                        authorization.owner_nonce,
                        candidate,
                    ),
                );
                &&& r is Present <==> genuine
                &&& r matches ReadOutcome::Present(found) ==> found@ == authorization
            },
            _ => r is Missing,
        },
{
}

} // verus!
