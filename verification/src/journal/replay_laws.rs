//! What a step leaves behind, and how the same step is recognised when it comes again.

use vstd::prelude::*;

use crate::journal::channel::{ChannelJournal, Transition};
use crate::journal::digest;
use crate::journal::model;
use crate::journal::model::{
    BoundOperation, Candidate, ChannelSnapshot, DeleteDisposition, DeleteObservation,
    JournalOwnedBind, JournalOwnedRetire, PanelPlan, PreparedOperation, StoreError,
};

verus! {

/// What preparing stores is stamped with the digest of the plan, and leaves nothing to replay
/// but the plan itself.
pub proof fn law_prepared_step_is_stamped(
    journal: ChannelJournal,
    plan: PanelPlan,
    expected_revision: u64,
    stored: Result<Option<ChannelSnapshot>, StoreError>,
    operation_id: String,
    owner_nonce: String,
    id: &str,
    nonce: &str,
    step: Transition<PreparedOperation>,
    own: String,
)
    requires
        call_ensures(
            ChannelJournal::prepare_with_ids,
            (&journal, plan, expected_revision, stored, operation_id, owner_nonce),
            step,
        ),
        step is Persist,
        id@ == operation_id@,
        nonce@ == owner_nonce@,
        call_ensures(
            digest::prepare_digest,
            (id, nonce, &plan, step->snapshot.channel_generation),
            own,
        ),
    ensures
        step->snapshot.last_operation.digest@ == own@,
        step->applied.digest@ == own@,
        step->snapshot.replay is Prepared,
{
    assert(step@ is Persist);
    assert(step->snapshot@.replay == step->snapshot.replay@);
    assert(step->snapshot@.last_operation == step->snapshot.last_operation@);
}

/// What recording a message stores is stamped with the digest of the bind. At the revision
/// behind the prepared one it is replayed where the very same bind is held, and stale where
/// any other step is.
pub proof fn law_sent_step_is_recognised(
    journal: ChannelJournal,
    operation: PreparedOperation,
    message_id: u64,
    held: ChannelSnapshot,
    step: Transition<JournalOwnedBind>,
    candidate: Candidate,
    id: &str,
    nonce: &str,
    own: String,
    again: Transition<JournalOwnedBind>,
)
    requires
        call_ensures(
            ChannelJournal::record_sent,
            (&journal, &operation, message_id, Ok(Some(held))),
            step,
        ),
        candidate.plan@ == operation.plan@,
        candidate.message_id == message_id,
        candidate.generation == operation.generation,
        id@ == operation.operation_id@,
        nonce@ == operation.owner_nonce@,
        call_ensures(digest::bind_digest, (id, nonce, &candidate), own),
        step is Persist ==> call_ensures(
            ChannelJournal::record_sent,
            (&journal, &operation, message_id, Ok(Some(step->snapshot))),
            again,
        ),
    ensures
        step is Persist ==> {
            &&& step->snapshot.last_operation.digest@ == own@
            &&& step->applied@.digest == own@
            &&& step->snapshot.replay is BindAuthorized
            &&& again is Replayed
            &&& again->Replayed_0@ == step->applied@
        },
        step !is Failed && held.revision == operation.expected_revision + 2 ==> {
            let same = held.last_operation@ == (model::StampView {
                operation_id: id@,
                owner_nonce: nonce@,
                digest: own@,
                revision: held.revision,
            }) && held.replay is BindAuthorized && (held.state@
                matches model::StateView::BindAuthorized { candidate: kept, authorization }
                && kept == candidate@ && authorization.candidate == candidate@
                && authorization.digest == own@ && authorization.operation_id == id@
                && authorization.owner_nonce == nonce@ && authorization.revision
                == held.revision);
            &&& step is Replayed <==> same
            &&& step is Stale <==> !same
        },
{
    assert(candidate@.plan == operation@.plan);
    assert(held@.replay == held.replay@);
    if step is Persist {
        assert(step@ is Persist);
        assert(step->snapshot@.replay == step->snapshot.replay@);
        assert(step->snapshot@.last_operation == step->snapshot.last_operation@);
        assert(again@ is Replayed);
    }
    assert(held@.state == held.state@);
    assert(held@.last_operation == held.last_operation@);
}

/// What a commit stores is stamped with the digest of the commit, and remembers the bind. At
/// the next revision it is replayed where that commit is held, and stale where any other step
/// is; what is not stored, or could not be read, is reported.
pub proof fn law_commit_is_recognised(
    journal: ChannelJournal,
    authorization: JournalOwnedBind,
    held: ChannelSnapshot,
    error: StoreError,
    step: Transition<BoundOperation>,
    missing: Transition<BoundOperation>,
    unreadable: Transition<BoundOperation>,
    admitted: bool,
    own: String,
    again: Transition<BoundOperation>,
)
    requires
        call_ensures(
            ChannelJournal::commit_bind,
            (&journal, &authorization, Ok(Some(held))),
            step,
        ),
        call_ensures(ChannelJournal::commit_bind, (&journal, &authorization, Ok(None)), missing),
        call_ensures(
            ChannelJournal::commit_bind,
            (&journal, &authorization, Err(error)),
            unreadable,
        ),
        call_ensures(ChannelJournal::admits_commit_bind, (&journal, &authorization), admitted),
        call_ensures(digest::commit_bind_digest, (&authorization,), own),
        step is Persist ==> call_ensures(
            ChannelJournal::commit_bind,
            (&journal, &authorization, Ok(Some(step->snapshot))),
            again,
        ),
    ensures
        missing == Transition::<BoundOperation>::Failed(StoreError::InvariantViolation),
        admitted ==> unreadable == Transition::<BoundOperation>::Failed(error),
        !admitted ==> unreadable == Transition::<BoundOperation>::Failed(
            StoreError::InvariantViolation,
        ),
        step is Persist ==> {
            &&& step->snapshot.last_operation.digest@ == own@
            &&& step->snapshot.replay@ == (model::ReplayView::Bound {
                bind_digest: authorization@.digest,
            })
            &&& again is Replayed
            &&& again->Replayed_0@ == step->applied@
        },
        admitted && held.revision == authorization@.revision + 1 ==> {
            let same = held.last_operation@ == (model::StampView {
                operation_id: authorization@.operation_id,
                owner_nonce: authorization@.owner_nonce,
                digest: own@,
                revision: held.revision,
            }) && held.replay@ == (model::ReplayView::Bound { bind_digest: authorization@.digest })
                && held.state@ == (model::StateView::Bound { panel: authorization@.candidate });
            &&& step is Replayed <==> same
            &&& step is Stale <==> !same
        },
{
    assert(held@.replay == held.replay@);
    assert(held@.state == held.state@);
    assert(held@.last_operation == held.last_operation@);
    if step is Persist {
        assert(step@ is Persist);
        assert(step->snapshot@.replay == step->snapshot.replay@);
        assert(step->snapshot@.last_operation == step->snapshot.last_operation@);
        assert(again@ is Replayed);
    }
}

/// What authorizing a retirement stores is stamped with its digest. At the next revision it is
/// replayed where that authorization is held, and stale where any other step is.
pub proof fn law_retirement_is_recognised(
    journal: ChannelJournal,
    bound: BoundOperation,
    held: ChannelSnapshot,
    step: Transition<JournalOwnedRetire>,
    id: &str,
    nonce: &str,
    own: String,
    again: Transition<JournalOwnedRetire>,
)
    requires
        call_ensures(ChannelJournal::authorize_retire, (&journal, &bound, Ok(Some(held))), step),
        bound.panel.candidate.plan.expected_prior_message_id is Some,
        id@ == bound.operation_id@,
        nonce@ == bound.owner_nonce@,
        call_ensures(
            digest::retire_digest,
            (
                id,
                nonce,
                &bound.panel,
                bound.panel.candidate.plan.expected_prior_message_id->0,
            ),
            own,
        ),
        step is Persist ==> call_ensures(
            ChannelJournal::authorize_retire,
            (&journal, &bound, Ok(Some(step->snapshot))),
            again,
        ),
    ensures
        step is Persist ==> {
            &&& step->snapshot.last_operation.digest@ == own@
            &&& step->applied@.digest == own@
            &&& step->snapshot.replay is RetireAuthorized
            &&& again is Replayed
            &&& again->Replayed_0@ == step->applied@
        },
        step !is Failed && held.revision == bound.revision + 1 ==> {
            let same = held.last_operation@ == (model::StampView {
                operation_id: id@,
                owner_nonce: nonce@,
                digest: own@,
                revision: held.revision,
            }) && held.replay is RetireAuthorized && (held.state@
                matches model::StateView::RetireAuthorized { panel, authorization } && panel
                == bound.panel@ && authorization.panel == panel && authorization.digest == own@
                && authorization.operation_id == id@ && authorization.owner_nonce == nonce@
                && authorization.revision == held.revision && Some(authorization.delete_message_id)
                == bound.panel.candidate.plan.expected_prior_message_id);
            &&& step is Replayed <==> same
            &&& step is Stale <==> !same
        },
{
    assert(bound@.panel == bound.panel@);
    assert(bound@.panel.plan.prior == bound.panel.candidate.plan.expected_prior_message_id);
    assert(held@.replay == held.replay@);
    assert(held@.state == held.state@);
    assert(held@.last_operation == held.last_operation@);
    if step is Persist {
        assert(step@ is Persist);
        assert(step->snapshot@.replay == step->snapshot.replay@);
        assert(step->snapshot@.last_operation == step->snapshot.last_operation@);
        assert(again@ is Replayed);
    }
}

/// What an observed deletion stores is stamped with the digest of what was observed. At the
/// next revision it is replayed where the same was observed, and stale where anything else
/// was; what is not stored, or could not be read, is reported.
pub proof fn law_deletion_is_recognised(
    journal: ChannelJournal,
    authorization: JournalOwnedRetire,
    observation: DeleteObservation,
    held: ChannelSnapshot,
    error: StoreError,
    step: Transition<DeleteDisposition>,
    missing: Transition<DeleteDisposition>,
    unreadable: Transition<DeleteDisposition>,
    admitted: bool,
    own: String,
    again: Transition<DeleteDisposition>,
)
    requires
        call_ensures(
            ChannelJournal::record_delete_observation,
            (&journal, &authorization, observation, Ok(Some(held))),
            step,
        ),
        call_ensures(
            ChannelJournal::record_delete_observation,
            (&journal, &authorization, observation, Ok(None)),
            missing,
        ),
        call_ensures(
            ChannelJournal::record_delete_observation,
            (&journal, &authorization, observation, Err(error)),
            unreadable,
        ),
        call_ensures(
            ChannelJournal::admits_delete_observation,
            (&journal, &authorization, observation),
            admitted,
        ),
        call_ensures(digest::delete_digest, (&authorization, observation), own),
        step is Persist ==> call_ensures(
            ChannelJournal::record_delete_observation,
            (&journal, &authorization, observation, Ok(Some(step->snapshot))),
            again,
        ),
    ensures
        !admitted ==> {
            &&& step == Transition::<DeleteDisposition>::Failed(StoreError::InvariantViolation)
            &&& missing == step
            &&& unreadable == step
        },
        admitted ==> unreadable == Transition::<DeleteDisposition>::Failed(error),
        admitted && (observation is Forbidden403 || observation is Transient) ==> missing is Stale,
        admitted && !(observation is Forbidden403 || observation is Transient) ==> missing
            == Transition::<DeleteDisposition>::Failed(StoreError::InvariantViolation),
        step is Persist ==> {
            &&& step->snapshot.last_operation.digest@ == own@
            &&& again == Transition::Replayed(DeleteDisposition::Retired)
        },
        admitted && !(observation is Forbidden403 || observation is Transient) && held.revision
            == authorization@.revision + 1 ==> {
            let same = held.last_operation@ == (model::StampView {
                operation_id: authorization@.operation_id,
                owner_nonce: authorization@.owner_nonce,
                digest: own@,
                revision: held.revision,
            }) && held.replay@ == (model::ReplayView::Retired {
                retire_digest: authorization@.digest,
                observation,
            });
            &&& step is Replayed <==> same
            &&& step is Stale <==> !same
        },
        admitted && (observation is Forbidden403 || observation is Transient) ==> {
            let kept = held.state@ matches model::StateView::RetireAuthorized {
                authorization: own_authorization,
                ..
            } && own_authorization == authorization@;
            &&& step is Replayed <==> kept
            &&& step is Stale <==> !kept
        },
{
    assert(held@.replay == held.replay@);
    assert(held@.state == held.state@);
    assert(held@.last_operation == held.last_operation@);
    if step is Persist {
        assert(step@ is Persist);
        assert(step->snapshot@.replay == step->snapshot.replay@);
        assert(step->snapshot@.last_operation == step->snapshot.last_operation@);
        assert(again@ is Replayed);
    }
}

} // verus!
