//! The operations on a channel's journal.

use vstd::prelude::*;

use crate::hashing;
use crate::journal::channel::{ChannelJournal, Transition};
use crate::journal::channel;
use crate::journal::digest::{
    bind_digest, commit_bind_digest, delete_digest, prepare_digest, retire_digest,
};
use crate::journal::digest;
use crate::journal::model::{
    BoundOperation, BoundPanel, Candidate, CanonicalProvider, CanonicalTokenHash, ChannelSnapshot,
    DeleteDisposition, DeleteObservation, JournalOwnedBind, JournalOwnedRetire, JournalState,
    OperationStamp, PanelIdentity, PanelPlan, PreparedOperation, ReadOutcome, ReplayMetadata,
    StoreError,
};
use crate::journal::model;
use crate::text;

verus! {

// ---------------------------------------------------------------------------
// Tests on what is stored
// ---------------------------------------------------------------------------
fn state_is_prepared(state: &JournalState, operation: &PreparedOperation) -> (r: bool)
    ensures
        r == (state@ == (model::StateView::Prepared {
            plan: operation@.plan,
            generation: operation@.generation,
        })),
{
    match state {
        JournalState::Prepared { plan, generation } => *generation == operation.generation
            && plan.same(&operation.plan),
        _ => false,
    }
}

fn state_is_bind(state: &JournalState, authorization: &JournalOwnedBind) -> (r: bool)
    ensures
        r == (state@ == (model::StateView::BindAuthorized {
            candidate: authorization@.candidate,
            authorization: authorization@,
        })),
{
    match state {
        JournalState::BindAuthorized { candidate, authorization: held } => candidate.same(
            authorization.candidate(),
        ) && held.same(authorization),
        _ => false,
    }
}

fn state_is_bound(state: &JournalState, panel: &BoundPanel) -> (r: bool)
    ensures
        r == (state@ == (model::StateView::Bound { panel: panel@ })),
{
    match state {
        JournalState::Bound { panel: held } => held.same(panel),
        _ => false,
    }
}

fn state_is_retire(state: &JournalState, authorization: &JournalOwnedRetire) -> (r: bool)
    ensures
        r == (state@ == (model::StateView::RetireAuthorized {
            panel: authorization@.panel,
            authorization: authorization@,
        })),
{
    match state {
        JournalState::RetireAuthorized { panel, authorization: held } => panel.same(
            authorization.panel(),
        ) && held.same(authorization),
        _ => false,
    }
}

fn state_holds_retire(state: &JournalState, authorization: &JournalOwnedRetire) -> (r: bool)
    ensures
        r == (state@ matches model::StateView::RetireAuthorized { authorization: held, .. } && held
            == authorization@),
{
    match state {
        JournalState::RetireAuthorized { authorization: held, .. } => held.same(authorization),
        _ => false,
    }
}

// ---------------------------------------------------------------------------
// Prepare
// ---------------------------------------------------------------------------
impl ChannelJournal {
    /// Whether `plan` may be prepared on this channel at all.
    pub fn admits_prepare(&self, plan: &PanelPlan) -> (r: bool)
        ensures
            r == channel::prepare_admitted(self.identity@, plan@),
    {
        plan.is_valid() && plan.identity.same(&self.identity)
    }

    /// Prepares a transition under a fresh identifier and nonce.
    pub fn prepare(
        &self,
        plan: PanelPlan,
        expected_revision: u64,
        stored: Result<Option<ChannelSnapshot>, StoreError>,
    ) -> (r: Transition<PreparedOperation>)
        ensures
            exists|operation_id: Seq<char>, owner_nonce: Seq<char>|
                {
                    &&& digest::is_id(operation_id) && operation_id[12] == '4'
                    &&& digest::is_id(owner_nonce) && owner_nonce[12] == '4'
                    &&& r@ == #[trigger] channel::prepare_step(
                        self.identity@,
                        plan@,
                        expected_revision,
                        channel::stored_view(stored),
                        operation_id,
                        owner_nonce,
                    )
                },
            channel::persists_valid(self.identity@, r@),
    {
        let operation_id = hashing::fresh_id();
        let owner_nonce = hashing::fresh_id();
        self.prepare_with_ids(plan, expected_revision, stored, operation_id, owner_nonce)
    }

    /// Prepares a transition under a given identifier and nonce.
    pub fn prepare_with_ids(
        &self,
        plan: PanelPlan,
        expected_revision: u64,
        stored: Result<Option<ChannelSnapshot>, StoreError>,
        operation_id: String,
        owner_nonce: String,
    ) -> (r: Transition<PreparedOperation>)
        ensures
            r@ == channel::prepare_step(
                self.identity@,
                plan@,
                expected_revision,
                channel::stored_view(stored),
                operation_id@,
                owner_nonce@,
            ),
            digest::is_id(operation_id@) && digest::is_id(owner_nonce@) ==> channel::persists_valid(
                self.identity@,
                r@,
            ),
    {
        if !self.admits_prepare(&plan) {
            return Transition::Failed(StoreError::InvariantViolation);
        }
        let current = match stored {
            Ok(current) => current,
            Err(error) => {
                return Transition::Failed(error);
            },
        };
        let (stored_revision, last_generation, singleton): (u64, u64, Option<u64>) = match current {
            Some(snapshot) => (
                snapshot.revision,
                snapshot.channel_generation,
                snapshot.current_singleton_message_id,
            ),
            None => (0, 0, None),
        };
        if stored_revision != expected_revision {
            return Transition::Stale;
        }
        let generation: u64 = match last_generation.checked_add(1) {
            Some(generation) => generation,
            None => {
                return Transition::Failed(StoreError::InvariantViolation);
            },
        };
        let revision: u64 = match expected_revision.checked_add(1) {
            Some(revision) => revision,
            None => {
                return Transition::Failed(StoreError::InvariantViolation);
            },
        };
        let digest = prepare_digest(
            operation_id.as_str(),
            owner_nonce.as_str(),
            &plan,
            generation,
        );
        let operation = PreparedOperation {
            operation_id,
            owner_nonce,
            digest,
            expected_revision,
            plan: plan.clone(),
            generation,
        };
        let stamp = operation.stamp(revision);
        let snapshot = ChannelSnapshot {
            revision,
            channel_generation: generation,
            current_singleton_message_id: singleton,
            state: JournalState::prepared(plan, generation),
            last_operation: stamp,
            replay: ReplayMetadata::Prepared,
        };
        Transition::Persist { snapshot, applied: operation }
    }
}

// ---------------------------------------------------------------------------
// Record a sent message
// ---------------------------------------------------------------------------
impl ChannelJournal {
    /// Whether `message_id` may be recorded for `operation` at all.
    pub fn admits_record_sent(&self, operation: &PreparedOperation, message_id: u64) -> (r: bool)
        ensures
            r == channel::sent_admitted(self.identity@, operation@, message_id),
    {
        let candidate = Candidate {
            plan: operation.plan.clone(),
            message_id,
            generation: operation.generation,
        };
        operation.plan.identity.same(&self.identity) && candidate.is_valid()
            && operation.expected_revision <= u64::MAX - 2
    }

    /// Records the message that was sent for a prepared operation.
    pub fn record_sent(
        &self,
        operation: &PreparedOperation,
        message_id: u64,
        stored: Result<Option<ChannelSnapshot>, StoreError>,
    ) -> (r: Transition<JournalOwnedBind>)
        ensures
            r@ == channel::record_sent_step(
                self.identity@,
                operation@,
                message_id,
                channel::stored_view(stored),
            ),
            channel::stored_valid(self.identity@, channel::stored_view(stored))
                ==> channel::persists_valid(self.identity@, r@),
    {
        if !self.admits_record_sent(operation, message_id) {
            return Transition::Failed(StoreError::InvariantViolation);
        }
        let candidate = Candidate {
            plan: operation.plan.clone(),
            message_id,
            generation: operation.generation,
        };
        let expected_revision: u64 = operation.expected_revision + 1;
        let revision: u64 = expected_revision + 1;
        let digest = bind_digest(
            operation.operation_id.as_str(),
            operation.owner_nonce.as_str(),
            &candidate,
        );
        let stamp = OperationStamp::new(
            operation.operation_id.as_str(),
            operation.owner_nonce.as_str(),
            digest.as_str(),
            revision,
        );
        let authorization = JournalOwnedBind::sealed(&stamp, candidate.clone());
        let mut snapshot = match self.require_locked(stored) {
            Ok(snapshot) => snapshot,
            Err(error) => {
                return Transition::Failed(error);
            },
        };
        if snapshot.revision == revision {
            return if snapshot.last_operation.same(&stamp) && snapshot.replay.same(
                &ReplayMetadata::BindAuthorized,
            ) && state_is_bind(&snapshot.state, &authorization) {
                Transition::Replayed(authorization)
            } else {
                Transition::Stale
            };
        }
        if snapshot.revision != expected_revision || !snapshot.last_operation.same(
            &operation.stamp(expected_revision),
        ) || !state_is_prepared(&snapshot.state, operation) {
            return Transition::Stale;
        }
        snapshot.revision = revision;
        snapshot.last_operation = stamp;
        snapshot.replay = ReplayMetadata::BindAuthorized;
        snapshot.state = JournalState::BindAuthorized {
            candidate,
            authorization: authorization.clone(),
        };
        Transition::Persist { snapshot, applied: authorization }
    }
}

// ---------------------------------------------------------------------------
// Commit a bind
// ---------------------------------------------------------------------------
impl ChannelJournal {
    /// Whether `authorization` may be committed at all.
    pub fn admits_commit_bind(&self, authorization: &JournalOwnedBind) -> (r: bool)
        ensures
            r == channel::commit_admitted(authorization@),
    {
        authorization.matches_candidate(authorization.candidate()) && authorization.revision()
            < u64::MAX
    }

    /// Makes the authorized candidate the channel's panel.
    pub fn commit_bind(
        &self,
        authorization: &JournalOwnedBind,
        stored: Result<Option<ChannelSnapshot>, StoreError>,
    ) -> (r: Transition<BoundOperation>)
        ensures
            r@ == channel::commit_bind_step(authorization@, channel::stored_view(stored)),
            channel::stored_valid(self.identity@, channel::stored_view(stored))
                ==> channel::persists_valid(self.identity@, r@),
    {
        if !self.admits_commit_bind(authorization) {
            return Transition::Failed(StoreError::InvariantViolation);
        }
        let revision: u64 = authorization.revision() + 1;
        let digest = commit_bind_digest(authorization);
        let stamp = OperationStamp::new(
            authorization.operation_id(),
            authorization.owner_nonce(),
            digest.as_str(),
            revision,
        );
        let panel = BoundPanel { candidate: authorization.candidate().clone() };
        let bound = BoundOperation {
            operation_id: authorization.operation_id().to_owned(),
            owner_nonce: authorization.owner_nonce().to_owned(),
            bind_digest: authorization.digest().to_owned(),
            revision,
            panel: panel.clone(),
        };
        let replay = ReplayMetadata::Bound { bind_digest: authorization.digest().to_owned() };
        let mut snapshot = match self.require_locked(stored) {
            Ok(snapshot) => snapshot,
            Err(error) => {
                return Transition::Failed(error);
            },
        };
        if snapshot.revision == revision {
            return if snapshot.last_operation.same(&stamp) && snapshot.replay.same(&replay)
                && state_is_bound(&snapshot.state, &panel) {
                Transition::Replayed(bound)
            } else {
                Transition::Stale
            };
        }
        if snapshot.revision != authorization.revision() || !state_is_bind(
            &snapshot.state,
            authorization,
        ) {
            return Transition::Failed(StoreError::InvariantViolation);
        }
        snapshot.revision = revision;
        snapshot.current_singleton_message_id = Some(panel.candidate.message_id);
        snapshot.last_operation = stamp;
        snapshot.replay = replay;
        snapshot.state = JournalState::Bound { panel };
        Transition::Persist { snapshot, applied: bound }
    }
}

// ---------------------------------------------------------------------------
// Authorize a retirement
// ---------------------------------------------------------------------------
impl ChannelJournal {
    /// Whether the message that `bound` replaced may be retired at all.
    pub fn admits_authorize_retire(&self, bound: &BoundOperation) -> (r: bool)
        ensures
            r == channel::retire_admitted(bound@),
    {
        match bound.panel.candidate.plan.expected_prior_message_id {
            Some(prior) => prior != 0 && prior != bound.panel.candidate.message_id && bound.revision
                < u64::MAX,
            None => false,
        }
    }

    /// Authorizes the deletion of the message that the bound panel replaced.
    pub fn authorize_retire(
        &self,
        bound: &BoundOperation,
        stored: Result<Option<ChannelSnapshot>, StoreError>,
    ) -> (r: Transition<JournalOwnedRetire>)
        ensures
            r@ == channel::authorize_retire_step(bound@, channel::stored_view(stored)),
            channel::stored_valid(self.identity@, channel::stored_view(stored)) && digest::is_id(
                bound@.operation_id,
            ) && digest::is_id(bound@.owner_nonce) ==> channel::persists_valid(self.identity@, r@),
    {
        let delete_message_id: u64 = match bound.panel.candidate.plan.expected_prior_message_id {
            Some(prior) => prior,
            None => {
                return Transition::Failed(StoreError::InvariantViolation);
            },
        };
        let revision: u64 = match bound.revision.checked_add(1) {
            Some(revision) => revision,
            None => {
                return Transition::Failed(StoreError::InvariantViolation);
            },
        };
        let digest = retire_digest(
            bound.operation_id.as_str(),
            bound.owner_nonce.as_str(),
            &bound.panel,
            delete_message_id,
        );
        let stamp = OperationStamp::new(
            bound.operation_id.as_str(),
            bound.owner_nonce.as_str(),
            digest.as_str(),
            revision,
        );
        let authorization = JournalOwnedRetire::sealed(
            &stamp,
            bound.panel.clone(),
            delete_message_id,
        );
        if !authorization.matches_panel(&bound.panel) {
            return Transition::Failed(StoreError::InvariantViolation);
        }
        let mut snapshot = match self.require_locked(stored) {
            Ok(snapshot) => snapshot,
            Err(error) => {
                return Transition::Failed(error);
            },
        };
        if snapshot.revision == revision {
            return if snapshot.last_operation.same(&stamp) && snapshot.replay.same(
                &ReplayMetadata::RetireAuthorized,
            ) && state_is_retire(&snapshot.state, &authorization) {
                Transition::Replayed(authorization)
            } else {
                Transition::Stale
            };
        }
        let replay = ReplayMetadata::Bound { bind_digest: bound.bind_digest.clone() };
        if snapshot.revision != bound.revision || !snapshot.replay.same(&replay) || !state_is_bound(
            &snapshot.state,
            &bound.panel,
        ) {
            return Transition::Stale;
        }
        snapshot.revision = revision;
        snapshot.last_operation = stamp;
        snapshot.replay = ReplayMetadata::RetireAuthorized;
        snapshot.state = JournalState::RetireAuthorized {
            panel: bound.panel.clone(),
            authorization: authorization.clone(),
        };
        Transition::Persist { snapshot, applied: authorization }
    }
}

// ---------------------------------------------------------------------------
// Record an observed deletion
// ---------------------------------------------------------------------------
impl ChannelJournal {
    /// Whether `observation` may be recorded under `authorization` at all.
    pub fn admits_delete_observation(
        &self,
        authorization: &JournalOwnedRetire,
        observation: DeleteObservation,
    ) -> (r: bool)
        ensures
            r == channel::delete_admitted(authorization@, observation),
    {
        if !authorization.matches_panel(authorization.panel()) {
            return false;
        }
        match observation {
            DeleteObservation::Forbidden403 => true,
            DeleteObservation::Transient => true,
            _ => authorization.revision() < u64::MAX,
        }
    }

    /// Records what Discord answered to the authorized deletion.
    pub fn record_delete_observation(
        &self,
        authorization: &JournalOwnedRetire,
        observation: DeleteObservation,
        stored: Result<Option<ChannelSnapshot>, StoreError>,
    ) -> (r: Transition<DeleteDisposition>)
        ensures
            r@ == channel::record_delete_step(
                authorization@,
                observation,
                channel::stored_view(stored),
            ),
            channel::stored_valid(self.identity@, channel::stored_view(stored))
                ==> channel::persists_valid(self.identity@, r@),
    {
        if !self.admits_delete_observation(authorization, observation) {
            return Transition::Failed(StoreError::InvariantViolation);
        }
        let retained = match observation {
            DeleteObservation::Forbidden403 => true,
            DeleteObservation::Transient => true,
            _ => false,
        };
        if retained {
            return match self.load(stored) {
                ReadOutcome::Present(snapshot) => if state_holds_retire(
                    &snapshot.state,
                    authorization,
                ) {
                    Transition::Replayed(DeleteDisposition::RetainAuthorization)
                } else {
                    Transition::Stale
                },
                ReadOutcome::Missing => Transition::Stale,
                ReadOutcome::DurabilityFailure(error) => Transition::Failed(error),
            };
        }
        let revision: u64 = authorization.revision() + 1;
        let digest = delete_digest(authorization, observation);
        let stamp = OperationStamp::new(
            authorization.operation_id(),
            authorization.owner_nonce(),
            digest.as_str(),
            revision,
        );
        let replay = ReplayMetadata::Retired {
            retire_digest: authorization.digest().to_owned(),
            observation,
        };
        let mut snapshot = match self.require_locked(stored) {
            Ok(snapshot) => snapshot,
            Err(error) => {
                return Transition::Failed(error);
            },
        };
        if snapshot.revision == revision {
            return if snapshot.last_operation.same(&stamp) && snapshot.replay.same(&replay) {
                Transition::Replayed(DeleteDisposition::Retired)
            } else {
                Transition::Stale
            };
        }
        if snapshot.revision != authorization.revision() || !state_is_retire(
            &snapshot.state,
            authorization,
        ) {
            return Transition::Failed(StoreError::InvariantViolation);
        }
        snapshot.revision = revision;
        snapshot.last_operation = stamp;
        snapshot.replay = replay;
        snapshot.state = JournalState::Retired {
            panel: authorization.panel().clone(),
            retired_message_id: authorization.delete_message_id(),
        };
        Transition::Persist { snapshot, applied: DeleteDisposition::Retired }
    }
}

// ---------------------------------------------------------------------------
// Recovery
// ---------------------------------------------------------------------------
/// The authorization that a restarted process may still commit.
pub open spec fn recoverable_bind(
    stored: Result<Option<model::SnapshotView>, StoreError>,
) -> Option<model::BindView> {
    match stored {
        Ok(Some(snapshot)) => match snapshot.state {
            model::StateView::BindAuthorized { candidate, authorization } => if authorization.matches(
                candidate,
            ) {
                Some(authorization)
            } else {
                None
            },
            _ => None,
        },
        _ => None,
    }
}

impl ChannelJournal {
    /// The authorization to bind that a restarted process finds in the journal.
    pub fn recover_bind_authorization(
        &self,
        stored: Result<Option<ChannelSnapshot>, StoreError>,
    ) -> (r: ReadOutcome<JournalOwnedBind>)
        ensures
            match r {
                ReadOutcome::Present(authorization) => recoverable_bind(
                    channel::stored_view(stored),
                ) == Some(authorization@),
                ReadOutcome::Missing => stored is Ok && recoverable_bind(
                    channel::stored_view(stored),
                ) is None,
                ReadOutcome::DurabilityFailure(error) => stored == Err::<
                    Option<ChannelSnapshot>,
                    StoreError,
                >(error),
            },
    {
        match self.load(stored) {
            ReadOutcome::Present(snapshot) => match snapshot.state {
                JournalState::BindAuthorized { candidate, authorization } => {
                    if authorization.matches_candidate(&candidate) {
                        ReadOutcome::Present(authorization)
                    } else {
                        ReadOutcome::Missing
                    }
                },
                _ => ReadOutcome::Missing,
            },
            ReadOutcome::Missing => ReadOutcome::Missing,
            ReadOutcome::DurabilityFailure(error) => ReadOutcome::DurabilityFailure(error),
        }
    }
}

// ---------------------------------------------------------------------------
// Fixtures
// ---------------------------------------------------------------------------
/// An identity with canonical names.
pub fn identity_for_test(
    provider: &str,
    hash: &str,
    channel_id: u64,
    fifth: &str,
) -> (out: PanelIdentity)
    requires
        model::is_provider(provider@, fifth@),
        model::is_token_hash(hash@),
    ensures
        out@ == (model::IdentityView { provider: provider@, token_hash: hash@, channel_id }),
{
    PanelIdentity {
        provider: CanonicalProvider::parse(provider, fifth).unwrap(),
        canonical_token_hash: CanonicalTokenHash::parse(hash).unwrap(),
        channel_id,
    }
}

/// The identifier of the fixtures.
pub open spec fn fixture_id() -> Seq<char> {
    "00000000000000000000000000000001"@
}

/// The nonce of the fixtures.
pub open spec fn fixture_nonce() -> Seq<char> {
    "00000000000000000000000000000002"@
}

/// A genuine authorization to bind `candidate`, at revision 2.
pub fn bind_authorization_for_test(candidate: Candidate) -> (out: JournalOwnedBind)
    ensures
        out@ == (model::BindView {
            operation_id: fixture_id(),
            owner_nonce: fixture_nonce(),
            digest: digest::digest_of(
                digest::bind_parts(fixture_id(), fixture_nonce(), candidate@),
            ),
            revision: 2,
            candidate: candidate@,
        }),
        out@.matches(candidate@),
{
    let digest = bind_digest(
        "00000000000000000000000000000001",
        "00000000000000000000000000000002",
        &candidate,
    );
    let stamp = OperationStamp::new(
        "00000000000000000000000000000001",
        "00000000000000000000000000000002",
        digest.as_str(),
        2,
    );
    JournalOwnedBind::sealed(&stamp, candidate)
}

/// `authorization` with another candidate in it.
pub fn mutate_bind_authorization_for_test(
    authorization: JournalOwnedBind,
    candidate: Candidate,
) -> (out: JournalOwnedBind)
    ensures
        out@ == (model::BindView { candidate: candidate@, ..authorization@ }),
{
    let stamp = OperationStamp::new(
        authorization.operation_id(),
        authorization.owner_nonce(),
        authorization.digest(),
        authorization.revision(),
    );
    JournalOwnedBind::sealed(&stamp, candidate)
}

/// An authorization to delete a message for `panel`, at revision 4.
pub fn retire_authorization_for_test(panel: BoundPanel, delete_message_id: u64) -> (out:
    JournalOwnedRetire)
    ensures
        out@ == (model::RetireView {
            operation_id: fixture_id(),
            owner_nonce: fixture_nonce(),
            digest: digest::digest_of(
                digest::retire_parts(fixture_id(), fixture_nonce(), panel@, delete_message_id),
            ),
            revision: 4,
            panel: panel@,
            delete_message_id,
        }),
{
    let digest = retire_digest(
        "00000000000000000000000000000001",
        "00000000000000000000000000000002",
        &panel,
        delete_message_id,
    );
    let stamp = OperationStamp::new(
        "00000000000000000000000000000001",
        "00000000000000000000000000000002",
        digest.as_str(),
        4,
    );
    JournalOwnedRetire::sealed(&stamp, panel, delete_message_id)
}

} // verus!
