//! The journal of one channel: what each operation stores and answers.
//!
//! Every operation first says whether it is admissible at all. If it is, the caller
//! takes the channel lock, reads the stored record, and hands what it read to the
//! operation, which answers with a [`Transition`]: an answer that needs no write, or
//! a snapshot to persist with the answer that is owed once it is stored.

use vstd::prelude::*;

use crate::bytes;
use crate::journal::codec::ChannelWire;
use crate::journal::codec;
use crate::journal::digest;
use crate::journal::model::{
    CanonicalProvider, CanonicalTokenHash, ChannelSnapshot, DeleteDisposition, DeleteObservation,
    Mutation, OperationStamp, PanelIdentity, ReadOutcome, StoreError, WriteStage,
};
use crate::journal::model;
use crate::journal::storage::{prune_directory, Failpoint, WriteTarget};
use crate::journal::storage;
use crate::text;

verus! {

/// How many operation records a channel keeps.
pub const MAX_OPERATION_RECORDS: usize = 64;

/// How many quarantined records a channel keeps.
pub const MAX_QUARANTINE_RECORDS: usize = 16;

// ---------------------------------------------------------------------------
// Transitions
// ---------------------------------------------------------------------------
/// What an operation answers on what is stored.
#[derive(Debug, PartialEq, Eq)]
pub enum Transition<T> {
    Failed(StoreError),
    Stale,
    Replayed(T),
    /// Store `snapshot`; once it is stored, the operation has been applied.
    Persist { snapshot: ChannelSnapshot, applied: T },
}

pub enum StepView<V> {
    Failed(StoreError),
    Stale,
    Replayed(V),
    Persist { snapshot: model::SnapshotView, applied: V },
}

impl<T: View> View for Transition<T> {
    type V = StepView<T::V>;

    open spec fn view(&self) -> StepView<T::V> {
        match self {
            Transition::Failed(error) => StepView::Failed(*error),
            Transition::Stale => StepView::Stale,
            Transition::Replayed(value) => StepView::Replayed(value@),
            Transition::Persist { snapshot, applied } => StepView::Persist {
                snapshot: snapshot@,
                applied: applied@,
            },
        }
    }
}

impl View for DeleteDisposition {
    type V = DeleteDisposition;

    open spec fn view(&self) -> DeleteDisposition {
        *self
    }
}

/// What a caller is told of a step, where `written` is what came of storing the
/// snapshot that it asked to store.
pub open spec fn told<T>(transition: Transition<T>, written: Result<(), StoreError>) -> Mutation<T> {
    match transition {
        Transition::Failed(error) => Mutation::DurabilityFailure(error),
        Transition::Stale => Mutation::Stale,
        Transition::Replayed(value) => Mutation::Replayed(value),
        Transition::Persist { snapshot: _, applied } => match written {
            Ok(_) => Mutation::Applied(applied),
            Err(error) => Mutation::DurabilityFailure(error),
        },
    }
}

impl<T> Transition<T> {
    /// What the caller is told of the step. `written` is what came of storing the
    /// snapshot, where the step asked to store one.
    pub fn settle(self, written: Result<(), StoreError>) -> (r: Mutation<T>)
        ensures
            r == told(self, written),
    {
        match self {
            Transition::Failed(error) => Mutation::DurabilityFailure(error),
            Transition::Stale => Mutation::Stale,
            Transition::Replayed(value) => Mutation::Replayed(value),
            Transition::Persist { snapshot: _, applied } => match written {
                Ok(_) => Mutation::Applied(applied),
                Err(error) => Mutation::DurabilityFailure(error),
            },
        }
    }
}

/// What is stored for a channel, or why it could not be read.
pub open spec fn stored_view(stored: Result<Option<ChannelSnapshot>, StoreError>) -> Result<
    Option<model::SnapshotView>,
    StoreError,
> {
    match stored {
        Ok(Some(snapshot)) => Ok(Some(snapshot@)),
        Ok(None) => Ok(None),
        Err(error) => Err(error),
    }
}

/// What was read is nothing, a failure, or a valid snapshot.
pub open spec fn stored_valid(
    identity: model::IdentityView,
    stored: Result<Option<model::SnapshotView>, StoreError>,
) -> bool {
    stored matches Ok(Some(snapshot)) ==> codec::snapshot_valid(identity, snapshot)
}

/// A snapshot that an operation persists is valid.
pub open spec fn persists_valid<V>(identity: model::IdentityView, step: StepView<V>) -> bool {
    step matches StepView::Persist { snapshot, .. } ==> codec::snapshot_valid(identity, snapshot)
}

// ---------------------------------------------------------------------------
// What each operation does
// ---------------------------------------------------------------------------
/// A plan may be prepared on the channel `identity`.
pub open spec fn prepare_admitted(identity: model::IdentityView, plan: model::PlanView) -> bool {
    plan.valid() && plan.identity == identity
}

/// Preparing stores the plan under the next generation, if the journal stands at
/// the expected revision.
pub open spec fn prepare_step(
    identity: model::IdentityView,
    plan: model::PlanView,
    expected_revision: u64,
    stored: Result<Option<model::SnapshotView>, StoreError>,
    operation_id: Seq<char>,
    owner_nonce: Seq<char>,
) -> StepView<model::PreparedView> {
    if !prepare_admitted(identity, plan) {
        StepView::Failed(StoreError::InvariantViolation)
    } else {
        match stored {
            Err(error) => StepView::Failed(error),
            Ok(current) => {
                let revision = match current {
                    Some(snapshot) => snapshot.revision,
                    None => 0,
                };
                let last_generation = match current {
                    Some(snapshot) => snapshot.channel_generation,
                    None => 0,
                };
                if revision != expected_revision {
                    StepView::Stale
                } else if last_generation == u64::MAX || expected_revision == u64::MAX {
                    StepView::Failed(StoreError::InvariantViolation)
                } else {
                    let generation = (last_generation + 1) as u64;
                    let operation = model::PreparedView {
                        operation_id,
                        owner_nonce,
                        digest: digest::digest_of(
                            digest::prepare_parts(operation_id, owner_nonce, plan, generation),
                        ),
                        expected_revision,
                        plan,
                        generation,
                    };
                    StepView::Persist {
                        snapshot: model::SnapshotView {
                            revision: (expected_revision + 1) as u64,
                            channel_generation: generation,
                            singleton: match current {
                                Some(snapshot) => snapshot.singleton,
                                None => None,
                            },
                            state: model::StateView::Prepared { plan, generation },
                            last_operation: operation.stamp((expected_revision + 1) as u64),
                            replay: model::ReplayView::Prepared,
                        },
                        applied: operation,
                    }
                }
            },
        }
    }
}

/// The candidate that a sent message makes of a prepared operation.
pub open spec fn sent_candidate(operation: model::PreparedView, message_id: u64) -> model::CandidateView {
    model::CandidateView { plan: operation.plan, message_id, generation: operation.generation }
}

/// A sent message may be recorded for a prepared operation.
pub open spec fn sent_admitted(
    identity: model::IdentityView,
    operation: model::PreparedView,
    message_id: u64,
) -> bool {
    &&& operation.plan.identity == identity
    &&& sent_candidate(operation, message_id).valid()
    &&& operation.expected_revision <= u64::MAX - 2
}

/// The authorization that recording a sent message gives.
pub open spec fn sent_authorization(
    operation: model::PreparedView,
    message_id: u64,
) -> model::BindView {
    let candidate = sent_candidate(operation, message_id);
    model::BindView {
        operation_id: operation.operation_id,
        owner_nonce: operation.owner_nonce,
        digest: digest::digest_of(
            digest::bind_parts(operation.operation_id, operation.owner_nonce, candidate),
        ),
        revision: (operation.expected_revision + 2) as u64,
        candidate,
    }
}

/// The stamp of an authorization to bind.
pub open spec fn bind_stamp(authorization: model::BindView) -> model::StampView {
    model::StampView {
        operation_id: authorization.operation_id,
        owner_nonce: authorization.owner_nonce,
        digest: authorization.digest,
        revision: authorization.revision,
    }
}

/// Recording a sent message turns the prepared operation, and no other, into an
/// authorization to bind the message.
pub open spec fn record_sent_step(
    identity: model::IdentityView,
    operation: model::PreparedView,
    message_id: u64,
    stored: Result<Option<model::SnapshotView>, StoreError>,
) -> StepView<model::BindView> {
    let candidate = sent_candidate(operation, message_id);
    let authorization = sent_authorization(operation, message_id);
    let state = model::StateView::BindAuthorized { candidate, authorization };
    if !sent_admitted(identity, operation, message_id) {
        StepView::Failed(StoreError::InvariantViolation)
    } else {
        match stored {
            Err(error) => StepView::Failed(error),
            Ok(None) => StepView::Failed(StoreError::InvariantViolation),
            Ok(Some(snapshot)) => {
                if snapshot.revision == authorization.revision {
                    if snapshot.last_operation == bind_stamp(authorization)
                        && snapshot.replay is BindAuthorized && snapshot.state == state {
                        StepView::Replayed(authorization)
                    } else {
                        StepView::Stale
                    }
                } else if snapshot.revision == operation.expected_revision + 1
                    && snapshot.last_operation == operation.stamp(
                    (operation.expected_revision + 1) as u64,
                ) && snapshot.state == (model::StateView::Prepared {
                    plan: operation.plan,
                    generation: operation.generation,
                }) {
                    StepView::Persist {
                        snapshot: model::SnapshotView {
                            revision: authorization.revision,
                            state,
                            last_operation: bind_stamp(authorization),
                            replay: model::ReplayView::BindAuthorized,
                            ..snapshot
                        },
                        applied: authorization,
                    }
                } else {
                    StepView::Stale
                }
            },
        }
    }
}

/// An authorization to bind is genuine and its commit has a revision.
pub open spec fn commit_admitted(authorization: model::BindView) -> bool {
    authorization.matches(authorization.candidate) && authorization.revision < u64::MAX
}

/// The bound operation that committing an authorization gives.
pub open spec fn committed_operation(authorization: model::BindView) -> model::BoundView {
    model::BoundView {
        operation_id: authorization.operation_id,
        owner_nonce: authorization.owner_nonce,
        bind_digest: authorization.digest,
        revision: (authorization.revision + 1) as u64,
        panel: authorization.candidate,
    }
}

/// The stamp of a committed bind.
pub open spec fn commit_stamp(authorization: model::BindView) -> model::StampView {
    model::StampView {
        operation_id: authorization.operation_id,
        owner_nonce: authorization.owner_nonce,
        digest: digest::digest_of(
            digest::bound_parts(
                authorization.operation_id,
                authorization.owner_nonce,
                authorization.digest,
            ),
        ),
        revision: (authorization.revision + 1) as u64,
    }
}

/// Committing the stored authorization, and no other, makes its candidate the
/// channel's panel.
pub open spec fn commit_bind_step(
    authorization: model::BindView,
    stored: Result<Option<model::SnapshotView>, StoreError>,
) -> StepView<model::BoundView> {
    let bound = committed_operation(authorization);
    let replay = model::ReplayView::Bound { bind_digest: authorization.digest };
    let state = model::StateView::Bound { panel: authorization.candidate };
    if !commit_admitted(authorization) {
        StepView::Failed(StoreError::InvariantViolation)
    } else {
        match stored {
            Err(error) => StepView::Failed(error),
            Ok(None) => StepView::Failed(StoreError::InvariantViolation),
            Ok(Some(snapshot)) => {
                if snapshot.revision == bound.revision {
                    if snapshot.last_operation == commit_stamp(authorization) && snapshot.replay
                        == replay && snapshot.state == state {
                        StepView::Replayed(bound)
                    } else {
                        StepView::Stale
                    }
                } else if snapshot.revision == authorization.revision && snapshot.state == (
                model::StateView::BindAuthorized {
                    candidate: authorization.candidate,
                    authorization,
                }) {
                    StepView::Persist {
                        snapshot: model::SnapshotView {
                            revision: bound.revision,
                            singleton: Some(authorization.candidate.message_id),
                            state,
                            last_operation: commit_stamp(authorization),
                            replay,
                            ..snapshot
                        },
                        applied: bound,
                    }
                } else {
                    StepView::Failed(StoreError::InvariantViolation)
                }
            },
        }
    }
}

/// The authorization to delete the message that a bound panel replaced.
pub open spec fn retire_authorization(bound: model::BoundView) -> model::RetireView {
    let delete_message_id = codec::message_or_zero(bound.panel.plan.prior);
    model::RetireView {
        operation_id: bound.operation_id,
        owner_nonce: bound.owner_nonce,
        digest: digest::digest_of(
            digest::retire_parts(
                bound.operation_id,
                bound.owner_nonce,
                bound.panel,
                delete_message_id,
            ),
        ),
        revision: (bound.revision + 1) as u64,
        panel: bound.panel,
        delete_message_id,
    }
}

/// The stamp of an authorization to delete.
pub open spec fn retire_stamp(authorization: model::RetireView) -> model::StampView {
    model::StampView {
        operation_id: authorization.operation_id,
        owner_nonce: authorization.owner_nonce,
        digest: authorization.digest,
        revision: authorization.revision,
    }
}

/// A bound panel replaced a message that may be deleted.
pub open spec fn retire_admitted(bound: model::BoundView) -> bool {
    &&& bound.panel.plan.prior matches Some(prior)
    &&& prior != 0
    &&& prior != bound.panel.message_id
    &&& bound.revision < u64::MAX
}

/// Authorizing the retirement of what the stored bound panel, and no other,
/// replaced.
pub open spec fn authorize_retire_step(
    bound: model::BoundView,
    stored: Result<Option<model::SnapshotView>, StoreError>,
) -> StepView<model::RetireView> {
    let authorization = retire_authorization(bound);
    let state = model::StateView::RetireAuthorized { panel: bound.panel, authorization };
    if !retire_admitted(bound) {
        StepView::Failed(StoreError::InvariantViolation)
    } else {
        match stored {
            Err(error) => StepView::Failed(error),
            Ok(None) => StepView::Failed(StoreError::InvariantViolation),
            Ok(Some(snapshot)) => {
                if snapshot.revision == authorization.revision {
                    if snapshot.last_operation == retire_stamp(authorization)
                        && snapshot.replay is RetireAuthorized && snapshot.state == state {
                        StepView::Replayed(authorization)
                    } else {
                        StepView::Stale
                    }
                } else if snapshot.revision == bound.revision && snapshot.replay == (
                model::ReplayView::Bound { bind_digest: bound.bind_digest }) && snapshot.state == (
                model::StateView::Bound { panel: bound.panel }) {
                    StepView::Persist {
                        snapshot: model::SnapshotView {
                            revision: authorization.revision,
                            state,
                            last_operation: retire_stamp(authorization),
                            replay: model::ReplayView::RetireAuthorized,
                            ..snapshot
                        },
                        applied: authorization,
                    }
                } else {
                    StepView::Stale
                }
            },
        }
    }
}

/// An observation after which the message may still be there.
pub open spec fn keeps_message(observation: DeleteObservation) -> bool {
    observation is Forbidden403 || observation is Transient
}

/// An authorization to delete is genuine, and recording the observation has a
/// revision where it needs one.
pub open spec fn delete_admitted(
    authorization: model::RetireView,
    observation: DeleteObservation,
) -> bool {
    &&& authorization.matches(authorization.panel)
    &&& !keeps_message(observation) ==> authorization.revision < u64::MAX
}

/// The stamp of a retirement.
pub open spec fn delete_stamp(
    authorization: model::RetireView,
    observation: DeleteObservation,
) -> model::StampView {
    model::StampView {
        operation_id: authorization.operation_id,
        owner_nonce: authorization.owner_nonce,
        digest: digest::digest_of(
            digest::retired_parts(
                authorization.operation_id,
                authorization.owner_nonce,
                authorization.digest,
                observation,
            ),
        ),
        revision: (authorization.revision + 1) as u64,
    }
}

/// An observation that the message is gone consumes the stored authorization, and
/// no other; one that it may still be there keeps it.
pub open spec fn record_delete_step(
    authorization: model::RetireView,
    observation: DeleteObservation,
    stored: Result<Option<model::SnapshotView>, StoreError>,
) -> StepView<DeleteDisposition> {
    let stamp = delete_stamp(authorization, observation);
    let replay = model::ReplayView::Retired { retire_digest: authorization.digest, observation };
    if !delete_admitted(authorization, observation) {
        StepView::Failed(StoreError::InvariantViolation)
    } else if keeps_message(observation) {
        match stored {
            Err(error) => StepView::Failed(error),
            Ok(None) => StepView::Stale,
            Ok(Some(snapshot)) => match snapshot.state {
                model::StateView::RetireAuthorized { authorization: held, .. } => if held
                    == authorization {
                    StepView::Replayed(DeleteDisposition::RetainAuthorization)
                } else {
                    StepView::Stale
                },
                _ => StepView::Stale,
            },
        }
    } else {
        match stored {
            Err(error) => StepView::Failed(error),
            Ok(None) => StepView::Failed(StoreError::InvariantViolation),
            Ok(Some(snapshot)) => {
                if snapshot.revision == stamp.revision {
                    if snapshot.last_operation == stamp && snapshot.replay == replay {
                        StepView::Replayed(DeleteDisposition::Retired)
                    } else {
                        StepView::Stale
                    }
                } else if snapshot.revision == authorization.revision && snapshot.state == (
                model::StateView::RetireAuthorized { panel: authorization.panel, authorization }) {
                    StepView::Persist {
                        snapshot: model::SnapshotView {
                            revision: stamp.revision,
                            state: model::StateView::Retired {
                                panel: authorization.panel,
                                retired_message_id: authorization.delete_message_id,
                            },
                            last_operation: stamp,
                            replay,
                            ..snapshot
                        },
                        applied: DeleteDisposition::Retired,
                    }
                } else {
                    StepView::Failed(StoreError::InvariantViolation)
                }
            },
        }
    }
}

// ---------------------------------------------------------------------------
// Reading
// ---------------------------------------------------------------------------
/// What was found where the channel's record is stored. `operation` is what
/// reading the record's operation file gave.
#[derive(Debug, PartialEq, Eq)]
pub enum ChannelRecord {
    Unreadable(StoreError),
    Absent,
    /// The file does not hold a record.
    Malformed,
    Parsed {
        bytes: Vec<u8>,
        wire: ChannelWire,
        operation: Result<Option<Vec<u8>>, StoreError>,
    },
}

/// What a record stands for.
pub open spec fn record_meaning(identity: model::IdentityView, record: ChannelRecord) -> Result<
    Option<model::SnapshotView>,
    StoreError,
> {
    match record {
        ChannelRecord::Unreadable(error) => Err(error),
        ChannelRecord::Absent => Ok(None),
        ChannelRecord::Malformed => Err(StoreError::MalformedRecord),
        ChannelRecord::Parsed { bytes, wire, operation } => match operation {
            Err(error) => Err(error),
            Ok(None) => Err(StoreError::InvariantViolation),
            Ok(Some(copy)) => if copy@ != bytes@ {
                Err(StoreError::InvariantViolation)
            } else {
                match codec::decoded_snapshot(wire@, identity) {
                    Some(snapshot) => Ok(Some(snapshot)),
                    None => Err(StoreError::InvariantViolation),
                }
            },
        },
    }
}

/// A record is moved out of the way when it was read but stands for nothing.
pub open spec fn record_quarantined(identity: model::IdentityView, record: ChannelRecord) -> bool {
    match record {
        ChannelRecord::Unreadable(_) | ChannelRecord::Absent => false,
        ChannelRecord::Malformed => true,
        ChannelRecord::Parsed { bytes, wire, operation } => match operation {
            Err(_) => false,
            Ok(None) => true,
            Ok(Some(copy)) => copy@ != bytes@ || codec::decoded_snapshot(wire@, identity) is None,
        },
    }
}

/// What loading the channel gives.
pub struct LoadedChannel {
    pub stored: Result<Option<ChannelSnapshot>, StoreError>,
    /// The record is to be moved to the quarantine.
    pub quarantine: bool,
}

/// What is removed from a channel's directories.
pub struct RemovalPlan {
    pub operations: Vec<Vec<u8>>,
    pub quarantine: Vec<Vec<u8>>,
}

/// The journal of one channel.
pub struct ChannelJournal {
    pub identity: PanelIdentity,
    pub failpoint: Option<Failpoint>,
}

/// The directory of a channel, below the root of the journals.
pub open spec fn channel_path(identity: model::IdentityView) -> Seq<char> {
    identity.provider + "/"@ + identity.token_hash + "/"@ + text::decimal(
        identity.channel_id as nat,
    )
}

impl ChannelJournal {
    /// The journal of a channel, if the names are safe as path components. `fifth`
    /// is the provider that is supported beside the four fixed ones.
    pub fn open(
        provider: &str,
        canonical_token_hash: &str,
        channel_id: u64,
        fifth: &str,
    ) -> (r: Result<Self, StoreError>)
        ensures
            match r {
                Ok(journal) => {
                    &&& model::is_provider(provider@, fifth@)
                    &&& model::is_token_hash(canonical_token_hash@)
                    &&& channel_id != 0
                    &&& journal.identity@ == (model::IdentityView {
                        provider: provider@,
                        token_hash: canonical_token_hash@,
                        channel_id,
                    })
                    &&& journal.failpoint is None
                },
                Err(error) => error matches StoreError::InvalidPathComponent(what) && (
                if !model::is_provider(provider@, fifth@) {
                    what@ == "provider"@
                } else if !model::is_token_hash(canonical_token_hash@) {
                    what@ == "canonical_token_hash"@
                } else {
                    what@ == "channel_id"@ && channel_id == 0
                }),
            },
    {
        let provider = match CanonicalProvider::parse(provider, fifth) {
            Ok(provider) => provider,
            Err(error) => {
                return Err(error);
            },
        };
        let canonical_token_hash = match CanonicalTokenHash::parse(canonical_token_hash) {
            Ok(hash) => hash,
            Err(error) => {
                return Err(error);
            },
        };
        if channel_id == 0 {
            return Err(StoreError::InvalidPathComponent("channel_id"));
        }
        Ok(
            ChannelJournal {
                identity: PanelIdentity { provider, canonical_token_hash, channel_id },
                failpoint: None,
            },
        )
    }

    pub fn identity(&self) -> (r: &PanelIdentity)
        ensures
            r@ == self.identity@,
    {
        &self.identity
    }

    /// The directory of the channel, below the root of the journals.
    pub fn channel_dir(&self) -> (out: String)
        ensures
            out@ == channel_path(self.identity@),
    {
        let mut out: String = self.identity.provider().to_owned();
        out.append("/");
        out.append(self.identity.canonical_token_hash());
        out.append("/");
        out.append(text::u64_text(self.identity.channel_id()).as_str());
        out
    }

    /// The file of the operation `stamp`, below the root of the journals: its
    /// revision in twenty digits, so that the names stand in the order of the
    /// revisions, and its identifier.
    pub fn operation_path(&self, stamp: &OperationStamp) -> (out: String)
        ensures
            out@ == channel_path(self.identity@) + "/operations/"@ + text::zero_padded(
                stamp@.revision as nat,
                20,
            ) + "-"@ + stamp@.operation_id + ".json"@,
    {
        let mut out: String = self.channel_dir();
        out.append("/operations/");
        out.append(text::u64_padded(stamp.revision, 20).as_str());
        out.append("-");
        out.append(stamp.operation_id.as_str());
        out.append(".json");
        out
    }

    /// Makes every write of this journal to `target` fail at `stage`.
    pub fn with_failpoint(self, target: WriteTarget, stage: WriteStage) -> (out: Self)
        ensures
            out.identity@ == self.identity@,
            out.failpoint == Some(Failpoint { target, stage }),
    {
        ChannelJournal { identity: self.identity, failpoint: Some(Failpoint { target, stage }) }
    }

    pub fn failpoint(&self) -> (r: Option<Failpoint>)
        ensures
            r == self.failpoint,
    {
        self.failpoint
    }

    /// What the channel's record stands for, and whether it goes to the
    /// quarantine.
    pub fn load_optional_locked(&self, record: ChannelRecord) -> (out: LoadedChannel)
        ensures
            stored_view(out.stored) == record_meaning(self.identity@, record),
            out.quarantine == record_quarantined(self.identity@, record),
            stored_valid(self.identity@, stored_view(out.stored)),
    {
        match record {
            ChannelRecord::Unreadable(error) => LoadedChannel {
                stored: Err(error),
                quarantine: false,
            },
            ChannelRecord::Absent => LoadedChannel { stored: Ok(None), quarantine: false },
            ChannelRecord::Malformed => LoadedChannel {
                stored: Err(StoreError::MalformedRecord),
                quarantine: true,
            },
            ChannelRecord::Parsed { bytes, wire, operation } => match operation {
                Err(error) => LoadedChannel { stored: Err(error), quarantine: false },
                Ok(None) => LoadedChannel {
                    stored: Err(StoreError::InvariantViolation),
                    quarantine: true,
                },
                Ok(Some(copy)) => {
                    if !bytes::same_bytes(&copy, &bytes) {
                        return LoadedChannel {
                            stored: Err(StoreError::InvariantViolation),
                            quarantine: true,
                        };
                    }
                    match wire.into_snapshot(&self.identity) {
                        Ok(snapshot) => LoadedChannel {
                            stored: Ok(Some(snapshot)),
                            quarantine: false,
                        },
                        Err(error) => LoadedChannel { stored: Err(error), quarantine: true },
                    }
                },
            },
        }
    }

    /// The stored snapshot, which has to be there.
    pub fn require_locked(&self, stored: Result<Option<ChannelSnapshot>, StoreError>) -> (r: Result<
        ChannelSnapshot,
        StoreError,
    >)
        ensures
            r == match stored {
                Ok(Some(snapshot)) => Ok::<ChannelSnapshot, StoreError>(snapshot),
                Ok(None) => Err(StoreError::InvariantViolation),
                Err(error) => Err(error),
            },
    {
        match stored {
            Ok(Some(snapshot)) => Ok(snapshot),
            Ok(None) => Err(StoreError::InvariantViolation),
            Err(error) => Err(error),
        }
    }

    /// What a reader of the channel is told.
    pub fn load(&self, stored: Result<Option<ChannelSnapshot>, StoreError>) -> (r: ReadOutcome<
        ChannelSnapshot,
    >)
        ensures
            r == match stored {
                Ok(Some(snapshot)) => ReadOutcome::Present(snapshot),
                Ok(None) => ReadOutcome::Missing,
                Err(error) => ReadOutcome::DurabilityFailure(error),
            },
    {
        match stored {
            Ok(Some(snapshot)) => ReadOutcome::Present(snapshot),
            Ok(None) => ReadOutcome::Missing,
            Err(error) => ReadOutcome::DurabilityFailure(error),
        }
    }

    /// The record that persisting `snapshot` writes, first to the operation's own
    /// file and then to the channel's.
    pub fn persist_locked(&self, snapshot: &ChannelSnapshot) -> (out: ChannelWire)
        ensures
            out@ == codec::wire_snapshot(self.identity@, snapshot@),
    {
        ChannelWire::from_snapshot(&self.identity, snapshot)
    }

    /// The oldest files beyond what the channel keeps.
    pub fn gc_locked(&self, operations: Vec<Vec<u8>>, quarantine: Vec<Vec<u8>>) -> (out: RemovalPlan)
        ensures
            exists|order: Seq<Seq<u8>>| #[trigger]
                storage::prunes_to(
                    storage::names_view(operations@),
                    order,
                    MAX_OPERATION_RECORDS as nat,
                    storage::names_view(out.operations@),
                ),
            exists|order: Seq<Seq<u8>>| #[trigger]
                storage::prunes_to(
                    storage::names_view(quarantine@),
                    order,
                    MAX_QUARANTINE_RECORDS as nat,
                    storage::names_view(out.quarantine@),
                ),
    {
        let old_operations = prune_directory(operations, MAX_OPERATION_RECORDS);
        let old_quarantine = prune_directory(quarantine, MAX_QUARANTINE_RECORDS);
        let out = RemovalPlan { operations: old_operations, quarantine: old_quarantine };
        proof {
            let first = choose|order: Seq<Seq<u8>>| #[trigger]
                storage::prunes_to(
                    storage::names_view(operations@),
                    order,
                    64,
                    storage::names_view(old_operations@),
                );
            assert(storage::prunes_to(
                storage::names_view(operations@),
                first,
                MAX_OPERATION_RECORDS as nat,
                storage::names_view(out.operations@),
            ));
            let second = choose|order: Seq<Seq<u8>>| #[trigger]
                storage::prunes_to(
                    storage::names_view(quarantine@),
                    order,
                    16,
                    storage::names_view(old_quarantine@),
                );
            assert(storage::prunes_to(
                storage::names_view(quarantine@),
                second,
                MAX_QUARANTINE_RECORDS as nat,
                storage::names_view(out.quarantine@),
            ));
        }
        out
    }
}

} // verus!
