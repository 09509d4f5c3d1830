//! The record that a channel's snapshot is stored as.
//!
//! Authorizations are not stored: they are rebuilt from the operation stamp and
//! checked against its digest, so a record that was altered by hand does not decode.

use vstd::prelude::*;

use crate::journal::digest::{
    bind_digest, bound_digest, prepare_digest, retire_digest, retired_digest, valid_digest, valid_id,
};
use crate::journal::digest;
use crate::journal::model::{
    BoundPanel, Candidate, ChannelSnapshot, JournalOwnedBind, JournalOwnedRetire, JournalState,
    OperationStamp, PanelIdentity, PanelPlan, QuarantineReason, ReplayMetadata, StoreError,
};
use crate::journal::model;
use crate::text;

verus! {

/// The version of the record's layout.
pub const SCHEMA_VERSION: u32 = 2;

/// A state as it is stored.
#[allow(inconsistent_fields)]
#[derive(Debug, Clone, Copy, PartialEq, Eq)]
pub enum StateWire {
    Prepared { turn_id: u64, expected_prior_message_id: Option<u64>, generation: u64 },
    BindAuthorized {
        turn_id: u64,
        expected_prior_message_id: Option<u64>,
        message_id: u64,
        generation: u64,
    },
    Bound {
        turn_id: u64,
        expected_prior_message_id: Option<u64>,
        message_id: u64,
        generation: u64,
    },
    RetireAuthorized { turn_id: u64, expected_prior_message_id: u64, message_id: u64, generation: u64 },
    Retired { turn_id: u64, expected_prior_message_id: u64, message_id: u64, generation: u64 },
    Quarantined,
}

/// A snapshot as it is stored.
#[derive(Debug, PartialEq, Eq)]
pub struct ChannelWire {
    pub schema_version: u32,
    pub provider: String,
    pub canonical_token_hash: String,
    pub channel_id: u64,
    pub revision: u64,
    pub channel_generation: u64,
    pub current_singleton_message_id: Option<u64>,
    pub last_operation: OperationStamp,
    pub replay: ReplayMetadata,
    pub state: StateWire,
}

pub struct WireView {
    pub schema_version: u32,
    pub identity: model::IdentityView,
    pub revision: u64,
    pub channel_generation: u64,
    pub singleton: Option<u64>,
    pub last_operation: model::StampView,
    pub replay: model::ReplayView,
    pub state: StateWire,
}

impl View for ChannelWire {
    type V = WireView;

    open spec fn view(&self) -> WireView {
        WireView {
            schema_version: self.schema_version,
            identity: model::IdentityView {
                provider: self.provider@,
                token_hash: self.canonical_token_hash@,
                channel_id: self.channel_id,
            },
            revision: self.revision,
            channel_generation: self.channel_generation,
            singleton: self.current_singleton_message_id,
            last_operation: self.last_operation@,
            replay: self.replay@,
            state: self.state,
        }
    }
}

// ---------------------------------------------------------------------------
// Encoding
// ---------------------------------------------------------------------------
/// The number of an optional message, or zero.
pub open spec fn message_or_zero(id: Option<u64>) -> u64 {
    match id {
        Some(id) => id,
        None => 0,
    }
}

/// What a state is stored as.
pub open spec fn wire_state(state: model::StateView) -> StateWire {
    match state {
        model::StateView::Prepared { plan, generation } => StateWire::Prepared {
            turn_id: plan.turn_id,
            expected_prior_message_id: plan.prior,
            generation,
        },
        model::StateView::BindAuthorized { candidate, .. } => StateWire::BindAuthorized {
            turn_id: candidate.plan.turn_id,
            expected_prior_message_id: candidate.plan.prior,
            message_id: candidate.message_id,
            generation: candidate.generation,
        },
        model::StateView::Bound { panel } => StateWire::Bound {
            turn_id: panel.plan.turn_id,
            expected_prior_message_id: panel.plan.prior,
            message_id: panel.message_id,
            generation: panel.generation,
        },
        model::StateView::RetireAuthorized { panel, .. } => StateWire::RetireAuthorized {
            turn_id: panel.plan.turn_id,
            expected_prior_message_id: message_or_zero(panel.plan.prior),
            message_id: panel.message_id,
            generation: panel.generation,
        },
        model::StateView::Retired { panel, .. } => StateWire::Retired {
            turn_id: panel.plan.turn_id,
            expected_prior_message_id: message_or_zero(panel.plan.prior),
            message_id: panel.message_id,
            generation: panel.generation,
        },
        model::StateView::Failed => StateWire::Quarantined,
        model::StateView::Quarantined { .. } => StateWire::Quarantined,
    }
}

/// What a snapshot of the channel `identity` is stored as.
pub open spec fn wire_snapshot(
    identity: model::IdentityView,
    snapshot: model::SnapshotView,
) -> WireView {
    WireView {
        schema_version: SCHEMA_VERSION,
        identity,
        revision: snapshot.revision,
        channel_generation: snapshot.channel_generation,
        singleton: snapshot.singleton,
        last_operation: snapshot.last_operation,
        replay: snapshot.replay,
        state: wire_state(snapshot.state),
    }
}

fn number_or_zero(id: Option<u64>) -> (r: u64)
    ensures
        r == message_or_zero(id),
{
    match id {
        Some(id) => id,
        None => 0,
    }
}

impl StateWire {
    /// What `state` is stored as.
    pub fn from_state(state: &JournalState) -> (out: Self)
        ensures
            out == wire_state(state@),
    {
        match state {
            JournalState::Prepared { plan, generation } => StateWire::Prepared {
                turn_id: plan.turn_id,
                expected_prior_message_id: plan.expected_prior_message_id,
                generation: *generation,
            },
            JournalState::BindAuthorized { candidate, .. } => StateWire::BindAuthorized {
                turn_id: candidate.plan.turn_id,
                expected_prior_message_id: candidate.plan.expected_prior_message_id,
                message_id: candidate.message_id,
                generation: candidate.generation,
            },
            JournalState::Bound { panel } => StateWire::Bound {
                turn_id: panel.candidate.plan.turn_id,
                expected_prior_message_id: panel.candidate.plan.expected_prior_message_id,
                message_id: panel.candidate.message_id,
                generation: panel.candidate.generation,
            },
            JournalState::RetireAuthorized { panel, .. } => StateWire::RetireAuthorized {
                turn_id: panel.candidate.plan.turn_id,
                expected_prior_message_id: number_or_zero(panel.candidate.plan.expected_prior_message_id),
                message_id: panel.candidate.message_id,
                generation: panel.candidate.generation,
            },
            JournalState::Retired { panel, .. } => StateWire::Retired {
                turn_id: panel.candidate.plan.turn_id,
                expected_prior_message_id: number_or_zero(panel.candidate.plan.expected_prior_message_id),
                message_id: panel.candidate.message_id,
                generation: panel.candidate.generation,
            },
            _ => StateWire::Quarantined,
        }
    }
}

impl ChannelWire {
    /// What `snapshot` of the channel `identity` is stored as.
    pub fn from_snapshot(identity: &PanelIdentity, snapshot: &ChannelSnapshot) -> (out: Self)
        ensures
            out@ == wire_snapshot(identity@, snapshot@),
    {
        ChannelWire {
            schema_version: SCHEMA_VERSION,
            provider: identity.provider().to_owned(),
            canonical_token_hash: identity.canonical_token_hash().to_owned(),
            channel_id: identity.channel_id(),
            revision: snapshot.revision,
            channel_generation: snapshot.channel_generation,
            current_singleton_message_id: snapshot.current_singleton_message_id,
            last_operation: snapshot.last_operation.clone(),
            replay: snapshot.replay.clone(),
            state: StateWire::from_state(&snapshot.state),
        }
    }
}

// ---------------------------------------------------------------------------
// Decoding
// ---------------------------------------------------------------------------
/// A candidate of the channel `identity`.
pub open spec fn candidate_of(
    identity: model::IdentityView,
    turn_id: u64,
    prior: Option<u64>,
    message_id: u64,
    generation: u64,
) -> model::CandidateView {
    model::CandidateView {
        plan: model::PlanView { identity, turn_id, prior },
        message_id,
        generation,
    }
}

/// The authorization to bind `candidate` that `stamp` stands for.
pub open spec fn stamped_bind(
    stamp: model::StampView,
    candidate: model::CandidateView,
) -> model::BindView {
    model::BindView {
        operation_id: stamp.operation_id,
        owner_nonce: stamp.owner_nonce,
        digest: stamp.digest,
        revision: stamp.revision,
        candidate,
    }
}

/// The authorization to delete a message that `stamp` stands for.
pub open spec fn stamped_retire(
    stamp: model::StampView,
    panel: model::CandidateView,
    delete_message_id: u64,
) -> model::RetireView {
    model::RetireView {
        operation_id: stamp.operation_id,
        owner_nonce: stamp.owner_nonce,
        digest: stamp.digest,
        revision: stamp.revision,
        panel,
        delete_message_id,
    }
}

/// The state that a stored state stands for, if it stands for one.
pub open spec fn decoded_state(
    wire: StateWire,
    identity: model::IdentityView,
    stamp: model::StampView,
    replay: model::ReplayView,
) -> Option<model::StateView> {
    match wire {
        StateWire::Prepared { turn_id, expected_prior_message_id, generation } => Some(
            model::StateView::Prepared {
                plan: model::PlanView { identity, turn_id, prior: expected_prior_message_id },
                generation,
            },
        ),
        StateWire::BindAuthorized {
            turn_id,
            expected_prior_message_id,
            message_id,
            generation,
        } => {
            let candidate = candidate_of(
                identity,
                turn_id,
                expected_prior_message_id,
                message_id,
                generation,
            );
            let authorization = stamped_bind(stamp, candidate);
            if authorization.matches(candidate) {
                Some(model::StateView::BindAuthorized { candidate, authorization })
            } else {
                None
            }
        },
        StateWire::Bound { turn_id, expected_prior_message_id, message_id, generation } => Some(
            model::StateView::Bound {
                panel: candidate_of(
                    identity,
                    turn_id,
                    expected_prior_message_id,
                    message_id,
                    generation,
                ),
            },
        ),
        StateWire::RetireAuthorized { turn_id, expected_prior_message_id, message_id, generation } => {
            let panel = candidate_of(
                identity,
                turn_id,
                Some(expected_prior_message_id),
                message_id,
                generation,
            );
            let authorization = stamped_retire(stamp, panel, expected_prior_message_id);
            if authorization.matches(panel) {
                Some(model::StateView::RetireAuthorized { panel, authorization })
            } else {
                None
            }
        },
        StateWire::Retired { turn_id, expected_prior_message_id, message_id, generation } => Some(
            model::StateView::Retired {
                panel: candidate_of(
                    identity,
                    turn_id,
                    Some(expected_prior_message_id),
                    message_id,
                    generation,
                ),
                retired_message_id: expected_prior_message_id,
            },
        ),
        StateWire::Quarantined => if replay is Quarantined {
            Some(model::StateView::Quarantined { reason: QuarantineReason::UnknownState })
        } else {
            None
        },
    }
}

fn candidate_from(
    identity: &PanelIdentity,
    turn_id: u64,
    prior: Option<u64>,
    message_id: u64,
    generation: u64,
) -> (out: Candidate)
    ensures
        out@ == candidate_of(identity@, turn_id, prior, message_id, generation),
{
    Candidate {
        plan: PanelPlan {
            identity: identity.clone(),
            turn_id,
            expected_prior_message_id: prior,
        },
        message_id,
        generation,
    }
}

impl StateWire {
    /// The state that a stored state stands for.
    pub fn into_state(
        self,
        identity: &PanelIdentity,
        stamp: &OperationStamp,
        replay: &ReplayMetadata,
    ) -> (r: Result<JournalState, StoreError>)
        ensures
            match r {
                Ok(state) => decoded_state(self, identity@, stamp@, replay@) == Some(state@),
                Err(error) => error == StoreError::InvariantViolation && decoded_state(
                    self,
                    identity@,
                    stamp@,
                    replay@,
                ) is None,
            },
    {
        match self {
            StateWire::Prepared { turn_id, expected_prior_message_id, generation } => Ok(
                JournalState::Prepared {
                    plan: PanelPlan {
                        identity: identity.clone(),
                        turn_id,
                        expected_prior_message_id,
                    },
                    generation,
                },
            ),
            StateWire::BindAuthorized {
                turn_id,
                expected_prior_message_id,
                message_id,
                generation,
            } => {
                let candidate = candidate_from(
                    identity,
                    turn_id,
                    expected_prior_message_id,
                    message_id,
                    generation,
                );
                let authorization = JournalOwnedBind::sealed(stamp, candidate.clone());
                if authorization.matches_candidate(&candidate) {
                    Ok(JournalState::BindAuthorized { candidate, authorization })
                } else {
                    Err(StoreError::InvariantViolation)
                }
            },
            StateWire::Bound { turn_id, expected_prior_message_id, message_id, generation } => Ok(
                JournalState::Bound {
                    panel: BoundPanel {
                        candidate: candidate_from(
                            identity,
                            turn_id,
                            expected_prior_message_id,
                            message_id,
                            generation,
                        ),
                    },
                },
            ),
            StateWire::RetireAuthorized { turn_id, expected_prior_message_id, message_id, generation } => {
                let panel = BoundPanel {
                    candidate: candidate_from(
                        identity,
                        turn_id,
                        Some(expected_prior_message_id),
                        message_id,
                        generation,
                    ),
                };
                let authorization = JournalOwnedRetire::sealed(
                    stamp,
                    panel.clone(),
                    expected_prior_message_id,
                );
                if authorization.matches_panel(&panel) {
                    Ok(JournalState::RetireAuthorized { panel, authorization })
                } else {
                    Err(StoreError::InvariantViolation)
                }
            },
            StateWire::Retired { turn_id, expected_prior_message_id, message_id, generation } => Ok(
                JournalState::Retired {
                    panel: BoundPanel {
                        candidate: candidate_from(
                            identity,
                            turn_id,
                            Some(expected_prior_message_id),
                            message_id,
                            generation,
                        ),
                    },
                    retired_message_id: expected_prior_message_id,
                },
            ),
            StateWire::Quarantined => match replay {
                ReplayMetadata::Quarantined => Ok(
                    JournalState::Quarantined { reason: QuarantineReason::UnknownState },
                ),
                _ => Err(StoreError::InvariantViolation),
            },
        }
    }
}

// ---------------------------------------------------------------------------
// Validation
// ---------------------------------------------------------------------------
/// The candidate that a state past the send is about.
pub open spec fn state_candidate(state: model::StateView) -> Option<model::CandidateView> {
    match state {
        model::StateView::BindAuthorized { candidate, .. } => Some(candidate),
        model::StateView::Bound { panel } => Some(panel),
        model::StateView::RetireAuthorized { panel, .. } => Some(panel),
        model::StateView::Retired { panel, .. } => Some(panel),
        _ => None,
    }
}

/// Whether a state shows a panel that is bound.
pub open spec fn shows_bound_panel(state: model::StateView) -> bool {
    state is Bound || state is RetireAuthorized || state is Retired
}

/// A state fits its channel: what it is about is valid and of the channel's
/// generation, and a bound panel is the channel's singleton.
pub open spec fn state_fits(
    state: model::StateView,
    channel_generation: u64,
    singleton: Option<u64>,
) -> bool {
    &&& state matches model::StateView::Prepared { plan, generation } ==> plan.valid()
        && generation == channel_generation
    &&& state_candidate(state) matches Some(candidate) ==> candidate.valid()
        && candidate.generation == channel_generation && (shows_bound_panel(state) ==> singleton
        == Some(candidate.message_id))
}

/// Checks that a state fits its channel.
pub fn validate_snapshot_invariants(
    state: &JournalState,
    channel_generation: u64,
    current_singleton_message_id: Option<u64>,
) -> (r: Result<(), StoreError>)
    ensures
        match r {
            Ok(_) => state_fits(state@, channel_generation, current_singleton_message_id),
            Err(error) => error == StoreError::InvariantViolation && !state_fits(
                state@,
                channel_generation,
                current_singleton_message_id,
            ),
        },
{
    let (candidate, bound) = match state {
        JournalState::Prepared { plan, generation } => {
            if !plan.is_valid() || *generation != channel_generation {
                return Err(StoreError::InvariantViolation);
            }
            return Ok(());
        },
        JournalState::BindAuthorized { candidate, .. } => (candidate, false),
        JournalState::Bound { panel } => (&panel.candidate, true),
        JournalState::RetireAuthorized { panel, .. } => (&panel.candidate, true),
        JournalState::Retired { panel, .. } => (&panel.candidate, true),
        JournalState::Failed => {
            return Ok(());
        },
        JournalState::Quarantined { .. } => {
            return Ok(());
        },
    };
    if !candidate.is_valid() || candidate.generation != channel_generation {
        return Err(StoreError::InvariantViolation);
    }
    if bound && !model::same_message(current_singleton_message_id, Some(candidate.message_id)) {
        return Err(StoreError::InvariantViolation);
    }
    Ok(())
}

/// The stamp's digest is the one of the operation that leads to `state`, and
/// `replay` is what that operation leaves.
pub open spec fn replay_fits(
    state: model::StateView,
    replay: model::ReplayView,
    stamp: model::StampView,
) -> bool {
    match (state, replay) {
        (model::StateView::Prepared { plan, generation }, model::ReplayView::Prepared) => {
            stamp.digest == digest::digest_of(
                digest::prepare_parts(stamp.operation_id, stamp.owner_nonce, plan, generation),
            )
        },
        (
            model::StateView::BindAuthorized { candidate, authorization },
            model::ReplayView::BindAuthorized,
        ) => {
            &&& authorization.matches(candidate)
            &&& stamp.digest == digest::digest_of(
                digest::bind_parts(stamp.operation_id, stamp.owner_nonce, candidate),
            )
        },
        (model::StateView::Bound { .. }, model::ReplayView::Bound { bind_digest }) => {
            &&& digest::is_digest(bind_digest)
            &&& stamp.digest == digest::digest_of(
                digest::bound_parts(stamp.operation_id, stamp.owner_nonce, bind_digest),
            )
        },
        (
            model::StateView::RetireAuthorized { panel, authorization },
            model::ReplayView::RetireAuthorized,
        ) => {
            &&& authorization.matches(panel)
            &&& stamp.digest == digest::digest_of(
                digest::retire_parts(
                    stamp.operation_id,
                    stamp.owner_nonce,
                    panel,
                    authorization.delete_message_id,
                ),
            )
        },
        (
            model::StateView::Retired { .. },
            model::ReplayView::Retired { retire_digest, observation },
        ) => {
            &&& digest::is_digest(retire_digest)
            &&& stamp.digest == digest::digest_of(
                digest::retired_parts(
                    stamp.operation_id,
                    stamp.owner_nonce,
                    retire_digest,
                    observation,
                ),
            )
        },
        (model::StateView::Quarantined { .. }, model::ReplayView::Quarantined) => true,
        _ => false,
    }
}

/// Checks that the stamp and the replay record belong to the state.
pub fn validate_replay(state: &JournalState, replay: &ReplayMetadata, stamp: &OperationStamp) -> (r:
    Result<(), StoreError>)
    ensures
        match r {
            Ok(_) => replay_fits(state@, replay@, stamp@),
            Err(error) => error == StoreError::InvariantViolation && !replay_fits(
                state@,
                replay@,
                stamp@,
            ),
        },
{
    let id = stamp.operation_id.as_str();
    let nonce = stamp.owner_nonce.as_str();
    let own = stamp.digest.as_str();
    let valid = match (state, replay) {
        (JournalState::Prepared { plan, generation }, ReplayMetadata::Prepared) => {
            text::same_text(own, prepare_digest(id, nonce, plan, *generation).as_str())
        },
        (
            JournalState::BindAuthorized { candidate, authorization },
            ReplayMetadata::BindAuthorized,
        ) => {
            authorization.matches_candidate(candidate) && text::same_text(
                own,
                bind_digest(id, nonce, candidate).as_str(),
            )
        },
        (JournalState::Bound { .. }, ReplayMetadata::Bound { bind_digest }) => {
            valid_digest(bind_digest.as_str()) && text::same_text(
                own,
                bound_digest(id, nonce, bind_digest.as_str()).as_str(),
            )
        },
        (
            JournalState::RetireAuthorized { panel, authorization },
            ReplayMetadata::RetireAuthorized,
        ) => {
            authorization.matches_panel(panel) && text::same_text(
                own,
                retire_digest(id, nonce, panel, authorization.delete_message_id()).as_str(),
            )
        },
        (JournalState::Retired { .. }, ReplayMetadata::Retired { retire_digest, observation }) => {
            valid_digest(retire_digest.as_str()) && text::same_text(
                own,
                retired_digest(id, nonce, retire_digest.as_str(), *observation).as_str(),
            )
        },
        (JournalState::Quarantined { .. }, ReplayMetadata::Quarantined) => true,
        _ => false,
    };
    if valid {
        Ok(())
    } else {
        Err(StoreError::InvariantViolation)
    }
}

/// The record is of this layout and of the channel `expected`, and its stamp is in
/// order.
pub open spec fn header_fits(wire: WireView, expected: model::IdentityView) -> bool {
    &&& wire.schema_version == SCHEMA_VERSION
    &&& wire.identity == expected
    &&& wire.revision != 0
    &&& wire.channel_generation != 0
    &&& wire.last_operation.revision == wire.revision
    &&& digest::is_id(wire.last_operation.operation_id)
    &&& digest::is_id(wire.last_operation.owner_nonce)
    &&& digest::is_digest(wire.last_operation.digest)
}

/// The snapshot that a record of the channel `expected` stands for, if it stands
/// for one.
pub open spec fn decoded_snapshot(wire: WireView, expected: model::IdentityView) -> Option<
    model::SnapshotView,
> {
    match decoded_state(wire.state, expected, wire.last_operation, wire.replay) {
        Some(state) => if header_fits(wire, expected) && replay_fits(
            state,
            wire.replay,
            wire.last_operation,
        ) && state_fits(state, wire.channel_generation, wire.singleton) {
            Some(
                model::SnapshotView {
                    revision: wire.revision,
                    channel_generation: wire.channel_generation,
                    singleton: wire.singleton,
                    state,
                    last_operation: wire.last_operation,
                    replay: wire.replay,
                },
            )
        } else {
            None
        },
        None => None,
    }
}

impl ChannelWire {
    /// The snapshot that a record of the channel `expected` stands for.
    pub fn into_snapshot(self, expected: &PanelIdentity) -> (r: Result<ChannelSnapshot, StoreError>)
        ensures
            match r {
                Ok(snapshot) => decoded_snapshot(self@, expected@) == Some(snapshot@),
                Err(error) => error == StoreError::InvariantViolation && decoded_snapshot(
                    self@,
                    expected@,
                ) is None,
            },
    {
        if self.schema_version != SCHEMA_VERSION || !text::same_text(
            self.provider.as_str(),
            expected.provider(),
        ) || !text::same_text(
            self.canonical_token_hash.as_str(),
            expected.canonical_token_hash(),
        ) || self.channel_id != expected.channel_id() || self.revision == 0
            || self.channel_generation == 0 || self.last_operation.revision != self.revision
            || !valid_id(self.last_operation.operation_id.as_str()) || !valid_id(
            self.last_operation.owner_nonce.as_str(),
        ) || !valid_digest(self.last_operation.digest.as_str()) {
            return Err(StoreError::InvariantViolation);
        }
        let state = match self.state.into_state(expected, &self.last_operation, &self.replay) {
            Ok(state) => state,
            Err(error) => {
                return Err(error);
            },
        };
        match validate_replay(&state, &self.replay, &self.last_operation) {
            Ok(_) => {},
            Err(error) => {
                return Err(error);
            },
        }
        match validate_snapshot_invariants(
            &state,
            self.channel_generation,
            self.current_singleton_message_id,
        ) {
            Ok(_) => {},
            Err(error) => {
                return Err(error);
            },
        }
        Ok(
            ChannelSnapshot {
                revision: self.revision,
                channel_generation: self.channel_generation,
                current_singleton_message_id: self.current_singleton_message_id,
                state,
                last_operation: self.last_operation,
                replay: self.replay,
            },
        )
    }
}

// ---------------------------------------------------------------------------
// What the record keeps
// ---------------------------------------------------------------------------
/// What a state is about belongs to the channel `identity`, and the authorization
/// it carries is the one that `stamp` stands for.
pub open spec fn state_owned(
    state: model::StateView,
    identity: model::IdentityView,
    stamp: model::StampView,
) -> bool {
    match state {
        model::StateView::Prepared { plan, .. } => plan.identity == identity,
        model::StateView::BindAuthorized { candidate, authorization } => {
            &&& candidate.plan.identity == identity
            &&& authorization == stamped_bind(stamp, candidate)
        },
        model::StateView::Bound { panel } => panel.plan.identity == identity,
        model::StateView::RetireAuthorized { panel, authorization } => {
            &&& panel.plan.identity == identity
            &&& panel.plan.prior is Some
            &&& authorization == stamped_retire(stamp, panel, message_or_zero(panel.plan.prior))
        },
        model::StateView::Retired { panel, retired_message_id } => {
            &&& panel.plan.identity == identity
            &&& panel.plan.prior == Some(retired_message_id)
        },
        model::StateView::Failed => false,
        model::StateView::Quarantined { .. } => true,
    }
}

/// A snapshot that the journal of the channel `identity` may hold.
pub open spec fn snapshot_valid(
    identity: model::IdentityView,
    snapshot: model::SnapshotView,
) -> bool {
    &&& snapshot.revision != 0
    &&& snapshot.channel_generation != 0
    &&& snapshot.last_operation.revision == snapshot.revision
    &&& digest::is_id(snapshot.last_operation.operation_id)
    &&& digest::is_id(snapshot.last_operation.owner_nonce)
    &&& digest::is_digest(snapshot.last_operation.digest)
    &&& state_owned(snapshot.state, identity, snapshot.last_operation)
    &&& replay_fits(snapshot.state, snapshot.replay, snapshot.last_operation)
    &&& state_fits(snapshot.state, snapshot.channel_generation, snapshot.singleton)
}

/// Storing a valid snapshot and reading the record back gives the same snapshot.
pub proof fn law_record_round_trip(identity: model::IdentityView, snapshot: model::SnapshotView)
    requires
        snapshot_valid(identity, snapshot),
    ensures
        decoded_snapshot(wire_snapshot(identity, snapshot), identity) == Some(snapshot),
{
}

/// A record decodes only if it is what some valid snapshot is stored as, and it
/// decodes to that snapshot: no two records stand for one snapshot.
pub proof fn law_record_is_canonical(
    wire: WireView,
    identity: model::IdentityView,
    snapshot: model::SnapshotView,
)
    requires
        decoded_snapshot(wire, identity) == Some(snapshot),
    ensures
        snapshot_valid(identity, snapshot),
        wire_snapshot(identity, snapshot) == wire,
{
}

/// A record of one channel does not decode for another.
pub proof fn law_record_is_bound_to_its_channel(
    identity: model::IdentityView,
    other: model::IdentityView,
    snapshot: model::SnapshotView,
)
    requires
        identity != other,
    ensures
        decoded_snapshot(wire_snapshot(identity, snapshot), other) is None,
{
}

} // verus!
