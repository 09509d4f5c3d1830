//! What holds of the journal's operations taken together.

use vstd::prelude::*;

use crate::bytes;
use crate::journal::channel;
use crate::journal::digest;
use crate::journal::model;
use crate::journal::model::{DeleteDisposition, DeleteObservation, StoreError};
use crate::journal::operations;

verus! {

// ---------------------------------------------------------------------------
// Revisions and generations
// ---------------------------------------------------------------------------
/// A step that persists moves the stored revision up by exactly one.
pub open spec fn advances_revision<V>(
    stored: Result<Option<model::SnapshotView>, StoreError>,
    step: channel::StepView<V>,
) -> bool {
    step matches channel::StepView::Persist { snapshot, .. } ==> stored is Ok && snapshot.revision
        == (match stored->Ok_0 {
        Some(current) => current.revision + 1,
        None => 1,
    }) && snapshot.last_operation.revision == snapshot.revision
}

/// Preparing moves the revision and the generation up by one and leaves the
/// channel's panel as it is; with a stale expectation it stores nothing.
pub proof fn law_prepare_advances(
    identity: model::IdentityView,
    plan: model::PlanView,
    expected_revision: u64,
    stored: Result<Option<model::SnapshotView>, StoreError>,
    operation_id: Seq<char>,
    owner_nonce: Seq<char>,
)
    ensures
        advances_revision(
            stored,
            channel::prepare_step(
                identity,
                plan,
                expected_revision,
                stored,
                operation_id,
                owner_nonce,
            ),
        ),
        match channel::prepare_step(
            identity,
            plan,
            expected_revision,
            stored,
            operation_id,
            owner_nonce,
        ) {
            channel::StepView::Persist { snapshot, applied } => {
                &&& applied.generation == snapshot.channel_generation
                &&& match stored->Ok_0 {
                    Some(current) => snapshot.channel_generation == current.channel_generation + 1
                        && snapshot.singleton == current.singleton && current.revision
                        == expected_revision,
                    None => snapshot.channel_generation == 1 && snapshot.singleton is None
                        && expected_revision == 0,
                }
            },
            channel::StepView::Replayed(_) => false,
            _ => true,
        },
{
}

/// Recording a sent message keeps the generation and the channel's panel.
pub proof fn law_record_sent_advances(
    identity: model::IdentityView,
    operation: model::PreparedView,
    message_id: u64,
    current: model::SnapshotView,
)
    ensures
        advances_revision(
            Ok(Some(current)),
            channel::record_sent_step(identity, operation, message_id, Ok(Some(current))),
        ),
        channel::record_sent_step(identity, operation, message_id, Ok(Some(current)))
            matches channel::StepView::Persist { snapshot, .. } ==> snapshot.channel_generation
            == current.channel_generation && snapshot.singleton == current.singleton,
{
}

/// Committing a bind keeps the generation and makes the candidate's message the
/// channel's panel.
pub proof fn law_commit_bind_advances(authorization: model::BindView, current: model::SnapshotView)
    ensures
        advances_revision(
            Ok(Some(current)),
            channel::commit_bind_step(authorization, Ok(Some(current))),
        ),
        channel::commit_bind_step(authorization, Ok(Some(current)))
            matches channel::StepView::Persist { snapshot, .. } ==> snapshot.channel_generation
            == current.channel_generation && snapshot.singleton == Some(
            authorization.candidate.message_id,
        ),
{
}

/// Authorizing a retirement keeps the generation and the channel's panel.
pub proof fn law_authorize_retire_advances(bound: model::BoundView, current: model::SnapshotView)
    ensures
        advances_revision(
            Ok(Some(current)),
            channel::authorize_retire_step(bound, Ok(Some(current))),
        ),
        channel::authorize_retire_step(bound, Ok(Some(current)))
            matches channel::StepView::Persist { snapshot, .. } ==> snapshot.channel_generation
            == current.channel_generation && snapshot.singleton == current.singleton,
{
}

/// Recording a deletion keeps the generation and the channel's panel.
pub proof fn law_record_delete_advances(
    authorization: model::RetireView,
    observation: DeleteObservation,
    current: model::SnapshotView,
)
    ensures
        advances_revision(
            Ok(Some(current)),
            channel::record_delete_step(authorization, observation, Ok(Some(current))),
        ),
        channel::record_delete_step(authorization, observation, Ok(Some(current)))
            matches channel::StepView::Persist { snapshot, .. } ==> snapshot.channel_generation
            == current.channel_generation && snapshot.singleton == current.singleton,
{
}

// ---------------------------------------------------------------------------
// Replays
// ---------------------------------------------------------------------------
/// Recording the same sent message again, on what recording it stored, is a replay
/// with the same authorization; recording another message is stale.
pub proof fn law_record_sent_replays(
    identity: model::IdentityView,
    operation: model::PreparedView,
    message_id: u64,
    other_message_id: u64,
    stored: Result<Option<model::SnapshotView>, StoreError>,
)
    requires
        channel::record_sent_step(identity, operation, message_id, stored) is Persist,
        channel::sent_admitted(identity, operation, other_message_id),
        other_message_id != message_id,
    ensures
        ({
            let first = channel::record_sent_step(identity, operation, message_id, stored);
            let after = Ok(Some(first->snapshot));
            &&& channel::record_sent_step(identity, operation, message_id, after)
                == channel::StepView::Replayed(first->applied)
            &&& channel::record_sent_step(identity, operation, other_message_id, after)
                is Stale
        }),
{
    let first = channel::record_sent_step(identity, operation, message_id, stored);
    let candidate = channel::sent_candidate(operation, message_id);
    let other = channel::sent_candidate(operation, other_message_id);
    assert(candidate.message_id != other.message_id);
    assert(first->snapshot.state == (model::StateView::BindAuthorized {
        candidate,
        authorization: channel::sent_authorization(operation, message_id),
    }));
}

/// Committing the same authorization again, on what committing it stored, is a
/// replay with the same bound operation.
pub proof fn law_commit_bind_replays(
    authorization: model::BindView,
    stored: Result<Option<model::SnapshotView>, StoreError>,
)
    requires
        channel::commit_bind_step(authorization, stored) is Persist,
    ensures
        ({
            let first = channel::commit_bind_step(authorization, stored);
            channel::commit_bind_step(authorization, Ok(Some(first->snapshot)))
                == channel::StepView::Replayed(first->applied)
        }),
{
}

/// Authorizing the same retirement again, on what authorizing it stored, is a
/// replay with the same authorization.
pub proof fn law_authorize_retire_replays(
    bound: model::BoundView,
    stored: Result<Option<model::SnapshotView>, StoreError>,
)
    requires
        channel::authorize_retire_step(bound, stored) is Persist,
    ensures
        ({
            let first = channel::authorize_retire_step(bound, stored);
            channel::authorize_retire_step(bound, Ok(Some(first->snapshot)))
                == channel::StepView::Replayed(first->applied)
        }),
{
}

/// Recording the same deletion again, on what recording it stored, is a replay.
pub proof fn law_record_delete_replays(
    authorization: model::RetireView,
    observation: DeleteObservation,
    stored: Result<Option<model::SnapshotView>, StoreError>,
)
    requires
        channel::record_delete_step(authorization, observation, stored) is Persist,
    ensures
        ({
            let first = channel::record_delete_step(authorization, observation, stored);
            channel::record_delete_step(authorization, observation, Ok(Some(first->snapshot)))
                == channel::StepView::Replayed(DeleteDisposition::Retired)
        }),
{
}

// ---------------------------------------------------------------------------
// One step after another
// ---------------------------------------------------------------------------
/// Two callers that prepare on the same expected revision: once one has stored its
/// plan, the other is stale.
pub proof fn law_second_prepare_is_stale(
    identity: model::IdentityView,
    plan: model::PlanView,
    other_plan: model::PlanView,
    expected_revision: u64,
    stored: Result<Option<model::SnapshotView>, StoreError>,
    ids: (Seq<char>, Seq<char>),
    other_ids: (Seq<char>, Seq<char>),
)
    requires
        channel::prepare_step(identity, plan, expected_revision, stored, ids.0, ids.1) is Persist,
        channel::prepare_admitted(identity, other_plan),
    ensures
        ({
            let first = channel::prepare_step(
                identity,
                plan,
                expected_revision,
                stored,
                ids.0,
                ids.1,
            );
            channel::prepare_step(
                identity,
                other_plan,
                expected_revision,
                Ok(Some(first->snapshot)),
                other_ids.0,
                other_ids.1,
            ) is Stale
        }),
{
}

/// A transition that is carried out without interference goes through: a prepared
/// operation takes the message that was sent for it, the authorization is
/// committed, and where the panel replaced a message, its retirement is authorized
/// and recorded.
pub proof fn law_transition_goes_through(
    identity: model::IdentityView,
    plan: model::PlanView,
    expected_revision: u64,
    stored: Result<Option<model::SnapshotView>, StoreError>,
    operation_id: Seq<char>,
    owner_nonce: Seq<char>,
    message_id: u64,
    observation: DeleteObservation,
)
    requires
        channel::prepare_step(identity, plan, expected_revision, stored, operation_id, owner_nonce)
            is Persist,
        message_id != 0,
        plan.prior != Some(message_id),
        expected_revision <= u64::MAX - 5,
    ensures
        ({
            let prepared = channel::prepare_step(
                identity,
                plan,
                expected_revision,
                stored,
                operation_id,
                owner_nonce,
            );
            let sent = channel::record_sent_step(
                identity,
                prepared->applied,
                message_id,
                Ok(Some(prepared->snapshot)),
            );
            let bound = channel::commit_bind_step(sent->applied, Ok(Some(sent->snapshot)));
            let retire = channel::authorize_retire_step(
                bound->applied,
                Ok(Some(bound->snapshot)),
            );
            let gone = channel::record_delete_step(
                retire->applied,
                observation,
                Ok(Some(retire->snapshot)),
            );
            &&& sent is Persist
            &&& bound is Persist
            &&& bound->snapshot.singleton == Some(message_id)
            &&& plan.prior is Some ==> retire is Persist && Some(
                retire->applied.delete_message_id,
            ) == plan.prior
            &&& plan.prior is Some ==> if channel::keeps_message(observation) {
                gone == channel::StepView::<DeleteDisposition>::Replayed(
                    DeleteDisposition::RetainAuthorization,
                )
            } else {
                gone is Persist && gone->applied == DeleteDisposition::Retired
            }
            &&& plan.prior is None ==> retire is Failed
        }),
{
    let prepared = channel::prepare_step(
        identity,
        plan,
        expected_revision,
        stored,
        operation_id,
        owner_nonce,
    );
    let operation = prepared->applied;
    let sent = channel::record_sent_step(
        identity,
        operation,
        message_id,
        Ok(Some(prepared->snapshot)),
    );
    assert(sent is Persist);
    let authorization = sent->applied;
    assert(authorization.matches(authorization.candidate));
    let bound = channel::commit_bind_step(authorization, Ok(Some(sent->snapshot)));
    assert(bound is Persist);
    if plan.prior is Some {
        let retire = channel::authorize_retire_step(bound->applied, Ok(Some(bound->snapshot)));
        assert(retire is Persist);
        assert(retire->applied.matches(retire->applied.panel));
    }
}

/// An observation after which the message may still be there stores nothing.
pub proof fn law_failed_deletion_keeps_authorization(
    authorization: model::RetireView,
    observation: DeleteObservation,
    stored: Result<Option<model::SnapshotView>, StoreError>,
)
    requires
        channel::keeps_message(observation),
    ensures
        !(channel::record_delete_step(authorization, observation, stored) is Persist),
{
}

/// An authorization that was altered is refused, whatever is stored: as soon as its
/// digest is not the one of what it now says.
pub proof fn law_altered_authorization_is_refused(
    authorization: model::BindView,
    stored: Result<Option<model::SnapshotView>, StoreError>,
)
    requires
        authorization.digest != digest::digest_of(
            digest::bind_parts(
                authorization.operation_id,
                authorization.owner_nonce,
                authorization.candidate,
            ),
        ),
    ensures
        channel::commit_bind_step(authorization, stored) == channel::StepView::<
            model::BoundView,
        >::Failed(StoreError::InvariantViolation),
{
}

/// After a crash, exactly a bind that was authorized and not yet committed is
/// found again: the very authorization that recording the sent message gave, and
/// nothing before it or after it.
pub proof fn law_only_an_authorized_bind_is_recovered(
    identity: model::IdentityView,
    operation: model::PreparedView,
    message_id: u64,
    before: model::SnapshotView,
)
    requires
        channel::record_sent_step(identity, operation, message_id, Ok(Some(before))) is Persist,
    ensures
        ({
            let sent = channel::record_sent_step(identity, operation, message_id, Ok(Some(before)));
            let bound = channel::commit_bind_step(sent->applied, Ok(Some(sent->snapshot)));
            &&& operations::recoverable_bind(Ok(Some(before))) is None
            &&& operations::recoverable_bind(Ok(Some(sent->snapshot))) == Some(sent->applied)
            &&& bound is Persist ==> operations::recoverable_bind(Ok(Some(bound->snapshot))) is None
        }),
{
}

// ---------------------------------------------------------------------------
// What a digest covers
// ---------------------------------------------------------------------------
/// The framed parts without the domain, read from the front.
spec fn framed_body(parts: Seq<Seq<u8>>) -> Seq<u8>
    decreases parts.len(),
{
    if parts.len() == 0 {
        Seq::empty()
    } else {
        bytes::be64(parts[0].len() as u64) + parts[0] + framed_body(parts.drop_first())
    }
}

proof fn lemma_framed_body_last(parts: Seq<Seq<u8>>)
    requires
        parts.len() > 0,
    ensures
        framed_body(parts) == framed_body(parts.drop_last()) + bytes::be64(
            parts.last().len() as u64,
        ) + parts.last(),
    decreases parts.len(),
{
    if parts.len() == 1 {
        assert(parts.drop_first() =~= Seq::empty());
        assert(parts.drop_last() =~= Seq::empty());
        assert(framed_body(parts.drop_first()) == Seq::<u8>::empty());
        assert(framed_body(parts.drop_last()) == Seq::<u8>::empty());
        assert(framed_body(parts) =~= framed_body(parts.drop_last()) + bytes::be64(
            parts.last().len() as u64,
        ) + parts.last());
    } else {
        let rest = parts.drop_first();
        lemma_framed_body_last(rest);
        assert(rest.drop_last() =~= parts.drop_last().drop_first());
        assert(parts.drop_last()[0] == parts[0]);
        assert(rest.last() == parts.last());
        assert(framed_body(parts) =~= framed_body(parts.drop_last()) + bytes::be64(
            parts.last().len() as u64,
        ) + parts.last());
    }
}

proof fn lemma_framed_is_domain_and_body(domain: Seq<u8>, parts: Seq<Seq<u8>>)
    ensures
        bytes::framed(domain, parts) == domain + framed_body(parts),
    decreases parts.len(),
{
    if parts.len() == 0 {
        assert(domain + framed_body(parts) =~= domain);
    } else {
        lemma_framed_is_domain_and_body(domain, parts.drop_last());
        lemma_framed_body_last(parts);
        assert(bytes::framed(domain, parts) =~= domain + framed_body(parts));
    }
}

/// Every part is short enough for its length to be written in eight bytes.
pub open spec fn parts_fit(parts: Seq<Seq<u8>>) -> bool {
    forall|i: int| 0 <= i < parts.len() ==> #[trigger] parts[i].len() <= u64::MAX
}

proof fn lemma_framed_body_injective(a: Seq<Seq<u8>>, b: Seq<Seq<u8>>)
    requires
        parts_fit(a),
        parts_fit(b),
        framed_body(a) == framed_body(b),
    ensures
        a == b,
    decreases a.len(),
{
    let x = framed_body(a);
    let y = framed_body(b);
    if a.len() == 0 || b.len() == 0 {
        assert(a.len() > 0 ==> x.len() >= 8);
        assert(b.len() > 0 ==> y.len() >= 8);
        assert(a =~= b);
    } else {
        let p = bytes::be64(a[0].len() as u64);
        let q = bytes::be64(b[0].len() as u64);
        assert(x.take(8) =~= p);
        assert(y.take(8) =~= q);
        bytes::lemma_be64_injective(a[0].len() as u64, b[0].len() as u64);
        let n = a[0].len() as int;
        assert(x.subrange(8, 8 + n) =~= a[0]);
        assert(y.subrange(8, 8 + n) =~= b[0]);
        assert(x.skip(8 + n) =~= framed_body(a.drop_first()));
        assert(y.skip(8 + n) =~= framed_body(b.drop_first()));
        assert(parts_fit(a.drop_first())) by {
            assert forall|i: int| 0 <= i < a.drop_first().len() implies #[trigger] a.drop_first()[i].len()
                <= u64::MAX by {
                assert(a.drop_first()[i] == a[i + 1]);
            }
        }
        assert(parts_fit(b.drop_first())) by {
            assert forall|i: int| 0 <= i < b.drop_first().len() implies #[trigger] b.drop_first()[i].len()
                <= u64::MAX by {
                assert(b.drop_first()[i] == b[i + 1]);
            }
        }
        lemma_framed_body_injective(a.drop_first(), b.drop_first());
        assert(a =~= seq![a[0]] + a.drop_first());
        assert(b =~= seq![b[0]] + b.drop_first());
    }
}

/// Different lists of parts never give the hash the same input.
pub proof fn law_digest_input_is_unambiguous(a: Seq<Seq<u8>>, b: Seq<Seq<u8>>)
    requires
        parts_fit(a),
        parts_fit(b),
        bytes::framed(digest::digest_domain(), a) == bytes::framed(digest::digest_domain(), b),
    ensures
        a == b,
{
    let domain = digest::digest_domain();
    lemma_framed_is_domain_and_body(domain, a);
    lemma_framed_is_domain_and_body(domain, b);
    assert((domain + framed_body(a)).skip(domain.len() as int) =~= framed_body(a));
    assert((domain + framed_body(b)).skip(domain.len() as int) =~= framed_body(b));
    lemma_framed_body_injective(a, b);
}

proof fn lemma_utf8_injective(s: Seq<char>, t: Seq<char>)
    requires
        vstd::utf8::encode_utf8(s) == vstd::utf8::encode_utf8(t),
    ensures
        s == t,
{
    vstd::utf8::encode_utf8_decode_utf8(s);
    vstd::utf8::encode_utf8_decode_utf8(t);
}

proof fn lemma_bind_part_places(
    operation_id: Seq<char>,
    nonce: Seq<char>,
    candidate: model::CandidateView,
)
    ensures
        ({
            let x = digest::bind_parts(operation_id, nonce, candidate);
            let prior = digest::prior_parts(candidate.plan.prior);
            &&& x[1] == vstd::utf8::encode_utf8(operation_id)
            &&& x[2] == vstd::utf8::encode_utf8(nonce)
            &&& x[3] == vstd::utf8::encode_utf8(candidate.plan.identity.provider)
            &&& x[4] == vstd::utf8::encode_utf8(candidate.plan.identity.token_hash)
            &&& x[5] == bytes::be64(candidate.plan.identity.channel_id)
            &&& x[6] == bytes::be64(candidate.plan.turn_id)
            &&& x[7] == bytes::be64(candidate.generation)
            &&& x[8] == prior[0]
            &&& x[9] == prior[1]
            &&& x[10] == bytes::be64(candidate.message_id)
        }),
{
}

/// The parts of an authorized bind determine the operation, the nonce and the whole
/// candidate.
pub proof fn law_bind_parts_determine_the_bind(
    a: (Seq<char>, Seq<char>, model::CandidateView),
    b: (Seq<char>, Seq<char>, model::CandidateView),
)
    requires
        digest::bind_parts(a.0, a.1, a.2) == digest::bind_parts(b.0, b.1, b.2),
    ensures
        a == b,
{
    let x = digest::bind_parts(a.0, a.1, a.2);
    let y = digest::bind_parts(b.0, b.1, b.2);
    lemma_bind_part_places(a.0, a.1, a.2);
    lemma_bind_part_places(b.0, b.1, b.2);
    lemma_utf8_injective(a.0, b.0);
    lemma_utf8_injective(a.1, b.1);
    lemma_utf8_injective(a.2.plan.identity.provider, b.2.plan.identity.provider);
    lemma_utf8_injective(a.2.plan.identity.token_hash, b.2.plan.identity.token_hash);
    bytes::lemma_be64_injective(a.2.plan.identity.channel_id, b.2.plan.identity.channel_id);
    bytes::lemma_be64_injective(a.2.plan.turn_id, b.2.plan.turn_id);
    bytes::lemma_be64_injective(a.2.generation, b.2.generation);
    bytes::lemma_be64_injective(a.2.message_id, b.2.message_id);
    let p = digest::prior_parts(a.2.plan.prior);
    let q = digest::prior_parts(b.2.plan.prior);
    assert(p[0] == q[0] && p[1] == q[1]);
    assert(p[0][0] == q[0][0]);
    if a.2.plan.prior is Some {
        bytes::lemma_be64_injective(a.2.plan.prior->0, b.2.plan.prior->0);
    }
}

} // verus!
