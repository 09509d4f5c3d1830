//! What a journal is opened for, what its digests go over, and which records it takes.

use vstd::prelude::*;
use vstd::utf8::encode_utf8;

use crate::bytes;
use crate::hashing;
use crate::journal::channel::ChannelJournal;
use crate::journal::codec::{ChannelWire, StateWire};
use crate::journal::digest;
use crate::journal::model;
use crate::journal::model::{
    BoundPanel, Candidate, CanonicalProvider, CanonicalTokenHash, ChannelSnapshot,
    DeleteObservation, JournalOwnedBind, JournalOwnedRetire, JournalState, OperationStamp,
    PanelIdentity, PanelPlan, PreparedOperation, ReadOutcome, ReplayMetadata, StoreError,
    WriteStage,
};
use crate::journal::operations::{
    bind_authorization_for_test, identity_for_test, mutate_bind_authorization_for_test,
    retire_authorization_for_test,
};
use crate::journal::storage::{Failpoint, WriteTarget};
use crate::text;

verus! {

// ---------------------------------------------------------------------------
// Opening
// ---------------------------------------------------------------------------
/// A provider is one of four names, or the fifth if that is made of small letters; a token hash
/// is `discord_` with sixteen digits behind it. Both are kept as they are given.
pub proof fn law_names_are_canonical(
    provider: &str,
    fifth: &str,
    hash: &str,
    rest: Option<&str>,
    hex: bool,
    parsed: Result<CanonicalProvider, StoreError>,
    name: &str,
    parsed_hash: Result<CanonicalTokenHash, StoreError>,
    hash_name: &str,
)
    requires
        call_ensures(CanonicalProvider::parse, (provider, fifth), parsed),
        parsed is Ok ==> call_ensures(CanonicalProvider::as_str, (&parsed->Ok_0,), name),
        call_ensures(CanonicalTokenHash::parse, (hash,), parsed_hash),
        parsed_hash is Ok ==> call_ensures(
            CanonicalTokenHash::as_str,
            (&parsed_hash->Ok_0,),
            hash_name,
        ),
        call_ensures(text::strip_prefix, (hash, "discord_"), rest),
        rest is Some ==> call_ensures(text::is_lower_hex_of_len, (rest->0, 16usize), hex),
    ensures
        parsed is Ok <==> {
            ||| provider@ == "codex"@
            ||| provider@ == "gemini"@
            ||| provider@ == "opencode"@
            ||| provider@ == "qwen"@
            ||| provider@ == fifth@ && provider@.len() > 0 && (forall|i: int|
                0 <= i < provider@.len() ==> 97 <= #[trigger] provider@[i] as int <= 122)
        },
        parsed is Ok ==> name@ == provider@,
        parsed is Err ==> (parsed->Err_0 matches StoreError::InvalidPathComponent(what) && what@
            == "provider"@),
        parsed_hash is Ok <==> rest is Some && hex,
        parsed_hash is Ok ==> hash_name@ == hash@,
        parsed_hash is Err ==> (parsed_hash->Err_0 matches StoreError::InvalidPathComponent(what)
            && what@ == "canonical_token_hash"@),
{
    if text::is_plain_name(provider@) {
        assert forall|i: int| 0 <= i < provider@.len() implies 97 <= #[trigger] provider@[i] as int
            <= 122 by {
            assert('a' <= provider@[i] <= 'z');
        }
    }
    if provider@.len() > 0 && (forall|i: int|
        0 <= i < provider@.len() ==> 97 <= #[trigger] provider@[i] as int <= 122) {
        assert forall|i: int| 0 <= i < provider@.len() implies 'a' <= #[trigger] provider@[i]
            <= 'z' by {
            assert(97 <= provider@[i] as int <= 122);
        }
    }
}

/// A journal is opened for a provider, a token hash and a channel that are all in order; the
/// error names the first that is not. It then is the journal of just that channel, and no write
/// of it is made to fail.
pub proof fn law_journal_is_opened_in_order(
    provider: &str,
    hash: &str,
    channel_id: u64,
    fifth: &str,
    r: Result<ChannelJournal, StoreError>,
    parsed: Result<CanonicalProvider, StoreError>,
    parsed_hash: Result<CanonicalTokenHash, StoreError>,
    identity: &PanelIdentity,
    got_provider: &str,
    got_hash: &str,
    got_channel: u64,
    point: Option<Failpoint>,
)
    requires
        call_ensures(ChannelJournal::open, (provider, hash, channel_id, fifth), r),
        call_ensures(CanonicalProvider::parse, (provider, fifth), parsed),
        call_ensures(CanonicalTokenHash::parse, (hash,), parsed_hash),
        r is Ok ==> {
            &&& call_ensures(ChannelJournal::identity, (&r->Ok_0,), identity)
            &&& call_ensures(PanelIdentity::provider, (identity,), got_provider)
            &&& call_ensures(PanelIdentity::canonical_token_hash, (identity,), got_hash)
            &&& call_ensures(PanelIdentity::channel_id, (identity,), got_channel)
            &&& call_ensures(ChannelJournal::failpoint, (&r->Ok_0,), point)
        },
    ensures
        r is Ok <==> parsed is Ok && parsed_hash is Ok && channel_id > 0,
        r is Ok ==> got_provider@ == provider@ && got_hash@ == hash@ && got_channel == channel_id
            && point is None,
        r matches Err(error) ==> (error matches StoreError::InvalidPathComponent(what) && what@
            == if parsed is Err {
            "provider"@
        } else if parsed_hash is Err {
            "canonical_token_hash"@
        } else {
            "channel_id"@
        }),
{
}

/// The directory of a channel names its provider, its token hash and its number; the file of an
/// operation names its revision in twenty digits and its identifier.
pub proof fn law_paths_name_their_parts(
    journal: ChannelJournal,
    stamp: OperationStamp,
    provider: &str,
    hash: &str,
    channel: String,
    revision: String,
    dir: String,
    path: String,
)
    requires
        call_ensures(PanelIdentity::provider, (&journal.identity,), provider),
        call_ensures(PanelIdentity::canonical_token_hash, (&journal.identity,), hash),
        call_ensures(text::u64_text, (journal.identity.channel_id,), channel),
        call_ensures(text::u64_padded, (stamp.revision, 20usize), revision),
        call_ensures(ChannelJournal::channel_dir, (&journal,), dir),
        call_ensures(ChannelJournal::operation_path, (&journal, &stamp), path),
    ensures
        dir@ == provider@ + "/"@ + hash@ + "/"@ + channel@,
        path@ == dir@ + "/operations/"@ + revision@ + "-"@ + stamp.operation_id@ + ".json"@,
{
}

/// A reader is told what is stored, that nothing is, or why it could not be read; an operation
/// that needs something to be stored fails where nothing is.
pub proof fn law_reader_is_told_what_is_stored(
    journal: ChannelJournal,
    stored: Result<Option<ChannelSnapshot>, StoreError>,
    read: ReadOutcome<ChannelSnapshot>,
    required: Result<ChannelSnapshot, StoreError>,
    bind: ReadOutcome<JournalOwnedBind>,
    target: WriteTarget,
    stage: WriteStage,
    failing: ChannelJournal,
)
    requires
        call_ensures(ChannelJournal::load, (&journal, stored), read),
        call_ensures(ChannelJournal::require_locked, (&journal, stored), required),
        call_ensures(ChannelJournal::recover_bind_authorization, (&journal, stored), bind),
        call_ensures(ChannelJournal::with_failpoint, (journal, target, stage), failing),
    ensures
        match stored {
            Ok(Some(held)) => read == ReadOutcome::Present(held) && required is Ok
                && required->Ok_0 == held && !(bind is DurabilityFailure),
            Ok(None) => read is Missing && required is Err && required->Err_0 is InvariantViolation
                && bind is Missing,
            Err(error) => read == ReadOutcome::<ChannelSnapshot>::DurabilityFailure(error)
                && required is Err && required->Err_0 == error && bind == ReadOutcome::<
                JournalOwnedBind,
            >::DurabilityFailure(error),
        },
        failing.identity@ == journal.identity@,
        failing.failpoint is Some,
        failing.failpoint->0.target == target,
        failing.failpoint->0.stage == stage,
{
}

// ---------------------------------------------------------------------------
// Plans and candidates
// ---------------------------------------------------------------------------
/// A plan has a turn, and replaces no message with the number zero. A candidate has such a
/// plan, a message and a generation, and does not replace its own message.
pub proof fn law_valid_plans_have_numbers(
    plan: PanelPlan,
    candidate: Candidate,
    plan_valid: bool,
    candidate_valid: bool,
)
    requires
        candidate.plan == plan,
        call_ensures(PanelPlan::is_valid, (&plan,), plan_valid),
        call_ensures(Candidate::is_valid, (&candidate,), candidate_valid),
    ensures
        plan_valid <==> plan.turn_id > 0 && (plan.expected_prior_message_id matches Some(prior)
            ==> prior > 0),
        candidate_valid <==> plan_valid && candidate.message_id > 0 && candidate.generation > 0 && (
        plan.expected_prior_message_id matches Some(prior) ==> prior != candidate.message_id),
{
}

/// Identities, plans, candidates and panels are the same when all that they hold is.
pub proof fn law_same_means_every_part(
    a: Candidate,
    b: Candidate,
    same_identity: bool,
    same_plan: bool,
    same_candidate: bool,
    same_panel: bool,
    provider_a: &str,
    provider_b: &str,
    hash_a: &str,
    hash_b: &str,
)
    requires
        call_ensures(PanelIdentity::same, (&a.plan.identity, &b.plan.identity), same_identity),
        call_ensures(PanelPlan::same, (&a.plan, &b.plan), same_plan),
        call_ensures(Candidate::same, (&a, &b), same_candidate),
        call_ensures(
            BoundPanel::same,
            (&BoundPanel { candidate: a }, &BoundPanel { candidate: b }),
            same_panel,
        ),
        call_ensures(PanelIdentity::provider, (&a.plan.identity,), provider_a),
        call_ensures(PanelIdentity::provider, (&b.plan.identity,), provider_b),
        call_ensures(PanelIdentity::canonical_token_hash, (&a.plan.identity,), hash_a),
        call_ensures(PanelIdentity::canonical_token_hash, (&b.plan.identity,), hash_b),
    ensures
        same_identity <==> provider_a@ == provider_b@ && hash_a@ == hash_b@
            && a.plan.identity.channel_id == b.plan.identity.channel_id,
        same_plan <==> same_identity && a.plan.turn_id == b.plan.turn_id
            && a.plan.expected_prior_message_id == b.plan.expected_prior_message_id,
        same_candidate <==> same_plan && a.message_id == b.message_id && a.generation
            == b.generation,
        same_panel == same_candidate,
{
    assert(a@.plan == a.plan@ && b@.plan == b.plan@);
    assert(a.plan@.identity == a.plan.identity@ && b.plan@.identity == b.plan.identity@);
}

/// Stamps and authorizations are the same when all that they hold is.
pub proof fn law_same_stamp_means_every_part(
    a: OperationStamp,
    b: OperationStamp,
    same: bool,
    made: OperationStamp,
    operation: PreparedOperation,
    revision: u64,
)
    requires
        call_ensures(OperationStamp::same, (&a, &b), same),
        call_ensures(PreparedOperation::stamp, (&operation, revision), made),
    ensures
        same <==> a.operation_id@ == b.operation_id@ && a.owner_nonce@ == b.owner_nonce@ && a.digest@
            == b.digest@ && a.revision == b.revision,
        made.operation_id@ == operation.operation_id@,
        made.owner_nonce@ == operation.owner_nonce@,
        made.digest@ == operation.digest@,
        made.revision == revision,
{
    assert(a@.revision == a.revision && b@.revision == b.revision);
    assert(made@.revision == made.revision);
}

/// What is kept for a replay is the same when it is of one kind and holds the same digest and
/// the same observation.
pub proof fn law_same_replay_means_every_part(a: ReplayMetadata, b: ReplayMetadata, same: bool)
    requires
        call_ensures(ReplayMetadata::same, (&a, &b), same),
    ensures
        same <==> match a {
            ReplayMetadata::Prepared => b is Prepared,
            ReplayMetadata::BindAuthorized => b is BindAuthorized,
            ReplayMetadata::Bound { bind_digest } => (b matches ReplayMetadata::Bound {
                bind_digest: other,
            } && other@ == bind_digest@),
            ReplayMetadata::RetireAuthorized => b is RetireAuthorized,
            ReplayMetadata::Retired { retire_digest, observation } => (
            b matches ReplayMetadata::Retired { retire_digest: other, observation: seen } && other@
                == retire_digest@ && seen == observation),
            ReplayMetadata::Quarantined => b is Quarantined,
        },
{
}

/// Authorizations are the same when their stamps are, and what they are for.
pub proof fn law_same_authorization_means_every_part(
    a: JournalOwnedBind,
    b: JournalOwnedBind,
    same: bool,
    id_a: &str,
    id_b: &str,
    nonce_a: &str,
    nonce_b: &str,
    digest_a: &str,
    digest_b: &str,
    revision_a: u64,
    revision_b: u64,
    held_a: &Candidate,
    held_b: &Candidate,
    same_held: bool,
)
    requires
        call_ensures(JournalOwnedBind::same, (&a, &b), same),
        call_ensures(JournalOwnedBind::operation_id, (&a,), id_a),
        call_ensures(JournalOwnedBind::operation_id, (&b,), id_b),
        call_ensures(JournalOwnedBind::owner_nonce, (&a,), nonce_a),
        call_ensures(JournalOwnedBind::owner_nonce, (&b,), nonce_b),
        call_ensures(JournalOwnedBind::digest, (&a,), digest_a),
        call_ensures(JournalOwnedBind::digest, (&b,), digest_b),
        call_ensures(JournalOwnedBind::revision, (&a,), revision_a),
        call_ensures(JournalOwnedBind::revision, (&b,), revision_b),
        call_ensures(JournalOwnedBind::candidate, (&a,), held_a),
        call_ensures(JournalOwnedBind::candidate, (&b,), held_b),
        call_ensures(Candidate::same, (held_a, held_b), same_held),
    ensures
        same <==> id_a@ == id_b@ && nonce_a@ == nonce_b@ && digest_a@ == digest_b@ && revision_a
            == revision_b && same_held,
{
}

/// Authorizations to delete are the same when their stamps are, the panel and the message.
pub proof fn law_same_retirement_means_every_part(
    a: JournalOwnedRetire,
    b: JournalOwnedRetire,
    same: bool,
    id_a: &str,
    id_b: &str,
    nonce_a: &str,
    nonce_b: &str,
    digest_a: &str,
    digest_b: &str,
    revision_a: u64,
    revision_b: u64,
    panel_a: &BoundPanel,
    panel_b: &BoundPanel,
    same_panel: bool,
    message_a: u64,
    message_b: u64,
)
    requires
        call_ensures(JournalOwnedRetire::same, (&a, &b), same),
        call_ensures(JournalOwnedRetire::operation_id, (&a,), id_a),
        call_ensures(JournalOwnedRetire::operation_id, (&b,), id_b),
        call_ensures(JournalOwnedRetire::owner_nonce, (&a,), nonce_a),
        call_ensures(JournalOwnedRetire::owner_nonce, (&b,), nonce_b),
        call_ensures(JournalOwnedRetire::digest, (&a,), digest_a),
        call_ensures(JournalOwnedRetire::digest, (&b,), digest_b),
        call_ensures(JournalOwnedRetire::revision, (&a,), revision_a),
        call_ensures(JournalOwnedRetire::revision, (&b,), revision_b),
        call_ensures(JournalOwnedRetire::panel, (&a,), panel_a),
        call_ensures(JournalOwnedRetire::panel, (&b,), panel_b),
        call_ensures(BoundPanel::same, (panel_a, panel_b), same_panel),
        call_ensures(JournalOwnedRetire::delete_message_id, (&a,), message_a),
        call_ensures(JournalOwnedRetire::delete_message_id, (&b,), message_b),
    ensures
        same <==> id_a@ == id_b@ && nonce_a@ == nonce_b@ && digest_a@ == digest_b@ && revision_a
            == revision_b && same_panel && message_a == message_b,
{
}

// ---------------------------------------------------------------------------
// What may be asked for at all
// ---------------------------------------------------------------------------
/// What may be asked for: a valid plan of the channel; a message for it that is a valid
/// candidate and has two revisions left; a bind whose digest is that of its candidate; and a
/// deletion of the message that the panel replaced, and of no other.
pub proof fn law_requests_are_admitted_in_order(
    journal: ChannelJournal,
    plan: PanelPlan,
    admits_plan: bool,
    plan_valid: bool,
    own_plan: bool,
    operation: PreparedOperation,
    message_id: u64,
    candidate: Candidate,
    candidate_valid: bool,
    own_operation: bool,
    admits_sent: bool,
    bind: JournalOwnedBind,
    held: &Candidate,
    genuine: bool,
    bind_revision: u64,
    admits_bind: bool,
)
    requires
        call_ensures(ChannelJournal::admits_prepare, (&journal, &plan), admits_plan),
        call_ensures(PanelPlan::is_valid, (&plan,), plan_valid),
        call_ensures(PanelIdentity::same, (&plan.identity, &journal.identity), own_plan),
        candidate.plan == operation.plan,
        candidate.message_id == message_id,
        candidate.generation == operation.generation,
        call_ensures(Candidate::is_valid, (&candidate,), candidate_valid),
        call_ensures(
            PanelIdentity::same,
            (&operation.plan.identity, &journal.identity),
            own_operation,
        ),
        call_ensures(
            ChannelJournal::admits_record_sent,
            (&journal, &operation, message_id),
            admits_sent,
        ),
        call_ensures(JournalOwnedBind::candidate, (&bind,), held),
        call_ensures(JournalOwnedBind::matches_candidate, (&bind, held), genuine),
        call_ensures(JournalOwnedBind::revision, (&bind,), bind_revision),
        call_ensures(ChannelJournal::admits_commit_bind, (&journal, &bind), admits_bind),
    ensures
        admits_plan <==> plan_valid && own_plan,
        admits_sent <==> candidate_valid && own_operation && operation.expected_revision + 2
            <= u64::MAX,
        admits_bind <==> genuine && bind_revision + 1 <= u64::MAX,
{
}

/// A deletion may be authorized when the panel replaced a message other than its own; what was
/// observed of it may be recorded when the authorization is for that message and says so.
pub proof fn law_deletions_are_admitted_in_order(
    journal: ChannelJournal,
    bound: model::BoundOperation,
    admits_retire: bool,
    retire: JournalOwnedRetire,
    panel: &BoundPanel,
    observation: DeleteObservation,
    genuine: bool,
    revision: u64,
    admits_delete: bool,
    message: u64,
    id: &str,
    nonce: &str,
    own: &str,
    expected: String,
)
    requires
        call_ensures(ChannelJournal::admits_authorize_retire, (&journal, &bound), admits_retire),
        call_ensures(JournalOwnedRetire::panel, (&retire,), panel),
        call_ensures(JournalOwnedRetire::matches_panel, (&retire, panel), genuine),
        call_ensures(JournalOwnedRetire::revision, (&retire,), revision),
        call_ensures(
            ChannelJournal::admits_delete_observation,
            (&journal, &retire, observation),
            admits_delete,
        ),
        call_ensures(JournalOwnedRetire::delete_message_id, (&retire,), message),
        call_ensures(JournalOwnedRetire::operation_id, (&retire,), id),
        call_ensures(JournalOwnedRetire::owner_nonce, (&retire,), nonce),
        call_ensures(JournalOwnedRetire::digest, (&retire,), own),
        call_ensures(digest::retire_digest, (id, nonce, panel, message), expected),
    ensures
        admits_retire <==> (bound.panel.candidate.plan.expected_prior_message_id matches Some(prior)
            && prior > 0 && prior != bound.panel.candidate.message_id && bound.revision < u64::MAX),
        genuine <==> message > 0 && message != panel.candidate.message_id
            && panel.candidate.plan.expected_prior_message_id == Some(message) && own@ == expected@,
        observation is Forbidden403 || observation is Transient ==> admits_delete == genuine,
        observation is Deleted || observation is NotFound404 || observation is UnknownMessage10008
            ==> admits_delete == (genuine && revision < u64::MAX),
{
    assert(panel@.message_id == panel.candidate.message_id);
    assert(panel@.plan.prior == panel.candidate.plan.expected_prior_message_id);
}

/// A bind is for a candidate when it holds that candidate and its digest is the candidate's.
pub proof fn law_bind_is_for_its_candidate(
    bind: JournalOwnedBind,
    candidate: Candidate,
    held: &Candidate,
    same: bool,
    id: &str,
    nonce: &str,
    own: &str,
    expected: String,
    r: bool,
)
    requires
        call_ensures(JournalOwnedBind::matches_candidate, (&bind, &candidate), r),
        call_ensures(JournalOwnedBind::candidate, (&bind,), held),
        call_ensures(Candidate::same, (held, &candidate), same),
        call_ensures(JournalOwnedBind::operation_id, (&bind,), id),
        call_ensures(JournalOwnedBind::owner_nonce, (&bind,), nonce),
        call_ensures(JournalOwnedBind::digest, (&bind,), own),
        call_ensures(digest::bind_digest, (id, nonce, &candidate), expected),
    ensures
        r <==> same && own@ == expected@,
{
}

// ---------------------------------------------------------------------------
// Digests
// ---------------------------------------------------------------------------
/// A frame is the domain, and behind it each part with its length in front.
pub proof fn law_frame_grows_by_length_and_part(
    domain: &[u8],
    parts: Vec<Vec<u8>>,
    last: Vec<u8>,
    longer: Vec<Vec<u8>>,
    before: Vec<u8>,
    after: Vec<u8>,
    length: Vec<u8>,
)
    requires
        longer@ == parts@.push(last),
        call_ensures(bytes::frame, (domain, &parts), before),
        call_ensures(bytes::frame, (domain, &longer), after),
        call_ensures(bytes::be_bytes, (last@.len() as u64,), length),
    ensures
        after@ == before@ + length@ + last@,
        parts@.len() == 0 ==> before@ == domain@,
{
    let all = bytes::parts_view(longer@);
    assert(all.drop_last() =~= bytes::parts_view(parts@));
    assert(all.last() == last@);
}

/// A digest is that of the frame behind the journal's own domain.
pub proof fn law_digest_is_of_the_frame(parts: Vec<Vec<u8>>, framed: Vec<u8>, domain: &[u8], out: String)
    requires
        domain@ == encode_utf8("agentdesk.status-panel-journal.v2\0"@),
        call_ensures(bytes::frame, (domain, &parts), framed),
        call_ensures(digest::digest, (&parts,), out),
    ensures
        out@ == hashing::blake3_hex(framed@),
{
}

/// A number is eight bytes, the highest first.
pub proof fn law_number_is_eight_bytes(n: u64, out: Vec<u8>)
    requires
        call_ensures(bytes::be_bytes, (n,), out),
    ensures
        out@.len() == 8,
        out@[0] == n / 0x100000000000000,
        out@[1] == (n / 0x1000000000000) % 0x100,
        out@[2] == (n / 0x10000000000) % 0x100,
        out@[3] == (n / 0x100000000) % 0x100,
        out@[4] == (n / 0x1000000) % 0x100,
        out@[5] == (n / 0x10000) % 0x100,
        out@[6] == (n / 0x100) % 0x100,
        out@[7] == n % 0x100,
{
}

/// The parts that stand for a candidate's plan in a digest, with the operation in front.
pub open spec fn plan_body(
    id: Seq<char>,
    nonce: Seq<char>,
    candidate: Candidate,
    provider: Seq<char>,
    hash: Seq<char>,
) -> Seq<Seq<u8>> {
    seq![
        encode_utf8(id),
        encode_utf8(nonce),
        encode_utf8(provider),
        encode_utf8(hash),
        bytes::be64(candidate.plan.identity.channel_id),
        bytes::be64(candidate.plan.turn_id),
        bytes::be64(candidate.generation),
    ] + match candidate.plan.expected_prior_message_id {
        Some(prior) => seq![seq![1u8], bytes::be64(prior)],
        None => seq![seq![0u8], bytes::be64(0)],
    }
}

/// The digest of a plan goes over its tag, the operation, the whole plan and the generation.
pub proof fn law_prepare_digest_goes_over_the_plan(
    id: &str,
    nonce: &str,
    candidate: Candidate,
    provider: &str,
    hash: &str,
    out: String,
    parts: Vec<Vec<u8>>,
    expected: String,
)
    requires
        call_ensures(PanelIdentity::provider, (&candidate.plan.identity,), provider),
        call_ensures(PanelIdentity::canonical_token_hash, (&candidate.plan.identity,), hash),
        bytes::parts_view(parts@) == seq![encode_utf8("prepare"@)] + plan_body(
            id@,
            nonce@,
            candidate,
            provider@,
            hash@,
        ),
        call_ensures(digest::digest, (&parts,), expected),
        call_ensures(
            digest::prepare_digest,
            (id, nonce, &candidate.plan, candidate.generation),
            out,
        ),
    ensures
        out@ == expected@,
{
    assert(digest::prepare_parts(id@, nonce@, candidate.plan@, candidate.generation)
        =~= bytes::parts_view(parts@));
}

/// The digest of a bind goes over its tag, the operation, the whole plan, the generation and
/// the message.
pub proof fn law_bind_digest_goes_over_the_candidate(
    id: &str,
    nonce: &str,
    candidate: Candidate,
    provider: &str,
    hash: &str,
    out: String,
    parts: Vec<Vec<u8>>,
    expected: String,
)
    requires
        call_ensures(PanelIdentity::provider, (&candidate.plan.identity,), provider),
        call_ensures(PanelIdentity::canonical_token_hash, (&candidate.plan.identity,), hash),
        bytes::parts_view(parts@) == seq![encode_utf8("bind_authorized"@)] + plan_body(
            id@,
            nonce@,
            candidate,
            provider@,
            hash@,
        ) + seq![bytes::be64(candidate.message_id)],
        call_ensures(digest::digest, (&parts,), expected),
        call_ensures(digest::bind_digest, (id, nonce, &candidate), out),
    ensures
        out@ == expected@,
{
    assert(digest::bind_parts(id@, nonce@, candidate@) =~= bytes::parts_view(parts@));
}

/// The digest of a commit goes over the operation and the digest of the bind.
pub proof fn law_commit_digest_goes_over_the_bind(
    id: &str,
    nonce: &str,
    earlier: &str,
    out: String,
    parts: Vec<Vec<u8>>,
    expected: String,
)
    requires
        bytes::parts_view(parts@) == seq![
            encode_utf8("bound"@),
            encode_utf8(id@),
            encode_utf8(nonce@),
            encode_utf8(earlier@),
        ],
        call_ensures(digest::digest, (&parts,), expected),
        call_ensures(digest::bound_digest, (id, nonce, earlier), out),
    ensures
        out@ == expected@,
{
    assert(digest::bound_parts(id@, nonce@, earlier@) =~= bytes::parts_view(parts@));
}

/// The digest of an authorized retirement goes over the operation, both messages and the
/// generation.
pub proof fn law_retire_digest_goes_over_both_messages(
    id: &str,
    nonce: &str,
    panel: BoundPanel,
    message: u64,
    out: String,
    parts: Vec<Vec<u8>>,
    expected: String,
)
    requires
        bytes::parts_view(parts@) == seq![
            encode_utf8("retire_authorized"@),
            encode_utf8(id@),
            encode_utf8(nonce@),
            bytes::be64(panel.candidate.message_id),
            bytes::be64(message),
            bytes::be64(panel.candidate.generation),
        ],
        call_ensures(digest::digest, (&parts,), expected),
        call_ensures(digest::retire_digest, (id, nonce, &panel, message), out),
    ensures
        out@ == expected@,
{
    assert(digest::retire_parts(id@, nonce@, panel@, message) =~= bytes::parts_view(parts@));
}

/// The digest of a retirement goes over the operation, the digest of what authorized it, and
/// what was observed.
pub proof fn law_retired_digest_goes_over_what_was_observed(
    id: &str,
    nonce: &str,
    earlier: &str,
    observation: DeleteObservation,
    code: &str,
    out: String,
    parts: Vec<Vec<u8>>,
    expected: String,
)
    requires
        match observation {
            DeleteObservation::Deleted => code@ == "deleted"@,
            DeleteObservation::NotFound404 => code@ == "404"@,
            DeleteObservation::UnknownMessage10008 => code@ == "10008"@,
            DeleteObservation::Forbidden403 => code@ == "403"@,
            DeleteObservation::Transient => code@ == "transient"@,
        },
        bytes::parts_view(parts@) == seq![
            encode_utf8("retired"@),
            encode_utf8(id@),
            encode_utf8(nonce@),
            encode_utf8(earlier@),
            encode_utf8(code@),
        ],
        call_ensures(digest::digest, (&parts,), expected),
        call_ensures(digest::retired_digest, (id, nonce, earlier, observation), out),
    ensures
        out@ == expected@,
{
    assert(digest::retired_parts(id@, nonce@, earlier@, observation) =~= bytes::parts_view(parts@));
}

/// An identifier is thirty-two digits and a digest sixty-four, from 0 to 9 and from a to f.
pub proof fn law_ids_and_digests_are_hex(value: &str, id: bool, full: bool, hex32: bool, hex64: bool)
    requires
        call_ensures(digest::valid_id, (value,), id),
        call_ensures(digest::valid_digest, (value,), full),
        call_ensures(text::is_lower_hex_of_len, (value, 32usize), hex32),
        call_ensures(text::is_lower_hex_of_len, (value, 64usize), hex64),
    ensures
        id == hex32,
        full == hex64,
{
}

// ---------------------------------------------------------------------------
// Records
// ---------------------------------------------------------------------------
/// A record is written with all that the snapshot and the channel hold, in the second layout.
pub proof fn law_record_holds_the_snapshot(
    journal: ChannelJournal,
    snapshot: ChannelSnapshot,
    provider: &str,
    hash: &str,
    wire: ChannelWire,
)
    requires
        call_ensures(PanelIdentity::provider, (&journal.identity,), provider),
        call_ensures(PanelIdentity::canonical_token_hash, (&journal.identity,), hash),
        call_ensures(ChannelJournal::persist_locked, (&journal, &snapshot), wire),
    ensures
        wire.schema_version == 2,
        wire.provider@ == provider@,
        wire.canonical_token_hash@ == hash@,
        wire.channel_id == journal.identity.channel_id,
        wire.revision == snapshot.revision,
        wire.channel_generation == snapshot.channel_generation,
        wire.current_singleton_message_id == snapshot.current_singleton_message_id,
        wire.last_operation@ == snapshot.last_operation@,
        wire.replay@ == snapshot.replay@,
        match snapshot.state {
            JournalState::Prepared { plan, generation } => wire.state == (StateWire::Prepared {
                turn_id: plan.turn_id,
                expected_prior_message_id: plan.expected_prior_message_id,
                generation,
            }),
            JournalState::BindAuthorized { candidate, .. } => wire.state == (
            StateWire::BindAuthorized {
                turn_id: candidate.plan.turn_id,
                expected_prior_message_id: candidate.plan.expected_prior_message_id,
                message_id: candidate.message_id,
                generation: candidate.generation,
            }),
            JournalState::Bound { panel } => wire.state == (StateWire::Bound {
                turn_id: panel.candidate.plan.turn_id,
                expected_prior_message_id: panel.candidate.plan.expected_prior_message_id,
                message_id: panel.candidate.message_id,
                generation: panel.candidate.generation,
            }),
            JournalState::RetireAuthorized { panel, .. } => {
                panel.candidate.plan.expected_prior_message_id matches Some(prior) ==> wire.state
                    == (StateWire::RetireAuthorized {
                    turn_id: panel.candidate.plan.turn_id,
                    expected_prior_message_id: prior,
                    message_id: panel.candidate.message_id,
                    generation: panel.candidate.generation,
                })
            },
            JournalState::Retired { panel, .. } => {
                panel.candidate.plan.expected_prior_message_id matches Some(prior) ==> wire.state
                    == (StateWire::Retired {
                    turn_id: panel.candidate.plan.turn_id,
                    expected_prior_message_id: prior,
                    message_id: panel.candidate.message_id,
                    generation: panel.candidate.generation,
                })
            },
            JournalState::Failed => wire.state is Quarantined,
            JournalState::Quarantined { .. } => wire.state is Quarantined,
        },
{
    assert(wire@.schema_version == wire.schema_version);
    assert(wire@.identity == journal.identity@);
    assert(wire@.revision == snapshot.revision);
}

/// A record that is taken is of the second layout and of the channel, has a revision and a
/// generation, and a stamp of that revision with hexadecimal names; the snapshot is what it
/// holds.
pub proof fn law_taken_record_is_in_order(
    wire: ChannelWire,
    identity: PanelIdentity,
    provider: &str,
    hash: &str,
    snapshot: ChannelSnapshot,
)
    requires
        call_ensures(PanelIdentity::provider, (&identity,), provider),
        call_ensures(PanelIdentity::canonical_token_hash, (&identity,), hash),
        call_ensures(ChannelWire::into_snapshot, (wire, &identity), Ok(snapshot)),
    ensures
        wire.schema_version == 2,
        wire.provider@ == provider@,
        wire.canonical_token_hash@ == hash@,
        wire.channel_id == identity.channel_id,
        wire.revision > 0,
        wire.channel_generation > 0,
        wire.last_operation.revision == wire.revision,
        wire.last_operation.operation_id@.len() == 32,
        wire.last_operation.owner_nonce@.len() == 32,
        wire.last_operation.digest@.len() == 64,
        text::is_lower_hex(wire.last_operation.operation_id@),
        text::is_lower_hex(wire.last_operation.owner_nonce@),
        text::is_lower_hex(wire.last_operation.digest@),
        snapshot.revision == wire.revision,
        snapshot.channel_generation == wire.channel_generation,
        snapshot.current_singleton_message_id == wire.current_singleton_message_id,
        snapshot.last_operation@ == wire.last_operation@,
        snapshot.replay@ == wire.replay@,
{
    assert(wire@.identity == identity@);
    assert(snapshot@.revision == snapshot.revision);
    assert(wire@.last_operation == wire.last_operation@);
}

/// What a taken record is about: its turn, its messages and its generation are those of the
/// state, they are valid, and a panel that is shown is the channel's own.
pub proof fn law_taken_state_is_in_order(
    wire: ChannelWire,
    identity: PanelIdentity,
    snapshot: ChannelSnapshot,
)
    requires
        call_ensures(ChannelWire::into_snapshot, (wire, &identity), Ok(snapshot)),
    ensures
        match wire.state {
            StateWire::Prepared { turn_id, expected_prior_message_id, generation } => {
                &&& turn_id > 0
                &&& expected_prior_message_id != Some(0u64)
                &&& generation == wire.channel_generation
                &&& wire.replay is Prepared
                &&& snapshot.state matches JournalState::Prepared { plan, generation: held }
                &&& plan.turn_id == turn_id && plan.expected_prior_message_id
                    == expected_prior_message_id && plan.identity@ == identity@ && held
                    == generation
            },
            StateWire::BindAuthorized {
                turn_id,
                expected_prior_message_id,
                message_id,
                generation,
            } => {
                &&& turn_id > 0
                &&& message_id > 0
                &&& expected_prior_message_id != Some(0u64)
                &&& expected_prior_message_id != Some(message_id)
                &&& generation == wire.channel_generation
                &&& wire.replay is BindAuthorized
                &&& snapshot.state matches JournalState::BindAuthorized { candidate, authorization }
                &&& candidate.message_id == message_id && candidate.plan.turn_id == turn_id
                    && candidate.plan.expected_prior_message_id == expected_prior_message_id
                    && candidate.plan.identity@ == identity@ && candidate.generation == generation
                &&& authorization@.candidate == candidate@ && authorization@.digest
                    == wire.last_operation.digest@ && authorization@.revision == wire.revision
            },
            StateWire::Bound { turn_id, expected_prior_message_id, message_id, generation } => {
                &&& turn_id > 0
                &&& message_id > 0
                &&& expected_prior_message_id != Some(0u64)
                &&& expected_prior_message_id != Some(message_id)
                &&& generation == wire.channel_generation
                &&& wire.current_singleton_message_id == Some(message_id)
                &&& wire.replay is Bound
                &&& snapshot.state matches JournalState::Bound { panel }
                &&& panel.candidate.message_id == message_id && panel.candidate.plan.turn_id
                    == turn_id && panel.candidate.plan.expected_prior_message_id
                    == expected_prior_message_id && panel.candidate.plan.identity@ == identity@
                    && panel.candidate.generation == generation
            },
            StateWire::RetireAuthorized {
                turn_id,
                expected_prior_message_id,
                message_id,
                generation,
            } => {
                &&& turn_id > 0
                &&& message_id > 0
                &&& expected_prior_message_id > 0
                &&& expected_prior_message_id != message_id
                &&& generation == wire.channel_generation
                &&& wire.current_singleton_message_id == Some(message_id)
                &&& wire.replay is RetireAuthorized
                &&& snapshot.state matches JournalState::RetireAuthorized { panel, authorization }
                &&& panel.candidate.message_id == message_id && panel.candidate.plan.turn_id
                    == turn_id && panel.candidate.plan.expected_prior_message_id == Some(
                    expected_prior_message_id,
                ) && panel.candidate.plan.identity@ == identity@ && panel.candidate.generation
                    == generation
                &&& authorization@.panel == panel@ && authorization@.delete_message_id
                    == expected_prior_message_id && authorization@.digest
                    == wire.last_operation.digest@ && authorization@.revision == wire.revision
            },
            StateWire::Retired { turn_id, expected_prior_message_id, message_id, generation } => {
                &&& turn_id > 0
                &&& message_id > 0
                &&& expected_prior_message_id > 0
                &&& expected_prior_message_id != message_id
                &&& generation == wire.channel_generation
                &&& wire.current_singleton_message_id == Some(message_id)
                &&& wire.replay is Retired
                &&& snapshot.state matches JournalState::Retired { panel, retired_message_id }
                &&& panel.candidate.message_id == message_id && panel.candidate.plan.turn_id
                    == turn_id && panel.candidate.plan.expected_prior_message_id == Some(
                    expected_prior_message_id,
                ) && panel.candidate.plan.identity@ == identity@ && panel.candidate.generation
                    == generation && retired_message_id == expected_prior_message_id
            },
            StateWire::Quarantined => wire.replay is Quarantined && snapshot.state is Quarantined,
        },
{
    assert(wire@.replay == wire.replay@);
    assert(wire@.singleton == wire.current_singleton_message_id);
    assert(snapshot@.state == snapshot.state@);
}

/// A record is taken only under the digest of the step that leads to its state: an altered one
/// is refused, and so is one whose stamp belongs to another step.
pub proof fn law_altered_record_is_refused(
    wire: ChannelWire,
    identity: PanelIdentity,
    r: Result<ChannelSnapshot, StoreError>,
    plan: PanelPlan,
    candidate: Candidate,
    id: &str,
    nonce: &str,
    earlier: &str,
    observation: DeleteObservation,
    prepared: String,
    bind: String,
    bound: String,
    retired: String,
)
    requires
        call_ensures(ChannelWire::into_snapshot, (wire, &identity), r),
        plan.identity@ == identity@,
        candidate.plan@ == plan@,
        id@ == wire.last_operation.operation_id@,
        nonce@ == wire.last_operation.owner_nonce@,
        call_ensures(
            digest::prepare_digest,
            (id, nonce, &plan, candidate.generation),
            prepared,
        ),
        call_ensures(digest::bind_digest, (id, nonce, &candidate), bind),
        call_ensures(digest::bound_digest, (id, nonce, earlier), bound),
        call_ensures(digest::retired_digest, (id, nonce, earlier, observation), retired),
    ensures
        r matches Err(error) ==> error is InvariantViolation,
        wire.state == (StateWire::Prepared {
            turn_id: plan.turn_id,
            expected_prior_message_id: plan.expected_prior_message_id,
            generation: candidate.generation,
        }) && r is Ok ==> wire.last_operation.digest@ == prepared@,
        wire.state == (StateWire::BindAuthorized {
            turn_id: plan.turn_id,
            expected_prior_message_id: plan.expected_prior_message_id,
            message_id: candidate.message_id,
            generation: candidate.generation,
        }) && r is Ok ==> wire.last_operation.digest@ == bind@,
        wire.state is Bound && r is Ok && (wire.replay matches ReplayMetadata::Bound { bind_digest }
            && bind_digest@ == earlier@) ==> wire.last_operation.digest@ == bound@,
        wire.state is Retired && r is Ok && (wire.replay matches ReplayMetadata::Retired {
            retire_digest,
            observation: seen,
        } && retire_digest@ == earlier@ && seen == observation) ==> wire.last_operation.digest@
            == retired@,
{
    assert(wire@.replay == wire.replay@);
    assert(wire@.last_operation == wire.last_operation@);
    assert(plan@.identity == identity@);
    assert(candidate@.plan == plan@);
}

// ---------------------------------------------------------------------------
// Authorizations
// ---------------------------------------------------------------------------
/// An authorization that is made for a candidate or a panel is for it, and says so; with
/// another candidate put into it, it is for that one and does not say so any more, unless the
/// digests of both are the same.
pub proof fn law_made_authorizations_are_genuine(
    candidate: Candidate,
    other: Candidate,
    bind: JournalOwnedBind,
    changed: JournalOwnedBind,
    panel: BoundPanel,
    message: u64,
    retire: JournalOwnedRetire,
    genuine: bool,
    still: bool,
    same: bool,
    own: &str,
    id: &str,
    nonce: &str,
    expected: String,
    deletes: bool,
    deleted: u64,
)
    requires
        call_ensures(bind_authorization_for_test, (candidate,), bind),
        call_ensures(JournalOwnedBind::matches_candidate, (&bind, &candidate), genuine),
        call_ensures(mutate_bind_authorization_for_test, (bind, other), changed),
        call_ensures(JournalOwnedBind::matches_candidate, (&changed, &other), still),
        call_ensures(JournalOwnedBind::matches_candidate, (&changed, &candidate), same),
        call_ensures(JournalOwnedBind::digest, (&changed,), own),
        call_ensures(JournalOwnedBind::operation_id, (&changed,), id),
        call_ensures(JournalOwnedBind::owner_nonce, (&changed,), nonce),
        call_ensures(digest::bind_digest, (id, nonce, &other), expected),
        call_ensures(retire_authorization_for_test, (panel, message), retire),
        call_ensures(JournalOwnedRetire::matches_panel, (&retire, &panel), deletes),
        call_ensures(JournalOwnedRetire::delete_message_id, (&retire,), deleted),
    ensures
        genuine,
        bind@.revision == 2,
        changed@.revision == 2,
        still <==> own@ == expected@,
        candidate@ != other@ ==> !same,
        own@ == bind@.digest,
        deleted == message,
        retire@.revision == 4,
        deletes <==> message > 0 && message != panel.candidate.message_id
            && panel.candidate.plan.expected_prior_message_id == Some(message),
{
    assert(panel@.message_id == panel.candidate.message_id);
    assert(panel@.plan.prior == panel.candidate.plan.expected_prior_message_id);
}

/// A fixed identity holds the names and the channel that it is given. Two optional messages
/// are the same when both are there and agree, or neither is there.
pub proof fn law_fixed_identity_is_read_back(
    provider: &str,
    hash: &str,
    channel_id: u64,
    fifth: &str,
    identity: PanelIdentity,
    name: &str,
    token: &str,
    a: Option<u64>,
    b: Option<u64>,
    same: bool,
)
    requires
        call_ensures(identity_for_test, (provider, hash, channel_id, fifth), identity),
        call_ensures(PanelIdentity::provider, (&identity,), name),
        call_ensures(PanelIdentity::canonical_token_hash, (&identity,), token),
        call_ensures(model::same_message, (a, b), same),
    ensures
        name@ == provider@,
        token@ == hash@,
        identity.channel_id == channel_id,
        same <==> match a {
            Some(x) => b is Some && b->0 == x,
            None => b is None,
        },
{
    assert(identity@.channel_id == identity.channel_id);
}

} // verus!
