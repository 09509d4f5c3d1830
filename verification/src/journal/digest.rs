//! The digests by which the journal recognises its own operations.
//!
//! A digest covers a tag for the kind of operation, the operation's identifier and
//! nonce, and what the operation is about. The parts are framed with their
//! lengths, so two different lists of parts never give the hash the same input.

use vstd::prelude::*;
use vstd::utf8::encode_utf8;

use crate::bytes;
use crate::hashing;
use crate::journal::model::{
    BoundPanel, Candidate, DeleteObservation, JournalOwnedBind, JournalOwnedRetire, PanelPlan,
};
use crate::journal::model;
use crate::text;

verus! {

/// What the hash reads in front of the framed parts.
pub open spec fn digest_domain() -> Seq<u8> {
    encode_utf8("agentdesk.status-panel-journal.v2\0"@)
}

/// The digest of a list of parts.
pub open spec fn digest_of(parts: Seq<Seq<u8>>) -> Seq<char> {
    hashing::blake3_hex(bytes::framed(digest_domain(), parts))
}

/// The digest of a list of parts.
pub fn digest(parts: &Vec<Vec<u8>>) -> (out: String)
    ensures
        out@ == digest_of(bytes::parts_view(parts@)),
        is_digest(out@),
{
    let input = bytes::frame("agentdesk.status-panel-journal.v2\0".as_bytes(), parts);
    hashing::blake3_digest(input.as_slice())
}

/// An operation identifier or nonce: 32 lowercase hexadecimal digits.
pub open spec fn is_id(value: Seq<char>) -> bool {
    value.len() == 32 && text::is_lower_hex(value)
}

/// Whether `value` is 32 lowercase hexadecimal digits.
pub fn valid_id(value: &str) -> (r: bool)
    ensures
        r == is_id(value@),
{
    text::is_lower_hex_of_len(value, 32)
}

/// A digest: 64 lowercase hexadecimal digits.
pub open spec fn is_digest(value: Seq<char>) -> bool {
    value.len() == 64 && text::is_lower_hex(value)
}

/// Whether `value` is 64 lowercase hexadecimal digits.
pub fn valid_digest(value: &str) -> (r: bool)
    ensures
        r == is_digest(value@),
{
    text::is_lower_hex_of_len(value, 64)
}

/// What an optional message number is written as: a flag and a number.
pub open spec fn prior_parts(prior: Option<u64>) -> Seq<Seq<u8>> {
    match prior {
        Some(id) => seq![seq![1u8], bytes::be64(id)],
        None => seq![seq![0u8], bytes::be64(0)],
    }
}

/// The parts that stand for a plan and a generation.
pub open spec fn plan_part_list(plan: model::PlanView, generation: u64) -> Seq<Seq<u8>> {
    seq![
        encode_utf8(plan.identity.provider),
        encode_utf8(plan.identity.token_hash),
        bytes::be64(plan.identity.channel_id),
        bytes::be64(plan.turn_id),
        bytes::be64(generation),
    ] + prior_parts(plan.prior)
}

/// The parts that stand for a plan and a generation.
pub fn plan_parts(plan: &PanelPlan, generation: u64) -> (out: Vec<Vec<u8>>)
    ensures
        bytes::parts_view(out@) == plan_part_list(plan@, generation),
{
    let mut out: Vec<Vec<u8>> = Vec::new();
    out.push(bytes::text_bytes(plan.identity.provider()));
    out.push(bytes::text_bytes(plan.identity.canonical_token_hash()));
    out.push(bytes::be_bytes(plan.identity.channel_id()));
    out.push(bytes::be_bytes(plan.turn_id));
    out.push(bytes::be_bytes(generation));
    match plan.expected_prior_message_id {
        Some(id) => {
            let mut flag: Vec<u8> = Vec::new();
            flag.push(1u8);
            assert(flag@ =~= seq![1u8]);
            out.push(flag);
            out.push(bytes::be_bytes(id));
        },
        None => {
            let mut flag: Vec<u8> = Vec::new();
            flag.push(0u8);
            assert(flag@ =~= seq![0u8]);
            out.push(flag);
            out.push(bytes::be_bytes(0));
        },
    }
    assert(bytes::parts_view(out@) =~= plan_part_list(plan@, generation));
    out
}

/// The tag of an operation with its identifier and nonce.
pub open spec fn head_parts(tag: Seq<char>, operation_id: Seq<char>, nonce: Seq<char>) -> Seq<
    Seq<u8>,
> {
    seq![encode_utf8(tag), encode_utf8(operation_id), encode_utf8(nonce)]
}

fn head(tag: &str, operation_id: &str, nonce: &str) -> (out: Vec<Vec<u8>>)
    ensures
        bytes::parts_view(out@) == head_parts(tag@, operation_id@, nonce@),
{
    let mut out: Vec<Vec<u8>> = Vec::new();
    out.push(bytes::text_bytes(tag));
    out.push(bytes::text_bytes(operation_id));
    out.push(bytes::text_bytes(nonce));
    assert(bytes::parts_view(out@) =~= head_parts(tag@, operation_id@, nonce@));
    out
}

fn append_parts(out: &mut Vec<Vec<u8>>, more: Vec<Vec<u8>>)
    ensures
        bytes::parts_view(final(out)@) == bytes::parts_view(old(out)@) + bytes::parts_view(more@),
{
    let ghost before = out@;
    let ghost all = more@;
    let mut rest = more;
    out.append(&mut rest);
    assert(bytes::parts_view(before + all) =~= bytes::parts_view(before) + bytes::parts_view(all));
}

/// The parts of a prepared operation.
pub open spec fn prepare_parts(
    operation_id: Seq<char>,
    nonce: Seq<char>,
    plan: model::PlanView,
    generation: u64,
) -> Seq<Seq<u8>> {
    head_parts("prepare"@, operation_id, nonce) + plan_part_list(plan, generation)
}

/// The digest of a prepared operation.
pub fn prepare_digest(operation_id: &str, nonce: &str, plan: &PanelPlan, generation: u64) -> (out:
    String)
    ensures
        out@ == digest_of(prepare_parts(operation_id@, nonce@, plan@, generation)),
        is_digest(out@),
{
    let mut parts = head("prepare", operation_id, nonce);
    append_parts(&mut parts, plan_parts(plan, generation));
    digest(&parts)
}

/// The parts of an authorized bind.
pub open spec fn bind_parts(
    operation_id: Seq<char>,
    nonce: Seq<char>,
    candidate: model::CandidateView,
) -> Seq<Seq<u8>> {
    (head_parts("bind_authorized"@, operation_id, nonce) + plan_part_list(
        candidate.plan,
        candidate.generation,
    )).push(bytes::be64(candidate.message_id))
}

/// The digest of an authorized bind.
pub fn bind_digest(operation_id: &str, nonce: &str, candidate: &Candidate) -> (out: String)
    ensures
        out@ == digest_of(bind_parts(operation_id@, nonce@, candidate@)),
        is_digest(out@),
{
    let mut parts = head("bind_authorized", operation_id, nonce);
    append_parts(&mut parts, plan_parts(&candidate.plan, candidate.generation));
    let ghost before = parts@;
    parts.push(bytes::be_bytes(candidate.message_id));
    assert(bytes::parts_view(parts@) =~= bytes::parts_view(before).push(
        bytes::be64(candidate.message_id),
    ));
    digest(&parts)
}

/// The parts of a committed bind.
pub open spec fn bound_parts(
    operation_id: Seq<char>,
    nonce: Seq<char>,
    bind_digest: Seq<char>,
) -> Seq<Seq<u8>> {
    head_parts("bound"@, operation_id, nonce).push(encode_utf8(bind_digest))
}

/// The digest of the bind that commits an authorization with digest
/// `bind_digest`.
pub fn bound_digest(operation_id: &str, nonce: &str, bind_digest: &str) -> (out: String)
    ensures
        out@ == digest_of(bound_parts(operation_id@, nonce@, bind_digest@)),
        is_digest(out@),
{
    let mut parts = head("bound", operation_id, nonce);
    let ghost before = parts@;
    parts.push(bytes::text_bytes(bind_digest));
    assert(bytes::parts_view(parts@) =~= bytes::parts_view(before).push(encode_utf8(bind_digest@)));
    digest(&parts)
}

/// The digest of the bind that commits `authorization`.
pub fn commit_bind_digest(authorization: &JournalOwnedBind) -> (out: String)
    ensures
        out@ == digest_of(
            bound_parts(
                authorization@.operation_id,
                authorization@.owner_nonce,
                authorization@.digest,
            ),
        ),
        is_digest(out@),
{
    bound_digest(authorization.operation_id(), authorization.owner_nonce(), authorization.digest())
}

/// The parts of an authorized retirement.
pub open spec fn retire_parts(
    operation_id: Seq<char>,
    nonce: Seq<char>,
    panel: model::CandidateView,
    delete_message_id: u64,
) -> Seq<Seq<u8>> {
    head_parts("retire_authorized"@, operation_id, nonce) + seq![
        bytes::be64(panel.message_id),
        bytes::be64(delete_message_id),
        bytes::be64(panel.generation),
    ]
}

/// The digest of an authorized retirement.
pub fn retire_digest(
    operation_id: &str,
    nonce: &str,
    panel: &BoundPanel,
    delete_message_id: u64,
) -> (out: String)
    ensures
        out@ == digest_of(retire_parts(operation_id@, nonce@, panel@, delete_message_id)),
        is_digest(out@),
{
    let mut parts = head("retire_authorized", operation_id, nonce);
    let ghost before = parts@;
    parts.push(bytes::be_bytes(panel.candidate.message_id));
    parts.push(bytes::be_bytes(delete_message_id));
    parts.push(bytes::be_bytes(panel.candidate.generation));
    assert(bytes::parts_view(parts@) =~= bytes::parts_view(before) + seq![
        bytes::be64(panel@.message_id),
        bytes::be64(delete_message_id),
        bytes::be64(panel@.generation),
    ]);
    digest(&parts)
}

/// What an observed deletion is written as.
pub open spec fn observation_code(observation: DeleteObservation) -> Seq<char> {
    match observation {
        DeleteObservation::Deleted => "deleted"@,
        DeleteObservation::NotFound404 => "404"@,
        DeleteObservation::UnknownMessage10008 => "10008"@,
        DeleteObservation::Forbidden403 => "403"@,
        DeleteObservation::Transient => "transient"@,
    }
}

/// The parts of a retirement.
pub open spec fn retired_parts(
    operation_id: Seq<char>,
    nonce: Seq<char>,
    retire_digest: Seq<char>,
    observation: DeleteObservation,
) -> Seq<Seq<u8>> {
    head_parts("retired"@, operation_id, nonce) + seq![
        encode_utf8(retire_digest),
        encode_utf8(observation_code(observation)),
    ]
}

/// The digest of a retirement.
pub fn retired_digest(
    operation_id: &str,
    nonce: &str,
    retire_digest: &str,
    observation: DeleteObservation,
) -> (out: String)
    ensures
        out@ == digest_of(retired_parts(operation_id@, nonce@, retire_digest@, observation)),
        is_digest(out@),
{
    let code = match observation {
        DeleteObservation::Deleted => "deleted",
        DeleteObservation::NotFound404 => "404",
        DeleteObservation::UnknownMessage10008 => "10008",
        DeleteObservation::Forbidden403 => "403",
        DeleteObservation::Transient => "transient",
    };
    let mut parts = head("retired", operation_id, nonce);
    let ghost before = parts@;
    parts.push(bytes::text_bytes(retire_digest));
    parts.push(bytes::text_bytes(code));
    assert(bytes::parts_view(parts@) =~= bytes::parts_view(before) + seq![
        encode_utf8(retire_digest@),
        encode_utf8(observation_code(observation)),
    ]);
    digest(&parts)
}

/// The digest of the retirement that `observation` gives under `authorization`.
pub fn delete_digest(authorization: &JournalOwnedRetire, observation: DeleteObservation) -> (out:
    String)
    ensures
        out@ == digest_of(
            retired_parts(
                authorization@.operation_id,
                authorization@.owner_nonce,
                authorization@.digest,
                observation,
            ),
        ),
        is_digest(out@),
{
    retired_digest(
        authorization.operation_id(),
        authorization.owner_nonce(),
        authorization.digest(),
        observation,
    )
}

impl model::BindView {
    /// The authorization is for `candidate`, and its digest says so.
    pub open spec fn matches(self, candidate: model::CandidateView) -> bool {
        &&& self.candidate == candidate
        &&& self.digest == digest_of(bind_parts(self.operation_id, self.owner_nonce, candidate))
    }
}

impl JournalOwnedBind {
    /// Whether the authorization is for `candidate`, and its digest says so.
    pub fn matches_candidate(&self, candidate: &Candidate) -> (r: bool)
        ensures
            r == self@.matches(candidate@),
    {
        self.candidate().same(candidate) && text::same_text(
            self.digest(),
            bind_digest(self.operation_id(), self.owner_nonce(), candidate).as_str(),
        )
    }
}

impl model::RetireView {
    /// The authorization is for `panel`, it deletes the message that the panel
    /// replaced and no other, and its digest says so.
    pub open spec fn matches(self, panel: model::CandidateView) -> bool {
        &&& self.panel == panel
        &&& self.delete_message_id != 0
        &&& self.delete_message_id != panel.message_id
        &&& panel.plan.prior == Some(self.delete_message_id)
        &&& self.digest == digest_of(
            retire_parts(self.operation_id, self.owner_nonce, panel, self.delete_message_id),
        )
    }
}

impl JournalOwnedRetire {
    /// Whether the authorization is for `panel`, deletes the message that the panel
    /// replaced and no other, and its digest says so.
    pub fn matches_panel(&self, panel: &BoundPanel) -> (r: bool)
        ensures
            r == self@.matches(panel@),
    {
        self.panel().same(panel) && self.delete_message_id() != 0 && self.delete_message_id()
            != panel.candidate.message_id && model::same_message(
            panel.candidate.plan.expected_prior_message_id,
            Some(self.delete_message_id()),
        ) && text::same_text(
            self.digest(),
            retire_digest(
                self.operation_id(),
                self.owner_nonce(),
                panel,
                self.delete_message_id(),
            ).as_str(),
        )
    }
}

} // verus!
