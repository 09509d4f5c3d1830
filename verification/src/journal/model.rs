//! The values that the journal stores and hands out, with their views.

use vstd::prelude::*;

use crate::text;

verus! {

// ---------------------------------------------------------------------------
// Errors and outcomes
// ---------------------------------------------------------------------------
/// The steps of an atomic file write, in order.
#[derive(Debug, Clone, Copy, PartialEq, Eq, Structural)]
pub enum WriteStage {
    CreateTemp,
    WriteAll,
    SyncFile,
    Rename,
    SyncParent,
}

/// Why the journal could not be read or written.
#[derive(Debug, Clone, Copy, PartialEq, Eq)]
pub enum StoreError {
    InvalidPathComponent(&'static str),
    SymlinkRejected,
    UnexpectedFileType,
    LockFailed,
    ReadFailed,
    MalformedRecord,
    InvariantViolation,
    WriteFailed(WriteStage),
}

/// What reading the journal gives.
#[derive(Debug, PartialEq, Eq)]
pub enum ReadOutcome<T> {
    Present(T),
    Missing,
    DurabilityFailure(StoreError),
}

/// What a journal operation answers.
#[derive(Debug, PartialEq, Eq)]
pub enum Mutation<T> {
    /// The operation was stored now.
    Applied(T),
    /// The very same operation had been stored before.
    Replayed(T),
    /// Another operation has moved the journal on.
    Stale,
    DurabilityFailure(StoreError),
}

/// What Discord answered to the deletion of a message.
#[derive(Debug, Clone, Copy, PartialEq, Eq, Structural)]
pub enum DeleteObservation {
    Deleted,
    NotFound404,
    UnknownMessage10008,
    Forbidden403,
    Transient,
}

/// What an observed deletion does to the authorization to delete.
#[derive(Debug, Clone, Copy, PartialEq, Eq, Structural)]
pub enum DeleteDisposition {
    Retired,
    RetainAuthorization,
}

// ---------------------------------------------------------------------------
// Identity
// ---------------------------------------------------------------------------
/// A name of one of the supported providers, which is safe as a path component: one of
/// the four that are always supported, or the fifth, which the deployment names.
pub open spec fn is_provider(name: Seq<char>, fifth: Seq<char>) -> bool {
    ||| name == "codex"@
    ||| name == "gemini"@
    ||| name == "opencode"@
    ||| name == "qwen"@
    ||| name == fifth && text::is_plain_name(name)
}

/// The token hashes that a journal path may name: `discord_` and 16 lowercase
/// hexadecimal digits.
pub open spec fn is_token_hash(name: Seq<char>) -> bool {
    &&& text::has_prefix(name, "discord_"@)
    &&& name.skip("discord_"@.len() as int).len() == 16
    &&& text::is_lower_hex(name.skip("discord_"@.len() as int))
}

/// A provider name that is safe as a path component.
#[derive(Debug, PartialEq, Eq)]
pub struct CanonicalProvider(String);

impl View for CanonicalProvider {
    type V = Seq<char>;

    closed spec fn view(&self) -> Seq<char> {
        self.0@
    }
}

impl Clone for CanonicalProvider {
    fn clone(&self) -> (out: Self)
        ensures
            out@ == self@,
    {
        CanonicalProvider(self.0.clone())
    }
}

impl CanonicalProvider {
    /// The provider named `value`, if it is supported. `fifth` is the provider that is
    /// supported beside the four fixed ones.
    pub fn parse(value: &str, fifth: &str) -> (r: Result<Self, StoreError>)
        ensures
            match r {
                Ok(provider) => is_provider(value@, fifth@) && provider@ == value@,
                Err(error) => error matches StoreError::InvalidPathComponent(what) && what@
                    == "provider"@ && !is_provider(value@, fifth@),
            },
    {
        if text::same_text(value, "codex") || text::same_text(value, "gemini")
            || text::same_text(value, "opencode") || text::same_text(value, "qwen") || (
        text::same_text(value, fifth) && text::plain_name(value)) {
            Ok(CanonicalProvider(value.to_owned()))
        } else {
            Err(StoreError::InvalidPathComponent("provider"))
        }
    }

    pub fn as_str(&self) -> (r: &str)
        ensures
            r@ == self@,
    {
        self.0.as_str()
    }
}

/// A bot-token hash that is safe as a path component.
#[derive(Debug, PartialEq, Eq)]
pub struct CanonicalTokenHash(String);

impl View for CanonicalTokenHash {
    type V = Seq<char>;

    closed spec fn view(&self) -> Seq<char> {
        self.0@
    }
}

impl Clone for CanonicalTokenHash {
    fn clone(&self) -> (out: Self)
        ensures
            out@ == self@,
    {
        CanonicalTokenHash(self.0.clone())
    }
}

impl CanonicalTokenHash {
    /// The token hash `value`, if it is `discord_` and 16 lowercase hexadecimal
    /// digits.
    pub fn parse(value: &str) -> (r: Result<Self, StoreError>)
        ensures
            match r {
                Ok(hash) => is_token_hash(value@) && hash@ == value@,
                Err(error) => error matches StoreError::InvalidPathComponent(what) && what@
                    == "canonical_token_hash"@ && !is_token_hash(value@),
            },
    {
        match text::strip_prefix(value, "discord_") {
            Some(suffix) => {
                if text::is_lower_hex_of_len(suffix, 16) {
                    Ok(CanonicalTokenHash(value.to_owned()))
                } else {
                    Err(StoreError::InvalidPathComponent("canonical_token_hash"))
                }
            },
            None => Err(StoreError::InvalidPathComponent("canonical_token_hash")),
        }
    }

    pub fn as_str(&self) -> (r: &str)
        ensures
            r@ == self@,
    {
        self.0.as_str()
    }
}

/// The channel of one bot that a journal belongs to.
#[derive(Debug, PartialEq, Eq)]
pub struct PanelIdentity {
    pub provider: CanonicalProvider,
    pub canonical_token_hash: CanonicalTokenHash,
    pub channel_id: u64,
}

pub struct IdentityView {
    pub provider: Seq<char>,
    pub token_hash: Seq<char>,
    pub channel_id: u64,
}

impl View for PanelIdentity {
    type V = IdentityView;

    open spec fn view(&self) -> IdentityView {
        IdentityView {
            provider: self.provider@,
            token_hash: self.canonical_token_hash@,
            channel_id: self.channel_id,
        }
    }
}

impl Clone for PanelIdentity {
    fn clone(&self) -> (out: Self)
        ensures
            out@ == self@,
    {
        PanelIdentity {
            provider: self.provider.clone(),
            canonical_token_hash: self.canonical_token_hash.clone(),
            channel_id: self.channel_id,
        }
    }
}

impl PanelIdentity {
    pub fn provider(&self) -> (r: &str)
        ensures
            r@ == self@.provider,
    {
        self.provider.as_str()
    }

    pub fn canonical_token_hash(&self) -> (r: &str)
        ensures
            r@ == self@.token_hash,
    {
        self.canonical_token_hash.as_str()
    }

    pub fn channel_id(&self) -> (r: u64)
        ensures
            r == self@.channel_id,
    {
        self.channel_id
    }

    /// Whether two identities name the same channel of the same bot.
    pub fn same(&self, other: &PanelIdentity) -> (r: bool)
        ensures
            r == (self@ == other@),
    {
        self.channel_id == other.channel_id && text::same_text(
            self.provider.as_str(),
            other.provider.as_str(),
        ) && text::same_text(
            self.canonical_token_hash.as_str(),
            other.canonical_token_hash.as_str(),
        )
    }
}

// ---------------------------------------------------------------------------
// Plans, candidates and bound panels
// ---------------------------------------------------------------------------
/// The intention to show a panel for a turn, in place of a prior message if there
/// is one.
#[derive(Debug, PartialEq, Eq)]
pub struct PanelPlan {
    pub identity: PanelIdentity,
    pub turn_id: u64,
    pub expected_prior_message_id: Option<u64>,
}

pub struct PlanView {
    pub identity: IdentityView,
    pub turn_id: u64,
    pub prior: Option<u64>,
}

impl PlanView {
    /// Message and turn numbers are never zero.
    pub open spec fn valid(self) -> bool {
        self.turn_id != 0 && self.prior != Some(0u64)
    }
}

impl View for PanelPlan {
    type V = PlanView;

    open spec fn view(&self) -> PlanView {
        PlanView {
            identity: self.identity@,
            turn_id: self.turn_id,
            prior: self.expected_prior_message_id,
        }
    }
}

impl Clone for PanelPlan {
    fn clone(&self) -> (out: Self)
        ensures
            out@ == self@,
    {
        PanelPlan {
            identity: self.identity.clone(),
            turn_id: self.turn_id,
            expected_prior_message_id: self.expected_prior_message_id,
        }
    }
}

/// Whether two optional message numbers are the same.
pub fn same_message(a: Option<u64>, b: Option<u64>) -> (r: bool)
    ensures
        r == (a == b),
{
    match (a, b) {
        (Some(x), Some(y)) => x == y,
        (None, None) => true,
        _ => false,
    }
}

impl PanelPlan {
    /// Whether the turn and the prior message have numbers other than zero.
    pub fn is_valid(&self) -> (r: bool)
        ensures
            r == self@.valid(),
    {
        self.turn_id != 0 && !same_message(self.expected_prior_message_id, Some(0))
    }

    /// Whether two plans are the same.
    pub fn same(&self, other: &PanelPlan) -> (r: bool)
        ensures
            r == (self@ == other@),
    {
        self.turn_id == other.turn_id && same_message(
            self.expected_prior_message_id,
            other.expected_prior_message_id,
        ) && self.identity.same(&other.identity)
    }
}

/// A sent message that may become the channel's panel.
#[derive(Debug, PartialEq, Eq)]
pub struct Candidate {
    pub plan: PanelPlan,
    pub message_id: u64,
    pub generation: u64,
}

pub struct CandidateView {
    pub plan: PlanView,
    pub message_id: u64,
    pub generation: u64,
}

impl CandidateView {
    /// A candidate carries a valid plan, and its message is neither nothing nor the
    /// message that it replaces.
    pub open spec fn valid(self) -> bool {
        &&& self.plan.valid()
        &&& self.message_id != 0
        &&& self.generation != 0
        &&& self.plan.prior != Some(self.message_id)
    }
}

impl View for Candidate {
    type V = CandidateView;

    open spec fn view(&self) -> CandidateView {
        CandidateView {
            plan: self.plan@,
            message_id: self.message_id,
            generation: self.generation,
        }
    }
}

impl Clone for Candidate {
    fn clone(&self) -> (out: Self)
        ensures
            out@ == self@,
    {
        Candidate {
            plan: self.plan.clone(),
            message_id: self.message_id,
            generation: self.generation,
        }
    }
}

impl Candidate {
    /// Whether the plan is valid and the message is neither nothing nor the message
    /// that it replaces.
    pub fn is_valid(&self) -> (r: bool)
        ensures
            r == self@.valid(),
    {
        self.plan.is_valid() && self.message_id != 0 && self.generation != 0 && !same_message(
            self.plan.expected_prior_message_id,
            Some(self.message_id),
        )
    }

    /// Whether two candidates are the same.
    pub fn same(&self, other: &Candidate) -> (r: bool)
        ensures
            r == (self@ == other@),
    {
        self.message_id == other.message_id && self.generation == other.generation
            && self.plan.same(&other.plan)
    }
}

/// The message that is the channel's panel.
#[derive(Debug, PartialEq, Eq)]
pub struct BoundPanel {
    pub candidate: Candidate,
}

impl View for BoundPanel {
    type V = CandidateView;

    open spec fn view(&self) -> CandidateView {
        self.candidate@
    }
}

impl Clone for BoundPanel {
    fn clone(&self) -> (out: Self)
        ensures
            out@ == self@,
    {
        BoundPanel { candidate: self.candidate.clone() }
    }
}

impl BoundPanel {
    /// Whether two panels are the same.
    pub fn same(&self, other: &BoundPanel) -> (r: bool)
        ensures
            r == (self@ == other@),
    {
        self.candidate.same(&other.candidate)
    }
}

// ---------------------------------------------------------------------------
// Operations
// ---------------------------------------------------------------------------
/// What identifies the operation that a stored snapshot came from.
#[derive(Debug, PartialEq, Eq)]
pub struct OperationStamp {
    pub operation_id: String,
    pub owner_nonce: String,
    pub digest: String,
    pub revision: u64,
}

pub struct StampView {
    pub operation_id: Seq<char>,
    pub owner_nonce: Seq<char>,
    pub digest: Seq<char>,
    pub revision: u64,
}

impl View for OperationStamp {
    type V = StampView;

    open spec fn view(&self) -> StampView {
        StampView {
            operation_id: self.operation_id@,
            owner_nonce: self.owner_nonce@,
            digest: self.digest@,
            revision: self.revision,
        }
    }
}

impl Clone for OperationStamp {
    fn clone(&self) -> (out: Self)
        ensures
            out@ == self@,
    {
        OperationStamp {
            operation_id: self.operation_id.clone(),
            owner_nonce: self.owner_nonce.clone(),
            digest: self.digest.clone(),
            revision: self.revision,
        }
    }
}

impl OperationStamp {
    pub fn new(operation_id: &str, owner_nonce: &str, digest: &str, revision: u64) -> (out: Self)
        ensures
            out@ == (StampView {
                operation_id: operation_id@,
                owner_nonce: owner_nonce@,
                digest: digest@,
                revision,
            }),
    {
        OperationStamp {
            operation_id: operation_id.to_owned(),
            owner_nonce: owner_nonce.to_owned(),
            digest: digest.to_owned(),
            revision,
        }
    }

    /// Whether two stamps are the same.
    pub fn same(&self, other: &OperationStamp) -> (r: bool)
        ensures
            r == (self@ == other@),
    {
        self.revision == other.revision && self.operation_id == other.operation_id
            && self.owner_nonce == other.owner_nonce && self.digest == other.digest
    }
}

/// What a snapshot keeps so that a repeated operation can be recognised.
#[derive(Debug, PartialEq, Eq)]
pub enum ReplayMetadata {
    Prepared,
    BindAuthorized,
    Bound { bind_digest: String },
    RetireAuthorized,
    Retired { retire_digest: String, observation: DeleteObservation },
    Quarantined,
}

pub enum ReplayView {
    Prepared,
    BindAuthorized,
    Bound { bind_digest: Seq<char> },
    RetireAuthorized,
    Retired { retire_digest: Seq<char>, observation: DeleteObservation },
    Quarantined,
}

impl View for ReplayMetadata {
    type V = ReplayView;

    open spec fn view(&self) -> ReplayView {
        match self {
            ReplayMetadata::Prepared => ReplayView::Prepared,
            ReplayMetadata::BindAuthorized => ReplayView::BindAuthorized,
            ReplayMetadata::Bound { bind_digest } => ReplayView::Bound {
                bind_digest: bind_digest@,
            },
            ReplayMetadata::RetireAuthorized => ReplayView::RetireAuthorized,
            ReplayMetadata::Retired { retire_digest, observation } => ReplayView::Retired {
                retire_digest: retire_digest@,
                observation: *observation,
            },
            ReplayMetadata::Quarantined => ReplayView::Quarantined,
        }
    }
}

impl Clone for ReplayMetadata {
    fn clone(&self) -> (out: Self)
        ensures
            out@ == self@,
    {
        match self {
            ReplayMetadata::Prepared => ReplayMetadata::Prepared,
            ReplayMetadata::BindAuthorized => ReplayMetadata::BindAuthorized,
            ReplayMetadata::Bound { bind_digest } => ReplayMetadata::Bound {
                bind_digest: bind_digest.clone(),
            },
            ReplayMetadata::RetireAuthorized => ReplayMetadata::RetireAuthorized,
            ReplayMetadata::Retired { retire_digest, observation } => ReplayMetadata::Retired {
                retire_digest: retire_digest.clone(),
                observation: *observation,
            },
            ReplayMetadata::Quarantined => ReplayMetadata::Quarantined,
        }
    }
}

impl ReplayMetadata {
    /// Whether two replay records are the same.
    pub fn same(&self, other: &ReplayMetadata) -> (r: bool)
        ensures
            r == (self@ == other@),
    {
        match (self, other) {
            (ReplayMetadata::Prepared, ReplayMetadata::Prepared) => true,
            (ReplayMetadata::BindAuthorized, ReplayMetadata::BindAuthorized) => true,
            (ReplayMetadata::Bound { bind_digest: a }, ReplayMetadata::Bound { bind_digest: b }) => *a
                == *b,
            (ReplayMetadata::RetireAuthorized, ReplayMetadata::RetireAuthorized) => true,
            (
                ReplayMetadata::Retired { retire_digest: a, observation: x },
                ReplayMetadata::Retired { retire_digest: b, observation: y },
            ) => *x == *y && *a == *b,
            (ReplayMetadata::Quarantined, ReplayMetadata::Quarantined) => true,
            _ => false,
        }
    }
}

/// A prepared transition, in the hands of the caller that prepared it.
#[derive(Debug, PartialEq, Eq)]
pub struct PreparedOperation {
    pub operation_id: String,
    pub owner_nonce: String,
    pub digest: String,
    pub expected_revision: u64,
    pub plan: PanelPlan,
    pub generation: u64,
}

pub struct PreparedView {
    pub operation_id: Seq<char>,
    pub owner_nonce: Seq<char>,
    pub digest: Seq<char>,
    pub expected_revision: u64,
    pub plan: PlanView,
    pub generation: u64,
}

impl PreparedView {
    /// The stamp of the operation at `revision`.
    pub open spec fn stamp(self, revision: u64) -> StampView {
        StampView {
            operation_id: self.operation_id,
            owner_nonce: self.owner_nonce,
            digest: self.digest,
            revision,
        }
    }
}

impl View for PreparedOperation {
    type V = PreparedView;

    open spec fn view(&self) -> PreparedView {
        PreparedView {
            operation_id: self.operation_id@,
            owner_nonce: self.owner_nonce@,
            digest: self.digest@,
            expected_revision: self.expected_revision,
            plan: self.plan@,
            generation: self.generation,
        }
    }
}

impl Clone for PreparedOperation {
    fn clone(&self) -> (out: Self)
        ensures
            out@ == self@,
    {
        PreparedOperation {
            operation_id: self.operation_id.clone(),
            owner_nonce: self.owner_nonce.clone(),
            digest: self.digest.clone(),
            expected_revision: self.expected_revision,
            plan: self.plan.clone(),
            generation: self.generation,
        }
    }
}

impl PreparedOperation {
    /// The stamp of the operation at `revision`.
    pub fn stamp(&self, revision: u64) -> (out: OperationStamp)
        ensures
            out@ == self@.stamp(revision),
    {
        OperationStamp::new(
            self.operation_id.as_str(),
            self.owner_nonce.as_str(),
            self.digest.as_str(),
            revision,
        )
    }
}

#[derive(Debug, Clone, Copy, PartialEq, Eq)]
struct AdapterSeal;

/// The authorization to bind a candidate. Only the journal makes one.
#[derive(Debug, PartialEq, Eq)]
pub struct JournalOwnedBind {
    pub operation_id: String,
    pub owner_nonce: String,
    pub digest: String,
    pub revision: u64,
    pub candidate: Candidate,
    seal: AdapterSeal,
}

pub struct BindView {
    pub operation_id: Seq<char>,
    pub owner_nonce: Seq<char>,
    pub digest: Seq<char>,
    pub revision: u64,
    pub candidate: CandidateView,
}

impl View for JournalOwnedBind {
    type V = BindView;

    closed spec fn view(&self) -> BindView {
        BindView {
            operation_id: self.operation_id@,
            owner_nonce: self.owner_nonce@,
            digest: self.digest@,
            revision: self.revision,
            candidate: self.candidate@,
        }
    }
}

impl Clone for JournalOwnedBind {
    fn clone(&self) -> (out: Self)
        ensures
            out@ == self@,
    {
        JournalOwnedBind {
            operation_id: self.operation_id.clone(),
            owner_nonce: self.owner_nonce.clone(),
            digest: self.digest.clone(),
            revision: self.revision,
            candidate: self.candidate.clone(),
            seal: AdapterSeal,
        }
    }
}

impl JournalOwnedBind {
    pub(crate) fn sealed(stamp: &OperationStamp, candidate: Candidate) -> (out: Self)
        ensures
            out@ == (BindView {
                operation_id: stamp@.operation_id,
                owner_nonce: stamp@.owner_nonce,
                digest: stamp@.digest,
                revision: stamp@.revision,
                candidate: candidate@,
            }),
    {
        JournalOwnedBind {
            operation_id: stamp.operation_id.clone(),
            owner_nonce: stamp.owner_nonce.clone(),
            digest: stamp.digest.clone(),
            revision: stamp.revision,
            candidate,
            seal: AdapterSeal,
        }
    }

    pub fn candidate(&self) -> (r: &Candidate)
        ensures
            r@ == self@.candidate,
    {
        &self.candidate
    }

    pub fn operation_id(&self) -> (r: &str)
        ensures
            r@ == self@.operation_id,
    {
        self.operation_id.as_str()
    }

    pub fn owner_nonce(&self) -> (r: &str)
        ensures
            r@ == self@.owner_nonce,
    {
        self.owner_nonce.as_str()
    }

    pub fn digest(&self) -> (r: &str)
        ensures
            r@ == self@.digest,
    {
        self.digest.as_str()
    }

    pub fn revision(&self) -> (r: u64)
        ensures
            r == self@.revision,
    {
        self.revision
    }

    /// Whether two authorizations are the same.
    pub fn same(&self, other: &JournalOwnedBind) -> (r: bool)
        ensures
            r == (self@ == other@),
    {
        self.revision == other.revision && self.operation_id == other.operation_id
            && self.owner_nonce == other.owner_nonce && self.digest == other.digest
            && self.candidate.same(&other.candidate)
    }
}

/// A committed bind, in the hands of the caller that committed it.
#[derive(Debug, PartialEq, Eq)]
pub struct BoundOperation {
    pub operation_id: String,
    pub owner_nonce: String,
    pub bind_digest: String,
    pub revision: u64,
    pub panel: BoundPanel,
}

pub struct BoundView {
    pub operation_id: Seq<char>,
    pub owner_nonce: Seq<char>,
    pub bind_digest: Seq<char>,
    pub revision: u64,
    pub panel: CandidateView,
}

impl View for BoundOperation {
    type V = BoundView;

    open spec fn view(&self) -> BoundView {
        BoundView {
            operation_id: self.operation_id@,
            owner_nonce: self.owner_nonce@,
            bind_digest: self.bind_digest@,
            revision: self.revision,
            panel: self.panel@,
        }
    }
}

/// The authorization to delete the message that a bound panel replaced. Only the
/// journal makes one.
#[derive(Debug, PartialEq, Eq)]
pub struct JournalOwnedRetire {
    pub operation_id: String,
    pub owner_nonce: String,
    pub digest: String,
    pub revision: u64,
    pub panel: BoundPanel,
    pub delete_message_id: u64,
    seal: AdapterSeal,
}

pub struct RetireView {
    pub operation_id: Seq<char>,
    pub owner_nonce: Seq<char>,
    pub digest: Seq<char>,
    pub revision: u64,
    pub panel: CandidateView,
    pub delete_message_id: u64,
}

impl View for JournalOwnedRetire {
    type V = RetireView;

    closed spec fn view(&self) -> RetireView {
        RetireView {
            operation_id: self.operation_id@,
            owner_nonce: self.owner_nonce@,
            digest: self.digest@,
            revision: self.revision,
            panel: self.panel@,
            delete_message_id: self.delete_message_id,
        }
    }
}

impl Clone for JournalOwnedRetire {
    fn clone(&self) -> (out: Self)
        ensures
            out@ == self@,
    {
        JournalOwnedRetire {
            operation_id: self.operation_id.clone(),
            owner_nonce: self.owner_nonce.clone(),
            digest: self.digest.clone(),
            revision: self.revision,
            panel: self.panel.clone(),
            delete_message_id: self.delete_message_id,
            seal: AdapterSeal,
        }
    }
}

impl JournalOwnedRetire {
    pub(crate) fn sealed(stamp: &OperationStamp, panel: BoundPanel, delete_message_id: u64) -> (out:
        Self)
        ensures
            out@ == (RetireView {
                operation_id: stamp@.operation_id,
                owner_nonce: stamp@.owner_nonce,
                digest: stamp@.digest,
                revision: stamp@.revision,
                panel: panel@,
                delete_message_id,
            }),
    {
        JournalOwnedRetire {
            operation_id: stamp.operation_id.clone(),
            owner_nonce: stamp.owner_nonce.clone(),
            digest: stamp.digest.clone(),
            revision: stamp.revision,
            panel,
            delete_message_id,
            seal: AdapterSeal,
        }
    }

    pub fn delete_message_id(&self) -> (r: u64)
        ensures
            r == self@.delete_message_id,
    {
        self.delete_message_id
    }

    pub fn panel(&self) -> (r: &BoundPanel)
        ensures
            r@ == self@.panel,
    {
        &self.panel
    }

    pub fn operation_id(&self) -> (r: &str)
        ensures
            r@ == self@.operation_id,
    {
        self.operation_id.as_str()
    }

    pub fn owner_nonce(&self) -> (r: &str)
        ensures
            r@ == self@.owner_nonce,
    {
        self.owner_nonce.as_str()
    }

    pub fn digest(&self) -> (r: &str)
        ensures
            r@ == self@.digest,
    {
        self.digest.as_str()
    }

    pub fn revision(&self) -> (r: u64)
        ensures
            r == self@.revision,
    {
        self.revision
    }

    /// Whether two authorizations are the same.
    pub fn same(&self, other: &JournalOwnedRetire) -> (r: bool)
        ensures
            r == (self@ == other@),
    {
        self.revision == other.revision && self.delete_message_id == other.delete_message_id
            && self.operation_id == other.operation_id && self.owner_nonce == other.owner_nonce
            && self.digest == other.digest && self.panel.same(&other.panel)
    }
}

// ---------------------------------------------------------------------------
// States and snapshots
// ---------------------------------------------------------------------------
/// Why a channel was quarantined.
#[derive(Debug, Clone, Copy, PartialEq, Eq, Structural)]
pub enum QuarantineReason {
    UnknownState,
}

/// Where the channel's panel transition stands.
#[allow(inconsistent_fields)]
#[derive(Debug, PartialEq, Eq)]
pub enum JournalState {
    Prepared { plan: PanelPlan, generation: u64 },
    BindAuthorized { candidate: Candidate, authorization: JournalOwnedBind },
    Bound { panel: BoundPanel },
    RetireAuthorized { panel: BoundPanel, authorization: JournalOwnedRetire },
    Retired { panel: BoundPanel, retired_message_id: u64 },
    Failed,
    Quarantined { reason: QuarantineReason },
}

#[allow(inconsistent_fields)]
pub enum StateView {
    Prepared { plan: PlanView, generation: u64 },
    BindAuthorized { candidate: CandidateView, authorization: BindView },
    Bound { panel: CandidateView },
    RetireAuthorized { panel: CandidateView, authorization: RetireView },
    Retired { panel: CandidateView, retired_message_id: u64 },
    Failed,
    Quarantined { reason: QuarantineReason },
}

impl View for JournalState {
    type V = StateView;

    open spec fn view(&self) -> StateView {
        match self {
            JournalState::Prepared { plan, generation } => StateView::Prepared {
                plan: plan@,
                generation: *generation,
            },
            JournalState::BindAuthorized { candidate, authorization } => StateView::BindAuthorized {
                candidate: candidate@,
                authorization: authorization@,
            },
            JournalState::Bound { panel } => StateView::Bound { panel: panel@ },
            JournalState::RetireAuthorized { panel, authorization } => StateView::RetireAuthorized {
                panel: panel@,
                authorization: authorization@,
            },
            JournalState::Retired { panel, retired_message_id } => StateView::Retired {
                panel: panel@,
                retired_message_id: *retired_message_id,
            },
            JournalState::Failed => StateView::Failed,
            JournalState::Quarantined { reason } => StateView::Quarantined { reason: *reason },
        }
    }
}

impl JournalState {
    pub fn prepared(plan: PanelPlan, generation: u64) -> (out: Self)
        ensures
            out@ == (StateView::Prepared { plan: plan@, generation }),
    {
        JournalState::Prepared { plan, generation }
    }
}

/// What the journal of a channel holds.
#[derive(Debug, PartialEq, Eq)]
pub struct ChannelSnapshot {
    pub revision: u64,
    pub channel_generation: u64,
    pub current_singleton_message_id: Option<u64>,
    pub state: JournalState,
    pub last_operation: OperationStamp,
    pub replay: ReplayMetadata,
}

pub struct SnapshotView {
    pub revision: u64,
    pub channel_generation: u64,
    pub singleton: Option<u64>,
    pub state: StateView,
    pub last_operation: StampView,
    pub replay: ReplayView,
}

impl View for ChannelSnapshot {
    type V = SnapshotView;

    open spec fn view(&self) -> SnapshotView {
        SnapshotView {
            revision: self.revision,
            channel_generation: self.channel_generation,
            singleton: self.current_singleton_message_id,
            state: self.state@,
            last_operation: self.last_operation@,
            replay: self.replay@,
        }
    }
}

} // verus!
