//! What identifies a card: the key of its event, the scope that the key lives in,
//! and the nonce under which Discord receives it.

use vstd::prelude::*;

use crate::bytes;
use crate::hashing;
use crate::text;

verus! {

/// The kind of a task, by which its notification is routed.
#[derive(Debug, Clone, Copy, PartialEq, Eq, Structural)]
pub enum TaskNotificationKind {
    Subagent,
    Background,
    MonitorAutoTurn,
}

// ---------------------------------------------------------------------------
// Fingerprints
// ---------------------------------------------------------------------------
/// The parts in UTF-8, each with a zero byte behind it.
pub open spec fn terminated(parts: Seq<Seq<char>>) -> Seq<u8>
    decreases parts.len(),
{
    if parts.len() == 0 {
        Seq::empty()
    } else {
        terminated(parts.drop_last()) + vstd::utf8::encode_utf8(parts.last()) + seq![0u8]
    }
}

/// The fingerprint of a list of parts.
pub open spec fn fingerprint_of(parts: Seq<Seq<char>>) -> Seq<char> {
    hashing::sha256_hex(terminated(parts))
}

/// The fingerprint of a list of parts, in 64 hexadecimal digits.
pub fn full_fingerprint(parts: &Vec<String>) -> (out: String)
    ensures
        out@ == fingerprint_of(text::texts(parts@)),
        out@.len() == 64,
        text::is_lower_hex(out@),
{
    let mut input: Vec<u8> = Vec::new();
    let ghost all = text::texts(parts@);
    let mut i: usize = 0;
    assert(input@ =~= terminated(all.take(0)));
    while i < parts.len()
        invariant
            i <= parts@.len(),
            all == text::texts(parts@),
            input@ == terminated(all.take(i as int)),
        decreases parts@.len() - i,
    {
        let ghost before = input@;
        bytes::append(&mut input, parts[i].as_str().as_bytes());
        input.push(0u8);
        proof {
            let next = all.take(i + 1);
            assert(next.drop_last() =~= all.take(i as int));
            assert(next.last() == parts@[i as int]@);
            assert(input@ =~= before + vstd::utf8::encode_utf8(next.last()) + seq![0u8]);
        }
        i += 1;
    }
    assert(all.take(i as int) =~= all);
    hashing::sha256_digest(input.as_slice())
}

/// The first 16 digits of the fingerprint of a list of parts.
pub fn fingerprint(parts: &Vec<String>) -> (out: String)
    ensures
        out@ == fingerprint_of(text::texts(parts@)).take(16),
        out@.len() == 16,
        text::is_lower_hex(out@),
{
    let full = full_fingerprint(parts);
    let head = full.as_str().substring_char(0, 16);
    assert(head@ =~= full@.take(16));
    head.to_owned()
}

/// The fingerprint of the content of a card.
pub fn content_hash(content: &str) -> (out: String)
    ensures
        out@ == fingerprint_of(seq![content@]),
        out@.len() == 64,
        text::is_lower_hex(out@),
{
    let mut parts: Vec<String> = Vec::new();
    parts.push(content.to_owned());
    assert(text::texts(parts@) =~= seq![content@]);
    full_fingerprint(&parts)
}

// ---------------------------------------------------------------------------
// Cleaning
// ---------------------------------------------------------------------------
/// `value` on one line. Its terminal controls have been stripped.
pub fn clean_line(value: &str) -> (out: String)
    ensures
        out@ == text::one_line(value@),
{
    text::squeeze(value)
}

/// What is left of an optional text on one line, if anything is.
pub open spec fn cleaned(value: Option<Seq<char>>) -> Option<Seq<char>> {
    match value {
        Some(value) => if text::one_line(value).len() > 0 {
            Some(text::one_line(value))
        } else {
            None
        },
        None => None,
    }
}

/// The text of an optional slice.
pub open spec fn slice_text(value: Option<&str>) -> Option<Seq<char>> {
    match value {
        Some(value) => Some(value@),
        None => None,
    }
}

/// What is left of an optional text on one line, if anything is.
pub fn clean_optional(value: Option<&str>) -> (out: Option<String>)
    ensures
        text::opt_text(out) == cleaned(slice_text(value)),
{
    match value {
        Some(value) => {
            let line = clean_line(value);
            if line.as_str().is_empty() {
                None
            } else {
                Some(line)
            }
        },
        None => None,
    }
}

/// What is left of a text on one line, if anything is.
pub fn clean_owned(value: String) -> (out: Option<String>)
    ensures
        text::opt_text(out) == cleaned(Some(value@)),
{
    clean_optional(Some(value.as_str()))
}

/// The slice of an optional string.
pub fn opt_slice(value: &Option<String>) -> (out: Option<&str>)
    ensures
        slice_text(out) == text::opt_text(*value),
{
    match value {
        Some(value) => Some(value.as_str()),
        None => None,
    }
}

// ---------------------------------------------------------------------------
// Event keys
// ---------------------------------------------------------------------------
/// An optional text that is not blank.
pub open spec fn nonblank(value: Option<Seq<char>>) -> bool {
    value matches Some(value) && !text::is_blank(value)
}

/// The key of an event: by its task if it names one, else by its tool use, else by
/// what it says.
pub open spec fn event_key_of(
    task_id: Option<Seq<char>>,
    tool_use_id: Option<Seq<char>>,
    payload_fingerprint: Seq<char>,
) -> Seq<char> {
    if nonblank(task_id) {
        "task:"@ + fingerprint_of(seq![task_id->0]).take(16)
    } else if nonblank(tool_use_id) {
        "tool:"@ + fingerprint_of(seq![tool_use_id->0]).take(16)
    } else {
        "payload:"@ + payload_fingerprint
    }
}

fn tagged(tag: &str, value: &str) -> (out: String)
    ensures
        out@ == tag@ + value@,
{
    let mut out: String = tag.to_owned();
    out.append(value);
    out
}

fn one_part(value: &str) -> (out: Vec<String>)
    ensures
        text::texts(out@) == seq![value@],
{
    let mut out: Vec<String> = Vec::new();
    out.push(value.to_owned());
    assert(text::texts(out@) =~= seq![value@]);
    out
}

/// The key of an event: by its task if it names one, else by its tool use, else by
/// what it says.
pub fn semantic_event_key(
    task_id: Option<&str>,
    tool_use_id: Option<&str>,
    payload_fingerprint: &str,
) -> (out: String)
    ensures
        out@ == event_key_of(slice_text(task_id), slice_text(tool_use_id), payload_fingerprint@),
{
    if let Some(id) = task_id {
        if !text::blank(id) {
            return tagged("task:", fingerprint(&one_part(id)).as_str());
        }
    }
    if let Some(id) = tool_use_id {
        if !text::blank(id) {
            return tagged("tool:", fingerprint(&one_part(id)).as_str());
        }
    }
    tagged("payload:", payload_fingerprint)
}

/// An optional text on one line; nothing is an empty line.
pub open spec fn line_or_empty(value: Option<Seq<char>>) -> Seq<char> {
    match value {
        Some(value) => text::one_line(value),
        None => Seq::empty(),
    }
}

/// The fingerprint of what a notification says.
pub open spec fn payload_fingerprint_of(
    task_id: Option<Seq<char>>,
    tool_use_id: Option<Seq<char>>,
    status: Seq<char>,
    summary: Seq<char>,
) -> Seq<char> {
    fingerprint_of(
        seq![
            line_or_empty(task_id),
            line_or_empty(tool_use_id),
            text::one_line(status),
            text::one_line(summary),
        ],
    ).take(16)
}

fn line_of(value: Option<&str>) -> (out: String)
    ensures
        out@ == line_or_empty(slice_text(value)),
{
    match value {
        Some(value) => clean_line(value),
        None => String::new(),
    }
}

/// The fingerprint of what a notification says.
pub fn normalized_task_payload_fingerprint(
    task_id: Option<&str>,
    tool_use_id: Option<&str>,
    status: &str,
    summary: &str,
) -> (out: String)
    ensures
        out@ == payload_fingerprint_of(
            slice_text(task_id),
            slice_text(tool_use_id),
            status@,
            summary@,
        ),
{
    let mut parts: Vec<String> = Vec::new();
    parts.push(line_of(task_id));
    parts.push(line_of(tool_use_id));
    parts.push(clean_line(status));
    parts.push(clean_line(summary));
    assert(text::texts(parts@) =~= seq![
        line_or_empty(slice_text(task_id)),
        line_or_empty(slice_text(tool_use_id)),
        text::one_line(status@),
        text::one_line(summary@),
    ]);
    fingerprint(&parts)
}

// ---------------------------------------------------------------------------
// Scopes
// ---------------------------------------------------------------------------
/// A provider's name as it is stored.
pub open spec fn provider_name(provider: Seq<char>) -> Seq<char> {
    text::ascii_lower(text::trimmed(provider))
}

/// A provider's name as it is stored: trimmed, in lower case.
pub fn normalized_provider(provider: &str) -> (out: String)
    ensures
        out@ == provider_name(provider@),
{
    text::to_ascii_lower(text::trim(provider))
}

/// Where a card belongs: the event of a session of a provider in a channel.
#[derive(Debug, PartialEq, Eq)]
pub struct TaskCardScope {
    pub channel_id: u64,
    pub provider: String,
    pub session_key: String,
    pub event_key: String,
    /// What identifies the provider's own entry for the event. It tells replays
    /// apart and takes no part in the identity of the card.
    pub terminal_delivery_fingerprint: Option<String>,
}

pub struct ScopeView {
    pub channel_id: u64,
    pub provider: Seq<char>,
    pub session_key: Seq<char>,
    pub event_key: Seq<char>,
}

impl View for TaskCardScope {
    type V = ScopeView;

    /// The identity of the card.
    open spec fn view(&self) -> ScopeView {
        ScopeView {
            channel_id: self.channel_id,
            provider: self.provider@,
            session_key: self.session_key@,
            event_key: self.event_key@,
        }
    }
}

impl TaskCardScope {
    pub fn new(channel_id: u64, provider: &str, session_key: &str, event_key: &str) -> (out: Self)
        ensures
            out@ == (ScopeView {
                channel_id,
                provider: provider_name(provider@),
                session_key: session_key@,
                event_key: event_key@,
            }),
            out.terminal_delivery_fingerprint is None,
    {
        TaskCardScope {
            channel_id,
            provider: normalized_provider(provider),
            session_key: session_key.to_owned(),
            event_key: event_key.to_owned(),
            terminal_delivery_fingerprint: None,
        }
    }

    /// The same scope with the fingerprint of the provider's entry.
    pub fn with_terminal_delivery_fingerprint(self, fingerprint: String) -> (out: Self)
        ensures
            out@ == self@,
            text::opt_text(out.terminal_delivery_fingerprint) == Some(fingerprint@),
    {
        TaskCardScope {
            channel_id: self.channel_id,
            provider: self.provider,
            session_key: self.session_key,
            event_key: self.event_key,
            terminal_delivery_fingerprint: Some(fingerprint),
        }
    }

    /// Whether two scopes are those of one card.
    pub fn same_card(&self, other: &TaskCardScope) -> (r: bool)
        ensures
            r == (self@ == other@),
    {
        self.channel_id == other.channel_id && self.provider == other.provider && self.session_key
            == other.session_key && self.event_key == other.event_key
    }
}

/// The scope of an event, with the fingerprint of the provider's entry where it is
/// known.
pub fn source_bound_scope(
    channel_id: u64,
    provider: &str,
    session_key: &str,
    event_key: String,
    terminal_delivery_fingerprint: Option<String>,
) -> (out: TaskCardScope)
    ensures
        out@ == (ScopeView {
            channel_id,
            provider: provider_name(provider@),
            session_key: session_key@,
            event_key: event_key@,
        }),
        text::opt_text(out.terminal_delivery_fingerprint) == text::opt_text(
            terminal_delivery_fingerprint,
        ),
{
    let scope = TaskCardScope::new(channel_id, provider, session_key, event_key.as_str());
    match terminal_delivery_fingerprint {
        Some(fingerprint) => scope.with_terminal_delivery_fingerprint(fingerprint),
        None => scope,
    }
}

/// The fingerprint of a provider's own entry for an event.
pub open spec fn source_fingerprint(provider: Seq<char>, source_event_id: Seq<char>) -> Seq<char> {
    fingerprint_of(seq!["task-terminal-source-v1"@, provider_name(provider), source_event_id])
}

/// The fingerprint of a provider's own entry for an event.
pub fn terminal_source_fingerprint(provider: &str, source_event_id: &str) -> (out: String)
    ensures
        out@ == source_fingerprint(provider@, source_event_id@),
        out@.len() == 64,
{
    let mut parts: Vec<String> = Vec::new();
    parts.push("task-terminal-source-v1".to_owned());
    parts.push(normalized_provider(provider));
    parts.push(source_event_id.to_owned());
    assert(text::texts(parts@) =~= seq![
        "task-terminal-source-v1"@,
        provider_name(provider@),
        source_event_id@,
    ]);
    full_fingerprint(&parts)
}

/// The key of a provider's own bot.
pub fn provider_bot_key(provider: &str) -> (out: String)
    ensures
        out@ == "provider:"@ + provider_name(provider@),
{
    tagged("provider:", normalized_provider(provider).as_str())
}

// ---------------------------------------------------------------------------
// Nonces and turn keys
// ---------------------------------------------------------------------------
/// The parts that a card's nonce is made of.
pub open spec fn nonce_parts(scope: ScopeView, revision: int) -> Seq<Seq<char>> {
    seq![
        "task-card-nonce-v1"@,
        text::decimal(scope.channel_id as nat),
        scope.provider,
        scope.session_key,
        scope.event_key,
        text::signed_decimal(revision),
    ]
}

/// The nonce under which Discord receives a revision of a card: 25 characters, the
/// most that Discord takes.
pub fn stable_nonce(scope: &TaskCardScope, revision: i32) -> (out: String)
    ensures
        out@ == "adktn"@ + fingerprint_of(nonce_parts(scope@, revision as int)).take(20),
        out@.len() == 25,
        text::is_lower_hex(out@.skip(5)),
{
    let mut parts: Vec<String> = Vec::new();
    parts.push("task-card-nonce-v1".to_owned());
    parts.push(text::u64_text(scope.channel_id));
    parts.push(scope.provider.clone());
    parts.push(scope.session_key.clone());
    parts.push(scope.event_key.clone());
    parts.push(text::i32_text(revision));
    assert(text::texts(parts@) =~= nonce_parts(scope@, revision as int));
    let digest = full_fingerprint(&parts);
    let head = digest.as_str().substring_char(0, 20);
    assert(head@ =~= digest@.take(20));
    proof {
        reveal_strlit("adktn");
    }
    let out = tagged("adktn", head);
    assert(out@.skip(5) =~= head@);
    out
}

/// The parts that the key of a response's turn is made of.
pub open spec fn turn_key_parts(
    user_msg_id: u64,
    started_at: Seq<char>,
    turn_start_offset: Option<u64>,
) -> Seq<Seq<char>> {
    seq![
        "task-response-turn-v1"@,
        text::decimal(user_msg_id as nat),
        started_at,
        match turn_start_offset {
            Some(offset) => text::decimal(offset as nat),
            None => "legacy-none"@,
        },
    ]
}

/// The key of the turn that a response belongs to.
pub fn response_turn_key(user_msg_id: u64, started_at: &str, turn_start_offset: Option<u64>) -> (out:
    String)
    ensures
        out@ == fingerprint_of(turn_key_parts(user_msg_id, started_at@, turn_start_offset)),
        out@.len() == 64,
        text::is_lower_hex(out@),
{
    let mut parts: Vec<String> = Vec::new();
    parts.push("task-response-turn-v1".to_owned());
    parts.push(text::u64_text(user_msg_id));
    parts.push(started_at.to_owned());
    let offset = match turn_start_offset {
        Some(offset) => text::u64_text(offset),
        None => "legacy-none".to_owned(),
    };
    parts.push(offset);
    assert(text::texts(parts@) =~= turn_key_parts(user_msg_id, started_at@, turn_start_offset));
    full_fingerprint(&parts)
}

// ---------------------------------------------------------------------------
// Marker sessions
// ---------------------------------------------------------------------------
/// The session of the marker for a background task that is shown in the footer.
pub open spec fn footer_marker_key(channel_id: u64, event_key: Seq<char>) -> Seq<char> {
    "footer_background:ch:"@ + text::decimal(channel_id as nat) + ":"@ + event_key
}

/// The session of the marker for a background task that is shown in the footer.
pub fn footer_background_marker_session_key(channel_id: u64, event_key: &str) -> (out: String)
    ensures
        out@ == footer_marker_key(channel_id, event_key@),
{
    let mut out: String = "footer_background:ch:".to_owned();
    out.append(text::u64_text(channel_id).as_str());
    out.append(":");
    out.append(event_key);
    out
}

/// The session of the marker for a task of a kind, if the kind has markers.
pub open spec fn marker_key(
    channel_id: u64,
    event_key: Seq<char>,
    kind: TaskNotificationKind,
) -> Option<Seq<char>> {
    match kind {
        TaskNotificationKind::Background => Some(footer_marker_key(channel_id, event_key)),
        TaskNotificationKind::MonitorAutoTurn => Some(
            "monitor_auto_turn:ch:"@ + text::decimal(channel_id as nat) + ":event:"@ + event_key,
        ),
        TaskNotificationKind::Subagent => None,
    }
}

/// The session of the marker for a task of a kind, if the kind has markers.
pub fn task_notification_marker_session_key(
    channel_id: u64,
    event_key: &str,
    kind: TaskNotificationKind,
) -> (out: Option<String>)
    ensures
        text::opt_text(out) == marker_key(channel_id, event_key@, kind),
{
    match kind {
        TaskNotificationKind::Background => Some(
            footer_background_marker_session_key(channel_id, event_key),
        ),
        TaskNotificationKind::MonitorAutoTurn => {
            let mut out: String = "monitor_auto_turn:ch:".to_owned();
            out.append(text::u64_text(channel_id).as_str());
            out.append(":event:");
            out.append(event_key);
            Some(out)
        },
        TaskNotificationKind::Subagent => None,
    }
}

} // verus!
