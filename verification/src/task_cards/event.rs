//! The event that a card is about.

use vstd::prelude::*;

use crate::task_cards::identity::{
    clean_optional, fingerprint, normalized_task_payload_fingerprint, opt_slice,
    semantic_event_key, source_bound_scope, task_notification_marker_session_key,
    terminal_source_fingerprint, TaskCardScope, TaskNotificationKind,
};
use crate::task_cards::identity;
use crate::text;

verus! {

/// A task notification that was read out of a prompt or a stream, with its terminal
/// controls stripped.
#[derive(Debug, PartialEq, Eq)]
pub struct TaskNotification {
    pub task_id: Option<String>,
    pub tool_use_id: Option<String>,
    pub status: Option<String>,
    pub summary: Option<String>,
    pub kind: String,
    pub routing_kind: TaskNotificationKind,
}

pub struct NoteView {
    pub task_id: Option<Seq<char>>,
    pub tool_use_id: Option<Seq<char>>,
    pub status: Option<Seq<char>>,
    pub summary: Option<Seq<char>>,
    pub kind: Seq<char>,
    pub routing_kind: TaskNotificationKind,
}

impl View for TaskNotification {
    type V = NoteView;

    open spec fn view(&self) -> NoteView {
        NoteView {
            task_id: text::opt_text(self.task_id),
            tool_use_id: text::opt_text(self.tool_use_id),
            status: text::opt_text(self.status),
            summary: text::opt_text(self.summary),
            kind: self.kind@,
            routing_kind: self.routing_kind,
        }
    }
}

/// What a subagent's notification means.
#[derive(Debug, PartialEq, Eq)]
pub struct SubagentNotificationSemantic {
    pub task_id: Option<String>,
    pub tool_use_id: Option<String>,
    pub payload_fingerprint: String,
}

/// What a card shows.
#[derive(Debug, PartialEq, Eq)]
pub enum TaskCardPayload {
    Task(TaskNotification),
    /// The card of a subagent's notification, already written.
    Subagent(String),
}

/// What a card shows after `update_count` updates. `task_card` is the card of the
/// task notification, written for that count.
pub open spec fn rendered(
    payload: TaskCardPayload,
    update_count: u64,
    task_card: Seq<char>,
) -> Seq<char> {
    match payload {
        TaskCardPayload::Task(_) => task_card,
        TaskCardPayload::Subagent(card) => if update_count > 1 {
            card@ + "\n\n-# "@ + text::decimal(update_count as nat) + " updates"@
        } else {
            card@
        },
    }
}

impl TaskCardPayload {
    /// What a card shows after `update_count` updates. `task_card` is the card of
    /// the task notification, written for that count.
    pub fn render(&self, update_count: u64, task_card: &str) -> (out: String)
        ensures
            out@ == rendered(*self, update_count, task_card@),
    {
        match self {
            TaskCardPayload::Task(_) => task_card.to_owned(),
            TaskCardPayload::Subagent(card) => {
                let mut out: String = card.clone();
                if update_count > 1 {
                    out.append("\n\n-# ");
                    out.append(text::u64_text(update_count).as_str());
                    out.append(" updates");
                }
                out
            },
        }
    }
}

/// A task event with the scope of its card.
#[derive(Debug, PartialEq, Eq)]
pub struct TaskCardEvent {
    pub scope: TaskCardScope,
    pub task_id: Option<String>,
    pub tool_use_id: Option<String>,
    pub kind: String,
    pub routing_kind: TaskNotificationKind,
    pub payload: TaskCardPayload,
}

pub struct EventView {
    pub scope: identity::ScopeView,
    pub task_id: Option<Seq<char>>,
    pub tool_use_id: Option<Seq<char>>,
    pub kind: Seq<char>,
    pub routing_kind: TaskNotificationKind,
}

impl View for TaskCardEvent {
    type V = EventView;

    open spec fn view(&self) -> EventView {
        EventView {
            scope: self.scope@,
            task_id: text::opt_text(self.task_id),
            tool_use_id: text::opt_text(self.tool_use_id),
            kind: self.kind@,
            routing_kind: self.routing_kind,
        }
    }
}

/// An optional text, or the empty one.
pub open spec fn text_or_empty(value: Option<Seq<char>>) -> Seq<char> {
    match value {
        Some(value) => value,
        None => Seq::empty(),
    }
}

fn slice_or_empty(value: &Option<String>) -> (r: &str)
    ensures
        r@ == text_or_empty(text::opt_text(*value)),
{
    match value {
        Some(value) => value.as_str(),
        None => {
            proof {
                reveal_strlit("");
            }
            assert(""@ =~= Seq::empty());
            ""
        },
    }
}

/// The key of a task notification's event.
pub open spec fn note_event_key(note: NoteView) -> Seq<char> {
    let task_id = identity::cleaned(note.task_id);
    let tool_use_id = identity::cleaned(note.tool_use_id);
    identity::event_key_of(
        task_id,
        tool_use_id,
        identity::payload_fingerprint_of(
            task_id,
            tool_use_id,
            text_or_empty(note.status),
            text_or_empty(note.summary),
        ),
    )
}

/// The fingerprint of a provider's entry, where the entry has an identifier.
pub open spec fn entry_fingerprint(provider: Seq<char>, source_event_id: Option<Seq<char>>) -> Option<
    Seq<char>,
> {
    match source_event_id {
        Some(id) => if text::trimmed(id).len() > 0 {
            Some(identity::source_fingerprint(provider, text::trimmed(id)))
        } else {
            None
        },
        None => None,
    }
}

fn source_fingerprint_of(provider: &str, source_event_id: Option<&str>) -> (out: Option<String>)
    ensures
        text::opt_text(out) == entry_fingerprint(
            provider@,
            identity::slice_text(source_event_id),
        ),
{
    match source_event_id {
        Some(id) => {
            let trimmed = text::trim(id);
            if trimmed.is_empty() {
                None
            } else {
                Some(terminal_source_fingerprint(provider, trimmed))
            }
        },
        None => None,
    }
}

/// The key of a subagent's event, whose meaning is `semantic`.
pub open spec fn semantic_key(semantic: SubagentNotificationSemantic) -> Seq<char> {
    identity::event_key_of(
        text::opt_text(semantic.task_id),
        text::opt_text(semantic.tool_use_id),
        semantic.payload_fingerprint@,
    )
}

/// The key of a subagent's event that could not be read: by a fingerprint of the
/// whole prompt.
pub open spec fn malformed_key(stripped_prompt: Seq<char>) -> Seq<char> {
    identity::event_key_of(
        None,
        None,
        identity::fingerprint_of(seq!["malformed-subagent"@, stripped_prompt]).take(16),
    )
}

impl TaskCardEvent {
    /// The event of a task notification in a prompt.
    pub fn from_task_prompt(
        channel_id: u64,
        provider: &str,
        session_key: &str,
        note: TaskNotification,
    ) -> (out: Self)
        ensures
            out@ == (EventView {
                scope: identity::ScopeView {
                    channel_id,
                    provider: identity::provider_name(provider@),
                    session_key: session_key@,
                    event_key: note_event_key(note@),
                },
                task_id: identity::cleaned(note@.task_id),
                tool_use_id: identity::cleaned(note@.tool_use_id),
                kind: note@.kind,
                routing_kind: note@.routing_kind,
            }),
            out.payload == TaskCardPayload::Task(note),
            out.scope.terminal_delivery_fingerprint is None,
    {
        Self::from_task_prompt_with_source_event_id(channel_id, provider, session_key, note, None)
    }

    /// The event of a task notification in a prompt, with the identifier of the
    /// provider's own entry for it. The identifier takes no part in the key: the
    /// event stays the same whether it is seen in a prompt or in the stream.
    pub fn from_task_prompt_with_source_event_id(
        channel_id: u64,
        provider: &str,
        session_key: &str,
        note: TaskNotification,
        source_event_id: Option<&str>,
    ) -> (out: Self)
        ensures
            out@ == (EventView {
                scope: identity::ScopeView {
                    channel_id,
                    provider: identity::provider_name(provider@),
                    session_key: session_key@,
                    event_key: note_event_key(note@),
                },
                task_id: identity::cleaned(note@.task_id),
                tool_use_id: identity::cleaned(note@.tool_use_id),
                kind: note@.kind,
                routing_kind: note@.routing_kind,
            }),
            out.payload == TaskCardPayload::Task(note),
            text::opt_text(out.scope.terminal_delivery_fingerprint) == entry_fingerprint(
                provider@,
                identity::slice_text(source_event_id),
            ),
    {
        let task_id = clean_optional(opt_slice(&note.task_id));
        let tool_use_id = clean_optional(opt_slice(&note.tool_use_id));
        let kind = note.kind.clone();
        let routing_kind = note.routing_kind;
        let normalized_payload = normalized_task_payload_fingerprint(
            opt_slice(&task_id),
            opt_slice(&tool_use_id),
            slice_or_empty(&note.status),
            slice_or_empty(&note.summary),
        );
        let event_key = semantic_event_key(
            opt_slice(&task_id),
            opt_slice(&tool_use_id),
            normalized_payload.as_str(),
        );
        let entry = source_fingerprint_of(provider, source_event_id);
        TaskCardEvent {
            scope: source_bound_scope(channel_id, provider, session_key, event_key, entry),
            task_id,
            tool_use_id,
            kind,
            routing_kind,
            payload: TaskCardPayload::Task(note),
        }
    }

    /// The event of a subagent's notification in a prompt. `semantic` is what the
    /// notification means, if it could be read, `stripped_prompt` the prompt without
    /// its terminal controls, and `card` the card that is shown for it.
    pub fn from_subagent_prompt(
        channel_id: u64,
        provider: &str,
        session_key: &str,
        semantic: Option<SubagentNotificationSemantic>,
        stripped_prompt: &str,
        card: String,
    ) -> (out: Self)
        ensures
            out@ == subagent_event(
                channel_id,
                provider@,
                session_key@,
                semantic,
                stripped_prompt@,
            ),
            out.payload == TaskCardPayload::Subagent(card),
            out.scope.terminal_delivery_fingerprint is None,
    {
        Self::from_subagent_prompt_with_source_event_id(
            channel_id,
            provider,
            session_key,
            semantic,
            stripped_prompt,
            card,
            None,
        )
    }

    /// The event of a subagent's notification in a prompt, with the identifier of
    /// the provider's own entry for it.
    pub fn from_subagent_prompt_with_source_event_id(
        channel_id: u64,
        provider: &str,
        session_key: &str,
        semantic: Option<SubagentNotificationSemantic>,
        stripped_prompt: &str,
        card: String,
        source_event_id: Option<&str>,
    ) -> (out: Self)
        ensures
            out@ == subagent_event(
                channel_id,
                provider@,
                session_key@,
                semantic,
                stripped_prompt@,
            ),
            out.payload == TaskCardPayload::Subagent(card),
            text::opt_text(out.scope.terminal_delivery_fingerprint) == entry_fingerprint(
                provider@,
                identity::slice_text(source_event_id),
            ),
    {
        let semantic = match semantic {
            Some(semantic) => semantic,
            None => {
                let mut parts: Vec<String> = Vec::new();
                parts.push("malformed-subagent".to_owned());
                parts.push(stripped_prompt.to_owned());
                assert(text::texts(parts@) =~= seq!["malformed-subagent"@, stripped_prompt@]);
                SubagentNotificationSemantic {
                    task_id: None,
                    tool_use_id: None,
                    payload_fingerprint: fingerprint(&parts),
                }
            },
        };
        let event_key = semantic_event_key(
            opt_slice(&semantic.task_id),
            opt_slice(&semantic.tool_use_id),
            semantic.payload_fingerprint.as_str(),
        );
        let entry = source_fingerprint_of(provider, source_event_id);
        TaskCardEvent {
            scope: source_bound_scope(channel_id, provider, session_key, event_key, entry),
            task_id: semantic.task_id,
            tool_use_id: semantic.tool_use_id,
            kind: "subagent".to_owned(),
            routing_kind: TaskNotificationKind::Subagent,
            payload: TaskCardPayload::Subagent(card),
        }
    }

    /// Whether the event may be shown in the footer of an answer first: it names its
    /// task or its tool use, and is not a subagent's.
    pub fn supports_footer_deferral(&self) -> (r: bool)
        ensures
            r == ((self@.task_id is Some || self@.tool_use_id is Some)
                && !(self@.routing_kind is Subagent)),
    {
        (self.task_id.is_some() || self.tool_use_id.is_some()) && self.routing_kind
            != TaskNotificationKind::Subagent
    }

    pub fn tool_use_id(&self) -> (r: Option<&str>)
        ensures
            identity::slice_text(r) == self@.tool_use_id,
    {
        opt_slice(&self.tool_use_id)
    }

    pub fn kind(&self) -> (r: &str)
        ensures
            r@ == self@.kind,
    {
        self.kind.as_str()
    }

    pub fn routing_kind(&self) -> (r: TaskNotificationKind)
        ensures
            r == self@.routing_kind,
    {
        self.routing_kind
    }

    pub fn event_key(&self) -> (r: &str)
        ensures
            r@ == self@.scope.event_key,
    {
        self.scope.event_key.as_str()
    }

    /// The session of the event's marker in a channel, if its kind has markers.
    pub fn lifecycle_marker_session_key(&self, channel_id: u64) -> (out: Option<String>)
        ensures
            text::opt_text(out) == identity::marker_key(
                channel_id,
                self@.scope.event_key,
                self@.routing_kind,
            ),
    {
        task_notification_marker_session_key(channel_id, self.event_key(), self.routing_kind)
    }
}

/// The event of a subagent's notification.
pub open spec fn subagent_event(
    channel_id: u64,
    provider: Seq<char>,
    session_key: Seq<char>,
    semantic: Option<SubagentNotificationSemantic>,
    stripped_prompt: Seq<char>,
) -> EventView {
    EventView {
        scope: identity::ScopeView {
            channel_id,
            provider: identity::provider_name(provider),
            session_key,
            event_key: match semantic {
                Some(semantic) => semantic_key(semantic),
                None => malformed_key(stripped_prompt),
            },
        },
        task_id: match semantic {
            Some(semantic) => text::opt_text(semantic.task_id),
            None => None,
        },
        tool_use_id: match semantic {
            Some(semantic) => text::opt_text(semantic.tool_use_id),
            None => None,
        },
        kind: "subagent"@,
        routing_kind: TaskNotificationKind::Subagent,
    }
}

} // verus!
