//! What a provider's stream says of a task that has come to an end.

use vstd::prelude::*;

use crate::json::JsonValue;
use crate::task_cards::event::{TaskCardEvent, TaskCardPayload, TaskNotification};
use crate::task_cards::event;
use crate::task_cards::identity::{
    clean_line, clean_optional, normalized_task_payload_fingerprint, opt_slice, semantic_event_key,
    TaskCardScope, TaskNotificationKind,
};
use crate::task_cards::identity;
use crate::text;

verus! {

// ---------------------------------------------------------------------------
// The entry in the stream
// ---------------------------------------------------------------------------
/// The texts of a task notification in the stream.
#[derive(Debug, PartialEq, Eq)]
pub struct TaskStreamFields {
    pub task_id: Option<String>,
    pub tool_use_id: Option<String>,
    pub status: String,
    pub summary: String,
    pub kind: Option<String>,
}

/// A value of the stream is a task notification.
pub open spec fn is_task_notification(value: JsonValue) -> bool {
    value.text_field("type"@) == Some("system"@) && value.text_field("subtype"@) == Some(
        "task_notification"@,
    )
}

/// The tool use of a notification, under the first of its three names that holds a
/// string.
pub open spec fn stream_tool_use(value: JsonValue) -> Option<Seq<char>> {
    if value.text_field("tool_use_id"@) is Some {
        value.text_field("tool_use_id"@)
    } else if value.text_field("tool-use-id"@) is Some {
        value.text_field("tool-use-id"@)
    } else {
        value.text_field("toolUseId"@)
    }
}

/// The summary of a notification; its description where it has no summary at all.
pub open spec fn stream_summary(value: JsonValue) -> Seq<char> {
    let field = if value.field("summary"@) is Some {
        value.text_field("summary"@)
    } else {
        value.text_field("description"@)
    };
    match field {
        Some(s) => s,
        None => Seq::empty(),
    }
}

fn owned(value: Option<&str>) -> (out: Option<String>)
    ensures
        text::opt_text(out) == identity::slice_text(value),
{
    match value {
        Some(value) => Some(value.to_owned()),
        None => None,
    }
}

/// The texts of a value of the stream, if it is a task notification.
pub fn task_stream_fields(value: &JsonValue) -> (r: Option<TaskStreamFields>)
    ensures
        match r {
            Some(fields) => {
                &&& is_task_notification(*value)
                &&& text::opt_text(fields.task_id) == value.text_field("task_id"@)
                &&& text::opt_text(fields.tool_use_id) == stream_tool_use(*value)
                &&& fields.status@ == match value.text_field("status"@) {
                    Some(s) => s,
                    None => Seq::empty(),
                }
                &&& fields.summary@ == stream_summary(*value)
                &&& text::opt_text(fields.kind) == value.text_field("task_notification_kind"@)
            },
            None => !is_task_notification(*value),
        },
{
    let is_system = match value.get_str("type") {
        Some(kind) => text::same_text(kind, "system"),
        None => false,
    };
    let is_notification = match value.get_str("subtype") {
        Some(kind) => text::same_text(kind, "task_notification"),
        None => false,
    };
    if !is_system || !is_notification {
        return None;
    }
    let tool_use_id = match value.get_str("tool_use_id") {
        Some(id) => Some(id.to_owned()),
        None => match value.get_str("tool-use-id") {
            Some(id) => Some(id.to_owned()),
            None => owned(value.get_str("toolUseId")),
        },
    };
    let status = match value.get_str("status") {
        Some(status) => status.to_owned(),
        None => String::new(),
    };
    let described = match value.get("summary") {
        Some(summary) => summary.as_str(),
        None => value.get_str("description"),
    };
    let summary = match described {
        Some(summary) => summary.to_owned(),
        None => String::new(),
    };
    Some(
        TaskStreamFields {
            task_id: owned(value.get_str("task_id")),
            tool_use_id,
            status,
            summary,
            kind: owned(value.get_str("task_notification_kind")),
        },
    )
}

// ---------------------------------------------------------------------------
// The context
// ---------------------------------------------------------------------------
/// What the stream said when a task was started.
#[derive(Debug, PartialEq, Eq)]
pub struct TaskStart {
    pub task_id: String,
    pub tool_use_id: Option<String>,
}

/// What the stream said when the task `task_id` was started: the tool use that
/// started it.
pub open spec fn started_tool_use(starts: Seq<TaskStart>, task_id: Seq<char>) -> Option<Seq<char>>
    decreases starts.len(),
{
    if starts.len() == 0 {
        None
    } else if starts[0].task_id@ == task_id {
        text::opt_text(starts[0].tool_use_id)
    } else {
        started_tool_use(starts.drop_first(), task_id)
    }
}

fn find_started_tool_use(starts: &Vec<TaskStart>, task_id: &str) -> (r: Option<String>)
    ensures
        text::opt_text(r) == started_tool_use(starts@, task_id@),
{
    let mut i: usize = 0;
    assert(starts@.skip(0) =~= starts@);
    while i < starts.len()
        invariant
            i <= starts@.len(),
            started_tool_use(starts@, task_id@) == started_tool_use(
                starts@.skip(i as int),
                task_id@,
            ),
        decreases starts@.len() - i,
    {
        let ghost rest = starts@.skip(i as int);
        assert(rest[0] == starts@[i as int]);
        if text::same_text(starts[i].task_id.as_str(), task_id) {
            return text::clone_opt(&starts[i].tool_use_id);
        }
        assert(rest.drop_first() =~= starts@.skip(i + 1));
        i += 1;
    }
    None
}

/// A task that has come to an end, as far as its card and its response need it.
#[derive(Debug, PartialEq, Eq)]
pub struct TaskNotificationContext {
    pub task_id: Option<String>,
    pub tool_use_id: Option<String>,
    pub status: String,
    pub summary: String,
    pub kind: String,
    pub event_key: String,
}

pub struct ContextView {
    pub task_id: Option<Seq<char>>,
    pub tool_use_id: Option<Seq<char>>,
    pub status: Seq<char>,
    pub summary: Seq<char>,
    pub kind: Seq<char>,
    pub event_key: Seq<char>,
}

impl View for TaskNotificationContext {
    type V = ContextView;

    open spec fn view(&self) -> ContextView {
        ContextView {
            task_id: text::opt_text(self.task_id),
            tool_use_id: text::opt_text(self.tool_use_id),
            status: self.status@,
            summary: self.summary@,
            kind: self.kind@,
            event_key: self.event_key@,
        }
    }
}

/// How a kind that is given by name is routed.
pub open spec fn kind_routing(kind: Seq<char>) -> TaskNotificationKind {
    if kind == "subagent"@ {
        TaskNotificationKind::Subagent
    } else if kind == "monitor_auto_turn"@ {
        TaskNotificationKind::MonitorAutoTurn
    } else {
        TaskNotificationKind::Background
    }
}

/// The tool use of a notification: its own, or else the one that started its task.
pub open spec fn context_tool_use(fields: TaskStreamFields, starts: Seq<TaskStart>) -> Option<
    Seq<char>,
> {
    let own = identity::cleaned(text::opt_text(fields.tool_use_id));
    if own is Some {
        own
    } else {
        match identity::cleaned(text::opt_text(fields.task_id)) {
            Some(task_id) => identity::cleaned(started_tool_use(starts, task_id)),
            None => None,
        }
    }
}

/// The kind of a notification: its own, or else the one it was classified as.
pub open spec fn context_kind(fields: TaskStreamFields, classified: Seq<char>) -> Seq<char> {
    match identity::cleaned(text::opt_text(fields.kind)) {
        Some(kind) => kind,
        None => classified,
    }
}

/// The context that a notification gives.
pub open spec fn context_of(
    fields: TaskStreamFields,
    starts: Seq<TaskStart>,
    classified: Seq<char>,
) -> ContextView {
    let task_id = identity::cleaned(text::opt_text(fields.task_id));
    let tool_use_id = context_tool_use(fields, starts);
    let status = text::one_line(fields.status@);
    let summary = text::one_line(fields.summary@);
    ContextView {
        task_id,
        tool_use_id,
        status,
        summary,
        kind: context_kind(fields, classified),
        event_key: identity::event_key_of(
            task_id,
            tool_use_id,
            identity::payload_fingerprint_of(task_id, tool_use_id, status, summary),
        ),
    }
}

impl TaskNotificationContext {
    /// The context of a notification in the stream, whose terminal controls have
    /// been stripped. `task_starts` is what the stream said of the tasks that were
    /// started, and `classified_kind` the kind that a notification without one is
    /// classified as.
    pub fn from_stream_json(
        fields: &TaskStreamFields,
        task_starts: &Vec<TaskStart>,
        classified_kind: &str,
    ) -> (out: Self)
        ensures
            out@ == context_of(*fields, task_starts@, classified_kind@),
    {
        let task_id = clean_optional(opt_slice(&fields.task_id));
        let tool_use_id = match clean_optional(opt_slice(&fields.tool_use_id)) {
            Some(id) => Some(id),
            None => match &task_id {
                Some(id) => {
                    let started = find_started_tool_use(task_starts, id.as_str());
                    clean_optional(opt_slice(&started))
                },
                None => None,
            },
        };
        let status = clean_line(fields.status.as_str());
        let summary = clean_line(fields.summary.as_str());
        let kind = match clean_optional(opt_slice(&fields.kind)) {
            Some(kind) => kind,
            None => classified_kind.to_owned(),
        };
        let payload_fingerprint = normalized_task_payload_fingerprint(
            opt_slice(&task_id),
            opt_slice(&tool_use_id),
            status.as_str(),
            summary.as_str(),
        );
        let event_key = semantic_event_key(
            opt_slice(&task_id),
            opt_slice(&tool_use_id),
            payload_fingerprint.as_str(),
        );
        TaskNotificationContext { task_id, tool_use_id, status, summary, kind, event_key }
    }

    pub fn routing_kind(&self) -> (r: TaskNotificationKind)
        ensures
            r == kind_routing(self@.kind),
    {
        if text::same_text(self.kind.as_str(), "subagent") {
            TaskNotificationKind::Subagent
        } else if text::same_text(self.kind.as_str(), "monitor_auto_turn") {
            TaskNotificationKind::MonitorAutoTurn
        } else {
            TaskNotificationKind::Background
        }
    }

    pub fn event_key(&self) -> (r: &str)
        ensures
            r@ == self@.event_key,
    {
        self.event_key.as_str()
    }

    pub fn summary(&self) -> (r: &str)
        ensures
            r@ == self@.summary,
    {
        self.summary.as_str()
    }

    /// The event of the task's card.
    pub fn to_event(&self, channel_id: u64, provider: &str, session_key: &str) -> (out:
        TaskCardEvent)
        ensures
            out@ == (event::EventView {
                scope: identity::ScopeView {
                    channel_id,
                    provider: identity::provider_name(provider@),
                    session_key: session_key@,
                    event_key: self@.event_key,
                },
                task_id: self@.task_id,
                tool_use_id: self@.tool_use_id,
                kind: self@.kind,
                routing_kind: kind_routing(self@.kind),
            }),
            out.payload matches TaskCardPayload::Task(note) && note@ == (event::NoteView {
                task_id: self@.task_id,
                tool_use_id: self@.tool_use_id,
                status: identity::cleaned(Some(self@.status)),
                summary: identity::cleaned(Some(self@.summary)),
                kind: self@.kind,
                routing_kind: kind_routing(self@.kind),
            }),
            out.scope.terminal_delivery_fingerprint is None,
    {
        let note = TaskNotification {
            task_id: text::clone_opt(&self.task_id),
            tool_use_id: text::clone_opt(&self.tool_use_id),
            status: clean_optional(Some(self.status.as_str())),
            summary: clean_optional(Some(self.summary.as_str())),
            kind: self.kind.clone(),
            routing_kind: self.routing_kind(),
        };
        TaskCardEvent {
            scope: TaskCardScope::new(channel_id, provider, session_key, self.event_key.as_str()),
            task_id: text::clone_opt(&self.task_id),
            tool_use_id: text::clone_opt(&self.tool_use_id),
            kind: self.kind.clone(),
            routing_kind: self.routing_kind(),
            payload: TaskCardPayload::Task(note),
        }
    }
}

// ---------------------------------------------------------------------------
// Merging
// ---------------------------------------------------------------------------
/// What takes precedence when several notifications meet in one turn.
pub open spec fn kind_priority(kind: TaskNotificationKind) -> int {
    match kind {
        TaskNotificationKind::Subagent => 0,
        TaskNotificationKind::Background => 1,
        TaskNotificationKind::MonitorAutoTurn => 2,
    }
}

fn priority_of(kind: TaskNotificationKind) -> (r: u8)
    ensures
        r == kind_priority(kind),
{
    match kind {
        TaskNotificationKind::Subagent => 0,
        TaskNotificationKind::Background => 1,
        TaskNotificationKind::MonitorAutoTurn => 2,
    }
}

/// The context that stays when `next` joins `current`: the whole of the one with the
/// higher precedence, and of the later one where they are equal.
pub open spec fn merged(current: Option<ContextView>, next: ContextView) -> ContextView {
    match current {
        Some(held) => if kind_priority(kind_routing(held.kind)) > kind_priority(
            kind_routing(next.kind),
        ) {
            held
        } else {
            next
        },
        None => next,
    }
}

/// The context that stays when `next` joins `current`.
pub fn merge_context(
    current: Option<TaskNotificationContext>,
    next: TaskNotificationContext,
) -> (r: Option<TaskNotificationContext>)
    ensures
        r matches Some(kept) && kept@ == merged(
            match current {
                Some(held) => Some(held@),
                None => None,
            },
            next@,
        ),
{
    match current {
        Some(held) => {
            if priority_of(held.routing_kind()) > priority_of(next.routing_kind()) {
                Some(held)
            } else {
                Some(next)
            }
        },
        None => Some(next),
    }
}

/// Merging never lowers the precedence, and it keeps one of the two contexts whole.
pub proof fn law_merge_keeps_the_higher_priority(current: Option<ContextView>, next: ContextView)
    ensures
        merged(current, next) == next || current == Some(merged(current, next)),
        kind_priority(kind_routing(merged(current, next).kind)) >= kind_priority(
            kind_routing(next.kind),
        ),
        current matches Some(held) ==> kind_priority(kind_routing(merged(current, next).kind))
            >= kind_priority(kind_routing(held.kind)),
{
}

/// Of three notifications the same one stays, whichever two of them meet first.
pub proof fn law_merge_is_associative(a: ContextView, b: ContextView, c: ContextView)
    ensures
        merged(Some(merged(Some(a), b)), c) == merged(Some(a), merged(Some(b), c)),
{
}

} // verus!
