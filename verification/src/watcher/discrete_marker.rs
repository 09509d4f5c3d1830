//! Markers for machine triggers whose terminal output is suppressed.

use vstd::prelude::*;

use crate::task_cards::context::TaskNotificationContext;
use crate::task_cards::identity::{task_notification_marker_session_key, TaskNotificationKind};
use crate::task_cards::{context, identity};
use crate::text;

verus! {

/// What the marker of a suppressed notification is made from.
#[derive(Debug)]
pub struct SuppressedTaskNotificationMarker {
    pub channel_id: u64,
    pub tmux_session_name: String,
    /// The channel that the session's name names, if it names one.
    pub session_channel_name: Option<String>,
    pub data_start_offset: u64,
    pub kind: TaskNotificationKind,
    pub task_notification_event_key: Option<String>,
    /// The marker of the background task, cut to its limit, if the notification is of
    /// one.
    pub background_content: Option<String>,
    pub event_count: u64,
    pub monitor_entry_keys: Vec<String>,
    /// The reason code of monitor turns.
    pub monitor_reason_code: String,
}

/// A marker, ready to be queued.
#[derive(Debug, PartialEq, Eq)]
pub struct RenderedMarker {
    pub session_key: String,
    pub reason_code: String,
    pub content: String,
}

pub struct MarkerView {
    pub session_key: Seq<char>,
    pub reason_code: Seq<char>,
    pub content: Seq<char>,
}

impl View for RenderedMarker {
    type V = MarkerView;

    open spec fn view(&self) -> MarkerView {
        MarkerView {
            session_key: self.session_key@,
            reason_code: self.reason_code@,
            content: self.content@,
        }
    }
}

/// The key of a monitor turn's marker: by its event, or else by where its output
/// starts.
pub open spec fn monitor_session_key(marker: SuppressedTaskNotificationMarker) -> Seq<char> {
    match marker.task_notification_event_key {
        Some(event_key) => "monitor_auto_turn:ch:"@ + text::decimal(marker.channel_id as nat)
            + ":event:"@ + event_key@,
        None => "monitor_auto_turn:ch:"@ + text::decimal(marker.channel_id as nat) + ":off:"@
            + text::decimal(marker.data_start_offset as nat),
    }
}

/// What a monitor turn is said to be about: the session's channel, or else the
/// session.
pub open spec fn monitor_label(marker: SuppressedTaskNotificationMarker) -> Seq<char> {
    match marker.session_channel_name {
        Some(name) => if text::is_blank(name@) {
            marker.tmux_session_name@
        } else {
            name@
        },
        None => marker.tmux_session_name@,
    }
}

/// The text of a monitor turn's marker.
pub open spec fn monitor_content(marker: SuppressedTaskNotificationMarker) -> Seq<char> {
    let count = text::decimal(marker.event_count as nat);
    let summary = if marker.monitor_entry_keys@.len() == 0 {
        "🔔 Monitor "@ + count + "회 처리 · (등록된 모니터 없음)"@
    } else {
        "🔔 Monitor "@ + count + "회 처리 · 다음 모니터: {"@ + text::joined(
            text::texts(marker.monitor_entry_keys@),
            ", "@,
        ) + "}"@
    };
    summary + " · 대상: "@ + monitor_label(marker)
}

/// The marker of a suppressed notification. A subagent has a card of its own, so it
/// has no marker.
pub open spec fn marker_of(marker: SuppressedTaskNotificationMarker) -> Option<MarkerView> {
    match marker.kind {
        TaskNotificationKind::MonitorAutoTurn => Some(
            MarkerView {
                session_key: monitor_session_key(marker),
                reason_code: marker.monitor_reason_code@,
                content: monitor_content(marker),
            },
        ),
        TaskNotificationKind::Background => match (
            marker.task_notification_event_key,
            marker.background_content,
        ) {
            (Some(event_key), Some(content)) => Some(
                MarkerView {
                    session_key: identity::footer_marker_key(marker.channel_id, event_key@),
                    reason_code: "lifecycle.background_task_complete"@,
                    content: content@,
                },
            ),
            _ => None,
        },
        TaskNotificationKind::Subagent => None,
    }
}

/// The texts of `list`, with `sep` between them.
fn join(list: &Vec<String>, sep: &str) -> (out: String)
    ensures
        out@ == text::joined(text::texts(list@), sep@),
{
    let ghost all = text::texts(list@);
    let mut out: String = String::new();
    let mut i: usize = 0;
    assert(all.take(0) =~= Seq::<Seq<char>>::empty());
    while i < list.len()
        invariant
            all == text::texts(list@),
            i <= list@.len(),
            out@ == text::joined(all.take(i as int), sep@),
        decreases list@.len() - i,
    {
        proof {
            let next = all.take(i + 1);
            assert(next.drop_last() =~= all.take(i as int));
            assert(next.last() == list@[i as int]@);
        }
        let ghost before = out@;
        if i > 0 {
            out.append(sep);
        }
        out.append(list[i].as_str());
        proof {
            if i == 0 {
                assert(before =~= Seq::<char>::empty());
                assert(out@ =~= list@[0]@);
            }
        }
        i += 1;
    }
    assert(all.take(i as int) =~= all);
    out
}

impl SuppressedTaskNotificationMarker {
    fn monitor_summary(&self) -> (out: String)
        ensures
            out@ == monitor_content(*self),
    {
        let mut out: String = "🔔 Monitor ".to_owned();
        out.append(text::u64_text(self.event_count).as_str());
        if self.monitor_entry_keys.len() == 0 {
            out.append("회 처리 · (등록된 모니터 없음)");
        } else {
            out.append("회 처리 · 다음 모니터: {");
            out.append(join(&self.monitor_entry_keys, ", ").as_str());
            out.append("}");
        }
        out.append(" · 대상: ");
        match &self.session_channel_name {
            Some(name) => {
                if text::blank(name.as_str()) {
                    out.append(self.tmux_session_name.as_str());
                } else {
                    out.append(name.as_str());
                }
            },
            None => {
                out.append(self.tmux_session_name.as_str());
            },
        }
        out
    }

    /// The marker of a suppressed notification, if it has one.
    pub fn render(&self) -> (out: Option<RenderedMarker>)
        ensures
            out is Some <==> marker_of(*self) is Some,
            out matches Some(marker) ==> marker_of(*self) == Some(marker@),
    {
        match self.kind {
            TaskNotificationKind::MonitorAutoTurn => {
                let session_key = match &self.task_notification_event_key {
                    Some(event_key) => task_notification_marker_session_key(
                        self.channel_id,
                        event_key.as_str(),
                        TaskNotificationKind::MonitorAutoTurn,
                    ),
                    None => None,
                };
                let session_key = match session_key {
                    Some(session_key) => session_key,
                    None => {
                        let mut key: String = "monitor_auto_turn:ch:".to_owned();
                        key.append(text::u64_text(self.channel_id).as_str());
                        key.append(":off:");
                        key.append(text::u64_text(self.data_start_offset).as_str());
                        key
                    },
                };
                Some(
                    RenderedMarker {
                        session_key,
                        reason_code: self.monitor_reason_code.clone(),
                        content: self.monitor_summary(),
                    },
                )
            },
            TaskNotificationKind::Background => {
                let event_key = match &self.task_notification_event_key {
                    Some(event_key) => event_key,
                    None => return None,
                };
                let session_key = match task_notification_marker_session_key(
                    self.channel_id,
                    event_key.as_str(),
                    TaskNotificationKind::Background,
                ) {
                    Some(session_key) => session_key,
                    None => return None,
                };
                let content = match &self.background_content {
                    Some(content) => content.clone(),
                    None => return None,
                };
                Some(
                    RenderedMarker {
                        session_key,
                        reason_code: "lifecycle.background_task_complete".to_owned(),
                        content,
                    },
                )
            },
            TaskNotificationKind::Subagent => None,
        }
    }
}

/// Where a channel's markers are queued.
pub fn marker_target(channel_id: u64) -> (out: String)
    ensures
        out@ == "channel:"@ + text::decimal(channel_id as nat),
{
    let mut out: String = "channel:".to_owned();
    out.append(text::u64_text(channel_id).as_str());
    out
}

/// Whether the channel's registered monitors are asked for.
pub fn lists_monitor_entries(kind: Option<TaskNotificationKind>) -> (r: bool)
    ensures
        r == (kind == Some(TaskNotificationKind::MonitorAutoTurn)),
{
    match kind {
        Some(TaskNotificationKind::MonitorAutoTurn) => true,
        _ => false,
    }
}

/// What the marker of a suppressed machine trigger is made from.
#[derive(Debug)]
pub struct MarkerSelection {
    pub kind: TaskNotificationKind,
    pub task_notification_event_key: Option<String>,
    /// The context is of a background task, so its marker is shown.
    pub background: bool,
}

/// What the marker of a suppressed machine trigger is made from, if it gets one: a
/// monitor turn or a background task does.
pub fn enqueue_suppressed_machine_trigger_marker(
    task_notification_kind: Option<TaskNotificationKind>,
    task_notification_context: Option<&TaskNotificationContext>,
) -> (r: Option<MarkerSelection>)
    ensures
        r is Some <==> (task_notification_kind == Some(TaskNotificationKind::MonitorAutoTurn)
            || task_notification_kind == Some(TaskNotificationKind::Background)),
        r matches Some(selection) ==> {
            &&& task_notification_kind == Some(selection.kind)
            &&& text::opt_text(selection.task_notification_event_key)
                == match task_notification_context {
                Some(held) => Some(held@.event_key),
                None => None,
            }
            &&& selection.background == (task_notification_context matches Some(held)
                && context::kind_routing(held@.kind) is Background)
        },
{
    let kind = match task_notification_kind {
        Some(kind) => kind,
        None => return None,
    };
    match kind {
        TaskNotificationKind::MonitorAutoTurn => {},
        TaskNotificationKind::Background => {},
        TaskNotificationKind::Subagent => return None,
    }
    let event_key = match task_notification_context {
        Some(held) => Some(held.event_key().to_owned()),
        None => None,
    };
    let background = match task_notification_context {
        Some(held) => match held.routing_kind() {
            TaskNotificationKind::Background => true,
            _ => false,
        },
        None => false,
    };
    Some(MarkerSelection { kind, task_notification_event_key: event_key, background })
}

} // verus!
