//! What an event is known by, read off what its notification says.

use vstd::prelude::*;

use crate::hashing;
use crate::json::JsonValue;
use crate::task_cards::context;
use crate::task_cards::context::{
    merge_context, task_stream_fields, TaskNotificationContext, TaskStart, TaskStreamFields,
};
use crate::task_cards::event::{
    SubagentNotificationSemantic, TaskCardEvent, TaskCardPayload, TaskNotification,
};
use crate::task_cards::identity;
use crate::task_cards::identity::{
    clean_line, clean_optional, clean_owned, content_hash, fingerprint,
    footer_background_marker_session_key, full_fingerprint, normalized_provider,
    normalized_task_payload_fingerprint, provider_bot_key, response_turn_key, semantic_event_key,
    source_bound_scope, stable_nonce, task_notification_marker_session_key,
    terminal_source_fingerprint, TaskCardScope, TaskNotificationKind,
};
use crate::text;

verus! {

// ---------------------------------------------------------------------------
// Fingerprints
// ---------------------------------------------------------------------------
/// A text in UTF-8 with a zero byte behind it.
pub open spec fn sealed(s: Seq<char>) -> Seq<u8> {
    vstd::utf8::encode_utf8(s).push(0u8)
}

/// A text holds something beside white space.
pub open spec fn says_something(s: Seq<char>) -> bool {
    exists|i: int| 0 <= i < s.len() && !text::is_white(#[trigger] s[i])
}

proof fn lemma_terminated(front: Seq<Seq<char>>, last: Seq<char>)
    ensures
        identity::terminated(front.push(last)) == identity::terminated(front) + sealed(last),
        identity::terminated(Seq::empty()) == Seq::<u8>::empty(),
{
    assert(front.push(last).drop_last() =~= front);
    assert(identity::terminated(front.push(last)) =~= identity::terminated(front) + sealed(last));
}

proof fn lemma_one_part(a: Seq<char>)
    ensures
        identity::terminated(seq![a]) == sealed(a),
{
    lemma_terminated(Seq::empty(), a);
    assert(Seq::empty().push(a) =~= seq![a]);
    assert(Seq::<u8>::empty() + sealed(a) =~= sealed(a));
}

proof fn lemma_two_parts(a: Seq<char>, b: Seq<char>)
    ensures
        identity::terminated(seq![a, b]) == sealed(a) + sealed(b),
{
    lemma_one_part(a);
    lemma_terminated(seq![a], b);
    assert(seq![a].push(b) =~= seq![a, b]);
}

proof fn lemma_three_parts(a: Seq<char>, b: Seq<char>, c: Seq<char>)
    ensures
        identity::terminated(seq![a, b, c]) == sealed(a) + sealed(b) + sealed(c),
{
    lemma_two_parts(a, b);
    lemma_terminated(seq![a, b], c);
    assert(seq![a, b].push(c) =~= seq![a, b, c]);
}

proof fn lemma_four_parts(a: Seq<char>, b: Seq<char>, c: Seq<char>, d: Seq<char>)
    ensures
        identity::terminated(seq![a, b, c, d]) == sealed(a) + sealed(b) + sealed(c) + sealed(d),
{
    lemma_three_parts(a, b, c);
    lemma_terminated(seq![a, b, c], d);
    assert(seq![a, b, c].push(d) =~= seq![a, b, c, d]);
}

proof fn lemma_six_parts(
    a: Seq<char>,
    b: Seq<char>,
    c: Seq<char>,
    d: Seq<char>,
    e: Seq<char>,
    f: Seq<char>,
)
    ensures
        identity::terminated(seq![a, b, c, d, e, f]) == sealed(a) + sealed(b) + sealed(c) + sealed(d)
            + sealed(e) + sealed(f),
{
    lemma_four_parts(a, b, c, d);
    lemma_terminated(seq![a, b, c, d], e);
    assert(seq![a, b, c, d].push(e) =~= seq![a, b, c, d, e]);
    lemma_terminated(seq![a, b, c, d, e], f);
    assert(seq![a, b, c, d, e].push(f) =~= seq![a, b, c, d, e, f]);
}

proof fn lemma_blank(s: Seq<char>)
    ensures
        text::is_blank(s) <==> !says_something(s),
{
    text::lemma_blank_is_all_white(s);
    if !says_something(s) {
        assert forall|i: int| 0 <= i < s.len() implies text::is_white(#[trigger] s[i]) by {}
    }
}

/// A fingerprint goes over all the parts, each closed by a zero byte; the short one is its
/// beginning, and that of a card's content is that of one part.
pub proof fn law_fingerprint_goes_over_all_parts(
    first: String,
    second: String,
    parts: Vec<String>,
    full: String,
    short: String,
    content: &str,
    hash: String,
)
    requires
        parts@ == seq![first, second],
        call_ensures(full_fingerprint, (&parts,), full),
        call_ensures(fingerprint, (&parts,), short),
        call_ensures(content_hash, (content,), hash),
    ensures
        full@ == hashing::sha256_hex(sealed(first@) + sealed(second@)),
        short@ == full@.take(16),
        hash@ == hashing::sha256_hex(sealed(content@)),
{
    assert(text::texts(parts@) =~= seq![first@, second@]);
    lemma_two_parts(first@, second@);
    lemma_one_part(content@);
}

// ---------------------------------------------------------------------------
// Keys
// ---------------------------------------------------------------------------
/// An event is known by its task if that is named; if not, by its tool use; and only without
/// both by what it says. A name that is blank names nothing.
pub proof fn law_event_is_known_by_its_task_first(
    task_id: Option<&str>,
    tool_use_id: Option<&str>,
    payload: &str,
    key: String,
)
    requires
        call_ensures(semantic_event_key, (task_id, tool_use_id, payload), key),
    ensures
        ({
            let task = task_id is Some && says_something(task_id->0@);
            let tool = tool_use_id is Some && says_something(tool_use_id->0@);
            &&& task ==> key@ == "task:"@ + hashing::sha256_hex(sealed(task_id->0@)).take(16)
            &&& !task && tool ==> key@ == "tool:"@ + hashing::sha256_hex(
                sealed(tool_use_id->0@),
            ).take(16)
            &&& !task && !tool ==> key@ == "payload:"@ + payload@
        }),
{
    if task_id is Some {
        lemma_blank(task_id->0@);
        lemma_one_part(task_id->0@);
    }
    if tool_use_id is Some {
        lemma_blank(tool_use_id->0@);
        lemma_one_part(tool_use_id->0@);
    }
}

/// What a notification says is told apart by its ids, its status and its summary, each on one
/// line.
pub proof fn law_payload_is_what_is_said(
    task_id: Option<&str>,
    tool_use_id: Option<&str>,
    status: &str,
    summary: &str,
    out: String,
    task_line: String,
    tool_line: String,
    status_line: String,
    summary_line: String,
)
    requires
        call_ensures(
            normalized_task_payload_fingerprint,
            (task_id, tool_use_id, status, summary),
            out,
        ),
        task_id is Some ==> call_ensures(text::squeeze, (task_id->0,), task_line),
        task_id is None ==> task_line@ == Seq::<char>::empty(),
        tool_use_id is Some ==> call_ensures(text::squeeze, (tool_use_id->0,), tool_line),
        tool_use_id is None ==> tool_line@ == Seq::<char>::empty(),
        call_ensures(text::squeeze, (status,), status_line),
        call_ensures(text::squeeze, (summary,), summary_line),
    ensures
        out@ == hashing::sha256_hex(
            sealed(task_line@) + sealed(tool_line@) + sealed(status_line@) + sealed(summary_line@),
        ).take(16),
{
    lemma_four_parts(task_line@, tool_line@, status_line@, summary_line@);
}

/// A text is cleaned to one line, and left out where nothing is on it.
pub proof fn law_empty_line_is_left_out(
    value: Option<&str>,
    owned: String,
    line: String,
    owned_line: String,
    out: Option<String>,
    out_owned: Option<String>,
    text: &str,
)
    requires
        call_ensures(clean_optional, (value,), out),
        call_ensures(clean_owned, (owned,), out_owned),
        text@ == owned@,
        value is Some ==> call_ensures(clean_line, (value->0,), line),
        call_ensures(text::squeeze, (text,), owned_line),
    ensures
        value is None ==> out is None,
        value is Some && line@.len() == 0 ==> out is None,
        value is Some && line@.len() > 0 ==> out is Some && out->0@ == line@,
        owned_line@.len() == 0 ==> out_owned is None,
        owned_line@.len() > 0 ==> out_owned is Some && out_owned->0@ == owned_line@,
{
}

// ---------------------------------------------------------------------------
// Scopes
// ---------------------------------------------------------------------------
/// A scope holds the channel, the session and the event as they are given, and the provider
/// trimmed and in lower case; what the provider calls its entry is kept beside them.
pub proof fn law_scope_holds_what_it_is_given(
    channel_id: u64,
    provider: &str,
    session_key: &str,
    event_key: &str,
    owned_key: String,
    entry: Option<String>,
    name: String,
    scope: TaskCardScope,
    bound: TaskCardScope,
    bot: String,
)
    requires
        owned_key@ == event_key@,
        call_ensures(normalized_provider, (provider,), name),
        call_ensures(TaskCardScope::new, (channel_id, provider, session_key, event_key), scope),
        call_ensures(
            source_bound_scope,
            (channel_id, provider, session_key, owned_key, entry),
            bound,
        ),
        call_ensures(provider_bot_key, (provider,), bot),
    ensures
        name@ == text::ascii_lower(text::trimmed(provider@)),
        scope.channel_id == channel_id,
        scope.provider@ == name@,
        scope.session_key@ == session_key@,
        scope.event_key@ == event_key@,
        scope.terminal_delivery_fingerprint is None,
        bound.channel_id == channel_id,
        bound.provider@ == name@,
        bound.session_key@ == session_key@,
        bound.event_key@ == event_key@,
        entry is None ==> bound.terminal_delivery_fingerprint is None,
        entry matches Some(mark) ==> bound.terminal_delivery_fingerprint is Some
            && bound.terminal_delivery_fingerprint->0@ == mark@,
        bot@ == "provider:"@ + name@,
{
    assert(scope@.channel_id == channel_id);
    assert(bound@.channel_id == channel_id);
}

/// Two scopes are those of one card when the channel, the provider, the session and the event
/// are the same, whatever the provider calls its entry.
pub proof fn law_card_is_told_by_four_parts(
    a: TaskCardScope,
    b: TaskCardScope,
    mark: String,
    marked: TaskCardScope,
    r: bool,
    same_marked: bool,
)
    requires
        call_ensures(TaskCardScope::same_card, (&a, &b), r),
        call_ensures(TaskCardScope::with_terminal_delivery_fingerprint, (a, mark), marked),
        call_ensures(TaskCardScope::same_card, (&marked, &b), same_marked),
    ensures
        r <==> a.channel_id == b.channel_id && a.provider@ == b.provider@ && a.session_key@
            == b.session_key@ && a.event_key@ == b.event_key@,
        same_marked == r,
        marked.terminal_delivery_fingerprint is Some,
        marked.terminal_delivery_fingerprint->0@ == mark@,
{
    assert(a@.channel_id == a.channel_id);
    assert(b@.channel_id == b.channel_id);
}

/// The nonce of a card goes over the whole scope and the revision, and nothing else; the key
/// of a turn goes over the message, the start and the offset.
pub proof fn law_keys_go_over_what_they_name(
    scope: TaskCardScope,
    revision: i32,
    nonce: String,
    channel: String,
    count: String,
    user_msg_id: u64,
    started_at: &str,
    offset: Option<u64>,
    turn: String,
    id: String,
    place: String,
)
    requires
        call_ensures(stable_nonce, (&scope, revision), nonce),
        call_ensures(text::u64_text, (scope.channel_id,), channel),
        call_ensures(text::i32_text, (revision,), count),
        call_ensures(response_turn_key, (user_msg_id, started_at, offset), turn),
        call_ensures(text::u64_text, (user_msg_id,), id),
        offset is Some ==> call_ensures(text::u64_text, (offset->0,), place),
        offset is None ==> place@ == "legacy-none"@,
    ensures
        nonce@ == "adktn"@ + hashing::sha256_hex(
            sealed("task-card-nonce-v1"@) + sealed(channel@) + sealed(scope.provider@) + sealed(
                scope.session_key@,
            ) + sealed(scope.event_key@) + sealed(count@),
        ).take(20),
        turn@ == hashing::sha256_hex(
            sealed("task-response-turn-v1"@) + sealed(id@) + sealed(started_at@) + sealed(place@),
        ),
{
    lemma_six_parts(
        "task-card-nonce-v1"@,
        channel@,
        scope.provider@,
        scope.session_key@,
        scope.event_key@,
        count@,
    );
    lemma_four_parts("task-response-turn-v1"@, id@, started_at@, place@);
    assert(identity::turn_key_parts(user_msg_id, started_at@, offset) =~= seq![
        "task-response-turn-v1"@,
        id@,
        started_at@,
        place@,
    ]);
}

/// The entry of a provider is marked by the provider's name and the entry's identifier.
pub proof fn law_entry_is_marked_by_its_provider(
    provider: &str,
    source_event_id: &str,
    name: String,
    out: String,
)
    requires
        call_ensures(terminal_source_fingerprint, (provider, source_event_id), out),
        call_ensures(normalized_provider, (provider,), name),
    ensures
        out@ == hashing::sha256_hex(
            sealed("task-terminal-source-v1"@) + sealed(name@) + sealed(source_event_id@),
        ),
{
    lemma_three_parts("task-terminal-source-v1"@, name@, source_event_id@);
}

/// The marker of a background task and that of a monitor name the channel and the event; a
/// subagent has no marker.
pub proof fn law_markers_name_channel_and_event(
    channel_id: u64,
    event_key: &str,
    channel: String,
    footer: String,
    background: Option<String>,
    monitor: Option<String>,
    subagent: Option<String>,
)
    requires
        call_ensures(text::u64_text, (channel_id,), channel),
        call_ensures(footer_background_marker_session_key, (channel_id, event_key), footer),
        call_ensures(
            task_notification_marker_session_key,
            (channel_id, event_key, TaskNotificationKind::Background),
            background,
        ),
        call_ensures(
            task_notification_marker_session_key,
            (channel_id, event_key, TaskNotificationKind::MonitorAutoTurn),
            monitor,
        ),
        call_ensures(
            task_notification_marker_session_key,
            (channel_id, event_key, TaskNotificationKind::Subagent),
            subagent,
        ),
    ensures
        footer@ == "footer_background:ch:"@ + channel@ + ":"@ + event_key@,
        background is Some && background->0@ == footer@,
        monitor is Some && monitor->0@ == "monitor_auto_turn:ch:"@ + channel@ + ":event:"@
            + event_key@,
        subagent is None,
{
}

// ---------------------------------------------------------------------------
// Events
// ---------------------------------------------------------------------------
/// The event of a task notification in a prompt has the notification's ids on one line, its
/// kind and its routing, and shows the notification itself; its key is made of the same ids
/// and of what the notification says.
pub proof fn law_prompt_gives_its_event(
    channel_id: u64,
    provider: &str,
    session_key: &str,
    note: TaskNotification,
    out: TaskCardEvent,
    task: Option<&str>,
    tool: Option<&str>,
    task_id: Option<String>,
    tool_use_id: Option<String>,
    clean_task: Option<&str>,
    clean_tool: Option<&str>,
    status: &str,
    summary: &str,
    payload: String,
    payload_text: &str,
    key: String,
    name: String,
)
    requires
        call_ensures(
            TaskCardEvent::from_task_prompt,
            (channel_id, provider, session_key, note),
            out,
        ),
        identity::slice_text(task) == text::opt_text(note.task_id),
        identity::slice_text(tool) == text::opt_text(note.tool_use_id),
        call_ensures(clean_optional, (task,), task_id),
        call_ensures(clean_optional, (tool,), tool_use_id),
        identity::slice_text(clean_task) == text::opt_text(task_id),
        identity::slice_text(clean_tool) == text::opt_text(tool_use_id),
        note.status matches Some(s) ==> status@ == s@,
        note.status is None ==> status@ == Seq::<char>::empty(),
        note.summary matches Some(s) ==> summary@ == s@,
        note.summary is None ==> summary@ == Seq::<char>::empty(),
        call_ensures(
            normalized_task_payload_fingerprint,
            (clean_task, clean_tool, status, summary),
            payload,
        ),
        payload_text@ == payload@,
        call_ensures(semantic_event_key, (clean_task, clean_tool, payload_text), key),
        call_ensures(normalized_provider, (provider,), name),
    ensures
        out.scope.channel_id == channel_id,
        out.scope.provider@ == name@,
        out.scope.session_key@ == session_key@,
        out.scope.event_key@ == key@,
        out.scope.terminal_delivery_fingerprint is None,
        text::opt_text(out.task_id) == text::opt_text(task_id),
        text::opt_text(out.tool_use_id) == text::opt_text(tool_use_id),
        out.kind@ == note.kind@,
        out.routing_kind == note.routing_kind,
        out.payload == TaskCardPayload::Task(note),
{
    let v = out@;
    let s = v.scope;
    assert(s.channel_id == channel_id);
}

/// The identifier of the provider's entry changes nothing of an event but the mark on its
/// scope; a blank identifier gives no mark.
pub proof fn law_entry_changes_only_the_mark(
    channel_id: u64,
    provider: &str,
    session_key: &str,
    note: TaskNotification,
    source: Option<&str>,
    without: TaskCardEvent,
    with: TaskCardEvent,
    trimmed: &str,
    mark: String,
)
    requires
        call_ensures(
            TaskCardEvent::from_task_prompt,
            (channel_id, provider, session_key, note),
            without,
        ),
        call_ensures(
            TaskCardEvent::from_task_prompt_with_source_event_id,
            (channel_id, provider, session_key, note, source),
            with,
        ),
        source is Some ==> call_ensures(text::trim, (source->0,), trimmed),
        call_ensures(terminal_source_fingerprint, (provider, trimmed), mark),
    ensures
        with.scope.event_key@ == without.scope.event_key@,
        with.scope.channel_id == without.scope.channel_id,
        with.scope.provider@ == without.scope.provider@,
        with.scope.session_key@ == without.scope.session_key@,
        with.payload == without.payload,
        with.kind@ == without.kind@,
        with.routing_kind == without.routing_kind,
        source is None ==> with.scope.terminal_delivery_fingerprint is None,
        source is Some && trimmed@.len() == 0 ==> with.scope.terminal_delivery_fingerprint is None,
        source is Some && trimmed@.len() > 0 ==> with.scope.terminal_delivery_fingerprint is Some
            && with.scope.terminal_delivery_fingerprint->0@ == mark@,
{
    let v = with@;
    let w = without@;
    assert(v.scope == w.scope);
}

/// The event of a subagent's notification that could be read has its ids and the key that they
/// and its fingerprint make. One that could not be read is known by the whole prompt, and has
/// no ids. Both are a subagent's, and show the card that was written.
pub proof fn law_subagent_gives_its_event(
    channel_id: u64,
    provider: &str,
    session_key: &str,
    semantic: Option<SubagentNotificationSemantic>,
    prompt: &str,
    card: String,
    out: TaskCardEvent,
    task: Option<&str>,
    tool: Option<&str>,
    print: &str,
    key: String,
    name: String,
)
    requires
        call_ensures(
            TaskCardEvent::from_subagent_prompt,
            (channel_id, provider, session_key, semantic, prompt, card),
            out,
        ),
        semantic matches Some(meant) ==> {
            &&& identity::slice_text(task) == text::opt_text(meant.task_id)
            &&& identity::slice_text(tool) == text::opt_text(meant.tool_use_id)
            &&& print@ == meant.payload_fingerprint@
        },
        call_ensures(semantic_event_key, (task, tool, print), key),
        call_ensures(normalized_provider, (provider,), name),
    ensures
        out.scope.channel_id == channel_id,
        out.scope.provider@ == name@,
        out.scope.session_key@ == session_key@,
        out.kind@ == "subagent"@,
        out.routing_kind is Subagent,
        out.payload == TaskCardPayload::Subagent(card),
        semantic is Some ==> out.scope.event_key@ == key@ && text::opt_text(out.task_id)
            == identity::slice_text(task) && text::opt_text(out.tool_use_id)
            == identity::slice_text(tool),
        semantic is None ==> out.task_id is None && out.tool_use_id is None
            && out.scope.event_key@ == "payload:"@ + hashing::sha256_hex(
            sealed("malformed-subagent"@) + sealed(prompt@),
        ).take(16),
{
    let v = out@;
    let s = v.scope;
    assert(s.channel_id == channel_id);
    lemma_two_parts("malformed-subagent"@, prompt@);
}

/// An event is shown in the footer first when it names its task or its tool use, unless it is
/// a subagent's. What is read of an event is what it holds.
pub proof fn law_named_event_may_wait_in_the_footer(
    event: TaskCardEvent,
    channel_id: u64,
    defers: bool,
    tool: Option<&str>,
    kind: &str,
    routing: TaskNotificationKind,
    key: &str,
    marker: Option<String>,
    expected: Option<String>,
)
    requires
        call_ensures(TaskCardEvent::supports_footer_deferral, (&event,), defers),
        call_ensures(TaskCardEvent::tool_use_id, (&event,), tool),
        call_ensures(TaskCardEvent::kind, (&event,), kind),
        call_ensures(TaskCardEvent::routing_kind, (&event,), routing),
        call_ensures(TaskCardEvent::event_key, (&event,), key),
        call_ensures(TaskCardEvent::lifecycle_marker_session_key, (&event, channel_id), marker),
        call_ensures(
            task_notification_marker_session_key,
            (channel_id, key, routing),
            expected,
        ),
    ensures
        event.routing_kind is Subagent ==> !defers,
        !(event.routing_kind is Subagent) && event.task_id is Some ==> defers,
        !(event.routing_kind is Subagent) && event.tool_use_id is Some ==> defers,
        event.task_id is None && event.tool_use_id is None ==> !defers,
        identity::slice_text(tool) == text::opt_text(event.tool_use_id),
        kind@ == event.kind@,
        routing == event.routing_kind,
        key@ == event.scope.event_key@,
        text::opt_text(marker) == text::opt_text(expected),
{
}

/// A card of a task is shown as it is written for its count. One of a subagent is shown as it
/// was written, and from the second update on it tells how many there were.
pub proof fn law_card_shows_its_payload(
    payload: TaskCardPayload,
    updates: u64,
    task_card: &str,
    out: String,
    count: String,
)
    requires
        call_ensures(TaskCardPayload::render, (&payload, updates, task_card), out),
        call_ensures(text::u64_text, (updates,), count),
    ensures
        payload is Task ==> out@ == task_card@,
        payload matches TaskCardPayload::Subagent(card) ==> {
            &&& updates <= 1 ==> out@ == card@
            &&& updates >= 2 ==> out@ == card@ + "\n\n-# "@ + count@ + " updates"@
        },
{
}

// ---------------------------------------------------------------------------
// The stream
// ---------------------------------------------------------------------------
/// Of the stream, what is read is a system message whose subtype is a task notification, and
/// nothing else.
pub proof fn law_only_task_notifications_are_read(
    value: JsonValue,
    r: Option<TaskStreamFields>,
    kind: Option<&str>,
    subtype: Option<&str>,
)
    requires
        call_ensures(task_stream_fields, (&value,), r),
        call_ensures(JsonValue::get_str, (&value, "type"), kind),
        call_ensures(JsonValue::get_str, (&value, "subtype"), subtype),
    ensures
        r is Some <==> kind is Some && kind->0@ == "system"@ && subtype is Some && subtype->0@
            == "task_notification"@,
{
}

/// What is read of a notification is what its fields hold: the tool use under any of its three
/// names, the first first, and the description in place of a summary that is not there.
pub proof fn law_notification_fields_are_read(
    value: JsonValue,
    fields: TaskStreamFields,
    task: Option<&str>,
    tool: Option<&str>,
    dashed: Option<&str>,
    camel: Option<&str>,
    status: Option<&str>,
    has_summary: Option<&JsonValue>,
    summary: Option<&str>,
    description: Option<&str>,
    kind: Option<&str>,
)
    requires
        call_ensures(task_stream_fields, (&value,), Some(fields)),
        call_ensures(JsonValue::get_str, (&value, "task_id"), task),
        call_ensures(JsonValue::get_str, (&value, "tool_use_id"), tool),
        call_ensures(JsonValue::get_str, (&value, "tool-use-id"), dashed),
        call_ensures(JsonValue::get_str, (&value, "toolUseId"), camel),
        call_ensures(JsonValue::get_str, (&value, "status"), status),
        call_ensures(JsonValue::get, (&value, "summary"), has_summary),
        call_ensures(JsonValue::get_str, (&value, "summary"), summary),
        call_ensures(JsonValue::get_str, (&value, "description"), description),
        call_ensures(JsonValue::get_str, (&value, "task_notification_kind"), kind),
    ensures
        text::opt_text(fields.task_id) == identity::slice_text(task),
        tool is Some ==> text::opt_text(fields.tool_use_id) == identity::slice_text(tool),
        tool is None && dashed is Some ==> text::opt_text(fields.tool_use_id)
            == identity::slice_text(dashed),
        tool is None && dashed is None ==> text::opt_text(fields.tool_use_id)
            == identity::slice_text(camel),
        status is Some ==> fields.status@ == status->0@,
        status is None ==> fields.status@.len() == 0,
        has_summary is Some && summary is Some ==> fields.summary@ == summary->0@,
        has_summary is Some && summary is None ==> fields.summary@.len() == 0,
        has_summary is None && description is Some ==> fields.summary@ == description->0@,
        has_summary is None && description is None ==> fields.summary@.len() == 0,
        text::opt_text(fields.kind) == identity::slice_text(kind),
{
}

proof fn lemma_first_start(starts: Seq<TaskStart>, task_id: Seq<char>, k: int)
    requires
        0 <= k <= starts.len(),
        forall|j: int| 0 <= j < k ==> (#[trigger] starts[j]).task_id@ != task_id,
    ensures
        k < starts.len() && starts[k].task_id@ == task_id ==> context::started_tool_use(
            starts,
            task_id,
        ) == text::opt_text(starts[k].tool_use_id),
        k == starts.len() ==> context::started_tool_use(starts, task_id) is None,
    decreases starts.len(),
{
    if k > 0 {
        let rest = starts.drop_first();
        assert(starts[0].task_id@ != task_id);
        assert forall|j: int| 0 <= j < k - 1 implies (#[trigger] rest[j]).task_id@ != task_id by {
            assert(rest[j] == starts[j + 1]);
        }
        lemma_first_start(rest, task_id, k - 1);
        if k < starts.len() {
            assert(rest[k - 1] == starts[k]);
        }
    }
}

/// The context of a notification holds its fields on one line. A tool use that it does not
/// name is the one that started its task, and a kind that it does not name is the one that it
/// was classified as. Its key is made of the same ids and of what it says.
pub proof fn law_stream_gives_its_context(
    fields: TaskStreamFields,
    starts: Vec<TaskStart>,
    classified: &str,
    out: TaskNotificationContext,
    task: Option<&str>,
    tool: Option<&str>,
    started: Option<&str>,
    kind: Option<&str>,
    status: &str,
    summary: &str,
    clean_task: Option<String>,
    clean_tool: Option<String>,
    clean_started: Option<String>,
    clean_kind: Option<String>,
    status_line: String,
    summary_line: String,
    k: int,
)
    requires
        call_ensures(
            TaskNotificationContext::from_stream_json,
            (&fields, &starts, classified),
            out,
        ),
        identity::slice_text(task) == text::opt_text(fields.task_id),
        identity::slice_text(tool) == text::opt_text(fields.tool_use_id),
        identity::slice_text(kind) == text::opt_text(fields.kind),
        status@ == fields.status@,
        summary@ == fields.summary@,
        call_ensures(clean_optional, (task,), clean_task),
        call_ensures(clean_optional, (tool,), clean_tool),
        call_ensures(clean_optional, (started,), clean_started),
        call_ensures(clean_optional, (kind,), clean_kind),
        call_ensures(clean_line, (status,), status_line),
        call_ensures(clean_line, (summary,), summary_line),
        0 <= k <= starts@.len(),
        clean_task is Some ==> forall|j: int|
            0 <= j < k ==> (#[trigger] starts@[j]).task_id@ != clean_task->0@,
        clean_task is Some && k < starts@.len() ==> starts@[k].task_id@ == clean_task->0@
            && identity::slice_text(started) == text::opt_text(starts@[k].tool_use_id),
    ensures
        text::opt_text(out.task_id) == text::opt_text(clean_task),
        clean_tool is Some ==> text::opt_text(out.tool_use_id) == text::opt_text(clean_tool),
        clean_tool is None && clean_task is Some && k < starts@.len() ==> text::opt_text(
            out.tool_use_id,
        ) == text::opt_text(clean_started),
        clean_tool is None && (clean_task is None || k == starts@.len()) ==> out.tool_use_id is None,
        out.status@ == status_line@,
        out.summary@ == summary_line@,
        clean_kind is Some ==> out.kind@ == clean_kind->0@,
        clean_kind is None ==> out.kind@ == classified@,
{
    let v = out@;
    assert(v.task_id == text::opt_text(out.task_id));
    if clean_task is Some {
        lemma_first_start(starts@, clean_task->0@, k);
    }
}

/// The key of a context is made of the ids that it holds and of what it says.
pub proof fn law_context_is_keyed_by_what_it_holds(
    fields: TaskStreamFields,
    starts: Vec<TaskStart>,
    classified: &str,
    out: TaskNotificationContext,
    task: Option<&str>,
    tool: Option<&str>,
    status: &str,
    summary: &str,
    payload: String,
    payload_text: &str,
    key: String,
    read_key: &str,
    read_summary: &str,
)
    requires
        call_ensures(
            TaskNotificationContext::from_stream_json,
            (&fields, &starts, classified),
            out,
        ),
        identity::slice_text(task) == text::opt_text(out.task_id),
        identity::slice_text(tool) == text::opt_text(out.tool_use_id),
        status@ == out.status@,
        summary@ == out.summary@,
        call_ensures(
            normalized_task_payload_fingerprint,
            (task, tool, status, summary),
            payload,
        ),
        payload_text@ == payload@,
        call_ensures(semantic_event_key, (task, tool, payload_text), key),
        call_ensures(TaskNotificationContext::event_key, (&out,), read_key),
        call_ensures(TaskNotificationContext::summary, (&out,), read_summary),
    ensures
        out.event_key@ == key@,
        read_key@ == key@,
        read_summary@ == out.summary@,
{
    let v = out@;
    assert(v.task_id == text::opt_text(out.task_id));
}

/// A context is routed as a subagent's or a monitor's when its kind says so, and as a
/// background task's under any other kind.
pub proof fn law_kind_decides_the_route(c: TaskNotificationContext, r: TaskNotificationKind)
    requires
        call_ensures(TaskNotificationContext::routing_kind, (&c,), r),
    ensures
        c.kind@ == "subagent"@ <==> r is Subagent,
        c.kind@ == "monitor_auto_turn"@ <==> r is MonitorAutoTurn,
{
    reveal_strlit("subagent");
    reveal_strlit("monitor_auto_turn");
    assert("subagent"@.len() == 8);
    assert("monitor_auto_turn"@.len() == 17);
}

/// The event of a context has its ids, its kind, its route and its key, and shows a
/// notification with the same; a status or a summary with nothing in it is left out.
pub proof fn law_context_gives_its_event(
    c: TaskNotificationContext,
    channel_id: u64,
    provider: &str,
    session_key: &str,
    out: TaskCardEvent,
    name: String,
    route: TaskNotificationKind,
    status: &str,
    summary: &str,
    clean_status: Option<String>,
    clean_summary: Option<String>,
)
    requires
        call_ensures(
            TaskNotificationContext::to_event,
            (&c, channel_id, provider, session_key),
            out,
        ),
        call_ensures(normalized_provider, (provider,), name),
        call_ensures(TaskNotificationContext::routing_kind, (&c,), route),
        status@ == c.status@,
        summary@ == c.summary@,
        call_ensures(clean_optional, (Some(status),), clean_status),
        call_ensures(clean_optional, (Some(summary),), clean_summary),
    ensures
        out.scope.channel_id == channel_id,
        out.scope.provider@ == name@,
        out.scope.session_key@ == session_key@,
        out.scope.event_key@ == c.event_key@,
        out.scope.terminal_delivery_fingerprint is None,
        text::opt_text(out.task_id) == text::opt_text(c.task_id),
        text::opt_text(out.tool_use_id) == text::opt_text(c.tool_use_id),
        out.kind@ == c.kind@,
        out.routing_kind == route,
        out.payload is Task,
        ({
            let note = out.payload->Task_0;
            &&& text::opt_text(note.task_id) == text::opt_text(c.task_id)
            &&& text::opt_text(note.tool_use_id) == text::opt_text(c.tool_use_id)
            &&& text::opt_text(note.status) == text::opt_text(clean_status)
            &&& text::opt_text(note.summary) == text::opt_text(clean_summary)
            &&& note.kind@ == c.kind@
            &&& note.routing_kind == route
        }),
{
    let v = out@;
    let s = v.scope;
    assert(s.channel_id == channel_id);
    let note = out.payload->Task_0;
    let n = note@;
    assert(n.task_id == text::opt_text(c.task_id));
}

/// Where notifications meet, a monitor's stays before a background task's, and that before a
/// subagent's; of two of one route the later stays. The one that stays is whole.
pub proof fn law_monitor_goes_before_background_before_subagent(
    held: TaskNotificationContext,
    next: TaskNotificationContext,
    r: Option<TaskNotificationContext>,
    first: Option<TaskNotificationContext>,
    held_route: TaskNotificationKind,
    next_route: TaskNotificationKind,
)
    requires
        call_ensures(merge_context, (Some(held), next), r),
        call_ensures(merge_context, (None, next), first),
        call_ensures(TaskNotificationContext::routing_kind, (&held,), held_route),
        call_ensures(TaskNotificationContext::routing_kind, (&next,), next_route),
    ensures
        first is Some && first->0@ == next@,
        r is Some,
        held_route is MonitorAutoTurn && !(next_route is MonitorAutoTurn) ==> r->0@ == held@,
        held_route is Background && next_route is Subagent ==> r->0@ == held@,
        next_route is MonitorAutoTurn ==> r->0@ == next@,
        held_route is Subagent ==> r->0@ == next@,
        held_route is Background && next_route is Background ==> r->0@ == next@,
{
}

} // verus!
