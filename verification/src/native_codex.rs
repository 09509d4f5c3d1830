//! Messages of the native Codex rollout, as the events that the watcher reads.
//!
//! Each message either updates what is known of the stream, or becomes one line of
//! JSON in the form that the watcher's reader understands.

use vstd::prelude::*;

use crate::json::{compact, quote, quote_optional};
use crate::json;
use crate::text;

verus! {

/// How a turn came to its end in the output.
#[derive(Debug, Clone, Copy, PartialEq, Eq, Structural)]
pub enum WatcherTerminalKind {
    HardResult,
    SoftStopHookSummary,
    SoftUserBoundary,
}

/// A message of the rollout.
#[allow(inconsistent_fields)]
#[derive(Debug, PartialEq, Eq)]
pub enum StreamMessage {
    Init { session_id: String },
    Text { content: String },
    ToolUse { name: String, input: String, tool_use_id: Option<String> },
    ToolResult { content: String, is_error: bool, tool_use_id: Option<String> },
    Thinking,
    StatusUpdate {
        model: Option<String>,
        input_tokens: Option<u64>,
        cache_create_tokens: Option<u64>,
        cache_read_tokens: Option<u64>,
        output_tokens: Option<u64>,
    },
    Done { result: String, session_id: Option<String> },
    Other,
}

/// What is known of the stream.
#[derive(Debug, PartialEq, Eq)]
pub struct StreamLineState {
    pub last_session_id: Option<String>,
    pub last_model: Option<String>,
    pub accum_input_tokens: u64,
    pub accum_cache_create_tokens: u64,
    pub accum_cache_read_tokens: u64,
    pub accum_output_tokens: u64,
}

/// What reading lines gave.
#[derive(Debug, Clone, Copy, PartialEq, Eq)]
pub struct WatcherLineOutcome {
    pub assistant_text_seen: bool,
    pub found_result: bool,
    pub terminal_kind: Option<WatcherTerminalKind>,
}

// ---------------------------------------------------------------------------
// Events
// ---------------------------------------------------------------------------
/// The JSON of a tool's input: the value that it holds, or else the text itself.
pub open spec fn input_json(compacted: Option<Seq<char>>, input: Seq<char>) -> Seq<char> {
    match compacted {
        Some(value) => value,
        None => json::json_string(input),
    }
}

/// The line for a piece of text, whose JSON is `content`.
pub open spec fn text_delta(content: Seq<char>) -> Seq<char> {
    "{\"delta\":{\"text\":"@ + content + "},\"type\":\"content_block_delta\"}\n"@
}

/// The line for a piece of text, whose JSON is `content`.
pub fn text_delta_line(content: &str) -> (line: String)
    ensures
        line@ == text_delta(content@),
{
    let mut line: String = "{\"delta\":{\"text\":".to_owned();
    line.append(content);
    line.append("},\"type\":\"content_block_delta\"}\n");
    line
}

/// The line for the use of a tool. Its arguments are JSON.
pub open spec fn tool_use(id: Seq<char>, input: Seq<char>, name: Seq<char>) -> Seq<char> {
    "{\"message\":{\"content\":[{\"id\":"@ + id + ",\"input\":"@ + input + ",\"name\":"@ + name
        + ",\"type\":\"tool_use\"}]},\"type\":\"assistant\"}\n"@
}

/// The line for the use of a tool. Its arguments are JSON.
pub fn tool_use_line(id: &str, input: &str, name: &str) -> (line: String)
    ensures
        line@ == tool_use(id@, input@, name@),
{
    let mut line: String = "{\"message\":{\"content\":[{\"id\":".to_owned();
    line.append(id);
    line.append(",\"input\":");
    line.append(input);
    line.append(",\"name\":");
    line.append(name);
    line.append(",\"type\":\"tool_use\"}]},\"type\":\"assistant\"}\n");
    line
}

/// The line for the result of a tool. Its arguments are JSON but for the flag.
pub open spec fn tool_result(content: Seq<char>, is_error: bool, id: Seq<char>) -> Seq<char> {
    "{\"message\":{\"content\":[{\"content\":"@ + content + ",\"is_error\":"@ + (if is_error {
        "true"@
    } else {
        "false"@
    }) + ",\"tool_use_id\":"@ + id + ",\"type\":\"tool_result\"}]},\"type\":\"user\"}\n"@
}

/// The line for the result of a tool. Its arguments are JSON but for the flag.
pub fn tool_result_line(content: &str, is_error: bool, id: &str) -> (line: String)
    ensures
        line@ == tool_result(content@, is_error, id@),
{
    let mut line: String = "{\"message\":{\"content\":[{\"content\":".to_owned();
    line.append(content);
    line.append(",\"is_error\":");
    if is_error {
        line.append("true");
    } else {
        line.append("false");
    }
    line.append(",\"tool_use_id\":");
    line.append(id);
    line.append(",\"type\":\"tool_result\"}]},\"type\":\"user\"}\n");
    line
}

/// The line for the result of a turn. Its arguments are JSON.
pub open spec fn turn_result(result: Seq<char>, session_id: Seq<char>) -> Seq<char> {
    "{\"result\":"@ + result + ",\"session_id\":"@ + session_id + ",\"type\":\"result\"}\n"@
}

/// The line for the result of a turn. Its arguments are JSON.
pub fn turn_result_line(result: &str, session_id: &str) -> (line: String)
    ensures
        line@ == turn_result(result@, session_id@),
{
    let mut line: String = "{\"result\":".to_owned();
    line.append(result);
    line.append(",\"session_id\":");
    line.append(session_id);
    line.append(",\"type\":\"result\"}\n");
    line
}

/// The line that a message becomes.
pub open spec fn event_line(message: StreamMessage) -> Option<Seq<char>> {
    match message {
        StreamMessage::Text { content } => Some(text_delta(json::json_string(content@))),
        StreamMessage::ToolUse { name, input, tool_use_id } => Some(
            tool_use(
                json::optional_json(text::opt_text(tool_use_id)),
                input_json(json::compact_json(input@), input@),
                json::json_string(name@),
            ),
        ),
        StreamMessage::ToolResult { content, is_error, tool_use_id } => Some(
            tool_result(
                json::json_string(content@),
                is_error,
                json::optional_json(text::opt_text(tool_use_id)),
            ),
        ),
        StreamMessage::Thinking => Some(
            "{\"message\":{\"content\":[{\"type\":\"thinking\"}]},\"type\":\"assistant\"}\n"@,
        ),
        StreamMessage::Done { result, session_id } => Some(
            turn_result(
                json::json_string(result@),
                json::optional_json(text::opt_text(session_id)),
            ),
        ),
        StreamMessage::Init { .. } => None,
        StreamMessage::StatusUpdate { .. } => None,
        StreamMessage::Other => None,
    }
}

/// The line that a message becomes, if it becomes one.
pub fn native_codex_line(message: &StreamMessage) -> (out: Option<String>)
    ensures
        text::opt_text(out) == event_line(*message),
{
    match message {
        StreamMessage::Text { content } => Some(
            text_delta_line(quote(content.as_str()).as_str()),
        ),
        StreamMessage::ToolUse { name, input, tool_use_id } => {
            let value = match compact(input.as_str()) {
                Some(value) => value,
                None => quote(input.as_str()),
            };
            Some(
                tool_use_line(
                    quote_optional(tool_use_id).as_str(),
                    value.as_str(),
                    quote(name.as_str()).as_str(),
                ),
            )
        },
        StreamMessage::ToolResult { content, is_error, tool_use_id } => Some(
            tool_result_line(
                quote(content.as_str()).as_str(),
                *is_error,
                quote_optional(tool_use_id).as_str(),
            ),
        ),
        StreamMessage::Thinking => Some(
            "{\"message\":{\"content\":[{\"type\":\"thinking\"}]},\"type\":\"assistant\"}\n".to_owned(),
        ),
        StreamMessage::Done { result, session_id } => Some(
            turn_result_line(
                quote(result.as_str()).as_str(),
                quote_optional(session_id).as_str(),
            ),
        ),
        StreamMessage::Init { .. } => None,
        StreamMessage::StatusUpdate { .. } => None,
        StreamMessage::Other => None,
    }
}

// ---------------------------------------------------------------------------
// One message after another
// ---------------------------------------------------------------------------
/// A count, or the count before where none is given.
pub open spec fn updated_count(new: Option<u64>, old_count: u64) -> u64 {
    match new {
        Some(count) => count,
        None => old_count,
    }
}

fn keep_count(new: Option<u64>, old_count: u64) -> (r: u64)
    ensures
        r == updated_count(new, old_count),
{
    match new {
        Some(count) => count,
        None => old_count,
    }
}

/// What is known of the stream after a message.
pub open spec fn state_after(state: StreamLineState, message: StreamMessage) -> StreamLineState {
    match message {
        StreamMessage::Init { session_id } => StreamLineState {
            last_session_id: Some(session_id),
            ..state
        },
        StreamMessage::StatusUpdate {
            model,
            input_tokens,
            cache_create_tokens,
            cache_read_tokens,
            output_tokens,
        } => StreamLineState {
            last_session_id: state.last_session_id,
            last_model: if model is Some {
                model
            } else {
                state.last_model
            },
            accum_input_tokens: updated_count(input_tokens, state.accum_input_tokens),
            accum_cache_create_tokens: updated_count(
                cache_create_tokens,
                state.accum_cache_create_tokens,
            ),
            accum_cache_read_tokens: updated_count(
                cache_read_tokens,
                state.accum_cache_read_tokens,
            ),
            accum_output_tokens: updated_count(output_tokens, state.accum_output_tokens),
        },
        _ => state,
    }
}

/// Takes one message: updates what is known of the stream, and gives the line that
/// the watcher's reader is to read next, if there is one. The result of a turn is the
/// response, whatever was read before it.
pub fn process_native_codex_messages(
    message: StreamMessage,
    state: &mut StreamLineState,
    response: &mut String,
) -> (line: Option<String>)
    ensures
        text::opt_text(line) == event_line(message),
        *final(state) == state_after(*old(state), message),
        final(response)@ == match message {
            StreamMessage::Done { result, .. } => result@,
            _ => old(response)@,
        },
{
    let line = native_codex_line(&message);
    match message {
        StreamMessage::Init { session_id } => {
            state.last_session_id = Some(session_id);
        },
        StreamMessage::StatusUpdate {
            model,
            input_tokens,
            cache_create_tokens,
            cache_read_tokens,
            output_tokens,
        } => {
            if model.is_some() {
                state.last_model = model;
            }
            state.accum_input_tokens = keep_count(input_tokens, state.accum_input_tokens);
            state.accum_cache_create_tokens = keep_count(
                cache_create_tokens,
                state.accum_cache_create_tokens,
            );
            state.accum_cache_read_tokens = keep_count(
                cache_read_tokens,
                state.accum_cache_read_tokens,
            );
            state.accum_output_tokens = keep_count(output_tokens, state.accum_output_tokens);
        },
        StreamMessage::Done { result, .. } => {
            *response = result;
        },
        _ => {},
    }
    line
}

/// What was read so far, with what reading one more line gave: text that was seen
/// stays seen, and the last result decides how the turn came to its end.
pub fn fold_line_outcome(result: &mut WatcherLineOutcome, outcome: WatcherLineOutcome)
    ensures
        *final(result) == (WatcherLineOutcome {
            assistant_text_seen: old(result).assistant_text_seen || outcome.assistant_text_seen,
            found_result: old(result).found_result || outcome.found_result,
            terminal_kind: if outcome.found_result {
                outcome.terminal_kind
            } else {
                old(result).terminal_kind
            },
        }),
{
    result.assistant_text_seen = result.assistant_text_seen || outcome.assistant_text_seen;
    if outcome.found_result {
        result.found_result = true;
        result.terminal_kind = outcome.terminal_kind;
    }
}

// ---------------------------------------------------------------------------
// What the lines hold
// ---------------------------------------------------------------------------
/// The fields of a JSON object: their names, and the JSON of their values.
pub open spec fn json_fields(fields: Seq<(Seq<char>, Seq<char>)>) -> Seq<char>
    decreases fields.len(),
{
    if fields.len() == 0 {
        Seq::empty()
    } else {
        let first = json::json_string(fields[0].0) + seq![':'] + fields[0].1;
        if fields.len() == 1 {
            first
        } else {
            first + seq![','] + json_fields(fields.drop_first())
        }
    }
}

/// A JSON object, with its fields in order.
pub open spec fn json_object(fields: Seq<(Seq<char>, Seq<char>)>) -> Seq<char> {
    seq!['{'] + json_fields(fields) + seq!['}']
}

/// A JSON array of one value.
pub open spec fn json_array_of(value: Seq<char>) -> Seq<char> {
    seq!['['] + value + seq![']']
}

/// A text in which JSON escapes nothing.
spec fn is_plain(s: Seq<char>) -> bool {
    forall|i: int|
        0 <= i < s.len() ==> (#[trigger] s[i]) as int >= 32 && s[i] != '"' && s[i] != '\\'
}

proof fn lemma_plain_is_quoted(s: Seq<char>)
    requires
        is_plain(s),
    ensures
        json::json_string(s) == seq!['"'] + s + seq!['"'],
{
    lemma_plain_is_not_escaped(s);
}

proof fn lemma_plain_is_not_escaped(s: Seq<char>)
    requires
        is_plain(s),
    ensures
        json::escaped(s) == s,
    decreases s.len(),
{
    if s.len() > 0 {
        assert(s.drop_last().push(s.last()) =~= s);
        assert forall|i: int| 0 <= i < s.drop_last().len() implies (#[trigger] s.drop_last()[i]) as int
            >= 32 && s.drop_last()[i] != '"' && s.drop_last()[i] != '\\' by {
            assert(s.drop_last()[i] == s[i]);
        }
        assert(s[s.len() - 1] == s.last());
        lemma_plain_is_not_escaped(s.drop_last());
        assert(json::escaped(s) =~= s);
    }
}

proof fn lemma_two_fields(a: (Seq<char>, Seq<char>), b: (Seq<char>, Seq<char>))
    ensures
        json_object(seq![a, b]) == seq!['{'] + json::json_string(a.0) + seq![':'] + a.1 + seq![',']
            + json::json_string(b.0) + seq![':'] + b.1 + seq!['}'],
        json_fields(seq![a, b]) == json::json_string(a.0) + seq![':'] + a.1 + seq![',']
            + json::json_string(b.0) + seq![':'] + b.1,
{
    assert(json_fields(seq![a, b]) =~= json::json_string(a.0) + seq![':'] + a.1 + seq![',']
        + json::json_string(b.0) + seq![':'] + b.1) by {
        assert(seq![a, b].drop_first() =~= seq![b]);
        assert(json_fields(seq![b]) == json::json_string(b.0) + seq![':'] + b.1);
    }
    assert(seq![a, b].drop_first() =~= seq![b]);
    assert(json_fields(seq![b]) == json::json_string(b.0) + seq![':'] + b.1);
    assert(json_object(seq![a, b]) =~= seq!['{'] + json::json_string(a.0) + seq![':'] + a.1 + seq![',']
        + json::json_string(b.0) + seq![':'] + b.1 + seq!['}']);
}

proof fn lemma_fields_from_the_front(
    first: (Seq<char>, Seq<char>),
    rest: Seq<(Seq<char>, Seq<char>)>,
)
    requires
        rest.len() > 0,
    ensures
        json_fields(seq![first] + rest) == json::json_string(first.0) + seq![':'] + first.1
            + seq![','] + json_fields(rest),
{
    assert((seq![first] + rest).drop_first() =~= rest);
}

/// The words of the lines, as JSON.
proof fn lemma_words_are_plain()
    ensures
        json::json_string("result"@) == seq!['"'] + "result"@ + seq!['"'],
        json::json_string("session_id"@) == seq!['"'] + "session_id"@ + seq!['"'],
        json::json_string("type"@) == seq!['"'] + "type"@ + seq!['"'],
        json::json_string("delta"@) == seq!['"'] + "delta"@ + seq!['"'],
        json::json_string("text"@) == seq!['"'] + "text"@ + seq!['"'],
        json::json_string("content_block_delta"@) == seq!['"'] + "content_block_delta"@ + seq!['"'],
        json::json_string("message"@) == seq!['"'] + "message"@ + seq!['"'],
        json::json_string("content"@) == seq!['"'] + "content"@ + seq!['"'],
        json::json_string("id"@) == seq!['"'] + "id"@ + seq!['"'],
        json::json_string("input"@) == seq!['"'] + "input"@ + seq!['"'],
        json::json_string("name"@) == seq!['"'] + "name"@ + seq!['"'],
        json::json_string("tool_use"@) == seq!['"'] + "tool_use"@ + seq!['"'],
        json::json_string("assistant"@) == seq!['"'] + "assistant"@ + seq!['"'],
        json::json_string("is_error"@) == seq!['"'] + "is_error"@ + seq!['"'],
        json::json_string("tool_use_id"@) == seq!['"'] + "tool_use_id"@ + seq!['"'],
        json::json_string("tool_result"@) == seq!['"'] + "tool_result"@ + seq!['"'],
        json::json_string("user"@) == seq!['"'] + "user"@ + seq!['"'],
        json::json_string("thinking"@) == seq!['"'] + "thinking"@ + seq!['"'],
{
    reveal_strlit("result");
    lemma_plain_is_quoted("result"@);
    reveal_strlit("session_id");
    lemma_plain_is_quoted("session_id"@);
    reveal_strlit("type");
    lemma_plain_is_quoted("type"@);
    reveal_strlit("delta");
    lemma_plain_is_quoted("delta"@);
    reveal_strlit("text");
    lemma_plain_is_quoted("text"@);
    reveal_strlit("content_block_delta");
    lemma_plain_is_quoted("content_block_delta"@);
    reveal_strlit("message");
    lemma_plain_is_quoted("message"@);
    reveal_strlit("content");
    lemma_plain_is_quoted("content"@);
    reveal_strlit("id");
    lemma_plain_is_quoted("id"@);
    reveal_strlit("input");
    lemma_plain_is_quoted("input"@);
    reveal_strlit("name");
    lemma_plain_is_quoted("name"@);
    reveal_strlit("tool_use");
    lemma_plain_is_quoted("tool_use"@);
    reveal_strlit("assistant");
    lemma_plain_is_quoted("assistant"@);
    reveal_strlit("is_error");
    lemma_plain_is_quoted("is_error"@);
    reveal_strlit("tool_use_id");
    lemma_plain_is_quoted("tool_use_id"@);
    reveal_strlit("tool_result");
    lemma_plain_is_quoted("tool_result"@);
    reveal_strlit("user");
    lemma_plain_is_quoted("user"@);
    reveal_strlit("thinking");
    lemma_plain_is_quoted("thinking"@);
}


/// The JSON of a text that may be missing.
pub open spec fn json_or_null(value: Option<String>) -> Seq<char> {
    match value {
        Some(value) => json::json_string(value@),
        None => "null"@,
    }
}

proof fn lemma_head_result()
    ensures
        "{\"result\":"@ == seq!['{'] + json::json_string("result"@) + seq![':'],
{
    lemma_words_are_plain();
    reveal_strlit("{\"result\":");
    reveal_strlit("result");
    assert("{\"result\":"@ =~= seq!['{'] + json::json_string("result"@) + seq![':']);
}

proof fn lemma_mid_session()
    ensures
        ",\"session_id\":"@ == seq![','] + json::json_string("session_id"@) + seq![':'],
{
    lemma_words_are_plain();
    reveal_strlit(",\"session_id\":");
    reveal_strlit("session_id");
    assert(",\"session_id\":"@ =~= seq![','] + json::json_string("session_id"@) + seq![':']);
}

proof fn lemma_tail_result()
    ensures
        ",\"type\":\"result\"}\n"@ == seq![','] + json::json_string("type"@) + seq![':'] + json::json_string("result"@) + seq!['}'] + seq!['\n'],
{
    lemma_words_are_plain();
    reveal_strlit(",\"type\":\"result\"}\n");
    reveal_strlit("type");
    reveal_strlit("result");
    assert(",\"type\":\"result\"}\n"@ =~= seq![','] + json::json_string("type"@) + seq![':'] + json::json_string("result"@) + seq!['}'] + seq!['\n']);
}

proof fn lemma_head_delta()
    ensures
        "{\"delta\":{\"text\":"@ == seq!['{'] + json::json_string("delta"@) + seq![':'] + seq!['{'] + json::json_string("text"@) + seq![':'],
{
    lemma_words_are_plain();
    reveal_strlit("{\"delta\":{\"text\":");
    reveal_strlit("delta");
    reveal_strlit("text");
    assert("{\"delta\":{\"text\":"@ =~= seq!['{'] + json::json_string("delta"@) + seq![':'] + seq!['{'] + json::json_string("text"@) + seq![':']);
}

proof fn lemma_tail_delta()
    ensures
        "},\"type\":\"content_block_delta\"}\n"@ == seq!['}'] + seq![','] + json::json_string("type"@) + seq![':'] + json::json_string("content_block_delta"@) + seq!['}'] + seq!['\n'],
{
    lemma_words_are_plain();
    reveal_strlit("},\"type\":\"content_block_delta\"}\n");
    reveal_strlit("type");
    reveal_strlit("content_block_delta");
    assert("},\"type\":\"content_block_delta\"}\n"@ =~= seq!['}'] + seq![','] + json::json_string("type"@) + seq![':'] + json::json_string("content_block_delta"@) + seq!['}'] + seq!['\n']);
}

proof fn lemma_mid_input()
    ensures
        ",\"input\":"@ == seq![','] + json::json_string("input"@) + seq![':'],
{
    lemma_words_are_plain();
    reveal_strlit(",\"input\":");
    reveal_strlit("input");
    assert(",\"input\":"@ =~= seq![','] + json::json_string("input"@) + seq![':']);
}

proof fn lemma_mid_name()
    ensures
        ",\"name\":"@ == seq![','] + json::json_string("name"@) + seq![':'],
{
    lemma_words_are_plain();
    reveal_strlit(",\"name\":");
    reveal_strlit("name");
    assert(",\"name\":"@ =~= seq![','] + json::json_string("name"@) + seq![':']);
}

proof fn lemma_mid_is_error()
    ensures
        ",\"is_error\":"@ == seq![','] + json::json_string("is_error"@) + seq![':'],
{
    lemma_words_are_plain();
    reveal_strlit(",\"is_error\":");
    reveal_strlit("is_error");
    assert(",\"is_error\":"@ =~= seq![','] + json::json_string("is_error"@) + seq![':']);
}

proof fn lemma_mid_tool_use_id()
    ensures
        ",\"tool_use_id\":"@ == seq![','] + json::json_string("tool_use_id"@) + seq![':'],
{
    lemma_words_are_plain();
    reveal_strlit(",\"tool_use_id\":");
    reveal_strlit("tool_use_id");
    assert(",\"tool_use_id\":"@ =~= seq![','] + json::json_string("tool_use_id"@) + seq![':']);
}

proof fn lemma_three_fields(
    a: (Seq<char>, Seq<char>),
    b: (Seq<char>, Seq<char>),
    c: (Seq<char>, Seq<char>),
)
    ensures
        json_object(seq![a, b, c]) == seq!['{'] + json::json_string(a.0) + seq![':'] + a.1 + seq![
            ',',
        ] + json::json_string(b.0) + seq![':'] + b.1 + seq![','] + json::json_string(c.0) + seq![
            ':',
        ] + c.1 + seq!['}'],
{
    assert(seq![a, b, c] =~= seq![a] + seq![b, c]);
    lemma_fields_from_the_front(a, seq![b, c]);
    lemma_two_fields(b, c);
    assert(json_object(seq![a, b, c]) =~= seq!['{'] + json::json_string(a.0) + seq![':'] + a.1
        + seq![','] + json::json_string(b.0) + seq![':'] + b.1 + seq![','] + json::json_string(c.0)
        + seq![':'] + c.1 + seq!['}']);
}

proof fn lemma_four_fields(
    a: (Seq<char>, Seq<char>),
    b: (Seq<char>, Seq<char>),
    c: (Seq<char>, Seq<char>),
    d: (Seq<char>, Seq<char>),
)
    ensures
        json_object(seq![a, b, c, d]) == seq!['{'] + json::json_string(a.0) + seq![':'] + a.1
            + seq![','] + json::json_string(b.0) + seq![':'] + b.1 + seq![','] + json::json_string(
            c.0,
        ) + seq![':'] + c.1 + seq![','] + json::json_string(d.0) + seq![':'] + d.1 + seq!['}'],
{
    assert(seq![a, b, c, d] =~= seq![a] + (seq![b] + seq![c, d]));
    lemma_fields_from_the_front(a, seq![b] + seq![c, d]);
    lemma_fields_from_the_front(b, seq![c, d]);
    lemma_two_fields(c, d);
    assert(json_object(seq![a, b, c, d]) =~= seq!['{'] + json::json_string(a.0) + seq![':'] + a.1
        + seq![','] + json::json_string(b.0) + seq![':'] + b.1 + seq![','] + json::json_string(c.0)
        + seq![':'] + c.1 + seq![','] + json::json_string(d.0) + seq![':'] + d.1 + seq!['}']);
}

/// What stands in front of the one piece of a message's content.
spec fn wrap_head() -> Seq<char> {
    seq!['{'] + json::json_string("message"@) + seq![':'] + seq!['{'] + json::json_string(
        "content"@,
    ) + seq![':'] + seq!['[']
}

/// What stands behind the one piece of a message's content.
spec fn wrap_tail(role: Seq<char>) -> Seq<char> {
    seq![']'] + seq!['}'] + seq![','] + json::json_string("type"@) + seq![':'] + role + seq!['}']
}

proof fn lemma_wrapped_message(piece: Seq<char>, role: Seq<char>)
    ensures
        json_object(
            seq![
                ("message"@, json_object(seq![("content"@, json_array_of(piece))])),
                ("type"@, role),
            ],
        ) == wrap_head() + piece + wrap_tail(role),
{
    let inner = json_object(seq![("content"@, json_array_of(piece))]);
    assert(inner =~= seq!['{'] + json::json_string("content"@) + seq![':'] + seq!['['] + piece
        + seq![']'] + seq!['}']);
    lemma_two_fields(("message"@, inner), ("type"@, role));
    assert(json_object(seq![("message"@, inner), ("type"@, role)]) =~= wrap_head() + piece
        + wrap_tail(role));
}

proof fn lemma_regroup(
    w: Seq<char>,
    a: Seq<char>,
    x: Seq<char>,
    b: Seq<char>,
    y: Seq<char>,
    c: Seq<char>,
    z: Seq<char>,
    d: Seq<char>,
    e: Seq<char>,
    n: Seq<char>,
)
    ensures
        (w + a) + x + b + y + c + z + (d + e + n) == w + (a + x + b + y + c + z + d) + e + n,
{
    assert((w + a) + x + b + y + c + z + (d + e + n) =~= w + (a + x + b + y + c + z + d) + e + n);
}

proof fn lemma_four_grouped(
    a: (Seq<char>, Seq<char>),
    b: (Seq<char>, Seq<char>),
    c: (Seq<char>, Seq<char>),
    d: (Seq<char>, Seq<char>),
)
    ensures
        json_object(seq![a, b, c, d]) == (seq!['{'] + json::json_string(a.0) + seq![':']) + a.1 + (
        seq![','] + json::json_string(b.0) + seq![':']) + b.1 + (seq![','] + json::json_string(c.0)
            + seq![':']) + c.1 + (seq![','] + json::json_string(d.0) + seq![':'] + d.1 + seq!['}']),
{
    lemma_four_fields(a, b, c, d);
    assert(json_object(seq![a, b, c, d]) =~= (seq!['{'] + json::json_string(a.0) + seq![':']) + a.1
        + (seq![','] + json::json_string(b.0) + seq![':']) + b.1 + (seq![','] + json::json_string(
        c.0,
    ) + seq![':']) + c.1 + (seq![','] + json::json_string(d.0) + seq![':'] + d.1 + seq!['}']));
}

proof fn lemma_head_tool_grouped()
    ensures
        "{\"message\":{\"content\":[{\"id\":"@ == wrap_head() + (seq!['{'] + json::json_string("id"@) + seq![':']),
{
    lemma_words_are_plain();
    reveal_strlit("{\"message\":{\"content\":[{\"id\":");
    reveal_strlit("message");
    reveal_strlit("content");
    reveal_strlit("id");
    assert("{\"message\":{\"content\":[{\"id\":"@ =~= wrap_head() + (seq!['{'] + json::json_string("id"@) + seq![':']));
}

proof fn lemma_tail_tool_grouped()
    ensures
        ",\"type\":\"tool_use\"}]},\"type\":\"assistant\"}\n"@ == (seq![','] + json::json_string("type"@) + seq![':'] + json::json_string("tool_use"@) + seq!['}']) + wrap_tail(json::json_string("assistant"@)) + seq!['\n'],
{
    lemma_words_are_plain();
    reveal_strlit(",\"type\":\"tool_use\"}]},\"type\":\"assistant\"}\n");
    reveal_strlit("type");
    reveal_strlit("tool_use");
    reveal_strlit("assistant");
    assert(",\"type\":\"tool_use\"}]},\"type\":\"assistant\"}\n"@ =~= (seq![','] + json::json_string("type"@) + seq![':'] + json::json_string("tool_use"@) + seq!['}']) + wrap_tail(json::json_string("assistant"@)) + seq!['\n']);
}

proof fn lemma_head_tool_result_grouped()
    ensures
        "{\"message\":{\"content\":[{\"content\":"@ == wrap_head() + (seq!['{'] + json::json_string("content"@) + seq![':']),
{
    lemma_words_are_plain();
    reveal_strlit("{\"message\":{\"content\":[{\"content\":");
    reveal_strlit("message");
    reveal_strlit("content");
    assert("{\"message\":{\"content\":[{\"content\":"@ =~= wrap_head() + (seq!['{'] + json::json_string("content"@) + seq![':']));
}

proof fn lemma_tail_tool_result_grouped()
    ensures
        ",\"type\":\"tool_result\"}]},\"type\":\"user\"}\n"@ == (seq![','] + json::json_string("type"@) + seq![':'] + json::json_string("tool_result"@) + seq!['}']) + wrap_tail(json::json_string("user"@)) + seq!['\n'],
{
    lemma_words_are_plain();
    reveal_strlit(",\"type\":\"tool_result\"}]},\"type\":\"user\"}\n");
    reveal_strlit("type");
    reveal_strlit("tool_result");
    reveal_strlit("user");
    assert(",\"type\":\"tool_result\"}]},\"type\":\"user\"}\n"@ =~= (seq![','] + json::json_string("type"@) + seq![':'] + json::json_string("tool_result"@) + seq!['}']) + wrap_tail(json::json_string("user"@)) + seq!['\n']);
}

/// Every message that ends a turn gives a line, and that line is a JSON object whose type is
/// `result` and whose result and session are those of the message: by it the reader finds
/// the end of the turn.
pub proof fn law_end_of_turn_is_passed_on(
    result: String,
    session_id: Option<String>,
    out: Option<String>,
)
    requires
        call_ensures(native_codex_line, (&StreamMessage::Done { result, session_id },), out),
    ensures
        out is Some,
        out->0@ == json_object(
            seq![
                ("result"@, json::json_string(result@)),
                ("session_id"@, json_or_null(session_id)),
                ("type"@, json::json_string("result"@)),
            ],
        ) + seq!['\n'],
{
    lemma_three_fields(
        ("result"@, json::json_string(result@)),
        ("session_id"@, json_or_null(session_id)),
        ("type"@, json::json_string("result"@)),
    );
    lemma_head_result();
    lemma_mid_session();
    lemma_tail_result();
    let r = json::json_string(result@);
    let s = json_or_null(session_id);
    assert(out->0@ == turn_result(r, s));
    assert(turn_result(r, s) =~= json_object(
        seq![("result"@, r), ("session_id"@, s), ("type"@, json::json_string("result"@))],
    ) + seq!['\n']);
}

/// Every piece of text gives a line, a delta with just that text.
pub proof fn law_text_is_passed_on(content: String, out: Option<String>)
    requires
        call_ensures(native_codex_line, (&StreamMessage::Text { content },), out),
    ensures
        out is Some,
        out->0@ == json_object(
            seq![
                ("delta"@, json_object(seq![("text"@, json::json_string(content@))])),
                ("type"@, json::json_string("content_block_delta"@)),
            ],
        ) + seq!['\n'],
{
    let t = json::json_string(content@);
    let inner = json_object(seq![("text"@, t)]);
    assert(inner =~= seq!['{'] + json::json_string("text"@) + seq![':'] + t + seq!['}']);
    lemma_two_fields(("delta"@, inner), ("type"@, json::json_string("content_block_delta"@)));
    lemma_head_delta();
    lemma_tail_delta();
    assert(out->0@ == text_delta(t));
    assert(text_delta(t) =~= json_object(
        seq![("delta"@, inner), ("type"@, json::json_string("content_block_delta"@))],
    ) + seq!['\n']);
}

/// Every use of a tool gives a line: an assistant's message with the tool's name and
/// identifier, and with its input as the JSON that it is, or else as a string.
pub proof fn law_tool_use_is_passed_on(
    name: String,
    input: String,
    tool_use_id: Option<String>,
    out: Option<String>,
)
    requires
        call_ensures(
            native_codex_line,
            (&StreamMessage::ToolUse { name, input, tool_use_id },),
            out,
        ),
    ensures
        out is Some,
        ({
            let value = if json::compact_json(input@) is Some {
                json::compact_json(input@)->0
            } else {
                json::json_string(input@)
            };
            let used = json_object(
                seq![
                    ("id"@, json_or_null(tool_use_id)),
                    ("input"@, value),
                    ("name"@, json::json_string(name@)),
                    ("type"@, json::json_string("tool_use"@)),
                ],
            );
            out->0@ == json_object(
                seq![
                    ("message"@, json_object(seq![("content"@, json_array_of(used))])),
                    ("type"@, json::json_string("assistant"@)),
                ],
            ) + seq!['\n']
        }),
{
    let id = json_or_null(tool_use_id);
    let value = if json::compact_json(input@) is Some {
        json::compact_json(input@)->0
    } else {
        json::json_string(input@)
    };
    let named = json::json_string(name@);
    let used = json_object(
        seq![
            ("id"@, id),
            ("input"@, value),
            ("name"@, named),
            ("type"@, json::json_string("tool_use"@)),
        ],
    );
    lemma_four_grouped(
        ("id"@, id),
        ("input"@, value),
        ("name"@, named),
        ("type"@, json::json_string("tool_use"@)),
    );
    lemma_wrapped_message(used, json::json_string("assistant"@));
    lemma_head_tool_grouped();
    lemma_mid_input();
    lemma_mid_name();
    lemma_tail_tool_grouped();
    assert(out->0@ == tool_use(id, value, named));
    lemma_regroup(
        wrap_head(),
        seq!['{'] + json::json_string("id"@) + seq![':'],
        id,
        seq![','] + json::json_string("input"@) + seq![':'],
        value,
        seq![','] + json::json_string("name"@) + seq![':'],
        named,
        seq![','] + json::json_string("type"@) + seq![':'] + json::json_string("tool_use"@)
            + seq!['}'],
        wrap_tail(json::json_string("assistant"@)),
        seq!['\n'],
    );
}

/// Every result of a tool gives a line: a user's message with the content, the identifier
/// and whether it is an error.
pub proof fn law_tool_result_is_passed_on(
    content: String,
    is_error: bool,
    tool_use_id: Option<String>,
    out: Option<String>,
)
    requires
        call_ensures(
            native_codex_line,
            (&StreamMessage::ToolResult { content, is_error, tool_use_id },),
            out,
        ),
    ensures
        out is Some,
        ({
            let flag = if is_error {
                "true"@
            } else {
                "false"@
            };
            let given = json_object(
                seq![
                    ("content"@, json::json_string(content@)),
                    ("is_error"@, flag),
                    ("tool_use_id"@, json_or_null(tool_use_id)),
                    ("type"@, json::json_string("tool_result"@)),
                ],
            );
            out->0@ == json_object(
                seq![
                    ("message"@, json_object(seq![("content"@, json_array_of(given))])),
                    ("type"@, json::json_string("user"@)),
                ],
            ) + seq!['\n']
        }),
{
    let id = json_or_null(tool_use_id);
    let flag = if is_error {
        "true"@
    } else {
        "false"@
    };
    let said = json::json_string(content@);
    let given = json_object(
        seq![
            ("content"@, said),
            ("is_error"@, flag),
            ("tool_use_id"@, id),
            ("type"@, json::json_string("tool_result"@)),
        ],
    );
    lemma_four_grouped(
        ("content"@, said),
        ("is_error"@, flag),
        ("tool_use_id"@, id),
        ("type"@, json::json_string("tool_result"@)),
    );
    lemma_wrapped_message(given, json::json_string("user"@));
    lemma_head_tool_result_grouped();
    lemma_mid_is_error();
    lemma_mid_tool_use_id();
    lemma_tail_tool_result_grouped();
    assert(out->0@ == tool_result(said, is_error, id));
    lemma_regroup(
        wrap_head(),
        seq!['{'] + json::json_string("content"@) + seq![':'],
        said,
        seq![','] + json::json_string("is_error"@) + seq![':'],
        flag,
        seq![','] + json::json_string("tool_use_id"@) + seq![':'],
        id,
        seq![','] + json::json_string("type"@) + seq![':'] + json::json_string("tool_result"@)
            + seq!['}'],
        wrap_tail(json::json_string("user"@)),
        seq!['\n'],
    );
}

/// Thinking gives a line too, an assistant's message of that type.
pub proof fn law_thinking_is_passed_on(out: Option<String>)
    requires
        call_ensures(native_codex_line, (&StreamMessage::Thinking,), out),
    ensures
        out is Some,
        out->0@ == json_object(
            seq![
                (
                    "message"@,
                    json_object(
                        seq![
                            (
                                "content"@,
                                json_array_of(
                                    json_object(seq![("type"@, json::json_string("thinking"@))]),
                                ),
                            ),
                        ],
                    ),
                ),
                ("type"@, json::json_string("assistant"@)),
            ],
        ) + seq!['\n'],
{
    lemma_words_are_plain();
    let inner = json_object(
        seq![
            (
                "content"@,
                json_array_of(json_object(seq![("type"@, json::json_string("thinking"@))])),
            ),
        ],
    );
    lemma_two_fields(("message"@, inner), ("type"@, json::json_string("assistant"@)));
    reveal_strlit("{\"message\":{\"content\":[{\"type\":\"thinking\"}]},\"type\":\"assistant\"}\n");
    reveal_strlit("message");
    reveal_strlit("content");
    reveal_strlit("type");
    reveal_strlit("thinking");
    reveal_strlit("assistant");
    assert(out->0@ =~= json_object(
        seq![("message"@, inner), ("type"@, json::json_string("assistant"@))],
    ) + seq!['\n']);
}

/// What shows in the channel gives a line; what only says how the stream stands gives none.
/// A message gives the same line whether it is taken or only looked at.
pub proof fn law_only_bookkeeping_gives_no_line(
    message: StreamMessage,
    state: &mut StreamLineState,
    response: &mut String,
    looked: Option<String>,
    taken: Option<String>,
)
    requires
        call_ensures(native_codex_line, (&message,), looked),
        call_ensures(process_native_codex_messages, (message, state, response), taken),
    ensures
        looked is None <==> message is Init || message is StatusUpdate || message is Other,
        text::opt_text(taken) == text::opt_text(looked),
{
}

/// Of the stream, an opening message changes the session only, and a status update what it
/// gives: a count that it gives replaces the count before, one that it does not give stays.
/// Of the response, only the end of the turn changes anything: the response is then its
/// result, whatever was read before.
pub proof fn law_message_changes_what_it_gives(
    message: StreamMessage,
    state: &mut StreamLineState,
    response: &mut String,
    line: Option<String>,
)
    requires
        call_ensures(process_native_codex_messages, (message, state, response), line),
    ensures
        match message {
            StreamMessage::Init { session_id } => {
                &&& final(state).last_session_id is Some
                &&& final(state).last_session_id->0@ == session_id@
                &&& final(state).last_model == old(state).last_model
            },
            StreamMessage::StatusUpdate {
                model,
                input_tokens,
                cache_create_tokens,
                cache_read_tokens,
                output_tokens,
            } => {
                &&& final(state).last_session_id == old(state).last_session_id
                &&& model is Some ==> final(state).last_model == model
                &&& model is None ==> final(state).last_model == old(state).last_model
                &&& input_tokens matches Some(n) ==> final(state).accum_input_tokens == n
                &&& input_tokens is None ==> final(state).accum_input_tokens
                    == old(state).accum_input_tokens
                &&& cache_create_tokens matches Some(n) ==> final(state).accum_cache_create_tokens
                    == n
                &&& cache_create_tokens is None ==> final(state).accum_cache_create_tokens
                    == old(state).accum_cache_create_tokens
                &&& cache_read_tokens matches Some(n) ==> final(state).accum_cache_read_tokens == n
                &&& cache_read_tokens is None ==> final(state).accum_cache_read_tokens
                    == old(state).accum_cache_read_tokens
                &&& output_tokens matches Some(n) ==> final(state).accum_output_tokens == n
                &&& output_tokens is None ==> final(state).accum_output_tokens
                    == old(state).accum_output_tokens
            },
            _ => *final(state) == *old(state),
        },
        message !is StatusUpdate ==> {
            &&& final(state).accum_input_tokens == old(state).accum_input_tokens
            &&& final(state).accum_cache_create_tokens == old(state).accum_cache_create_tokens
            &&& final(state).accum_cache_read_tokens == old(state).accum_cache_read_tokens
            &&& final(state).accum_output_tokens == old(state).accum_output_tokens
        },
        message matches StreamMessage::Done { result, .. } ==> final(response)@ == result@,
        message !is Done ==> final(response)@ == old(response)@,
{
}

/// What was seen stays seen, and the last line that held a result says how the turn came to
/// its end; a line without one changes nothing of that.
pub proof fn law_last_result_decides(
    result: &mut WatcherLineOutcome,
    outcome: WatcherLineOutcome,
)
    requires
        call_ensures(fold_line_outcome, (result, outcome), ()),
    ensures
        old(result).assistant_text_seen || outcome.assistant_text_seen
            <==> final(result).assistant_text_seen,
        old(result).found_result || outcome.found_result <==> final(result).found_result,
        outcome.found_result ==> final(result).terminal_kind == outcome.terminal_kind,
        !outcome.found_result ==> final(result).terminal_kind == old(result).terminal_kind,
{
}

} // verus!
