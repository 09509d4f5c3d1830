//! Forwarding what a read contributes to the turn.

use vstd::prelude::*;

verus! {

/// What a read contributes to the turn.
#[derive(Debug, PartialEq, Eq)]
pub struct ForwardedChunk<'a> {
    pub text: &'a str,
    /// Where the text stands in the source, in bytes.
    pub source_span: Option<(u64, u64)>,
}

/// The sum of an offset and a length, at most the greatest offset.
pub open spec fn offset_plus(offset: u64, len: int) -> int {
    if offset + len > u64::MAX {
        u64::MAX as int
    } else {
        offset + len
    }
}

/// The length of a text in bytes.
pub open spec fn byte_len(text: Seq<char>) -> int {
    vstd::utf8::encode_utf8(text).len() as int
}

/// The span of text that ends where the buffer ends: nothing for empty text.
pub open spec fn span_of(text: Seq<char>, buffer_len: int, buffer_start_offset: u64) -> Option<
    (u64, u64),
> {
    if text.len() == 0 {
        None
    } else {
        let end = offset_plus(buffer_start_offset, buffer_len);
        let start = if end >= byte_len(text) {
            end - byte_len(text)
        } else {
            0
        };
        Some((start as u64, end as u64))
    }
}

/// What a read contributes, where `text` is the end of the decoded text that belongs
/// to the turn. The buffer that the text was appended to holds `buffer_len` bytes
/// from `buffer_start_offset` on, and the text ends where it ends: a read that is
/// repeated has the same span, by which it is told apart from new output.
pub fn forwarded_chunk<'a>(text: &'a str, buffer_len: usize, buffer_start_offset: u64) -> (out:
    ForwardedChunk<'a>)
    ensures
        out.text == text,
        out.source_span == span_of(text@, buffer_len as int, buffer_start_offset),
{
    let source_span = if text.is_empty() {
        None
    } else {
        let end: u64 = buffer_start_offset.saturating_add(buffer_len as u64);
        let size: usize = text.as_bytes().len();
        let start: u64 = end.saturating_sub(size as u64);
        Some((start, end))
    };
    ForwardedChunk { text, source_span }
}

/// How a chunk is forwarded.
#[derive(Debug, Clone, Copy, PartialEq, Eq, Structural)]
pub enum ForwardKind {
    /// As the end of the turn: what is left over behind the end, in bytes, goes as a
    /// frame of its own.
    Terminal { leftover_len: usize },
    /// As part of the turn.
    Streaming,
}

/// How a chunk is forwarded: as the end of the turn where a fence for its commit was
/// given.
pub fn forward_turn_chunk_to_supervisor_relay(terminal: bool, leftover_len: usize) -> (r:
    ForwardKind)
    ensures
        r == if terminal {
            ForwardKind::Terminal { leftover_len }
        } else {
            ForwardKind::Streaming
        },
{
    if terminal {
        ForwardKind::Terminal { leftover_len }
    } else {
        ForwardKind::Streaming
    }
}

/// The span of forwarded text is as long as the text, and ends at the end of what
/// was read, wherever offsets are not at their limit.
pub proof fn law_span_covers_the_text(text: Seq<char>, buffer_len: int, buffer_start_offset: u64)
    requires
        text.len() > 0,
        byte_len(text) <= buffer_len,
        buffer_start_offset + buffer_len <= u64::MAX,
    ensures
        span_of(text, buffer_len, buffer_start_offset) matches Some((start, end)) && end
            == buffer_start_offset + buffer_len && end - start == byte_len(text) && start
            >= buffer_start_offset,
{
}

} // verus!
