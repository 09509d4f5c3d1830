//! Reading the session's transcript, a file with one JSON record per line.

use vstd::prelude::*;

verus! {

/// How many bytes one read takes at most.
pub const READ_LIMIT: usize = 16384;

/// One read of the transcript.
#[derive(Debug, PartialEq, Eq)]
pub struct JsonlReadChunk {
    pub data: Vec<u8>,
    pub start_offset: u64,
    pub end_offset: u64,
    /// The read was to start inside a record, and the rest of that record was
    /// passed over.
    pub skipped_partial_record: bool,
}

/// A record starts at `at`, or the file ends there.
pub open spec fn is_record_boundary(contents: Seq<u8>, at: int) -> bool {
    at == 0 || at == contents.len() || (0 < at <= contents.len() && contents[at - 1] == 10)
}

/// A record that goes on at `at` began before it.
pub open spec fn inside_record(contents: Seq<u8>, at: int) -> bool {
    0 < at <= contents.len() && contents[at - 1] != 10
}

/// Where the next record starts at or after `at`, passing over what is left of the
/// record there: behind the next line feed, or at the end of the file.
pub open spec fn after_line(contents: Seq<u8>, at: int) -> int
    decreases contents.len() - at,
{
    if at < 0 || at >= contents.len() {
        at
    } else if contents[at] == 10 {
        at + 1
    } else {
        after_line(contents, at + 1)
    }
}

/// The lesser of two numbers.
pub open spec fn lesser(a: int, b: int) -> int {
    if a <= b {
        a
    } else {
        b
    }
}

/// Where a read at `offset` starts. With `align`, it starts at a record.
pub open spec fn read_start(contents: Seq<u8>, offset: u64, align: bool) -> int {
    let at = lesser(offset as int, contents.len() as int);
    if align && inside_record(contents, at) {
        after_line(contents, at)
    } else {
        at
    }
}

pub proof fn lemma_after_line_bounds(contents: Seq<u8>, at: int)
    requires
        0 <= at <= contents.len(),
    ensures
        at <= after_line(contents, at) <= contents.len(),
        after_line(contents, at) == contents.len() || (after_line(contents, at) > at
            && contents[after_line(contents, at) - 1] == 10),
        forall|k: int| at <= k < after_line(contents, at) - 1 ==> #[trigger] contents[k] != 10,
    decreases contents.len() - at,
{
    if at < contents.len() && contents[at] != 10 {
        lemma_after_line_bounds(contents, at + 1);
    }
}

/// One read of a transcript with the contents `contents`, from `offset` on.
pub fn read_jsonl_chunk(contents: &[u8], offset: u64, align_persisted_offset: bool) -> (out:
    JsonlReadChunk)
    ensures
        out.start_offset == read_start(contents@, offset, align_persisted_offset),
        out.start_offset <= out.end_offset <= contents@.len(),
        out.end_offset == lesser(out.start_offset + READ_LIMIT, contents@.len() as int),
        out.data@ == contents@.subrange(out.start_offset as int, out.end_offset as int),
        out.skipped_partial_record == (align_persisted_offset && inside_record(
            contents@,
            lesser(offset as int, contents@.len() as int),
        )),
{
    let len: usize = contents.len();
    let clamped: usize = if offset <= len as u64 {
        offset as usize
    } else {
        len
    };
    let on_record_boundary = !align_persisted_offset || clamped == 0 || contents[clamped - 1] == 10;
    let mut start: usize = clamped;
    if !on_record_boundary {
        while start < len
            invariant_except_break
                clamped <= start <= len,
                len == contents@.len(),
                after_line(contents@, clamped as int) == after_line(contents@, start as int),
            ensures
                clamped <= start <= len,
                start == after_line(contents@, clamped as int),
            decreases len - start,
        {
            let byte: u8 = contents[start];
            start += 1;
            if byte == 10 {
                break;
            }
        }
    }
    let room: usize = len - start;
    let count: usize = if room < READ_LIMIT {
        room
    } else {
        READ_LIMIT
    };
    let mut data: Vec<u8> = Vec::new();
    let mut i: usize = 0;
    while i < count
        invariant
            i <= count,
            start + count <= len,
            len == contents@.len(),
            data@ == contents@.subrange(start as int, start + i),
        decreases count - i,
    {
        data.push(contents[start + i]);
        assert(contents@.subrange(start as int, start + i + 1) =~= contents@.subrange(
            start as int,
            start + i,
        ).push(contents@[start + i]));
        i += 1;
    }
    JsonlReadChunk {
        data,
        start_offset: start as u64,
        end_offset: (start + count) as u64,
        skipped_partial_record: !on_record_boundary,
    }
}

/// The first read after attaching to a session, from an offset that was stored.
pub fn read_jsonl_chunk_at_attach(contents: &[u8], offset: u64) -> (out: JsonlReadChunk)
    ensures
        out.start_offset == read_start(contents@, offset, true),
        out.end_offset == lesser(out.start_offset + READ_LIMIT, contents@.len() as int),
        out.data@ == contents@.subrange(out.start_offset as int, out.end_offset as int),
        out.skipped_partial_record == inside_record(
            contents@,
            lesser(offset as int, contents@.len() as int),
        ),
{
    read_jsonl_chunk(contents, offset, true)
}

/// A read that goes on where the one before it ended.
pub fn read_jsonl_chunk_contiguous(contents: &[u8], offset: u64) -> (out: JsonlReadChunk)
    ensures
        out.start_offset == lesser(offset as int, contents@.len() as int),
        out.end_offset == lesser(out.start_offset + READ_LIMIT, contents@.len() as int),
        out.data@ == contents@.subrange(out.start_offset as int, out.end_offset as int),
        !out.skipped_partial_record,
{
    read_jsonl_chunk(contents, offset, false)
}

/// A read after attaching starts at a record, and passes over no more than what was
/// left of the record that the stored offset lay in.
pub proof fn law_attach_starts_at_a_record(contents: Seq<u8>, offset: u64)
    ensures
        ({
            let at = lesser(offset as int, contents.len() as int);
            let start = read_start(contents, offset, true);
            &&& is_record_boundary(contents, start)
            &&& at <= start <= contents.len()
            &&& !inside_record(contents, at) ==> start == at
            &&& forall|k: int| at < k < start ==> !is_record_boundary(contents, k)
        }),
{
    let at = lesser(offset as int, contents.len() as int);
    if inside_record(contents, at) {
        lemma_after_line_bounds(contents, at);
        let start = after_line(contents, at);
        assert forall|k: int| at < k < start implies !is_record_boundary(contents, k) by {
            assert(contents[k - 1] != 10);
        }
    }
}

/// Reads that follow one another leave no gap and no overlap: the bytes of a read and
/// of the next one together are the bytes between the start of the first and the end
/// of the second, also where a record is longer than one read.
pub proof fn law_contiguous_reads_join(contents: Seq<u8>, start: int, middle: int, end: int)
    requires
        0 <= start <= middle <= end <= contents.len(),
    ensures
        contents.subrange(start, middle) + contents.subrange(middle, end) == contents.subrange(
            start,
            end,
        ),
{
    assert(contents.subrange(start, middle) + contents.subrange(middle, end) =~= contents.subrange(
        start,
        end,
    ));
}

proof fn lemma_after_line_in_rest(contents: Seq<u8>, at: int, base: int)
    requires
        0 <= base <= at <= contents.len(),
    ensures
        after_line(contents, at) == base + after_line(contents.skip(base), at - base),
    decreases contents.len() - at,
{
    if at < contents.len() && contents[at] != 10 {
        lemma_after_line_in_rest(contents, at + 1, base);
    }
}

/// A read needs nothing of a file but the byte in front of its offset and what follows:
/// with the file's first `base` bytes left out, it starts at the same place.
pub proof fn law_read_needs_the_rest_only(contents: Seq<u8>, offset: u64, align: bool, base: u64)
    requires
        base == 0 || base < lesser(offset as int, contents.len() as int),
    ensures
        read_start(contents, offset, align) == base + read_start(
            contents.skip(base as int),
            (offset - base) as u64,
            align,
        ),
        inside_record(contents, lesser(offset as int, contents.len() as int)) == inside_record(
            contents.skip(base as int),
            lesser(offset - base, contents.len() - base),
        ),
{
    let at = lesser(offset as int, contents.len() as int);
    let rest = contents.skip(base as int);
    assert(at > base ==> rest[at - base - 1] == contents[at - 1]);
    lemma_after_line_in_rest(contents, at, base as int);
    if base == 0 {
        assert(rest =~= contents);
    }
}

} // verus!
