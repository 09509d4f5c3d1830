//! Where the bytes of a read come from, and whether text may be ascribed to one
//! source.

use vstd::prelude::*;

verus! {

/// The identity of an open file.
#[derive(Debug, Clone, Copy, PartialEq, Eq, Structural)]
pub enum SourceFileIdentity {
    Unix { dev: u64, ino: u64 },
    Unavailable,
}

/// The source of a read: a file in an epoch of the session.
#[derive(Debug, Clone, Copy, PartialEq, Eq, Structural)]
pub struct SourceStamp {
    pub file: SourceFileIdentity,
    pub epoch: u64,
}

/// What a read is ascribed to.
#[derive(Debug, Clone, Copy, PartialEq, Eq)]
pub struct WatcherSourceAuthority {
    pub generation_mtime_ns: i64,
    pub reset_incarnation: u64,
    pub source_stamp: Option<SourceStamp>,
}

/// How many bytes one read of the source takes at most.
pub const SOURCE_READ_LIMIT: usize = 16384;

/// One read of a source with the contents `contents`: the bytes from `offset` on, and
/// where they end. Behind the end of the source there are none.
pub fn read_watcher_source_chunk(contents: &[u8], offset: u64) -> (r: (Vec<u8>, u64))
    ensures
        r.1 == offset + r.0@.len(),
        offset >= contents@.len() ==> r.0@.len() == 0,
        offset < contents@.len() ==> r.0@ == contents@.subrange(offset as int, r.1 as int),
        offset < contents@.len() ==> r.0@.len() == if contents@.len() - offset
            <= SOURCE_READ_LIMIT {
            contents@.len() - offset
        } else {
            SOURCE_READ_LIMIT as int
        },
{
    let len: usize = contents.len();
    if offset >= len as u64 {
        return (Vec::new(), offset);
    }
    let start: usize = offset as usize;
    let room: usize = len - start;
    let count: usize = if room <= SOURCE_READ_LIMIT {
        room
    } else {
        SOURCE_READ_LIMIT
    };
    let mut bytes: Vec<u8> = Vec::new();
    let mut i: usize = 0;
    while i < count
        invariant
            i <= count,
            start + count <= len,
            len == contents@.len(),
            bytes@ == contents@.subrange(start as int, start + i),
        decreases count - i,
    {
        bytes.push(contents[start + i]);
        assert(contents@.subrange(start as int, start + i + 1) =~= contents@.subrange(
            start as int,
            start + i,
        ).push(contents@[start + i]));
        i += 1;
    }
    (bytes, (start + count) as u64)
}

/// The authority for text: text that was put together from more than one read has no
/// stamp.
pub fn authority_for_decoded_text(authority: WatcherSourceAuthority, mixed: bool) -> (r:
    WatcherSourceAuthority)
    ensures
        r == (WatcherSourceAuthority {
            source_stamp: if mixed {
                None
            } else {
                authority.source_stamp
            },
            ..authority
        }),
{
    let source_stamp = if mixed {
        None
    } else {
        authority.source_stamp
    };
    WatcherSourceAuthority {
        generation_mtime_ns: authority.generation_mtime_ns,
        reset_incarnation: authority.reset_incarnation,
        source_stamp,
    }
}

/// The stamp of a text with one more contribution: the first contribution decides,
/// and one that differs takes the stamp away.
pub open spec fn merged_stamp(
    aggregate: Option<Option<SourceStamp>>,
    contribution: Option<SourceStamp>,
) -> Option<SourceStamp> {
    match aggregate {
        None => contribution,
        Some(held) => if held is Some && held == contribution {
            held
        } else {
            None
        },
    }
}

/// The stamp of a text with one more contribution.
pub fn merged_source_stamp(
    aggregate: Option<Option<SourceStamp>>,
    contribution: Option<SourceStamp>,
) -> (r: Option<SourceStamp>)
    ensures
        r == merged_stamp(aggregate, contribution),
{
    match (aggregate, contribution) {
        (Some(Some(left)), Some(right)) => if left == right {
            Some(left)
        } else {
            None
        },
        (None, contribution) => contribution,
        _ => None,
    }
}

/// The authority of a read. `observed` is the stamp that was observed for the file,
/// under a witness of the session's epoch; without a witness there is no stamp.
pub fn source_authority_for_read(
    base: WatcherSourceAuthority,
    witnessed: bool,
    observed: Option<SourceStamp>,
) -> (r: WatcherSourceAuthority)
    ensures
        r == (WatcherSourceAuthority {
            source_stamp: if witnessed {
                observed
            } else {
                None
            },
            ..base
        }),
{
    let source_stamp = if witnessed {
        observed
    } else {
        None
    };
    WatcherSourceAuthority {
        generation_mtime_ns: base.generation_mtime_ns,
        reset_incarnation: base.reset_incarnation,
        source_stamp,
    }
}

/// A stamp that was lost does not come back: once contributions have disagreed, or
/// one had no stamp, no further contribution gives the text one.
pub proof fn law_lost_stamp_stays_lost(
    aggregate: Option<Option<SourceStamp>>,
    contribution: Option<SourceStamp>,
    later: Option<SourceStamp>,
)
    requires
        merged_stamp(aggregate, contribution) is None,
    ensures
        merged_stamp(Some(merged_stamp(aggregate, contribution)), later) is None,
{
}

} // verus!
