//! What the journal does with its files: what it accepts, how it writes, what it keeps.

use vstd::prelude::*;

use crate::journal::channel::{ChannelJournal, RemovalPlan};
use crate::journal::model::{StoreError, WriteStage};
use crate::journal::storage;
use crate::journal::storage::{
    ensure_child_directory, ensure_directory, enter_write_stage, follow_write_stage, lock_channel,
    maybe_fail, name_not_after, prune_directory, quarantine_name, read_nofollow, reject_directory,
    reject_symlink, sort_names, temp_file_name, Failpoint, FileKind, FileRead, WriteAction,
    WriteTarget,
};

verus! {

// ---------------------------------------------------------------------------
// Kinds of file
// ---------------------------------------------------------------------------
/// A directory has to be there and to be one; a file may be missing, and has to be one where
/// it is there. A link is neither, and is refused as a link.
pub proof fn law_no_link_is_followed(
    kind: FileKind,
    directory: Result<(), StoreError>,
    file: Result<(), StoreError>,
)
    requires
        call_ensures(reject_directory, (kind,), directory),
        call_ensures(reject_symlink, (kind,), file),
    ensures
        directory is Ok <==> kind is Directory,
        file is Ok <==> kind is File || kind is Missing,
        directory matches Err(error) ==> {
            &&& error is SymlinkRejected <==> kind is Symlink
            &&& error is ReadFailed <==> kind is Missing || kind is Unreadable
            &&& error is UnexpectedFileType <==> kind is File || kind is Other
        },
        file matches Err(error) ==> {
            &&& error is SymlinkRejected <==> kind is Symlink
            &&& error is ReadFailed <==> kind is Unreadable
            &&& error is UnexpectedFileType <==> kind is Directory || kind is Other
        },
{
}

/// What is read is what the file holds; a file that is not there is no failure, and one that
/// could not be opened or read is. Nothing is read of what is refused.
pub proof fn law_file_is_read_as_it_is(
    kind: FileKind,
    read: FileRead,
    r: Result<Option<Vec<u8>>, StoreError>,
    accepted: Result<(), StoreError>,
)
    requires
        call_ensures(read_nofollow, (kind, read), r),
        call_ensures(reject_symlink, (kind,), accepted),
    ensures
        accepted matches Err(error) ==> r is Err && r->Err_0 == error,
        accepted is Ok ==> match read {
            FileRead::Bytes(bytes) => r is Ok && r->Ok_0 == Some(bytes),
            FileRead::NotFound => r is Ok && r->Ok_0 is None,
            FileRead::OpenFailed => r is Err && r->Err_0 is ReadFailed,
            FileRead::ReadFailed => r is Err && r->Err_0 is ReadFailed,
        },
{
}

/// A directory of the journal is accepted when it was there or could be made, and is one; one
/// below it has to lie within the root. A channel is locked when its lock is no link and could
/// be taken.
pub proof fn law_directories_and_locks_are_checked(
    within: bool,
    created: Option<bool>,
    kind: FileKind,
    locked: bool,
    root: Result<(), StoreError>,
    child: Result<(), StoreError>,
    lock: Result<(), StoreError>,
)
    requires
        call_ensures(ensure_directory, (created, kind), root),
        call_ensures(ensure_child_directory, (within, created, kind), child),
        call_ensures(lock_channel, (kind, locked), lock),
    ensures
        root is Ok <==> created != Some(false) && kind is Directory,
        created == Some(false) ==> root is Err && root->Err_0 == StoreError::WriteFailed(
            WriteStage::CreateTemp,
        ),
        within ==> child == root,
        !within ==> child is Err && child->Err_0 == StoreError::InvalidPathComponent("root"),
        lock is Ok <==> locked && (kind is File || kind is Missing),
        kind is Symlink ==> lock is Err && lock->Err_0 is SymlinkRejected,
        !locked && (kind is File || kind is Missing) ==> lock is Err && lock->Err_0 is LockFailed,
{
}

// ---------------------------------------------------------------------------
// Writes
// ---------------------------------------------------------------------------
/// A write that nothing stops makes the file, writes it, syncs it, puts it in place, syncs the
/// directory, and is done.
pub proof fn law_write_takes_five_stages(
    point: Option<Failpoint>,
    target: WriteTarget,
    begun: WriteAction,
    made: WriteAction,
    written: WriteAction,
    synced: WriteAction,
    renamed: WriteAction,
    closed: WriteAction,
)
    requires
        point matches Some(at) ==> at.target != target,
        call_ensures(enter_write_stage, (point, target, WriteStage::CreateTemp), begun),
        call_ensures(follow_write_stage, (point, target, WriteStage::CreateTemp, true), made),
        call_ensures(follow_write_stage, (point, target, WriteStage::WriteAll, true), written),
        call_ensures(follow_write_stage, (point, target, WriteStage::SyncFile, true), synced),
        call_ensures(follow_write_stage, (point, target, WriteStage::Rename, true), renamed),
        call_ensures(follow_write_stage, (point, target, WriteStage::SyncParent, true), closed),
    ensures
        begun == WriteAction::Perform(WriteStage::CreateTemp),
        made == WriteAction::Perform(WriteStage::WriteAll),
        written == WriteAction::Perform(WriteStage::SyncFile),
        synced == WriteAction::Perform(WriteStage::Rename),
        renamed == WriteAction::Perform(WriteStage::SyncParent),
        closed is Done,
{
}

/// A stage that fails ends the write with an error that names it, and the temporary file goes
/// away; a write that is made to fail does so just at its stage.
pub proof fn law_failed_stage_is_named(
    point: Option<Failpoint>,
    target: WriteTarget,
    stage: WriteStage,
    failed: WriteAction,
    entered: WriteAction,
    fails: Result<(), StoreError>,
)
    requires
        call_ensures(follow_write_stage, (point, target, stage, false), failed),
        call_ensures(enter_write_stage, (point, target, stage), entered),
        call_ensures(maybe_fail, (point, target, stage), fails),
    ensures
        failed == (WriteAction::Abort { error: StoreError::WriteFailed(stage), remove_temp: true }),
        fails is Err <==> (point matches Some(at) && at.target == target && at.stage == stage),
        fails matches Err(error) ==> error == StoreError::WriteFailed(stage),
        fails is Ok ==> entered == WriteAction::Perform(stage),
        fails is Err ==> entered == (WriteAction::Abort {
            error: StoreError::WriteFailed(stage),
            remove_temp: !(stage is CreateTemp),
        }),
{
}

/// A temporary file is named after the file and hidden, and a record that is set aside after
/// the file behind what is unique; a file without a name is a record.
pub proof fn law_files_are_named_after_their_record(
    name: Option<&str>,
    unique: &str,
    temp: String,
    aside: String,
)
    requires
        call_ensures(temp_file_name, (name, unique), temp),
        call_ensures(quarantine_name, (name, unique), aside),
    ensures
        name matches Some(given) ==> temp@ == "."@ + given@ + "."@ + unique@ + ".tmp"@ && aside@
            == unique@ + "-"@ + given@ + ".json"@,
        name is None ==> temp@ == "."@ + "record"@ + "."@ + unique@ + ".tmp"@ && aside@ == unique@
            + "-"@ + "record"@ + ".json"@,
{
}

// ---------------------------------------------------------------------------
// The order of names
// ---------------------------------------------------------------------------
proof fn lemma_first_difference(p: Seq<u8>, a: Seq<u8>, b: Seq<u8>)
    ensures
        storage::name_le(p + a, p + b) == storage::name_le(a, b),
    decreases p.len(),
{
    if p.len() == 0 {
        assert(p + a =~= a);
        assert(p + b =~= b);
    } else {
        lemma_first_difference(p.drop_first(), a, b);
        assert((p + a).drop_first() =~= p.drop_first() + a);
        assert((p + b).drop_first() =~= p.drop_first() + b);
        assert((p + a)[0] == (p + b)[0]);
    }
}

/// Of two names the first byte in which they differ decides, and a name comes before those
/// that it begins.
pub proof fn law_first_difference_decides(
    a: Vec<u8>,
    b: Vec<u8>,
    same: Seq<u8>,
    x: Seq<u8>,
    y: Seq<u8>,
    forward: bool,
    backward: bool,
)
    requires
        a@ == same + x,
        b@ == same + y,
        call_ensures(name_not_after, (&a, &b), forward),
        call_ensures(name_not_after, (&b, &a), backward),
    ensures
        x.len() > 0 && y.len() > 0 && x[0] < y[0] ==> forward && !backward,
        x.len() == 0 ==> forward,
        x.len() == 0 && y.len() > 0 ==> !backward,
{
    lemma_first_difference(same, x, y);
    lemma_first_difference(same, y, x);
}

/// Names are sorted without losing one or adding one, and each two stand in order.
pub proof fn law_names_are_sorted(
    names: Vec<Vec<u8>>,
    out: Vec<Vec<u8>>,
    i: int,
    j: int,
    in_order: bool,
)
    requires
        call_ensures(sort_names, (names,), out),
        0 <= i < j < out@.len(),
        call_ensures(name_not_after, (&out@[i], &out@[j]), in_order),
    ensures
        in_order,
        out@.len() == names@.len(),
        out@.map_values(|n: Vec<u8>| n@).to_multiset() == names@.map_values(
            |n: Vec<u8>| n@,
        ).to_multiset(),
{
    let view = storage::names_view(out@);
    assert(view[i] == out@[i]@ && view[j] == out@[j]@);
    assert(storage::names_view(out@) =~= out@.map_values(|n: Vec<u8>| n@));
    assert(storage::names_view(names@) =~= names@.map_values(|n: Vec<u8>| n@));
}

proof fn lemma_pruned(
    names: Seq<Seq<u8>>,
    order: Seq<Seq<u8>>,
    keep: nat,
    removed: Seq<Seq<u8>>,
    gone: int,
    kept: Seq<u8>,
)
    requires
        storage::prunes_to(names, order, keep, removed),
    ensures
        removed.len() == if names.len() <= keep {
            0
        } else {
            names.len() - keep
        },
        removed.to_multiset().subset_of(names.to_multiset()),
        0 <= gone < removed.len() && names.to_multiset().sub(removed.to_multiset()).count(kept) > 0
            ==> storage::name_le(removed[gone], kept),
{
    broadcast use vstd::seq_lib::group_to_multiset_ensures;

    let n = removed.len() as int;
    let rest = order.skip(n);
    assert(order =~= removed + rest);
    vstd::seq_lib::lemma_multiset_commutative(removed, rest);
    assert(order.to_multiset() =~= removed.to_multiset().add(rest.to_multiset()));
    assert(names.to_multiset().sub(removed.to_multiset()) =~= rest.to_multiset());
    if 0 <= gone < n && rest.to_multiset().count(kept) > 0 {
        assert(rest.contains(kept));
        let k = choose|k: int| 0 <= k < rest.len() && rest[k] == kept;
        assert(order[gone] == removed[gone]);
        assert(order[n + k] == kept);
    }
}

/// A directory loses as many names as it holds beyond what it keeps, and only names that come
/// no later than any that stays.
pub proof fn law_only_the_oldest_go(
    names: Vec<Vec<u8>>,
    keep: usize,
    removed: Vec<Vec<u8>>,
    gone: int,
    kept: Vec<u8>,
    in_order: bool,
)
    requires
        call_ensures(prune_directory, (names, keep), removed),
        0 <= gone < removed@.len(),
        names@.map_values(|n: Vec<u8>| n@).to_multiset().sub(
            removed@.map_values(|n: Vec<u8>| n@).to_multiset(),
        ).count(kept@) > 0,
        call_ensures(name_not_after, (&removed@[gone], &kept), in_order),
    ensures
        in_order,
        names@.len() > keep,
        removed@.len() == names@.len() - keep,
{
    let all = storage::names_view(names@);
    let out = storage::names_view(removed@);
    assert(all =~= names@.map_values(|n: Vec<u8>| n@));
    assert(out =~= removed@.map_values(|n: Vec<u8>| n@));
    let order = choose|order: Seq<Seq<u8>>| #[trigger]
        storage::prunes_to(all, order, keep as nat, out);
    lemma_pruned(all, order, keep as nat, out, gone, kept@);
    assert(out[gone] == removed@[gone]@);
}

/// A channel loses what it holds beyond sixty-four records and sixteen that were set aside,
/// and nothing that it does not hold.
pub proof fn law_channel_keeps_its_newest(
    journal: ChannelJournal,
    operations: Vec<Vec<u8>>,
    quarantine: Vec<Vec<u8>>,
    out: RemovalPlan,
)
    requires
        call_ensures(ChannelJournal::gc_locked, (&journal, operations, quarantine), out),
    ensures
        operations@.len() <= 64 ==> out.operations@.len() == 0,
        operations@.len() > 64 ==> out.operations@.len() == operations@.len() - 64,
        quarantine@.len() <= 16 ==> out.quarantine@.len() == 0,
        quarantine@.len() > 16 ==> out.quarantine@.len() == quarantine@.len() - 16,
        storage::names_view(out.operations@).to_multiset().subset_of(
            storage::names_view(operations@).to_multiset(),
        ),
        storage::names_view(out.quarantine@).to_multiset().subset_of(
            storage::names_view(quarantine@).to_multiset(),
        ),
{
    let a = storage::names_view(operations@);
    let b = storage::names_view(quarantine@);
    let x = storage::names_view(out.operations@);
    let y = storage::names_view(out.quarantine@);
    let first = choose|order: Seq<Seq<u8>>| #[trigger] storage::prunes_to(a, order, 64, x);
    let second = choose|order: Seq<Seq<u8>>| #[trigger] storage::prunes_to(b, order, 16, y);
    lemma_pruned(a, first, 64, x, 0, Seq::empty());
    lemma_pruned(b, second, 16, y, 0, Seq::empty());
}

} // verus!
