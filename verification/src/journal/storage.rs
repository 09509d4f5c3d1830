//! What the journal decides about its files: which kinds of file it accepts, how
//! an atomic write goes from stage to stage, and which old files go away.

use vstd::prelude::*;

use crate::journal::model::{StoreError, WriteStage};

verus! {

/// Which of the two files of an operation is written.
#[derive(Debug, Clone, Copy, PartialEq, Eq, Structural)]
pub enum WriteTarget {
    Operation,
    Channel,
}

/// A stage of a write that is made to fail.
#[derive(Debug, Clone, Copy, PartialEq, Eq, Structural)]
pub struct Failpoint {
    pub target: WriteTarget,
    pub stage: WriteStage,
}

/// What stands at a path, links not followed.
#[derive(Debug, Clone, Copy, PartialEq, Eq, Structural)]
pub enum FileKind {
    Missing,
    Unreadable,
    Symlink,
    Directory,
    File,
    Other,
}

/// What came of opening a file and reading it.
#[derive(Debug, PartialEq, Eq)]
pub enum FileRead {
    NotFound,
    OpenFailed,
    ReadFailed,
    Bytes(Vec<u8>),
}

/// What `reject_directory` answers.
pub open spec fn directory_verdict(kind: FileKind) -> Result<(), StoreError> {
    match kind {
        FileKind::Directory => Ok(()),
        FileKind::Symlink => Err(StoreError::SymlinkRejected),
        FileKind::Missing | FileKind::Unreadable => Err(StoreError::ReadFailed),
        FileKind::File | FileKind::Other => Err(StoreError::UnexpectedFileType),
    }
}

/// Accepts a directory and nothing else.
pub fn reject_directory(kind: FileKind) -> (r: Result<(), StoreError>)
    ensures
        r == directory_verdict(kind),
{
    match kind {
        FileKind::Directory => Ok(()),
        FileKind::Symlink => Err(StoreError::SymlinkRejected),
        FileKind::Missing => Err(StoreError::ReadFailed),
        FileKind::Unreadable => Err(StoreError::ReadFailed),
        FileKind::File => Err(StoreError::UnexpectedFileType),
        FileKind::Other => Err(StoreError::UnexpectedFileType),
    }
}

/// What `reject_symlink` answers.
pub open spec fn symlink_verdict(kind: FileKind) -> Result<(), StoreError> {
    match kind {
        FileKind::File | FileKind::Missing => Ok(()),
        FileKind::Symlink => Err(StoreError::SymlinkRejected),
        FileKind::Unreadable => Err(StoreError::ReadFailed),
        FileKind::Directory | FileKind::Other => Err(StoreError::UnexpectedFileType),
    }
}

/// Accepts a regular file, or nothing at all.
pub fn reject_symlink(kind: FileKind) -> (r: Result<(), StoreError>)
    ensures
        r == symlink_verdict(kind),
{
    match kind {
        FileKind::File => Ok(()),
        FileKind::Missing => Ok(()),
        FileKind::Symlink => Err(StoreError::SymlinkRejected),
        FileKind::Unreadable => Err(StoreError::ReadFailed),
        FileKind::Directory => Err(StoreError::UnexpectedFileType),
        FileKind::Other => Err(StoreError::UnexpectedFileType),
    }
}

/// The bytes of a file that is not a link, or nothing where there is no file.
/// `kind` is what stands at the path and `read` what came of opening it.
pub fn read_nofollow(kind: FileKind, read: FileRead) -> (r: Result<Option<Vec<u8>>, StoreError>)
    ensures
        r == match symlink_verdict(kind) {
            Err(error) => Err::<Option<Vec<u8>>, StoreError>(error),
            Ok(_) => match read {
                FileRead::NotFound => Ok(None),
                FileRead::OpenFailed | FileRead::ReadFailed => Err(StoreError::ReadFailed),
                FileRead::Bytes(bytes) => Ok(Some(bytes)),
            },
        },
{
    match reject_symlink(kind) {
        Err(error) => Err(error),
        Ok(_) => match read {
            FileRead::NotFound => Ok(None),
            FileRead::OpenFailed => Err(StoreError::ReadFailed),
            FileRead::ReadFailed => Err(StoreError::ReadFailed),
            FileRead::Bytes(bytes) => Ok(Some(bytes)),
        },
    }
}

/// Fails exactly at the stage and target of the failpoint.
pub fn maybe_fail(failpoint: Option<Failpoint>, target: WriteTarget, stage: WriteStage) -> (r:
    Result<(), StoreError>)
    ensures
        r == if failpoint == Some(Failpoint { target, stage }) {
            Err::<(), StoreError>(StoreError::WriteFailed(stage))
        } else {
            Ok(())
        },
{
    match failpoint {
        Some(point) => if point.target == target && point.stage == stage {
            Err(StoreError::WriteFailed(stage))
        } else {
            Ok(())
        },
        None => Ok(()),
    }
}

// ---------------------------------------------------------------------------
// Atomic writes
// ---------------------------------------------------------------------------
/// Where a stage stands in the order of the stages.
pub open spec fn stage_index(stage: WriteStage) -> int {
    match stage {
        WriteStage::CreateTemp => 0,
        WriteStage::WriteAll => 1,
        WriteStage::SyncFile => 2,
        WriteStage::Rename => 3,
        WriteStage::SyncParent => 4,
    }
}

/// What an atomic write asks for next.
#[derive(Debug, Clone, Copy, PartialEq, Eq)]
pub enum WriteAction {
    /// Perform this stage and report whether it succeeded.
    Perform(WriteStage),
    /// The new contents are in place.
    Done,
    /// Give up with this error, after removing the temporary file where one may
    /// have been made.
    Abort { error: StoreError, remove_temp: bool },
}

/// Whether a write to `target` is made to fail at `stage`.
pub open spec fn fails_at(
    failpoint: Option<Failpoint>,
    target: WriteTarget,
    stage: WriteStage,
) -> bool {
    failpoint == Some(Failpoint { target, stage })
}

/// Enters `stage` of a write.
pub open spec fn entered(
    failpoint: Option<Failpoint>,
    target: WriteTarget,
    stage: WriteStage,
) -> WriteAction {
    if fails_at(failpoint, target, stage) {
        WriteAction::Abort {
            error: StoreError::WriteFailed(stage),
            remove_temp: stage != WriteStage::CreateTemp,
        }
    } else {
        WriteAction::Perform(stage)
    }
}

/// Enters `stage` of a write: the stage is to be performed, unless the write is
/// made to fail there.
pub fn enter_write_stage(failpoint: Option<Failpoint>, target: WriteTarget, stage: WriteStage) -> (r:
    WriteAction)
    ensures
        r == entered(failpoint, target, stage),
{
    match maybe_fail(failpoint, target, stage) {
        Ok(_) => WriteAction::Perform(stage),
        Err(error) => WriteAction::Abort { error, remove_temp: stage != WriteStage::CreateTemp },
    }
}

/// What follows a stage that was performed.
pub open spec fn followed(
    failpoint: Option<Failpoint>,
    target: WriteTarget,
    stage: WriteStage,
    succeeded: bool,
) -> WriteAction {
    if !succeeded {
        WriteAction::Abort { error: StoreError::WriteFailed(stage), remove_temp: true }
    } else {
        match stage {
            WriteStage::CreateTemp => entered(failpoint, target, WriteStage::WriteAll),
            WriteStage::WriteAll => entered(failpoint, target, WriteStage::SyncFile),
            WriteStage::SyncFile => entered(failpoint, target, WriteStage::Rename),
            WriteStage::Rename => entered(failpoint, target, WriteStage::SyncParent),
            WriteStage::SyncParent => WriteAction::Done,
        }
    }
}

/// What follows a stage that was performed: the next stage in order, or the end of
/// the write.
pub fn follow_write_stage(
    failpoint: Option<Failpoint>,
    target: WriteTarget,
    stage: WriteStage,
    succeeded: bool,
) -> (r: WriteAction)
    ensures
        r == followed(failpoint, target, stage, succeeded),
{
    if !succeeded {
        return WriteAction::Abort { error: StoreError::WriteFailed(stage), remove_temp: true };
    }
    match stage {
        WriteStage::CreateTemp => enter_write_stage(failpoint, target, WriteStage::WriteAll),
        WriteStage::WriteAll => enter_write_stage(failpoint, target, WriteStage::SyncFile),
        WriteStage::SyncFile => enter_write_stage(failpoint, target, WriteStage::Rename),
        WriteStage::Rename => enter_write_stage(failpoint, target, WriteStage::SyncParent),
        WriteStage::SyncParent => WriteAction::Done,
    }
}

/// A write goes forward through the stages: after one stage comes the next, the
/// end, or an error that names the stage that failed.
pub proof fn law_write_stages_in_order(
    failpoint: Option<Failpoint>,
    target: WriteTarget,
    stage: WriteStage,
    succeeded: bool,
)
    ensures
        match followed(failpoint, target, stage, succeeded) {
            WriteAction::Perform(next) => succeeded && stage_index(next) == stage_index(stage) + 1
                && !fails_at(failpoint, target, next),
            WriteAction::Done => succeeded && stage == WriteStage::SyncParent,
            WriteAction::Abort { error, remove_temp } => remove_temp && (error
                matches StoreError::WriteFailed(failed) && (if succeeded {
                stage_index(failed) == stage_index(stage) + 1 && fails_at(failpoint, target, failed)
            } else {
                failed == stage
            })),
        },
{
}

// ---------------------------------------------------------------------------
// Directories, locks and names
// ---------------------------------------------------------------------------
/// Accepts the journal's own directory `kind`, as it stands after it was made where
/// it was missing. `created` says whether making it succeeded, where it was tried.
pub fn ensure_directory(created: Option<bool>, kind: FileKind) -> (r: Result<(), StoreError>)
    ensures
        r == if created == Some(false) {
            Err::<(), StoreError>(StoreError::WriteFailed(WriteStage::CreateTemp))
        } else {
            directory_verdict(kind)
        },
{
    match created {
        Some(false) => Err(StoreError::WriteFailed(WriteStage::CreateTemp)),
        _ => reject_directory(kind),
    }
}

/// Accepts a directory below the journal's own, as `ensure_directory` does, if it
/// lies within it.
pub fn ensure_child_directory(within_root: bool, created: Option<bool>, kind: FileKind) -> (r:
    Result<(), StoreError>)
    ensures
        r == if !within_root {
            Err::<(), StoreError>(StoreError::InvalidPathComponent("root"))
        } else if created == Some(false) {
            Err(StoreError::WriteFailed(WriteStage::CreateTemp))
        } else {
            directory_verdict(kind)
        },
{
    if !within_root {
        return Err(StoreError::InvalidPathComponent("root"));
    }
    ensure_directory(created, kind)
}

/// Whether the channel is locked: `kind` is what stood at the lock's path, and
/// `locked` says whether the file could be opened and locked.
pub fn lock_channel(kind: FileKind, locked: bool) -> (r: Result<(), StoreError>)
    ensures
        r == match symlink_verdict(kind) {
            Err(error) => Err::<(), StoreError>(error),
            Ok(_) => if locked {
                Ok(())
            } else {
                Err(StoreError::LockFailed)
            },
        },
{
    match reject_symlink(kind) {
        Err(error) => Err(error),
        Ok(_) => if locked {
            Ok(())
        } else {
            Err(StoreError::LockFailed)
        },
    }
}

/// The name of a file, or `record` where it has none that is text.
pub open spec fn record_name(file_name: Option<Seq<char>>) -> Seq<char> {
    match file_name {
        Some(name) => name,
        None => "record"@,
    }
}

fn record_name_text<'a>(file_name: Option<&'a str>) -> (r: &'a str)
    ensures
        r@ == record_name(
            match file_name {
                Some(name) => Some(name@),
                None => None,
            },
        ),
{
    match file_name {
        Some(name) => name,
        None => "record",
    }
}

/// The name of the temporary file from which a write is renamed into place.
pub fn temp_file_name(file_name: Option<&str>, unique: &str) -> (out: String)
    ensures
        out@ == "."@ + record_name(
            match file_name {
                Some(name) => Some(name@),
                None => None,
            },
        ) + "."@ + unique@ + ".tmp"@,
{
    let mut out: String = ".".to_owned();
    out.append(record_name_text(file_name));
    out.append(".");
    out.append(unique);
    out.append(".tmp");
    out
}

/// The name under which a record that cannot be trusted is set aside.
pub fn quarantine_name(file_name: Option<&str>, unique: &str) -> (out: String)
    ensures
        out@ == unique@ + "-"@ + record_name(
            match file_name {
                Some(name) => Some(name@),
                None => None,
            },
        ) + ".json"@,
{
    let mut out: String = unique.to_owned();
    out.append("-");
    out.append(record_name_text(file_name));
    out.append(".json");
    out
}

// ---------------------------------------------------------------------------
// Pruning
// ---------------------------------------------------------------------------
/// The order of file names: byte by byte, a name before the names that it begins.
pub open spec fn name_le(a: Seq<u8>, b: Seq<u8>) -> bool
    decreases a.len(),
{
    if a.len() == 0 {
        true
    } else if b.len() == 0 {
        false
    } else if a[0] != b[0] {
        a[0] < b[0]
    } else {
        name_le(a.drop_first(), b.drop_first())
    }
}

/// The names of a list.
pub open spec fn names_view(names: Seq<Vec<u8>>) -> Seq<Seq<u8>> {
    names.map_values(|n: Vec<u8>| n@)
}

/// The names stand in order.
pub open spec fn names_sorted(names: Seq<Seq<u8>>) -> bool {
    forall|i: int, j: int| 0 <= i < j < names.len() ==> name_le(#[trigger] names[i], #[trigger] names[j])
}

proof fn lemma_name_le_total(a: Seq<u8>, b: Seq<u8>)
    ensures
        name_le(a, b) || name_le(b, a),
    decreases a.len(),
{
    if a.len() > 0 && b.len() > 0 && a[0] == b[0] {
        lemma_name_le_total(a.drop_first(), b.drop_first());
    }
}

proof fn lemma_name_le_transitive(a: Seq<u8>, b: Seq<u8>, c: Seq<u8>)
    requires
        name_le(a, b),
        name_le(b, c),
    ensures
        name_le(a, c),
    decreases a.len(),
{
    if a.len() > 0 && b.len() > 0 && c.len() > 0 && a[0] == b[0] && b[0] == c[0] {
        lemma_name_le_transitive(a.drop_first(), b.drop_first(), c.drop_first());
    }
}

/// Whether the name `a` comes no later than `b`.
pub fn name_not_after(a: &Vec<u8>, b: &Vec<u8>) -> (r: bool)
    ensures
        r == name_le(a@, b@),
{
    let mut i: usize = 0;
    assert(a@.skip(0) =~= a@ && b@.skip(0) =~= b@);
    while i < a.len()
        invariant
            i <= a@.len(),
            i <= b@.len(),
            name_le(a@, b@) == name_le(a@.skip(i as int), b@.skip(i as int)),
        decreases a@.len() - i,
    {
        if i == b.len() {
            return false;
        }
        if a[i] != b[i] {
            return a[i] < b[i];
        }
        assert(a@.skip(i as int).drop_first() =~= a@.skip(i + 1));
        assert(b@.skip(i as int).drop_first() =~= b@.skip(i + 1));
        i += 1;
    }
    true
}

/// The names of `names` in order.
pub fn sort_names(names: Vec<Vec<u8>>) -> (out: Vec<Vec<u8>>)
    ensures
        names_view(out@).to_multiset() == names_view(names@).to_multiset(),
        names_sorted(names_view(out@)),
        out@.len() == names@.len(),
{
    let ghost all = names_view(names@);
    let mut rest = names;
    let mut out: Vec<Vec<u8>> = Vec::new();
    proof {
        assert(names_view(out@) + names_view(rest@) =~= all);
    }
    while rest.len() > 0
        invariant
            (names_view(out@) + names_view(rest@)).to_multiset() == all.to_multiset(),
            names_sorted(names_view(out@)),
            out@.len() + rest@.len() == all.len(),
        decreases rest@.len(),
    {
        let ghost out0 = names_view(out@);
        let ghost rest0 = names_view(rest@);
        let name = rest.pop().unwrap();
        let ghost v = name@;
        proof {
            assert(rest0 =~= names_view(rest@).push(v));
        }
        let mut at: usize = out.len();
        while at > 0 && !name_not_after(&out[at - 1], &name)
            invariant
                at <= out@.len(),
                out0 == names_view(out@),
                v == name@,
                forall|k: int| at <= k < out0.len() ==> !name_le(#[trigger] out0[k], v),
            decreases at,
        {
            assert(out0[at - 1] == out@[at - 1]@);
            at -= 1;
        }
        proof {
            if at > 0 {
                assert(out0[at - 1] == out@[at - 1]@);
            }
        }
        out.insert(at, name);
        proof {
            let out1 = names_view(out@);
            let rest1 = names_view(rest@);
            assert(out1 =~= out0.insert(at as int, v));
            assert forall|i: int, j: int| 0 <= i < j < out1.len() implies name_le(
                #[trigger] out1[i],
                #[trigger] out1[j],
            ) by {
                if j < at {
                    assert(out1[i] == out0[i] && out1[j] == out0[j]);
                } else if j == at {
                    assert(out1[i] == out0[i] && out1[j] == v);
                    if i < at - 1 {
                        assert(name_le(out0[i], out0[at - 1]));
                        lemma_name_le_transitive(out0[i], out0[at - 1], v);
                    }
                } else if i == at {
                    assert(out1[j] == out0[j - 1]);
                    lemma_name_le_total(out0[j - 1], v);
                } else {
                    assert(out1[j] == out0[j - 1]);
                    if i < at {
                        assert(out1[i] == out0[i]);
                    } else {
                        assert(out1[i] == out0[i - 1]);
                    }
                }
            }
            assert((out1 + rest1).to_multiset() == (out0 + rest0).to_multiset()) by {
                broadcast use vstd::seq_lib::group_to_multiset_ensures;

                assert(out1 =~= out0.insert(at as int, v));
                vstd::seq_lib::lemma_multiset_commutative(out1, rest1);
                vstd::seq_lib::lemma_multiset_commutative(out0, rest0);
                assert(out1.to_multiset() =~= out0.to_multiset().insert(v));
                assert(rest0.to_multiset() =~= rest1.to_multiset().insert(v));
            }
        }
    }
    proof {
        assert(names_view(out@) + names_view(rest@) =~= names_view(out@));
    }
    out
}

/// `removed` is what a directory with `names` loses when it keeps the last `keep`
/// names of `order`, which lists `names` in order.
pub open spec fn prunes_to(
    names: Seq<Seq<u8>>,
    order: Seq<Seq<u8>>,
    keep: nat,
    removed: Seq<Seq<u8>>,
) -> bool {
    &&& order.to_multiset() == names.to_multiset()
    &&& names_sorted(order)
    &&& order.len() == names.len()
    &&& removed == order.take(
        if names.len() <= keep {
            0
        } else {
            names.len() - keep
        },
    )
}

/// The names that go away when a directory that holds `names` keeps the last
/// `keep` of them in order: the others, in order.
pub fn prune_directory(names: Vec<Vec<u8>>, keep: usize) -> (removed: Vec<Vec<u8>>)
    ensures
        exists|order: Seq<Seq<u8>>| #[trigger]
            prunes_to(names_view(names@), order, keep as nat, names_view(removed@)),
{
    let mut sorted = sort_names(names);
    let ghost order = names_view(sorted@);
    let count: usize = if sorted.len() <= keep {
        0
    } else {
        sorted.len() - keep
    };
    sorted.truncate(count);
    assert(names_view(sorted@) =~= order.take(count as int));
    assert(prunes_to(names_view(names@), order, keep as nat, names_view(sorted@)));
    sorted
}

/// After pruning, a directory holds at most `keep` files.
pub proof fn law_pruning_is_bounded(
    names: Seq<Seq<u8>>,
    order: Seq<Seq<u8>>,
    keep: nat,
    removed: Seq<Seq<u8>>,
)
    requires
        prunes_to(names, order, keep, removed),
    ensures
        names.len() - removed.len() <= keep,
        names.len() <= keep ==> removed.len() == 0,
{
}

} // verus!
