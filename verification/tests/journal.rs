use std::collections::HashMap;

use agentdesk_discord::journal::channel::{
    ChannelJournal, ChannelRecord, Transition, MAX_OPERATION_RECORDS, MAX_QUARANTINE_RECORDS,
};
use agentdesk_discord::journal::codec::{ChannelWire, StateWire};
use agentdesk_discord::journal::digest::{digest, valid_digest, valid_id};
use agentdesk_discord::journal::model::{
    BoundPanel, Candidate, ChannelSnapshot, DeleteDisposition, DeleteObservation, Mutation,
    OperationStamp, PanelPlan, ReadOutcome, StoreError, WriteStage,
};
use agentdesk_discord::journal::operations::{
    bind_authorization_for_test, identity_for_test, mutate_bind_authorization_for_test,
    retire_authorization_for_test,
};
use agentdesk_discord::journal::storage::{
    ensure_child_directory, ensure_directory, enter_write_stage, follow_write_stage, lock_channel,
    prune_directory, quarantine_name, read_nofollow, reject_directory, temp_file_name, FileKind,
    FileRead, WriteAction, WriteTarget,
};

/// The files of one channel, in memory.
struct Disk {
    operations: HashMap<String, Vec<u8>>,
    channel: Option<(Vec<u8>, ChannelWire)>,
}

fn copy_wire(wire: &ChannelWire) -> ChannelWire {
    ChannelWire {
        schema_version: wire.schema_version,
        provider: wire.provider.clone(),
        canonical_token_hash: wire.canonical_token_hash.clone(),
        channel_id: wire.channel_id,
        revision: wire.revision,
        channel_generation: wire.channel_generation,
        current_singleton_message_id: wire.current_singleton_message_id,
        last_operation: wire.last_operation.clone(),
        replay: wire.replay.clone(),
        state: wire.state,
    }
}

impl Disk {
    fn new() -> Self {
        Disk { operations: HashMap::new(), channel: None }
    }

    fn stored(&self, journal: &ChannelJournal) -> Result<Option<ChannelSnapshot>, StoreError> {
        let record = match &self.channel {
            None => ChannelRecord::Absent,
            Some((bytes, wire)) => {
                let path = journal.operation_path(&wire.last_operation);
                ChannelRecord::Parsed {
                    bytes: bytes.clone(),
                    wire: copy_wire(wire),
                    operation: Ok(self.operations.get(&path).cloned()),
                }
            }
        };
        journal.load_optional_locked(record).stored
    }

    fn write(
        &mut self,
        journal: &ChannelJournal,
        target: WriteTarget,
        wire: &ChannelWire,
    ) -> Result<(), StoreError> {
        let bytes = format!("{wire:?}").into_bytes();
        let mut action = enter_write_stage(journal.failpoint(), target, WriteStage::CreateTemp);
        loop {
            match action {
                WriteAction::Perform(stage) => {
                    if stage == WriteStage::Rename {
                        match target {
                            WriteTarget::Operation => {
                                let path = journal.operation_path(&wire.last_operation);
                                self.operations.insert(path, bytes.clone());
                            }
                            WriteTarget::Channel => {
                                self.channel = Some((bytes.clone(), copy_wire(wire)));
                            }
                        }
                    }
                    action = follow_write_stage(journal.failpoint(), target, stage, true);
                }
                WriteAction::Done => return Ok(()),
                WriteAction::Abort { error, .. } => return Err(error),
            }
        }
    }

    fn apply<T>(&mut self, journal: &ChannelJournal, step: Transition<T>) -> Mutation<T> {
        let written = match &step {
            Transition::Persist { snapshot, .. } => {
                let wire = journal.persist_locked(snapshot);
                self.write(journal, WriteTarget::Operation, &wire)
                    .and_then(|_| self.write(journal, WriteTarget::Channel, &wire))
            }
            _ => Ok(()),
        };
        step.settle(written)
    }
}

fn plan(journal: &ChannelJournal, turn_id: u64, prior: Option<u64>) -> PanelPlan {
    PanelPlan { identity: journal.identity().clone(), turn_id, expected_prior_message_id: prior }
}

fn applied<T: std::fmt::Debug>(mutation: Mutation<T>) -> T {
    match mutation {
        Mutation::Applied(value) => value,
        other => panic!("expected applied mutation, got {other:?}"),
    }
}

/// The provider that is named beside the four fixed ones: here one of them, so that no
/// other is supported.
const FIFTH: &str = "codex";

fn journal(channel_id: u64) -> ChannelJournal {
    ChannelJournal::open("codex", "discord_0123456789abcdef", channel_id, FIFTH).unwrap()
}

#[test]
fn canonical_identity_rejects_noncanonical_path_components() {
    for provider in ["", "unsupported", "../codex", "Codex"] {
        assert!(ChannelJournal::open(provider, "discord_0123456789abcdef", 1, FIFTH).is_err());
    }
    for token_hash in [
        "",
        "discord_0123456789abcde",
        "discord_0123456789ABCDE",
        "../discord_0123456789abcdef",
    ] {
        assert!(ChannelJournal::open("codex", token_hash, 1, FIFTH).is_err());
    }
    assert!(ChannelJournal::open("codex", "discord_0123456789abcdef", 0, FIFTH).is_err());
}

#[test]
fn fixed_providers_are_supported() {
    for provider in ["codex", "gemini", "opencode", "qwen"] {
        let journal = ChannelJournal::open(provider, "discord_0123456789abcdef", 1, FIFTH).unwrap();
        assert_eq!(journal.identity().provider(), provider);
    }
    for (provider, fifth) in [("foo", FIFTH), ("Foo", "Foo"), ("..", ".."), ("", "")] {
        assert!(ChannelJournal::open(provider, "discord_0123456789abcdef", 1, fifth).is_err());
    }
    assert!(ChannelJournal::open("codex", "discord_0123456789abcdef", 1, "foo").is_ok());
}

#[test]
fn refused_path_component_is_named() {
    let refused = |provider: &str, hash: &str, channel_id: u64| {
        ChannelJournal::open(provider, hash, channel_id, FIFTH).err()
    };
    assert_eq!(
        refused("Codex", "discord_0123456789abcdef", 1),
        Some(StoreError::InvalidPathComponent("provider"))
    );
    assert_eq!(
        refused("codex", "discord_", 1),
        Some(StoreError::InvalidPathComponent("canonical_token_hash"))
    );
    assert_eq!(
        refused("codex", "discord_0123456789abcdef", 0),
        Some(StoreError::InvalidPathComponent("channel_id"))
    );
    assert_eq!(refused("codex", "discord_0123456789abcdef", 1), None);
}

#[test]
fn crash_reload_recovers_only_bind_authorized_state() {
    let mut disk = Disk::new();
    let channel_journal = journal(31);
    let step = channel_journal.prepare(
        plan(&channel_journal, 10, Some(90)),
        0,
        disk.stored(&channel_journal),
    );
    let prepared = applied(disk.apply(&channel_journal, step));
    assert!(matches!(
        channel_journal.recover_bind_authorization(disk.stored(&channel_journal)),
        ReadOutcome::Missing
    ));
    let step = channel_journal.record_sent(&prepared, 91, disk.stored(&channel_journal));
    let authorization = applied(disk.apply(&channel_journal, step));

    let reopened = journal(31);
    assert_eq!(
        reopened.recover_bind_authorization(disk.stored(&reopened)),
        ReadOutcome::Present(authorization.clone())
    );
    let step = reopened.commit_bind(&authorization, disk.stored(&reopened));
    let bound = applied(disk.apply(&reopened, step));
    assert!(matches!(
        reopened.recover_bind_authorization(disk.stored(&reopened)),
        ReadOutcome::Missing
    ));
    let step = reopened.authorize_retire(&bound, disk.stored(&reopened));
    let retire = applied(disk.apply(&reopened, step));
    assert_eq!(retire.delete_message_id(), 90);
}

#[test]
fn channel_generation_is_monotonic_across_equal_turn_observations() {
    let mut disk = Disk::new();
    let journal = journal(32);
    let step = journal.prepare(plan(&journal, 1, None), 0, disk.stored(&journal));
    let first = applied(disk.apply(&journal, step));
    assert_eq!(first.generation, 1);
    let step = journal.record_sent(&first, 100, disk.stored(&journal));
    let first_auth = applied(disk.apply(&journal, step));
    let step = journal.commit_bind(&first_auth, disk.stored(&journal));
    let _ = applied(disk.apply(&journal, step));

    let snapshot = match journal.load(disk.stored(&journal)) {
        ReadOutcome::Present(snapshot) => snapshot,
        other => panic!("expected snapshot, got {other:?}"),
    };
    let step = journal.prepare(
        plan(&journal, 2, Some(100)),
        snapshot.revision,
        disk.stored(&journal),
    );
    let second = applied(disk.apply(&journal, step));
    assert_eq!(second.generation, 2);
}

#[test]
fn stale_cas_and_mutated_authorization_fail_closed() {
    let mut disk = Disk::new();
    let journal = journal(33);
    let step = journal.prepare(plan(&journal, 1, Some(7)), 0, disk.stored(&journal));
    let prepared = applied(disk.apply(&journal, step));
    let step = journal.prepare(plan(&journal, 2, Some(7)), 0, disk.stored(&journal));
    assert!(matches!(disk.apply(&journal, step), Mutation::Stale));
    let step = journal.record_sent(&prepared, 8, disk.stored(&journal));
    let authorization = applied(disk.apply(&journal, step));
    let mut mutated = authorization.clone();
    mutated.candidate.message_id = 9;
    let step = journal.commit_bind(&mutated, disk.stored(&journal));
    assert!(matches!(
        disk.apply(&journal, step),
        Mutation::DurabilityFailure(StoreError::InvariantViolation)
    ));
    let step = journal.commit_bind(&authorization, disk.stored(&journal));
    assert!(matches!(disk.apply(&journal, step), Mutation::Applied(_)));
}

#[test]
fn deletion_model_keeps_or_consumes_exact_authorization() {
    for observation in [DeleteObservation::Forbidden403, DeleteObservation::Transient] {
        let mut disk = Disk::new();
        let journal = journal(34);
        let step = journal.prepare(plan(&journal, 1, Some(20)), 0, disk.stored(&journal));
        let prepared = applied(disk.apply(&journal, step));
        let step = journal.record_sent(&prepared, 21, disk.stored(&journal));
        let bind = applied(disk.apply(&journal, step));
        let step = journal.commit_bind(&bind, disk.stored(&journal));
        let bound = applied(disk.apply(&journal, step));
        let step = journal.authorize_retire(&bound, disk.stored(&journal));
        let retire = applied(disk.apply(&journal, step));
        let step = journal.record_delete_observation(&retire, observation, disk.stored(&journal));
        assert_eq!(
            disk.apply(&journal, step),
            Mutation::Replayed(DeleteDisposition::RetainAuthorization)
        );
    }

    for observation in [
        DeleteObservation::Deleted,
        DeleteObservation::NotFound404,
        DeleteObservation::UnknownMessage10008,
    ] {
        let mut disk = Disk::new();
        let journal = journal(35);
        let step = journal.prepare(plan(&journal, 1, Some(20)), 0, disk.stored(&journal));
        let prepared = applied(disk.apply(&journal, step));
        let step = journal.record_sent(&prepared, 21, disk.stored(&journal));
        let bind = applied(disk.apply(&journal, step));
        let step = journal.commit_bind(&bind, disk.stored(&journal));
        let bound = applied(disk.apply(&journal, step));
        let step = journal.authorize_retire(&bound, disk.stored(&journal));
        let retire = applied(disk.apply(&journal, step));
        let step = journal.record_delete_observation(&retire, observation, disk.stored(&journal));
        assert_eq!(
            disk.apply(&journal, step),
            Mutation::Applied(DeleteDisposition::Retired)
        );
    }
}

#[test]
fn every_write_stage_failpoint_is_typed_and_reloadable() {
    for target in [WriteTarget::Operation, WriteTarget::Channel] {
        for stage in [
            WriteStage::CreateTemp,
            WriteStage::WriteAll,
            WriteStage::SyncFile,
            WriteStage::Rename,
            WriteStage::SyncParent,
        ] {
            let mut disk = Disk::new();
            let channel_journal = journal(36).with_failpoint(target, stage);
            let step = channel_journal.prepare(
                plan(&channel_journal, 1, None),
                0,
                disk.stored(&channel_journal),
            );
            assert!(matches!(
                disk.apply(&channel_journal, step),
                Mutation::DurabilityFailure(StoreError::WriteFailed(actual)) if actual == stage
            ));
            let reopened = journal(36);
            assert!(matches!(
                reopened.load(disk.stored(&reopened)),
                ReadOutcome::Missing | ReadOutcome::Present(_)
            ));
        }
    }
}

#[test]
fn exact_replay_tuple_accepts_only_identical_operation() {
    let mut disk = Disk::new();
    let journal = journal(39);
    let step = journal.prepare(plan(&journal, 1, Some(50)), 0, disk.stored(&journal));
    let prepared = applied(disk.apply(&journal, step));
    let step = journal.record_sent(&prepared, 51, disk.stored(&journal));
    let authorization = applied(disk.apply(&journal, step));
    let step = journal.record_sent(&prepared, 51, disk.stored(&journal));
    assert_eq!(disk.apply(&journal, step), Mutation::Replayed(authorization.clone()));
    let step = journal.record_sent(&prepared, 52, disk.stored(&journal));
    assert_eq!(disk.apply(&journal, step), Mutation::Stale);
    let step = journal.commit_bind(&authorization, disk.stored(&journal));
    assert!(matches!(disk.apply(&journal, step), Mutation::Applied(_)));
    let step = journal.commit_bind(&authorization, disk.stored(&journal));
    assert!(matches!(disk.apply(&journal, step), Mutation::Replayed(_)));
}

#[test]
fn operation_and_quarantine_gc_are_bounded() {
    let journal = journal(37);
    let names = |count: usize| -> Vec<Vec<u8>> {
        (0..count).map(|index| format!("{index:020}.json").into_bytes()).collect()
    };
    let removed = journal.gc_locked(
        names(MAX_OPERATION_RECORDS + 5),
        names(MAX_QUARANTINE_RECORDS + 5),
    );
    assert_eq!(MAX_OPERATION_RECORDS + 5 - removed.operations.len(), MAX_OPERATION_RECORDS);
    assert_eq!(MAX_QUARANTINE_RECORDS + 5 - removed.quarantine.len(), MAX_QUARANTINE_RECORDS);
    assert_eq!(removed.operations, names(5));
    assert_eq!(removed.quarantine, names(5));
}

#[test]
fn symlinked_channel_file_is_rejected() {
    let journal = journal(38);
    let read = read_nofollow(FileKind::Symlink, FileRead::Bytes(b"{}".to_vec()));
    let record = match read {
        Err(error) => ChannelRecord::Unreadable(error),
        Ok(None) => ChannelRecord::Absent,
        Ok(Some(_)) => ChannelRecord::Malformed,
    };
    assert_eq!(
        journal.load(journal.load_optional_locked(record).stored),
        ReadOutcome::DurabilityFailure(StoreError::SymlinkRejected)
    );
}

#[test]
fn file_kinds_are_told_apart() {
    assert_eq!(reject_directory(FileKind::Directory), Ok(()));
    assert_eq!(reject_directory(FileKind::Symlink), Err(StoreError::SymlinkRejected));
    assert_eq!(reject_directory(FileKind::Missing), Err(StoreError::ReadFailed));
    assert_eq!(reject_directory(FileKind::File), Err(StoreError::UnexpectedFileType));
    assert_eq!(read_nofollow(FileKind::Missing, FileRead::NotFound), Ok(None));
    assert_eq!(
        read_nofollow(FileKind::File, FileRead::ReadFailed),
        Err(StoreError::ReadFailed)
    );
    assert_eq!(
        read_nofollow(FileKind::File, FileRead::Bytes(b"x".to_vec())),
        Ok(Some(b"x".to_vec()))
    );
    assert_eq!(
        read_nofollow(FileKind::Directory, FileRead::OpenFailed),
        Err(StoreError::UnexpectedFileType)
    );
}

#[test]
fn malformed_record_is_quarantined() {
    let journal = journal(41);
    let loaded = journal.load_optional_locked(ChannelRecord::Malformed);
    assert!(loaded.quarantine);
    assert_eq!(loaded.stored.err(), Some(StoreError::MalformedRecord));
}

#[test]
fn record_without_its_operation_is_quarantined() {
    let mut disk = Disk::new();
    let journal = journal(42);
    let step = journal.prepare(plan(&journal, 1, None), 0, disk.stored(&journal));
    let _ = applied(disk.apply(&journal, step));
    disk.operations.clear();
    assert_eq!(disk.stored(&journal).err(), Some(StoreError::InvariantViolation));
}

#[test]
fn record_of_another_channel_is_refused() {
    let mut disk = Disk::new();
    let own = journal(43);
    let step = own.prepare(plan(&own, 1, None), 0, disk.stored(&own));
    let _ = applied(disk.apply(&own, step));
    let (_, wire) = disk.channel.as_ref().unwrap();
    assert!(copy_wire(wire).into_snapshot(journal(43).identity()).is_ok());
    assert_eq!(
        copy_wire(wire).into_snapshot(journal(44).identity()).err(),
        Some(StoreError::InvariantViolation)
    );
}

#[test]
fn record_is_read_back_as_it_was_written() {
    let mut disk = Disk::new();
    let journal = journal(45);
    let step = journal.prepare(plan(&journal, 3, Some(7)), 0, disk.stored(&journal));
    let prepared = applied(disk.apply(&journal, step));
    let snapshot = disk.stored(&journal).unwrap().unwrap();
    assert_eq!(snapshot.revision, 1);
    assert_eq!(snapshot.channel_generation, 1);
    assert_eq!(snapshot.current_singleton_message_id, None);
    assert_eq!(snapshot.last_operation.operation_id, prepared.operation_id);
    let wire = journal.persist_locked(&snapshot);
    assert_eq!(wire.schema_version, 2);
    assert_eq!(
        wire.state,
        StateWire::Prepared { turn_id: 3, expected_prior_message_id: Some(7), generation: 1 }
    );
    assert_eq!(wire, copy_wire(&disk.channel.as_ref().unwrap().1));
}

#[test]
fn fresh_identifiers_are_valid_and_distinct() {
    let journal = journal(46);
    let first = match journal.prepare(plan(&journal, 1, None), 0, Ok(None)) {
        Transition::Persist { applied, .. } => applied,
        other => panic!("expected a stored transition, got {other:?}"),
    };
    assert!(valid_id(&first.operation_id));
    assert!(valid_id(&first.owner_nonce));
    assert!(valid_digest(&first.digest));
    assert_ne!(first.operation_id, first.owner_nonce);
}

#[test]
fn invalid_plan_is_refused() {
    let journal = journal(47);
    for refused in [plan(&journal, 0, None), plan(&journal, 1, Some(0))] {
        assert_eq!(
            journal.prepare(refused, 0, Ok(None)),
            Transition::Failed(StoreError::InvariantViolation)
        );
    }
}

#[test]
fn generation_and_revision_do_not_wrap() {
    let journal = journal(48);
    assert_eq!(
        journal.prepare(plan(&journal, 1, None), u64::MAX, Ok(None)),
        Transition::Stale
    );
}

#[test]
fn digest_has_a_known_value() {
    assert_eq!(
        digest(&vec![b"abc".to_vec()]),
        "97be98ddbad99618b4dbc9ce71ede23a361673c5eb5cd8647cc215d75db0c452"
    );
    assert_ne!(
        digest(&vec![b"ab".to_vec(), b"c".to_vec()]),
        digest(&vec![b"a".to_vec(), b"bc".to_vec()])
    );
}

#[test]
fn authorization_matches_its_own_candidate_only() {
    let identity = identity_for_test("codex", "discord_0123456789abcdef", 5, FIFTH);
    let candidate = Candidate {
        plan: PanelPlan { identity, turn_id: 1, expected_prior_message_id: Some(2) },
        message_id: 3,
        generation: 1,
    };
    let genuine = bind_authorization_for_test(candidate.clone());
    assert!(genuine.matches_candidate(&candidate));
    let mut other = candidate.clone();
    other.message_id = 4;
    assert!(!genuine.matches_candidate(&other));
    let forged = mutate_bind_authorization_for_test(genuine, other.clone());
    assert!(!forged.matches_candidate(&other));
    let panel = BoundPanel { candidate };
    assert!(retire_authorization_for_test(panel.clone(), 2).matches_panel(&panel));
}

#[test]
fn operation_files_stand_in_the_order_of_revisions() {
    let journal = journal(9);
    let stamp = |revision: u64| OperationStamp::new("id", "nonce", "digest", revision);
    assert_eq!(
        journal.operation_path(&stamp(7)),
        "codex/discord_0123456789abcdef/9/operations/00000000000000000007-id.json"
    );
    assert!(journal.operation_path(&stamp(9)) < journal.operation_path(&stamp(10)));
}

#[test]
fn pruning_keeps_the_newest_names() {
    let names = vec![b"c".to_vec(), b"a".to_vec(), b"b".to_vec()];
    assert_eq!(prune_directory(names, 1), vec![b"a".to_vec(), b"b".to_vec()]);
    assert_eq!(prune_directory(vec![b"a".to_vec()], 1), Vec::<Vec<u8>>::new());
}

#[test]
fn directories_and_locks_are_checked() {
    assert_eq!(ensure_directory(None, FileKind::Directory), Ok(()));
    assert_eq!(ensure_directory(Some(true), FileKind::Directory), Ok(()));
    assert_eq!(
        ensure_directory(Some(false), FileKind::Missing),
        Err(StoreError::WriteFailed(WriteStage::CreateTemp))
    );
    assert_eq!(ensure_directory(None, FileKind::Symlink), Err(StoreError::SymlinkRejected));
    assert_eq!(
        ensure_child_directory(false, None, FileKind::Directory),
        Err(StoreError::InvalidPathComponent("root"))
    );
    assert_eq!(
        ensure_child_directory(true, None, FileKind::File),
        Err(StoreError::UnexpectedFileType)
    );
    assert_eq!(ensure_child_directory(true, Some(true), FileKind::Directory), Ok(()));
    assert_eq!(lock_channel(FileKind::Missing, true), Ok(()));
    assert_eq!(lock_channel(FileKind::File, false), Err(StoreError::LockFailed));
    assert_eq!(lock_channel(FileKind::Symlink, true), Err(StoreError::SymlinkRejected));
}

#[test]
fn temporary_and_quarantined_files_are_named() {
    assert_eq!(temp_file_name(Some("channel.json"), "ab"), ".channel.json.ab.tmp");
    assert_eq!(temp_file_name(None, "ab"), ".record.ab.tmp");
    assert_eq!(quarantine_name(Some("channel.json"), "ab"), "ab-channel.json.json");
    assert_eq!(quarantine_name(None, "ab"), "ab-record.json");
}
