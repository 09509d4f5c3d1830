//! Custody of what a watcher was reading when it was replaced.
//!
//! A watcher that is cancelled leaves behind what it had read: its place in the
//! source, the bytes that it had not parsed, and the turn that it was collecting. Its
//! successor takes that over before it reads anything. Taking it over is no delivery;
//! what belongs to another turn or another source stays where it is.

use vstd::prelude::*;

use crate::text;
use crate::watcher::commit_decisions::{same_optional_text, IdentityView, InflightTurnIdentity};
use crate::watcher::source_epoch::{SourceFileIdentity, WatcherSourceAuthority};
use crate::watcher::utf8_decoder::{DecoderView, Utf8ChunkDecoder};

verus! {

/// The turn that was being collected.
#[derive(Debug, Clone, Copy, PartialEq, Eq, Structural)]
pub struct RetainedTurn {
    /// The number under which the caller keeps the turn.
    pub handle: u64,
    pub was_paused: bool,
}

/// What a watcher left behind.
#[derive(Debug)]
pub struct Pending {
    pub provider: String,
    pub session: String,
    pub path: String,
    /// The watcher that left it, by the number of its cancellation flag.
    pub cancel: u64,
    /// The number under which the caller keeps the open source.
    pub source: u64,
    pub source_file: SourceFileIdentity,
    pub authority: WatcherSourceAuthority,
    pub offset: u64,
    pub buffer: String,
    pub buffer_start: u64,
    pub utf8: Utf8ChunkDecoder,
    pub turn: Option<RetainedTurn>,
    pub identity: Option<InflightTurnIdentity>,
    pub nonce: Option<String>,
    /// The number under which the caller keeps the seeds of a turn that was restored
    /// or read again, and the acknowledgement that is awaited.
    pub carried: u64,
    pub rewind_attempts: u8,
    pub mirrored: bool,
    pub first_sequence: Option<u64>,
}

pub struct PendingView {
    pub provider: Seq<char>,
    pub session: Seq<char>,
    pub path: Seq<char>,
    pub cancel: u64,
    pub source: u64,
    pub source_file: SourceFileIdentity,
    pub authority: WatcherSourceAuthority,
    pub offset: u64,
    pub buffer: Seq<char>,
    pub buffer_start: u64,
    pub utf8: DecoderView,
    pub turn: Option<RetainedTurn>,
    pub identity: Option<IdentityView>,
    pub nonce: Option<Seq<char>>,
    pub carried: u64,
    pub rewind_attempts: u8,
    pub mirrored: bool,
    pub first_sequence: Option<u64>,
}

/// The view of an optional identity.
pub open spec fn optional_identity(identity: Option<InflightTurnIdentity>) -> Option<
    IdentityView,
> {
    match identity {
        Some(identity) => Some(identity@),
        None => None,
    }
}

impl View for Pending {
    type V = PendingView;

    open spec fn view(&self) -> PendingView {
        PendingView {
            provider: self.provider@,
            session: self.session@,
            path: self.path@,
            cancel: self.cancel,
            source: self.source,
            source_file: self.source_file,
            authority: self.authority,
            offset: self.offset,
            buffer: self.buffer@,
            buffer_start: self.buffer_start,
            utf8: self.utf8@,
            turn: self.turn,
            identity: optional_identity(self.identity),
            nonce: text::opt_text(self.nonce),
            carried: self.carried,
            rewind_attempts: self.rewind_attempts,
            mirrored: self.mirrored,
            first_sequence: self.first_sequence,
        }
    }
}

fn clone_identity(identity: &Option<InflightTurnIdentity>) -> (out: Option<InflightTurnIdentity>)
    ensures
        optional_identity(out) == optional_identity(*identity),
{
    match identity {
        Some(identity) => Some(identity.clone()),
        None => None,
    }
}

/// The row of the channel's current turn.
#[derive(Debug)]
pub struct HandoffRow {
    pub identity: InflightTurnIdentity,
    pub nonce: Option<String>,
    pub output_path: Option<String>,
}

/// What is known of the channel now.
#[derive(Debug)]
pub struct HandoffFacts {
    pub row: Option<HandoffRow>,
    pub generation_mtime_ns: i64,
    pub reset_incarnation: u64,
    /// The file at the source's path now, and its length.
    pub file: Option<(SourceFileIdentity, u64)>,
}

/// What is known of one thing that was left behind.
#[derive(Debug, Clone, Copy, PartialEq, Eq, Structural)]
pub struct PendingFacts {
    /// The watcher that left it is cancelled.
    pub cancelled: bool,
    /// Its turn was stopped since.
    pub turn_stopped: bool,
}

/// The row is of the turn and the source of what was left behind.
pub open spec fn row_matches(pending: PendingView, row: Option<HandoffRow>, path: Seq<char>) -> bool {
    row matches Some(row) && pending.identity == Some(row.identity@) && pending.nonce
        == text::opt_text(row.nonce) && text::opt_text(row.output_path) == Some(path)
}

/// The source is still the one that was read: the same generation, with no reset
/// since, and the same file, which was not cut.
pub open spec fn source_matches(pending: PendingView, facts: HandoffFacts) -> bool {
    facts.file matches Some((file, len)) && file == pending.source_file && len >= pending.offset
        && pending.source_file != SourceFileIdentity::Unavailable
        && pending.authority.generation_mtime_ns != 0 && pending.authority.generation_mtime_ns
        == facts.generation_mtime_ns && pending.authority.reset_incarnation
        == facts.reset_incarnation
}

/// What was left behind is for this watcher, now.
pub open spec fn matches_current(
    pending: PendingView,
    custody: CustodyView,
    facts: HandoffFacts,
    own: PendingFacts,
) -> bool {
    &&& pending.provider == custody.provider
    &&& pending.session == custody.session
    &&& pending.path == custody.path
    &&& own.cancelled
    &&& pending.cancel != custody.cancel
    &&& row_matches(pending, facts.row, custody.path)
    &&& source_matches(pending, facts)
    &&& pending.turn matches Some(turn) ==> !turn.was_paused
    &&& !own.turn_stopped
}

/// Where the turn of what was left behind starts, as far as that is known: by this
/// offset it is asked whether the turn was stopped since.
pub open spec fn stop_offset(pending: PendingView) -> u64 {
    match pending.identity {
        Some(identity) => match identity.turn_start_offset {
            Some(offset) => offset,
            None => pending.buffer_start,
        },
        None => pending.buffer_start,
    }
}

impl Pending {
    /// Where the turn of what was left behind starts, as far as that is known.
    pub fn stop_range_start(&self) -> (r: u64)
        ensures
            r == stop_offset(self@),
    {
        match &self.identity {
            Some(identity) => match identity.turn_start_offset {
                Some(offset) => offset,
                None => self.buffer_start,
            },
            None => self.buffer_start,
        }
    }

    /// Whether what was left behind is for this watcher, now.
    pub fn matches(&self, custody: &Custody, facts: &HandoffFacts, own: PendingFacts) -> (r: bool)
        ensures
            r == matches_current(self@, custody@, *facts, own),
    {
        let row = match &facts.row {
            Some(row) => row,
            None => return false,
        };
        let same_turn = match &self.identity {
            Some(identity) => identity.matches_state(&row.identity),
            None => false,
        };
        let row_path = match &row.output_path {
            Some(path) => text::same_text(path.as_str(), custody.path.as_str()),
            None => false,
        };
        let same_file = match facts.file {
            Some((file, len)) => file == self.source_file && len >= self.offset,
            None => false,
        };
        let not_paused = match &self.turn {
            Some(turn) => !turn.was_paused,
            None => true,
        };
        text::same_text(self.provider.as_str(), custody.provider.as_str()) && text::same_text(
            self.session.as_str(),
            custody.session.as_str(),
        ) && text::same_text(self.path.as_str(), custody.path.as_str()) && own.cancelled
            && self.cancel != custody.cancel && same_turn && same_optional_text(
            &self.nonce,
            &row.nonce,
        ) && row_path && self.authority.generation_mtime_ns != 0
            && self.authority.generation_mtime_ns == facts.generation_mtime_ns
            && self.authority.reset_incarnation == facts.reset_incarnation && self.source_file
            != SourceFileIdentity::Unavailable && same_file && not_paused && !own.turn_stopped
    }

    fn clone_for(&self, cancel: u64) -> (out: Pending)
        ensures
            out@ == (PendingView { cancel, ..self@ }),
    {
        Pending {
            provider: self.provider.clone(),
            session: self.session.clone(),
            path: self.path.clone(),
            cancel,
            source: self.source,
            source_file: self.source_file,
            authority: self.authority,
            offset: self.offset,
            buffer: self.buffer.clone(),
            buffer_start: self.buffer_start,
            utf8: self.utf8.clone(),
            turn: self.turn,
            identity: clone_identity(&self.identity),
            nonce: text::clone_opt(&self.nonce),
            carried: self.carried,
            rewind_attempts: self.rewind_attempts,
            mirrored: self.mirrored,
            first_sequence: self.first_sequence,
        }
    }
}

/// A watcher's custody of what was left behind in its channel. Nobody else holds it
/// until it is released.
#[derive(Debug)]
pub struct Custody {
    pub pending: Vec<Pending>,
    pub checkpoint: Option<Pending>,
    pub cancel: u64,
    pub provider: String,
    pub session: String,
    pub path: String,
}

pub struct CustodyView {
    pub pending: Seq<PendingView>,
    pub checkpoint: Option<PendingView>,
    pub cancel: u64,
    pub provider: Seq<char>,
    pub session: Seq<char>,
    pub path: Seq<char>,
}

/// The views of a list.
pub open spec fn pending_views(list: Seq<Pending>) -> Seq<PendingView> {
    list.map_values(|pending: Pending| pending@)
}

/// The view of something that may have been left behind.
pub open spec fn optional_pending(pending: Option<Pending>) -> Option<PendingView> {
    match pending {
        Some(pending) => Some(pending@),
        None => None,
    }
}

impl View for Custody {
    type V = CustodyView;

    open spec fn view(&self) -> CustodyView {
        CustodyView {
            pending: pending_views(self.pending@),
            checkpoint: optional_pending(self.checkpoint),
            cancel: self.cancel,
            provider: self.provider@,
            session: self.session@,
            path: self.path@,
        }
    }
}

/// What is known of the watcher that is registered for the channel.
#[derive(Debug, Clone, Copy, PartialEq, Eq, Structural)]
pub struct WatcherHandleFacts {
    pub cancel: u64,
    pub paused: bool,
    pub resume_pending: bool,
}

/// What is known of the claim on the source, at the moment of taking over.
#[derive(Debug, Clone, Copy, PartialEq, Eq)]
pub struct ClaimPin {
    pub cancel: u64,
    /// The claim is still the current one.
    pub current: bool,
    pub paused: bool,
    pub resume_pending: bool,
}

/// The watcher may ask for what was left behind: it is not cancelled, it is the one
/// that is registered, and no pause or resume is outstanding.
pub open spec fn may_look(cancel: u64, cancelled: bool, handle: Option<WatcherHandleFacts>) -> bool {
    !cancelled && (handle matches Some(handle) && handle.cancel == cancel && !handle.paused
        && !handle.resume_pending)
}

/// The watcher may take over: its claim is the current one, and it is still neither
/// cancelled nor paused.
pub open spec fn may_take(cancel: u64, cancelled: bool, pin: Option<ClaimPin>) -> bool {
    !cancelled && (pin matches Some(pin) && pin.cancel == cancel && pin.current && !pin.paused
        && !pin.resume_pending)
}

/// The custody after the thing at `index` was taken over: it leaves the list, and a
/// copy of it, in the name of the new watcher, is what is left behind next.
pub open spec fn after_take(custody: CustodyView, index: int) -> CustodyView {
    CustodyView {
        pending: custody.pending.remove(index),
        checkpoint: Some(PendingView { cancel: custody.cancel, ..custody.pending[index] }),
        ..custody
    }
}

/// What is left behind in the channel when the custody is released.
pub open spec fn after_release(custody: CustodyView, cancelled: bool) -> Seq<PendingView> {
    match custody.checkpoint {
        Some(checkpoint) => if cancelled {
            custody.pending.push(checkpoint)
        } else {
            custody.pending
        },
        None => custody.pending,
    }
}

/// Where a watcher's reader stands.
#[derive(Debug)]
pub struct ReaderState {
    /// The open source, if it is kept.
    pub source: Option<u64>,
    pub source_file: SourceFileIdentity,
    pub authority: WatcherSourceAuthority,
    pub offset: u64,
    pub buffer: String,
    pub buffer_start: u64,
    pub utf8: Utf8ChunkDecoder,
    pub carried: u64,
    pub rewind_attempts: u8,
    pub mirrored: bool,
    pub first_sequence: Option<u64>,
}

/// There is something to leave behind: the source is kept, and a turn, text or bytes
/// of it are not settled.
pub open spec fn worth_keeping(reader: ReaderState, turn: Option<RetainedTurn>) -> bool {
    reader.source is Some && (turn is Some || reader.buffer@.len() > 0 || reader.utf8@.pending.len()
        > 0)
}

/// The row that what is left behind is of: the one that the turn started with, or
/// else the current one.
pub open spec fn row_of_turn<'a>(
    turn: Option<RetainedTurn>,
    startup_row: Option<&'a HandoffRow>,
    row: Option<&'a HandoffRow>,
) -> Option<&'a HandoffRow> {
    if turn is Some && startup_row is Some {
        startup_row
    } else {
        row
    }
}

/// What a watcher leaves behind.
pub open spec fn left_behind(
    custody: CustodyView,
    reader: ReaderState,
    turn: Option<RetainedTurn>,
    row: Option<&HandoffRow>,
) -> PendingView {
    PendingView {
        provider: custody.provider,
        session: custody.session,
        path: custody.path,
        cancel: custody.cancel,
        source: reader.source->0,
        source_file: reader.source_file,
        authority: reader.authority,
        offset: reader.offset,
        buffer: reader.buffer@,
        buffer_start: reader.buffer_start,
        utf8: reader.utf8@,
        turn,
        identity: match row {
            Some(row) => Some(row.identity@),
            None => None,
        },
        nonce: match row {
            Some(row) => text::opt_text(row.nonce),
            None => None,
        },
        carried: reader.carried,
        rewind_attempts: reader.rewind_attempts,
        mirrored: reader.mirrored,
        first_sequence: reader.first_sequence,
    }
}

impl Custody {
    /// The custody of a channel, where `pending` is what was left behind there. There
    /// is none where somebody else still holds it.
    pub fn acquire(
        pending: Option<Vec<Pending>>,
        provider: &str,
        session: &str,
        path: &str,
        cancel: u64,
    ) -> (r: Option<Custody>)
        ensures
            r is Some <==> pending is Some,
            r matches Some(custody) ==> custody@ == (CustodyView {
                pending: pending_views(pending->0@),
                checkpoint: None,
                cancel,
                provider: provider@,
                session: session@,
                path: path@,
            }),
    {
        match pending {
            Some(pending) => Some(
                Custody {
                    pending,
                    checkpoint: None,
                    cancel,
                    provider: provider.to_owned(),
                    session: session.to_owned(),
                    path: path.to_owned(),
                },
            ),
            None => None,
        }
    }

    /// The first of what was left behind that is for this watcher, now. `own` is what
    /// is known of each.
    pub fn position_for_current(
        &self,
        cancelled: bool,
        handle: Option<WatcherHandleFacts>,
        facts: &HandoffFacts,
        own: &Vec<PendingFacts>,
    ) -> (r: Option<usize>)
        requires
            own@.len() == self@.pending.len(),
        ensures
            match r {
                Some(index) => {
                    &&& may_look(self.cancel, cancelled, handle)
                    &&& index < self@.pending.len()
                    &&& matches_current(
                        self@.pending[index as int],
                        self@,
                        *facts,
                        own@[index as int],
                    )
                    &&& forall|k: int|
                        0 <= k < index ==> !matches_current(
                            #[trigger] self@.pending[k],
                            self@,
                            *facts,
                            own@[k],
                        )
                },
                None => may_look(self.cancel, cancelled, handle) ==> forall|k: int|
                    0 <= k < self@.pending.len() ==> !matches_current(
                        #[trigger] self@.pending[k],
                        self@,
                        *facts,
                        own@[k],
                    ),
            },
    {
        if cancelled {
            return None;
        }
        match handle {
            Some(handle) => {
                if handle.cancel != self.cancel || handle.paused || handle.resume_pending {
                    return None;
                }
            },
            None => return None,
        }
        let mut i: usize = 0;
        while i < self.pending.len()
            invariant
                i <= self.pending@.len(),
                own@.len() == self@.pending.len(),
                may_look(self.cancel, cancelled, handle),
                forall|k: int|
                    0 <= k < i ==> !matches_current(
                        #[trigger] self@.pending[k],
                        self@,
                        *facts,
                        own@[k],
                    ),
            decreases self.pending@.len() - i,
        {
            assert(self@.pending[i as int] == self.pending@[i as int]@);
            if self.pending[i].matches(self, facts, own[i]) {
                return Some(i);
            }
            i += 1;
        }
        None
    }

    /// Takes over the thing at `index`, if the watcher still may. Taking it over is
    /// not settling it: until then it is what this watcher leaves behind.
    pub fn take_for_current(&mut self, index: usize, cancelled: bool, pin: Option<ClaimPin>) -> (r:
        Option<Pending>)
        requires
            index < old(self)@.pending.len(),
        ensures
            r is Some <==> may_take(old(self).cancel, cancelled, pin),
            match r {
                Some(taken) => taken@ == old(self)@.pending[index as int] && final(self)@
                    == after_take(old(self)@, index as int),
                None => *final(self) == *old(self),
            },
    {
        if cancelled {
            return None;
        }
        match pin {
            Some(pin) => {
                if pin.cancel != self.cancel || !pin.current || pin.paused || pin.resume_pending {
                    return None;
                }
            },
            None => return None,
        }
        let ghost before = self@.pending;
        let taken = self.pending.remove(index);
        self.checkpoint = Some(taken.clone_for(self.cancel));
        assert(before[index as int] == taken@);
        assert(self@.pending =~= before.remove(index as int));
        Some(taken)
    }

    /// Notes what this watcher leaves behind, if there is anything to leave. What was
    /// noted before is kept otherwise.
    pub fn checkpoint(
        &mut self,
        reader: &ReaderState,
        turn: Option<RetainedTurn>,
        startup_row: Option<&HandoffRow>,
        row: Option<&HandoffRow>,
    )
        ensures
            final(self)@ == if worth_keeping(*reader, turn) {
                CustodyView {
                    checkpoint: Some(
                        left_behind(
                            old(self)@,
                            *reader,
                            turn,
                            row_of_turn(turn, startup_row, row),
                        ),
                    ),
                    ..old(self)@
                }
            } else {
                old(self)@
            },
    {
        let source: u64 = match reader.source {
            Some(source) => source,
            None => return,
        };
        if turn.is_none() && reader.buffer.as_str().is_empty() && !reader.utf8.has_pending() {
            return;
        }
        let row = match (&turn, startup_row) {
            (Some(_), Some(startup_row)) => Some(startup_row),
            _ => row,
        };
        let (identity, nonce) = match row {
            Some(row) => (Some(row.identity.clone()), text::clone_opt(&row.nonce)),
            None => (None, None),
        };
        self.checkpoint = Some(
            Pending {
                provider: self.provider.clone(),
                session: self.session.clone(),
                path: self.path.clone(),
                cancel: self.cancel,
                source,
                source_file: reader.source_file,
                authority: reader.authority,
                offset: reader.offset,
                buffer: reader.buffer.clone(),
                buffer_start: reader.buffer_start,
                utf8: reader.utf8.clone(),
                turn,
                identity,
                nonce,
                carried: reader.carried,
                rewind_attempts: reader.rewind_attempts,
                mirrored: reader.mirrored,
                first_sequence: reader.first_sequence,
            },
        );
    }

    /// Notes that there is nothing to leave behind: what was read is settled.
    pub fn settled(&mut self)
        ensures
            final(self)@ == (CustodyView { checkpoint: None, ..old(self)@ }),
    {
        self.checkpoint = None;
    }

    /// Gives up the custody, and says what is left behind in the channel: what this
    /// watcher noted joins it where the watcher was cancelled.
    pub fn release(self, cancelled: bool) -> (r: Vec<Pending>)
        ensures
            pending_views(r@) == after_release(self@, cancelled),
    {
        let ghost before = self@;
        let mut pending = self.pending;
        match self.checkpoint {
            Some(checkpoint) => {
                if cancelled {
                    pending.push(checkpoint);
                    assert(pending_views(pending@) =~= before.pending.push(checkpoint@));
                }
            },
            None => {},
        }
        pending
    }
}

/// What was taken over and not settled is not lost: a watcher that is cancelled
/// before it notes anything leaves it behind as it was, in its own name, and leaves
/// all the rest as it was.
pub proof fn law_interrupted_take_over_loses_nothing(custody: CustodyView, index: int)
    requires
        0 <= index < custody.pending.len(),
    ensures
        ({
            let left = after_release(after_take(custody, index), true);
            &&& left.len() == custody.pending.len()
            &&& left.last() == (PendingView { cancel: custody.cancel, ..custody.pending[index] })
            &&& left.drop_last() == custody.pending.remove(index)
        }),
{
    let taken = after_take(custody, index);
    let left = after_release(taken, true);
    assert(left.drop_last() =~= taken.pending);
}

/// What a watcher takes over is of its own session and source and of the current
/// turn, and was left by a watcher that is cancelled: nothing is taken from another
/// turn, and nothing from a watcher that still runs.
pub proof fn law_only_the_own_turn_is_taken_over(
    pending: PendingView,
    custody: CustodyView,
    facts: HandoffFacts,
    own: PendingFacts,
)
    requires
        matches_current(pending, custody, facts, own),
    ensures
        own.cancelled,
        pending.session == custody.session,
        pending.path == custody.path,
        facts.row matches Some(row) && pending.identity == Some(row.identity@) && pending.nonce
            == text::opt_text(row.nonce),
        facts.file matches Some((file, len)) && file == pending.source_file && pending.offset
            <= len,
{
}

/// A watcher that took something over and goes on to read the same source leaves it
/// to a successor of the same turn: the copy that it leaves matches whatever the
/// thing itself matched, for any other watcher once this one is cancelled.
pub proof fn law_take_over_can_be_repeated(
    custody: CustodyView,
    successor: CustodyView,
    index: int,
    facts: HandoffFacts,
    own: PendingFacts,
)
    requires
        0 <= index < custody.pending.len(),
        matches_current(custody.pending[index], custody, facts, own),
        successor.provider == custody.provider,
        successor.session == custody.session,
        successor.path == custody.path,
        successor.cancel != custody.cancel,
    ensures
        matches_current(
            after_release(after_take(custody, index), true).last(),
            successor,
            facts,
            own,
        ),
{
}

/// Custody is adopted when it is due. Whatever a watcher left behind, with a turn in
/// progress or without one, as long as that turn was not paused, is found by a successor
/// of the same provider, session and path that may look: the row is the one that it was
/// left with, the source is the same and was not cut, the leaver is cancelled, and the turn
/// was not stopped. What stands before it in the list is found first, if it is due too.
pub proof fn law_what_is_due_is_found(
    custody: Custody,
    cancelled: bool,
    handle: Option<WatcherHandleFacts>,
    facts: HandoffFacts,
    own: Vec<PendingFacts>,
    r: Option<usize>,
    k: int,
)
    requires
        call_ensures(
            Custody::position_for_current,
            (&custody, cancelled, handle, &facts, &own),
            r,
        ),
        own@.len() == custody.pending@.len(),
        !cancelled,
        handle matches Some(registered) && registered.cancel == custody.cancel
            && !registered.paused && !registered.resume_pending,
        0 <= k < custody.pending@.len(),
        custody.pending@[k].provider@ == custody.provider@,
        custody.pending@[k].session@ == custody.session@,
        custody.pending@[k].path@ == custody.path@,
        custody.pending@[k].cancel != custody.cancel,
        own@[k].cancelled,
        !own@[k].turn_stopped,
        custody.pending@[k].turn is None || !custody.pending@[k].turn->0.was_paused,
        facts.row matches Some(row) && custody.pending@[k].identity is Some
            && custody.pending@[k].identity->0@ == row.identity@ && text::opt_text(
            custody.pending@[k].nonce,
        ) == text::opt_text(row.nonce) && row.output_path is Some && row.output_path->0@
            == custody.path@,
        facts.file matches Some((file, len)) && file == custody.pending@[k].source_file && file
            != SourceFileIdentity::Unavailable && len >= custody.pending@[k].offset,
        custody.pending@[k].authority.generation_mtime_ns == facts.generation_mtime_ns,
        facts.generation_mtime_ns != 0,
        custody.pending@[k].authority.reset_incarnation == facts.reset_incarnation,
    ensures
        r matches Some(index) && index <= k,
{
    assert(custody@.pending[k] == custody.pending@[k]@);
}

/// Only what is due is found: a watcher that is cancelled, is not the registered one, or is
/// paused or about to resume, finds nothing, and what it finds is of its own session, of a
/// cancelled watcher other than itself, of the current row and the unchanged source, and of
/// a turn that was neither paused nor stopped.
pub proof fn law_only_what_is_due_is_found(
    custody: Custody,
    cancelled: bool,
    handle: Option<WatcherHandleFacts>,
    facts: HandoffFacts,
    own: Vec<PendingFacts>,
    r: Option<usize>,
)
    requires
        call_ensures(
            Custody::position_for_current,
            (&custody, cancelled, handle, &facts, &own),
            r,
        ),
        own@.len() == custody.pending@.len(),
    ensures
        cancelled ==> r is None,
        handle is None ==> r is None,
        handle matches Some(registered) ==> (registered.cancel != custody.cancel
            || registered.paused || registered.resume_pending ==> r is None),
        r matches Some(index) ==> {
            let found = custody.pending@[index as int];
            &&& index < custody.pending@.len()
            &&& found.provider@ == custody.provider@
            &&& found.session@ == custody.session@
            &&& found.path@ == custody.path@
            &&& found.cancel != custody.cancel
            &&& own@[index as int].cancelled
            &&& !own@[index as int].turn_stopped
            &&& found.turn matches Some(turn) ==> !turn.was_paused
            &&& facts.row matches Some(row) && found.identity matches Some(identity) && identity@
                == row.identity@ && text::opt_text(found.nonce) == text::opt_text(row.nonce)
                && row.output_path is Some && row.output_path->0@ == custody.path@
            &&& facts.file matches Some((file, len)) && file == found.source_file && file
                != SourceFileIdentity::Unavailable && len >= found.offset
            &&& found.authority.generation_mtime_ns == facts.generation_mtime_ns
            &&& facts.generation_mtime_ns != 0
            &&& found.authority.reset_incarnation == facts.reset_incarnation
        },
{
    if r is Some {
        assert(custody@.pending[r->0 as int] == custody.pending@[r->0 as int]@);
    }
}

/// One thing that was left behind is asked the same question alone.
pub proof fn law_a_turn_in_progress_is_no_obstacle(
    pending: Pending,
    other: Pending,
    custody: Custody,
    facts: HandoffFacts,
    own: PendingFacts,
    r: bool,
    r_other: bool,
)
    requires
        call_ensures(Pending::matches, (&pending, &custody, &facts, own), r),
        call_ensures(Pending::matches, (&other, &custody, &facts, own), r_other),
        other@ == (PendingView { turn: other.turn, ..pending@ }),
        pending.turn is None || !pending.turn->0.was_paused,
        other.turn is None || !other.turn->0.was_paused,
    ensures
        r == r_other,
{
}

/// A cancelled watcher hands over all that it noted. What it had read, in a kept source, is
/// noted by the checkpoint as it stands, with the turn in progress; releasing the custody
/// then adds it behind what was left before, and the successor's custody holds it. Under the
/// row that the turn started with, or else the current one, it is due for that successor.
pub proof fn law_checkpoint_reaches_the_successor(
    custody: &mut Custody,
    reader: ReaderState,
    turn: Option<RetainedTurn>,
    startup_row: Option<&HandoffRow>,
    row: Option<&HandoffRow>,
    released: Vec<Pending>,
    provider: &str,
    session: &str,
    path: &str,
    cancel: u64,
    acquired: Option<Custody>,
)
    requires
        call_ensures(Custody::checkpoint, (custody, &reader, turn, startup_row, row), ()),
        reader.source is Some,
        turn is Some || reader.buffer@.len() > 0 || reader.utf8@.pending.len() > 0,
        call_ensures(Custody::release, (*final(custody), true), released),
        call_ensures(Custody::acquire, (Some(released), provider, session, path, cancel), acquired),
    ensures
        ({
            let kept = released@.last();
            let held = if turn is Some && startup_row is Some {
                startup_row
            } else {
                row
            };
            &&& released@.len() == old(custody).pending@.len() + 1
            &&& forall|i: int|
                0 <= i < old(custody).pending@.len() ==> (#[trigger] released@[i])@
                    == old(custody).pending@[i]@
            &&& kept.provider@ == old(custody).provider@
            &&& kept.session@ == old(custody).session@
            &&& kept.path@ == old(custody).path@
            &&& kept.cancel == old(custody).cancel
            &&& Some(kept.source) == reader.source
            &&& kept.source_file == reader.source_file
            &&& kept.authority == reader.authority
            &&& kept.offset == reader.offset
            &&& kept.buffer@ == reader.buffer@
            &&& kept.buffer_start == reader.buffer_start
            &&& kept.utf8@ == reader.utf8@
            &&& kept.turn == turn
            &&& kept.carried == reader.carried
            &&& kept.rewind_attempts == reader.rewind_attempts
            &&& kept.mirrored == reader.mirrored
            &&& kept.first_sequence == reader.first_sequence
            &&& held matches Some(held) ==> kept.identity is Some && kept.identity->0@
                == held.identity@ && text::opt_text(kept.nonce) == text::opt_text(held.nonce)
            &&& held is None ==> kept.identity is None && kept.nonce is None
            &&& acquired matches Some(successor) && successor@.pending == pending_views(released@)
                && successor.checkpoint is None && successor.cancel == cancel
                && successor.provider@ == provider@ && successor.session@ == session@
                && successor.path@ == path@
        }),
{
    let before = old(custody)@.pending;
    let views = pending_views(released@);
    assert(views == before.push(views.last()));
    assert(views.len() == released@.len());
    assert(views.last() == released@.last()@);
    assert forall|i: int| 0 <= i < old(custody).pending@.len() implies (#[trigger] released@[i])@
        == old(custody).pending@[i]@ by {
        assert(views[i] == released@[i]@);
        assert(before[i] == old(custody).pending@[i]@);
    }
}

/// Nothing is handed over that is settled, or that there is none of: a watcher that keeps no
/// source, or has neither a turn nor text nor bytes, notes nothing; one that settled leaves
/// no note; and one that was not cancelled leaves only what was there before.
pub proof fn law_settled_work_is_not_handed_over(
    noting: &mut Custody,
    reader: ReaderState,
    turn: Option<RetainedTurn>,
    startup_row: Option<&HandoffRow>,
    row: Option<&HandoffRow>,
    settling: &mut Custody,
    custody: Custody,
    cancelled: bool,
    released: Vec<Pending>,
)
    requires
        call_ensures(Custody::checkpoint, (noting, &reader, turn, startup_row, row), ()),
        call_ensures(Custody::settled, (settling,), ()),
        call_ensures(Custody::release, (custody, cancelled), released),
    ensures
        reader.source is None || (turn is None && reader.buffer@.len() == 0
            && reader.utf8@.pending.len() == 0) ==> final(noting)@ == old(noting)@,
        final(noting)@.pending == old(noting)@.pending,
        final(settling).checkpoint is None,
        final(settling)@.pending == old(settling)@.pending,
        !cancelled || custody.checkpoint is None ==> pending_views(released@)
            == pending_views(custody.pending@),
{
}

/// Custody is exclusive: there is none to acquire while somebody else holds it.
pub proof fn law_custody_is_exclusive(
    pending: Option<Vec<Pending>>,
    provider: &str,
    session: &str,
    path: &str,
    cancel: u64,
    acquired: Option<Custody>,
)
    requires
        call_ensures(Custody::acquire, (pending, provider, session, path, cancel), acquired),
    ensures
        acquired is Some <==> pending is Some,
        acquired matches Some(custody) ==> pending_views(custody.pending@) == pending_views(
            pending->0@,
        ),
{
}

/// A watcher whose claim is current, and which is neither cancelled nor paused nor about to
/// resume, takes over what it asks for; every other watcher takes nothing and changes
/// nothing. What is taken leaves the list and is at once noted in the taker's own name.
pub proof fn law_current_claim_takes_over(
    custody: &mut Custody,
    index: usize,
    cancelled: bool,
    pin: Option<ClaimPin>,
    r: Option<Pending>,
)
    requires
        call_ensures(Custody::take_for_current, (custody, index, cancelled, pin), r),
        index < old(custody).pending@.len(),
    ensures
        !cancelled && (pin matches Some(claim) && claim.cancel == old(custody).cancel
            && claim.current && !claim.paused && !claim.resume_pending) ==> r is Some,
        cancelled || pin is None ==> r is None,
        pin matches Some(claim) ==> (claim.cancel != old(custody).cancel || !claim.current
            || claim.paused || claim.resume_pending ==> r is None),
        r is None ==> *final(custody) == *old(custody),
        r matches Some(taken) ==> {
            &&& taken@ == old(custody).pending@[index as int]@
            &&& final(custody).pending@.len() == old(custody).pending@.len() - 1
            &&& forall|i: int|
                0 <= i < index ==> (#[trigger] final(custody).pending@[i])@
                    == old(custody).pending@[i]@
            &&& forall|i: int|
                index <= i < final(custody).pending@.len() ==> (#[trigger] final(custody).pending@[i])@ == old(custody).pending@[i + 1]@
            &&& final(custody).checkpoint is Some
            &&& final(custody).checkpoint->0@ == (PendingView {
                cancel: old(custody).cancel,
                ..taken@
            })
            &&& final(custody).cancel == old(custody).cancel
            &&& final(custody).path@ == old(custody).path@
            &&& final(custody).session@ == old(custody).session@
            &&& final(custody).provider@ == old(custody).provider@
        },
{
    let before = old(custody)@.pending;
    let after = final(custody)@.pending;
    assert(before[index as int] == old(custody).pending@[index as int]@);
    if r is Some {
        assert(after == before.remove(index as int));
        assert forall|i: int| 0 <= i < index implies (#[trigger] final(custody).pending@[i])@
            == old(custody).pending@[i]@ by {
            assert(after[i] == final(custody).pending@[i]@);
            assert(before[i] == old(custody).pending@[i]@);
        }
        assert forall|i: int| index <= i < final(custody).pending@.len() implies (#[trigger] final(custody).pending@[i])@ == old(custody).pending@[i + 1]@ by {
            assert(after[i] == final(custody).pending@[i]@);
            assert(before[i + 1] == old(custody).pending@[i + 1]@);
        }
    }
}

/// Whether a turn was stopped is asked from where the turn starts, if the row told that, and
/// else from where the unparsed text starts.
pub proof fn law_stop_is_asked_from_the_turn_start(pending: Pending, r: u64)
    requires
        call_ensures(Pending::stop_range_start, (&pending,), r),
    ensures
        pending.identity matches Some(identity) ==> (identity.turn_start_offset matches Some(start)
            ==> r == start),
        pending.identity is None || pending.identity->0.turn_start_offset is None ==> r
            == pending.buffer_start,
{
}

} // verus!
