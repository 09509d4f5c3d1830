//! What is read of a session's output, to what it is ascribed, and what is committed of it.

use vstd::prelude::*;

use crate::message_id::is_synthetic_headless_message_id_raw;
use crate::native_codex::WatcherTerminalKind;
use crate::relay_coord::{TmuxRelayCoord, UNRECORDED_RELAY_OFFSET};
use crate::text;
use crate::watcher::chunk_forward::{
    forward_turn_chunk_to_supervisor_relay, forwarded_chunk, ForwardKind, ForwardedChunk,
};
use crate::watcher::commit_decisions::{
    commit_proven_soft_terminal_backlog, committed_row_requires_marker_tombstone,
    mark_watcher_terminal_delivery_committed, missing_inflight_after_session_bound_delivery,
    terminal_commit_is_recorded, watcher_commit_should_advance_runtime_binding,
    watcher_terminal_commit_side_effects_for_test,
    watcher_terminal_kind_requires_tui_completion_gate, watcher_tui_gate_blocks_lifecycle,
    CommittedRow, InflightTurnIdentity, RelayOwnerKind, TuiCompletionGateOutcome, TurnSource,
    WatcherTerminalCommitOutcome, WatcherTerminalCommitPatch, WatcherTerminalCommitSideEffects,
};
use crate::watcher::jsonl::{
    read_jsonl_chunk_at_attach, read_jsonl_chunk_contiguous, JsonlReadChunk,
};
use crate::watcher::orphan_frame::{
    observe_orphan_terminal_frame, owner_or_record_holds, range_already_committed,
    OrphanFrameStep, OrphanTerminalFrameFacts, RelayDeadLetterRecord, SessionBoundRelayAckOutcome,
};
use crate::watcher::output_guard::{
    guard_rollover, watcher_rollover_action, ProviderOutputVerdict, WatcherRolloverAction,
};
use crate::watcher::source_epoch::{
    authority_for_decoded_text, merged_source_stamp, read_watcher_source_chunk,
    source_authority_for_read, SourceStamp, WatcherSourceAuthority,
};

verus! {

// ---------------------------------------------------------------------------
// Reading
// ---------------------------------------------------------------------------
/// A read of the source gives its bytes as they stand, from the offset on, no more than one
/// read takes, and ends where the next one goes on; a read behind the end gives nothing and
/// stays where it is.
pub proof fn law_source_is_read_as_it_stands(contents: &[u8], offset: u64, r: (Vec<u8>, u64))
    requires
        call_ensures(read_watcher_source_chunk, (contents, offset), r),
    ensures
        offset >= contents@.len() ==> r.0@.len() == 0 && r.1 == offset,
        offset < contents@.len() ==> r.0@.len() > 0,
        r.0@.len() <= 16384,
        r.1 == offset + r.0@.len(),
        r.1 < contents@.len() ==> r.0@.len() == 16384 || offset >= contents@.len(),
        forall|i: int|
            0 <= i < r.0@.len() ==> offset + i < contents@.len() && (#[trigger] r.0@[i])
                == contents@[offset + i],
{
}

/// A contiguous read of the transcript starts where it is told to and passes over nothing; a
/// read at a persisted offset inside a record passes over the rest of that record and starts
/// behind its line feed. Either gives the bytes as they stand, as many as one read takes.
pub proof fn law_transcript_is_read_by_records(
    contents: &[u8],
    offset: u64,
    contiguous: JsonlReadChunk,
    attached: JsonlReadChunk,
)
    requires
        call_ensures(read_jsonl_chunk_contiguous, (contents, offset), contiguous),
        call_ensures(read_jsonl_chunk_at_attach, (contents, offset), attached),
    ensures
        offset <= contents@.len() ==> contiguous.start_offset == offset,
        offset > contents@.len() ==> contiguous.start_offset == contents@.len()
            && attached.start_offset <= contents@.len(),
        !contiguous.skipped_partial_record,
        0 < offset <= contents@.len() && contents@[offset - 1] != 10 ==> {
            &&& attached.skipped_partial_record
            &&& attached.start_offset == contents@.len() || contents@[attached.start_offset - 1] == 10
            &&& forall|k: int|
                offset <= k < attached.start_offset - 1 ==> #[trigger] contents@[k] != 10
            &&& attached.start_offset >= offset
        },
        offset == 0 || (offset <= contents@.len() && contents@[offset - 1] == 10) ==> {
            &&& !attached.skipped_partial_record
            &&& attached.start_offset == offset
        },
        contiguous.end_offset <= contents@.len(),
        contiguous.end_offset == contents@.len() || contiguous.end_offset
            - contiguous.start_offset == 16384,
        contiguous.data@ == contents@.subrange(
            contiguous.start_offset as int,
            contiguous.end_offset as int,
        ),
        attached.end_offset == contents@.len() || attached.end_offset - attached.start_offset
            == 16384,
        attached.data@ == contents@.subrange(
            attached.start_offset as int,
            attached.end_offset as int,
        ),
{
    if offset <= contents@.len() {
        crate::watcher::jsonl::lemma_after_line_bounds(contents@, offset as int);
    } else {
        crate::watcher::jsonl::lemma_after_line_bounds(contents@, contents@.len() as int);
    }
}

// ---------------------------------------------------------------------------
// Ascribing
// ---------------------------------------------------------------------------
/// A stamp is given only under a witness, is the one that was observed, and is taken away
/// from text that more than one read made up. Nothing else of the authority changes.
pub proof fn law_stamp_needs_a_witness(
    base: WatcherSourceAuthority,
    witnessed: bool,
    observed: Option<SourceStamp>,
    mixed: bool,
    read: WatcherSourceAuthority,
    decoded: WatcherSourceAuthority,
)
    requires
        call_ensures(source_authority_for_read, (base, witnessed, observed), read),
        call_ensures(authority_for_decoded_text, (read, mixed), decoded),
    ensures
        witnessed ==> read.source_stamp == observed,
        !witnessed ==> read.source_stamp is None,
        mixed ==> decoded.source_stamp is None,
        !mixed ==> decoded.source_stamp == read.source_stamp,
        read.generation_mtime_ns == base.generation_mtime_ns,
        read.reset_incarnation == base.reset_incarnation,
        decoded.generation_mtime_ns == base.generation_mtime_ns,
        decoded.reset_incarnation == base.reset_incarnation,
{
}

/// The first contribution gives the text its stamp; every further one keeps it just where it
/// has the same stamp.
pub proof fn law_stamps_have_to_agree(
    first: Option<SourceStamp>,
    second: Option<SourceStamp>,
    after_first: Option<SourceStamp>,
    after_second: Option<SourceStamp>,
)
    requires
        call_ensures(merged_source_stamp, (None, first), after_first),
        call_ensures(merged_source_stamp, (Some(after_first), second), after_second),
    ensures
        after_first == first,
        first is Some && first == second ==> after_second == first,
        first != second ==> after_second is None,
        first is None ==> after_second is None,
{
}

/// What a read contributes is its text as it is, with the span in the source that ends where
/// the buffer ends; empty text has no span.
pub proof fn law_contribution_has_its_span(
    text: &str,
    buffer_len: usize,
    buffer_start_offset: u64,
    out: ForwardedChunk,
)
    requires
        call_ensures(forwarded_chunk, (text, buffer_len, buffer_start_offset), out),
    ensures
        out.text@ == text@,
        text@.len() == 0 <==> out.source_span is None,
        text@.len() > 0 && buffer_start_offset + buffer_len <= u64::MAX
            && vstd::utf8::encode_utf8(text@).len() <= buffer_start_offset + buffer_len ==> (
        out.source_span matches Some((start, end)) && end == buffer_start_offset + buffer_len && end
            - start == vstd::utf8::encode_utf8(text@).len()),
{
}

/// A chunk ends the turn in the relay just where it is given as its end, and then with all
/// that is left over behind it.
pub proof fn law_end_of_turn_is_forwarded(terminal: bool, leftover: usize, r: ForwardKind)
    requires
        call_ensures(forward_turn_chunk_to_supervisor_relay, (terminal, leftover), r),
    ensures
        terminal ==> (r matches ForwardKind::Terminal { leftover_len } && leftover_len == leftover),
        !terminal ==> r is Streaming,
{
}

/// Only clean output is frozen as it is. Output that may be control data is held back, and
/// output that holds control data is never shown: its message is edited to the safe body.
pub proof fn law_only_clean_output_is_frozen(
    verdict: ProviderOutputVerdict,
    chunk: &str,
    action: WatcherRolloverAction,
    guarded: (bool, Option<&str>),
)
    requires
        call_ensures(watcher_rollover_action, (verdict, chunk), action),
        call_ensures(guard_rollover, (action,), guarded),
    ensures
        guarded.0 <==> verdict is Clean,
        verdict is Clean ==> action == WatcherRolloverAction::SendRaw(chunk),
        verdict is Hold ==> action is Hold && guarded.1 is None,
        verdict is Clean ==> guarded.1 is None,
        verdict matches ProviderOutputVerdict::Blocked { safe_body } ==> guarded.1 == Some(
            safe_body,
        ) && action == WatcherRolloverAction::SendSafe(safe_body),
{
}

// ---------------------------------------------------------------------------
// Committing
// ---------------------------------------------------------------------------
/// A committed terminal output carries the whole lifecycle of the turn with it, whatever the
/// terminal shows, and leaves no retry; without a commit nothing follows.
pub proof fn law_commit_carries_the_lifecycle(
    committed: bool,
    gate: TuiCompletionGateOutcome,
    delivered: bool,
    blocks: bool,
    advance: bool,
    effects: WatcherTerminalCommitSideEffects,
)
    requires
        call_ensures(watcher_tui_gate_blocks_lifecycle, (gate, delivered), blocks),
        call_ensures(
            watcher_commit_should_advance_runtime_binding,
            (committed, gate, delivered),
            advance,
        ),
        call_ensures(
            watcher_terminal_commit_side_effects_for_test,
            (committed, gate, delivered),
            effects,
        ),
    ensures
        !blocks,
        advance <==> committed,
        effects.advance_runtime_binding <==> committed,
        effects.advance_confirmed_end <==> committed,
        effects.clear_inflight <==> committed,
        effects.finish_restored_turn <==> committed,
        !effects.late_output_retry_possible,
{
}

/// Every end of a turn waits for the terminal but the one that a user's message makes. A row
/// that is gone counts as missing unless the session's own relay delivered the turn. A write
/// counts as recorded only where it was committed.
pub proof fn law_ends_of_turns_are_told_apart(
    kind: Option<WatcherTerminalKind>,
    gated: bool,
    missing: bool,
    delivered: bool,
    falls_back: bool,
    outcome: WatcherTerminalCommitOutcome,
    recorded: bool,
)
    requires
        call_ensures(watcher_terminal_kind_requires_tui_completion_gate, (kind,), gated),
        call_ensures(
            missing_inflight_after_session_bound_delivery,
            (missing, delivered),
            falls_back,
        ),
        call_ensures(terminal_commit_is_recorded, (outcome,), recorded),
    ensures
        kind == Some(WatcherTerminalKind::SoftUserBoundary) ==> !gated,
        kind == Some(WatcherTerminalKind::HardResult) ==> gated,
        kind == Some(WatcherTerminalKind::SoftStopHookSummary) ==> gated,
        kind is None ==> gated,
        missing && !delivered ==> falls_back,
        !missing || delivered ==> !falls_back,
        outcome is Committed <==> recorded,
{
}

/// The marker of a committed row is closed just for input from outside that the watcher
/// relays, with a message and a session of its own.
pub proof fn law_marker_is_closed_for_external_input(row: CommittedRow, r: bool)
    requires
        call_ensures(committed_row_requires_marker_tombstone, (&row,), r),
    ensures
        row.turn_source == TurnSource::ExternalInput && row.relay_owner_kind
            == RelayOwnerKind::Watcher && row.user_msg_id != 0 && row.tmux_session_present ==> r,
        row.turn_source == TurnSource::Managed ==> !r,
        row.relay_owner_kind == RelayOwnerKind::Other ==> !r,
        row.user_msg_id == 0 ==> !r,
        !row.tmux_session_present ==> !r,
{
}

/// An answer of a known turn is recorded, with the whole answer, where the turn's output
/// started and how far it was read; a turn without a user message needs its start offset.
/// Without a turn or an answer nothing is recorded.
pub proof fn law_answered_turn_is_recorded(
    identity: Option<&InflightTurnIdentity>,
    response: &str,
    start: u64,
    generation: Option<i64>,
    last: u64,
    r: Option<WatcherTerminalCommitPatch>,
)
    requires
        call_ensures(
            mark_watcher_terminal_delivery_committed,
            (identity, response, start, generation, last),
            r,
        ),
    ensures
        identity is None ==> r is None,
        text::is_blank(response@) ==> r is None,
        identity matches Some(turn) ==> (!text::is_blank(response@) && turn.user_msg_id != 0 ==> r
            is Some),
        identity matches Some(turn) ==> (!text::is_blank(response@) && turn.turn_start_offset
            is Some ==> r is Some),
        identity matches Some(turn) ==> (turn.user_msg_id == 0 && turn.turn_start_offset is None
            ==> r is None),
        r matches Some(patch) ==> {
            &&& patch.full_response@ == response@
            &&& patch.last_offset == last
            &&& patch.last_watcher_relayed_offset == Some(start)
            &&& patch.last_watcher_relayed_generation_mtime_ns == generation
        },
{
}

/// Two turns are the same just where the user's message, the start, the session and the
/// start offset all agree.
pub proof fn law_turns_agree_in_all_parts(
    a: InflightTurnIdentity,
    b: InflightTurnIdentity,
    r: bool,
)
    requires
        call_ensures(InflightTurnIdentity::matches_state, (&a, &b), r),
    ensures
        a.user_msg_id != b.user_msg_id ==> !r,
        a.started_at@ != b.started_at@ ==> !r,
        a.turn_start_offset != b.turn_start_offset ==> !r,
        text::opt_text(a.tmux_session_name) != text::opt_text(b.tmux_session_name) ==> !r,
        a.user_msg_id == b.user_msg_id && a.started_at@ == b.started_at@ && a.turn_start_offset
            == b.turn_start_offset && text::opt_text(a.tmux_session_name) == text::opt_text(
            b.tmux_session_name,
        ) ==> r,
{
}

/// A refused range lets the frontier catch up when it is due: the delivery on record reaches
/// back to what is committed and beyond it, and so does the refused range; the frontier then
/// goes to the nearer of the two ends. In every other case it stays.
pub proof fn law_frontier_catches_up_when_proven(
    proven: Option<(u64, u64)>,
    committed: u64,
    refused: (u64, u64),
    r: Option<u64>,
)
    requires
        call_ensures(commit_proven_soft_terminal_backlog, (proven, committed, refused), r),
    ensures
        proven matches Some((start, end)) ==> {
            &&& start <= committed && committed < end && committed < refused.1 ==> r is Some
            &&& r matches Some(target) ==> start <= committed && committed < target && target <= end
                && target <= refused.1 && (target == end || target == refused.1)
        },
        proven is None ==> r is None,
{
}

// ---------------------------------------------------------------------------
// Frames without an owner
// ---------------------------------------------------------------------------
/// A body that the watcher was refused, that nobody else delivered or may have delivered, and
/// that lies behind what is committed, is recorded; what is recorded is the part that was not
/// sent, and the invariant holds only once it is written.
pub proof fn law_undelivered_body_is_recorded(
    facts: OrphanTerminalFrameFacts,
    step: OrphanFrameStep,
    recorded: bool,
    holds: bool,
    channel_id: u64,
    reason: String,
    record: RelayDeadLetterRecord,
)
    requires
        call_ensures(observe_orphan_terminal_frame, (&facts,), step),
        call_ensures(owner_or_record_holds, (step, recorded), holds),
        call_ensures(
            OrphanTerminalFrameFacts::dead_letter_record,
            (&facts, channel_id, reason),
            record,
        ),
    ensures
        step is Nothing <==> facts.denial is None || !facts.watcher_direct_fallback_requested
            || facts.watcher_direct_fallback_authorized,
        facts.denial is Some && facts.watcher_direct_fallback_requested
            && !facts.watcher_direct_fallback_authorized
            && !facts.session_bound_relay_owns_terminal_delivery
            && !facts.direct_terminal_response_refused_duplicate && facts.current_response@.len()
            > 0 && facts.terminal_event_consumed_offset > facts.watcher_resend_committed && (
        facts.session_bound_ack_outcome == SessionBoundRelayAckOutcome::NotDelivered
            || facts.session_bound_ack_outcome == SessionBoundRelayAckOutcome::Other) ==> step
            is ReportAndRecord,
        step is ReportAndRecord ==> {
            &&& !facts.session_bound_relay_owns_terminal_delivery
            &&& !facts.direct_terminal_response_refused_duplicate
            &&& facts.current_response@.len() > 0
            &&& facts.terminal_event_consumed_offset > facts.watcher_resend_committed
            &&& facts.terminal_event_consumed_offset > 0
            &&& facts.session_bound_ack_outcome != SessionBoundRelayAckOutcome::RingUnknown
            &&& facts.session_bound_ack_outcome != SessionBoundRelayAckOutcome::TimedOut
        },
        step is ReportAndRecord ==> (holds <==> recorded),
        step !is ReportAndRecord ==> holds,
        record.content@ == facts.current_response@,
        record.kind@ == "terminal_no_delivery_owner"@,
        record.reason@ == reason@,
        record.channel_id@ == text::decimal(channel_id as nat),
        facts.request_owner_user_id matches Some(id) ==> record.author_id is Some
            && record.author_id->0@ == text::decimal(id as nat),
        facts.request_owner_user_id is None ==> record.author_id is None,
        facts.placeholder_msg_id matches Some(id) ==> record.message_id is Some
            && record.message_id->0@ == text::decimal(id as nat),
        facts.placeholder_msg_id is None ==> record.message_id is None,
{
}

/// A range is committed where its end is, and a range without an end is not.
pub proof fn law_range_is_committed_by_its_end(end: u64, floor: u64, r: bool)
    requires
        call_ensures(range_already_committed, (end, floor), r),
    ensures
        0 < end && end <= floor ==> r,
        end > floor || end == 0 ==> !r,
{
}

// ---------------------------------------------------------------------------
// The frontier of a channel
// ---------------------------------------------------------------------------
/// A channel starts without a frontier, which reads as zero. A delivery publishes or advances
/// it just where it goes beyond it, and the frontier is then its end; otherwise it stays.
pub proof fn law_delivery_advances_the_frontier(
    fresh: TmuxRelayCoord,
    coord: &mut TmuxRelayCoord,
    end: u64,
    moved: bool,
    before: Option<u64>,
    after: Option<u64>,
    after_or_zero: u64,
    fresh_end: Option<u64>,
    fresh_or_zero: u64,
)
    requires
        call_ensures(TmuxRelayCoord::new, (), fresh),
        call_ensures(TmuxRelayCoord::confirmed_end_publication, (&fresh,), fresh_end),
        call_ensures(TmuxRelayCoord::confirmed_end_or_zero, (&fresh,), fresh_or_zero),
        call_ensures(TmuxRelayCoord::confirmed_end_publication, (&*old(coord),), before),
        call_ensures(TmuxRelayCoord::advance_confirmed_end, (coord, end), moved),
        call_ensures(TmuxRelayCoord::confirmed_end_publication, (&*final(coord),), after),
        call_ensures(TmuxRelayCoord::confirmed_end_or_zero, (&*final(coord),), after_or_zero),
        end != UNRECORDED_RELAY_OFFSET,
    ensures
        fresh_end is None,
        fresh_or_zero == 0,
        fresh.relay_slot == 0 && fresh.reconnect_count == 0 && fresh.last_relay_ts_ms == 0,
        fresh.reset_state.active_mutations == 0 && fresh.reset_state.incarnation == 0,
        fresh.confirmed_end_generation_mtime_ns == 0,
        before is None ==> moved && after == Some(end),
        before matches Some(held) ==> (moved <==> held < end),
        moved ==> after == Some(end),
        !moved ==> after == before,
        after matches Some(held) ==> after_or_zero == held,
        after is None ==> after_or_zero == 0,
        final(coord).reset_state == old(coord).reset_state,
        final(coord).last_relay_ts_ms == old(coord).last_relay_ts_ms,
        final(coord).reconnect_count == old(coord).reconnect_count,
        final(coord).relay_slot == old(coord).relay_slot,
{
}

/// A frontier that is published as it is given reads as given; nothing else changes.
pub proof fn law_published_frontier_is_read(
    coord: &mut TmuxRelayCoord,
    offset: u64,
    after: Option<u64>,
)
    requires
        offset != UNRECORDED_RELAY_OFFSET,
        call_ensures(TmuxRelayCoord::publish_confirmed_end_for_test, (coord, offset), ()),
        call_ensures(TmuxRelayCoord::confirmed_end_publication, (&*final(coord),), after),
    ensures
        after == Some(offset),
        final(coord).reset_state == old(coord).reset_state,
        final(coord).relay_slot == old(coord).relay_slot,
        final(coord).last_relay_ts_ms == old(coord).last_relay_ts_ms,
        final(coord).reconnect_count == old(coord).reconnect_count,
{
}

/// The frontier is taken back only from where the caller saw it and while nothing changes
/// it, and each time a new incarnation begins; otherwise nothing changes. A heartbeat changes
/// the time of the last progress and nothing else.
pub proof fn law_frontier_is_reset_from_where_it_was_seen(
    coord: &mut TmuxRelayCoord,
    expected: u64,
    new: u64,
    reset: bool,
    before: Option<u64>,
    after: Option<u64>,
    beating: &mut TmuxRelayCoord,
    now_ms: i64,
    beat_before: Option<u64>,
    beat_after: Option<u64>,
)
    requires
        call_ensures(TmuxRelayCoord::confirmed_end_publication, (&*old(coord),), before),
        call_ensures(TmuxRelayCoord::reset_confirmed_frontier, (coord, expected, new), reset),
        call_ensures(TmuxRelayCoord::confirmed_end_publication, (&*final(coord),), after),
        call_ensures(TmuxRelayCoord::note_relay_progress_heartbeat, (beating, now_ms), ()),
        call_ensures(TmuxRelayCoord::confirmed_end_publication, (&*old(beating),), beat_before),
        call_ensures(TmuxRelayCoord::confirmed_end_publication, (&*final(beating),), beat_after),
        expected != UNRECORDED_RELAY_OFFSET,
        new < expected,
    ensures
        before == Some(expected) && old(coord).reset_state.active_mutations == 0 <==> reset,
        reset ==> after == Some(new),
        !reset ==> after == before,
        reset && old(coord).reset_state.incarnation < u64::MAX ==> final(coord).reset_state.incarnation == old(coord).reset_state.incarnation + 1,
        reset ==> final(coord).reset_state.incarnation != old(coord).reset_state.incarnation,
        !reset ==> final(coord).reset_state.incarnation == old(coord).reset_state.incarnation,
        final(coord).reset_state.active_mutations == old(coord).reset_state.active_mutations,
        final(beating).last_relay_ts_ms == now_ms,
        beat_after == beat_before,
        final(beating).reset_state == old(beating).reset_state,
        final(beating).reconnect_count == old(beating).reconnect_count,
{
}

/// The numbers of messages that were never sent lie apart from all that Discord gives.
pub proof fn law_synthetic_numbers_lie_above(value: u64, r: bool)
    requires
        call_ensures(is_synthetic_headless_message_id_raw, (value,), r),
    ensures
        value < 8_000_000_000_000_000_000 ==> !r,
        value >= 8_000_000_000_000_000_000 ==> r,
{
}

} // verus!
