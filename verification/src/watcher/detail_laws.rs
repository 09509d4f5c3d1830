//! What is written down of a turn, and the smaller decisions about it.

use vstd::prelude::*;

use crate::json;
use crate::text;
use crate::watcher::commit_decisions::{
    committed_synthetic_commit_requires_marker_tombstone, same_optional_offset, same_optional_text,
};
use crate::watcher::forced_kill::{write_watcher_forced_kill_log, KillOffset, WatcherForcedKillLog};
use crate::watcher::jsonl::{
    read_jsonl_chunk, read_jsonl_chunk_at_attach, read_jsonl_chunk_contiguous, JsonlReadChunk,
};
use crate::watcher::orphan_frame::{
    observe_orphan_terminal_frame, range_already_committed,
    terminal_frame_owner_or_record_invariant, OrphanFrameNames, OrphanFrameStep,
    OrphanTerminalFrameFacts,
};
use crate::watcher::stale_resume::{
    recovery_notice, stale_resume_kill_detail, stale_resume_kill_reason,
};
use crate::watcher::status_panel::record_status_panel_send_failure;
use crate::watcher::terminal_abort::{
    legacy_no_row_terminal_abort, pinned_terminal_abort, ChannelMailboxSnapshot, PinnedRow,
    PinnedTerminalAbort, TerminalAbortAuthority, TerminalAbortDiagnosis,
    TerminalAbortDispatchAction, TerminalAbortPlan,
};

verus! {

// ---------------------------------------------------------------------------
// Frames without an owner
// ---------------------------------------------------------------------------
/// A record is owed just where the frame is reported with one: for a body that the watcher was
/// refused and that nobody delivered or may still deliver.
pub proof fn law_record_is_owed_for_a_lost_body<'a>(
    facts: OrphanTerminalFrameFacts<'a>,
    committed: bool,
    owed: bool,
    step: OrphanFrameStep,
)
    requires
        call_ensures(
            range_already_committed,
            (facts.terminal_event_consumed_offset, facts.watcher_resend_committed),
            committed,
        ),
        call_ensures(OrphanTerminalFrameFacts::record_required, (&facts,), owed),
        call_ensures(observe_orphan_terminal_frame, (&facts,), step),
    ensures
        owed <==> step is ReportAndRecord,
        facts.denial is None || !facts.watcher_direct_fallback_requested
            || facts.watcher_direct_fallback_authorized ==> !owed,
        facts.session_bound_relay_owns_terminal_delivery
            || facts.direct_terminal_response_refused_duplicate || committed
            || facts.session_bound_ack_outcome is RingUnknown
            || facts.session_bound_ack_outcome is TimedOut ==> !owed,
        facts.current_response@.len() == 0 || facts.terminal_event_consumed_offset == 0 ==> !owed,
        facts.denial is Some && facts.watcher_direct_fallback_requested
            && !facts.watcher_direct_fallback_authorized
            && !facts.session_bound_relay_owns_terminal_delivery
            && !facts.direct_terminal_response_refused_duplicate && !committed && (
        facts.session_bound_ack_outcome is NotDelivered
            || facts.session_bound_ack_outcome is Other) && facts.current_response@.len() > 0
            && facts.terminal_event_consumed_offset > 0 ==> owed,
{
}

/// The reason in a record tells both kinds of positions, each under its name, and what is known
/// of the session.
pub proof fn law_reason_tells_all_positions<'a>(
    facts: OrphanTerminalFrameFacts<'a>,
    names: OrphanFrameNames<'a>,
    provider: &str,
    generation: i64,
    out: String,
    sent: String,
    whole: String,
    start: String,
    end: String,
    current: String,
    mtime: String,
    invariant_name: &'static str,
)
    requires
        call_ensures(
            OrphanTerminalFrameFacts::reason,
            (&facts, &names, provider, generation),
            out,
        ),
        call_ensures(text::u64_text, (facts.response_sent_offset as u64,), sent),
        call_ensures(text::u64_text, (facts.full_response_len as u64,), whole),
        call_ensures(text::u64_text, (facts.data_start_offset,), start),
        call_ensures(text::u64_text, (facts.terminal_event_consumed_offset,), end),
        call_ensures(text::u64_text, (facts.current_offset,), current),
        call_ensures(text::i64_text, (generation,), mtime),
        call_ensures(terminal_frame_owner_or_record_invariant, (), invariant_name),
    ensures
        ({
            let kind = match names.terminal_kind {
                Some(kind) => kind@,
                None => "unknown"@,
            };
            out@ == "terminal_no_delivery_owner denial="@ + names.denial@ + " terminal_kind="@ + kind
                + " response_sent_offset="@ + sent@ + " full_response_len="@ + whole@
                + " jsonl_start="@ + start@ + " jsonl_end="@ + end@ + " current_offset="@ + current@
                + " generation_mtime_ns="@ + mtime@ + " tmux_session="@ + facts.tmux_session_name@
                + " provider="@ + provider@ + " inflight_relay_owner="@
                + facts.inflight_relay_owner@ + " frame_ack_outcome="@ + names.frame_ack_outcome@
        }),
        invariant_name@ == "terminal_frame_has_a_delivery_owner_or_a_record"@,
{
}

// ---------------------------------------------------------------------------
// The log of a kill
// ---------------------------------------------------------------------------
/// A kill is logged as one line of JSON, with its parts in order; what is not known is `null`.
/// One more worker is one more string in the list.
pub proof fn law_kill_is_logged_as_json(
    record: WatcherForcedKillLog,
    line: String,
    timestamp: String,
    session: String,
    pane: String,
    pid: String,
    offset: String,
    reason: String,
    worker: String,
)
    requires
        call_ensures(write_watcher_forced_kill_log, (&record,), line),
        call_ensures(json::quote_optional, (&Some(record.timestamp),), timestamp),
        call_ensures(json::quote_optional, (&Some(record.session),), session),
        call_ensures(json::quote_optional, (&record.pane_id,), pane),
        record.pane_pid is Some ==> call_ensures(text::u64_text, (record.pane_pid->0 as u64,), pid),
        record.pane_pid is None ==> pid@ == "null"@,
        match record.offset {
            KillOffset::Current(at) => call_ensures(text::u64_text, (at,), offset),
            KillOffset::TerminalEvidence(Some(at)) => call_ensures(text::u64_text, (at,), offset),
            KillOffset::TerminalEvidence(None) => offset@ == "null"@,
        },
        call_ensures(json::quote_optional, (&Some(record.decision_reason),), reason),
        record.live_background_workers@.len() == 1 ==> call_ensures(
            json::quote_optional,
            (&Some(record.live_background_workers@[0]),),
            worker,
        ),
    ensures
        ({
            let place = if record.offset is Current {
                "\"current_offset\":"@
            } else {
                "\"terminal_evidence_offset\":"@
            };
            let front = "{\"timestamp\":"@ + timestamp@ + ",\"session\":"@ + session@
                + ",\"pane_id\":"@ + pane@ + ",\"pane_pid\":"@ + pid@ + ","@ + (place + offset@)
                + ",\"decision_reason\":"@ + reason@ + ",\"live_background_workers\":["@;
            &&& record.live_background_workers@.len() == 0 ==> line@ == front + "]}\n"@
            &&& record.live_background_workers@.len() == 1 ==> line@ == front + worker@ + "]}\n"@
        }),
{
    let list = crate::watcher::forced_kill::strings_json(
        text::texts(record.live_background_workers@),
    );
    if record.live_background_workers@.len() == 0 {
        assert(list =~= Seq::<Seq<char>>::empty());
        let front = line@;
        assert(text::joined(list, ","@) =~= Seq::<char>::empty());
    } else if record.live_background_workers@.len() == 1 {
        assert(list[0] == json::json_string(record.live_background_workers@[0]@));
    }
}

// ---------------------------------------------------------------------------
// Reading
// ---------------------------------------------------------------------------
/// A read after attaching goes to the next record; one that goes on does not look for it. Both
/// are the same where the place is the beginning, or lies behind a line.
pub proof fn law_reads_differ_only_inside_a_record(
    contents: &[u8],
    offset: u64,
    align: bool,
    read: JsonlReadChunk,
    attach: JsonlReadChunk,
    contiguous: JsonlReadChunk,
)
    requires
        call_ensures(read_jsonl_chunk, (contents, offset, align), read),
        call_ensures(read_jsonl_chunk_at_attach, (contents, offset), attach),
        call_ensures(read_jsonl_chunk_contiguous, (contents, offset), contiguous),
    ensures
        ({
            let same = if align {
                attach
            } else {
                contiguous
            };
            &&& read.data@ == same.data@
            &&& read.start_offset == same.start_offset
            &&& read.end_offset == same.end_offset
            &&& read.skipped_partial_record == same.skipped_partial_record
        }),
        offset == 0 || offset <= contents@.len() && contents@[offset - 1] == 10 ==> attach.data@
            == contiguous.data@ && attach.start_offset == offset && !attach.skipped_partial_record,
{
}

// ---------------------------------------------------------------------------
// Aborts
// ---------------------------------------------------------------------------
/// An expired login fails the dispatch for good; the other two leave it to be tried again. A
/// session is killed when it is the turn's own thread, and in no other role.
pub proof fn law_only_an_expired_login_is_final(
    diagnosis: TerminalAbortDiagnosis,
    action: TerminalAbortDispatchAction,
    plan: TerminalAbortPlan,
    kills: bool,
)
    requires
        call_ensures(TerminalAbortDiagnosis::dispatch_action, (diagnosis,), action),
        call_ensures(TerminalAbortPlan::kills_session, (plan,), kills),
    ensures
        action is FailAuthExpired <==> diagnosis is AuthenticationFailed,
        action is FailWithRetry <==> diagnosis is PromptTooLong || diagnosis is ProviderOverload,
        kills <==> plan.session_role is DisposableCurrentThread,
{
}

/// Without a recorded turn an abort needs an idle mailbox and evidence within the bytes that
/// were read; anything that is going on, before or now, forbids it.
pub proof fn law_abort_without_a_turn_needs_silence(
    startup: bool,
    current: bool,
    mailbox: ChannelMailboxSnapshot,
    evidence: Option<u64>,
    start: u64,
    consumed: u64,
    r: bool,
)
    requires
        call_ensures(
            legacy_no_row_terminal_abort,
            (startup, current, &mailbox, evidence, start, consumed),
            r,
        ),
    ensures
        startup || current || mailbox.cancel_token || mailbox.active_request_owner is Some
            || mailbox.active_user_message_id is Some || mailbox.active_turn_nonce is Some ==> !r,
        evidence is None ==> !r,
        evidence matches Some(at) ==> (at < start || at >= consumed ==> !r),
        !startup && !current && !mailbox.cancel_token && mailbox.active_request_owner is None
            && mailbox.active_user_message_id is None && mailbox.active_turn_nonce is None && (
        evidence matches Some(at) && start <= at && at < consumed) ==> r,
{
}

/// The authority over a recorded turn names the turn in its channel, and the dispatch that the
/// row holds, or else the one that its text names. Without a row, without evidence, or where
/// another turn is recorded now, there is none.
pub proof fn law_pinned_authority_names_its_turn(
    generation: u64,
    channel_id: u64,
    session: &str,
    pinned: Option<&PinnedRow>,
    evidence: Option<u64>,
    consumed: u64,
    current_matches: Option<bool>,
    r: Option<PinnedTerminalAbort>,
    id: Option<&str>,
)
    requires
        call_ensures(
            pinned_terminal_abort,
            (generation, channel_id, session, pinned, evidence, consumed, current_matches),
            r,
        ),
        r is Some ==> call_ensures(
            TerminalAbortAuthority::dispatch_id,
            (&TerminalAbortAuthority::Pinned(r->0),),
            id,
        ),
    ensures
        pinned is None || evidence is None || current_matches == Some(false) ==> r is None,
        r matches Some(abort) ==> {
            let row = pinned->0;
            &&& abort.key.channel_id == channel_id
            &&& abort.key.turn_id == row.finalizer_turn_id
            &&& abort.key.generation == generation
            &&& row.finalizer_turn_id > 0
            &&& row.tmux_session_name matches Some(name) && text::trimmed(name@) == text::trimmed(
                session@,
            )
            &&& evidence->0 < consumed
            &&& evidence->0 >= match row.turn_start_offset {
                Some(start) => start,
                None => row.last_offset,
            }
            &&& id is Some <==> abort.dispatch_id is Some
            &&& id matches Some(name) ==> name@ == abort.dispatch_id->0@
            &&& row.dispatch_id matches Some(own) ==> abort.dispatch_id is Some
                && abort.dispatch_id->0@ == own@
            &&& row.dispatch_id is None ==> text::opt_text(abort.dispatch_id) == text::opt_text(
                row.text_dispatch_id,
            )
        },
{
}

/// Without a recorded turn there is no dispatch to fail.
pub proof fn law_no_turn_no_dispatch(id: Option<&str>)
    requires
        call_ensures(
            TerminalAbortAuthority::dispatch_id,
            (&TerminalAbortAuthority::LegacyNoRow,),
            id,
        ),
    ensures
        id is None,
{
}

// ---------------------------------------------------------------------------
// Small decisions
// ---------------------------------------------------------------------------
/// A marker is closed for a turn from outside that the watcher relays, with a message and a
/// session of its own; each of the four is needed.
pub proof fn law_marker_needs_all_four(
    external: bool,
    watcher: bool,
    message: u64,
    session: bool,
    r: bool,
)
    requires
        call_ensures(
            committed_synthetic_commit_requires_marker_tombstone,
            (external, watcher, message, session),
            r,
        ),
    ensures
        !external || !watcher || !session || message == 0 ==> !r,
        external && watcher && session && message > 0 ==> r,
{
}

/// Two optional values are the same when both are there and agree, or neither is there.
pub proof fn law_optional_values_agree(
    a: Option<String>,
    b: Option<String>,
    x: Option<u64>,
    y: Option<u64>,
    texts: bool,
    offsets: bool,
)
    requires
        call_ensures(same_optional_text, (&a, &b), texts),
        call_ensures(same_optional_offset, (x, y), offsets),
    ensures
        texts <==> match a {
            Some(s) => b is Some && b->0@ == s@,
            None => b is None,
        },
        offsets <==> match x {
            Some(n) => y is Some && y->0 == n,
            None => y is None,
        },
{
}

/// A failure to send is known by what was recorded of it; a record that failed says nothing.
pub proof fn law_recorded_failure_is_known<D>(recorded: Option<Result<D, String>>, r: Option<D>)
    requires
        call_ensures(record_status_panel_send_failure::<D>, (recorded,), r),
    ensures
        r is Some <==> (recorded matches Some(Ok(_))),
        recorded matches Some(Ok(known)) ==> r == Some(known),
{
}

/// What is shown and logged while a stale session is given up.
pub proof fn law_recovery_says_what_it_does(
    notice: &'static str,
    detail: &'static str,
    reason: &'static str,
)
    requires
        call_ensures(recovery_notice, (), notice),
        call_ensures(stale_resume_kill_detail, (), detail),
        call_ensures(stale_resume_kill_reason, (), reason),
    ensures
        notice@ == "↻ 세션 복구 중... 잠시 후 자동으로 이어갑니다."@,
        detail@ == "stale session resume detected — forcing fresh session before auto-retry"@,
        reason@ == "stale_resume_retry"@,
{
}

} // verus!
