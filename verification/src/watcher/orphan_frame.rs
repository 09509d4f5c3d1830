//! A terminal frame that ends without a delivery owner.
//!
//! Where nobody delivered the body of a terminal frame, the part that was not sent is
//! kept in a durable record, so that it is not lost without a trace.

use vstd::prelude::*;

use crate::native_codex::WatcherTerminalKind;
use crate::text;

verus! {

/// The name of the invariant: a terminal frame that carries a body ends with a
/// delivery owner or with a record.
pub fn terminal_frame_owner_or_record_invariant() -> (r: &'static str)
    ensures
        r@ == "terminal_frame_has_a_delivery_owner_or_a_record"@,
{
    "terminal_frame_has_a_delivery_owner_or_a_record"
}

/// Why the watcher may not deliver a terminal frame itself.
#[derive(Debug, Clone, Copy, PartialEq, Eq, Structural)]
pub enum SoftTerminalAuthorityDenial {
    NoInflightRow,
    SessionMismatch,
    TurnStartOutsideFrame,
    RelayOwnerNone,
    TurnNonceMissing,
    TurnNonceMismatch,
}

/// What the session's own relay said of the frame.
#[derive(Debug, Clone, Copy, PartialEq, Eq, Structural)]
pub enum SessionBoundRelayAckOutcome {
    NotDelivered,
    /// The post landed; only the proof of its commit was lost.
    RingUnknown,
    /// The deadline passed while the post was still on its way.
    TimedOut,
    /// Any other outcome: each of them says that nothing was delivered.
    Other,
}

/// What is known of a terminal frame that the watcher was refused to deliver.
///
/// `response_sent_offset` and `full_response_len` are positions in the answer, in
/// bytes; `data_start_offset`, `current_offset` and `terminal_event_consumed_offset`
/// are positions in the transcript.
#[derive(Debug, Clone, Copy, PartialEq, Eq)]
pub struct OrphanTerminalFrameFacts<'a> {
    pub denial: Option<SoftTerminalAuthorityDenial>,
    pub watcher_direct_fallback_requested: bool,
    pub watcher_direct_fallback_authorized: bool,
    pub session_bound_relay_owns_terminal_delivery: bool,
    pub direct_terminal_response_refused_duplicate: bool,
    /// The part of the answer that was not sent.
    pub current_response: &'a str,
    pub response_sent_offset: usize,
    pub full_response_len: usize,
    pub data_start_offset: u64,
    pub current_offset: u64,
    pub terminal_event_consumed_offset: u64,
    /// Up to where output is on record as delivered.
    pub watcher_resend_committed: u64,
    pub terminal_kind: Option<WatcherTerminalKind>,
    pub session_bound_ack_outcome: SessionBoundRelayAckOutcome,
    pub inflight_present: bool,
    pub inflight_relay_owner: &'a str,
    pub startup_snapshot_authority: bool,
    pub tmux_session_name: &'a str,
    pub placeholder_msg_id: Option<u64>,
    pub request_owner_user_id: Option<u64>,
}

/// The names under which a frame's state is reported.
#[derive(Debug, Clone, Copy, PartialEq, Eq)]
pub struct OrphanFrameNames<'a> {
    pub denial: &'a str,
    pub terminal_kind: Option<&'a str>,
    pub frame_ack_outcome: &'a str,
}

/// A range up to `end` is committed where its end is. The empty end is never
/// committed.
pub open spec fn is_committed(end: u64, floor: u64) -> bool {
    0 < end <= floor
}

/// Whether a range up to `end` is committed, where all is committed up to `floor`.
pub fn range_already_committed(end: u64, floor: u64) -> (r: bool)
    ensures
        r == is_committed(end, floor),
{
    end != 0 && end <= floor
}

/// The watcher was asked to deliver the frame, and was refused.
pub open spec fn refused(facts: OrphanTerminalFrameFacts) -> bool {
    facts.denial is Some && facts.watcher_direct_fallback_requested
        && !facts.watcher_direct_fallback_authorized
}

/// Somebody else has delivered the frame, or may have.
pub open spec fn may_be_delivered(facts: OrphanTerminalFrameFacts) -> bool {
    ||| facts.session_bound_relay_owns_terminal_delivery
    ||| facts.direct_terminal_response_refused_duplicate
    ||| facts.session_bound_ack_outcome is RingUnknown
    ||| facts.session_bound_ack_outcome is TimedOut
    ||| is_committed(facts.terminal_event_consumed_offset, facts.watcher_resend_committed)
}

/// The frame carries something to keep: a body, read from some place of the
/// transcript.
pub open spec fn carries_body(facts: OrphanTerminalFrameFacts) -> bool {
    facts.current_response@.len() > 0 && facts.terminal_event_consumed_offset > 0
}

/// The record of a body that was not delivered.
#[derive(Debug, PartialEq, Eq)]
pub struct RelayDeadLetterRecord {
    pub kind: String,
    pub channel_id: String,
    pub author_id: Option<String>,
    pub message_id: Option<String>,
    pub content: String,
    pub reason: String,
}

/// An optional number in decimal.
pub open spec fn optional_decimal(n: Option<u64>) -> Option<Seq<char>> {
    match n {
        Some(n) => Some(text::decimal(n as nat)),
        None => None,
    }
}

fn optional_u64_text(n: Option<u64>) -> (out: Option<String>)
    ensures
        text::opt_text(out) == optional_decimal(n),
{
    match n {
        Some(n) => Some(text::u64_text(n)),
        None => None,
    }
}

/// The reason in a record: one line with both kinds of positions.
pub open spec fn reason_line(
    facts: OrphanTerminalFrameFacts,
    names: OrphanFrameNames,
    provider: Seq<char>,
    generation_mtime_ns: i64,
) -> Seq<char> {
    let kind = match names.terminal_kind {
        Some(kind) => kind@,
        None => "unknown"@,
    };
    "terminal_no_delivery_owner denial="@ + names.denial@ + " terminal_kind="@ + kind
        + " response_sent_offset="@ + text::decimal(facts.response_sent_offset as nat)
        + " full_response_len="@ + text::decimal(facts.full_response_len as nat)
        + " jsonl_start="@ + text::decimal(facts.data_start_offset as nat) + " jsonl_end="@
        + text::decimal(facts.terminal_event_consumed_offset as nat) + " current_offset="@
        + text::decimal(facts.current_offset as nat) + " generation_mtime_ns="@
        + text::signed_decimal(generation_mtime_ns as int) + " tmux_session="@
        + facts.tmux_session_name@ + " provider="@ + provider + " inflight_relay_owner="@
        + facts.inflight_relay_owner@ + " frame_ack_outcome="@ + names.frame_ack_outcome@
}

impl<'a> OrphanTerminalFrameFacts<'a> {
    /// Whether the frame ended without a delivery owner, and with a body to keep.
    pub fn record_required(&self) -> (r: bool)
        ensures
            r == (refused(*self) && !may_be_delivered(*self) && carries_body(*self)),
    {
        let ack_is_open = match self.session_bound_ack_outcome {
            SessionBoundRelayAckOutcome::RingUnknown => true,
            SessionBoundRelayAckOutcome::TimedOut => true,
            SessionBoundRelayAckOutcome::NotDelivered => false,
            SessionBoundRelayAckOutcome::Other => false,
        };
        self.denial.is_some() && self.watcher_direct_fallback_requested
            && !self.watcher_direct_fallback_authorized
            && !self.session_bound_relay_owns_terminal_delivery
            && !self.direct_terminal_response_refused_duplicate
            && !self.current_response.is_empty() && self.terminal_event_consumed_offset > 0
            && !ack_is_open && !range_already_committed(
            self.terminal_event_consumed_offset,
            self.watcher_resend_committed,
        )
    }

    /// The record of the body: what it holds is the part that was not sent.
    pub fn dead_letter_record(&self, channel_id: u64, reason: String) -> (out:
        RelayDeadLetterRecord)
        ensures
            out.kind@ == "terminal_no_delivery_owner"@,
            out.channel_id@ == text::decimal(channel_id as nat),
            text::opt_text(out.author_id) == optional_decimal(self.request_owner_user_id),
            text::opt_text(out.message_id) == optional_decimal(self.placeholder_msg_id),
            out.content@ == self.current_response@,
            out.reason@ == reason@,
    {
        RelayDeadLetterRecord {
            kind: "terminal_no_delivery_owner".to_owned(),
            channel_id: text::u64_text(channel_id),
            author_id: optional_u64_text(self.request_owner_user_id),
            message_id: optional_u64_text(self.placeholder_msg_id),
            content: self.current_response.to_owned(),
            reason,
        }
    }

    /// The reason in a record.
    pub fn reason(
        &self,
        names: &OrphanFrameNames,
        provider: &str,
        generation_mtime_ns: i64,
    ) -> (out: String)
        ensures
            out@ == reason_line(*self, *names, provider@, generation_mtime_ns),
    {
        let mut out: String = "terminal_no_delivery_owner denial=".to_owned();
        out.append(names.denial);
        out.append(" terminal_kind=");
        match names.terminal_kind {
            Some(kind) => out.append(kind),
            None => out.append("unknown"),
        }
        out.append(" response_sent_offset=");
        out.append(text::u64_text(self.response_sent_offset as u64).as_str());
        out.append(" full_response_len=");
        out.append(text::u64_text(self.full_response_len as u64).as_str());
        out.append(" jsonl_start=");
        out.append(text::u64_text(self.data_start_offset).as_str());
        out.append(" jsonl_end=");
        out.append(text::u64_text(self.terminal_event_consumed_offset).as_str());
        out.append(" current_offset=");
        out.append(text::u64_text(self.current_offset).as_str());
        out.append(" generation_mtime_ns=");
        out.append(text::i64_text(generation_mtime_ns).as_str());
        out.append(" tmux_session=");
        out.append(self.tmux_session_name);
        out.append(" provider=");
        out.append(provider);
        out.append(" inflight_relay_owner=");
        out.append(self.inflight_relay_owner);
        out.append(" frame_ack_outcome=");
        out.append(names.frame_ack_outcome);
        out
    }
}

/// What is done about a terminal frame.
#[derive(Debug, Clone, Copy, PartialEq, Eq, Structural)]
pub enum OrphanFrameStep {
    /// The watcher was not refused: nothing is reported.
    Nothing,
    /// The refusal is reported; nothing is lost.
    Report,
    /// The refusal is reported and counted, and the body is recorded.
    ReportAndRecord,
}

/// What is done about a terminal frame.
pub open spec fn frame_step(facts: OrphanTerminalFrameFacts) -> OrphanFrameStep {
    if !refused(facts) {
        OrphanFrameStep::Nothing
    } else if !may_be_delivered(facts) && carries_body(facts) {
        OrphanFrameStep::ReportAndRecord
    } else {
        OrphanFrameStep::Report
    }
}

/// What is done about a terminal frame.
pub fn observe_orphan_terminal_frame(facts: &OrphanTerminalFrameFacts) -> (r: OrphanFrameStep)
    ensures
        r == frame_step(*facts),
{
    let denied = facts.denial.is_some() && facts.watcher_direct_fallback_requested
        && !facts.watcher_direct_fallback_authorized;
    if !denied {
        OrphanFrameStep::Nothing
    } else if facts.record_required() {
        OrphanFrameStep::ReportAndRecord
    } else {
        OrphanFrameStep::Report
    }
}

/// Whether the invariant holds as far as is known: it is violated where a record is
/// owed and was not written. `recorded` is what is known of the write so far.
pub fn owner_or_record_holds(step: OrphanFrameStep, recorded: bool) -> (r: bool)
    ensures
        r == (step is ReportAndRecord ==> recorded),
{
    match step {
        OrphanFrameStep::ReportAndRecord => recorded,
        OrphanFrameStep::Nothing => true,
        OrphanFrameStep::Report => true,
    }
}

/// A frame with a body that the watcher was refused is recorded, or may have been
/// delivered by somebody else. So where nothing is written, the invariant is not
/// reported to hold of a body that nobody delivered.
pub proof fn law_refused_body_is_delivered_or_recorded(facts: OrphanTerminalFrameFacts)
    requires
        refused(facts),
        carries_body(facts),
    ensures
        frame_step(facts) is ReportAndRecord || may_be_delivered(facts),
{
}

} // verus!
