//! Giving up a turn on a terminal provider error.
//!
//! The watcher diagnoses the error, checks that it still has authority over the
//! turn, and then carries out a fixed sequence of steps: fail the dispatch, clear
//! the provider session where its authentication failed, kill the session where it
//! is the turn's own thread, finalize the turn, show a notice, and settle.

use vstd::prelude::*;

use crate::text;
use crate::watcher::session::{
    terminal_kill_identity_matches, TmuxPaneIdentity, WatcherSessionRole,
};

verus! {

#[derive(Debug, Clone, Copy, PartialEq, Eq, Structural)]
pub enum AbortExitOutcome {
    ContinueWatcherLoop,
    Fallthrough,
}

#[derive(Debug, Clone, Copy, PartialEq, Eq, Structural)]
pub enum TerminalAbortDiagnosis {
    PromptTooLong,
    AuthenticationFailed,
    ProviderOverload,
}

#[derive(Debug, Clone, Copy, PartialEq, Eq, Structural)]
pub enum TerminalAbortDispatchAction {
    FailWithRetry,
    FailAuthExpired,
}

/// The reason that is given for a failed dispatch.
pub open spec fn reason_of(diagnosis: TerminalAbortDiagnosis) -> &'static str {
    match diagnosis {
        TerminalAbortDiagnosis::PromptTooLong => "prompt_too_long",
        TerminalAbortDiagnosis::AuthenticationFailed => "provider_authentication_failed",
        TerminalAbortDiagnosis::ProviderOverload => "provider_capacity_response",
    }
}

/// An expired authentication is failed as such; every other diagnosis is retried.
pub open spec fn action_for(diagnosis: TerminalAbortDiagnosis) -> TerminalAbortDispatchAction {
    if diagnosis is AuthenticationFailed {
        TerminalAbortDispatchAction::FailAuthExpired
    } else {
        TerminalAbortDispatchAction::FailWithRetry
    }
}

/// The notice that the channel is shown.
pub open spec fn notice_text(diagnosis: TerminalAbortDiagnosis, killed: bool) -> Seq<char> {
    match (diagnosis, killed) {
        (TerminalAbortDiagnosis::PromptTooLong, true) =>
            "⚠️ 컨텍스트 한도 초과로 현재 thread 세션을 초기화했습니다. 다음 메시지부터 새 세션으로 처리됩니다."@,
        (TerminalAbortDiagnosis::PromptTooLong, false) =>
            "⚠️ 컨텍스트 한도 초과로 현재 turn을 종료했습니다. 보호된 tmux 세션과 watcher는 유지됩니다."@,
        (TerminalAbortDiagnosis::AuthenticationFailed, true) =>
            "⚠️ 인증이 만료되어 현재 dispatch를 실패 처리하고 thread 세션을 종료했습니다. 관리자가 CLI에서 재인증(`/login`)한 후 다시 디스패치해주세요."@,
        (TerminalAbortDiagnosis::AuthenticationFailed, false) =>
            "⚠️ 인증이 만료되어 현재 dispatch를 실패 처리했습니다. 보호된 tmux 세션과 watcher는 유지됩니다. 관리자가 CLI에서 재인증(`/login`)한 후 다시 디스패치해주세요."@,
        (TerminalAbortDiagnosis::ProviderOverload, true) =>
            "⚠️ provider capacity 오류로 현재 dispatch를 실패 처리하고 thread 세션을 종료했습니다. 잠시 후 다시 시도해주세요."@,
        (TerminalAbortDiagnosis::ProviderOverload, false) =>
            "⚠️ provider capacity 오류로 현재 dispatch를 실패 처리했습니다. 보호된 tmux 세션과 watcher는 유지됩니다. 잠시 후 다시 시도해주세요."@,
    }
}

impl TerminalAbortDiagnosis {
    pub fn public_reason(self) -> (r: &'static str)
        ensures
            r == reason_of(self),
    {
        match self {
            TerminalAbortDiagnosis::PromptTooLong => "prompt_too_long",
            TerminalAbortDiagnosis::AuthenticationFailed => "provider_authentication_failed",
            TerminalAbortDiagnosis::ProviderOverload => "provider_capacity_response",
        }
    }

    pub fn dispatch_action(self) -> (r: TerminalAbortDispatchAction)
        ensures
            r == action_for(self),
    {
        match self {
            TerminalAbortDiagnosis::AuthenticationFailed => {
                TerminalAbortDispatchAction::FailAuthExpired
            },
            TerminalAbortDiagnosis::PromptTooLong => TerminalAbortDispatchAction::FailWithRetry,
            TerminalAbortDiagnosis::ProviderOverload => TerminalAbortDispatchAction::FailWithRetry,
        }
    }

    pub fn termination_reason(self) -> (r: &'static str)
        ensures
            r@ == match self {
                TerminalAbortDiagnosis::PromptTooLong => "prompt_too_long"@,
                TerminalAbortDiagnosis::AuthenticationFailed => "auth_error"@,
                TerminalAbortDiagnosis::ProviderOverload => "provider_overload"@,
            },
    {
        match self {
            TerminalAbortDiagnosis::PromptTooLong => "prompt_too_long",
            TerminalAbortDiagnosis::AuthenticationFailed => "auth_error",
            TerminalAbortDiagnosis::ProviderOverload => "provider_overload",
        }
    }

    pub fn notice(self, killed: bool) -> (r: &'static str)
        ensures
            r@ == notice_text(self, killed),
    {
        match (self, killed) {
            (TerminalAbortDiagnosis::PromptTooLong, true) => {
                "⚠️ 컨텍스트 한도 초과로 현재 thread 세션을 초기화했습니다. 다음 메시지부터 새 세션으로 처리됩니다."
            },
            (TerminalAbortDiagnosis::PromptTooLong, false) => {
                "⚠️ 컨텍스트 한도 초과로 현재 turn을 종료했습니다. 보호된 tmux 세션과 watcher는 유지됩니다."
            },
            (TerminalAbortDiagnosis::AuthenticationFailed, true) => {
                "⚠️ 인증이 만료되어 현재 dispatch를 실패 처리하고 thread 세션을 종료했습니다. 관리자가 CLI에서 재인증(`/login`)한 후 다시 디스패치해주세요."
            },
            (TerminalAbortDiagnosis::AuthenticationFailed, false) => {
                "⚠️ 인증이 만료되어 현재 dispatch를 실패 처리했습니다. 보호된 tmux 세션과 watcher는 유지됩니다. 관리자가 CLI에서 재인증(`/login`)한 후 다시 디스패치해주세요."
            },
            (TerminalAbortDiagnosis::ProviderOverload, true) => {
                "⚠️ provider capacity 오류로 현재 dispatch를 실패 처리하고 thread 세션을 종료했습니다. 잠시 후 다시 시도해주세요."
            },
            (TerminalAbortDiagnosis::ProviderOverload, false) => {
                "⚠️ provider capacity 오류로 현재 dispatch를 실패 처리했습니다. 보호된 tmux 세션과 watcher는 유지됩니다. 잠시 후 다시 시도해주세요."
            },
        }
    }
}

// ---------------------------------------------------------------------------
// Authority over the turn
// ---------------------------------------------------------------------------
/// What the channel's mailbox holds for an active turn.
#[derive(Debug, PartialEq, Eq)]
pub struct ChannelMailboxSnapshot {
    /// Whether a cancel token is held.
    pub cancel_token: bool,
    pub active_request_owner: Option<u64>,
    pub active_user_message_id: Option<u64>,
    pub active_turn_nonce: Option<String>,
}

impl Default for ChannelMailboxSnapshot {
    fn default() -> (out: Self)
        ensures
            out.idle(),
    {
        ChannelMailboxSnapshot {
            cancel_token: false,
            active_request_owner: None,
            active_user_message_id: None,
            active_turn_nonce: None,
        }
    }
}

impl ChannelMailboxSnapshot {
    /// The mailbox holds nothing of an active turn.
    pub open spec fn idle(self) -> bool {
        &&& !self.cancel_token
        &&& self.active_request_owner is None
        &&& self.active_user_message_id is None
        &&& self.active_turn_nonce is None
    }
}

/// `offset` lies in the half-open range that was watched.
pub open spec fn offset_within(offset: Option<u64>, start: u64, end: u64) -> bool {
    offset matches Some(at) && start <= at < end
}

/// Whether a terminal error may be acted on although no turn is recorded: nothing
/// is recorded, the mailbox is idle, and the evidence lies in the bytes that this
/// watcher consumed.
pub fn legacy_no_row_terminal_abort(
    startup_snapshot_present: bool,
    current_row_present: bool,
    mailbox: &ChannelMailboxSnapshot,
    terminal_evidence_offset: Option<u64>,
    turn_data_start_offset: u64,
    consumed_offset: u64,
) -> (r: bool)
    ensures
        r == (!startup_snapshot_present && !current_row_present && mailbox.idle() && offset_within(
            terminal_evidence_offset,
            turn_data_start_offset,
            consumed_offset,
        )),
{
    let evidence_in_watched_range = match terminal_evidence_offset {
        Some(offset) => offset >= turn_data_start_offset && offset < consumed_offset,
        None => false,
    };
    !startup_snapshot_present && !current_row_present && !mailbox.cancel_token
        && mailbox.active_request_owner.is_none() && mailbox.active_user_message_id.is_none()
        && mailbox.active_turn_nonce.is_none() && evidence_in_watched_range
}

/// The recorded turn that the watcher started with.
#[derive(Debug, PartialEq, Eq)]
pub struct PinnedRow {
    /// The turn number under which the finalizer knows the turn; zero if it has
    /// none.
    pub finalizer_turn_id: u64,
    pub turn_start_offset: Option<u64>,
    pub last_offset: u64,
    pub tmux_session_name: Option<String>,
    pub dispatch_id: Option<String>,
    /// The dispatch that the user's text names.
    pub text_dispatch_id: Option<String>,
}

/// Where the recorded turn starts.
pub open spec fn row_start(row: PinnedRow) -> u64 {
    match row.turn_start_offset {
        Some(start) => start,
        None => row.last_offset,
    }
}

/// The dispatch of a recorded turn: its own, or else the one that its text names.
pub open spec fn row_dispatch(row: PinnedRow) -> Option<Seq<char>> {
    match row.dispatch_id {
        Some(id) => Some(id@),
        None => text::opt_text(row.text_dispatch_id),
    }
}

/// The key of a turn in the finalizer.
#[derive(Debug, Clone, Copy, PartialEq, Eq, Structural)]
pub struct TurnKey {
    pub channel_id: u64,
    pub turn_id: u64,
    pub generation: u64,
}

/// The authority over a recorded turn.
#[derive(Debug, PartialEq, Eq)]
pub struct PinnedTerminalAbort {
    pub key: TurnKey,
    pub dispatch_id: Option<String>,
}

/// The recorded turn is the one that the evidence is about: the finalizer knows it,
/// it runs in this session, no other turn has taken its place, and the evidence
/// lies between its start and what was consumed.
pub open spec fn pinned_admitted(
    tmux_session_name: Seq<char>,
    row: PinnedRow,
    terminal_evidence_offset: Option<u64>,
    consumed_offset: u64,
    current_matches: Option<bool>,
) -> bool {
    &&& row.finalizer_turn_id != 0
    &&& row.tmux_session_name matches Some(session)
    &&& text::trimmed(session@) == text::trimmed(tmux_session_name)
    &&& current_matches != Some(false)
    &&& offset_within(terminal_evidence_offset, row_start(row), consumed_offset)
}

/// The authority over the recorded turn, if the watcher has it. `current_matches`
/// says whether the turn that is recorded now, if there is one, is the same turn.
pub fn pinned_terminal_abort(
    current_generation: u64,
    channel_id: u64,
    tmux_session_name: &str,
    pinned: Option<&PinnedRow>,
    terminal_evidence_offset: Option<u64>,
    consumed_offset: u64,
    current_matches: Option<bool>,
) -> (r: Option<PinnedTerminalAbort>)
    ensures
        match r {
            Some(abort) => pinned matches Some(row) && pinned_admitted(
                tmux_session_name@,
                *row,
                terminal_evidence_offset,
                consumed_offset,
                current_matches,
            ) && abort.key == (TurnKey {
                channel_id,
                turn_id: row.finalizer_turn_id,
                generation: current_generation,
            }) && text::opt_text(abort.dispatch_id) == row_dispatch(*row),
            None => pinned matches Some(row) ==> !pinned_admitted(
                tmux_session_name@,
                *row,
                terminal_evidence_offset,
                consumed_offset,
                current_matches,
            ),
        },
{
    let pinned = match pinned {
        Some(pinned) => pinned,
        None => {
            return None;
        },
    };
    let evidence_offset: u64 = match terminal_evidence_offset {
        Some(offset) => offset,
        None => {
            return None;
        },
    };
    let turn_start_offset: u64 = match pinned.turn_start_offset {
        Some(start) => start,
        None => pinned.last_offset,
    };
    let current_identity_matches = match current_matches {
        Some(same) => same,
        None => true,
    };
    let same_session = match &pinned.tmux_session_name {
        Some(session) => text::same_text(
            text::trim(session.as_str()),
            text::trim(tmux_session_name),
        ),
        None => false,
    };
    if pinned.finalizer_turn_id == 0 || !same_session || !current_identity_matches
        || evidence_offset < turn_start_offset || evidence_offset >= consumed_offset {
        return None;
    }
    let dispatch_id = match &pinned.dispatch_id {
        Some(id) => Some(id.clone()),
        None => text::clone_opt(&pinned.text_dispatch_id),
    };
    Some(
        PinnedTerminalAbort {
            key: TurnKey {
                channel_id,
                turn_id: pinned.finalizer_turn_id,
                generation: current_generation,
            },
            dispatch_id,
        },
    )
}

/// By what right a terminal error is acted on.
#[derive(Debug, PartialEq, Eq)]
pub enum TerminalAbortAuthority {
    Pinned(PinnedTerminalAbort),
    LegacyNoRow,
}

impl TerminalAbortAuthority {
    /// The dispatch that the authority names.
    pub open spec fn dispatch(self) -> Option<Seq<char>> {
        match self {
            TerminalAbortAuthority::Pinned(pinned) => text::opt_text(pinned.dispatch_id),
            TerminalAbortAuthority::LegacyNoRow => None,
        }
    }

    pub fn dispatch_id(&self) -> (r: Option<&str>)
        ensures
            match r {
                Some(id) => self.dispatch() == Some(id@),
                None => self.dispatch() is None,
            },
    {
        match self {
            TerminalAbortAuthority::Pinned(pinned) => match &pinned.dispatch_id {
                Some(id) => Some(id.as_str()),
                None => None,
            },
            TerminalAbortAuthority::LegacyNoRow => None,
        }
    }
}

// ---------------------------------------------------------------------------
// Entry
// ---------------------------------------------------------------------------
/// What the watcher knows when a turn's output has been read.
#[derive(Debug, Clone, Copy, PartialEq, Eq)]
pub struct TerminalAbortExitLocals {
    pub was_paused: bool,
    pub epoch_snapshot: u64,
    pub monitor_auto_turn_deferred: bool,
    pub placeholder_msg_id: Option<u64>,
    pub turn_data_start_offset: u64,
    pub current_offset: u64,
    pub terminal_evidence_offset: Option<u64>,
    pub is_prompt_too_long: bool,
    pub is_auth_error: bool,
    pub is_provider_overloaded: bool,
}

/// What the watcher carries from turn to turn.
#[derive(Debug, PartialEq, Eq)]
pub struct TerminalAbortExitState {
    pub placeholder_from_restored_inflight: bool,
    pub last_edit_text: String,
    pub monitor_auto_turn_claimed: bool,
    pub monitor_auto_turn_finished: bool,
    pub monitor_auto_turn_synthetic_msg_id: Option<u64>,
    pub monitor_auto_turn_ledger_generation: Option<u64>,
    pub all_data: String,
    pub all_data_start_offset: u64,
    pub all_data_fully_mirrored_to_session_relay: bool,
    /// Whether an acknowledgement of the session relay is awaited.
    pub all_data_session_bound_relay_ack: bool,
    pub all_data_first_forwarded_relay_sequence: Option<u64>,
    pub prompt_too_long_killed: bool,
}

/// What the turn's output calls for.
#[derive(Debug, Clone, Copy, PartialEq, Eq)]
pub enum AbortEntry {
    /// The watcher is paused: clean up, and give the output up. The placeholder, if
    /// there is one named here, is deleted unless it shows what was delivered.
    PauseCleanup { delete_placeholder: Option<u64> },
    /// No terminal error: go on to the delivery.
    Fallthrough,
    /// A terminal error: establish the authority to act on it.
    Diagnosed(TerminalAbortDiagnosis),
}

/// The diagnosis of the output: an overload comes before an authentication error,
/// and that before a prompt that is too long.
pub open spec fn diagnosis_of(locals: TerminalAbortExitLocals) -> Option<TerminalAbortDiagnosis> {
    if locals.is_provider_overloaded {
        Some(TerminalAbortDiagnosis::ProviderOverload)
    } else if locals.is_auth_error {
        Some(TerminalAbortDiagnosis::AuthenticationFailed)
    } else if locals.is_prompt_too_long {
        Some(TerminalAbortDiagnosis::PromptTooLong)
    } else {
        None
    }
}

/// The watcher was paused, is paused, or has been paused in between, and no
/// deferred monitor turn is ready to go on.
pub open spec fn gives_way_to_pause(
    locals: TerminalAbortExitLocals,
    monitor_auto_turn_claimed: bool,
    paused_now: bool,
    pause_epoch_now: u64,
) -> bool {
    &&& locals.was_paused || paused_now || pause_epoch_now != locals.epoch_snapshot
    &&& !(monitor_auto_turn_claimed && locals.monitor_auto_turn_deferred && !paused_now)
}

/// Decides what the turn's output calls for. `delete_suppressed` says whether a
/// placeholder that shows nothing delivered is to be deleted rather than kept.
pub fn handle_terminal_abort_exits(
    locals: &TerminalAbortExitLocals,
    paused_now: bool,
    pause_epoch_now: u64,
    delete_suppressed: bool,
    state: &mut TerminalAbortExitState,
) -> (r: AbortEntry)
    ensures
        r == if gives_way_to_pause(
            *locals,
            old(state).monitor_auto_turn_claimed,
            paused_now,
            pause_epoch_now,
        ) {
            AbortEntry::PauseCleanup {
                delete_placeholder: if delete_suppressed {
                    locals.placeholder_msg_id
                } else {
                    None
                },
            }
        } else {
            match diagnosis_of(*locals) {
                Some(diagnosis) => AbortEntry::Diagnosed(diagnosis),
                None => AbortEntry::Fallthrough,
            }
        },
        ({
            let keeps_placeholder = r is PauseCleanup && locals.placeholder_msg_id is Some
                && !delete_suppressed;
            &&& keeps_placeholder ==> !final(state).placeholder_from_restored_inflight && final(state).last_edit_text@ == Seq::<char>::empty()
            &&& !keeps_placeholder ==> final(state).placeholder_from_restored_inflight == old(state).placeholder_from_restored_inflight && final(state).last_edit_text == old(state).last_edit_text
        }),
        *final(state) == (TerminalAbortExitState {
            placeholder_from_restored_inflight: final(state).placeholder_from_restored_inflight,
            last_edit_text: final(state).last_edit_text,
            ..*old(state)
        }),
{
    let epoch_changed_now = pause_epoch_now != locals.epoch_snapshot;
    let deferred_monitor_ready = state.monitor_auto_turn_claimed
        && locals.monitor_auto_turn_deferred && !paused_now;
    if (locals.was_paused || paused_now || epoch_changed_now) && !deferred_monitor_ready {
        let mut delete_placeholder: Option<u64> = None;
        if locals.placeholder_msg_id.is_some() {
            if delete_suppressed {
                delete_placeholder = locals.placeholder_msg_id;
            } else {
                state.placeholder_from_restored_inflight = false;
                state.last_edit_text = String::new();
            }
        }
        return AbortEntry::PauseCleanup { delete_placeholder };
    }
    if locals.is_provider_overloaded {
        AbortEntry::Diagnosed(TerminalAbortDiagnosis::ProviderOverload)
    } else if locals.is_auth_error {
        AbortEntry::Diagnosed(TerminalAbortDiagnosis::AuthenticationFailed)
    } else if locals.is_prompt_too_long {
        AbortEntry::Diagnosed(TerminalAbortDiagnosis::PromptTooLong)
    } else {
        AbortEntry::Fallthrough
    }
}

/// Gives up the output of a paused watcher, once the placeholder has been cleaned
/// up and a claimed monitor turn has been finished.
pub fn finish_pause_cleanup(current_offset: u64, state: &mut TerminalAbortExitState) -> (r:
    AbortExitOutcome)
    ensures
        r == AbortExitOutcome::ContinueWatcherLoop,
        final(state).all_data@ == Seq::<char>::empty(),
        *final(state) == (TerminalAbortExitState {
            all_data: final(state).all_data,
            all_data_start_offset: current_offset,
            all_data_fully_mirrored_to_session_relay: true,
            all_data_session_bound_relay_ack: false,
            all_data_first_forwarded_relay_sequence: None,
            ..*old(state)
        }),
{
    state.all_data = String::new();
    state.all_data_start_offset = current_offset;
    state.all_data_fully_mirrored_to_session_relay = true;
    state.all_data_session_bound_relay_ack = false;
    state.all_data_first_forwarded_relay_sequence = None;
    AbortExitOutcome::ContinueWatcherLoop
}

// ---------------------------------------------------------------------------
// Admission
// ---------------------------------------------------------------------------
/// The authority to act on a terminal error: over the recorded turn, or else over
/// an idle channel without one. Without authority the error is ignored.
pub fn terminal_abort_authority(
    locals: &TerminalAbortExitLocals,
    current_generation: u64,
    channel_id: u64,
    tmux_session_name: &str,
    startup: Option<&PinnedRow>,
    current_matches: Option<bool>,
    mailbox: &ChannelMailboxSnapshot,
) -> (r: Option<TerminalAbortAuthority>)
    ensures
        match r {
            Some(TerminalAbortAuthority::Pinned(abort)) => startup matches Some(row)
                && pinned_admitted(
                tmux_session_name@,
                *row,
                locals.terminal_evidence_offset,
                locals.current_offset,
                current_matches,
            ) && abort.key == (TurnKey {
                channel_id,
                turn_id: row.finalizer_turn_id,
                generation: current_generation,
            }) && text::opt_text(abort.dispatch_id) == row_dispatch(*row),
            Some(TerminalAbortAuthority::LegacyNoRow) => startup is None && current_matches is None
                && mailbox.idle() && offset_within(
                locals.terminal_evidence_offset,
                locals.turn_data_start_offset,
                locals.current_offset,
            ),
            None => {
                &&& startup matches Some(row) ==> !pinned_admitted(
                    tmux_session_name@,
                    *row,
                    locals.terminal_evidence_offset,
                    locals.current_offset,
                    current_matches,
                )
                &&& startup is None ==> current_matches is Some || !mailbox.idle()
                    || !offset_within(
                    locals.terminal_evidence_offset,
                    locals.turn_data_start_offset,
                    locals.current_offset,
                )
            },
        },
{
    match pinned_terminal_abort(
        current_generation,
        channel_id,
        tmux_session_name,
        startup,
        locals.terminal_evidence_offset,
        locals.current_offset,
        current_matches,
    ) {
        Some(pinned) => Some(TerminalAbortAuthority::Pinned(pinned)),
        None => if legacy_no_row_terminal_abort(
            startup.is_some(),
            current_matches.is_some(),
            mailbox,
            locals.terminal_evidence_offset,
            locals.turn_data_start_offset,
            locals.current_offset,
        ) {
            Some(TerminalAbortAuthority::LegacyNoRow)
        } else {
            None
        },
    }
}

/// Whether the authority still holds after the dispatch has been looked up: an
/// authority without a recorded turn gives way to a turn that has appeared since.
pub fn authority_still_admitted(
    authority: &TerminalAbortAuthority,
    locals: &TerminalAbortExitLocals,
    current_row_present: bool,
    mailbox: &ChannelMailboxSnapshot,
) -> (r: bool)
    ensures
        r == (authority is Pinned || (!current_row_present && mailbox.idle() && offset_within(
            locals.terminal_evidence_offset,
            locals.turn_data_start_offset,
            locals.current_offset,
        ))),
{
    match authority {
        TerminalAbortAuthority::Pinned(_) => true,
        TerminalAbortAuthority::LegacyNoRow => legacy_no_row_terminal_abort(
            false,
            current_row_present,
            mailbox,
            locals.terminal_evidence_offset,
            locals.turn_data_start_offset,
            locals.current_offset,
        ),
    }
}

// ---------------------------------------------------------------------------
// The plan
// ---------------------------------------------------------------------------
#[derive(Debug, Clone, Copy, PartialEq, Eq, Structural)]
pub struct TerminalAbortPlan {
    pub diagnosis: TerminalAbortDiagnosis,
    pub session_role: WatcherSessionRole,
}

impl TerminalAbortPlan {
    /// The plan kills the session.
    pub open spec fn kills(self) -> bool {
        self.session_role is DisposableCurrentThread
    }

    pub fn kills_session(self) -> (r: bool)
        ensures
            r == self.kills(),
    {
        self.session_role == WatcherSessionRole::DisposableCurrentThread
    }
}

/// The plan for a diagnosis: without a recorded turn the session is protected,
/// whatever its own role. Notes in `state` whether the session is killed.
pub fn terminal_abort_plan(
    diagnosis: TerminalAbortDiagnosis,
    authority: &TerminalAbortAuthority,
    session_role: WatcherSessionRole,
    state: &mut TerminalAbortExitState,
) -> (plan: TerminalAbortPlan)
    ensures
        plan.diagnosis == diagnosis,
        plan.session_role == if authority is Pinned {
            session_role
        } else {
            WatcherSessionRole::Protected
        },
        *final(state) == (TerminalAbortExitState {
            prompt_too_long_killed: plan.kills(),
            ..*old(state)
        }),
{
    let session_role = match authority {
        TerminalAbortAuthority::Pinned(_) => session_role,
        TerminalAbortAuthority::LegacyNoRow => WatcherSessionRole::Protected,
    };
    let plan = TerminalAbortPlan { diagnosis, session_role };
    state.prompt_too_long_killed = plan.kills_session();
    plan
}

/// One step of an abort.
#[derive(Debug, Clone, Copy, PartialEq, Eq)]
pub enum AbortStep {
    /// Fail the dispatch, with this reason.
    Dispatch { action: TerminalAbortDispatchAction, reason: &'static str },
    ClearAuthSession(bool),
    Kill { should_kill: bool, diagnosis: TerminalAbortDiagnosis },
    Finalize,
    Project,
    Settle,
}

/// The steps of a plan, in the order in which they are carried out. A step begins
/// when the one before it has come to its end, whatever that end was.
pub open spec fn plan_steps(plan: TerminalAbortPlan) -> Seq<AbortStep> {
    seq![
        AbortStep::Dispatch {
            action: action_for(plan.diagnosis),
            reason: reason_of(plan.diagnosis),
        },
        AbortStep::ClearAuthSession(plan.diagnosis is AuthenticationFailed),
        AbortStep::Kill { should_kill: plan.kills(), diagnosis: plan.diagnosis },
        AbortStep::Finalize,
        AbortStep::Project,
        AbortStep::Settle,
    ]
}

/// The steps of a plan, in the order in which they are carried out.
pub fn execute_terminal_abort_plan_with(plan: TerminalAbortPlan) -> (steps: Vec<AbortStep>)
    ensures
        steps@ == plan_steps(plan),
{
    let mut steps: Vec<AbortStep> = Vec::new();
    steps.push(
        AbortStep::Dispatch {
            action: plan.diagnosis.dispatch_action(),
            reason: plan.diagnosis.public_reason(),
        },
    );
    steps.push(
        AbortStep::ClearAuthSession(plan.diagnosis == TerminalAbortDiagnosis::AuthenticationFailed),
    );
    steps.push(
        AbortStep::Kill { should_kill: plan.kills_session(), diagnosis: plan.diagnosis },
    );
    steps.push(AbortStep::Finalize);
    steps.push(AbortStep::Project);
    steps.push(AbortStep::Settle);
    assert(steps@ =~= plan_steps(plan));
    steps
}

/// Whether the provider session is still the aborted turn's to clear.
/// `current_matches` says whether the turn that is recorded now, if there is one,
/// is the same turn.
pub fn auth_session_still_owned(
    authority: &TerminalAbortAuthority,
    locals: &TerminalAbortExitLocals,
    current_matches: Option<bool>,
    mailbox: &ChannelMailboxSnapshot,
) -> (r: bool)
    ensures
        r == match authority {
            TerminalAbortAuthority::Pinned(_) => current_matches == Some(true),
            TerminalAbortAuthority::LegacyNoRow => current_matches is None && mailbox.idle()
                && offset_within(
                locals.terminal_evidence_offset,
                locals.turn_data_start_offset,
                locals.current_offset,
            ),
        },
{
    match authority {
        TerminalAbortAuthority::Pinned(_) => match current_matches {
            Some(same) => same,
            None => false,
        },
        TerminalAbortAuthority::LegacyNoRow => legacy_no_row_terminal_abort(
            false,
            current_matches.is_some(),
            mailbox,
            locals.terminal_evidence_offset,
            locals.turn_data_start_offset,
            locals.current_offset,
        ),
    }
}

/// Where the notice of an abort goes.
#[derive(Debug, Clone, Copy, PartialEq, Eq)]
pub enum NoticeTarget {
    EditMessage(u64),
    NewMessage,
}

/// The notice takes the place of the placeholder, or else is a message of its own.
pub fn project_terminal_abort_notice(placeholder_msg_id: Option<u64>) -> (r: NoticeTarget)
    ensures
        r == match placeholder_msg_id {
            Some(id) => NoticeTarget::EditMessage(id),
            None => NoticeTarget::NewMessage,
        },
{
    match placeholder_msg_id {
        Some(id) => NoticeTarget::EditMessage(id),
        None => NoticeTarget::NewMessage,
    }
}

/// The key under which an abort finalizes and settles the turn.
pub fn finalized_turn(authority: &TerminalAbortAuthority) -> (r: Option<TurnKey>)
    ensures
        r == match authority {
            TerminalAbortAuthority::Pinned(pinned) => Some(pinned.key),
            TerminalAbortAuthority::LegacyNoRow => None,
        },
{
    match authority {
        TerminalAbortAuthority::Pinned(pinned) => Some(pinned.key),
        TerminalAbortAuthority::LegacyNoRow => None,
    }
}

/// Ends an abort whose steps have been carried out: a claimed monitor turn is
/// released and counts as finished.
pub fn finish_terminal_abort(state: &mut TerminalAbortExitState) -> (r: AbortExitOutcome)
    ensures
        r == AbortExitOutcome::ContinueWatcherLoop,
        *final(state) == if old(state).monitor_auto_turn_claimed {
            TerminalAbortExitState {
                monitor_auto_turn_claimed: false,
                monitor_auto_turn_finished: true,
                monitor_auto_turn_synthetic_msg_id: None,
                monitor_auto_turn_ledger_generation: None,
                ..*old(state)
            }
        } else {
            *old(state)
        },
{
    if state.monitor_auto_turn_claimed {
        state.monitor_auto_turn_claimed = false;
        state.monitor_auto_turn_finished = true;
        state.monitor_auto_turn_synthetic_msg_id = None;
        state.monitor_auto_turn_ledger_generation = None;
    }
    AbortExitOutcome::ContinueWatcherLoop
}

// ---------------------------------------------------------------------------
// The kill
// ---------------------------------------------------------------------------
/// What becomes of the kill step.
#[derive(Debug, Clone, Copy, PartialEq, Eq, Structural)]
pub enum KillAdmission {
    /// The session is protected.
    PreserveProtected,
    /// The session could not be identified when the kill was planned.
    PreserveUnidentified,
    /// Log the kill, then check once more what is about to be killed.
    Revalidate,
}

/// Decides what becomes of the kill step.
pub fn execute_authorized_terminal_kill(
    should_kill: bool,
    authorized_identity: Option<&TmuxPaneIdentity>,
) -> (r: KillAdmission)
    ensures
        r == if !should_kill {
            KillAdmission::PreserveProtected
        } else if authorized_identity is None {
            KillAdmission::PreserveUnidentified
        } else {
            KillAdmission::Revalidate
        },
{
    if !should_kill {
        return KillAdmission::PreserveProtected;
    }
    match authorized_identity {
        Some(_) => KillAdmission::Revalidate,
        None => KillAdmission::PreserveUnidentified,
    }
}

/// The ownership that a kill is rechecked with: of a recorded turn, whether it is the
/// turn that is recorded now; without one there is nothing to recheck.
pub fn kill_ownership(authority: &TerminalAbortAuthority, current_matches: Option<bool>) -> (r:
    Option<bool>)
    ensures
        r == match authority {
            TerminalAbortAuthority::Pinned(_) => Some(current_matches == Some(true)),
            TerminalAbortAuthority::LegacyNoRow => None,
        },
{
    match authority {
        TerminalAbortAuthority::Pinned(_) => match current_matches {
            Some(same) => Some(same),
            None => Some(false),
        },
        TerminalAbortAuthority::LegacyNoRow => None,
    }
}

/// Whether the session is killed after all: the turn is still the one that was
/// aborted, the session is still its own thread, and the pane is still the one that
/// the kill was authorized for. `still_owned` is absent where no turn was recorded.
pub fn kill_is_revalidated(
    still_owned: Option<bool>,
    session_role: WatcherSessionRole,
    authorized: &TmuxPaneIdentity,
    current: Option<&TmuxPaneIdentity>,
) -> (r: bool)
    ensures
        r == (still_owned != Some(false) && session_role is DisposableCurrentThread && (current
            matches Some(identity) && identity@ == authorized@)),
{
    let inflight_still_owned = match still_owned {
        Some(owned) => owned,
        None => true,
    };
    inflight_still_owned && session_role == WatcherSessionRole::DisposableCurrentThread
        && terminal_kill_identity_matches(authorized, current)
}

/// What the audit says of the kill.
pub fn kill_detail(diagnosis: TerminalAbortDiagnosis) -> (out: String)
    ensures
        out@ == "watcher cleanup: "@ + reason_of(diagnosis)@,
{
    let mut out: String = "watcher cleanup: ".to_owned();
    out.append(diagnosis.public_reason());
    out
}

// ---------------------------------------------------------------------------
// Laws
// ---------------------------------------------------------------------------
/// A plan made without a recorded turn never kills, and neither does one for a
/// protected session.
pub proof fn law_only_the_own_thread_is_killed(
    plan: TerminalAbortPlan,
    authority: TerminalAbortAuthority,
    session_role: WatcherSessionRole,
)
    requires
        plan.session_role == (if authority is Pinned {
            session_role
        } else {
            WatcherSessionRole::Protected
        }),
    ensures
        plan.kills() <==> authority is Pinned && session_role is DisposableCurrentThread,
        plan_steps(plan)[2] == (AbortStep::Kill {
            should_kill: authority is Pinned && session_role is DisposableCurrentThread,
            diagnosis: plan.diagnosis,
        }),
{
}

/// Whatever the plan, it fails the dispatch, clears the session and decides the kill
/// before it finalizes the turn, each exactly once, and it settles last: the turn is
/// settled although showing the notice failed.
pub proof fn law_finalization_follows_the_kill(plan: TerminalAbortPlan, i: int)
    requires
        0 <= i < plan_steps(plan).len(),
    ensures
        plan_steps(plan).len() == 6,
        plan_steps(plan)[i] is Dispatch <==> i == 0,
        plan_steps(plan)[i] is ClearAuthSession <==> i == 1,
        plan_steps(plan)[i] is Kill <==> i == 2,
        plan_steps(plan)[i] is Finalize <==> i == 3,
        plan_steps(plan)[i] is Project <==> i == 4,
        plan_steps(plan)[i] is Settle <==> i == 5,
{
}

/// Evidence from before the turn, or at or past what was consumed, gives no
/// authority over the turn.
pub proof fn law_stale_evidence_gives_no_authority(
    tmux_session_name: Seq<char>,
    row: PinnedRow,
    evidence: u64,
    consumed_offset: u64,
    current_matches: Option<bool>,
)
    requires
        evidence < row_start(row) || evidence >= consumed_offset,
    ensures
        !pinned_admitted(
            tmux_session_name,
            row,
            Some(evidence),
            consumed_offset,
            current_matches,
        ),
{
}

/// Where the watcher does not give way to a pause, each kind of evidence alone leads to the
/// diagnosis of its own name, and none of them to the delivery; of several, an overload
/// comes first, then an authentication error.
pub proof fn law_evidence_names_its_diagnosis(
    locals: TerminalAbortExitLocals,
    paused_now: bool,
    pause_epoch_now: u64,
    delete_suppressed: bool,
    state: &mut TerminalAbortExitState,
    entry: AbortEntry,
)
    requires
        call_ensures(
            handle_terminal_abort_exits,
            (&locals, paused_now, pause_epoch_now, delete_suppressed, state),
            entry,
        ),
        !locals.was_paused,
        !paused_now,
        pause_epoch_now == locals.epoch_snapshot,
    ensures
        locals.is_provider_overloaded ==> entry == AbortEntry::Diagnosed(
            TerminalAbortDiagnosis::ProviderOverload,
        ),
        locals.is_auth_error && !locals.is_provider_overloaded ==> entry == AbortEntry::Diagnosed(
            TerminalAbortDiagnosis::AuthenticationFailed,
        ),
        locals.is_prompt_too_long && !locals.is_auth_error && !locals.is_provider_overloaded
            ==> entry == AbortEntry::Diagnosed(TerminalAbortDiagnosis::PromptTooLong),
        !locals.is_prompt_too_long && !locals.is_auth_error && !locals.is_provider_overloaded
            <==> entry == AbortEntry::Fallthrough,
        *final(state) == *old(state) || final(state).last_edit_text@ == old(state).last_edit_text@,
{
}

/// A pause, now or in between, comes before every diagnosis, unless a claimed monitor turn
/// that was deferred is free to go on. The placeholder is then deleted, or else forgotten;
/// nothing else of the watcher's state changes.
pub proof fn law_pause_comes_first(
    locals: TerminalAbortExitLocals,
    paused_now: bool,
    pause_epoch_now: u64,
    delete_suppressed: bool,
    state: &mut TerminalAbortExitState,
    entry: AbortEntry,
)
    requires
        call_ensures(
            handle_terminal_abort_exits,
            (&locals, paused_now, pause_epoch_now, delete_suppressed, state),
            entry,
        ),
    ensures
        paused_now ==> entry is PauseCleanup,
        (locals.was_paused || pause_epoch_now != locals.epoch_snapshot) && (!old(state).monitor_auto_turn_claimed || !locals.monitor_auto_turn_deferred) ==> entry is PauseCleanup,
        !paused_now && old(state).monitor_auto_turn_claimed && locals.monitor_auto_turn_deferred
            ==> entry !is PauseCleanup,
        entry matches AbortEntry::PauseCleanup { delete_placeholder } ==> {
            &&& delete_suppressed ==> delete_placeholder == locals.placeholder_msg_id
            &&& !delete_suppressed ==> delete_placeholder is None
            &&& !delete_suppressed && locals.placeholder_msg_id is Some ==> !final(state).placeholder_from_restored_inflight && final(state).last_edit_text@.len() == 0
        },
        entry !is PauseCleanup ==> final(state).placeholder_from_restored_inflight == old(state).placeholder_from_restored_inflight,
        final(state).monitor_auto_turn_claimed == old(state).monitor_auto_turn_claimed,
        final(state).monitor_auto_turn_finished == old(state).monitor_auto_turn_finished,
        final(state).all_data@ == old(state).all_data@,
        final(state).all_data_start_offset == old(state).all_data_start_offset,
        final(state).prompt_too_long_killed == old(state).prompt_too_long_killed,
{
}

/// From the evidence to the steps: only an authentication error fails the dispatch as
/// expired and clears the provider's session, and only then is the channel told to log in
/// again; an overload and a prompt that is too long are retried and leave the provider's
/// session alone. Each diagnosis gives a reason of its own.
pub proof fn law_diagnosis_decides_the_steps(
    diagnosis: TerminalAbortDiagnosis,
    authority: TerminalAbortAuthority,
    session_role: WatcherSessionRole,
    state: &mut TerminalAbortExitState,
    plan: TerminalAbortPlan,
    steps: Vec<AbortStep>,
)
    requires
        call_ensures(terminal_abort_plan, (diagnosis, &authority, session_role, state), plan),
        call_ensures(execute_terminal_abort_plan_with, (plan,), steps),
    ensures
        steps@.len() == 6,
        match diagnosis {
            TerminalAbortDiagnosis::AuthenticationFailed => {
                &&& steps@[0] is Dispatch
                &&& steps@[0]->action == TerminalAbortDispatchAction::FailAuthExpired
                &&& steps@[0]->Dispatch_reason@ == "provider_authentication_failed"@
                &&& steps@[1] == AbortStep::ClearAuthSession(true)
            },
            TerminalAbortDiagnosis::ProviderOverload => {
                &&& steps@[0] is Dispatch
                &&& steps@[0]->action == TerminalAbortDispatchAction::FailWithRetry
                &&& steps@[0]->Dispatch_reason@ == "provider_capacity_response"@
                &&& steps@[1] == AbortStep::ClearAuthSession(false)
            },
            TerminalAbortDiagnosis::PromptTooLong => {
                &&& steps@[0] is Dispatch
                &&& steps@[0]->action == TerminalAbortDispatchAction::FailWithRetry
                &&& steps@[0]->Dispatch_reason@ == "prompt_too_long"@
                &&& steps@[1] == AbortStep::ClearAuthSession(false)
            },
        },
        steps@[2] == (AbortStep::Kill {
            should_kill: authority is Pinned && session_role is DisposableCurrentThread,
            diagnosis,
        }),
        steps@[3] is Finalize,
        steps@[4] is Project,
        steps@[5] is Settle,
        final(state).prompt_too_long_killed <==> authority is Pinned
            && session_role is DisposableCurrentThread,
        final(state).all_data@ == old(state).all_data@,
        final(state).monitor_auto_turn_claimed == old(state).monitor_auto_turn_claimed,
{
}

/// No two diagnoses share a reason, in public or for the termination.
pub proof fn law_reasons_tell_apart(
    a: TerminalAbortDiagnosis,
    b: TerminalAbortDiagnosis,
    termination_a: &'static str,
    termination_b: &'static str,
    public_a: &'static str,
    public_b: &'static str,
    detail_a: String,
)
    requires
        call_ensures(TerminalAbortDiagnosis::termination_reason, (a,), termination_a),
        call_ensures(TerminalAbortDiagnosis::termination_reason, (b,), termination_b),
        call_ensures(TerminalAbortDiagnosis::public_reason, (a,), public_a),
        call_ensures(TerminalAbortDiagnosis::public_reason, (b,), public_b),
        call_ensures(kill_detail, (a,), detail_a),
    ensures
        termination_a@ == termination_b@ ==> a == b,
        public_a@ == public_b@ ==> a == b,
        termination_a@ == "auth_error"@ <==> a is AuthenticationFailed,
        termination_a@ == "provider_overload"@ <==> a is ProviderOverload,
        termination_a@ == "prompt_too_long"@ <==> a is PromptTooLong,
        public_a@ == "provider_authentication_failed"@ <==> a is AuthenticationFailed,
        public_a@ == "provider_capacity_response"@ <==> a is ProviderOverload,
        public_a@ == "prompt_too_long"@ <==> a is PromptTooLong,
        detail_a@ == "watcher cleanup: "@ + public_a@,
{
    reveal_strlit("prompt_too_long");
    reveal_strlit("auth_error");
    reveal_strlit("provider_overload");
    reveal_strlit("provider_authentication_failed");
    reveal_strlit("provider_capacity_response");
    assert("prompt_too_long"@.len() == 15);
    assert("auth_error"@.len() == 10);
    assert("provider_overload"@.len() == 17);
    assert("provider_authentication_failed"@[9] == 'a');
    assert("provider_capacity_response"@[9] == 'c');
}

/// The notice begins with what went wrong. It says that the session and its watcher stay
/// just where the session was not killed, and asks for a new login just where the login
/// failed.
pub proof fn law_notice_tells_what_happened(
    diagnosis: TerminalAbortDiagnosis,
    killed: &'static str,
    kept: &'static str,
)
    requires
        call_ensures(TerminalAbortDiagnosis::notice, (diagnosis, true), killed),
        call_ensures(TerminalAbortDiagnosis::notice, (diagnosis, false), kept),
    ensures
        text::has_prefix(killed@, "⚠️ 인증이 만료되어"@) <==> diagnosis is AuthenticationFailed,
        text::has_prefix(kept@, "⚠️ 인증이 만료되어"@) <==> diagnosis is AuthenticationFailed,
        text::has_prefix(killed@, "⚠️ provider capacity"@) <==> diagnosis is ProviderOverload,
        text::has_prefix(kept@, "⚠️ provider capacity"@) <==> diagnosis is ProviderOverload,
        text::has_prefix(killed@, "⚠️ 컨텍스트 한도 초과"@) <==> diagnosis is PromptTooLong,
        text::has_prefix(kept@, "⚠️ 컨텍스트 한도 초과"@) <==> diagnosis is PromptTooLong,
        killed@ != kept@,
        text::has_text(kept@, "watcher는 유지됩니다."@),
        diagnosis is AuthenticationFailed ==> text::has_text(killed@, "`/login`"@)
            && text::has_text(kept@, "`/login`"@),
{
    reveal_strlit("⚠️ 컨텍스트 한도 초과로 현재 thread 세션을 초기화했습니다. 다음 메시지부터 새 세션으로 처리됩니다.");
    reveal_strlit("⚠️ 컨텍스트 한도 초과로 현재 turn을 종료했습니다. 보호된 tmux 세션과 watcher는 유지됩니다.");
    reveal_strlit("⚠️ 인증이 만료되어 현재 dispatch를 실패 처리하고 thread 세션을 종료했습니다. 관리자가 CLI에서 재인증(`/login`)한 후 다시 디스패치해주세요.");
    reveal_strlit("⚠️ 인증이 만료되어 현재 dispatch를 실패 처리했습니다. 보호된 tmux 세션과 watcher는 유지됩니다. 관리자가 CLI에서 재인증(`/login`)한 후 다시 디스패치해주세요.");
    reveal_strlit("⚠️ provider capacity 오류로 현재 dispatch를 실패 처리하고 thread 세션을 종료했습니다. 잠시 후 다시 시도해주세요.");
    reveal_strlit("⚠️ provider capacity 오류로 현재 dispatch를 실패 처리했습니다. 보호된 tmux 세션과 watcher는 유지됩니다. 잠시 후 다시 시도해주세요.");
    reveal_strlit("⚠️ 인증이 만료되어");
    reveal_strlit("⚠️ provider capacity");
    reveal_strlit("⚠️ 컨텍스트 한도 초과");
    reveal_strlit("watcher는 유지됩니다.");
    reveal_strlit("`/login`");
    match diagnosis {
        TerminalAbortDiagnosis::PromptTooLong => {
            assert(killed@.take(13) =~= "⚠️ 컨텍스트 한도 초과"@);
            assert(kept@.take(13) =~= "⚠️ 컨텍스트 한도 초과"@);
            assert(killed@.take(11)[3] != "⚠️ 인증이 만료되어"@[3]);
            assert(kept@.take(11)[3] != "⚠️ 인증이 만료되어"@[3]);
            assert(killed@.take(20)[3] != "⚠️ provider capacity"@[3]);
            assert(kept@.take(20)[3] != "⚠️ provider capacity"@[3]);
            assert(killed@[19] != kept@[19]);
            assert(kept@.subrange(45, 60) =~= "watcher는 유지됩니다."@);
            assert(text::occurs_at(kept@, "watcher는 유지됩니다."@, 45));
        },
        TerminalAbortDiagnosis::AuthenticationFailed => {
            assert(killed@.take(11) =~= "⚠️ 인증이 만료되어"@);
            assert(kept@.take(11) =~= "⚠️ 인증이 만료되어"@);
            assert(killed@.take(13)[3] != "⚠️ 컨텍스트 한도 초과"@[3]);
            assert(kept@.take(13)[3] != "⚠️ 컨텍스트 한도 초과"@[3]);
            assert(killed@.take(20)[3] != "⚠️ provider capacity"@[3]);
            assert(kept@.take(20)[3] != "⚠️ provider capacity"@[3]);
            assert(killed@[30] != kept@[30]);
            assert(kept@.subrange(49, 64) =~= "watcher는 유지됩니다."@);
            assert(text::occurs_at(kept@, "watcher는 유지됩니다."@, 49));
            assert(killed@.subrange(67, 75) =~= "`/login`"@);
            assert(text::occurs_at(killed@, "`/login`"@, 67));
            assert(kept@.subrange(80, 88) =~= "`/login`"@);
            assert(text::occurs_at(kept@, "`/login`"@, 80));
        },
        TerminalAbortDiagnosis::ProviderOverload => {
            assert(killed@.take(20) =~= "⚠️ provider capacity"@);
            assert(kept@.take(20) =~= "⚠️ provider capacity"@);
            assert(killed@.take(13)[3] != "⚠️ 컨텍스트 한도 초과"@[3]);
            assert(kept@.take(13)[3] != "⚠️ 컨텍스트 한도 초과"@[3]);
            assert(killed@.take(11)[3] != "⚠️ 인증이 만료되어"@[3]);
            assert(kept@.take(11)[3] != "⚠️ 인증이 만료되어"@[3]);
            assert(killed@[43] != kept@[43]);
            assert(kept@.subrange(62, 77) =~= "watcher는 유지됩니다."@);
            assert(text::occurs_at(kept@, "watcher는 유지됩니다."@, 62));
        },
    }
}

/// The authority to act is given when it is due: over the recorded turn that the finalizer
/// knows, that runs in this session and that no other turn has replaced, for evidence
/// between its start and what was consumed; and over an idle channel without any recorded
/// turn, for evidence among the bytes that were watched. In no other case is it given.
pub proof fn law_authority_is_given_when_due(
    locals: TerminalAbortExitLocals,
    current_generation: u64,
    channel_id: u64,
    tmux_session_name: &str,
    startup: Option<&PinnedRow>,
    current_matches: Option<bool>,
    mailbox: ChannelMailboxSnapshot,
    r: Option<TerminalAbortAuthority>,
)
    requires
        call_ensures(
            terminal_abort_authority,
            (
                &locals,
                current_generation,
                channel_id,
                tmux_session_name,
                startup,
                current_matches,
                &mailbox,
            ),
            r,
        ),
    ensures
        startup matches Some(row) ==> {
            let start = match row.turn_start_offset {
                Some(start) => start,
                None => row.last_offset,
            };
            let due = row.finalizer_turn_id != 0 && (row.tmux_session_name matches Some(session)
                && text::trimmed(session@) == text::trimmed(tmux_session_name@)) && current_matches
                != Some(false) && (locals.terminal_evidence_offset matches Some(at) && start <= at
                && at < locals.current_offset);
            &&& r is Some <==> due
            &&& r matches Some(authority) ==> {
                &&& authority matches TerminalAbortAuthority::Pinned(abort)
                &&& abort.key.channel_id == channel_id
                &&& abort.key.turn_id == row.finalizer_turn_id
                &&& abort.key.generation == current_generation
                &&& row.dispatch_id matches Some(own) ==> abort.dispatch_id is Some
                    && abort.dispatch_id->0@ == own@
                &&& row.dispatch_id is None ==> text::opt_text(abort.dispatch_id) == text::opt_text(
                    row.text_dispatch_id,
                )
            }
        },
        startup is None ==> {
            let idle = !mailbox.cancel_token && mailbox.active_request_owner is None
                && mailbox.active_user_message_id is None && mailbox.active_turn_nonce is None;
            &&& r is Some <==> current_matches is None && idle && (
            locals.terminal_evidence_offset matches Some(at) && locals.turn_data_start_offset <= at
                && at < locals.current_offset)
            &&& r matches Some(authority) ==> authority is LegacyNoRow
        },
{
}

/// An authority over a recorded turn outlasts the lookup of the dispatch, and clears the
/// provider's session only while that turn is still the recorded one. One without a turn
/// gives way, in both respects, to any turn that has appeared and to a mailbox that is busy.
pub proof fn law_authority_without_a_turn_gives_way(
    authority: TerminalAbortAuthority,
    locals: TerminalAbortExitLocals,
    current_matches: Option<bool>,
    mailbox: ChannelMailboxSnapshot,
    still: bool,
    owned: bool,
    ownership: Option<bool>,
    key: Option<TurnKey>,
)
    requires
        call_ensures(
            authority_still_admitted,
            (&authority, &locals, current_matches is Some, &mailbox),
            still,
        ),
        call_ensures(
            auth_session_still_owned,
            (&authority, &locals, current_matches, &mailbox),
            owned,
        ),
        call_ensures(kill_ownership, (&authority, current_matches), ownership),
        call_ensures(finalized_turn, (&authority,), key),
    ensures
        authority matches TerminalAbortAuthority::Pinned(pinned) ==> {
            &&& still
            &&& owned <==> current_matches == Some(true)
            &&& ownership == Some(current_matches == Some(true))
            &&& key == Some(pinned.key)
        },
        authority is LegacyNoRow ==> {
            let free = current_matches is None && !mailbox.cancel_token
                && mailbox.active_request_owner is None && mailbox.active_user_message_id is None
                && mailbox.active_turn_nonce is None && (
            locals.terminal_evidence_offset matches Some(at) && locals.turn_data_start_offset <= at
                && at < locals.current_offset);
            &&& still == free
            &&& owned == free
            &&& ownership is None
            &&& key is None
        },
{
}

/// A session is killed only after it was planned, could be identified, and is still what it
/// was: the turn is not known to be another, the session is the turn's own thread, and the
/// pane is the very one that was authorized.
pub proof fn law_kill_is_checked_twice(
    should_kill: bool,
    authorized: Option<&TmuxPaneIdentity>,
    admission: KillAdmission,
    still_owned: Option<bool>,
    session_role: WatcherSessionRole,
    pane: TmuxPaneIdentity,
    current: Option<&TmuxPaneIdentity>,
    killed: bool,
)
    requires
        call_ensures(execute_authorized_terminal_kill, (should_kill, authorized), admission),
        call_ensures(kill_is_revalidated, (still_owned, session_role, &pane, current), killed),
    ensures
        admission is Revalidate <==> should_kill && authorized is Some,
        admission is PreserveProtected <==> !should_kill,
        admission is PreserveUnidentified <==> should_kill && authorized is None,
        killed <==> still_owned != Some(false) && session_role is DisposableCurrentThread
            && current is Some && current->0.session_id@ == pane.session_id@
            && current->0.pane_id@ == pane.pane_id@ && current->0.pane_pid == pane.pane_pid,
{
}

/// Giving up the output of a paused watcher empties what was collected and goes on from what
/// was consumed; the end of an abort releases a claimed monitor turn, and nothing but that.
/// Either way the watcher goes on.
pub proof fn law_watcher_goes_on_after_an_exit(
    current_offset: u64,
    cleaned: &mut TerminalAbortExitState,
    outcome: AbortExitOutcome,
    aborted: &mut TerminalAbortExitState,
    abort_outcome: AbortExitOutcome,
    placeholder_msg_id: Option<u64>,
    target: NoticeTarget,
)
    requires
        call_ensures(finish_pause_cleanup, (current_offset, cleaned), outcome),
        call_ensures(finish_terminal_abort, (aborted,), abort_outcome),
        call_ensures(project_terminal_abort_notice, (placeholder_msg_id,), target),
    ensures
        outcome is ContinueWatcherLoop,
        abort_outcome is ContinueWatcherLoop,
        final(cleaned).all_data@.len() == 0,
        final(cleaned).all_data_start_offset == current_offset,
        final(cleaned).all_data_fully_mirrored_to_session_relay,
        !final(cleaned).all_data_session_bound_relay_ack,
        final(cleaned).all_data_first_forwarded_relay_sequence is None,
        final(cleaned).monitor_auto_turn_claimed == old(cleaned).monitor_auto_turn_claimed,
        final(cleaned).monitor_auto_turn_finished == old(cleaned).monitor_auto_turn_finished,
        final(cleaned).last_edit_text@ == old(cleaned).last_edit_text@,
        !final(aborted).monitor_auto_turn_claimed,
        old(aborted).monitor_auto_turn_claimed ==> final(aborted).monitor_auto_turn_finished
            && final(aborted).monitor_auto_turn_synthetic_msg_id is None && final(aborted).monitor_auto_turn_ledger_generation is None,
        !old(aborted).monitor_auto_turn_claimed ==> *final(aborted) == *old(aborted),
        final(aborted).all_data@ == old(aborted).all_data@,
        final(aborted).all_data_start_offset == old(aborted).all_data_start_offset,
        final(aborted).last_edit_text@ == old(aborted).last_edit_text@,
        placeholder_msg_id matches Some(id) ==> target == NoticeTarget::EditMessage(id),
        placeholder_msg_id is None ==> target is NewMessage,
{
}

} // verus!
