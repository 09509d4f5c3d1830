//! What a terminal delivery commits.

use vstd::prelude::*;

use crate::native_codex::WatcherTerminalKind;
use crate::text;

verus! {

/// What was seen of the terminal's user interface when a turn completed.
#[derive(Debug, Clone, Copy, PartialEq, Eq, Structural)]
pub enum TuiCompletionGateOutcome {
    NotGated,
    ConfirmedIdle,
    BusyObserved,
}

/// Whether the state of the terminal holds back the lifecycle of a turn: it never
/// does. An interface that is still busy is an observation only.
pub fn watcher_tui_gate_blocks_lifecycle(
    gate_outcome: TuiCompletionGateOutcome,
    terminal_delivery_committed: bool,
) -> (r: bool)
    ensures
        !r,
{
    let _ = (gate_outcome, terminal_delivery_committed);
    false
}

/// Whether a commit advances the runtime binding: whenever the terminal output was
/// committed.
pub fn watcher_commit_should_advance_runtime_binding(
    terminal_output_committed: bool,
    gate_outcome: TuiCompletionGateOutcome,
    terminal_delivery_committed: bool,
) -> (r: bool)
    ensures
        r == terminal_output_committed,
{
    terminal_output_committed && !watcher_tui_gate_blocks_lifecycle(
        gate_outcome,
        terminal_delivery_committed,
    )
}

/// What follows from a terminal commit.
#[derive(Clone, Copy, Debug, PartialEq, Eq, Structural)]
pub struct WatcherTerminalCommitSideEffects {
    pub advance_runtime_binding: bool,
    pub advance_confirmed_end: bool,
    pub clear_inflight: bool,
    pub finish_restored_turn: bool,
    pub late_output_retry_possible: bool,
}

/// What follows from a terminal commit: all of the turn's lifecycle, and no retry.
pub fn watcher_terminal_commit_side_effects_for_test(
    terminal_output_committed: bool,
    gate_outcome: TuiCompletionGateOutcome,
    terminal_delivery_committed: bool,
) -> (r: WatcherTerminalCommitSideEffects)
    ensures
        r == (WatcherTerminalCommitSideEffects {
            advance_runtime_binding: terminal_output_committed,
            advance_confirmed_end: terminal_output_committed,
            clear_inflight: terminal_output_committed,
            finish_restored_turn: terminal_output_committed,
            late_output_retry_possible: false,
        }),
{
    let lifecycle_allowed = terminal_output_committed && !watcher_tui_gate_blocks_lifecycle(
        gate_outcome,
        terminal_delivery_committed,
    );
    WatcherTerminalCommitSideEffects {
        advance_runtime_binding: watcher_commit_should_advance_runtime_binding(
            terminal_output_committed,
            gate_outcome,
            terminal_delivery_committed,
        ),
        advance_confirmed_end: lifecycle_allowed,
        clear_inflight: lifecycle_allowed,
        finish_restored_turn: lifecycle_allowed,
        late_output_retry_possible: terminal_output_committed && !lifecycle_allowed,
    }
}

/// Whether a terminal of this kind waits for the terminal's user interface: all but
/// one that a user's message ends.
pub fn watcher_terminal_kind_requires_tui_completion_gate(
    terminal_kind: Option<WatcherTerminalKind>,
) -> (r: bool)
    ensures
        r == (terminal_kind != Some(WatcherTerminalKind::SoftUserBoundary)),
{
    match terminal_kind {
        Some(WatcherTerminalKind::SoftUserBoundary) => false,
        _ => true,
    }
}

/// Whether a turn without its row falls back: not where the session's own relay has
/// delivered it.
pub fn missing_inflight_after_session_bound_delivery(
    inflight_missing: bool,
    session_bound_relay_delivered: bool,
) -> (r: bool)
    ensures
        r == (inflight_missing && !session_bound_relay_delivered),
{
    inflight_missing && !session_bound_relay_delivered
}

/// Whether a committed pass closes the row's marker though the body of its anchor was
/// not visible: for a row that the watcher made for input from outside, with a
/// message and a session of its own.
pub fn committed_synthetic_commit_requires_marker_tombstone(
    turn_source_external: bool,
    relay_owner_watcher: bool,
    user_msg_id: u64,
    tmux_session_present: bool,
) -> (r: bool)
    ensures
        r == (turn_source_external && relay_owner_watcher && user_msg_id != 0
            && tmux_session_present),
{
    turn_source_external && relay_owner_watcher && user_msg_id != 0 && tmux_session_present
}

/// Where the input of a turn came from.
#[derive(Debug, Clone, Copy, PartialEq, Eq, Structural)]
pub enum TurnSource {
    Managed,
    ExternalInput,
}

/// Who relays a turn.
#[derive(Debug, Clone, Copy, PartialEq, Eq, Structural)]
pub enum RelayOwnerKind {
    Watcher,
    Other,
}

/// What the marker of a row is decided by.
#[derive(Debug, Clone, Copy, PartialEq, Eq)]
pub struct CommittedRow {
    pub turn_source: TurnSource,
    pub relay_owner_kind: RelayOwnerKind,
    pub user_msg_id: u64,
    pub tmux_session_present: bool,
}

/// Whether a committed pass closes the marker of this row.
pub fn committed_row_requires_marker_tombstone(row: &CommittedRow) -> (r: bool)
    ensures
        r == (row.turn_source is ExternalInput && row.relay_owner_kind is Watcher
            && row.user_msg_id != 0 && row.tmux_session_present),
{
    committed_synthetic_commit_requires_marker_tombstone(
        row.turn_source == TurnSource::ExternalInput,
        row.relay_owner_kind == RelayOwnerKind::Watcher,
        row.user_msg_id,
        row.tmux_session_present,
    )
}

/// What identifies the turn that a row is about.
#[derive(Debug)]
pub struct InflightTurnIdentity {
    pub user_msg_id: u64,
    pub started_at: String,
    pub tmux_session_name: Option<String>,
    pub turn_start_offset: Option<u64>,
}

pub struct IdentityView {
    pub user_msg_id: u64,
    pub started_at: Seq<char>,
    pub tmux_session_name: Option<Seq<char>>,
    pub turn_start_offset: Option<u64>,
}

impl View for InflightTurnIdentity {
    type V = IdentityView;

    open spec fn view(&self) -> IdentityView {
        IdentityView {
            user_msg_id: self.user_msg_id,
            started_at: self.started_at@,
            tmux_session_name: text::opt_text(self.tmux_session_name),
            turn_start_offset: self.turn_start_offset,
        }
    }
}

impl Clone for InflightTurnIdentity {
    fn clone(&self) -> (out: Self)
        ensures
            out@ == self@,
    {
        InflightTurnIdentity {
            user_msg_id: self.user_msg_id,
            started_at: self.started_at.clone(),
            tmux_session_name: text::clone_opt(&self.tmux_session_name),
            turn_start_offset: self.turn_start_offset,
        }
    }
}

/// Whether two optional texts are the same.
pub fn same_optional_text(a: &Option<String>, b: &Option<String>) -> (r: bool)
    ensures
        r == (text::opt_text(*a) == text::opt_text(*b)),
{
    match (a, b) {
        (Some(a), Some(b)) => text::same_text(a.as_str(), b.as_str()),
        (None, None) => true,
        _ => false,
    }
}

/// Whether two optional offsets are the same.
pub fn same_optional_offset(a: Option<u64>, b: Option<u64>) -> (r: bool)
    ensures
        r == (a == b),
{
    match (a, b) {
        (Some(a), Some(b)) => a == b,
        (None, None) => true,
        _ => false,
    }
}

impl InflightTurnIdentity {
    /// Whether a row is about this turn: all four parts agree.
    pub fn matches_state(&self, row: &InflightTurnIdentity) -> (r: bool)
        ensures
            r == (self@ == row@),
    {
        self.user_msg_id == row.user_msg_id && text::same_text(
            self.started_at.as_str(),
            row.started_at.as_str(),
        ) && same_optional_text(&self.tmux_session_name, &row.tmux_session_name)
            && same_optional_offset(self.turn_start_offset, row.turn_start_offset)
    }
}

/// What a terminal delivery changes in the turn's row.
#[derive(Debug, PartialEq, Eq)]
pub struct WatcherTerminalCommitPatch {
    pub full_response: String,
    pub last_offset: u64,
    pub last_watcher_relayed_offset: Option<u64>,
    pub last_watcher_relayed_generation_mtime_ns: Option<i64>,
}

/// Whether a terminal delivery can be recorded for this turn. A turn without a user
/// message is told apart by its start offset alone, so it needs one.
pub open spec fn commit_is_anchored(identity: Option<InflightTurnIdentity>) -> bool {
    identity matches Some(identity) && (identity.user_msg_id == 0 ==> identity.turn_start_offset
        is Some)
}

/// The change that records a terminal delivery in the turn's row: nothing where the
/// turn is not known, where there is no answer, or where a turn without a user
/// message has no start offset.
pub fn mark_watcher_terminal_delivery_committed(
    expected_identity: Option<&InflightTurnIdentity>,
    full_response: &str,
    turn_data_start_offset: u64,
    generation_mtime_ns: Option<i64>,
    last_offset: u64,
) -> (r: Option<WatcherTerminalCommitPatch>)
    ensures
        r is Some <==> commit_is_anchored(
            match expected_identity {
                Some(identity) => Some(*identity),
                None => None,
            },
        ) && !text::is_blank(full_response@),
        r matches Some(patch) ==> {
            &&& patch.full_response@ == full_response@
            &&& patch.last_offset == last_offset
            &&& patch.last_watcher_relayed_offset == Some(turn_data_start_offset)
            &&& patch.last_watcher_relayed_generation_mtime_ns == generation_mtime_ns
        },
{
    let expected_identity = match expected_identity {
        Some(identity) => identity,
        None => return None,
    };
    if text::blank(full_response) {
        return None;
    }
    let is_loop_turn = expected_identity.user_msg_id == 0;
    if is_loop_turn && expected_identity.turn_start_offset.is_none() {
        return None;
    }
    Some(
        WatcherTerminalCommitPatch {
            full_response: full_response.to_owned(),
            last_offset,
            last_watcher_relayed_offset: Some(turn_data_start_offset),
            last_watcher_relayed_generation_mtime_ns: generation_mtime_ns,
        },
    )
}

/// What became of a change to a turn's row.
#[derive(Debug, Clone, Copy, PartialEq, Eq, Structural)]
pub enum WatcherTerminalCommitOutcome {
    Committed,
    Skipped,
    IoError,
}

/// Whether the terminal delivery is recorded.
pub fn terminal_commit_is_recorded(outcome: WatcherTerminalCommitOutcome) -> (r: bool)
    ensures
        r == (outcome is Committed),
{
    match outcome {
        WatcherTerminalCommitOutcome::Committed => true,
        WatcherTerminalCommitOutcome::Skipped => false,
        WatcherTerminalCommitOutcome::IoError => false,
    }
}

/// The least of two offsets.
pub open spec fn least(a: u64, b: u64) -> u64 {
    if a <= b {
        a
    } else {
        b
    }
}

/// The greatest of two offsets.
pub open spec fn greatest(a: u64, b: u64) -> u64 {
    if a >= b {
        a
    } else {
        b
    }
}

/// Where a refused range lets the frontier advance to. The delivery that is on record
/// must reach back to what is committed, so that no hole is jumped, and the frontier
/// goes no further than the range that was refused.
pub open spec fn backlog_target(
    proven: Option<(u64, u64)>,
    committed: u64,
    refused_end: u64,
) -> Option<u64> {
    match proven {
        None => None,
        Some((start, end)) => {
            let target = least(end, greatest(refused_end, committed));
            if start <= committed && committed < end && committed < target {
                Some(target)
            } else {
                None
            }
        },
    }
}

/// Where a refused range lets the frontier advance to, if it may advance.
pub fn commit_proven_soft_terminal_backlog(
    proven: Option<(u64, u64)>,
    committed: u64,
    refused_range: (u64, u64),
) -> (r: Option<u64>)
    ensures
        r == backlog_target(proven, committed, refused_range.1),
{
    let (proven_start, proven_end): (u64, u64) = match proven {
        Some(range) => range,
        None => return None,
    };
    if proven_start > committed || proven_end <= committed {
        return None;
    }
    let refused_end: u64 = refused_range.1;
    let cap: u64 = if refused_end >= committed {
        refused_end
    } else {
        committed
    };
    let target: u64 = if proven_end <= cap {
        proven_end
    } else {
        cap
    };
    if target <= committed {
        return None;
    }
    Some(target)
}

/// Every byte that a catch-up newly claims lies in the range that is on record as
/// delivered, and in front of the end of the refused range. What was committed and
/// what is on record leave no hole between them.
pub proof fn law_catch_up_claims_only_proven_bytes(
    proven: Option<(u64, u64)>,
    committed: u64,
    refused_end: u64,
)
    ensures
        backlog_target(proven, committed, refused_end) matches Some(target) ==> {
            &&& proven matches Some((start, end))
            &&& committed < target
            &&& target <= refused_end
            &&& forall|at: u64| #![trigger least(at, end)]
                committed <= at < target ==> start <= at < end
        },
{
}

/// A record that starts behind what is committed lets nothing advance.
pub proof fn law_hole_pins_the_frontier(
    start: u64,
    end: u64,
    committed: u64,
    refused_end: u64,
)
    requires
        committed < start,
    ensures
        backlog_target(Some((start, end)), committed, refused_end) is None,
{
}

} // verus!
