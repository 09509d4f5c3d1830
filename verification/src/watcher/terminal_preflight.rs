//! What the watcher settles before it relays the end of a turn: which messages of a
//! recorded turn it adopts, which restored text it drops, which orphaned messages it
//! reclaims, and which stale message numbers it forgets.

use vstd::prelude::*;

use crate::text;

verus! {

/// What was found out about the channel before the relay.
#[derive(Debug, Clone, Copy, PartialEq, Eq)]
pub struct TerminalPreflightFacts {
    pub prompt_anchor_present: bool,
    /// The generation of the lease for external input, taken in one read.
    pub external_input_lease_generation: Option<u64>,
    pub inflight_present: bool,
    pub inflight_represents_external_input: bool,
    /// The recorded turn is a newer one, past the range that is relayed.
    pub inflight_is_stale_newer_turn: bool,
    pub inflight_silent_turn: bool,
    pub recent_stop: bool,
    pub single_message_panel_footer_mode: bool,
    pub turn_is_external_input_for_session: bool,
    pub task_notification: bool,
}

/// What the watcher holds of the turn's messages.
#[derive(Debug, PartialEq, Eq)]
pub struct TerminalPreflightState {
    pub placeholder_msg_id: Option<u64>,
    pub placeholder_from_restored_inflight: bool,
    pub status_panel_msg_id: Option<u64>,
    pub full_response: String,
    pub response_sent_offset: usize,
    pub last_edit_text: String,
}

/// What the relay starts from.
#[derive(Debug, Clone, Copy, PartialEq, Eq)]
pub struct TerminalPreflightPrepared {
    pub prompt_anchor_present_before_relay: bool,
    pub external_input_lease_before_relay: bool,
    pub external_input_lease_generation_before_relay: Option<u64>,
    pub inflight_before_relay_is_stale_newer_turn: bool,
    pub has_assistant_response: bool,
    pub has_current_response: bool,
    pub recent_stop_for_output: bool,
    pub inflight_missing_before_relay: bool,
    pub inflight_silent_turn: bool,
}

/// The recorded turn's message numbers are this turn's: there is a recorded turn,
/// it is not a newer one, and where external input holds a lease the recorded turn
/// is the external input's own.
pub open spec fn adopts_recorded_messages(facts: TerminalPreflightFacts) -> bool {
    &&& facts.inflight_present
    &&& !facts.inflight_is_stale_newer_turn
    &&& facts.external_input_lease_generation is None || facts.inflight_represents_external_input
}

/// Whether the message numbers of the recorded turn are adopted.
pub fn adopt_recorded_messages(facts: &TerminalPreflightFacts) -> (r: bool)
    ensures
        r == adopts_recorded_messages(*facts),
{
    (facts.external_input_lease_generation.is_none() || facts.inflight_represents_external_input)
        && !facts.inflight_is_stale_newer_turn && facts.inflight_present
}

/// After adopting the recorded message numbers: with the panel in the footer of the
/// answer there is no panel message.
pub fn settle_adopted_panel(facts: &TerminalPreflightFacts, state: &mut TerminalPreflightState)
    ensures
        *final(state) == (TerminalPreflightState {
            status_panel_msg_id: if adopts_recorded_messages(*facts)
                && facts.single_message_panel_footer_mode {
                None
            } else {
                old(state).status_panel_msg_id
            },
            ..*old(state)
        }),
{
    if adopt_recorded_messages(facts) && facts.single_message_panel_footer_mode {
        state.status_panel_msg_id = None;
    }
}

/// The part of the restored text that is looked up among what was delivered
/// lately: what was not sent of it, if there is anything in it. `drop_seed` says
/// whether the turn was a local command without output.
pub fn seed_to_confirm<'a>(
    drop_seed: bool,
    restored_response_seed: &'a str,
    response_sent_offset: usize,
) -> (r: Option<&'a str>)
    ensures
        match r {
            Some(body) => drop_seed && after(restored_response_seed@, response_sent_offset)
                == Some(body@) && !text::is_blank(body@),
            None => !drop_seed || (after(restored_response_seed@, response_sent_offset)
                matches Some(body) ==> text::is_blank(body)),
        },
{
    if !drop_seed {
        return None;
    }
    match text::tail_from(restored_response_seed, response_sent_offset) {
        Some(body) => if text::blank(body) {
            None
        } else {
            Some(body)
        },
        None => None,
    }
}

/// What follows the first `offset` bytes of `s`.
pub open spec fn after(s: Seq<char>, offset: usize) -> Option<Seq<char>> {
    text::after_bytes(s, offset as int)
}

/// The response holds text that was not sent.
pub open spec fn has_unsent_text(response: Seq<char>, offset: usize) -> bool {
    after(response, offset) matches Some(body) && !text::is_blank(body)
}

/// The orphan that is reclaimed before the relay.
#[derive(Debug, Clone, Copy, PartialEq, Eq)]
pub struct OrphanReclaim {
    pub status_panel: bool,
    pub placeholder: bool,
}

/// The turn of an external input leaves messages behind that nobody will complete.
pub open spec fn orphaned(
    facts: TerminalPreflightFacts,
    state: TerminalPreflightState,
    reclaim_placeholder: bool,
    abandoned: bool,
) -> bool {
    &&& facts.turn_is_external_input_for_session
    &&& state.status_panel_msg_id is Some || reclaim_placeholder
    &&& (text::is_blank(state.full_response@) && !facts.task_notification) || abandoned
}

/// Which messages of an orphaned turn are reclaimed. `reclaim_placeholder` says
/// whether the placeholder shows nothing that has to stay, and `abandoned` whether
/// the external input gave the turn up.
pub fn reclaim_orphaned_messages(
    facts: &TerminalPreflightFacts,
    state: &TerminalPreflightState,
    reclaim_placeholder: bool,
    abandoned: bool,
) -> (r: OrphanReclaim)
    ensures
        r.status_panel == (orphaned(*facts, *state, reclaim_placeholder, abandoned)
            && state.status_panel_msg_id is Some),
        r.placeholder == (orphaned(*facts, *state, reclaim_placeholder, abandoned)
            && reclaim_placeholder),
{
    let has_assistant_response = !text::blank(state.full_response.as_str());
    let orphan_context = facts.turn_is_external_input_for_session && (
    state.status_panel_msg_id.is_some() || reclaim_placeholder) && ((!has_assistant_response
        && !facts.task_notification) || abandoned);
    OrphanReclaim {
        status_panel: orphan_context && state.status_panel_msg_id.is_some(),
        placeholder: orphan_context && reclaim_placeholder,
    }
}

/// Forgets message numbers that are stale, if `clear` says that they are. The panel
/// is forgotten only if its removal went through or was not needed: a panel that is
/// still visible keeps its number, so that its removal can be tried again.
pub fn clear_stale_terminal_messages(
    clear: bool,
    panel_reclaim_committed: bool,
    state: &mut TerminalPreflightState,
)
    ensures
        !clear ==> *final(state) == *old(state),
        clear ==> final(state).last_edit_text@ == Seq::<char>::empty() && *final(state) == (
        TerminalPreflightState {
            placeholder_msg_id: None,
            placeholder_from_restored_inflight: false,
            status_panel_msg_id: if panel_reclaim_committed {
                None
            } else {
                old(state).status_panel_msg_id
            },
            last_edit_text: final(state).last_edit_text,
            ..*old(state)
        }),
{
    if clear {
        state.placeholder_msg_id = None;
        if panel_reclaim_committed {
            state.status_panel_msg_id = None;
        }
        state.placeholder_from_restored_inflight = false;
        state.last_edit_text = String::new();
    }
}

/// What the relay starts from, once restored text that was already delivered has
/// been dropped from the response.
pub fn run_terminal_preflight_prepare(
    facts: &TerminalPreflightFacts,
    state: &TerminalPreflightState,
) -> (r: TerminalPreflightPrepared)
    ensures
        r == (TerminalPreflightPrepared {
            prompt_anchor_present_before_relay: facts.prompt_anchor_present,
            external_input_lease_before_relay: facts.external_input_lease_generation is Some,
            external_input_lease_generation_before_relay: facts.external_input_lease_generation,
            inflight_before_relay_is_stale_newer_turn: facts.inflight_is_stale_newer_turn,
            has_assistant_response: !text::is_blank(state.full_response@),
            has_current_response: has_unsent_text(
                state.full_response@,
                state.response_sent_offset,
            ),
            recent_stop_for_output: facts.recent_stop,
            inflight_missing_before_relay: !facts.inflight_present,
            inflight_silent_turn: facts.inflight_present && facts.inflight_silent_turn,
        }),
        r.external_input_lease_before_relay
            == (r.external_input_lease_generation_before_relay is Some),
{
    let has_assistant_response = !text::blank(state.full_response.as_str());
    let has_current_response = match text::tail_from(
        state.full_response.as_str(),
        state.response_sent_offset,
    ) {
        Some(body) => !text::blank(body),
        None => false,
    };
    TerminalPreflightPrepared {
        prompt_anchor_present_before_relay: facts.prompt_anchor_present,
        external_input_lease_before_relay: facts.external_input_lease_generation.is_some(),
        external_input_lease_generation_before_relay: facts.external_input_lease_generation,
        inflight_before_relay_is_stale_newer_turn: facts.inflight_is_stale_newer_turn,
        has_assistant_response,
        has_current_response,
        recent_stop_for_output: facts.recent_stop,
        inflight_missing_before_relay: !facts.inflight_present,
        inflight_silent_turn: facts.inflight_present && facts.inflight_silent_turn,
    }
}

/// A turn with assistant text that nobody gave up keeps its messages.
pub proof fn law_answered_turn_keeps_its_messages(
    facts: TerminalPreflightFacts,
    state: TerminalPreflightState,
    reclaim_placeholder: bool,
)
    requires
        !text::is_blank(state.full_response@),
    ensures
        !orphaned(facts, state, reclaim_placeholder, false),
{
}

/// Text that was not sent is assistant text: where there is some, the whole response
/// holds some.
pub proof fn law_unsent_text_is_assistant_text(response: Seq<char>, offset: usize)
    requires
        has_unsent_text(response, offset),
    ensures
        !text::is_blank(response),
{
    if text::is_blank(response) {
        text::lemma_blank_leaves_blank(response, offset as int);
    }
}

} // verus!
