//! What is settled around a turn: the messages that it has before its relay, the session that
//! it runs in, its markers, and what is logged of its end.

use vstd::prelude::*;

use crate::task_cards::context::TaskNotificationContext;
use crate::task_cards::identity::TaskNotificationKind;
use crate::text;
use crate::watcher::discrete_marker::{
    enqueue_suppressed_machine_trigger_marker, lists_monitor_entries, marker_target,
    MarkerSelection, RenderedMarker, SuppressedTaskNotificationMarker,
};
use crate::watcher::forced_kill::live_background_workers;
use crate::watcher::session::{
    active_pane_id, parse_tmux_pane_identity, strictly_parse_provider_and_channel_from_tmux_name,
    terminal_kill_identity_matches, watcher_session_is_main_orchestration, watcher_session_role,
    TmuxPaneIdentity, WatcherSessionRole,
};
use crate::watcher::session;
use crate::watcher::terminal_preflight::{
    adopt_recorded_messages, clear_stale_terminal_messages, reclaim_orphaned_messages,
    run_terminal_preflight_prepare, seed_to_confirm, settle_adopted_panel, OrphanReclaim,
    TerminalPreflightFacts, TerminalPreflightPrepared, TerminalPreflightState,
};

verus! {

// ---------------------------------------------------------------------------
// Before the relay
// ---------------------------------------------------------------------------
/// The messages of a recorded turn are adopted where it is this turn's row: not without a
/// row, not from a newer turn, and while external input holds a lease only from its own turn.
/// With the panel in the answer's footer there is then no panel message.
pub proof fn law_own_row_is_adopted(
    facts: TerminalPreflightFacts,
    adopts: bool,
    state: &mut TerminalPreflightState,
)
    requires
        call_ensures(adopt_recorded_messages, (&facts,), adopts),
        call_ensures(settle_adopted_panel, (&facts, state), ()),
    ensures
        !facts.inflight_present ==> !adopts,
        facts.inflight_is_stale_newer_turn ==> !adopts,
        facts.inflight_present && !facts.inflight_is_stale_newer_turn
            && facts.external_input_lease_generation is None ==> adopts,
        facts.inflight_present && !facts.inflight_is_stale_newer_turn
            && facts.inflight_represents_external_input ==> adopts,
        facts.external_input_lease_generation is Some && !facts.inflight_represents_external_input
            ==> !adopts,
        adopts && facts.single_message_panel_footer_mode ==> final(state).status_panel_msg_id is None,
        !adopts || !facts.single_message_panel_footer_mode ==> final(state).status_panel_msg_id
            == old(state).status_panel_msg_id,
        final(state).placeholder_msg_id == old(state).placeholder_msg_id,
        final(state).full_response@ == old(state).full_response@,
        final(state).response_sent_offset == old(state).response_sent_offset,
{
}

/// Restored text is looked up only for a local command without output, and only the part
/// that was not sent, if there is anything in it.
pub proof fn law_unsent_seed_is_looked_up(
    drop_seed: bool,
    seed: &str,
    offset: usize,
    r: Option<&str>,
)
    requires
        call_ensures(seed_to_confirm, (drop_seed, seed, offset), r),
    ensures
        !drop_seed ==> r is None,
        drop_seed ==> (text::after_bytes(seed@, offset as int) matches Some(rest) ==> (
        !text::is_blank(rest) ==> r is Some && r->0@ == rest)),
        drop_seed && text::after_bytes(seed@, offset as int) is None ==> r is None,
        r matches Some(body) ==> !text::is_blank(body@),
{
}

/// What an external input's turn leaves behind without an answer is reclaimed, the panel and
/// the placeholder each where there is one to reclaim; a turn of anybody else keeps its
/// messages, and so does one that is answered or is a task's notification, unless it was
/// given up.
pub proof fn law_orphans_are_reclaimed(
    facts: TerminalPreflightFacts,
    state: TerminalPreflightState,
    reclaim_placeholder: bool,
    abandoned: bool,
    r: OrphanReclaim,
)
    requires
        call_ensures(
            reclaim_orphaned_messages,
            (&facts, &state, reclaim_placeholder, abandoned),
            r,
        ),
    ensures
        !facts.turn_is_external_input_for_session ==> !r.status_panel && !r.placeholder,
        !abandoned && (!text::is_blank(state.full_response@) || facts.task_notification)
            ==> !r.status_panel && !r.placeholder,
        facts.turn_is_external_input_for_session && (abandoned || (text::is_blank(
            state.full_response@,
        ) && !facts.task_notification)) ==> {
            &&& r.status_panel <==> state.status_panel_msg_id is Some
            &&& r.placeholder <==> reclaim_placeholder
        },
{
}

/// Stale message numbers are forgotten, but the panel's only once its removal went through;
/// numbers that are not stale stay.
pub proof fn law_stale_messages_are_forgotten(
    clear: bool,
    removed: bool,
    state: &mut TerminalPreflightState,
)
    requires
        call_ensures(clear_stale_terminal_messages, (clear, removed, state), ()),
    ensures
        !clear ==> *final(state) == *old(state),
        clear ==> {
            &&& final(state).placeholder_msg_id is None
            &&& !final(state).placeholder_from_restored_inflight
            &&& final(state).last_edit_text@.len() == 0
            &&& removed ==> final(state).status_panel_msg_id is None
            &&& !removed ==> final(state).status_panel_msg_id == old(state).status_panel_msg_id
        },
        final(state).full_response@ == old(state).full_response@,
        final(state).response_sent_offset == old(state).response_sent_offset,
{
}

/// The relay starts from what was found: each fact under its own name, a lease where it has a
/// generation, an answer where the response holds text, and one to send where the part that
/// was not sent does.
pub proof fn law_relay_starts_from_the_facts(
    facts: TerminalPreflightFacts,
    state: TerminalPreflightState,
    r: TerminalPreflightPrepared,
)
    requires
        call_ensures(run_terminal_preflight_prepare, (&facts, &state), r),
    ensures
        r.prompt_anchor_present_before_relay == facts.prompt_anchor_present,
        r.external_input_lease_before_relay <==> facts.external_input_lease_generation is Some,
        r.external_input_lease_generation_before_relay == facts.external_input_lease_generation,
        r.inflight_before_relay_is_stale_newer_turn == facts.inflight_is_stale_newer_turn,
        r.inflight_missing_before_relay <==> !facts.inflight_present,
        r.inflight_silent_turn <==> facts.inflight_present && facts.inflight_silent_turn,
        r.recent_stop_for_output == facts.recent_stop,
        r.has_assistant_response <==> !text::is_blank(state.full_response@),
        text::after_bytes(state.full_response@, state.response_sent_offset as int) matches Some(rest)
            ==> (r.has_current_response <==> !text::is_blank(rest)),
        text::after_bytes(state.full_response@, state.response_sent_offset as int) is None
            ==> !r.has_current_response,
        r.has_current_response ==> r.has_assistant_response,
{
    if r.has_current_response {
        crate::watcher::terminal_preflight::law_unsent_text_is_assistant_text(
            state.full_response@,
            state.response_sent_offset,
        );
    }
}

// ---------------------------------------------------------------------------
// The session
// ---------------------------------------------------------------------------
/// A session's name is read back: a known provider and a channel make up the name, and where
/// several providers fit, the longest does. A name that no known provider fits is not read.
pub proof fn law_session_name_is_read_back(
    name: &str,
    env_suffix: &str,
    providers: Vec<String>,
    provider: Seq<char>,
    channel: Seq<char>,
    r: Option<(String, String)>,
)
    requires
        call_ensures(
            strictly_parse_provider_and_channel_from_tmux_name,
            (name, env_suffix, &providers),
            r,
        ),
    ensures
        text::texts(providers@).contains(provider) && channel.len() > 0 && name@ == "AgentDesk-"@
            + provider + "-"@ + channel + env_suffix@ ==> {
            &&& r matches Some((read_provider, read_channel))
            &&& read_provider@.len() >= provider.len()
            &&& read_provider@ == provider ==> read_channel@ == channel
        },
        r matches Some((read_provider, read_channel)) ==> {
            &&& text::texts(providers@).contains(read_provider@)
            &&& read_channel@.len() > 0
            &&& name@ == "AgentDesk-"@ + read_provider@ + "-"@ + read_channel@ + env_suffix@
        },
{
    if text::texts(providers@).contains(provider) && channel.len() > 0 && name@ == "AgentDesk-"@
        + provider + "-"@ + channel + env_suffix@ {
        assert(session::names_session(name@, env_suffix@, provider, channel));
        let pair = r->0;
        if r is Some && pair.0@ == provider {
            let head = "AgentDesk-"@ + provider + "-"@;
            let read = pair.1@;
            assert(session::names_session(name@, env_suffix@, pair.0@, read));
            assert(name@ == head + read + env_suffix@);
            assert(name@ == head + channel + env_suffix@);
            assert(read =~= name@.subrange(
                head.len() as int,
                name@.len() - env_suffix@.len(),
            ));
            assert(channel =~= name@.subrange(
                head.len() as int,
                name@.len() - env_suffix@.len(),
            ));
        }
    }
}

/// The session of the watcher's own thread may be disposed of: its name is the watcher's
/// provider, a channel and the mark of this very thread, once.
pub proof fn law_own_thread_is_disposable(
    name: &str,
    env_suffix: &str,
    providers: Vec<String>,
    provider: &str,
    channel_id: u64,
    front: Seq<char>,
    r: WatcherSessionRole,
)
    requires
        call_ensures(
            watcher_session_role,
            (name, env_suffix, &providers, provider, channel_id),
            r,
        ),
        text::texts(providers@).contains(provider@),
        front.len() > 0,
        !text::has_suffix(front, "-t"@),
        name@ == "AgentDesk-"@ + provider@ + "-"@ + (front + ("-t"@ + text::decimal(
            channel_id as nat,
        ))) + env_suffix@,
        forall|other: Seq<char>, rest: Seq<char>|
            text::texts(providers@).contains(other) && rest.len() > 0 && name@ == #[trigger] (
            "AgentDesk-"@ + other + "-"@ + rest) + env_suffix@ ==> other.len() <= provider@.len(),
    ensures
        r is DisposableCurrentThread,
{
    let mark = "-t"@ + text::decimal(channel_id as nat);
    let channel = front + mark;
    assert(session::names_session(name@, env_suffix@, provider@, channel));
    assert forall|other: Seq<char>, rest: Seq<char>|
        text::texts(providers@).contains(other) && #[trigger] session::names_session(
            name@,
            env_suffix@,
            other,
            rest,
        ) implies other.len() <= provider@.len() by {
        assert(name@ == ("AgentDesk-"@ + other + "-"@ + rest) + env_suffix@);
    }
    assert(session::parses_to(
        name@,
        env_suffix@,
        text::texts(providers@),
        provider@,
        channel,
    ));
    assert(channel.skip(channel.len() - mark.len()) =~= mark);
    assert(channel.take(channel.len() - mark.len()) =~= front);
}

/// Whatever may be disposed of is the session of the watcher's provider whose name ends with
/// the mark of its thread; every other session is protected.
pub proof fn law_other_sessions_are_protected(
    name: &str,
    env_suffix: &str,
    providers: Vec<String>,
    provider: &str,
    channel_id: u64,
    r: WatcherSessionRole,
)
    requires
        call_ensures(
            watcher_session_role,
            (name, env_suffix, &providers, provider, channel_id),
            r,
        ),
    ensures
        r is DisposableCurrentThread ==> text::texts(providers@).contains(provider@) && exists|
            front: Seq<char>,
        |
            front.len() > 0 && !text::has_suffix(front, "-t"@) && name@ == "AgentDesk-"@ + provider@
                + "-"@ + #[trigger] (front + ("-t"@ + text::decimal(channel_id as nat)))
                + env_suffix@,
{
    if r is DisposableCurrentThread {
        let mark = "-t"@ + text::decimal(channel_id as nat);
        let channel = choose|channel: Seq<char>| #[trigger]
            session::parses_to(name@, env_suffix@, text::texts(providers@), provider@, channel)
                && session::is_thread_channel(channel, channel_id);
        let front = channel.take(channel.len() - mark.len());
        assert(session::thread_suffix(channel_id) == mark);
        assert(front + mark =~= channel);
        assert(name@ == "AgentDesk-"@ + provider@ + "-"@ + (front + mark) + env_suffix@);
    }
}

/// The main session of a channel is any that does not end with the mark of its thread, or
/// whose name could not be read.
pub proof fn law_main_session_has_no_mark(segment: Option<&str>, channel_id: u64, r: bool)
    requires
        call_ensures(watcher_session_is_main_orchestration, (segment, channel_id), r),
    ensures
        segment is None ==> r,
        segment matches Some(name) ==> (r <==> !text::has_suffix(
            name@,
            "-t"@ + text::decimal(channel_id as nat),
        )),
{
}

/// What tmux prints of a pane is read field by field; a field too many or too few, an empty
/// name, and a process number that is none, is refused.
pub proof fn law_pane_is_read_field_by_field(
    value: &str,
    session_id: Seq<char>,
    pane_id: Seq<char>,
    pid: Seq<char>,
    number: nat,
    r: Option<TmuxPaneIdentity>,
)
    requires
        call_ensures(parse_tmux_pane_identity, (value,), r),
        text::split_on(text::trimmed(value@), '\t') == seq![session_id, pane_id, pid],
    ensures
        session_id.len() > 0 && pane_id.len() > 0 && text::parsed_unsigned(pid, u32::MAX as nat)
            == Some(number) && number > 0 ==> (r matches Some(pane) && pane.session_id@ == session_id
            && pane.pane_id@ == pane_id && pane.pane_pid == number),
        session_id.len() == 0 || pane_id.len() == 0 ==> r is None,
        text::parsed_unsigned(pid, u32::MAX as nat) is None ==> r is None,
        text::parsed_unsigned(pid, u32::MAX as nat) == Some(0nat) ==> r is None,
{
}

/// With more or fewer than three fields there is no pane. The pane that tmux names is its
/// answer without the white space around it.
pub proof fn law_pane_has_three_fields(
    value: &str,
    r: Option<TmuxPaneIdentity>,
    answer: &str,
    active: Option<String>,
)
    requires
        call_ensures(parse_tmux_pane_identity, (value,), r),
        call_ensures(active_pane_id, (answer,), active),
    ensures
        text::split_on(text::trimmed(value@), '\t').len() != 3 ==> r is None,
        text::is_blank(answer@) <==> active is None,
        active matches Some(pane) ==> pane@ == text::trimmed(answer@),
{
}

/// A pane is the authorized one only where session, pane and process all agree.
pub proof fn law_pane_agrees_in_all_parts(
    authorized: TmuxPaneIdentity,
    current: Option<&TmuxPaneIdentity>,
    r: bool,
)
    requires
        call_ensures(terminal_kill_identity_matches, (&authorized, current), r),
    ensures
        current is None ==> !r,
        current matches Some(pane) ==> (r <==> pane.session_id@ == authorized.session_id@
            && pane.pane_id@ == authorized.pane_id@ && pane.pane_pid == authorized.pane_pid),
{
}

// ---------------------------------------------------------------------------
// Markers
// ---------------------------------------------------------------------------
/// A monitor turn always has a marker, under the key of its event, or else of where its
/// output starts, and with the monitors' reason. A background task has one where its event and
/// its content are known, with just that content. A subagent has none.
pub proof fn law_suppressed_trigger_has_its_marker(
    marker: SuppressedTaskNotificationMarker,
    out: Option<RenderedMarker>,
)
    requires
        call_ensures(SuppressedTaskNotificationMarker::render, (&marker,), out),
    ensures
        marker.kind is Subagent ==> out is None,
        marker.kind is MonitorAutoTurn ==> {
            &&& out is Some
            &&& out->0.reason_code@ == marker.monitor_reason_code@
            &&& marker.task_notification_event_key matches Some(key) ==> out->0.session_key@
                == "monitor_auto_turn:ch:"@ + text::decimal(marker.channel_id as nat) + ":event:"@
                + key@
            &&& marker.task_notification_event_key is None ==> out->0.session_key@
                == "monitor_auto_turn:ch:"@ + text::decimal(marker.channel_id as nat) + ":off:"@
                + text::decimal(marker.data_start_offset as nat)
        },
        marker.kind is Background ==> {
            &&& out is Some <==> marker.task_notification_event_key is Some
                && marker.background_content is Some
            &&& out is Some ==> out->0.content@ == marker.background_content->0@
                && out->0.reason_code@ == "lifecycle.background_task_complete"@
                && out->0.session_key@ == "footer_background:ch:"@ + text::decimal(
                marker.channel_id as nat,
            ) + ":"@ + marker.task_notification_event_key->0@
        },
{
}

/// The marker of a monitor turn tells how often it was handled, which monitors come next, if
/// any, and what it is about: the session's channel, or else the session.
pub proof fn law_monitor_marker_tells_its_monitors(
    marker: SuppressedTaskNotificationMarker,
    out: Option<RenderedMarker>,
)
    requires
        call_ensures(SuppressedTaskNotificationMarker::render, (&marker,), out),
        marker.kind is MonitorAutoTurn,
    ensures
        ({
            let about = if marker.session_channel_name is Some && !text::is_blank(
                marker.session_channel_name->0@,
            ) {
                marker.session_channel_name->0@
            } else {
                marker.tmux_session_name@
            };
            let count = text::decimal(marker.event_count as nat);
            &&& marker.monitor_entry_keys@.len() == 0 ==> out->0.content@ == "🔔 Monitor "@ + count
                + "회 처리 · (등록된 모니터 없음)"@ + " · 대상: "@ + about
            &&& marker.monitor_entry_keys@.len() > 0 ==> out->0.content@ == "🔔 Monitor "@ + count
                + "회 처리 · 다음 모니터: {"@ + text::joined(
                text::texts(marker.monitor_entry_keys@),
                ", "@,
            ) + "}"@ + " · 대상: "@ + about
        }),
{
}

/// A monitor turn and a background task select a marker, a subagent and an unknown trigger do
/// not; the marker is of the notification's event, and shows the task where that is one in
/// the background. Only for monitor turns are the monitors listed. Markers go to their channel.
pub proof fn law_marker_is_selected_by_its_kind(
    kind: Option<TaskNotificationKind>,
    context: Option<&TaskNotificationContext>,
    r: Option<MarkerSelection>,
    lists: bool,
    channel_id: u64,
    target: String,
)
    requires
        call_ensures(enqueue_suppressed_machine_trigger_marker, (kind, context), r),
        call_ensures(lists_monitor_entries, (kind,), lists),
        call_ensures(marker_target, (channel_id,), target),
    ensures
        kind is None ==> r is None && !lists,
        kind == Some(TaskNotificationKind::Subagent) ==> r is None && !lists,
        kind == Some(TaskNotificationKind::MonitorAutoTurn) ==> r is Some && lists,
        kind == Some(TaskNotificationKind::Background) ==> r is Some && !lists,
        r matches Some(selection) ==> {
            &&& kind == Some(selection.kind)
            &&& context matches Some(held) ==> selection.task_notification_event_key is Some
                && selection.task_notification_event_key->0@ == held.event_key@
            &&& context is None ==> selection.task_notification_event_key is None
                && !selection.background
            &&& context matches Some(held) ==> (selection.background <==> held.kind@ != "subagent"@
                && held.kind@ != "monitor_auto_turn"@)
        },
        target@ == "channel:"@ + text::decimal(channel_id as nat),
{
}

// ---------------------------------------------------------------------------
// The log of a kill
// ---------------------------------------------------------------------------
/// Without live events no worker is logged, and never more than thirty-two; each that is
/// logged stands on a line of the block, without the white space around it, and is not empty.
pub proof fn law_logged_workers_stand_in_the_block(block: Option<&str>, out: Vec<String>, i: int)
    requires
        call_ensures(live_background_workers, (block,), out),
        0 <= i < out@.len(),
    ensures
        block is Some,
        out@.len() <= 32,
        out@[i]@.len() > 0,
        exists|k: int|
            0 <= k < text::split_on(block->0@, '\n').len() && out@[i]@ == text::trimmed(
                #[trigger] text::split_on(block->0@, '\n')[k],
            ),
{
    assert(text::texts(out@).len() == out@.len());
    assert(text::texts(out@)[i] == out@[i]@);
    if block is None {
        assert(text::texts(out@) == crate::watcher::forced_kill::workers_of(None));
    }
    assert(text::texts(out@) == crate::watcher::forced_kill::workers_of(Some(block->0@)));
    let lines = text::split_on(block->0@, '\n');
    lemma_filled_lines(lines);
    let all = crate::watcher::forced_kill::filled_lines(lines);
    assert(out@[i]@ == all[i]);
}

proof fn lemma_filled_lines(lines: Seq<Seq<char>>)
    ensures
        ({
            let kept = crate::watcher::forced_kill::filled_lines(lines);
            forall|i: int|
                0 <= i < kept.len() ==> (#[trigger] kept[i]).len() > 0 && exists|k: int|
                    0 <= k < lines.len() && kept[i] == text::trimmed(#[trigger] lines[k])
        }),
    decreases lines.len(),
{
    if lines.len() > 0 {
        let kept = crate::watcher::forced_kill::filled_lines(lines);
        let before = crate::watcher::forced_kill::filled_lines(lines.drop_last());
        lemma_filled_lines(lines.drop_last());
        assert forall|i: int| 0 <= i < kept.len() implies (#[trigger] kept[i]).len() > 0 && exists|
            k: int,
        |
            0 <= k < lines.len() && kept[i] == text::trimmed(#[trigger] lines[k]) by {
            if i < before.len() {
                assert(kept[i] == before[i]);
                let k = choose|k: int|
                    0 <= k < lines.drop_last().len() && before[i] == text::trimmed(
                        #[trigger] lines.drop_last()[k],
                    );
                assert(lines[k] == lines.drop_last()[k]);
            } else {
                assert(kept[i] == text::trimmed(lines[lines.len() - 1]));
            }
        }
    }
}

/// Every line of the block with anything in it is logged, as long as there are no more than
/// thirty-two.
pub proof fn law_every_worker_is_logged(block: &str, out: Vec<String>, k: int)
    requires
        call_ensures(live_background_workers, (Some(block),), out),
        text::split_on(block@, '\n').len() <= 32,
        0 <= k < text::split_on(block@, '\n').len(),
        !text::is_blank(text::split_on(block@, '\n')[k]),
    ensures
        exists|i: int|
            0 <= i < out@.len() && (#[trigger] out@[i])@ == text::trimmed(
                text::split_on(block@, '\n')[k],
            ),
{
    let lines = text::split_on(block@, '\n');
    let all = crate::watcher::forced_kill::filled_lines(lines);
    lemma_filled_line_is_kept(lines, k);
    let i = choose|i: int| 0 <= i < all.len() && #[trigger] all[i] == text::trimmed(lines[k]);
    assert(text::texts(out@) =~= all);
    assert(text::texts(out@)[i] == out@[i]@);
}

proof fn lemma_filled_line_is_kept(lines: Seq<Seq<char>>, k: int)
    requires
        0 <= k < lines.len(),
        text::trimmed(lines[k]).len() > 0,
    ensures
        ({
            let kept = crate::watcher::forced_kill::filled_lines(lines);
            &&& kept.len() <= lines.len()
            &&& exists|i: int| 0 <= i < kept.len() && #[trigger] kept[i] == text::trimmed(lines[k])
        }),
    decreases lines.len(),
{
    let kept = crate::watcher::forced_kill::filled_lines(lines);
    let before = crate::watcher::forced_kill::filled_lines(lines.drop_last());
    lemma_filled_len(lines.drop_last());
    if k == lines.len() - 1 {
        assert(kept[before.len() as int] == text::trimmed(lines[k]));
    } else {
        assert(lines.drop_last()[k] == lines[k]);
        lemma_filled_line_is_kept(lines.drop_last(), k);
        let i = choose|i: int| 0 <= i < before.len() && #[trigger] before[i] == text::trimmed(lines[k]);
        assert(kept[i] == before[i]);
    }
}

proof fn lemma_filled_len(lines: Seq<Seq<char>>)
    ensures
        crate::watcher::forced_kill::filled_lines(lines).len() <= lines.len(),
    decreases lines.len(),
{
    if lines.len() > 0 {
        lemma_filled_len(lines.drop_last());
    }
}

} // verus!
