//! Recovering from a provider session that could not be resumed.
//!
//! The stale session is forgotten everywhere, the turn's own tmux session is killed
//! so that the next attempt starts afresh, and the user's message is tried again.

use vstd::prelude::*;

use crate::text;
use crate::watcher::session::watcher_session_is_main_orchestration;
use crate::watcher::session;

verus! {

/// What the recovery knows.
#[derive(Debug, PartialEq, Eq)]
pub struct StaleResumeExitContext {
    pub hostname: String,
    pub tmux_session_name: String,
    /// The channel name that the session name was read to hold.
    pub channel_segment: Option<String>,
    pub channel_id: u64,
    pub placeholder_msg_id: Option<u64>,
}

/// The recorded turn, as far as a retry needs it.
#[derive(Debug, PartialEq, Eq)]
pub struct RetryRow {
    pub rebind_origin: bool,
    pub user_msg_id: u64,
    pub user_text: String,
}

/// What becomes of the retry.
#[derive(Debug, PartialEq, Eq)]
pub enum RetryDecision {
    /// Try the user's message again.
    Queue { user_msg_id: u64, user_text: String },
    /// The recorded turn has no message of a user.
    SkipNoUserMessage,
    /// No turn is recorded.
    SkipMissing,
}

/// A step of the recovery.
#[derive(Debug, PartialEq, Eq)]
pub enum StaleResumeStep {
    /// Forget the retry state that an overload left behind, and take the provider
    /// session out of the channel.
    TakeProviderSession,
    /// Clear the provider session that is stored under `session_key`.
    ClearProviderSession { session_key: String, stale_session_id: Option<String> },
    /// Clear a session identifier that went stale.
    ClearStaleSessionId(String),
    /// Kill the tmux session, or leave it because it is the main one.
    KillSession { blocked: bool },
    /// Tell the channel that the session is being recovered.
    EditPlaceholder(u64),
    /// Load the recorded turn.
    LoadInflight,
    /// Try again, or not.
    Retry(RetryDecision),
    Finished,
}

/// The text that the placeholder shows during the recovery.
pub fn recovery_notice() -> (r: &'static str)
    ensures
        r@ == "↻ 세션 복구 중... 잠시 후 자동으로 이어갑니다."@,
{
    "↻ 세션 복구 중... 잠시 후 자동으로 이어갑니다."
}

/// Why the session is killed.
pub fn stale_resume_kill_detail() -> (r: &'static str)
    ensures
        r@ == "stale session resume detected — forcing fresh session before auto-retry"@,
{
    "stale session resume detected — forcing fresh session before auto-retry"
}

/// The reason under which the kill is logged and audited.
pub fn stale_resume_kill_reason() -> (r: &'static str)
    ensures
        r@ == "stale_resume_retry"@,
{
    "stale_resume_retry"
}

/// The first step: without a stale session there is none.
pub fn handle_stale_resume_exit(stale_resume_detected: bool) -> (r: StaleResumeStep)
    ensures
        stale_resume_detected ==> r is TakeProviderSession,
        !stale_resume_detected ==> r is Finished,
{
    if stale_resume_detected {
        StaleResumeStep::TakeProviderSession
    } else {
        StaleResumeStep::Finished
    }
}

/// The key under which the session's provider session is stored.
pub open spec fn provider_session_key(context: StaleResumeExitContext) -> Seq<char> {
    context.hostname@ + ":"@ + context.tmux_session_name@
}

/// The step after the provider session was taken out of the channel: clear what is
/// stored for this host's tmux session.
pub fn after_session_taken(
    context: &StaleResumeExitContext,
    stale_session_id: Option<String>,
) -> (r: StaleResumeStep)
    ensures
        r matches StaleResumeStep::ClearProviderSession { session_key, stale_session_id: stale }
            && session_key@ == provider_session_key(*context) && stale == stale_session_id,
{
    let mut session_key: String = context.hostname.clone();
    session_key.append(":");
    session_key.append(context.tmux_session_name.as_str());
    StaleResumeStep::ClearProviderSession { session_key, stale_session_id }
}

/// The kill is blocked for the channel's main session, and for one whose name
/// cannot be read.
pub open spec fn kill_blocked(context: StaleResumeExitContext) -> bool {
    match context.channel_segment {
        Some(segment) => !text::has_suffix(segment@, session::thread_suffix(context.channel_id)),
        None => true,
    }
}

fn kill_step(context: &StaleResumeExitContext) -> (r: StaleResumeStep)
    ensures
        r == (StaleResumeStep::KillSession { blocked: kill_blocked(*context) }),
{
    let blocked = match &context.channel_segment {
        Some(segment) => watcher_session_is_main_orchestration(
            Some(segment.as_str()),
            context.channel_id,
        ),
        None => watcher_session_is_main_orchestration(None, context.channel_id),
    };
    StaleResumeStep::KillSession { blocked }
}

/// The step after the stored provider session was cleared: a session identifier
/// that went stale is cleared too, before the tmux session is killed.
pub fn after_provider_cleared(
    context: &StaleResumeExitContext,
    stale_session_id: Option<String>,
) -> (r: StaleResumeStep)
    ensures
        r == match stale_session_id {
            Some(id) => StaleResumeStep::ClearStaleSessionId(id),
            None => StaleResumeStep::KillSession { blocked: kill_blocked(*context) },
        },
{
    match stale_session_id {
        Some(id) => StaleResumeStep::ClearStaleSessionId(id),
        None => kill_step(context),
    }
}

/// The step after the stale session identifier was cleared.
pub fn after_stale_id_cleared(context: &StaleResumeExitContext) -> (r: StaleResumeStep)
    ensures
        r == (StaleResumeStep::KillSession { blocked: kill_blocked(*context) }),
{
    kill_step(context)
}

/// The step after the tmux session was killed or left.
pub fn after_kill(context: &StaleResumeExitContext) -> (r: StaleResumeStep)
    ensures
        r == match context.placeholder_msg_id {
            Some(id) => StaleResumeStep::EditPlaceholder(id),
            None => StaleResumeStep::LoadInflight,
        },
{
    match context.placeholder_msg_id {
        Some(id) => StaleResumeStep::EditPlaceholder(id),
        None => StaleResumeStep::LoadInflight,
    }
}

/// The step after the channel was told of the recovery, whether or not it was shown.
pub fn after_placeholder_edited() -> (r: StaleResumeStep)
    ensures
        r is LoadInflight,
{
    StaleResumeStep::LoadInflight
}

/// A recorded turn can be tried again if a user's message began it.
pub open spec fn retryable(row: RetryRow) -> bool {
    !row.rebind_origin && row.user_msg_id != 0
}

/// The step after the recorded turn was looked up, the last one: the response that
/// was read from the stale session is given up.
pub fn after_inflight_loaded(row: Option<RetryRow>, full_response: &mut String) -> (r:
    StaleResumeStep)
    ensures
        final(full_response)@ == Seq::<char>::empty(),
        r == StaleResumeStep::Retry(
            match row {
                Some(row) => if retryable(row) {
                    RetryDecision::Queue { user_msg_id: row.user_msg_id, user_text: row.user_text }
                } else {
                    RetryDecision::SkipNoUserMessage
                },
                None => RetryDecision::SkipMissing,
            },
        ),
{
    *full_response = String::new();
    match row {
        Some(row) => if row.rebind_origin || row.user_msg_id == 0 {
            StaleResumeStep::Retry(RetryDecision::SkipNoUserMessage)
        } else {
            StaleResumeStep::Retry(
                RetryDecision::Queue { user_msg_id: row.user_msg_id, user_text: row.user_text },
            )
        },
        None => StaleResumeStep::Retry(RetryDecision::SkipMissing),
    }
}

/// The step after the decision on another try was carried out.
pub fn after_retry() -> (r: StaleResumeStep)
    ensures
        r is Finished,
{
    StaleResumeStep::Finished
}

} // verus!
