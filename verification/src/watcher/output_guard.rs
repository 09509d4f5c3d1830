//! Guarding what a rollover of the streamed answer freezes in a message.

use vstd::prelude::*;

verus! {

/// What the inspection of provider output says of it.
#[derive(Debug, Clone, Copy, PartialEq, Eq)]
pub enum ProviderOutputVerdict<'a> {
    Clean,
    /// The output may turn out to be control data.
    Hold,
    /// The output holds control data; the body is safe to show instead.
    Blocked { safe_body: &'a str },
}

/// What becomes of a chunk that is about to be frozen.
#[derive(Debug, Clone, Copy, PartialEq, Eq)]
pub enum WatcherRolloverAction<'a> {
    SendRaw(&'a str),
    Hold,
    SendSafe(&'a str),
}

/// What becomes of a chunk that is about to be frozen: it is shown as it is only if
/// it is clean.
pub fn watcher_rollover_action<'a>(
    verdict: ProviderOutputVerdict<'a>,
    frozen_chunk: &'a str,
) -> (r: WatcherRolloverAction<'a>)
    ensures
        r == match verdict {
            ProviderOutputVerdict::Clean => WatcherRolloverAction::SendRaw(frozen_chunk),
            ProviderOutputVerdict::Hold => WatcherRolloverAction::Hold,
            ProviderOutputVerdict::Blocked { safe_body } => WatcherRolloverAction::SendSafe(
                safe_body,
            ),
        },
{
    match verdict {
        ProviderOutputVerdict::Clean => WatcherRolloverAction::SendRaw(frozen_chunk),
        ProviderOutputVerdict::Hold => WatcherRolloverAction::Hold,
        ProviderOutputVerdict::Blocked { safe_body } => WatcherRolloverAction::SendSafe(safe_body),
    }
}

/// Whether the rollover goes on, and what the message is edited to show instead where
/// it does not.
pub fn guard_rollover<'a>(action: WatcherRolloverAction<'a>) -> (r: (bool, Option<&'a str>))
    ensures
        r.0 == (action is SendRaw),
        r.1 == match action {
            WatcherRolloverAction::SendSafe(body) => Some(body),
            _ => None,
        },
{
    match action {
        WatcherRolloverAction::SendRaw(_) => (true, None),
        WatcherRolloverAction::Hold => (false, None),
        WatcherRolloverAction::SendSafe(body) => (false, Some(body)),
    }
}

} // verus!
