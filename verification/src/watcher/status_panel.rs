//! Creating and refreshing the status panel of a running turn.

use vstd::prelude::*;

use crate::text;

verus! {

/// A panel that was prepared to be sent.
#[derive(Debug, PartialEq, Eq)]
pub struct PreparedStatusPanelTransition {
    pub send_now: bool,
    pub content: String,
}

/// Whether a panel is sent: one that was prepared says so itself.
pub fn status_panel_send_is_due(prepared: Option<&PreparedStatusPanelTransition>) -> (r: bool)
    ensures
        r == (prepared matches Some(prepared) ==> prepared.send_now),
{
    match prepared {
        Some(prepared) => prepared.send_now,
        None => true,
    }
}

/// What is sent: what was prepared, or else the fallback.
pub fn status_panel_send_payload<'a>(
    prepared: Option<&'a PreparedStatusPanelTransition>,
    fallback: &'a str,
) -> (r: &'a str)
    ensures
        r@ == match prepared {
            Some(prepared) => prepared.content@,
            None => fallback@,
        },
{
    match prepared {
        Some(prepared) => prepared.content.as_str(),
        None => fallback,
    }
}

/// What is known of a failed send: what was recorded of a panel that was prepared.
/// `recorded` is the record of the failure, if one was to be made.
pub fn record_status_panel_send_failure<D>(recorded: Option<Result<D, String>>) -> (r: Option<D>)
    ensures
        r == match recorded {
            Some(Ok(disposition)) => Some(disposition),
            _ => None,
        },
{
    match recorded {
        Some(Ok(disposition)) => Some(disposition),
        Some(Err(_)) => None,
        None => None,
    }
}

/// What is refreshed of a running turn's panels.
#[derive(Debug, Clone, Copy, PartialEq, Eq, Structural)]
pub struct PanelRefresh {
    /// The session panel is refreshed for the turn of this message.
    pub session_panel_turn: Option<u64>,
    /// The status panel in this message is rendered.
    pub panel_message: Option<u64>,
}

/// What is refreshed of a running turn's panels. The session panel is refreshed where
/// panels are enabled, for no message where the turn is not known; the status panel
/// where it is separate and there is one.
pub fn refresh_existing_status_panel(
    panels_enabled: bool,
    separate_panel_enabled: bool,
    turn_user_msg_id: Option<u64>,
    status_panel_msg_id: Option<u64>,
) -> (r: PanelRefresh)
    ensures
        r.session_panel_turn == if panels_enabled {
            match turn_user_msg_id {
                Some(id) => Some(id),
                None => Some(0),
            }
        } else {
            None
        },
        r.panel_message == if separate_panel_enabled {
            status_panel_msg_id
        } else {
            None
        },
{
    let session_panel_turn = if panels_enabled {
        match turn_user_msg_id {
            Some(id) => Some(id),
            None => Some(0),
        }
    } else {
        None
    };
    let panel_message = if separate_panel_enabled {
        status_panel_msg_id
    } else {
        None
    };
    PanelRefresh { session_panel_turn, panel_message }
}

/// Whether the status panel is edited: not where it would show what it shows already,
/// unless what it shows was invalidated.
pub fn panel_edit_is_due(
    invalidation_epoch: Option<u64>,
    panel_text: &str,
    last_status_panel_text: &str,
) -> (r: bool)
    ensures
        r == (invalidation_epoch is Some || panel_text@ != last_status_panel_text@),
{
    invalidation_epoch.is_some() || !text::same_text(panel_text, last_status_panel_text)
}

/// Takes an edit of the status panel into what is held of it: what the panel shows
/// now, and the invalidation that the edit has answered.
pub fn after_panel_edit(
    edited: bool,
    invalidation_epoch: Option<u64>,
    panel_text: String,
    last_status_panel_text: &mut String,
) -> (answered: Option<u64>)
    ensures
        final(last_status_panel_text)@ == if edited {
            panel_text@
        } else {
            old(last_status_panel_text)@
        },
        answered == if edited {
            invalidation_epoch
        } else {
            None
        },
{
    if edited {
        *last_status_panel_text = panel_text;
        invalidation_epoch
    } else {
        None
    }
}

} // verus!
