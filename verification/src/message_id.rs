//! Message ids that stand for messages that were never sent.

use vstd::prelude::*;

verus! {

/// From where on ids are synthetic. The ids that Discord gives do not reach it.
pub const SYNTHETIC_HEADLESS_MESSAGE_ID_FLOOR: u64 = 8_000_000_000_000_000_000;

/// Whether an id is synthetic.
pub fn is_synthetic_headless_message_id_raw(value: u64) -> (r: bool)
    ensures
        r == (value >= SYNTHETIC_HEADLESS_MESSAGE_ID_FLOOR),
{
    value >= SYNTHETIC_HEADLESS_MESSAGE_ID_FLOOR
}

} // verus!
