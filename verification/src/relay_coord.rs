//! How far the output of a channel's session is confirmed as delivered.

use vstd::prelude::*;

verus! {

/// What stands for a frontier that nobody has published.
pub const UNRECORDED_RELAY_OFFSET: u64 = 0xffff_ffff_ffff_ffff;

/// What keeps a reset of the frontier apart from changes that are under way.
#[derive(Debug, Clone, Copy, PartialEq, Eq)]
pub struct FrontierResetState {
    pub active_mutations: u64,
    /// How often the frontier was reset, wrapping round.
    pub incarnation: u64,
}

/// A frontier, which is read as published or as nothing: the offset that stands for
/// no frontier is never handed out.
#[derive(Debug, Clone, Copy, PartialEq, Eq)]
pub struct ConfirmedEnd {
    offset: u64,
}

impl ConfirmedEnd {
    /// The frontier, if anybody has published one.
    pub closed spec fn frontier(self) -> Option<u64> {
        published(self.offset)
    }
}

/// The frontier of a channel, and what is observed of its relay.
#[derive(Debug)]
pub struct TmuxRelayCoord {
    /// The start of the emission that is under way, or zero.
    pub relay_slot: u64,
    pub confirmed_end: ConfirmedEnd,
    pub reset_state: FrontierResetState,
    pub last_relay_ts_ms: i64,
    pub reconnect_count: u64,
    pub confirmed_end_generation_mtime_ns: i64,
}

/// What an offset says of the frontier: nothing, where it is unrecorded.
pub open spec fn published(offset: u64) -> Option<u64> {
    if offset == UNRECORDED_RELAY_OFFSET {
        None
    } else {
        Some(offset)
    }
}

/// The frontier, where one that nobody has published is taken as zero.
pub open spec fn or_zero(frontier: Option<u64>) -> u64 {
    match frontier {
        Some(offset) => offset,
        None => 0,
    }
}

/// The frontier after a delivery up to `end`, which never takes it back.
pub open spec fn advanced(frontier: Option<u64>, end: u64) -> Option<u64> {
    match frontier {
        Some(offset) => if offset < end {
            published(end)
        } else {
            frontier
        },
        None => published(end),
    }
}

/// The count after one more, wrapping round.
pub open spec fn next_incarnation(incarnation: u64) -> u64 {
    if incarnation == u64::MAX {
        0
    } else {
        (incarnation + 1) as u64
    }
}

impl TmuxRelayCoord {
    /// The frontier, if anybody has published one.
    pub open spec fn frontier(self) -> Option<u64> {
        self.confirmed_end.frontier()
    }

    /// Apart from the frontier and its resets, `self` and `other` agree.
    pub open spec fn same_observations(self, other: TmuxRelayCoord) -> bool {
        &&& self.relay_slot == other.relay_slot
        &&& self.last_relay_ts_ms == other.last_relay_ts_ms
        &&& self.reconnect_count == other.reconnect_count
        &&& self.confirmed_end_generation_mtime_ns == other.confirmed_end_generation_mtime_ns
    }

    /// A channel of which nothing is known.
    pub fn new() -> (out: Self)
        ensures
            out.frontier() is None,
            out.relay_slot == 0,
            out.reset_state == (FrontierResetState { active_mutations: 0, incarnation: 0 }),
            out.last_relay_ts_ms == 0,
            out.reconnect_count == 0,
            out.confirmed_end_generation_mtime_ns == 0,
    {
        TmuxRelayCoord {
            relay_slot: 0,
            confirmed_end: ConfirmedEnd { offset: UNRECORDED_RELAY_OFFSET },
            reset_state: FrontierResetState { active_mutations: 0, incarnation: 0 },
            last_relay_ts_ms: 0,
            reconnect_count: 0,
            confirmed_end_generation_mtime_ns: 0,
        }
    }

    /// The frontier, if anybody has published one. A frontier of zero is one that was
    /// published.
    pub fn confirmed_end_publication(&self) -> (r: Option<u64>)
        ensures
            r == self.frontier(),
            r != Some(UNRECORDED_RELAY_OFFSET),
    {
        if self.confirmed_end.offset == UNRECORDED_RELAY_OFFSET {
            None
        } else {
            Some(self.confirmed_end.offset)
        }
    }

    /// The frontier, where one that nobody has published is taken as zero.
    pub fn confirmed_end_or_zero(&self) -> (r: u64)
        ensures
            r == or_zero(self.frontier()),
            r != UNRECORDED_RELAY_OFFSET,
    {
        match self.confirmed_end_publication() {
            Some(offset) => offset,
            None => 0,
        }
    }

    /// Publishes the frontier, or advances it. Says whether it did.
    pub fn advance_confirmed_end(&mut self, committed_end_offset: u64) -> (r: bool)
        ensures
            final(self).frontier() == advanced(old(self).frontier(), committed_end_offset),
            r == match old(self).frontier() {
                Some(offset) => offset < committed_end_offset,
                None => true,
            },
            final(self).reset_state == old(self).reset_state,
            final(self).same_observations(*old(self)),
    {
        let current: u64 = self.confirmed_end.offset;
        if current == UNRECORDED_RELAY_OFFSET || current < committed_end_offset {
            self.confirmed_end = ConfirmedEnd { offset: committed_end_offset };
            true
        } else {
            false
        }
    }

    /// Takes the frontier back from `expected_offset` to `new_offset`, if it is there
    /// and no change is under way. Says whether it did.
    pub fn reset_confirmed_frontier(&mut self, expected_offset: u64, new_offset: u64) -> (r: bool)
        requires
            expected_offset != UNRECORDED_RELAY_OFFSET,
            new_offset < expected_offset,
        ensures
            r == (old(self).reset_state.active_mutations == 0 && old(self).frontier() == Some(
                expected_offset,
            )),
            final(self).frontier() == if r {
                Some(new_offset)
            } else {
                old(self).frontier()
            },
            final(self).reset_state.active_mutations == old(self).reset_state.active_mutations,
            final(self).reset_state.incarnation == if r {
                next_incarnation(old(self).reset_state.incarnation)
            } else {
                old(self).reset_state.incarnation
            },
            final(self).same_observations(*old(self)),
    {
        if self.reset_state.active_mutations != 0 {
            return false;
        }
        let reset = self.confirmed_end.offset == expected_offset;
        if reset {
            self.confirmed_end = ConfirmedEnd { offset: new_offset };
            let incarnation: u64 = self.reset_state.incarnation;
            self.reset_state = FrontierResetState {
                active_mutations: 0,
                incarnation: incarnation.wrapping_add(1),
            };
        }
        reset
    }

    /// Notes when the relay was last seen to make progress.
    pub fn note_relay_progress_heartbeat(&mut self, now_ms: i64)
        ensures
            final(self).last_relay_ts_ms == now_ms,
            final(self).frontier() == old(self).frontier(),
            final(self).reset_state == old(self).reset_state,
            final(self).relay_slot == old(self).relay_slot,
            final(self).reconnect_count == old(self).reconnect_count,
            final(self).confirmed_end_generation_mtime_ns == old(
                self,
            ).confirmed_end_generation_mtime_ns,
    {
        self.last_relay_ts_ms = now_ms;
    }

    /// Publishes a frontier as it is given.
    pub fn publish_confirmed_end_for_test(&mut self, offset: u64)
        requires
            offset != UNRECORDED_RELAY_OFFSET,
        ensures
            final(self).frontier() == Some(offset),
            final(self).reset_state == old(self).reset_state,
            final(self).same_observations(*old(self)),
    {
        self.confirmed_end = ConfirmedEnd { offset };
    }
}

/// The end of a delivery, other than the one that stands for no frontier, takes the
/// frontier to the greater of the two: it never goes back, and the order of two
/// deliveries does not matter.
pub proof fn law_frontier_is_monotone(frontier: Option<u64>, first: u64, second: u64)
    requires
        frontier != Some(UNRECORDED_RELAY_OFFSET),
        first != UNRECORDED_RELAY_OFFSET,
        second != UNRECORDED_RELAY_OFFSET,
    ensures
        advanced(frontier, first) is Some,
        or_zero(advanced(frontier, first)) >= or_zero(frontier),
        or_zero(advanced(frontier, first)) >= first,
        or_zero(advanced(frontier, first)) == or_zero(frontier) || or_zero(
            advanced(frontier, first),
        ) == first,
        advanced(advanced(frontier, first), first) == advanced(frontier, first),
        advanced(advanced(frontier, first), second) == advanced(
            advanced(frontier, second),
            first,
        ),
{
}

} // verus!
