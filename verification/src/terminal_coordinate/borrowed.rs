//! Coordinates that borrow what they are made from, and may lack parts of it.

use vstd::prelude::*;

verus! {

/// Where a turn's output ends. It is never zero.
#[derive(Clone, Copy, Debug, PartialEq, Eq, Hash, Structural)]
pub struct CanonicalC(u64);

impl CanonicalC {
    pub closed spec fn value(self) -> u64 {
        self.0
    }

    pub fn new(value: u64) -> (r: Option<Self>)
        ensures
            r is Some <==> value != 0,
            r matches Some(c) ==> c.value() == value,
    {
        if value == 0 {
            None
        } else {
            Some(CanonicalC(value))
        }
    }

    pub fn get(self) -> (r: u64)
        ensures
            r == self.value(),
    {
        self.0
    }
}

/// Where a turn's output lies. It is observed only: nothing is decided by it.
#[derive(Clone, Copy, Debug, PartialEq, Eq, Hash, Structural)]
pub struct SourceRange {
    start: u64,
    end: u64,
}

impl SourceRange {
    pub closed spec fn bounds(self) -> (u64, u64) {
        (self.start, self.end)
    }

    pub fn new(start: u64, end: u64) -> (r: Option<Self>)
        ensures
            r is Some <==> start < end,
            r matches Some(range) ==> range.bounds() == (start, end),
    {
        if start < end {
            Some(SourceRange { start, end })
        } else {
            None
        }
    }

    pub fn start(self) -> (r: u64)
        ensures
            r == self.bounds().0,
    {
        self.start
    }

    pub fn end(self) -> (r: u64)
        ensures
            r == self.bounds().1,
    {
        self.end
    }
}

/// Which part of the program delivered the terminal.
#[derive(Clone, Copy, Debug, PartialEq, Eq, Hash, Structural)]
pub enum RouteFamily {
    Watcher,
    Bridge,
    SessionSink,
}

/// Which turn it is: the one of a message, or one from outside, which is told apart
/// by where it starts.
#[allow(inconsistent_fields)]
#[derive(Clone, Copy, Debug, PartialEq, Eq, Hash)]
pub enum TurnIdentity<'a> {
    Message { user_message_id: u64, started_at: &'a str, start_offset: Option<u64> },
    External { started_at: &'a str, start_offset: u64 },
}

/// A coordinate that was not checked.
#[derive(Clone, Copy, Debug, PartialEq, Eq)]
pub struct TerminalCoordinateCandidate<'a> {
    pub canonical_c: Option<u64>,
    pub source_range: Option<(u64, u64)>,
    pub reset_identity: Option<&'a str>,
    pub turn_user_message_id: Option<u64>,
    pub turn_started_at: Option<&'a str>,
    pub turn_start_offset: Option<u64>,
    pub route_family: RouteFamily,
}

impl<'a> TerminalCoordinateCandidate<'a> {
    pub fn new(
        canonical_c: Option<u64>,
        source_range: Option<(u64, u64)>,
        reset_identity: Option<&'a str>,
        turn_user_message_id: Option<u64>,
        turn_started_at: Option<&'a str>,
        turn_start_offset: Option<u64>,
        route_family: RouteFamily,
    ) -> (out: Self)
        ensures
            out == (TerminalCoordinateCandidate {
                canonical_c,
                source_range,
                reset_identity,
                turn_user_message_id,
                turn_started_at,
                turn_start_offset,
                route_family,
            }),
    {
        TerminalCoordinateCandidate {
            canonical_c,
            source_range,
            reset_identity,
            turn_user_message_id,
            turn_started_at,
            turn_start_offset,
            route_family,
        }
    }
}

/// A coordinate that was checked.
#[derive(Clone, Copy, Debug, PartialEq, Eq, Hash)]
pub struct TerminalCoordinate<'a> {
    canonical_c: CanonicalC,
    source_range: Option<SourceRange>,
    reset_identity: &'a str,
    turn_identity: TurnIdentity<'a>,
    route_family: RouteFamily,
}

/// A coordinate.
pub struct CoordinateView<'a> {
    pub canonical_c: u64,
    pub source_range: Option<(u64, u64)>,
    pub reset_identity: &'a str,
    pub turn_identity: TurnIdentity<'a>,
    pub route_family: RouteFamily,
}

/// The bounds of an optional range.
pub open spec fn range_bounds(range: Option<SourceRange>) -> Option<(u64, u64)> {
    match range {
        Some(range) => Some(range.bounds()),
        None => None,
    }
}

impl<'a> View for TerminalCoordinate<'a> {
    type V = CoordinateView<'a>;

    closed spec fn view(&self) -> CoordinateView<'a> {
        CoordinateView {
            canonical_c: self.canonical_c.value(),
            source_range: range_bounds(self.source_range),
            reset_identity: self.reset_identity,
            turn_identity: self.turn_identity,
            route_family: self.route_family,
        }
    }
}

impl<'a> TerminalCoordinate<'a> {
    pub fn canonical_c(self) -> (r: CanonicalC)
        ensures
            r.value() == self@.canonical_c,
    {
        self.canonical_c
    }

    pub fn source_range(self) -> (r: Option<SourceRange>)
        ensures
            range_bounds(r) == self@.source_range,
    {
        self.source_range
    }

    /// Where the output starts, if that is known.
    pub fn source_start(self) -> (r: Option<u64>)
        ensures
            r == match self@.source_range {
                Some((start, _)) => Some(start),
                None => None,
            },
    {
        match self.source_range {
            Some(range) => Some(range.start()),
            None => None,
        }
    }

    pub fn reset_identity(self) -> (r: &'a str)
        ensures
            r == self@.reset_identity,
    {
        self.reset_identity
    }

    pub fn turn_identity(self) -> (r: TurnIdentity<'a>)
        ensures
            r == self@.turn_identity,
    {
        self.turn_identity
    }

    pub fn route_family(self) -> (r: RouteFamily)
        ensures
            r == self@.route_family,
    {
        self.route_family
    }
}

/// What is wrong with a coordinate.
#[derive(Clone, Copy, Debug, PartialEq, Eq)]
pub enum TerminalCoordinateError {
    MissingCanonicalC,
    CanonicalCZero,
    SourceRangeZeroWidth,
    SourceRangeReversed,
    SourceRangeEndMismatch { range_end: u64, canonical_c: u64 },
    MissingResetIdentity,
    EmptyResetIdentity,
    MissingTurnIdentity,
    MissingExternalTurnStartOffset,
    EmptyTurnStartedAt,
}

/// What is wrong with an optional range that is to end at `c`, if anything is.
pub open spec fn range_fault(range: Option<(u64, u64)>, c: u64) -> Option<
    TerminalCoordinateError,
> {
    match range {
        None => None,
        Some((start, end)) => if start == end {
            Some(TerminalCoordinateError::SourceRangeZeroWidth)
        } else if start > end {
            Some(TerminalCoordinateError::SourceRangeReversed)
        } else if end != c {
            Some(TerminalCoordinateError::SourceRangeEndMismatch { range_end: end, canonical_c: c })
        } else {
            None
        },
    }
}

/// What is wrong with how a candidate names its turn, if anything is.
pub open spec fn turn_fault(candidate: TerminalCoordinateCandidate) -> Option<
    TerminalCoordinateError,
> {
    match candidate.turn_user_message_id {
        None => Some(TerminalCoordinateError::MissingTurnIdentity),
        Some(id) => if id == 0 && candidate.turn_start_offset is None {
            Some(TerminalCoordinateError::MissingExternalTurnStartOffset)
        } else {
            match candidate.turn_started_at {
                None => Some(TerminalCoordinateError::MissingTurnIdentity),
                Some(started_at) => if started_at@.len() == 0 {
                    Some(TerminalCoordinateError::EmptyTurnStartedAt)
                } else {
                    None
                },
            }
        },
    }
}

/// What is wrong with a candidate, if anything is.
pub open spec fn fault(candidate: TerminalCoordinateCandidate) -> Option<TerminalCoordinateError> {
    match candidate.canonical_c {
        None => Some(TerminalCoordinateError::MissingCanonicalC),
        Some(c) => if c == 0 {
            Some(TerminalCoordinateError::CanonicalCZero)
        } else if range_fault(candidate.source_range, c) is Some {
            range_fault(candidate.source_range, c)
        } else {
            match candidate.reset_identity {
                None => Some(TerminalCoordinateError::MissingResetIdentity),
                Some(reset) => if reset@.len() == 0 {
                    Some(TerminalCoordinateError::EmptyResetIdentity)
                } else {
                    turn_fault(candidate)
                },
            }
        },
    }
}

/// The turn that a candidate names.
pub open spec fn turn_of<'a>(
    id: u64,
    started_at: &'a str,
    start_offset: Option<u64>,
) -> TurnIdentity<'a> {
    if id != 0 {
        TurnIdentity::Message { user_message_id: id, started_at, start_offset }
    } else {
        TurnIdentity::External { started_at, start_offset: start_offset.unwrap() }
    }
}

/// Checks a coordinate.
pub fn validate_terminal_coordinate_candidate<'a>(
    candidate: TerminalCoordinateCandidate<'a>,
) -> (r: Result<TerminalCoordinate<'a>, TerminalCoordinateError>)
    ensures
        match r {
            Ok(coordinate) => fault(candidate) is None && coordinate@ == (CoordinateView {
                canonical_c: candidate.canonical_c.unwrap(),
                source_range: candidate.source_range,
                reset_identity: candidate.reset_identity.unwrap(),
                turn_identity: turn_of(
                    candidate.turn_user_message_id.unwrap(),
                    candidate.turn_started_at.unwrap(),
                    candidate.turn_start_offset,
                ),
                route_family: candidate.route_family,
            }),
            Err(error) => fault(candidate) == Some(error),
        },
{
    let raw_c: u64 = match candidate.canonical_c {
        Some(raw_c) => raw_c,
        None => return Err(TerminalCoordinateError::MissingCanonicalC),
    };
    let canonical_c = match CanonicalC::new(raw_c) {
        Some(canonical_c) => canonical_c,
        None => return Err(TerminalCoordinateError::CanonicalCZero),
    };
    let source_range = match candidate.source_range {
        None => None,
        Some((start, end)) => match SourceRange::new(start, end) {
            None => {
                return Err(
                    if start == end {
                        TerminalCoordinateError::SourceRangeZeroWidth
                    } else {
                        TerminalCoordinateError::SourceRangeReversed
                    },
                );
            },
            Some(range) => {
                if range.end() != canonical_c.get() {
                    return Err(
                        TerminalCoordinateError::SourceRangeEndMismatch {
                            range_end: range.end(),
                            canonical_c: canonical_c.get(),
                        },
                    );
                }
                Some(range)
            },
        },
    };
    let reset_identity = match candidate.reset_identity {
        Some(reset_identity) => reset_identity,
        None => return Err(TerminalCoordinateError::MissingResetIdentity),
    };
    if reset_identity.is_empty() {
        return Err(TerminalCoordinateError::EmptyResetIdentity);
    }
    let user_message_id: u64 = match candidate.turn_user_message_id {
        Some(id) => id,
        None => return Err(TerminalCoordinateError::MissingTurnIdentity),
    };
    if user_message_id == 0 && candidate.turn_start_offset.is_none() {
        return Err(TerminalCoordinateError::MissingExternalTurnStartOffset);
    }
    let started_at = match candidate.turn_started_at {
        Some(started_at) => started_at,
        None => return Err(TerminalCoordinateError::MissingTurnIdentity),
    };
    if started_at.is_empty() {
        return Err(TerminalCoordinateError::EmptyTurnStartedAt);
    }
    let turn_identity = match (user_message_id, candidate.turn_start_offset) {
        (0, Some(start_offset)) => TurnIdentity::External { started_at, start_offset },
        (_, start_offset) => TurnIdentity::Message { user_message_id, started_at, start_offset },
    };
    Ok(
        TerminalCoordinate {
            canonical_c,
            source_range,
            reset_identity,
            turn_identity,
            route_family: candidate.route_family,
        },
    )
}

/// Provenance is optional: a candidate that is accepted with a range, a reset and a
/// route is accepted with the same C without the range, after another reset and by
/// another route.
pub proof fn law_provenance_is_optional(
    a: TerminalCoordinateCandidate,
    reset: &str,
    route_family: RouteFamily,
)
    requires
        fault(a) is None,
        reset@.len() > 0,
    ensures
        fault(
            TerminalCoordinateCandidate {
                source_range: None,
                reset_identity: Some(reset),
                route_family,
                ..a
            },
        ) is None,
{
}

/// Two turns from outside that start at different offsets are different turns, even
/// where they start at the same time.
pub proof fn law_external_turns_are_told_apart(started_at: &str, first: u64, second: u64)
    requires
        first != second,
    ensures
        turn_of(0, started_at, Some(first)) != turn_of(0, started_at, Some(second)),
{
}

} // verus!
