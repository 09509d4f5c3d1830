//! Coordinates that own what they are made from.

use vstd::prelude::*;

verus! {

/// Where a turn's output ends. It is never zero.
#[derive(Clone, Copy, Debug, PartialEq, Eq, Hash, Structural)]
pub struct CanonicalC(u64);

impl CanonicalC {
    pub closed spec fn value(self) -> u64 {
        self.0
    }

    pub fn new(value: u64) -> (r: Option<Self>)
        ensures
            r is Some <==> value != 0,
            r matches Some(c) ==> c.value() == value,
    {
        if value == 0 {
            None
        } else {
            Some(CanonicalC(value))
        }
    }

    pub fn get(self) -> (r: u64)
        ensures
            r == self.value(),
    {
        self.0
    }
}

/// Where a turn's output lies.
#[derive(Clone, Copy, Debug, PartialEq, Eq, Structural)]
pub struct SourceRange {
    start: u64,
    end: u64,
}

impl SourceRange {
    pub closed spec fn bounds(self) -> (u64, u64) {
        (self.start, self.end)
    }

    pub fn start(self) -> (r: u64)
        ensures
            r == self.bounds().0,
    {
        self.start
    }

    pub fn end(self) -> (r: u64)
        ensures
            r == self.bounds().1,
    {
        self.end
    }
}

/// Which part of the program delivered the terminal.
#[derive(Clone, Copy, Debug, PartialEq, Eq, Hash, Structural)]
pub enum RouteFamily {
    Sink,
    Watcher,
    Controller,
    Recovery,
}

/// Which turn it is: the one of a message, or one from outside, which is told apart
/// by where it starts.
#[allow(inconsistent_fields)]
#[derive(Debug, PartialEq, Eq, Hash)]
pub enum TurnIdentity {
    Message { user_message_id: u64, started_at: String, turn_start_offset: Option<u64> },
    External { started_at: String, start_offset: u64 },
}

/// Which turn it is.
pub struct TurnView {
    pub user_message_id: u64,
    pub started_at: Seq<char>,
    pub start_offset: Option<u64>,
}

impl View for TurnIdentity {
    type V = TurnView;

    open spec fn view(&self) -> TurnView {
        match self {
            TurnIdentity::Message { user_message_id, started_at, turn_start_offset } => TurnView {
                user_message_id: *user_message_id,
                started_at: started_at@,
                start_offset: *turn_start_offset,
            },
            TurnIdentity::External { started_at, start_offset } => TurnView {
                user_message_id: 0,
                started_at: started_at@,
                start_offset: Some(*start_offset),
            },
        }
    }
}

impl Clone for TurnIdentity {
    fn clone(&self) -> (out: Self)
        ensures
            out@ == self@,
            out is Message == self is Message,
    {
        match self {
            TurnIdentity::Message { user_message_id, started_at, turn_start_offset } => {
                TurnIdentity::Message {
                    user_message_id: *user_message_id,
                    started_at: started_at.clone(),
                    turn_start_offset: *turn_start_offset,
                }
            },
            TurnIdentity::External { started_at, start_offset } => TurnIdentity::External {
                started_at: started_at.clone(),
                start_offset: *start_offset,
            },
        }
    }
}

/// What is wrong with a coordinate.
#[allow(inconsistent_fields)]
#[derive(Clone, Copy, Debug, PartialEq, Eq)]
pub enum TerminalCoordinateError {
    CanonicalCZero,
    SourceRangeNotStrict { start: u64, end: u64 },
    SourceRangeEndMismatch { end: u64, canonical_c: u64 },
    MessageUserIdZero,
    StartedAtEmpty,
}

impl TurnIdentity {
    /// A turn of a message has an id that is not zero, and every turn has a start.
    pub open spec fn wf(self) -> bool {
        &&& self is Message ==> self@.user_message_id != 0
        &&& self@.started_at.len() > 0
    }

    pub fn message(user_message_id: u64, started_at: &str, turn_start_offset: Option<u64>) -> (r:
        Result<Self, TerminalCoordinateError>)
        ensures
            match r {
                Ok(turn) => turn is Message && turn.wf() && turn@ == (TurnView {
                    user_message_id,
                    started_at: started_at@,
                    start_offset: turn_start_offset,
                }),
                Err(error) => error == if user_message_id == 0 {
                    TerminalCoordinateError::MessageUserIdZero
                } else {
                    TerminalCoordinateError::StartedAtEmpty
                },
            },
            r is Ok <==> user_message_id != 0 && started_at@.len() > 0,
    {
        if user_message_id == 0 {
            return Err(TerminalCoordinateError::MessageUserIdZero);
        }
        if started_at.is_empty() {
            return Err(TerminalCoordinateError::StartedAtEmpty);
        }
        Ok(
            TurnIdentity::Message {
                user_message_id,
                started_at: started_at.to_owned(),
                turn_start_offset,
            },
        )
    }

    pub fn external(started_at: &str, start_offset: u64) -> (r: Result<
        Self,
        TerminalCoordinateError,
    >)
        ensures
            match r {
                Ok(turn) => turn is External && turn.wf() && turn@ == (TurnView {
                    user_message_id: 0,
                    started_at: started_at@,
                    start_offset: Some(start_offset),
                }),
                Err(error) => error == TerminalCoordinateError::StartedAtEmpty,
            },
            r is Ok <==> started_at@.len() > 0,
    {
        if started_at.is_empty() {
            return Err(TerminalCoordinateError::StartedAtEmpty);
        }
        Ok(TurnIdentity::External { started_at: started_at.to_owned(), start_offset })
    }

    /// The id of the turn's message, or zero.
    pub fn user_message_id(&self) -> (r: u64)
        ensures
            r == self@.user_message_id,
    {
        match self {
            TurnIdentity::Message { user_message_id, .. } => *user_message_id,
            TurnIdentity::External { .. } => 0,
        }
    }

    pub fn started_at(&self) -> (r: &str)
        ensures
            r@ == self@.started_at,
    {
        match self {
            TurnIdentity::Message { started_at, .. } => started_at.as_str(),
            TurnIdentity::External { started_at, .. } => started_at.as_str(),
        }
    }

    pub fn start_offset(&self) -> (r: Option<u64>)
        ensures
            r == self@.start_offset,
    {
        match self {
            TurnIdentity::Message { turn_start_offset, .. } => *turn_start_offset,
            TurnIdentity::External { start_offset, .. } => Some(*start_offset),
        }
    }
}

/// A coordinate that was not checked.
#[derive(Debug, PartialEq, Eq)]
pub struct TerminalCoordinateCandidate {
    pub canonical_c: u64,
    pub source_range: Option<(u64, u64)>,
    pub reset_incarnation: u64,
    pub turn_identity: TurnIdentity,
    pub route_family: RouteFamily,
}

impl TerminalCoordinateCandidate {
    pub fn new(
        canonical_c: u64,
        source_range: Option<(u64, u64)>,
        reset_incarnation: u64,
        turn_identity: TurnIdentity,
        route_family: RouteFamily,
    ) -> (out: Self)
        ensures
            out == (TerminalCoordinateCandidate {
                canonical_c,
                source_range,
                reset_incarnation,
                turn_identity,
                route_family,
            }),
    {
        TerminalCoordinateCandidate {
            canonical_c,
            source_range,
            reset_incarnation,
            turn_identity,
            route_family,
        }
    }
}

/// A coordinate that was checked.
#[derive(Debug, PartialEq, Eq)]
pub struct TerminalCoordinate {
    canonical_c: CanonicalC,
    source_range: Option<SourceRange>,
    reset_incarnation: u64,
    turn_identity: TurnIdentity,
    route_family: RouteFamily,
}

/// A coordinate.
pub struct CoordinateView {
    pub canonical_c: u64,
    pub source_range: Option<(u64, u64)>,
    pub reset_incarnation: u64,
    pub turn_identity: TurnIdentity,
    pub route_family: RouteFamily,
}

/// The bounds of an optional range.
pub open spec fn range_bounds(range: Option<SourceRange>) -> Option<(u64, u64)> {
    match range {
        Some(range) => Some(range.bounds()),
        None => None,
    }
}

impl View for TerminalCoordinate {
    type V = CoordinateView;

    closed spec fn view(&self) -> CoordinateView {
        CoordinateView {
            canonical_c: self.canonical_c.value(),
            source_range: range_bounds(self.source_range),
            reset_incarnation: self.reset_incarnation,
            turn_identity: self.turn_identity,
            route_family: self.route_family,
        }
    }
}

impl TerminalCoordinate {
    pub fn canonical_c(&self) -> (r: CanonicalC)
        ensures
            r.value() == self@.canonical_c,
    {
        self.canonical_c
    }

    pub fn source_range(&self) -> (r: Option<SourceRange>)
        ensures
            range_bounds(r) == self@.source_range,
    {
        self.source_range
    }

    pub fn reset_incarnation(&self) -> (r: u64)
        ensures
            r == self@.reset_incarnation,
    {
        self.reset_incarnation
    }

    pub fn turn_identity(&self) -> (r: &TurnIdentity)
        ensures
            *r == self@.turn_identity,
    {
        &self.turn_identity
    }

    pub fn route_family(&self) -> (r: RouteFamily)
        ensures
            r == self@.route_family,
    {
        self.route_family
    }
}

/// What is wrong with a candidate, if anything is: C is zero, or its range is empty,
/// or ends elsewhere.
pub open spec fn fault(candidate: TerminalCoordinateCandidate) -> Option<TerminalCoordinateError> {
    if candidate.canonical_c == 0 {
        Some(TerminalCoordinateError::CanonicalCZero)
    } else {
        match candidate.source_range {
            None => None,
            Some((start, end)) => if start >= end {
                Some(TerminalCoordinateError::SourceRangeNotStrict { start, end })
            } else if end != candidate.canonical_c {
                Some(
                    TerminalCoordinateError::SourceRangeEndMismatch {
                        end,
                        canonical_c: candidate.canonical_c,
                    },
                )
            } else {
                None
            },
        }
    }
}

/// The coordinate that a candidate without a fault gives.
pub open spec fn coordinate_of(candidate: TerminalCoordinateCandidate) -> CoordinateView {
    CoordinateView {
        canonical_c: candidate.canonical_c,
        source_range: candidate.source_range,
        reset_incarnation: candidate.reset_incarnation,
        turn_identity: candidate.turn_identity,
        route_family: candidate.route_family,
    }
}

/// Checks a coordinate.
pub fn validate_terminal_coordinate(candidate: TerminalCoordinateCandidate) -> (r: Result<
    TerminalCoordinate,
    TerminalCoordinateError,
>)
    ensures
        match r {
            Ok(coordinate) => fault(candidate) is None && coordinate@ == coordinate_of(candidate),
            Err(error) => fault(candidate) == Some(error),
        },
{
    let canonical_c = match CanonicalC::new(candidate.canonical_c) {
        Some(canonical_c) => canonical_c,
        None => return Err(TerminalCoordinateError::CanonicalCZero),
    };
    let source_range = match candidate.source_range {
        None => None,
        Some((start, end)) => {
            if start >= end {
                return Err(TerminalCoordinateError::SourceRangeNotStrict { start, end });
            }
            if end != canonical_c.get() {
                return Err(
                    TerminalCoordinateError::SourceRangeEndMismatch {
                        end,
                        canonical_c: canonical_c.get(),
                    },
                );
            }
            Some(SourceRange { start, end })
        },
    };
    Ok(
        TerminalCoordinate {
            canonical_c,
            source_range,
            reset_incarnation: candidate.reset_incarnation,
            turn_identity: candidate.turn_identity,
            route_family: candidate.route_family,
        },
    )
}

/// Provenance is optional, and never changes C: a candidate that is accepted with a
/// range is accepted without it, after any reset, for any turn and by any route, and
/// gives the same C.
pub proof fn law_provenance_never_changes_c(
    a: TerminalCoordinateCandidate,
    b: TerminalCoordinateCandidate,
)
    requires
        fault(a) is None,
        b.canonical_c == a.canonical_c,
        b.source_range is None || b.source_range == a.source_range,
    ensures
        fault(b) is None,
        coordinate_of(b).canonical_c == coordinate_of(a).canonical_c,
{
}

} // verus!
