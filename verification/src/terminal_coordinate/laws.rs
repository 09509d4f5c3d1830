//! What a checked coordinate is, read off what it was made from.

use vstd::prelude::*;

use crate::terminal_coordinate::borrowed;
use crate::terminal_coordinate::owned;

verus! {

/// A candidate that borrows is accepted just when it names an end that is not zero, a strict
/// range up to that end if it has one, a reset, and a turn: by its message, or by where it
/// starts.
pub proof fn law_borrowed_candidate_is_accepted_when_whole<'a>(
    candidate: borrowed::TerminalCoordinateCandidate<'a>,
    r: Result<borrowed::TerminalCoordinate<'a>, borrowed::TerminalCoordinateError>,
)
    requires
        call_ensures(borrowed::validate_terminal_coordinate_candidate, (candidate,), r),
    ensures
        r is Ok <==> {
            &&& candidate.canonical_c is Some
            &&& candidate.canonical_c->0 > 0
            &&& candidate.source_range matches Some((start, end)) ==> start < end && Some(end)
                == candidate.canonical_c
            &&& candidate.reset_identity is Some
            &&& candidate.reset_identity->0@.len() > 0
            &&& candidate.turn_started_at is Some
            &&& candidate.turn_started_at->0@.len() > 0
            &&& candidate.turn_user_message_id is Some
            &&& candidate.turn_user_message_id == Some(0u64) ==> candidate.turn_start_offset is Some
        },
{
}

/// What is read from an accepted coordinate that borrows is what the candidate held.
pub proof fn law_borrowed_coordinate_is_read_back<'a>(
    candidate: borrowed::TerminalCoordinateCandidate<'a>,
    coordinate: borrowed::TerminalCoordinate<'a>,
    c: borrowed::CanonicalC,
    value: u64,
    range: Option<borrowed::SourceRange>,
    start: u64,
    end: u64,
    source_start: Option<u64>,
    reset: &'a str,
    turn: borrowed::TurnIdentity<'a>,
    route: borrowed::RouteFamily,
)
    requires
        call_ensures(
            borrowed::validate_terminal_coordinate_candidate,
            (candidate,),
            Ok(coordinate),
        ),
        call_ensures(borrowed::TerminalCoordinate::canonical_c, (coordinate,), c),
        call_ensures(borrowed::CanonicalC::get, (c,), value),
        call_ensures(borrowed::TerminalCoordinate::source_range, (coordinate,), range),
        range is Some ==> call_ensures(borrowed::SourceRange::start, (range->0,), start)
            && call_ensures(borrowed::SourceRange::end, (range->0,), end),
        call_ensures(borrowed::TerminalCoordinate::source_start, (coordinate,), source_start),
        call_ensures(borrowed::TerminalCoordinate::reset_identity, (coordinate,), reset),
        call_ensures(borrowed::TerminalCoordinate::turn_identity, (coordinate,), turn),
        call_ensures(borrowed::TerminalCoordinate::route_family, (coordinate,), route),
    ensures
        candidate.canonical_c == Some(value),
        range is Some <==> candidate.source_range is Some,
        range is Some ==> candidate.source_range == Some((start, end)) && end == value
            && source_start == Some(start),
        range is None ==> source_start is None,
        candidate.reset_identity == Some(reset),
        route == candidate.route_family,
        match turn {
            borrowed::TurnIdentity::Message { user_message_id, started_at, start_offset } => {
                &&& user_message_id > 0
                &&& candidate.turn_user_message_id == Some(user_message_id)
                &&& candidate.turn_started_at == Some(started_at)
                &&& candidate.turn_start_offset == start_offset
            },
            borrowed::TurnIdentity::External { started_at, start_offset } => {
                &&& candidate.turn_user_message_id == Some(0u64)
                &&& candidate.turn_started_at == Some(started_at)
                &&& candidate.turn_start_offset == Some(start_offset)
            },
        },
{
}

/// The error says what is wrong: what it names is missing, empty, zero, or out of order.
pub proof fn law_borrowed_error_says_what_is_wrong<'a>(
    candidate: borrowed::TerminalCoordinateCandidate<'a>,
    error: borrowed::TerminalCoordinateError,
)
    requires
        call_ensures(
            borrowed::validate_terminal_coordinate_candidate,
            (candidate,),
            Err::<borrowed::TerminalCoordinate<'a>, borrowed::TerminalCoordinateError>(error),
        ),
    ensures
        error is MissingCanonicalC <==> candidate.canonical_c is None,
        error is CanonicalCZero <==> candidate.canonical_c == Some(0u64),
        error is SourceRangeZeroWidth ==> (candidate.source_range matches Some((start, end))
            && start == end),
        error is SourceRangeReversed ==> (candidate.source_range matches Some((start, end)) && start
            > end),
        error matches borrowed::TerminalCoordinateError::SourceRangeEndMismatch {
            range_end,
            canonical_c,
        } ==> range_end != canonical_c && candidate.canonical_c == Some(canonical_c) && (
        candidate.source_range matches Some((start, end)) && start < end && end == range_end),
        error is MissingResetIdentity ==> candidate.reset_identity is None,
        error is EmptyResetIdentity ==> candidate.reset_identity is Some
            && candidate.reset_identity->0@.len() == 0,
        error is MissingTurnIdentity ==> candidate.turn_user_message_id is None
            || candidate.turn_started_at is None,
        error is MissingExternalTurnStartOffset ==> candidate.turn_user_message_id == Some(0u64)
            && candidate.turn_start_offset is None,
        error is EmptyTurnStartedAt ==> candidate.turn_started_at is Some
            && candidate.turn_started_at->0@.len() == 0,
{
}

/// An end is one that is not zero, and a range is one that is not empty; both give back what
/// they were made from.
pub proof fn law_borrowed_parts_are_checked(
    value: u64,
    c: Option<borrowed::CanonicalC>,
    got: u64,
    start: u64,
    end: u64,
    range: Option<borrowed::SourceRange>,
    got_start: u64,
    got_end: u64,
)
    requires
        call_ensures(borrowed::CanonicalC::new, (value,), c),
        c is Some ==> call_ensures(borrowed::CanonicalC::get, (c->0,), got),
        call_ensures(borrowed::SourceRange::new, (start, end), range),
        range is Some ==> call_ensures(borrowed::SourceRange::start, (range->0,), got_start)
            && call_ensures(borrowed::SourceRange::end, (range->0,), got_end),
    ensures
        c is Some <==> value > 0,
        c is Some ==> got == value,
        range is Some <==> end > start,
        range is Some ==> got_start == start && got_end == end,
{
}

/// A candidate that owns its parts is accepted just when its end is not zero and its range, if
/// it has one, is strict and goes up to that end. The error says which of these fails.
pub proof fn law_owned_candidate_is_accepted_when_whole(
    candidate: owned::TerminalCoordinateCandidate,
    r: Result<owned::TerminalCoordinate, owned::TerminalCoordinateError>,
)
    requires
        call_ensures(owned::validate_terminal_coordinate, (candidate,), r),
    ensures
        r is Ok <==> candidate.canonical_c > 0 && (candidate.source_range matches Some((start, end))
            ==> start < end && end == candidate.canonical_c),
        r matches Err(error) ==> match error {
            owned::TerminalCoordinateError::CanonicalCZero => candidate.canonical_c == 0,
            owned::TerminalCoordinateError::SourceRangeNotStrict { start, end } => {
                candidate.canonical_c > 0 && candidate.source_range == Some((start, end)) && end
                    <= start
            },
            owned::TerminalCoordinateError::SourceRangeEndMismatch { end, canonical_c } => {
                &&& canonical_c > 0
                &&& end != canonical_c
                &&& canonical_c == candidate.canonical_c
                &&& candidate.source_range matches Some((from, to)) && from < to && to == end
            },
            _ => false,
        },
{
}

/// What is read from an accepted coordinate that owns its parts is what the candidate held.
pub proof fn law_owned_coordinate_is_read_back(
    candidate: owned::TerminalCoordinateCandidate,
    coordinate: owned::TerminalCoordinate,
    c: owned::CanonicalC,
    value: u64,
    range: Option<owned::SourceRange>,
    start: u64,
    end: u64,
    reset: u64,
    turn: &owned::TurnIdentity,
    route: owned::RouteFamily,
)
    requires
        call_ensures(owned::validate_terminal_coordinate, (candidate,), Ok(coordinate)),
        call_ensures(owned::TerminalCoordinate::canonical_c, (&coordinate,), c),
        call_ensures(owned::CanonicalC::get, (c,), value),
        call_ensures(owned::TerminalCoordinate::source_range, (&coordinate,), range),
        range is Some ==> call_ensures(owned::SourceRange::start, (range->0,), start)
            && call_ensures(owned::SourceRange::end, (range->0,), end),
        call_ensures(owned::TerminalCoordinate::reset_incarnation, (&coordinate,), reset),
        call_ensures(owned::TerminalCoordinate::turn_identity, (&coordinate,), turn),
        call_ensures(owned::TerminalCoordinate::route_family, (&coordinate,), route),
    ensures
        value == candidate.canonical_c,
        range is Some <==> candidate.source_range is Some,
        range is Some ==> candidate.source_range == Some((start, end)) && end == value,
        reset == candidate.reset_incarnation,
        *turn == candidate.turn_identity,
        route == candidate.route_family,
{
}

/// A turn is read back as it was named. That of a message needs an id that is not zero, and
/// every turn needs a start.
pub proof fn law_turn_is_read_back(
    id: u64,
    started_at: &str,
    offset: Option<u64>,
    start_offset: u64,
    message: Result<owned::TurnIdentity, owned::TerminalCoordinateError>,
    external: Result<owned::TurnIdentity, owned::TerminalCoordinateError>,
    turn: owned::TurnIdentity,
    got_id: u64,
    got_started_at: &str,
    got_offset: Option<u64>,
)
    requires
        call_ensures(owned::TurnIdentity::message, (id, started_at, offset), message),
        call_ensures(owned::TurnIdentity::external, (started_at, start_offset), external),
        call_ensures(owned::TurnIdentity::user_message_id, (&turn,), got_id),
        call_ensures(owned::TurnIdentity::started_at, (&turn,), got_started_at),
        call_ensures(owned::TurnIdentity::start_offset, (&turn,), got_offset),
    ensures
        message is Ok <==> id > 0 && started_at@.len() > 0,
        message matches Err(error) ==> (error is MessageUserIdZero <==> id == 0) && (
        error is StartedAtEmpty <==> id > 0),
        message == Ok::<owned::TurnIdentity, owned::TerminalCoordinateError>(turn) ==> got_id == id
            && got_started_at@ == started_at@ && got_offset == offset,
        external is Ok <==> started_at@.len() > 0,
        external matches Err(error) ==> error is StartedAtEmpty,
        external == Ok::<owned::TurnIdentity, owned::TerminalCoordinateError>(turn) ==> got_id == 0
            && got_started_at@ == started_at@ && got_offset == Some(start_offset),
{
}

} // verus!
