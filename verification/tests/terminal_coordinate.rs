use std::collections::hash_map::DefaultHasher;
use std::collections::{HashMap, HashSet};
use std::hash::{Hash, Hasher};

use agentdesk_discord::terminal_coordinate::{borrowed, owned};

fn message() -> owned::TurnIdentity {
    owned::TurnIdentity::message(41, "exact-start", Some(7)).expect("valid message identity")
}

fn owned_candidate(
    canonical_c: u64,
    source_range: Option<(u64, u64)>,
) -> owned::TerminalCoordinateCandidate {
    owned::TerminalCoordinateCandidate::new(
        canonical_c,
        source_range,
        9,
        message(),
        owned::RouteFamily::Watcher,
    )
}

#[test]
fn canonical_c_accepts_only_positive_u64_and_hashes_only_c() {
    assert_eq!(owned::CanonicalC::new(0), None);
    assert_eq!(owned::CanonicalC::new(1).map(owned::CanonicalC::get), Some(1));
    assert_eq!(
        owned::CanonicalC::new(u64::MAX).map(owned::CanonicalC::get),
        Some(u64::MAX)
    );

    let mut set = HashSet::new();
    set.insert(owned::CanonicalC::new(44).unwrap());
    assert!(set.contains(&owned::CanonicalC::new(44).unwrap()));
}

#[test]
fn optional_range_is_strict_and_must_end_at_c() {
    let terminal = owned::validate_terminal_coordinate(owned_candidate(8, None)).unwrap();
    assert_eq!(terminal.canonical_c().get(), 8);
    assert_eq!(terminal.source_range(), None);

    let ranged = owned::validate_terminal_coordinate(owned_candidate(8, Some((3, 8)))).unwrap();
    assert_eq!(ranged.source_range().map(owned::SourceRange::start), Some(3));
    assert_eq!(ranged.source_range().map(owned::SourceRange::end), Some(8));
    assert_eq!(
        owned::validate_terminal_coordinate(owned_candidate(8, Some((8, 8)))),
        Err(owned::TerminalCoordinateError::SourceRangeNotStrict { start: 8, end: 8 })
    );
    assert_eq!(
        owned::validate_terminal_coordinate(owned_candidate(8, Some((9, 8)))),
        Err(owned::TerminalCoordinateError::SourceRangeNotStrict { start: 9, end: 8 })
    );
    assert_eq!(
        owned::validate_terminal_coordinate(owned_candidate(8, Some((2, 7)))),
        Err(owned::TerminalCoordinateError::SourceRangeEndMismatch { end: 7, canonical_c: 8 })
    );
}

#[test]
fn zero_c_is_refused() {
    assert_eq!(
        owned::validate_terminal_coordinate(owned_candidate(0, None)),
        Err(owned::TerminalCoordinateError::CanonicalCZero)
    );
}

#[test]
fn provenance_never_changes_c_hash_identity() {
    let without = owned::validate_terminal_coordinate(owned_candidate(12, None)).unwrap();
    let with = owned::validate_terminal_coordinate(owned_candidate(12, Some((4, 12)))).unwrap();
    let mut map = HashMap::new();
    map.insert(without.canonical_c(), "terminal");
    assert_eq!(map.get(&with.canonical_c()), Some(&"terminal"));
}

#[test]
fn message_identity_preserves_exact_production_fields() {
    assert_eq!(
        owned::TurnIdentity::message(0, "started", None),
        Err(owned::TerminalCoordinateError::MessageUserIdZero)
    );
    assert_eq!(
        owned::TurnIdentity::message(3, "", None),
        Err(owned::TerminalCoordinateError::StartedAtEmpty)
    );
    let no_offset = owned::TurnIdentity::message(3, "  exact  ", None).unwrap();
    assert_eq!(no_offset.user_message_id(), 3);
    assert_eq!(no_offset.started_at(), "  exact  ");
    assert_eq!(no_offset.start_offset(), None);

    let offset = owned::TurnIdentity::message(3, "  exact  ", Some(0)).unwrap();
    assert_eq!(offset.start_offset(), Some(0));
    assert_ne!(no_offset, offset);
    assert_ne!(
        owned::TurnIdentity::message(3, "same", Some(5)).unwrap(),
        owned::TurnIdentity::message(3, "same", Some(6)).unwrap()
    );
}

#[test]
fn external_identity_represents_id_zero_and_requires_offset() {
    assert_eq!(
        owned::TurnIdentity::external("", 0),
        Err(owned::TerminalCoordinateError::StartedAtEmpty)
    );
    let zero = owned::TurnIdentity::external("same", 0).unwrap();
    let later = owned::TurnIdentity::external("same", 1).unwrap();
    assert_eq!(zero.user_message_id(), 0);
    assert_eq!(zero.started_at(), "same");
    assert_eq!(zero.start_offset(), Some(0));
    assert_ne!(zero, later);
}

#[test]
fn route_family_is_exhaustive_and_coordinate_getters_materialize_inputs() {
    let routes = [
        owned::RouteFamily::Sink,
        owned::RouteFamily::Watcher,
        owned::RouteFamily::Controller,
        owned::RouteFamily::Recovery,
    ];
    assert_eq!(routes.len(), 4);
    for route in routes {
        let identity = owned::TurnIdentity::external("external", 0).unwrap();
        let terminal =
            owned::validate_terminal_coordinate(owned::TerminalCoordinateCandidate::new(
                22,
                Some((5, 22)),
                u64::MAX,
                identity.clone(),
                route,
            ))
            .unwrap();
        assert_eq!(terminal.canonical_c().get(), 22);
        assert_eq!(terminal.source_range().map(owned::SourceRange::start), Some(5));
        assert_eq!(terminal.reset_incarnation(), u64::MAX);
        assert_eq!(terminal.turn_identity(), &identity);
        assert_eq!(terminal.route_family(), route);
    }
}

fn candidate() -> borrowed::TerminalCoordinateCandidate<'static> {
    borrowed::TerminalCoordinateCandidate::new(
        Some(9),
        Some((3, 9)),
        Some("reset-a"),
        Some(41),
        Some("2026-08-29T00:00:00Z"),
        Some(3),
        borrowed::RouteFamily::Watcher,
    )
}

fn hash(value: impl Hash) -> u64 {
    let mut hasher = DefaultHasher::new();
    value.hash(&mut hasher);
    hasher.finish()
}

#[test]
fn canonical_c_accepts_positive_boundaries_and_rejects_c0() {
    assert_eq!(borrowed::CanonicalC::new(0), None);
    assert_eq!(borrowed::CanonicalC::new(1).map(borrowed::CanonicalC::get), Some(1));
    assert_eq!(
        borrowed::CanonicalC::new(u64::MAX).map(borrowed::CanonicalC::get),
        Some(u64::MAX)
    );
}

#[test]
fn optional_source_range_requires_strict_order_when_present() {
    assert_eq!(borrowed::SourceRange::new(0, 0), None);
    assert_eq!(borrowed::SourceRange::new(1, 0), None);
    assert_eq!(borrowed::SourceRange::new(u64::MAX, u64::MAX), None);
    let full = borrowed::SourceRange::new(0, u64::MAX).expect("largest positive range");
    assert_eq!((full.start(), full.end()), (0, u64::MAX));

    let mut without_range = candidate();
    without_range.source_range = None;
    let accepted = borrowed::validate_terminal_coordinate_candidate(without_range)
        .expect("SessionSink may carry authoritative C without source provenance");
    assert_eq!(accepted.source_range(), None);
    assert_eq!(accepted.source_start(), None);
}

#[test]
fn validator_reports_missing_and_malformed_fields() {
    let mut cases = Vec::new();
    let mut input = candidate();
    input.canonical_c = None;
    cases.push((input, borrowed::TerminalCoordinateError::MissingCanonicalC));
    let mut input = candidate();
    input.canonical_c = Some(0);
    cases.push((input, borrowed::TerminalCoordinateError::CanonicalCZero));
    let mut input = candidate();
    input.source_range = Some((9, 9));
    cases.push((input, borrowed::TerminalCoordinateError::SourceRangeZeroWidth));
    let mut input = candidate();
    input.source_range = Some((10, 9));
    cases.push((input, borrowed::TerminalCoordinateError::SourceRangeReversed));
    let mut input = candidate();
    input.reset_identity = None;
    cases.push((input, borrowed::TerminalCoordinateError::MissingResetIdentity));
    let mut input = candidate();
    input.reset_identity = Some("");
    cases.push((input, borrowed::TerminalCoordinateError::EmptyResetIdentity));
    let mut input = candidate();
    input.turn_user_message_id = None;
    cases.push((input, borrowed::TerminalCoordinateError::MissingTurnIdentity));
    let mut input = candidate();
    input.turn_started_at = None;
    cases.push((input, borrowed::TerminalCoordinateError::MissingTurnIdentity));
    let mut input = candidate();
    input.turn_started_at = Some("");
    cases.push((input, borrowed::TerminalCoordinateError::EmptyTurnStartedAt));

    for (input, expected) in cases {
        assert_eq!(
            borrowed::validate_terminal_coordinate_candidate(input),
            Err(expected)
        );
    }

    let accepted = borrowed::validate_terminal_coordinate_candidate(candidate())
        .expect("complete candidate");
    assert_eq!(accepted.canonical_c().get(), 9);
    assert_eq!(accepted.source_start(), Some(3));
}

#[test]
fn present_range_end_must_equal_separately_supplied_c() {
    let mut input = candidate();
    input.source_range = Some((3, 8));
    assert_eq!(
        borrowed::validate_terminal_coordinate_candidate(input),
        Err(borrowed::TerminalCoordinateError::SourceRangeEndMismatch {
            range_end: 8,
            canonical_c: 9,
        })
    );
}

#[test]
fn canonical_c_is_independent_of_optional_source_provenance() {
    let first =
        borrowed::validate_terminal_coordinate_candidate(candidate()).expect("valid coordinate");
    let mut shifted = candidate();
    shifted.source_range = Some((1, 9));
    shifted.reset_identity = Some("different-provenance");
    shifted.route_family = borrowed::RouteFamily::Bridge;
    let second =
        borrowed::validate_terminal_coordinate_candidate(shifted).expect("valid coordinate");
    let mut absent = candidate();
    absent.source_range = None;
    let third =
        borrowed::validate_terminal_coordinate_candidate(absent).expect("C-only coordinate");

    assert_eq!(first.canonical_c(), second.canonical_c());
    assert_eq!(first.canonical_c(), third.canonical_c());
    assert_eq!(hash(first.canonical_c()), hash(second.canonical_c()));
    assert_eq!(hash(first.canonical_c()), hash(third.canonical_c()));
    assert_ne!(first.source_range(), second.source_range());
    assert_ne!(first.source_range(), third.source_range());
}

#[test]
fn external_turn_requires_offset_and_uses_it_as_identity() {
    let same_time = "2026-08-29T00:00:00Z";
    let mut missing = candidate();
    missing.turn_user_message_id = Some(0);
    missing.turn_started_at = Some(same_time);
    missing.turn_start_offset = None;
    assert_eq!(
        borrowed::validate_terminal_coordinate_candidate(missing),
        Err(borrowed::TerminalCoordinateError::MissingExternalTurnStartOffset)
    );

    let mut first = missing;
    first.turn_start_offset = Some(0);
    let first = borrowed::validate_terminal_coordinate_candidate(first)
        .expect("external turn with offset");
    let mut second = missing;
    second.turn_start_offset = Some(4096);
    let second =
        borrowed::validate_terminal_coordinate_candidate(second).expect("next external turn");

    assert_eq!(
        first.turn_identity(),
        borrowed::TurnIdentity::External { started_at: same_time, start_offset: 0 }
    );
    assert_ne!(first.turn_identity(), second.turn_identity());
    assert_ne!(hash(first.turn_identity()), hash(second.turn_identity()));
}

#[test]
fn message_turn_retains_started_at_and_optional_offset() {
    let mut without_offset = candidate();
    without_offset.turn_start_offset = None;
    let without_offset = borrowed::validate_terminal_coordinate_candidate(without_offset)
        .expect("nonzero message identity does not fabricate an offset");
    assert_eq!(
        without_offset.turn_identity(),
        borrowed::TurnIdentity::Message {
            user_message_id: 41,
            started_at: "2026-08-29T00:00:00Z",
            start_offset: None,
        }
    );

    let with_offset = borrowed::validate_terminal_coordinate_candidate(candidate())
        .expect("nonzero message identity retains a supplied offset");
    assert_eq!(
        with_offset.turn_identity(),
        borrowed::TurnIdentity::Message {
            user_message_id: 41,
            started_at: "2026-08-29T00:00:00Z",
            start_offset: Some(3),
        }
    );
}

#[test]
fn sibling_api_constructs_candidate_and_reads_coordinate_identity() {
    let input = borrowed::TerminalCoordinateCandidate::new(
        Some(17),
        None,
        Some("reset-sibling"),
        Some(91),
        Some("2026-08-29T00:01:00Z"),
        None,
        borrowed::RouteFamily::SessionSink,
    );
    let coordinate =
        borrowed::validate_terminal_coordinate_candidate(input).expect("sibling-style API");

    assert_eq!(coordinate.canonical_c().get(), 17);
    assert_eq!(coordinate.source_range(), None);
    assert_eq!(coordinate.reset_identity(), "reset-sibling");
    assert_eq!(coordinate.route_family(), borrowed::RouteFamily::SessionSink);
    assert_eq!(
        coordinate.turn_identity(),
        borrowed::TurnIdentity::Message {
            user_message_id: 91,
            started_at: "2026-08-29T00:01:00Z",
            start_offset: None,
        }
    );
}

fn ordinal(route: borrowed::RouteFamily) -> u8 {
    match route {
        borrowed::RouteFamily::Watcher => 1,
        borrowed::RouteFamily::Bridge => 2,
        borrowed::RouteFamily::SessionSink => 3,
    }
}

#[test]
fn route_family_match_is_exhaustive() {
    assert_eq!(
        [
            borrowed::RouteFamily::Watcher,
            borrowed::RouteFamily::Bridge,
            borrowed::RouteFamily::SessionSink
        ]
        .map(ordinal),
        [1, 2, 3]
    );
}
