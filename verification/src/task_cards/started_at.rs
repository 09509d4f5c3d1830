//! When a response's turn was started.

use vstd::prelude::*;

use crate::text;

verus! {

/// An instant: seconds since 1970 in UTC, and the nanoseconds within the second.
#[derive(Debug, Clone, Copy, PartialEq, Eq, Structural)]
pub struct UtcInstant {
    pub seconds: i64,
    pub nanos: u32,
}

/// The instant that an RFC 3339 timestamp denotes.
pub uninterp spec fn rfc3339_instant(s: Seq<char>) -> Option<UtcInstant>;

/// Calls `chrono::DateTime::parse_from_rfc3339`. Whether the text parses, and to
/// what instant, depends on the text alone.
#[verifier::external_body]
fn parse_rfc3339(s: &str) -> (r: Option<UtcInstant>)
    ensures
        r == rfc3339_instant(s@),
{
    chrono::DateTime::parse_from_rfc3339(s).ok().map(
        |at| UtcInstant { seconds: at.timestamp(), nanos: at.timestamp_subsec_nanos() },
    )
}

/// The date and time that a text without a time zone denotes under a format, read as
/// if in UTC; or what is wrong with the text.
pub uninterp spec fn naive_instant(s: Seq<char>, format: Seq<char>) -> Result<
    UtcInstant,
    Seq<char>,
>;

/// The view of a parsed date and time.
pub open spec fn naive_view(r: Result<UtcInstant, String>) -> Result<UtcInstant, Seq<char>> {
    match r {
        Ok(at) => Ok(at),
        Err(error) => Err(error@),
    }
}

/// Calls `chrono::NaiveDateTime::parse_from_str` and reads the result as if in UTC.
/// Whether the text parses, to what, and with what complaint, depends on the text
/// and the format alone.
#[verifier::external_body]
fn parse_naive(s: &str, format: &str) -> (r: Result<UtcInstant, String>)
    ensures
        naive_view(r) == naive_instant(s@, format@),
{
    chrono::NaiveDateTime::parse_from_str(s, format).map(|naive| naive.and_utc()).map(
        |at| UtcInstant { seconds: at.timestamp(), nanos: at.timestamp_subsec_nanos() },
    ).map_err(|error| error.to_string())
}

/// `at` can be what a local date and time is in UTC: they are less than a day apart,
/// and the part of the second is the same.
pub open spec fn in_some_zone(at: UtcInstant, naive: UtcInstant) -> bool {
    at.nanos == naive.nanos && -86400 < at.seconds - naive.seconds < 86400
}

/// Calls `chrono::Local.from_local_datetime` and takes the instant if there is just
/// one: the date and time less the zone's offset, which is under a day and in whole
/// seconds. Whether there is just one, and what the offset is, depends on the
/// machine's time zone and is left open.
#[verifier::external_body]
fn local_instant(naive: UtcInstant) -> (r: Option<UtcInstant>)
    ensures
        r matches Some(at) ==> in_some_zone(at, naive),
{
    chrono::DateTime::from_timestamp(naive.seconds, naive.nanos).and_then(
        |at| chrono::TimeZone::from_local_datetime(&chrono::Local, &at.naive_utc()).single(),
    ).map(|at| UtcInstant { seconds: at.timestamp(), nanos: at.timestamp_subsec_nanos() })
}

/// The view of a start that was looked for.
pub open spec fn started_view(r: Result<Option<UtcInstant>, String>) -> Result<
    Option<UtcInstant>,
    Seq<char>,
> {
    match r {
        Ok(at) => Ok(at),
        Err(error) => Err(error@),
    }
}

/// The start of a turn: nothing where none is given, an RFC 3339 timestamp as it
/// stands, and else a local date and time, which has to be one instant.
pub open spec fn started_at_of(
    value: Option<Seq<char>>,
    rfc3339: Option<UtcInstant>,
    naive: Result<UtcInstant, Seq<char>>,
    local: Option<UtcInstant>,
) -> Result<Option<UtcInstant>, Seq<char>> {
    if value is None || text::trimmed(value->0).len() == 0 {
        Ok(None)
    } else if rfc3339 is Some {
        Ok(rfc3339)
    } else {
        match naive {
            Err(error) => Err("parse task response turn start timestamp: "@ + error),
            Ok(_) => match local {
                Some(at) => Ok(Some(at)),
                None => Err("task response turn start timestamp is ambiguous in local time"@),
            },
        }
    }
}

/// The start of a turn, from what the three ways to read its text gave.
pub fn resolve_started_at(
    value: Option<&str>,
    rfc3339: Option<UtcInstant>,
    naive: Result<UtcInstant, String>,
    local: Option<UtcInstant>,
) -> (r: Result<Option<UtcInstant>, String>)
    ensures
        started_view(r) == started_at_of(
            match value {
                Some(value) => Some(value@),
                None => None,
            },
            rfc3339,
            naive_view(naive),
            local,
        ),
{
    let given = match value {
        Some(value) => !text::trim(value).is_empty(),
        None => false,
    };
    if !given {
        return Ok(None);
    }
    if rfc3339.is_some() {
        return Ok(rfc3339);
    }
    match naive {
        Err(error) => {
            let mut message: String = "parse task response turn start timestamp: ".to_owned();
            message.append(error.as_str());
            Err(message)
        },
        Ok(_) => match local {
            Some(at) => Ok(Some(at)),
            None => Err(
                "task response turn start timestamp is ambiguous in local time".to_owned(),
            ),
        },
    }
}

/// The start of a turn.
///
/// What a local date and time is in UTC depends on the machine's time zone. Of that
/// case the two possible outcomes are stated: an instant less than a day from it, or
/// that the zone gives none or two.
pub fn parse_turn_started_at(value: Option<&str>) -> (r: Result<Option<UtcInstant>, String>)
    ensures
        value is None ==> r == Ok::<Option<UtcInstant>, String>(None),
        value matches Some(text) ==> ({
            let trimmed = text::trimmed(text@);
            let naive = naive_instant(trimmed, "%Y-%m-%d %H:%M:%S"@);
            exists|local: Option<UtcInstant>|
                {
                    &&& started_view(r) == #[trigger] started_at_of(
                        Some(text@),
                        rfc3339_instant(trimmed),
                        naive,
                        local,
                    )
                    &&& local matches Some(at) ==> (naive matches Ok(read) && in_some_zone(
                        at,
                        read,
                    ))
                }
        }),
{
    match value {
        None => Ok(None),
        Some(text) => {
            let trimmed = text::trim(text);
            let rfc3339 = parse_rfc3339(trimmed);
            let naive = parse_naive(trimmed, "%Y-%m-%d %H:%M:%S");
            let local = match &naive {
                Ok(at) => local_instant(*at),
                Err(_) => None,
            };
            resolve_started_at(value, rfc3339, naive, local)
        },
    }
}

} // verus!
