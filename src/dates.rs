//! Normalization of the textual date values of front matter.
use vstd::prelude::*;

verus! {

/// The views of an optional string.
pub open spec fn opt_view(o: Option<String>) -> Option<Seq<char>> {
    match o {
        Some(s) => Some(s@),
        None => None,
    }
}

/// What chrono makes of a string read as an RFC 3339 timestamp with an
/// offset, written back in its RFC 3339 form; `None` where it does not parse.
pub uninterp spec fn rfc3339_of(s: Seq<char>) -> Option<Seq<char>>;

/// What chrono makes of a string read as a calendar date in the given
/// format, written back as `YYYY-MM-DD`; `None` where it does not parse.
pub uninterp spec fn calendar_date_of(s: Seq<char>, fmt: Seq<char>) -> Option<Seq<char>>;

/// What the toml crate makes of a string read as a TOML datetime, written
/// back in its canonical form; `None` where it does not parse.
pub uninterp spec fn toml_datetime_of(s: Seq<char>) -> Option<Seq<char>>;

/// Relies on `chrono::DateTime::parse_from_rfc3339`, the parsed value written
/// back with `DateTime::to_rfc3339`.
#[verifier::external_body]
fn parse_rfc3339(s: &str) -> (r: Option<String>)
    ensures
        opt_view(r) == rfc3339_of(s@),
{
    chrono::DateTime::parse_from_rfc3339(s).ok().map(|d| d.to_rfc3339())
}

/// Relies on `chrono::NaiveDate::parse_from_str`, the parsed date written
/// back with its `Display`.
#[verifier::external_body]
fn parse_calendar_date(s: &str, fmt: &str) -> (r: Option<String>)
    ensures
        opt_view(r) == calendar_date_of(s@, fmt@),
{
    chrono::NaiveDate::parse_from_str(s, fmt).ok().map(|d| d.to_string())
}

#[verifier::external_type_specification]
#[verifier::external_body]
pub struct ExDatetimeParseError(toml::value::DatetimeParseError);

/// Relies on `toml::value::Datetime::from_str`, the parsed value written back
/// with its `Display`.
#[verifier::external_body]
fn parse_toml_datetime(s: &str) -> (r: Result<String, toml::value::DatetimeParseError>)
    ensures
        r is Ok <==> toml_datetime_of(s@) is Some,
        r is Ok ==> toml_datetime_of(s@) == Some(r->Ok_0@),
{
    <toml::value::Datetime as std::str::FromStr>::from_str(s).map(|d| d.to_string())
}

/// The time of day and offset given to a bare calendar date.
pub open spec fn midnight_utc() -> Seq<char> {
    seq!['T', '0', '0', ':', '0', '0', ':', '0', '0', '+', '0', '0', ':', '0', '0']
}

/// The format of a bare calendar date.
pub open spec fn calendar_format() -> Seq<char> {
    seq!['%', 'Y', '-', '%', 'm', '-', '%', 'd']
}

/// The first of three readings that succeeded: a timestamp with an offset,
/// the same timestamp read as UTC, or a calendar date at midnight UTC.
pub open spec fn first_reading(
    with_offset: Option<Seq<char>>,
    as_utc: Option<Seq<char>>,
    date_only: Option<Seq<char>>,
) -> Option<Seq<char>> {
    if with_offset is Some {
        with_offset
    } else if as_utc is Some {
        as_utc
    } else {
        match date_only {
            Some(d) => Some(d + midnight_utc()),
            None => None,
        }
    }
}

/// The normalized form of a date value, or `None` when it has none of the
/// three accepted forms.
pub open spec fn normalized_date(s: Seq<char>) -> Option<Seq<char>> {
    first_reading(
        rfc3339_of(s),
        rfc3339_of(s + seq!['Z']),
        calendar_date_of(s, calendar_format()),
    )
}

/// Picks the normalized form among the results of the three readings.
pub fn first_successful_reading(
    with_offset: Option<String>,
    as_utc: Option<String>,
    date_only: Option<String>,
) -> (r: Option<String>)
    ensures
        opt_view(r) == first_reading(opt_view(with_offset), opt_view(as_utc), opt_view(date_only)),
{
    proof {
        reveal_strlit("T00:00:00+00:00");
    }
    match with_offset {
        Some(t) => Some(t),
        None => match as_utc {
            Some(t) => Some(t),
            None => match date_only {
                Some(d) => Some(d.concat("T00:00:00+00:00")),
                None => None,
            },
        },
    }
}

/// Normalizes a date value; a value of no accepted form gives `None`.
pub fn normalize_date(s: &str) -> (r: Option<String>)
    ensures
        opt_view(r) == normalized_date(s@),
{
    proof {
        reveal_strlit("Z");
        reveal_strlit("%Y-%m-%d");
    }
    let with_offset = parse_rfc3339(s);
    let utc = String::from_str(s).concat("Z");
    let as_utc = parse_rfc3339(utc.as_str());
    let date_only = parse_calendar_date(s, "%Y-%m-%d");
    proof {
        assert(utc@ == s@ + seq!['Z']);
        assert("%Y-%m-%d"@ == calendar_format());
    }
    first_successful_reading(with_offset, as_utc, date_only)
}

/// Why a date value was refused.
#[derive(Debug, Clone, Copy, PartialEq, Eq, Structural)]
pub enum DateError {
    /// The value has none of the accepted forms.
    Unrecognized,
}

/// Normalizes a date value that must be present: a value of no accepted form
/// is an error.
pub fn normalize_required_date(s: &str) -> (r: Result<String, DateError>)
    ensures
        match normalized_date(s@) {
            Some(t) => r is Ok && r->Ok_0@ == t,
            None => r == Err::<String, DateError>(DateError::Unrecognized),
        },
{
    match normalize_date(s) {
        Some(t) => Ok(t),
        None => Err(DateError::Unrecognized),
    }
}

/// Checks a string against the TOML datetime grammar and gives its canonical
/// TOML form.
pub fn toml_datetime(s: &str) -> (r: Result<String, DateError>)
    ensures
        match toml_datetime_of(s@) {
            Some(t) => r is Ok && r->Ok_0@ == t,
            None => r == Err::<String, DateError>(DateError::Unrecognized),
        },
{
    match parse_toml_datetime(s) {
        Ok(t) => Ok(t),
        Err(_) => Err(DateError::Unrecognized),
    }
}

} // verus!
