//! Resolution of the meter's compact local timestamps to absolute time, and
//! the reading that a cycle keeps.

use crate::p1::models::P1Data;
use chrono::TimeZone;
use vstd::prelude::*;
use vstd::string::*;
use vstd::utf8::*;

verus! {

/// Why a compact timestamp could not be resolved.
#[derive(Debug, Clone, Copy, PartialEq, Eq, Structural)]
pub enum TimestampError {
    /// The text is not 12 bytes long.
    InvalidLength,
    /// The text is 12 bytes long but names no date and time.
    InvalidFormat,
    /// The civil time maps to no instant, or to more than one.
    AmbiguousLocalTime,
}

/// The instants to which a civil time maps in a time zone.
#[derive(Debug, Clone, Copy, PartialEq, Eq, Structural)]
pub enum LocalMapping {
    /// The civil time was skipped by a clock change: it maps to no instant.
    Skipped,
    /// The civil time maps to this one instant, in seconds since the epoch.
    Single(i64),
    /// The civil time occurred twice, at these two instants.
    Ambiguous(i64, i64),
}

/// The compact timestamp `t` written out as a date and a time of this
/// century: `20YY-MM-DD HH:mm:ss`.
pub open spec fn expanded_text(t: Seq<char>) -> Seq<char> {
    "20"@ + t.subrange(0, 2) + "-"@ + t.subrange(2, 4) + "-"@ + t.subrange(4, 6) + " "@
        + t.subrange(6, 8) + ":"@ + t.subrange(8, 10) + ":"@ + t.subrange(10, 12)
}

/// What `chrono::NaiveDateTime::parse_from_str` makes of `text` under the
/// format `%Y-%m-%d %H:%M:%S`: the seconds from 1970-01-01 00:00:00 to the
/// date and time read, both on the same civil clock, or `None` where it
/// reads none.
pub uninterp spec fn chrono_civil_seconds(text: Seq<char>) -> Option<i64>;

/// What is wrong with the shape of the compact timestamp `t`, if anything:
/// it must be 12 bytes long and hold ASCII only.
pub open spec fn shape_error(t: Seq<char>) -> Option<TimestampError> {
    if encode_utf8(t).len() != 12 {
        Some(TimestampError::InvalidLength)
    } else if !is_ascii_chars(t) {
        Some(TimestampError::InvalidFormat)
    } else {
        None
    }
}

/// The civil time that the compact timestamp `t` names, in seconds from
/// 1970-01-01 00:00:00 on the same clock.
pub open spec fn civil_time_of(t: Seq<char>) -> Result<i64, TimestampError> {
    match shape_error(t) {
        Some(e) => Err(e),
        None => match chrono_civil_seconds(expanded_text(t)) {
            Some(seconds) => Ok(seconds),
            None => Err(TimestampError::InvalidFormat),
        },
    }
}

/// The instant lies less than a day from the civil clock's reading, as it
/// does in every time zone.
pub open spec fn within_a_day(civil_seconds: i64, instant: i64) -> bool {
    -86_400 < instant - civil_seconds < 86_400
}

/// Every instant of the mapping lies within a day of the civil time.
pub open spec fn maps_within_a_day(civil_seconds: i64, mapping: LocalMapping) -> bool {
    match mapping {
        LocalMapping::Skipped => true,
        LocalMapping::Single(instant) => within_a_day(civil_seconds, instant),
        LocalMapping::Ambiguous(earlier, later) => within_a_day(civil_seconds, earlier)
            && within_a_day(civil_seconds, later),
    }
}

/// The instant that a mapping settles on: the single one, if there is
/// exactly one.
pub open spec fn instant_of(mapping: LocalMapping) -> Result<i64, TimestampError> {
    match mapping {
        LocalMapping::Single(instant) => Ok(instant),
        LocalMapping::Skipped => Err(TimestampError::AmbiguousLocalTime),
        LocalMapping::Ambiguous(_, _) => Err(TimestampError::AmbiguousLocalTime),
    }
}

/// Calls `chrono::NaiveDateTime::parse_from_str` with the format
/// `%Y-%m-%d %H:%M:%S` and hands back the date and time read as seconds on
/// the civil clock. The contract gives that result its name and claims
/// nothing more of it.
#[verifier::external_body]
fn parse_civil_seconds(text: &str) -> (seconds: Option<i64>)
    ensures
        seconds == chrono_civil_seconds(text@),
{
    match chrono::NaiveDateTime::parse_from_str(text, "%Y-%m-%d %H:%M:%S") {
        Ok(naive) => Some(naive.and_utc().timestamp()),
        Err(_) => None,
    }
}

/// Calls `chrono::TimeZone::from_local_datetime` on `chrono::Local`: the
/// instants to which the civil time maps in the time zone of this machine.
/// Which ones depends on the machine. The contract claims only what holds
/// in every zone: chrono's offsets from UTC lie strictly within a day, so
/// each instant that comes back does too.
#[verifier::external_body]
fn local_mapping(civil_seconds: i64) -> (mapping: LocalMapping)
    ensures
        maps_within_a_day(civil_seconds, mapping),
{
    match chrono::DateTime::from_timestamp(civil_seconds, 0) {
        Some(civil) => match chrono::Local.from_local_datetime(&civil.naive_utc()) {
            chrono::LocalResult::Single(t) => LocalMapping::Single(t.timestamp()),
            chrono::LocalResult::Ambiguous(a, b) => LocalMapping::Ambiguous(
                a.timestamp(),
                b.timestamp(),
            ),
            chrono::LocalResult::None => LocalMapping::Skipped,
        },
        None => LocalMapping::Skipped,
    }
}

/// Calls `chrono::Utc::now`: the current time in seconds since the epoch.
/// The contract claims nothing of it.
#[verifier::external_body]
fn utc_now_seconds() -> (now: i64) {
    chrono::Utc::now().timestamp()
}

/// Writes a compact timestamp out as `20YY-MM-DD HH:mm:ss`.
pub fn expand_timestamp(timestamp: &str) -> (text: Result<String, TimestampError>)
    ensures
        match text {
            Ok(s) => shape_error(timestamp@) is None && s@ == expanded_text(timestamp@),
            Err(e) => shape_error(timestamp@) == Some(e),
        },
{
    if timestamp.as_bytes().len() != 12 {
        return Err(TimestampError::InvalidLength);
    }
    if !timestamp.is_ascii() {
        return Err(TimestampError::InvalidFormat);
    }
    proof {
        is_ascii_spec_bytes(timestamp);
    }
    let mut text = String::from_str("20");
    text.append(timestamp.substring_ascii(0, 2));
    text.append("-");
    text.append(timestamp.substring_ascii(2, 4));
    text.append("-");
    text.append(timestamp.substring_ascii(4, 6));
    text.append(" ");
    text.append(timestamp.substring_ascii(6, 8));
    text.append(":");
    text.append(timestamp.substring_ascii(8, 10));
    text.append(":");
    text.append(timestamp.substring_ascii(10, 12));
    Ok(text)
}

/// Reads the civil date and time that a compact timestamp `YYMMDDHHmmss`
/// names, in seconds from 1970-01-01 00:00:00 on the same clock.
pub fn parse_civil_time(timestamp: &str) -> (civil: Result<i64, TimestampError>)
    ensures
        civil == civil_time_of(timestamp@),
        encode_utf8(timestamp@).len() != 12 ==> civil == Err::<i64, TimestampError>(
            TimestampError::InvalidLength,
        ),
{
    match expand_timestamp(timestamp) {
        Err(e) => Err(e),
        Ok(text) => match parse_civil_seconds(text.as_str()) {
            Some(seconds) => Ok(seconds),
            None => Err(TimestampError::InvalidFormat),
        },
    }
}

/// Settles on the instant of a civil time from what it maps to: a civil
/// time that maps to no instant or to two is ambiguous.
pub fn resolve_mapping(mapping: LocalMapping) -> (instant: Result<i64, TimestampError>)
    ensures
        instant == instant_of(mapping),
{
    match mapping {
        LocalMapping::Single(instant) => Ok(instant),
        LocalMapping::Skipped => Err(TimestampError::AmbiguousLocalTime),
        LocalMapping::Ambiguous(_, _) => Err(TimestampError::AmbiguousLocalTime),
    }
}

/// Resolves a compact timestamp `YYMMDDHHmmss`, read in the time zone of
/// this machine, to seconds since the epoch. A text that names no civil
/// time fails as `parse_civil_time` does; one that names a civil time
/// resolves to an instant within a day of it or, where the zone maps it to
/// none or to two, fails as ambiguous.
pub fn parse_p1_timestamp(timestamp: &str) -> (instant: Result<i64, TimestampError>)
    ensures
        match civil_time_of(timestamp@) {
            Err(e) => instant == Err::<i64, TimestampError>(e),
            Ok(civil) => match instant {
                Ok(t) => within_a_day(civil, t),
                Err(e) => e == TimestampError::AmbiguousLocalTime,
            },
        },
        encode_utf8(timestamp@).len() != 12 ==> instant == Err::<i64, TimestampError>(
            TimestampError::InvalidLength,
        ),
{
    match parse_civil_time(timestamp) {
        Err(e) => Err(e),
        Ok(seconds) => resolve_mapping(local_mapping(seconds)),
    }
}

/// A timestamp of the meter as a cycle keeps it.
#[derive(Debug, Clone, Copy, PartialEq, Eq, Structural)]
pub struct ResolvedTimestamp {
    /// Seconds since the epoch.
    pub instant: i64,
    /// Why the clock stands in for the meter's own time, where it does.
    pub fallback: Option<TimestampError>,
}

/// What is kept of a timestamp: the instant it resolved to, or else the
/// time `now` together with the reason.
pub open spec fn kept_timestamp(parsed: Result<i64, TimestampError>, now: i64) -> ResolvedTimestamp {
    match parsed {
        Ok(instant) => ResolvedTimestamp { instant, fallback: None },
        Err(e) => ResolvedTimestamp { instant: now, fallback: Some(e) },
    }
}

/// Keeps the instant that a timestamp resolved to, or falls back to `now`
/// and says why.
pub fn instant_or_now(parsed: Result<i64, TimestampError>, now: i64) -> (kept: ResolvedTimestamp)
    ensures
        kept == kept_timestamp(parsed, now),
{
    match parsed {
        Ok(instant) => ResolvedTimestamp { instant, fallback: None },
        Err(e) => ResolvedTimestamp { instant: now, fallback: Some(e) },
    }
}

/// What may come of resolving the compact timestamp `t`: a text that names
/// no civil time falls back with its error; one that names a civil time
/// resolves to an instant within a day of it, or falls back as ambiguous
/// where the zone decides so.
pub open spec fn resolution_allowed(t: Seq<char>, kept: ResolvedTimestamp) -> bool {
    match civil_time_of(t) {
        Err(e) => kept.fallback == Some(e),
        Ok(civil) => match kept.fallback {
            None => within_a_day(civil, kept.instant),
            Some(e) => e == TimestampError::AmbiguousLocalTime,
        },
    }
}

/// The reading `resolved` is what `raw` resolves to: the document as it
/// came, and each of the two timestamps resolved or fallen back on its own.
pub open spec fn resolves(raw: P1Data, resolved: ResolvedReading) -> bool {
    &&& resolved.reading.raw == raw
    &&& resolution_allowed(
        raw.montly_power_peak_timestamp@,
        ResolvedTimestamp {
            instant: resolved.reading.monthly_power_peak_timestamp_utc,
            fallback: resolved.peak_fallback,
        },
    )
    &&& resolution_allowed(
        raw.gas_timestamp@,
        ResolvedTimestamp {
            instant: resolved.reading.gas_timestamp_utc,
            fallback: resolved.gas_fallback,
        },
    )
}

/// Resolves one timestamp of the meter. Where it cannot be resolved the
/// current time stands in for it, and the reason is handed back with it.
pub fn resolve_timestamp(timestamp: &str) -> (kept: ResolvedTimestamp)
    ensures
        resolution_allowed(timestamp@, kept),
{
    let parsed = parse_p1_timestamp(timestamp);
    // The clock is read only where it has to stand in.
    let now = match parsed {
        Ok(instant) => instant,
        Err(_) => utc_now_seconds(),
    };
    instant_or_now(parsed, now)
}

/// A meter reading with its two timestamps resolved to seconds since the
/// epoch.
#[derive(Debug, Clone)]
pub struct P1Reading {
    pub raw: P1Data,
    pub monthly_power_peak_timestamp_utc: i64,
    pub gas_timestamp_utc: i64,
}

/// A reading together with the fallbacks made while resolving it, for the
/// caller to report as warnings.
#[derive(Debug, Clone)]
pub struct ResolvedReading {
    pub reading: P1Reading,
    /// Why the peak's timestamp is the current time, where it is.
    pub peak_fallback: Option<TimestampError>,
    /// Why the gas timestamp is the current time, where it is.
    pub gas_fallback: Option<TimestampError>,
}

/// Puts a reading together from the document and its two resolved
/// timestamps.
pub fn assemble_reading(raw: P1Data, peak: ResolvedTimestamp, gas: ResolvedTimestamp) -> (resolved:
    ResolvedReading)
    ensures
        resolved.reading.raw == raw,
        resolved.reading.monthly_power_peak_timestamp_utc == peak.instant,
        resolved.reading.gas_timestamp_utc == gas.instant,
        resolved.peak_fallback == peak.fallback,
        resolved.gas_fallback == gas.fallback,
{
    ResolvedReading {
        reading: P1Reading {
            raw,
            monthly_power_peak_timestamp_utc: peak.instant,
            gas_timestamp_utc: gas.instant,
        },
        peak_fallback: peak.fallback,
        gas_fallback: gas.fallback,
    }
}

/// Resolves the two timestamps of a document. Neither can fail the
/// reading: each falls back to the current time on its own.
pub fn resolve_reading(raw: P1Data) -> (resolved: ResolvedReading)
    ensures
        resolves(raw, resolved),
{
    let peak = resolve_timestamp(raw.montly_power_peak_timestamp.as_str());
    let gas = resolve_timestamp(raw.gas_timestamp.as_str());
    let resolved = assemble_reading(raw, peak, gas);
    proof {
        assert(ResolvedTimestamp {
            instant: resolved.reading.monthly_power_peak_timestamp_utc,
            fallback: resolved.peak_fallback,
        } == peak);
        assert(ResolvedTimestamp {
            instant: resolved.reading.gas_timestamp_utc,
            fallback: resolved.gas_fallback,
        } == gas);
    }
    resolved
}

/// How the request for the meter's document ended.
#[derive(Debug, Clone)]
pub enum MeterFetch {
    /// The request did not complete.
    NetworkFailure,
    /// The body was not a document of the meter.
    ParseFailure,
    /// The document.
    Document(P1Data),
}

/// The meter's part of a cycle: absent when the document could not be
/// fetched or decoded, and otherwise the reading with its timestamps
/// resolved.
pub fn read_p1(fetch: MeterFetch) -> (reading: Option<ResolvedReading>)
    ensures
        match fetch {
            MeterFetch::NetworkFailure => reading is None,
            MeterFetch::ParseFailure => reading is None,
            MeterFetch::Document(raw) => reading matches Some(resolved) && resolves(raw, resolved),
        },
{
    match fetch {
        MeterFetch::NetworkFailure => None,
        MeterFetch::ParseFailure => None,
        MeterFetch::Document(raw) => Some(resolve_reading(raw)),
    }
}

} // verus!
