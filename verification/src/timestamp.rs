//! Points in time, counted in microseconds since the Unix epoch.

use crate::error::ApiError;
use std::time::{Duration, SystemTime};
use vstd::prelude::*;

verus! {

/// `SystemTime` of std, a reading of the wall clock. It is carried from
/// the clock to the subtraction of the epoch; nothing is known of what it
/// holds.
#[verifier::external_type_specification]
#[verifier::external_body]
pub struct ExSystemTime(std::time::SystemTime);

/// `SystemTime::now` of std: the reading of the wall clock. Nothing is claimed
/// of the value.
#[verifier::external_body]
fn wall_clock() -> SystemTime {
    SystemTime::now()
}

/// `SystemTime::duration_since` of std, taken from the Unix epoch: the time
/// passed since then, or `None` where the clock stands before the epoch.
/// Nothing is claimed of the value.
#[verifier::external_body]
fn since_epoch(moment: &SystemTime) -> Option<Duration> {
    moment.duration_since(std::time::UNIX_EPOCH).ok()
}

/// `Duration::as_micros` of std: the whole microseconds in the duration.
/// Nothing is claimed of the value.
#[verifier::external_body]
pub(crate) fn whole_micros(duration: &Duration) -> u128 {
    duration.as_micros()
}

/// A moment as whole microseconds since the Unix epoch. It is the primary key
/// of a time-series row.
#[derive(Clone, Copy, Debug, PartialEq, Eq, Structural)]
pub struct Timestamp {
    pub microseconds: u64,
}

/// The low 64 bits of a count of microseconds.
pub open spec fn low_micros(micros: u128) -> u64 {
    (micros % 0x1_0000_0000_0000_0000) as u64
}

impl Timestamp {
    /// The moment that stands `micros` microseconds after the epoch; a count
    /// beyond 64 bits keeps its low 64 bits.
    pub fn from_micros(micros: u128) -> (stamp: Self)
        ensures
            stamp.microseconds == low_micros(micros),
    {
        Timestamp { microseconds: (micros % 0x1_0000_0000_0000_0000) as u64 }
    }

    /// The current moment by the wall clock, or `None` where the clock gives
    /// no reading after the epoch. The moment is what the clock read, as
    /// whole microseconds since the epoch, kept to 64 bits.
    pub fn now() -> (moment: Option<Self>)
        ensures
            exists|reading: Option<u128>| #[trigger] clock_gave(reading) && moment == moment_read(
                reading,
            ),
    {
        let clock = wall_clock();
        match since_epoch(&clock) {
            Some(duration) => {
                let micros: u128 = whole_micros(&duration);
                assert(clock_gave(Some(micros))) by {
                    assert(call_ensures(wall_clock, (), clock));
                    assert(call_ensures(since_epoch, (&clock,), Some(duration)));
                    assert(call_ensures(whole_micros, (&duration,), micros));
                }
                Some(Self::from_micros(micros))
            },
            None => {
                assert(clock_gave(None)) by {
                    assert(call_ensures(wall_clock, (), clock));
                    assert(call_ensures(since_epoch, (&clock,), None::<Duration>));
                }
                None
            },
        }
    }
}

/// Whether `reading` is what the wall clock gave when it was read: the
/// whole microseconds that lie between the Unix epoch and the reading, or
/// `None` where the reading stands before the epoch. Nothing is known of
/// the number itself.
pub closed spec fn clock_gave(reading: Option<u128>) -> bool {
    exists|clock: SystemTime| #[trigger]
        call_ensures(wall_clock, (), clock) && match reading {
            Some(micros) => exists|duration: Duration| #[trigger]
                call_ensures(since_epoch, (&clock,), Some(duration)) && call_ensures(
                    whole_micros,
                    (&duration,),
                    micros,
                ),
            None => call_ensures(since_epoch, (&clock,), None::<Duration>),
        }
}

/// The moment that a reading of the clock stands for: the microseconds of
/// the reading, kept to their low 64 bits; no reading gives no moment.
pub open spec fn moment_read(reading: Option<u128>) -> Option<Timestamp> {
    match reading {
        Some(micros) => Some(Timestamp { microseconds: low_micros(micros) }),
        None => None,
    }
}

/// The moment that a text in the form of RFC 3339 names, as microseconds
/// since the Unix epoch, or `None` where the text has another form. It is
/// what `chrono` makes of the text.
pub uninterp spec fn rfc3339_micros(text: Seq<char>) -> Option<i64>;

/// `DateTime::<Utc>::from_str` of chrono, followed by
/// `DateTime::timestamp_micros`: the text is read as a date and time with an
/// offset, in a relaxed form of RFC 3339, and the moment is handed back as
/// the microseconds that lie between the Unix epoch and it; a text that
/// cannot be read so gives `None`. The contract gives the result its name
/// and claims nothing else of it.
#[verifier::external_body]
fn read_rfc3339(text: &str) -> (micros: Option<i64>)
    ensures
        micros == rfc3339_micros(text@),
{
    match text.parse::<chrono::DateTime<chrono::Utc>>() {
        Ok(moment) => Some(moment.timestamp_micros()),
        Err(_) => None,
    }
}

/// The moment that a parsed text stands for: a count of microseconds that
/// is not negative is the moment; a text that could not be read, or a
/// moment before the epoch, is an invalid timestamp.
pub open spec fn moment_of(parsed: Option<i64>) -> Result<Timestamp, ApiError> {
    match parsed {
        Some(micros) => if micros >= 0 {
            Ok(Timestamp { microseconds: micros as u64 })
        } else {
            Err(ApiError::InvalidTimestamp)
        },
        None => Err(ApiError::InvalidTimestamp),
    }
}

/// The moment to file a pushed value under: the one that the sender named,
/// if its text can be read; without a text, the reading of the clock. A text
/// that cannot be read is an error even where the clock could stand in, and
/// so is a clock that gives no reading.
pub open spec fn moment_chosen(given: Option<Option<i64>>, clock: Option<Timestamp>) -> Result<
    Timestamp,
    ApiError,
> {
    match given {
        Some(parsed) => moment_of(parsed),
        None => match clock {
            Some(stamp) => Ok(stamp),
            None => Err(ApiError::InvalidTimestamp),
        },
    }
}

impl Timestamp {
    /// The moment that a parsed text stands for.
    pub fn from_parsed(parsed: Option<i64>) -> (moment: Result<Timestamp, ApiError>)
        ensures
            moment == moment_of(parsed),
    {
        match parsed {
            Some(micros) => if micros >= 0 {
                Ok(Timestamp { microseconds: micros as u64 })
            } else {
                Err(ApiError::InvalidTimestamp)
            },
            None => Err(ApiError::InvalidTimestamp),
        }
    }

    /// Reads a moment from a text in the form of RFC 3339.
    pub fn parse(text: &str) -> (moment: Result<Timestamp, ApiError>)
        ensures
            moment == moment_of(rfc3339_micros(text@)),
    {
        Self::from_parsed(read_rfc3339(text))
    }

    /// The moment to file a pushed value under, from what the sender named
    /// (already parsed) and the reading of the clock.
    pub fn pick(given: Option<Option<i64>>, clock: Option<Timestamp>) -> (moment: Result<
        Timestamp,
        ApiError,
    >)
        ensures
            moment == moment_chosen(given, clock),
    {
        match given {
            Some(parsed) => Self::from_parsed(parsed),
            None => match clock {
                Some(stamp) => Ok(stamp),
                None => Err(ApiError::InvalidTimestamp),
            },
        }
    }

    /// The moment to file a pushed value under: the one that `text` names,
    /// or, where there is no text, the moment that the clock reads.
    pub fn parse_or_now(text: Option<&str>) -> (moment: Result<Timestamp, ApiError>)
        ensures
            match text {
                Some(given) => moment == moment_of(rfc3339_micros(given@)),
                None => exists|reading: Option<u128>| #[trigger]
                    clock_gave(reading) && moment == moment_chosen(None, moment_read(reading)),
            },
    {
        match text {
            Some(given) => Self::parse(given),
            None => {
                let clock = Self::now();
                let ghost reading = choose|reading: Option<u128>| #[trigger]
                    clock_gave(reading) && clock == moment_read(reading);
                let moment = Self::pick(None, clock);
                assert(clock_gave(reading) && moment == moment_chosen(None, moment_read(reading)));
                moment
            },
        }
    }
}

} // verus!
