//! Strict RFC 3339 timestamp codec: encoding a timestamp with its time-zone
//! offset to text, and decoding such text back, with a typed failure that
//! keeps the offending input.

use vstd::prelude::*;
use vstd::string::StringExecFns;

verus! {

/// The text that chrono's `DateTime::to_rfc3339` returns for the instant
/// `secs` seconds (plus `nanos` nanoseconds) after the Unix epoch, rendered
/// at the fixed offset `offset_secs` east of UTC.
pub uninterp spec fn rfc3339_format(secs: int, nanos: int, offset_secs: int) -> Seq<char>;

/// What chrono's `DateTime::parse_from_rfc3339` returns for a text: `None`
/// where the text is not a valid RFC 3339 date-time, else the instant as
/// seconds and nanoseconds after the Unix epoch and the offset east of UTC
/// that the text itself carries.
pub uninterp spec fn rfc3339_parse(s: Seq<char>) -> Option<(int, int, int)>;

/// A timestamp with an associated time-zone offset: an instant, held as
/// seconds and nanoseconds after the Unix epoch (in UTC), together with the
/// offset east of UTC in which it is rendered. `wf` bounds the fields to what
/// an RFC 3339 text with a numeric offset can carry.
#[derive(Debug, Clone, Copy, PartialEq, Eq, Structural)]
pub struct Timestamp {
    /// Whole seconds after the Unix epoch, in UTC.
    pub secs: i64,
    /// Nanoseconds past the second; at or above 1,000,000,000 it represents
    /// a leap second, which RFC 3339 writes as second 60.
    pub nanos: u32,
    /// The offset east of UTC, in seconds.
    pub offset_secs: i32,
}

impl Timestamp {
    /// What an RFC 3339 text with a numeric offset can carry: an offset of
    /// whole minutes below a day, a nanosecond count below two seconds (a
    /// leap second only at the end of a minute), and a local date within
    /// years 0000 through 9999.
    pub open spec fn wf(self) -> bool {
        &&& -86400 < self.offset_secs < 86400
        &&& self.offset_secs as int % 60 == 0
        &&& self.nanos < 2_000_000_000
        &&& self.nanos >= 1_000_000_000 ==> self.secs as int % 60 == 59
        &&& -62167219200 <= self.secs + self.offset_secs <= 253402300799
    }

    /// Builds a well-formed timestamp from its parts; `None` exactly where
    /// the parts are out of the representable bounds.
    pub fn new(secs: i64, nanos: u32, offset_secs: i32) -> (r: Option<Timestamp>)
        ensures
            r matches Some(t) ==> t == (Timestamp { secs, nanos, offset_secs }) && t.wf(),
            r is Some <==> (Timestamp { secs, nanos, offset_secs }).wf(),
    {
        let t = Timestamp { secs, nanos, offset_secs };
        let offset_whole_minutes = match offset_secs.checked_rem_euclid(60) {
            Some(m) => m == 0,
            None => false,
        };
        let offset_ok = -86400 < offset_secs && offset_secs < 86400 && offset_whole_minutes;
        let end_of_minute = match secs.checked_rem_euclid(60) {
            Some(m) => m == 59,
            None => false,
        };
        let leap_ok = nanos < 1_000_000_000 || (nanos < 2_000_000_000 && end_of_minute);
        let local_ok = -62167219200 <= secs as i128 + offset_secs as i128 && secs as i128
            + offset_secs as i128 <= 253402300799;
        if offset_ok && leap_ok && local_ok {
            Some(t)
        } else {
            None
        }
    }

    /// Encodes the timestamp as its RFC 3339 text, offset preserved (not
    /// normalized to UTC). Away from a leap second the text decodes back to
    /// this very timestamp: instant and offset both survive the round trip.
    pub fn encode_rfc3339(&self) -> (r: String)
        requires
            self.wf(),
        ensures
            r@ == rfc3339_format(self.secs as int, self.nanos as int, self.offset_secs as int),
            self.nanos < 1_000_000_000 ==> rfc3339_parse(r@) == Some(
                (self.secs as int, self.nanos as int, self.offset_secs as int),
            ),
    {
        chrono_to_rfc3339(self.secs, self.nanos, self.offset_secs).unwrap()
    }

    /// Decodes a text as a strict RFC 3339 timestamp. Succeeds exactly on the
    /// texts the format accepts; any other input fails with an error that
    /// keeps the offending text and the parser's reason.
    pub fn decode_rfc3339(s: &str) -> (r: Result<Timestamp, TimestampParseError>)
        ensures
            r is Ok <==> rfc3339_parse(s@) is Some,
            r matches Ok(t) ==> rfc3339_parse(s@) == Some(
                (t.secs as int, t.nanos as int, t.offset_secs as int),
            ) && t.wf(),
            r matches Err(e) ==> e.input@ == s@,
    {
        match chrono_parse_rfc3339(s) {
            Ok((secs, nanos, offset_secs)) => Ok(Timestamp { secs, nanos, offset_secs }),
            Err(reason) => Err(TimestampParseError { input: s.to_owned(), reason }),
        }
    }
}

/// A failed RFC 3339 decode: the offending input text, kept verbatim, and the
/// parser's own reason.
#[derive(Debug, Clone, PartialEq, Eq)]
pub struct TimestampParseError {
    /// The text that was handed to the decoder, unchanged.
    pub input: String,
    /// The underlying parse failure, rendered by the parser.
    pub reason: String,
}

impl TimestampParseError {
    /// A human-readable description; the offending input stands in it whole.
    pub fn message(&self) -> (r: String)
        ensures
            r@ == "invalid timestamp "@ + self.input@ + ": "@ + self.reason@,
    {
        let mut m = "invalid timestamp ".to_owned();
        m.append(self.input.as_str());
        m.append(": ");
        m.append(self.reason.as_str());
        m
    }
}

/// Relies on chrono's `DateTime::to_rfc3339` (the constructors
/// `FixedOffset::east_opt`, `DateTime::from_timestamp` and `with_timezone`
/// only turn the plain parts into the `DateTime` it is called on):
/// the text it writes is a function of the parts alone, here named
/// `rfc3339_format`; the constructors succeed on the stated ranges; and on a
/// text written with a whole-minute offset and no leap second,
/// `DateTime::parse_from_rfc3339` returns the same instant and offset.
#[verifier::external_body]
fn chrono_to_rfc3339(secs: i64, nanos: u32, offset_secs: i32) -> (r: Option<String>)
    ensures
        r matches Some(s) ==> s@ == rfc3339_format(secs as int, nanos as int, offset_secs as int),
        (-86400 < offset_secs < 86400 && (nanos < 1_000_000_000 || (nanos < 2_000_000_000
            && secs as int % 60 == 59)) && -62167305600 <= secs <= 253402387199) ==> r is Some,
        (r is Some && offset_secs as int % 60 == 0 && nanos < 1_000_000_000 && -62167219200 <= secs
            + offset_secs <= 253402300799) ==> rfc3339_parse(
            rfc3339_format(secs as int, nanos as int, offset_secs as int),
        ) == Some((secs as int, nanos as int, offset_secs as int)),
{
    let off = chrono::FixedOffset::east_opt(offset_secs)?;
    let utc = chrono::DateTime::from_timestamp(secs, nanos)?;
    Some(utc.with_timezone(&off).to_rfc3339())
}

/// Relies on chrono's `DateTime::parse_from_rfc3339` (`timestamp`,
/// `timestamp_subsec_nanos` and `offset` only take the result apart into
/// plain parts): what it returns is a function of the text alone, here named
/// `rfc3339_parse`; it accepts only a four-digit year, so the local date lies
/// within years 0000 through 9999; the offset it reads is whole minutes below
/// a day; and a nanosecond count at or past one second (a leap second, read
/// from second 60) comes only at the end of a minute.
#[verifier::external_body]
fn chrono_parse_rfc3339(s: &str) -> (r: Result<(i64, u32, i32), String>)
    ensures
        r matches Ok(p) ==> rfc3339_parse(s@) == Some((p.0 as int, p.1 as int, p.2 as int)),
        r is Err ==> rfc3339_parse(s@) is None,
        r matches Ok(p) ==> {
            &&& -86400 < p.2 < 86400
            &&& p.2 as int % 60 == 0
            &&& p.1 < 2_000_000_000
            &&& p.1 >= 1_000_000_000 ==> p.0 as int % 60 == 59
            &&& -62167219200 <= p.0 + p.2 <= 253402300799
        },
{
    match chrono::DateTime::parse_from_rfc3339(s) {
        Ok(dt) => Ok((dt.timestamp(), dt.timestamp_subsec_nanos(), dt.offset().local_minus_utc())),
        Err(e) => Err(e.to_string()),
    }
}

} // verus!
