//! `PathDateTime`: a point in time of a file (seconds and nanoseconds since
//! the Unix epoch) and its calendar fields in UTC, read with `chrono`.
use vstd::prelude::*;
use chrono::{Datelike, Timelike};

use crate::errors::Error;
use crate::text::owned;

verus! {

/// The UTC calendar fields of a time (`chrono::DateTime::from_timestamp`):
/// year, month, day, hour, minute, second; `None` where chrono has no such
/// time or the year does not fit in a `u16`.
pub uninterp spec fn utc_fields(secs: i64, nanos: u32) -> Option<Seq<u16>>;

/// Computes `chrono::DateTime::from_timestamp(secs, nanos)` and reads its
/// year, month, day, hour, minute and second.  The contract names the
/// result.
#[verifier::external_body]
fn utc_calendar(secs: i64, nanos: u32) -> (r: Option<[u16; 6]>)
    ensures
        match r {
            Some(a) => utc_fields(secs, nanos) == Some(a@),
            None => utc_fields(secs, nanos) is None,
        },
{
    let t = chrono::DateTime::from_timestamp(secs, nanos)?;
    let year = u16::try_from(t.year()).ok()?;
    Some([year, t.month() as u16, t.day() as u16, t.hour() as u16, t.minute() as u16, t.second() as u16])
}

/// What `chrono::NaiveDateTime::parse_from_str` reads from `text` in
/// `format`, taken as UTC: seconds and nanoseconds since the epoch, or the
/// text of its error.
pub uninterp spec fn parsed_utc(text: Seq<char>, format: Seq<char>) -> Result<(i64, u32), Seq<char>>;

/// Calls `chrono::NaiveDateTime::parse_from_str(text, format)` and reads the
/// result as a UTC time (`and_utc`), or shows its error.  The contract names
/// the result.
#[verifier::external_body]
fn parse_utc(text: &str, format: &str) -> (r: Result<(i64, u32), String>)
    ensures
        match r {
            Ok(t) => parsed_utc(text@, format@) == Ok::<(i64, u32), Seq<char>>(t),
            Err(m) => parsed_utc(text@, format@) == Err::<(i64, u32), Seq<char>>(m@),
        },
{
    match chrono::NaiveDateTime::parse_from_str(text, format) {
        Ok(t) => {
            let utc = t.and_utc();
            Ok((utc.timestamp(), utc.timestamp_subsec_nanos()))
        },
        Err(e) => Err(e.to_string()),
    }
}

/// A point in time as seconds and nanoseconds since the Unix epoch.
#[derive(Debug, Clone, Copy, PartialEq, Eq, Structural)]
pub struct PathDateTime {
    pub secs: i64,
    pub nanos: u32,
}

/// The big-endian bytes of each number, in order.
pub open spec fn be_bytes(fields: Seq<u16>) -> Seq<u8>
    decreases fields.len(),
{
    if fields.len() == 0 {
        Seq::empty()
    } else {
        be_bytes(fields.drop_last()) + seq![(fields.last() / 256) as u8, (fields.last() % 256) as u8]
    }
}

impl PathDateTime {
    /// The time `secs` seconds and `nanos` nanoseconds after the epoch.
    pub fn from_timestamp(secs: i64, nanos: u32) -> (r: PathDateTime)
        ensures
            r == (PathDateTime { secs, nanos }),
    {
        PathDateTime { secs, nanos }
    }

    /// The time that `text` spells in `format`, read as UTC; a `ParseError`
    /// naming both where it does not read.
    pub fn parse_from_str(text: &str, format: &str) -> (r: Result<PathDateTime, Error>)
        ensures
            match parsed_utc(text@, format@) {
                Ok((secs, nanos)) => r == Ok::<PathDateTime, Error>(PathDateTime { secs, nanos }),
                Err(m) => r matches Err(Error::ParseError(e)) && e@ == "error parsing '"@ + text@
                    + "' with format '"@ + format@ + "': "@ + m,
            },
    {
        match parse_utc(text, format) {
            Ok((secs, nanos)) => Ok(PathDateTime { secs, nanos }),
            Err(m) => {
                let mut e = owned("error parsing '");
                e.append(text);
                e.append("' with format '");
                e.append(format);
                e.append("': ");
                e.append(m.as_str());
                Err(Error::ParseError(e))
            },
        }
    }

    /// The UTC year, month, day, hour, minute and second.
    pub fn to_array(&self) -> (r: [u16; 6])
        requires
            utc_fields(self.secs, self.nanos) is Some,
        ensures
            utc_fields(self.secs, self.nanos) == Some(r@),
    {
        match utc_calendar(self.secs, self.nanos) {
            Some(a) => a,
            None => {
                assert(false);
                [0u16; 6]
            },
        }
    }

    /// Like `to_array`, but `None` where the time has no UTC calendar fields
    /// that fit.
    pub fn checked_to_array(&self) -> (r: Option<[u16; 6]>)
        ensures
            match r {
                Some(a) => utc_fields(self.secs, self.nanos) == Some(a@),
                None => utc_fields(self.secs, self.nanos) is None,
            },
    {
        match utc_calendar(self.secs, self.nanos) {
            Some(_) => Some(self.to_array()),
            None => None,
        }
    }

    /// The calendar fields as big-endian bytes, two per field.
    pub fn to_bytes(&self) -> (r: Vec<u8>)
        requires
            utc_fields(self.secs, self.nanos) is Some,
        ensures
            r@ == be_bytes(utc_fields(self.secs, self.nanos)->0),
    {
        let a = self.to_array();
        let mut r: Vec<u8> = Vec::new();
        let mut i: usize = 0;
        while i < 6
            invariant
                i <= 6,
                a@.len() == 6,
                r@ == be_bytes(a@.take(i as int)),
            decreases 6 - i,
        {
            let f = a[i];
            assert(a@.take(i + 1).drop_last() =~= a@.take(i as int));
            r.push((f / 256) as u8);
            r.push((f % 256) as u8);
            assert(r@ =~= be_bytes(a@.take(i + 1)));
            i = i + 1;
        }
        assert(a@.take(6) =~= a@);
        r
    }

    /// Like `to_bytes`, but `None` where the time has no UTC calendar fields
    /// that fit.
    pub fn checked_to_bytes(&self) -> (r: Option<Vec<u8>>)
        ensures
            match r {
                Some(b) => utc_fields(self.secs, self.nanos) matches Some(f) && b@ == be_bytes(f),
                None => utc_fields(self.secs, self.nanos) is None,
            },
    {
        match utc_calendar(self.secs, self.nanos) {
            Some(_) => Some(self.to_bytes()),
            None => None,
        }
    }
}

} // verus!
