//! A clock time held as the milliseconds since the start of the day, with
//! the arithmetic the object model's time type offers.

use vstd::prelude::*;

use crate::clock::unix_millis_now;

verus! {

/// The milliseconds of one day.
pub const MSECS_PER_DAY: i32 = 86400000;

/// The marker value of the null time.
pub const NULL_MDS: i32 = -1;

/// A clock time: the milliseconds since the start of the day. A value
/// outside one day is invalid; the null time is one particular invalid
/// value.
#[derive(Clone, Copy, PartialEq, Eq, Structural, Debug)]
pub struct QTime {
    /// The milliseconds since the start of the day.
    pub mds: i32,
}

/// Whether a millisecond count lies inside one day.
pub open spec fn spec_valid_mds(mds: int) -> bool {
    0 <= mds < MSECS_PER_DAY
}

/// The milliseconds since the start of the day that a clock reading names.
pub open spec fn spec_hms_mds(h: int, m: int, s: int, ms: int) -> int {
    ((h * 3600 + m * 60 + s) * 1000 + ms)
}

/// Whether hour, minute, second and millisecond name a time of day.
pub open spec fn spec_valid_hms(h: int, m: int, s: int, ms: int) -> bool {
    0 <= h < 24 && 0 <= m < 60 && 0 <= s < 60 && 0 <= ms < 1000
}

/// The whole seconds of a millisecond distance, rounded toward zero.
pub open spec fn spec_secs_of_msecs(diff: int) -> int {
    if diff >= 0 {
        diff / 1000
    } else {
        -((-diff) / 1000)
    }
}

impl QTime {
    /// Whether this time is null. A null time is invalid.
    pub fn is_null(&self) -> (r: bool)
        ensures
            r == (self.mds == NULL_MDS),
    {
        self.mds == NULL_MDS
    }

    /// Whether this time is valid.
    pub fn is_valid(&self) -> (r: bool)
        ensures
            r == spec_valid_mds(self.mds as int),
    {
        0 <= self.mds && self.mds < MSECS_PER_DAY
    }

    /// The null time.
    pub fn null_time() -> (r: QTime)
        ensures
            r.mds == NULL_MDS,
    {
        QTime { mds: NULL_MDS }
    }

    /// The time `msecs` milliseconds after the start of the day; the null
    /// time where the count does not lie inside one day.
    pub fn from_msecs_since_start_of_day(msecs: i32) -> (r: QTime)
        ensures
            r.mds == if spec_valid_mds(msecs as int) {
                msecs as int
            } else {
                NULL_MDS as int
            },
    {
        if 0 <= msecs && msecs < MSECS_PER_DAY {
            QTime { mds: msecs }
        } else {
            QTime { mds: NULL_MDS }
        }
    }

    /// The milliseconds since the start of the day.
    pub fn msecs_since_start_of_day(&self) -> (r: i32)
        ensures
            r == self.mds,
    {
        self.mds
    }

    /// Constructs the time with hour `h`, minute `m`, second `s` and
    /// millisecond `ms`; the null time where they do not name a time of
    /// day.
    pub fn new(h: i32, m: i32, s: i32, ms: i32) -> (r: QTime)
        ensures
            r.mds == if spec_valid_hms(h as int, m as int, s as int, ms as int) {
                spec_hms_mds(h as int, m as int, s as int, ms as int)
            } else {
                NULL_MDS as int
            },
    {
        if 0 <= h && h < 24 && 0 <= m && m < 60 && 0 <= s && s < 60 && 0 <= ms && ms < 1000 {
            QTime { mds: (h * 3600 + m * 60 + s) * 1000 + ms }
        } else {
            QTime { mds: NULL_MDS }
        }
    }

    /// The number of milliseconds from this time to `t`, negative where
    /// `t` is earlier; zero where either time is invalid.
    pub fn msecs_to(&self, t: QTime) -> (r: i32)
        ensures
            r == if spec_valid_mds(self.mds as int) && spec_valid_mds(t.mds as int) {
                t.mds - self.mds
            } else {
                0
            },
    {
        if 0 <= self.mds && self.mds < MSECS_PER_DAY && 0 <= t.mds && t.mds < MSECS_PER_DAY {
            t.mds - self.mds
        } else {
            0
        }
    }

    /// The number of whole seconds from this time to `t`, negative where
    /// `t` is earlier; zero where either time is invalid.
    pub fn secs_to(&self, t: QTime) -> (r: i32)
        ensures
            r == if spec_valid_mds(self.mds as int) && spec_valid_mds(t.mds as int) {
                spec_secs_of_msecs(t.mds - self.mds)
            } else {
                0
            },
    {
        if 0 <= self.mds && self.mds < MSECS_PER_DAY && 0 <= t.mds && t.mds < MSECS_PER_DAY {
            if t.mds >= self.mds {
                (t.mds - self.mds) / 1000
            } else {
                -((self.mds - t.mds) / 1000)
            }
        } else {
            0
        }
    }

    /// The time now, as reported by the system clock.
    pub fn current_time() -> (r: QTime)
        ensures
            spec_valid_mds(r.mds as int),
    {
        let ms = unix_millis_now();
        let mds = ms % 86400000;
        QTime { mds: mds as i32 }
    }
}

/// The diagnostic for a time field entry under an unknown key.
pub open spec fn spec_time_key_err() -> Seq<char> {
    "expected either hour, minute, second, or msec as a key"@
}

/// The diagnostic for a time with a field missing.
pub open spec fn spec_time_missing_err() -> Seq<char> {
    "missing hour, minute, second, or msec as key"@
}

/// The hour, minute, second and millisecond collected from the entries
/// from `i` on, a later entry overwriting an earlier one with the same
/// key; an unknown key is the first failure.
pub open spec fn spec_collect_time(
    entries: Seq<(Seq<char>, i32)>,
    i: int,
    hour: Option<i32>,
    minute: Option<i32>,
    second: Option<i32>,
    msec: Option<i32>,
) -> Result<(Option<i32>, Option<i32>, Option<i32>, Option<i32>), Seq<char>>
    decreases entries.len() - i
        when 0 <= i <= entries.len()
{
    if i == entries.len() {
        Result::Ok((hour, minute, second, msec))
    } else if entries[i].0 == "hour"@ {
        spec_collect_time(entries, i + 1, Option::Some(entries[i].1), minute, second, msec)
    } else if entries[i].0 == "minute"@ {
        spec_collect_time(entries, i + 1, hour, Option::Some(entries[i].1), second, msec)
    } else if entries[i].0 == "second"@ {
        spec_collect_time(entries, i + 1, hour, minute, Option::Some(entries[i].1), msec)
    } else if entries[i].0 == "msec"@ {
        spec_collect_time(entries, i + 1, hour, minute, second, Option::Some(entries[i].1))
    } else {
        Result::Err(spec_time_key_err())
    }
}

impl QTime {
    /// Assemble a time from named field entries, as a structured
    /// deserializer hands them over: exactly the keys `hour`, `minute`,
    /// `second` and `msec` are accepted, a later entry overwrites an
    /// earlier one, any other key is rejected, and all four must be
    /// present.
    #[verifier::loop_isolation(false)]
    pub fn from_entries(entries: &Vec<(String, i32)>) -> (r: Result<QTime, String>)
        ensures
            ({
                let gentries = entries@.map_values(|e: (String, i32)| (e.0@, e.1));
                match spec_collect_time(
                    gentries,
                    0,
                    Option::None,
                    Option::None,
                    Option::None,
                    Option::None,
                ) {
                    Result::Err(msg) => r is Err && r->Err_0@ == msg,
                    Result::Ok(fields) => match fields {
                        (
                            Option::Some(h),
                            Option::Some(m),
                            Option::Some(s),
                            Option::Some(ms),
                        ) => r is Ok && r->Ok_0.mds == if spec_valid_hms(
                            h as int,
                            m as int,
                            s as int,
                            ms as int,
                        ) {
                            spec_hms_mds(h as int, m as int, s as int, ms as int)
                        } else {
                            NULL_MDS as int
                        },
                        _ => r is Err && r->Err_0@ == spec_time_missing_err(),
                    },
                }
            }),
    {
        let ghost gentries = entries@.map_values(|e: (String, i32)| (e.0@, e.1));
        let mut hour: Option<i32> = Option::None;
        let mut minute: Option<i32> = Option::None;
        let mut second: Option<i32> = Option::None;
        let mut msec: Option<i32> = Option::None;
        let mut i: usize = 0;
        while i < entries.len()
            invariant
                0 <= i <= entries@.len(),
                spec_collect_time(
                    gentries,
                    0,
                    Option::None,
                    Option::None,
                    Option::None,
                    Option::None,
                ) == spec_collect_time(gentries, i as int, hour, minute, second, msec),
            decreases entries@.len() - i,
        {
            let entry = &entries[i];
            if crate::text::str_eq(entry.0.as_str(), "hour") {
                hour = Option::Some(entry.1);
            } else if crate::text::str_eq(entry.0.as_str(), "minute") {
                minute = Option::Some(entry.1);
            } else if crate::text::str_eq(entry.0.as_str(), "second") {
                second = Option::Some(entry.1);
            } else if crate::text::str_eq(entry.0.as_str(), "msec") {
                msec = Option::Some(entry.1);
            } else {
                return Result::Err(
                    "expected either hour, minute, second, or msec as a key".to_owned(),
                );
            }
            i = i + 1;
        }
        match (hour, minute, second, msec) {
            (Option::Some(h), Option::Some(m), Option::Some(s), Option::Some(ms)) => Result::Ok(
                QTime::new(h, m, s, ms),
            ),
            _ => Result::Err("missing hour, minute, second, or msec as key".to_owned()),
        }
    }
}

} // verus!
