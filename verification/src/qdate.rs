//! A calendar date held as a Julian day number, with the arithmetic the
//! object model's date type offers: day arithmetic, distances, construction
//! from a Gregorian year, month and day, and the leap-year rule.

use vstd::prelude::*;

use crate::clock::unix_millis_now;

verus! {

/// The Julian day of the earliest representable date.
pub const MIN_JD: i64 = -784350574879;

/// The Julian day of the latest representable date.
pub const MAX_JD: i64 = 784354017364;

/// The Julian day that marks the null date.
pub const NULL_JD: i64 = i64::MIN;

/// The Julian day of the Unix epoch, 1 January 1970.
pub const EPOCH_JD: i64 = 2440588;

/// The earliest Gregorian year that `QDate::new` accepts.
pub const MIN_YEAR: i32 = -4712;

/// The latest Gregorian year that `QDate::new` accepts.
pub const MAX_YEAR: i32 = 100000;

/// A calendar date: a Julian day number. A day outside the representable
/// range is invalid; the null date is one particular invalid day.
#[derive(Clone, Copy, PartialEq, Eq, Structural, Debug)]
pub struct QDate {
    /// The Julian day number.
    pub jd: i64,
}

/// Whether a Julian day lies in the representable range.
pub open spec fn spec_valid_jd(jd: int) -> bool {
    MIN_JD <= jd <= MAX_JD
}

/// Whether the given year is a leap year in the Gregorian calendar. There
/// is no year zero: the year before 1 is -1, and it maps to the proleptic
/// year 0, which is a leap year.
pub open spec fn spec_is_leap_year(year: int) -> bool {
    let y = if year < 1 {
        year + 1
    } else {
        year
    };
    (y % 4 == 0 && y % 100 != 0) || y % 400 == 0
}

/// The number of days in the given month of the given year.
pub open spec fn spec_days_in_month(year: int, month: int) -> int {
    if month == 2 {
        if spec_is_leap_year(year) {
            29
        } else {
            28
        }
    } else if month == 4 || month == 6 || month == 9 || month == 11 {
        30
    } else {
        31
    }
}

/// Whether year, month and day name a representable Gregorian date.
pub open spec fn spec_valid_date(year: int, month: int, day: int) -> bool {
    &&& MIN_YEAR <= year <= MAX_YEAR
    &&& year != 0
    &&& 1 <= month <= 12
    &&& 1 <= day <= spec_days_in_month(year, month)
}

/// The Julian day of a Gregorian date: the standard civil-to-Julian-day
/// formula over the proleptic year (the year before 1 counting as 0).
pub open spec fn spec_gregorian_jd(year: int, month: int, day: int) -> int {
    let y0 = if year < 1 {
        year + 1
    } else {
        year
    };
    let a = (14 - month) / 12;
    let y = y0 + 4800 - a;
    let m = month + 12 * a - 3;
    day + (153 * m + 2) / 5 + 365 * y + y / 4 - y / 100 + y / 400 - 32045
}

impl QDate {
    /// Whether this date is the null date. A null date is invalid.
    pub fn is_null(&self) -> (r: bool)
        ensures
            r == (self.jd == NULL_JD),
    {
        self.jd == NULL_JD
    }

    /// Whether this date is valid.
    pub fn is_valid(&self) -> (r: bool)
        ensures
            r == spec_valid_jd(self.jd as int),
    {
        MIN_JD <= self.jd && self.jd <= MAX_JD
    }

    /// The null date.
    pub fn null_date() -> (r: QDate)
        ensures
            r.jd == NULL_JD,
    {
        QDate { jd: NULL_JD }
    }

    /// Converts the Julian day `jd` to a date.
    pub fn from_julian_day(jd: i64) -> (r: QDate)
        ensures
            r.jd == jd,
    {
        QDate { jd }
    }

    /// Converts the date to a Julian day.
    pub fn to_julian_day(&self) -> (r: i64)
        ensures
            r == self.jd,
    {
        self.jd
    }

    /// A date `ndays` later than this one (or earlier, for a negative
    /// count); the null date where this date is invalid or the new day is
    /// out of range.
    pub fn add_days(&self, ndays: i64) -> (r: QDate)
        ensures
            r.jd == if spec_valid_jd(self.jd as int) && spec_valid_jd(self.jd + ndays) {
                self.jd + ndays
            } else {
                NULL_JD as int
            },
    {
        if !(MIN_JD <= self.jd && self.jd <= MAX_JD) {
            return QDate { jd: NULL_JD };
        }
        match self.jd.checked_add(ndays) {
            Option::Some(sum) => {
                if MIN_JD <= sum && sum <= MAX_JD {
                    QDate { jd: sum }
                } else {
                    QDate { jd: NULL_JD }
                }
            },
            Option::None => QDate { jd: NULL_JD },
        }
    }

    /// The number of days from this date to `date`, negative where `date`
    /// is earlier; zero where either date is invalid.
    pub fn days_to(&self, date: QDate) -> (r: i64)
        ensures
            r == if spec_valid_jd(self.jd as int) && spec_valid_jd(date.jd as int) {
                date.jd - self.jd
            } else {
                0
            },
    {
        if MIN_JD <= self.jd && self.jd <= MAX_JD && MIN_JD <= date.jd && date.jd <= MAX_JD {
            date.jd - self.jd
        } else {
            0
        }
    }

    /// Whether the given year is a leap year in the Gregorian calendar.
    pub fn is_leap_year(year: i32) -> (r: bool)
        ensures
            r == spec_is_leap_year(year as int),
    {
        let y: i64 = if year < 1 {
            year as i64 + 1
        } else {
            year as i64
        };
        let n: i64 = if y >= 0 {
            y
        } else {
            -y
        };
        proof {
            assert((y % 4 == 0) == (n as int % 4 == 0)) by {
                crate::qdate::lemma_abs_divides(y as int, 4);
            }
            assert((y % 100 == 0) == (n as int % 100 == 0)) by {
                crate::qdate::lemma_abs_divides(y as int, 100);
            }
            assert((y % 400 == 0) == (n as int % 400 == 0)) by {
                crate::qdate::lemma_abs_divides(y as int, 400);
            }
        }
        (n % 4 == 0 && n % 100 != 0) || n % 400 == 0
    }

    /// Constructs the date with year `y`, month `m` and day `d`; the null
    /// date where they do not name a representable date. There is no year
    /// zero.
    pub fn new(y: i32, m: i32, d: i32) -> (r: QDate)
        ensures
            r.jd == if spec_valid_date(y as int, m as int, d as int) {
                spec_gregorian_jd(y as int, m as int, d as int)
            } else {
                NULL_JD as int
            },
    {
        if !(MIN_YEAR <= y && y <= MAX_YEAR) || y == 0 || !(1 <= m && m <= 12) {
            return QDate { jd: NULL_JD };
        }
        let days_in_month: i32 = if m == 2 {
            if QDate::is_leap_year(y) {
                29
            } else {
                28
            }
        } else if m == 4 || m == 6 || m == 9 || m == 11 {
            30
        } else {
            31
        };
        if !(1 <= d && d <= days_in_month) {
            return QDate { jd: NULL_JD };
        }
        let y0: i64 = if y < 1 {
            y as i64 + 1
        } else {
            y as i64
        };
        let a: i64 = (14 - m as i64) / 12;
        let yy: i64 = y0 + 4800 - a;
        let mm: i64 = m as i64 + 12 * a - 3;
        proof {
            assert(a == (14 - m as int) / 12) by {
                assert(1 <= m <= 12);
            }
            assert(yy >= 88);
            assert(0 <= mm <= 11);
        }
        let jd: i64 = d as i64 + (153 * mm + 2) / 5 + 365 * yy + yy / 4 - yy / 100 + yy / 400
            - 32045;
        QDate { jd }
    }

    /// The date today, as reported by the system clock.
    pub fn current_date() -> (r: QDate)
        ensures
            spec_valid_jd(r.jd as int),
            r.jd >= EPOCH_JD,
    {
        let ms = unix_millis_now();
        let days: u64 = ms / 86400000;
        let bound: u64 = (MAX_JD - EPOCH_JD) as u64;
        let clamped: u64 = if days > bound {
            bound
        } else {
            days
        };
        QDate { jd: EPOCH_JD + clamped as i64 }
    }
}

/// The diagnostic for a date field entry under an unknown key.
pub open spec fn spec_date_key_err() -> Seq<char> {
    "expected either year, month, or day as a key"@
}

/// The diagnostic for a date with a field missing.
pub open spec fn spec_date_missing_err() -> Seq<char> {
    "missing year, month, or day as key"@
}

/// The year, month and day collected from the entries from `i` on, a later
/// entry overwriting an earlier one with the same key; an unknown key is
/// the first failure.
pub open spec fn spec_collect_date(
    entries: Seq<(Seq<char>, i32)>,
    i: int,
    year: Option<i32>,
    month: Option<i32>,
    day: Option<i32>,
) -> Result<(Option<i32>, Option<i32>, Option<i32>), Seq<char>>
    decreases entries.len() - i
        when 0 <= i <= entries.len()
{
    if i == entries.len() {
        Result::Ok((year, month, day))
    } else if entries[i].0 == "year"@ {
        spec_collect_date(entries, i + 1, Option::Some(entries[i].1), month, day)
    } else if entries[i].0 == "month"@ {
        spec_collect_date(entries, i + 1, year, Option::Some(entries[i].1), day)
    } else if entries[i].0 == "day"@ {
        spec_collect_date(entries, i + 1, year, month, Option::Some(entries[i].1))
    } else {
        Result::Err(spec_date_key_err())
    }
}

impl QDate {
    /// Assemble a date from named field entries, as a structured
    /// deserializer hands them over: exactly the keys `year`, `month` and
    /// `day` are accepted, a later entry overwrites an earlier one, any
    /// other key is rejected, and all three must be present.
    #[verifier::loop_isolation(false)]
    pub fn from_entries(entries: &Vec<(String, i32)>) -> (r: Result<QDate, String>)
        ensures
            ({
                let gentries = entries@.map_values(|e: (String, i32)| (e.0@, e.1));
                match spec_collect_date(gentries, 0, Option::None, Option::None, Option::None) {
                    Result::Err(msg) => r is Err && r->Err_0@ == msg,
                    Result::Ok(fields) => match fields {
                        (Option::Some(y), Option::Some(m), Option::Some(d)) => r is Ok
                            && r->Ok_0.jd == if spec_valid_date(y as int, m as int, d as int) {
                            spec_gregorian_jd(y as int, m as int, d as int)
                        } else {
                            NULL_JD as int
                        },
                        _ => r is Err && r->Err_0@ == spec_date_missing_err(),
                    },
                }
            }),
    {
        let ghost gentries = entries@.map_values(|e: (String, i32)| (e.0@, e.1));
        let mut year: Option<i32> = Option::None;
        let mut month: Option<i32> = Option::None;
        let mut day: Option<i32> = Option::None;
        let mut i: usize = 0;
        while i < entries.len()
            invariant
                0 <= i <= entries@.len(),
                spec_collect_date(gentries, 0, Option::None, Option::None, Option::None)
                    == spec_collect_date(gentries, i as int, year, month, day),
            decreases entries@.len() - i,
        {
            let entry = &entries[i];
            if crate::text::str_eq(entry.0.as_str(), "year") {
                year = Option::Some(entry.1);
            } else if crate::text::str_eq(entry.0.as_str(), "month") {
                month = Option::Some(entry.1);
            } else if crate::text::str_eq(entry.0.as_str(), "day") {
                day = Option::Some(entry.1);
            } else {
                return Result::Err("expected either year, month, or day as a key".to_owned());
            }
            i = i + 1;
        }
        match (year, month, day) {
            (Option::Some(y), Option::Some(m), Option::Some(d)) => Result::Ok(
                QDate::new(y, m, d),
            ),
            _ => Result::Err("missing year, month, or day as key".to_owned()),
        }
    }
}

impl From<i64> for QDate {
    /// Converts the Julian day `jd` to a date.
    fn from(jd: i64) -> (r: QDate) {
        QDate { jd }
    }
}

impl vstd::std_specs::convert::FromSpecImpl<i64> for QDate {
    open spec fn obeys_from_spec() -> bool {
        true
    }

    open spec fn from_spec(jd: i64) -> QDate {
        QDate { jd }
    }
}

/// Divisibility is unchanged by negation.
pub proof fn lemma_abs_divides(y: int, d: int)
    requires
        d > 0,
    ensures
        (y % d == 0) == ((-y) % d == 0),
{
    if y % d == 0 {
        let q = y / d;
        vstd::arithmetic::div_mod::lemma_fundamental_div_mod(y, d);
        assert(y == d * q);
        vstd::arithmetic::mul::lemma_mul_is_commutative(d, q);
        assert(y == q * d);
        vstd::arithmetic::mul::lemma_mul_unary_negation(q, d);
        assert(-y == (-q) * d);
        vstd::arithmetic::div_mod::lemma_mod_multiples_basic(-q, d);
        assert((-y) % d == 0);
    }
    if (-y) % d == 0 {
        let q = (-y) / d;
        vstd::arithmetic::div_mod::lemma_fundamental_div_mod(-y, d);
        assert(-y == d * q);
        vstd::arithmetic::mul::lemma_mul_is_commutative(d, q);
        assert(-y == q * d);
        vstd::arithmetic::mul::lemma_mul_unary_negation(q, d);
        assert(y == (-q) * d);
        vstd::arithmetic::div_mod::lemma_mod_multiples_basic(-q, d);
        assert(y % d == 0);
    }
}

} // verus!
