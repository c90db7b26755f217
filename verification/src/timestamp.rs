//! Points in time, kept as seconds since the Unix epoch, and how they are
//! shown: the local date in the style of ctime(3), cut to pieces.

use vstd::prelude::*;
use vstd::string::StringExecFns;
use crate::chars::{chars_equal, str_chars, string_from_chars};
use chrono::TimeZone;

verus! {

/// The earliest and latest seconds that local dates are made of here
/// (well inside the years that `chrono` represents).
pub const MIN_TIME: i64 = -8_000_000_000_000;
pub const MAX_TIME: i64 = 8_000_000_000_000;

/// The longest date shown.
pub const MAX_FORMATTED_LENGTH: usize = 24;

/// Calls `chrono::Local::now().timestamp()`: the current time in seconds;
/// it depends on the clock, so nothing is promised of it.
#[verifier::external_body]
fn clock_now() -> i64 {
    chrono::Local::now().timestamp()
}

/// The pattern of a ctime(3)-style date, "Ddd Mmm dd hh:mm:ss yyyy".
pub open spec fn ctime_pattern() -> Seq<char> {
    "%a %b %e %T %Y"@
}

/// The pattern of a year.
pub open spec fn year_pattern() -> Seq<char> {
    "%Y"@
}

/// The pattern of a month and day, "Mmm dd".
pub open spec fn day_pattern() -> Seq<char> {
    "%b %e"@
}

/// Whether `c` is a decimal digit.
pub open spec fn is_digit(c: char) -> bool {
    '0' <= c <= '9'
}

/// The shape of a ctime(3)-style date, "Ddd Mmm dd hh:mm:ss yyyy": at least
/// 24 characters, with spaces and colons where they stand in it and the
/// hours, minutes and seconds in digits.
pub open spec fn ctime_shape(d: Seq<char>) -> bool {
    &&& d.len() >= 24
    &&& d[3] == ' ' && d[7] == ' ' && d[10] == ' ' && d[19] == ' '
    &&& d[13] == ':' && d[16] == ':'
    &&& is_digit(d[11]) && is_digit(d[12]) && is_digit(d[14]) && is_digit(d[15])
    &&& is_digit(d[17]) && is_digit(d[18])
}

/// The shape of a year: at least four characters.
pub open spec fn year_shape(y: Seq<char>) -> bool {
    y.len() >= 4
}

/// The shape of a month and day, "Mmm dd": six characters, a space after
/// the month.
pub open spec fn day_shape(d: Seq<char>) -> bool {
    d.len() == 6 && d[3] == ' '
}

/// Calls `chrono::Local.timestamp_opt(t, 0)` and formats the local time
/// with one of the three `strftime` patterns used here.  The local time
/// depends on the machine's time zone, so only the shape of the text is
/// claimed: chrono writes `%a` and `%b` as three English letters, `%e` as
/// two characters padded with a space, `%T` as `hh:mm:ss` in digits, and
/// `%Y` in at least four characters (zero-padded, with a sign outside
/// 0..=9999).
#[verifier::external_body]
fn format_local(t: i64, pattern: &str) -> (r: String)
    requires
        MIN_TIME <= t <= MAX_TIME,
        pattern@ == ctime_pattern() || pattern@ == year_pattern() || pattern@ == day_pattern(),
    ensures
        pattern@ == ctime_pattern() ==> ctime_shape(r@),
        pattern@ == year_pattern() ==> year_shape(r@),
        pattern@ == day_pattern() ==> day_shape(r@),
{
    chrono::Local.timestamp_opt(t, 0).unwrap().format(pattern).to_string()
}

/// A point in time.
#[derive(Debug, Clone, Copy, PartialEq, Eq, Structural)]
pub struct Timestamp {
    pub time: i64,
}

/// Characters `start..start + len` of a date (to its end when `len` is 0
/// or reaches past it), after cutting it to 24 characters.
pub open spec fn date_slice_spec(formatted: Seq<char>, start: nat, len: nat) -> Seq<char> {
    let f = if formatted.len() > MAX_FORMATTED_LENGTH {
        formatted.take(MAX_FORMATTED_LENGTH as int)
    } else {
        formatted
    };
    if len > 0 && start + len < f.len() {
        f.subrange(start as int, (start + len) as int)
    } else if start < f.len() {
        f.skip(start as int)
    } else {
        Seq::empty()
    }
}

/// Characters `start..start + len` of a date.
pub fn date_slice(formatted: &str, start: usize, len: usize) -> (r: String)
    requires
        start + len <= usize::MAX,
    ensures
        r@ == date_slice_spec(formatted@, start as nat, len as nat),
{
    let cs = str_chars(formatted);
    let n = if cs.len() > MAX_FORMATTED_LENGTH {
        MAX_FORMATTED_LENGTH
    } else {
        cs.len()
    };
    let (a, b) = if len > 0 && start + len < n {
        (start, start + len)
    } else if start < n {
        (start, n)
    } else {
        (0, 0)
    };
    let mut v: Vec<char> = Vec::new();
    let mut i = a;
    while i < b
        invariant
            a <= i <= b <= n <= cs.len(),
            v@ == cs@.subrange(a as int, i as int),
        decreases b - i,
    {
        v.push(cs[i]);
        i += 1;
    }
    proof {
        let f = if formatted@.len() > MAX_FORMATTED_LENGTH {
            formatted@.take(MAX_FORMATTED_LENGTH as int)
        } else {
            formatted@
        };
        assert(f.len() == n);
        if len > 0 && start + len < n {
            assert(v@ =~= f.subrange(start as int, (start + len) as int));
        } else if start < n {
            assert(v@ =~= f.skip(start as int));
        } else {
            assert(v@ =~= Seq::<char>::empty());
        }
    }
    string_from_chars(v)
}

/// Which of the four forms a time stamp takes.
#[derive(Debug, Clone, Copy, PartialEq, Eq, Structural)]
pub enum StampForm {
    /// "Mmm dd yyyy hh:mm": another year, or the future.
    WithYear,
    /// "Mmm dd hh:mm": this year, before the past week.
    WithDate,
    /// "Ddd hh:mm": another day of the past week.
    WithDay,
    /// "hh:mm": today.
    TimeOnly,
}

/// The form of the time stamp of `t` at `now`, given the years and the
/// "Mmm dd" days (local) of `t`, of `now` and of a week before `now`.
pub open spec fn stamp_form_spec(
    t: int,
    now: int,
    t_year: Seq<char>,
    now_year: Seq<char>,
    t_day: Seq<char>,
    now_day: Seq<char>,
    week_day: Seq<char>,
) -> StampForm {
    if t > now || now_year != t_year {
        StampForm::WithYear
    } else if t < now - 604800 && week_day != t_day {
        StampForm::WithDate
    } else if now_day != t_day {
        StampForm::WithDay
    } else {
        StampForm::TimeOnly
    }
}

/// The form of a time stamp (see `stamp_form_spec`).
pub fn stamp_form(
    t: i64,
    now: i64,
    t_year: &str,
    now_year: &str,
    t_day: &str,
    now_day: &str,
    week_day: &str,
) -> (r: StampForm)
    requires
        MIN_TIME <= now <= MAX_TIME,
    ensures
        r == stamp_form_spec(t as int, now as int, t_year@, now_year@, t_day@, now_day@, week_day@),
{
    let ty = str_chars(t_year);
    let ny = str_chars(now_year);
    let td = str_chars(t_day);
    let nd = str_chars(now_day);
    let wd = str_chars(week_day);
    if t > now || !chars_equal(&ny, &ty) {
        StampForm::WithYear
    } else if t < now - 604800 && !chars_equal(&wd, &td) {
        StampForm::WithDate
    } else if !chars_equal(&nd, &td) {
        StampForm::WithDay
    } else {
        StampForm::TimeOnly
    }
}

/// The time stamp text of a form, from the full date of `t`.
pub open spec fn stamp_text_spec(form: StampForm, date: Seq<char>) -> Seq<char> {
    match form {
        StampForm::WithYear => date_slice_spec(date, 4, 7) + " "@ + date_slice_spec(date, 20, 4) + " "@
            + date_slice_spec(date, 10, 6),
        StampForm::WithDate => date_slice_spec(date, 4, 12),
        StampForm::WithDay => date_slice_spec(date, 0, 4) + " "@ + date_slice_spec(date, 11, 5),
        StampForm::TimeOnly => date_slice_spec(date, 11, 5),
    }
}

/// The time stamp text of a form, from the full date.
pub fn stamp_text(form: StampForm, date: &str) -> (r: String)
    ensures
        r@ == stamp_text_spec(form, date@),
{
    match form {
        StampForm::WithYear => {
            let mut s = date_slice(date, 4, 7);
            s.append(" ");
            let y = date_slice(date, 20, 4);
            s.append(y.as_str());
            s.append(" ");
            let t = date_slice(date, 10, 6);
            s.append(t.as_str());
            s
        },
        StampForm::WithDate => date_slice(date, 4, 12),
        StampForm::WithDay => {
            let mut s = date_slice(date, 0, 4);
            s.append(" ");
            let t = date_slice(date, 11, 5);
            s.append(t.as_str());
            s
        },
        StampForm::TimeOnly => date_slice(date, 11, 5),
    }
}

impl Timestamp {
    /// The current time.
    pub fn now() -> (r: Timestamp) {
        Timestamp { time: clock_now() }
    }

    /// The time `t` seconds after the epoch.
    pub fn from_unix(t: i64) -> (r: Timestamp)
        ensures
            r.time == t,
    {
        Timestamp { time: t }
    }

    /// Seconds since the epoch.
    pub fn unix(&self) -> (r: i64)
        ensures
            r == self.time,
    {
        self.time
    }

    /// The seconds from `other` to `self`.
    pub fn since(&self, other: &Timestamp) -> (r: i64)
        requires
            i64::MIN <= self.time - other.time <= i64::MAX,
        ensures
            r == self.time - other.time,
    {
        self.time - other.time
    }

    /// The time `seconds` later.
    pub fn plus(&self, seconds: i64) -> (r: Timestamp)
        requires
            i64::MIN <= self.time + seconds <= i64::MAX,
        ensures
            r.time == self.time + seconds,
    {
        Timestamp { time: self.time + seconds }
    }

    /// The time `seconds` earlier.
    pub fn minus(&self, seconds: i64) -> (r: Timestamp)
        requires
            i64::MIN <= self.time - seconds <= i64::MAX,
        ensures
            r.time == self.time - seconds,
    {
        Timestamp { time: self.time - seconds }
    }

    /// Whether `self` is earlier than `other`.
    pub fn before(&self, other: &Timestamp) -> (r: bool)
        ensures
            r == (self.time < other.time),
    {
        self.time < other.time
    }

    /// Characters `start..start + len` of the local date in the style of
    /// ctime(3), "Ddd Mmm dd hh:mm:ss yyyy" (the whole date when `len` is
    /// 0).  Which date text that is depends on the machine's time zone, so
    /// the contract says only that the result is that slice of some text.
    pub fn date(&self, start: usize, len: usize) -> (r: String)
        requires
            MIN_TIME <= self.time <= MAX_TIME,
            start + len <= usize::MAX,
        ensures
            exists|d: Seq<char>| ctime_shape(d) && #[trigger] date_slice_spec(d, start as nat, len as nat) == r@,
    {
        let formatted = format_local(self.time, "%a %b %e %T %Y");
        let r = date_slice(formatted.as_str(), start, len);
        assert(ctime_shape(formatted@) && date_slice_spec(formatted@, start as nat, len as nat) == r@);
        r
    }

    /// The stamp shown in messages: shorter the closer `self` is to `now`.
    /// Its form is chosen by `stamp_form_spec` from the two times and from
    /// the local years and days of `self`, of `now` and of a week before
    /// `now`, and its text is cut from the local date of `self`; those
    /// local texts depend on the machine's time zone, so the contract says
    /// that the stamp is so made from some such texts.
    pub fn stamp_at(&self, now: &Timestamp) -> (r: String)
        requires
            MIN_TIME <= self.time <= MAX_TIME,
            MIN_TIME + 604800 <= now.time <= MAX_TIME,
        ensures
            exists|ty: Seq<char>, ny: Seq<char>, td: Seq<char>, nd: Seq<char>, wd: Seq<char>, d: Seq<char>|
                year_shape(ty) && year_shape(ny) && day_shape(td) && day_shape(nd) && day_shape(wd)
                    && ctime_shape(d) && #[trigger] stamp_text_spec(
                    stamp_form_spec(self.time as int, now.time as int, ty, ny, td, nd, wd),
                    d,
                ) == r@,
    {
        let t_year = format_local(self.time, "%Y");
        let now_year = format_local(now.time, "%Y");
        let t_day = format_local(self.time, "%b %e");
        let now_day = format_local(now.time, "%b %e");
        let week_day = format_local(now.time - 604800, "%b %e");
        let form = stamp_form(
            self.time,
            now.time,
            t_year.as_str(),
            now_year.as_str(),
            t_day.as_str(),
            now_day.as_str(),
            week_day.as_str(),
        );
        let date = format_local(self.time, "%a %b %e %T %Y");
        let r = stamp_text(form, date.as_str());
        assert(year_shape(t_year@) && year_shape(now_year@) && day_shape(t_day@) && day_shape(now_day@)
            && day_shape(week_day@) && ctime_shape(date@) && stamp_text_spec(
            stamp_form_spec(self.time as int, now.time as int, t_year@, now_year@, t_day@, now_day@, week_day@),
            date@,
        ) == r@);
        r
    }
}

} // verus!
