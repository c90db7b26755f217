//! The user lists of the `/who` and `/why` commands: the header, one row
//! per session with its login time, idle time and away state (and, for
//! `/why`, the account and privilege), padded so that the columns line up.

use vstd::prelude::*;
use crate::chars::{push_str, push_chars, str_chars, string_from_chars};
use crate::name::{pad_right, pad_chars};
use crate::session::{
    AwayState, int_str, pad_left, tdiv, zero_pad, push_fill, push_int, push_int_width, push_int_zero, push_digits,
};
use crate::timestamp::{date_slice, date_slice_spec};
use crate::words::{utf8_len, char_width};
use vstd::string::StringExecFns;

verus! {

/// Seconds in a day and in a year.
pub const DAY_SECONDS: i64 = 86400;
pub const YEAR_SECONDS: i64 = 31536000;

/// A session as the user lists show it.
#[derive(Debug)]
pub struct ListedSession {
    /// The session has a connection.
    pub attached: bool,
    /// The name and blurb.
    pub name_blurb: String,
    /// The name and blurb padded for the name column.
    pub column: String,
    /// Seconds since the session signed on.
    pub login_elapsed: i64,
    /// The local date of the login in the style of ctime(3).
    pub login_date: String,
    /// Seconds since the session was last active.
    pub idle_seconds: i64,
    pub away: AwayState,
    /// The account name, for a user who has one.
    pub username: Option<String>,
    /// The session's privilege level and its account's.
    pub priv_level: i32,
    pub user_priv: i32,
}

/// `n` spaces.
pub open spec fn spaces(n: nat) -> Seq<char> {
    Seq::new(n, |i: int| ' ')
}

/// The columns that a session's idle days take beyond the usual ones: the
/// digits of the days, and one more for a `wide` row.
pub open spec fn days_width(idle_seconds: int, wide: bool) -> nat {
    let days = tdiv(idle_seconds, 86400);
    if days == 0 {
        0
    } else {
        int_str(days).len() + if wide {
            1nat
        } else {
            0nat
        }
    }
}

/// The widest of the extra idle columns (0 for none).
pub open spec fn max_width(ws: Seq<nat>) -> nat
    decreases ws.len(),
{
    if ws.len() == 0 {
        0
    } else {
        let m = max_width(ws.drop_last());
        if ws.last() > m {
            ws.last()
        } else {
            m
        }
    }
}

/// Whether a row of the `/who` list is wide: detached, or signed on for a
/// year or more.
pub open spec fn who_wide(s: ListedSession) -> bool {
    !s.attached || s.login_elapsed >= 31536000
}

/// Whether a row of the `/why` list is wide: signed on for a year or more.
pub open spec fn why_wide(s: ListedSession) -> bool {
    s.login_elapsed >= 31536000
}

/// The extra idle columns of one row of a list.
pub open spec fn row_width(s: ListedSession, why: bool) -> nat {
    days_width(
        s.idle_seconds as int,
        if why {
            why_wide(s)
        } else {
            who_wide(s)
        },
    )
}

/// The extra idle columns of a list.
pub open spec fn extend_spec(rows: Seq<ListedSession>, why: bool) -> nat {
    max_width(rows.map_values(|s: ListedSession| row_width(s, why)))
}

/// The header of a list.
pub open spec fn header_spec(extend: nat, why: bool) -> Seq<char> {
    let (head2, line2) = if why {
        ("  Idle  Away  User      FD  Priv"@, "  ----  ----  ----      --  ----"@)
    } else {
        ("  Idle  Away"@, "  ----  ----"@)
    };
    "\n"@ + " Name                              On Since"@ + spaces(extend) + head2 + "\n"@
        + " ----                              --------"@ + spaces(extend) + line2 + "\n"@
}

/// The login time column: the time for a login within a day, the date
/// within a year, else the month and year.
pub open spec fn login_column_spec(elapsed: int, date: Seq<char>) -> Seq<char> {
    if elapsed < 86400 {
        date_slice_spec(date, 11, 8)
    } else if elapsed < 31536000 {
        " "@ + date_slice_spec(date, 4, 6) + " "@
    } else {
        date_slice_spec(date, 4, 4) + date_slice_spec(date, 20, 4)
    }
}

/// The idle time column for `m` idle minutes, right-aligned.
pub open spec fn idle_column_spec(m: int, extend: nat) -> Seq<char> {
    if m > 0 {
        let hours = m / 60;
        let minutes = m % 60;
        let days = hours / 24;
        let h = hours % 24;
        if days > 0 {
            pad_left(int_str(days), extend, ' ') + "d"@ + zero_pad(h, 2) + ":"@ + zero_pad(minutes, 2)
                + "  "@
        } else if h > 0 {
            pad_left(int_str(h), extend + 3, ' ') + ":"@ + zero_pad(minutes, 2) + "  "@
        } else {
            pad_left(int_str(minutes), extend + 6, ' ') + "  "@
        }
    } else {
        spaces(extend + 8)
    }
}

/// The away state as the lists show it.
pub open spec fn away_name(a: AwayState) -> Seq<char> {
    match a {
        AwayState::Here => "Here"@,
        AwayState::Away => "Away"@,
        AwayState::Busy => "Busy"@,
        AwayState::Gone => "Gone"@,
    }
}

/// A row of the `/who` list.
pub open spec fn who_row_spec(s: ListedSession, extend: nat) -> Seq<char> {
    (if s.attached {
        " "@
    } else {
        "~"@
    }) + s.column@ + (if s.attached {
        login_column_spec(s.login_elapsed as int, s.login_date@)
    } else {
        "detached"@
    }) + idle_column_spec(tdiv(s.idle_seconds as int, 60), extend) + away_name(s.away) + "\n"@
}

/// The account, connection and privilege columns of the `/why` list.
pub open spec fn why_tail_spec(s: ListedSession) -> Seq<char> {
    (match s.username {
        Some(u) => pad_right(u@, 8) + "  "@,
        None => "guest     "@,
    }) + (if s.attached {
        "?? "@
    } else {
        "-- "@
    }) + (if s.priv_level == s.user_priv {
        " "@
    } else {
        "*"@
    }) + pad_left(int_str(s.priv_level as int), 4, ' ') + "\n"@
}

/// A row of the `/why` list.
pub open spec fn why_row_spec(s: ListedSession, extend: nat) -> Seq<char> {
    (if s.attached {
        " "@
    } else {
        "~"@
    }) + s.column@ + login_column_spec(s.login_elapsed as int, s.login_date@) + idle_column_spec(
        tdiv(s.idle_seconds as int, 60),
        extend,
    ) + away_name(s.away) + "  "@ + why_tail_spec(s)
}

/// Ten to the `k`.
pub open spec fn pow10(k: nat) -> nat
    decreases k,
{
    if k == 0 {
        1
    } else {
        10 * pow10((k - 1) as nat)
    }
}

/// A number below ten to the `k` has at most `k` digits.
pub proof fn lemma_digits_len(n: nat, k: nat)
    requires
        n < pow10(k),
        k >= 1,
    ensures
        crate::session::digits(n).len() <= k,
    decreases k,
{
    if n >= 10 {
        assert(pow10(k) == 10 * pow10((k - 1) as nat));
        if k == 1 {
            assert(pow10(0) == 1);
        }
        lemma_digits_len(n / 10, (k - 1) as nat);
    }
}

/// An `i64` takes at most 20 characters.
pub proof fn lemma_int_str_len(i: i64)
    ensures
        int_str(i as int).len() <= 20,
{
    reveal_with_fuel(pow10, 20);
    assert(pow10(19) == 10000000000000000000nat);
    if i < 0 {
        lemma_digits_len((-i) as nat, 19);
    } else {
        lemma_digits_len(i as nat, 19);
    }
}

/// Whole days in `secs`, rounded toward zero.
fn days_of(secs: i64) -> (r: i64)
    ensures
        r == tdiv(secs as int, 86400),
{
    let d: i128 = secs as i128;
    let q: i128 = if d >= 0 {
        d / 86400
    } else {
        -((-d) / 86400)
    };
    q as i64
}

/// The extra idle columns of one row.
fn days_width_exec(idle_seconds: i64, wide: bool) -> (r: usize)
    ensures
        r == days_width(idle_seconds as int, wide),
        r <= 21,
{
    let days = days_of(idle_seconds);
    if days == 0 {
        0
    } else {
        let mut v: Vec<char> = Vec::new();
        push_int(&mut v, days);
        assert(v@ == int_str(days as int));
        assert(v@.len() <= 20) by {
            lemma_int_str_len(days);
        }
        if wide {
            v.len() + 1
        } else {
            v.len()
        }
    }
}

/// The extra idle columns of a list (see `extend_spec`).
pub fn list_extend(rows: &Vec<ListedSession>, why: bool) -> (r: usize)
    ensures
        r == extend_spec(rows@, why),
        r <= 21,
{
    let ghost ws = rows@.map_values(|s: ListedSession| row_width(s, why));
    let mut m: usize = 0;
    let mut i: usize = 0;
    while i < rows.len()
        invariant
            i <= rows.len(),
            ws == rows@.map_values(|s: ListedSession| row_width(s, why)),
            m == max_width(ws.take(i as int)),
            m <= 21,
        decreases rows.len() - i,
    {
        let s = &rows[i];
        let wide = if why {
            s.login_elapsed >= YEAR_SECONDS
        } else {
            !s.attached || s.login_elapsed >= YEAR_SECONDS
        };
        let w = days_width_exec(s.idle_seconds, wide);
        proof {
            assert(ws.take(i + 1).drop_last() =~= ws.take(i as int));
            assert(wide == (if why {
                why_wide(rows@[i as int])
            } else {
                who_wide(rows@[i as int])
            }));
            assert(ws[i as int] == row_width(rows@[i as int], why));
            assert(ws.take(i + 1).last() == ws[i as int]);
        }
        if w > m {
            m = w;
        }
        i += 1;
    }
    proof {
        assert(ws.take(i as int) =~= ws);
    }
    m
}

/// The header of a list (see `header_spec`).
fn push_header(v: &mut Vec<char>, extend: usize, why: bool)
    ensures
        final(v)@ == old(v)@ + header_spec(extend as nat, why),
{
    push_str(v, "\n");
    push_str(v, " Name                              On Since");
    push_fill(v, ' ', extend);
    if why {
        push_str(v, "  Idle  Away  User      FD  Priv");
    } else {
        push_str(v, "  Idle  Away");
    }
    push_str(v, "\n");
    push_str(v, " ----                              --------");
    push_fill(v, ' ', extend);
    if why {
        push_str(v, "  ----  ----  ----      --  ----");
    } else {
        push_str(v, "  ----  ----");
    }
    push_str(v, "\n");
    assert(v@ =~= old(v)@ + header_spec(extend as nat, why));
}

/// The login time column (see `login_column_spec`).
fn push_login_column(v: &mut Vec<char>, elapsed: i64, date: &str)
    ensures
        final(v)@ == old(v)@ + login_column_spec(elapsed as int, date@),
{
    if elapsed < DAY_SECONDS {
        let t = date_slice(date, 11, 8);
        push_str(v, t.as_str());
    } else if elapsed < YEAR_SECONDS {
        push_str(v, " ");
        let t = date_slice(date, 4, 6);
        push_str(v, t.as_str());
        push_str(v, " ");
    } else {
        let m = date_slice(date, 4, 4);
        push_str(v, m.as_str());
        let y = date_slice(date, 20, 4);
        push_str(v, y.as_str());
    }
    assert(v@ =~= old(v)@ + login_column_spec(elapsed as int, date@));
}

/// The idle time column (see `idle_column_spec`).
fn push_idle_column(v: &mut Vec<char>, m: i64, extend: usize)
    requires
        extend <= 21,
    ensures
        final(v)@ == old(v)@ + idle_column_spec(m as int, extend as nat),
{
    if m > 0 {
        let mu = m as u64;
        let hours = mu / 60;
        let minutes = mu % 60;
        let days = hours / 24;
        let h = hours % 24;
        assert(hours == m / 60 && minutes == m % 60 && days == (m / 60) / 24 && h == (m / 60) % 24);
        if days > 0 {
            push_int_width(v, days as i64, extend);
            push_str(v, "d");
            push_int_zero(v, h as i64, 2);
            push_str(v, ":");
            push_int_zero(v, minutes as i64, 2);
            push_str(v, "  ");
        } else if h > 0 {
            push_int_width(v, h as i64, extend + 3);
            push_str(v, ":");
            push_int_zero(v, minutes as i64, 2);
            push_str(v, "  ");
        } else {
            push_int_width(v, minutes as i64, extend + 6);
            push_str(v, "  ");
        }
    } else {
        push_fill(v, ' ', extend + 8);
    }
    assert(v@ =~= old(v)@ + idle_column_spec(m as int, extend as nat));
}

/// The away state as the lists show it.
fn away_name_exec(a: AwayState) -> (r: &'static str)
    ensures
        r@ == away_name(a),
{
    match a {
        AwayState::Here => "Here",
        AwayState::Away => "Away",
        AwayState::Busy => "Busy",
        AwayState::Gone => "Gone",
    }
}

/// Appends a row of the `/who` list (see `who_row_spec`).
fn push_who_row(v: &mut Vec<char>, s: &ListedSession, extend: usize)
    requires
        extend <= 21,
    ensures
        final(v)@ == old(v)@ + who_row_spec(*s, extend as nat),
{
    push_str(v, if s.attached {
        " "
    } else {
        "~"
    });
    push_str(v, s.column.as_str());
    if s.attached {
        push_login_column(v, s.login_elapsed, s.login_date.as_str());
    } else {
        push_str(v, "detached");
    }
    let m = crate::session::idle_minutes(s.idle_seconds, 0);
    push_idle_column(v, m, extend);
    push_str(v, away_name_exec(s.away));
    push_str(v, "\n");
    assert(v@ =~= old(v)@ + who_row_spec(*s, extend as nat));
}

/// Appends the last columns of a row of the `/why` list.
fn push_why_tail(v: &mut Vec<char>, s: &ListedSession)
    ensures
        final(v)@ == old(v)@ + why_tail_spec(*s),
{
    match &s.username {
        Some(u) => {
            let mut t = str_chars(u.as_str());
            pad_chars(&mut t, 8);
            push_chars(v, &t);
            push_str(v, "  ");
        },
        None => {
            push_str(v, "guest     ");
        },
    }
    push_str(v, if s.attached {
        "?? "
    } else {
        "-- "
    });
    push_str(v, if s.priv_level == s.user_priv {
        " "
    } else {
        "*"
    });
    push_int_width(v, s.priv_level as i64, 4);
    push_str(v, "\n");
    assert(v@ =~= old(v)@ + why_tail_spec(*s));
}

/// Appends a row of the `/why` list (see `why_row_spec`).
fn push_why_row(v: &mut Vec<char>, s: &ListedSession, extend: usize)
    requires
        extend <= 21,
    ensures
        final(v)@ == old(v)@ + why_row_spec(*s, extend as nat),
{
    push_str(v, if s.attached {
        " "
    } else {
        "~"
    });
    push_str(v, s.column.as_str());
    push_login_column(v, s.login_elapsed, s.login_date.as_str());
    let m = crate::session::idle_minutes(s.idle_seconds, 0);
    push_idle_column(v, m, extend);
    push_str(v, away_name_exec(s.away));
    push_str(v, "  ");
    push_why_tail(v, s);
    assert(v@ =~= old(v)@ + why_row_spec(*s, extend as nat));
}

/// The characters of `s` after its first `b` bytes, when a character
/// ends there.
pub open spec fn after_bytes(s: Seq<char>, b: nat) -> Option<Seq<char>> {
    if exists|k: int| 0 <= k <= s.len() && #[trigger] utf8_len(s.take(k)) == b {
        Some(s.skip(choose|k: int| 0 <= k <= s.len() && #[trigger] utf8_len(s.take(k)) == b))
    } else {
        None
    }
}

/// Longer prefixes take more bytes.
pub proof fn lemma_utf8_len_increasing(s: Seq<char>, j: int, k: int)
    requires
        0 <= j < k <= s.len(),
    ensures
        utf8_len(s.take(j)) < utf8_len(s.take(k)),
    decreases k - j,
{
    assert(s.take(k).drop_last() =~= s.take(k - 1));
    assert(char_width(s.take(k).last()) >= 1);
    if j < k - 1 {
        lemma_utf8_len_increasing(s, j, k - 1);
    }
}

/// The characters of `s` after its first `b` bytes (see `after_bytes`).
pub fn skip_bytes(s: &str, b: usize) -> (r: Option<String>)
    ensures
        r matches Some(t) ==> after_bytes(s@, b as nat) == Some(t@),
        r is None ==> after_bytes(s@, b as nat) is None,
{
    let cs = str_chars(s);
    let mut k: usize = 0;
    let mut off: u128 = 0;
    proof {
        assert(cs@.take(0) =~= Seq::<char>::empty());
    }
    while k < cs.len() && off < b as u128
        invariant
            k <= cs.len(),
            cs@ == s@,
            off == utf8_len(cs@.take(k as int)),
            off <= b + 4,
            forall|j: int| 0 <= j < k ==> #[trigger] utf8_len(cs@.take(j)) < b,
        decreases cs.len() - k,
    {
        proof {
            assert(cs@.take(k + 1).drop_last() =~= cs@.take(k as int));
        }
        off = off + crate::words::char_byte_width(cs[k]) as u128;
        k += 1;
    }
    if off == b as u128 {
        proof {
            let w = choose|j: int| 0 <= j <= s@.len() && #[trigger] utf8_len(s@.take(j)) == b;
            assert(0 <= w <= s@.len() && utf8_len(s@.take(w)) == b);
            if w < k {
                lemma_utf8_len_increasing(s@, w, k as int);
            }
            if w > k {
                lemma_utf8_len_increasing(s@, k as int, w);
            }
        }
        let mut t: Vec<char> = Vec::new();
        let mut i = k;
        while i < cs.len()
            invariant
                k <= i <= cs.len(),
                t@ == cs@.subrange(k as int, i as int),
            decreases cs.len() - i,
        {
            t.push(cs[i]);
            i += 1;
        }
        proof {
            assert(t@ =~= s@.skip(k as int));
        }
        Some(string_from_chars(t))
    } else {
        proof {
            assert forall|j: int| 0 <= j <= s@.len() implies #[trigger] utf8_len(s@.take(j)) != b by {
                if j < k {
                } else if j > k {
                    lemma_utf8_len_increasing(s@, k as int, j);
                    if k < cs.len() {
                    } else {
                        assert(false);
                    }
                }
            }
        }
        None
    }
}

/// Whether `s` takes more than `n` bytes.
pub fn longer_than(s: &str, n: usize) -> (r: bool)
    ensures
        r == (utf8_len(s@) > n),
{
    let cs = str_chars(s);
    let mut k: usize = 0;
    let mut off: u128 = 0;
    proof {
        assert(cs@.take(0) =~= Seq::<char>::empty());
    }
    while k < cs.len() && off <= n as u128
        invariant
            k <= cs.len(),
            cs@ == s@,
            off == utf8_len(cs@.take(k as int)),
            off <= n + 4,
        decreases cs.len() - k,
    {
        proof {
            assert(cs@.take(k + 1).drop_last() =~= cs@.take(k as int));
        }
        off = off + crate::words::char_byte_width(cs[k]) as u128;
        k += 1;
    }
    proof {
        if k < cs.len() {
            crate::words::lemma_utf8_len_prefix(s@, k as int);
            assert(s@.subrange(0, k as int) =~= s@.take(k as int));
        } else {
            assert(cs@.take(k as int) =~= s@);
        }
    }
    off > n as u128
}

/// The rows of a list, one after another.
pub open spec fn rows_spec(rows: Seq<ListedSession>, extend: nat, why: bool) -> Seq<char>
    decreases rows.len(),
{
    if rows.len() == 0 {
        Seq::empty()
    } else {
        rows_spec(rows.drop_last(), extend, why) + if why {
            why_row_spec(rows.last(), extend)
        } else {
            who_row_spec(rows.last(), extend)
        }
    }
}

/// The second line of a name too long for the column, shown when the list
/// holds one session.
pub open spec fn continuation_spec(rows: Seq<ListedSession>) -> Seq<char> {
    if rows.len() == 1 && utf8_len(rows[0].name_blurb@) > 33 {
        ">"@ + after_bytes(rows[0].name_blurb@, 32).unwrap() + "\n"@
    } else {
        Seq::empty()
    }
}

/// The `/who` list: the message and the reports when no one is listed;
/// otherwise the header, the rows, the message and the reports.
pub open spec fn who_report_spec(rows: Seq<ListedSession>, msg: Seq<char>, errors: Seq<char>) -> Seq<char> {
    if rows.len() == 0 {
        msg + crate::report::errors_tail_spec(errors)
    } else {
        let e = extend_spec(rows, false);
        header_spec(e, false) + rows_spec(rows, e, false) + continuation_spec(rows) + msg
            + crate::report::errors_tail_spec(errors)
    }
}

/// The `/why` list, for privileged users only.
pub open spec fn why_report_spec(priv_level: int, rows: Seq<ListedSession>, msg: Seq<char>, errors: Seq<char>) -> Seq<char> {
    if priv_level < 50 {
        "Why not?\n"@
    } else if rows.len() == 0 {
        msg + crate::report::errors_tail_spec(errors)
    } else {
        let e = extend_spec(rows, true);
        header_spec(e, true) + rows_spec(rows, e, true) + msg + crate::report::errors_tail_spec(errors)
    }
}

fn push_rows(v: &mut Vec<char>, rows: &Vec<ListedSession>, extend: usize, why: bool)
    requires
        extend <= 21,
    ensures
        final(v)@ == old(v)@ + rows_spec(rows@, extend as nat, why),
{
    let mut i: usize = 0;
    while i < rows.len()
        invariant
            i <= rows.len(),
            extend <= 21,
            v@ == old(v)@ + rows_spec(rows@.take(i as int), extend as nat, why),
        decreases rows.len() - i,
    {
        if why {
            push_why_row(v, &rows[i], extend);
        } else {
            push_who_row(v, &rows[i], extend);
        }
        proof {
            assert(rows@.take(i + 1).drop_last() =~= rows@.take(i as int));
            assert(rows@.take(i + 1).last() == rows@[i as int]);
            assert(v@ =~= old(v)@ + rows_spec(rows@.take(i + 1), extend as nat, why));
        }
        i += 1;
    }
    proof {
        assert(rows@.take(i as int) =~= rows@);
    }
}

/// The `/who` list (see `who_report_spec`).
pub fn who_report(rows: &Vec<ListedSession>, msg: &str, errors: &str) -> (r: String)
    requires
        rows@.len() == 1 && utf8_len(rows@[0].name_blurb@) > 33 ==> after_bytes(
            rows@[0].name_blurb@,
            32,
        ) is Some,
    ensures
        r@ == who_report_spec(rows@, msg@, errors@),
{
    if rows.len() == 0 {
        let mut v: Vec<char> = Vec::new();
        push_str(&mut v, msg);
        let t = crate::report::errors_tail(errors);
        push_str(&mut v, t.as_str());
        return string_from_chars(v);
    }
    let mut v: Vec<char> = Vec::new();
    let e = list_extend(rows, false);
    push_header(&mut v, e, false);
    push_rows(&mut v, rows, e, false);
    let ghost before = v@;
    if rows.len() == 1 && longer_than(rows[0].name_blurb.as_str(), 33) {
        match skip_bytes(rows[0].name_blurb.as_str(), 32) {
            Some(rest) => {
                push_str(&mut v, ">");
                push_str(&mut v, rest.as_str());
                push_str(&mut v, "\n");
            },
            None => {},
        }
    }
    assert(v@ =~= before + continuation_spec(rows@));
    push_str(&mut v, msg);
    let t = crate::report::errors_tail(errors);
    push_str(&mut v, t.as_str());
    assert(v@ =~= who_report_spec(rows@, msg@, errors@));
    string_from_chars(v)
}

/// The `/why` list (see `why_report_spec`).
pub fn why_report(priv_level: i32, rows: &Vec<ListedSession>, msg: &str, errors: &str) -> (r: String)
    ensures
        r@ == why_report_spec(priv_level as int, rows@, msg@, errors@),
{
    if priv_level < 50 {
        return String::from_str("Why not?\n");
    }
    if rows.len() == 0 {
        let mut v: Vec<char> = Vec::new();
        push_str(&mut v, msg);
        let t = crate::report::errors_tail(errors);
        push_str(&mut v, t.as_str());
        return string_from_chars(v);
    }
    let mut v: Vec<char> = Vec::new();
    let e = list_extend(rows, true);
    push_header(&mut v, e, true);
    push_rows(&mut v, rows, e, true);
    push_str(&mut v, msg);
    let t = crate::report::errors_tail(errors);
    push_str(&mut v, t.as_str());
    assert(v@ =~= why_report_spec(priv_level as int, rows@, msg@, errors@));
    string_from_chars(v)
}

/// The idle time cell of the `/idle` list.
pub open spec fn idle_cell_spec(m: int) -> Seq<char> {
    if m > 0 {
        let hours = m / 60;
        let minutes = m % 60;
        let days = hours / 24;
        let h = hours % 24;
        if days > 9 {
            pad_left(int_str(days), 2, ' ') + "d"@ + zero_pad(h, 2)
        } else if days > 0 {
            int_str(days) + "d"@ + zero_pad(h, 2) + "h"@
        } else if h > 0 {
            pad_left(int_str(h), 2, ' ') + ":"@ + zero_pad(minutes, 2)
        } else {
            "   "@ + pad_left(int_str(minutes), 2, ' ')
        }
    } else {
        "     "@
    }
}

/// A row of the `/idle` list, the `i`th of `n`: two to a line.
pub open spec fn idle_row_spec(s: ListedSession, i: int, n: int) -> Seq<char> {
    (if s.attached {
        " "@
    } else {
        "~"@
    }) + s.column@ + idle_cell_spec(tdiv(s.idle_seconds as int, 60)) + if i % 2 == 0 && n > 1 {
        "  "@
    } else {
        "\n"@
    }
}

/// The first `k` rows of the `/idle` list.
pub open spec fn idle_rows_spec(rows: Seq<ListedSession>, k: int) -> Seq<char>
    decreases k,
{
    if k <= 0 {
        Seq::empty()
    } else {
        idle_rows_spec(rows, k - 1) + idle_row_spec(rows[k - 1], k - 1, rows.len() as int)
    }
}

/// The `/idle` list: names and idle times, two to a line.
pub open spec fn idle_report_spec(rows: Seq<ListedSession>, msg: Seq<char>, errors: Seq<char>) -> Seq<char> {
    let head = " Name                              Idle"@;
    let line = " ----                              ----"@;
    if rows.len() == 0 {
        msg + crate::report::errors_tail_spec(errors)
    } else {
        (if rows.len() == 1 {
            "\n"@ + head + "\n"@ + line + "\n"@
        } else {
            "\n"@ + head + " "@ + head + "\n"@ + line + " "@ + line + "\n"@
        }) + idle_rows_spec(rows, rows.len() as int) + (if rows.len() % 2 == 1 {
            "\n"@
        } else {
            Seq::empty()
        }) + msg + crate::report::errors_tail_spec(errors)
    }
}

fn push_idle_cell(v: &mut Vec<char>, m: i64)
    ensures
        final(v)@ == old(v)@ + idle_cell_spec(m as int),
{
    if m > 0 {
        let mu = m as u64;
        let hours = mu / 60;
        let minutes = mu % 60;
        let days = hours / 24;
        let h = hours % 24;
        assert(hours == m / 60 && minutes == m % 60 && days == (m / 60) / 24 && h == (m / 60) % 24);
        if days > 9 {
            push_int_width(v, days as i64, 2);
            push_str(v, "d");
            push_int_zero(v, h as i64, 2);
        } else if days > 0 {
            push_int(v, days as i64);
            push_str(v, "d");
            push_int_zero(v, h as i64, 2);
            push_str(v, "h");
        } else if h > 0 {
            push_int_width(v, h as i64, 2);
            push_str(v, ":");
            push_int_zero(v, minutes as i64, 2);
        } else {
            push_str(v, "   ");
            push_int_width(v, minutes as i64, 2);
        }
    } else {
        push_str(v, "     ");
    }
    assert(v@ =~= old(v)@ + idle_cell_spec(m as int));
}

/// The `/idle` list (see `idle_report_spec`).
pub fn idle_report(rows: &Vec<ListedSession>, msg: &str, errors: &str) -> (r: String)
    ensures
        r@ == idle_report_spec(rows@, msg@, errors@),
{
    if rows.len() == 0 {
        let mut v: Vec<char> = Vec::new();
        push_str(&mut v, msg);
        let t = crate::report::errors_tail(errors);
        push_str(&mut v, t.as_str());
        return string_from_chars(v);
    }
    let mut v: Vec<char> = Vec::new();
    let head = " Name                              Idle";
    let line = " ----                              ----";
    push_str(&mut v, "\n");
    push_str(&mut v, head);
    if rows.len() > 1 {
        push_str(&mut v, " ");
        push_str(&mut v, head);
    }
    push_str(&mut v, "\n");
    push_str(&mut v, line);
    if rows.len() > 1 {
        push_str(&mut v, " ");
        push_str(&mut v, line);
    }
    push_str(&mut v, "\n");
    let ghost start = v@;
    proof {
        let hs = " Name                              Idle"@;
        let ls = " ----                              ----"@;
        assert(head@ == hs && line@ == ls);
        if rows.len() == 1 {
            assert(start =~= "\n"@ + hs + "\n"@ + ls + "\n"@);
        } else {
            assert(start =~= "\n"@ + hs + " "@ + hs + "\n"@ + ls + " "@ + ls + "\n"@);
        }
    }
    let n = rows.len();
    let mut i: usize = 0;
    while i < n
        invariant
            i <= n,
            n == rows@.len(),
            v@ == start + idle_rows_spec(rows@, i as int),
        decreases n - i,
    {
        let s = &rows[i];
        let ghost before = v@;
        push_str(&mut v, if s.attached {
            " "
        } else {
            "~"
        });
        push_str(&mut v, s.column.as_str());
        let m = crate::session::idle_minutes(s.idle_seconds, 0);
        push_idle_cell(&mut v, m);
        if i % 2 == 0 && n > 1 {
            push_str(&mut v, "  ");
        } else {
            push_str(&mut v, "\n");
        }
        proof {
            assert(v@ =~= before + idle_row_spec(rows@[i as int], i as int, n as int));
        }
        i += 1;
    }
    let ghost after_rows = v@;
    if n % 2 == 1 {
        push_str(&mut v, "\n");
    }
    assert(v@ =~= after_rows + (if rows@.len() % 2 == 1 {
        "\n"@
    } else {
        Seq::empty()
    }));
    push_str(&mut v, msg);
    let t = crate::report::errors_tail(errors);
    push_str(&mut v, t.as_str());
    proof {
        assert(v@ =~= idle_report_spec(rows@, msg@, errors@));
    }
    string_from_chars(v)
}

/// The percentage of `part` in `total`, rounded half up (0 of nothing).
pub open spec fn percent(part: nat, total: nat) -> nat {
    (part * 100 + total / 2) / if total > 0 {
        total
    } else {
        1
    }
}

/// How many sessions are in each away state, attached and detached.
pub open spec fn count_state(states: Seq<(AwayState, bool)>, a: AwayState) -> nat
    decreases states.len(),
{
    if states.len() == 0 {
        0
    } else {
        count_state(states.drop_last(), a) + if states.last().0 == a {
            1nat
        } else {
            0nat
        }
    }
}

/// How many sessions are attached (`attached`) or detached.
pub open spec fn count_attached(states: Seq<(AwayState, bool)>, attached: bool) -> nat
    decreases states.len(),
{
    if states.len() == 0 {
        0
    } else {
        count_attached(states.drop_last(), attached) + if states.last().1 == attached {
            1nat
        } else {
            0nat
        }
    }
}

/// A count and its percentage, as `/howmany` shows them.
pub open spec fn count_cell(n: nat, total: nat) -> Seq<char> {
    pad_left(int_str(n as int), 3, ' ') + " "@ + pad_left(int_str(percent(n, total) as int), 3, ' ') + "%"@
}

/// The `/howmany` report: the signed-on sessions by away state and
/// connection (`states`), and the number of discussions.
pub open spec fn howmany_spec(states: Seq<(AwayState, bool)>, discussions: nat) -> Seq<char> {
    let t = states.len();
    "\nActive Users:\n\n"@
        + "  \"Here\"     \"Away\"     \"Busy\"     \"Gone\"    Attached   Detached    Total\n"@ + " "@
        + count_cell(count_state(states, AwayState::Here), t) + "   "@ + count_cell(
        count_state(states, AwayState::Away),
        t,
    ) + "   "@ + count_cell(count_state(states, AwayState::Busy), t) + "   "@ + count_cell(
        count_state(states, AwayState::Gone),
        t,
    ) + "   "@ + count_cell(count_attached(states, true), t) + "   "@ + count_cell(
        count_attached(states, false),
        t,
    ) + "   "@ + pad_left(int_str(t as int), 3, ' ') + " 100%\n"@ + "\nDiscussions in use: "@ + int_str(
        discussions as int,
    ) + "\n\n"@
}

proof fn lemma_counts_bounded(states: Seq<(AwayState, bool)>, a: AwayState, b: bool)
    ensures
        count_state(states, a) <= states.len(),
        count_attached(states, b) <= states.len(),
    decreases states.len(),
{
    if states.len() > 0 {
        lemma_counts_bounded(states.drop_last(), a, b);
    }
}

fn push_count_cell(v: &mut Vec<char>, n: u64, total: u64)
    requires
        n <= total <= i32::MAX,
        n * 100 + total / 2 <= i32::MAX,
    ensures
        final(v)@ == old(v)@ + count_cell(n as nat, total as nat),
{
    push_int_width(v, n as i64, 3);
    push_str(v, " ");
    let d: u64 = if total > 0 {
        total
    } else {
        1
    };
    let num = n * 100 + total / 2;
    let p = num / d;
    assert((num as int) / (d as int) <= num as int) by (nonlinear_arith)
        requires
            d >= 1,
            num >= 0,
    ;
    push_int_width(v, p as i64, 3);
    push_str(v, "%");
    assert(v@ =~= old(v)@ + count_cell(n as nat, total as nat));
}

fn count_states(states: &Vec<(AwayState, bool)>, a: AwayState) -> (r: u64)
    requires
        states@.len() <= i32::MAX,
    ensures
        r == count_state(states@, a),
{
    let mut c: u64 = 0;
    let mut i: usize = 0;
    while i < states.len()
        invariant
            i <= states.len(),
            states@.len() <= i32::MAX,
            c == count_state(states@.take(i as int), a),
            c <= i,
        decreases states.len() - i,
    {
        proof {
            assert(states@.take(i + 1).drop_last() =~= states@.take(i as int));
        }
        if states[i].0 == a {
            c = c + 1;
        }
        i += 1;
    }
    proof {
        assert(states@.take(i as int) =~= states@);
    }
    c
}

fn count_attached_exec(states: &Vec<(AwayState, bool)>, b: bool) -> (r: u64)
    requires
        states@.len() <= i32::MAX,
    ensures
        r == count_attached(states@, b),
{
    let mut c: u64 = 0;
    let mut i: usize = 0;
    while i < states.len()
        invariant
            i <= states.len(),
            states@.len() <= i32::MAX,
            c == count_attached(states@.take(i as int), b),
            c <= i,
        decreases states.len() - i,
    {
        proof {
            assert(states@.take(i + 1).drop_last() =~= states@.take(i as int));
        }
        if states[i].1 == b {
            c = c + 1;
        }
        i += 1;
    }
    proof {
        assert(states@.take(i as int) =~= states@);
    }
    c
}

/// Whether the counts of `/howmany` fit its arithmetic in `i32`: the
/// total, and each count times 100 plus half the total.
pub open spec fn howmany_fits(states: Seq<(AwayState, bool)>) -> bool {
    let t = states.len();
    &&& t <= i32::MAX
    &&& count_state(states, AwayState::Here) * 100 + t / 2 <= i32::MAX
    &&& count_state(states, AwayState::Away) * 100 + t / 2 <= i32::MAX
    &&& count_state(states, AwayState::Busy) * 100 + t / 2 <= i32::MAX
    &&& count_state(states, AwayState::Gone) * 100 + t / 2 <= i32::MAX
    &&& count_attached(states, true) * 100 + t / 2 <= i32::MAX
    &&& count_attached(states, false) * 100 + t / 2 <= i32::MAX
}

/// The `/howmany` report (see `howmany_spec`); `states` holds the away
/// state of each signed-on session and whether it is attached.
pub fn howmany_report(states: &Vec<(AwayState, bool)>, discussions: usize) -> (r: String)
    requires
        howmany_fits(states@),
    ensures
        r@ == howmany_spec(states@, discussions as nat),
{
    let t = states.len() as u64;
    proof {
        lemma_counts_bounded(states@, AwayState::Here, true);
        lemma_counts_bounded(states@, AwayState::Away, false);
        lemma_counts_bounded(states@, AwayState::Busy, true);
        lemma_counts_bounded(states@, AwayState::Gone, true);
    }
    let mut v: Vec<char> = Vec::new();
    push_str(&mut v, "\nActive Users:\n\n");
    push_str(&mut v, "  \"Here\"     \"Away\"     \"Busy\"     \"Gone\"    Attached   Detached    Total\n");
    push_str(&mut v, " ");
    push_count_cell(&mut v, count_states(states, AwayState::Here), t);
    push_str(&mut v, "   ");
    push_count_cell(&mut v, count_states(states, AwayState::Away), t);
    push_str(&mut v, "   ");
    push_count_cell(&mut v, count_states(states, AwayState::Busy), t);
    push_str(&mut v, "   ");
    push_count_cell(&mut v, count_states(states, AwayState::Gone), t);
    push_str(&mut v, "   ");
    push_count_cell(&mut v, count_attached_exec(states, true), t);
    push_str(&mut v, "   ");
    push_count_cell(&mut v, count_attached_exec(states, false), t);
    push_str(&mut v, "   ");
    push_int_width(&mut v, t as i64, 3);
    push_str(&mut v, " 100%\n");
    push_str(&mut v, "\nDiscussions in use: ");
    push_digits(&mut v, discussions as u64);
    push_str(&mut v, "\n\n");
    proof {
        assert(v@ =~= howmany_spec(states@, discussions as nat));
    }
    string_from_chars(v)
}

/// A character takes at least one byte.
pub proof fn lemma_len_le_utf8_len(s: Seq<char>)
    ensures
        s.len() <= utf8_len(s),
    decreases s.len(),
{
    if s.len() > 0 {
        lemma_len_le_utf8_len(s.drop_last());
    }
}

/// A discussion as the `/what` list shows it.
#[derive(Debug)]
pub struct DiscussionRow {
    pub name: String,
    pub title: String,
    /// How many members it has, and whether the user is one.
    pub member_count: usize,
    pub is_member: bool,
    /// Seconds since the last message to it.
    pub idle_seconds: i64,
    /// Whether the user may see its title.
    pub permitted: bool,
}

/// `s` cut to `w` characters and padded with spaces to `w`.
pub open spec fn fit(s: Seq<char>, w: nat) -> Seq<char> {
    pad_right(if s.len() > w {
        s.take(w as int)
    } else {
        s
    }, w)
}

/// The name column of `/what`: 15 columns, or 14 and a `+` for a name of
/// more than 15 bytes.
pub open spec fn disc_name_column(name: Seq<char>) -> Seq<char> {
    if utf8_len(name) > 15 {
        fit(name, 14) + "+"@
    } else {
        pad_right(name, 15)
    }
}

/// The idle column of `/what`.
pub open spec fn disc_idle_column(m: int) -> Seq<char> {
    if m > 0 {
        let hours = m / 60;
        let minutes = m % 60;
        let days = hours / 24;
        let h = hours % 24;
        if days > 0 {
            " "@ + int_str(days) + "d"@ + zero_pad(h, 2) + ":"@ + zero_pad(minutes, 2) + "  "@
        } else if h > 0 {
            "    "@ + int_str(h) + ":"@ + zero_pad(minutes, 2) + "  "@
        } else {
            "      "@ + pad_left(int_str(minutes), 2, ' ') + "  "@
        }
    } else {
        "         "@
    }
}

/// The title column of `/what`: the title (48 characters and a `+` for a
/// title of more than 49 bytes), or "<Private>" for those who may not see
/// it.
pub open spec fn disc_title_column(title: Seq<char>, permitted: bool) -> Seq<char> {
    if !permitted {
        "<Private>\n"@
    } else if utf8_len(title) > 49 {
        fit(title, 48) + "+\n"@
    } else {
        title + "\n"@
    }
}

/// A row of the `/what` list.
pub open spec fn what_row_spec(d: DiscussionRow) -> Seq<char> {
    " "@ + disc_name_column(d.name@) + pad_left(int_str(d.member_count as int), 3, ' ') + (if d.is_member {
        "*"@
    } else {
        " "@
    }) + " "@ + disc_idle_column(tdiv(d.idle_seconds as int, 60)) + disc_title_column(d.title@, d.permitted)
}

/// The first `k` rows of the `/what` list.
pub open spec fn what_rows_spec(rows: Seq<DiscussionRow>, k: int) -> Seq<char>
    decreases k,
{
    if k <= 0 {
        Seq::empty()
    } else {
        what_rows_spec(rows, k - 1) + what_row_spec(rows[k - 1])
    }
}

/// The `/what` list: nothing to list when no discussion exists; only the
/// sendlist's reports when discussions were named (`named`) but none
/// matched; otherwise the rows and the reports.
pub open spec fn what_report_spec(any: bool, named: bool, rows: Seq<DiscussionRow>, errors: Seq<char>) -> Seq<char> {
    if !any {
        "No discussions currently exist.\n"@
    } else if named && rows.len() == 0 {
        errors
    } else {
        "\n Name            Users  Idle  Title\n"@ + " ----            -----  ----  -----\n"@ + what_rows_spec(
            rows,
            rows.len() as int,
        ) + crate::report::errors_tail_spec(errors)
    }
}

fn push_fit(v: &mut Vec<char>, s: &str, w: usize)
    ensures
        final(v)@ == old(v)@ + fit(s@, w as nat),
{
    let cs = str_chars(s);
    let mut t: Vec<char> = Vec::new();
    let n = if cs.len() > w {
        w
    } else {
        cs.len()
    };
    let mut i: usize = 0;
    while i < n
        invariant
            i <= n <= cs.len(),
            t@ == cs@.take(i as int),
        decreases n - i,
    {
        t.push(cs[i]);
        proof {
            assert(cs@.take(i + 1) =~= cs@.take(i as int).push(cs@[i as int]));
        }
        i += 1;
    }
    proof {
        if cs.len() <= w {
            assert(cs@.take(n as int) =~= s@);
        }
    }
    pad_chars(&mut t, w);
    push_chars(v, &t);
}

fn push_disc_name_column(v: &mut Vec<char>, name: &str)
    ensures
        final(v)@ == old(v)@ + disc_name_column(name@),
{
    if longer_than(name, 15) {
        push_fit(v, name, 14);
        push_str(v, "+");
    } else {
        push_fit(v, name, 15);
        proof {
            lemma_len_le_utf8_len(name@);
        }
    }
    assert(v@ =~= old(v)@ + disc_name_column(name@));
}

fn push_disc_idle_column(v: &mut Vec<char>, m: i64)
    ensures
        final(v)@ == old(v)@ + disc_idle_column(m as int),
{
    if m > 0 {
        let mu = m as u64;
        let hours = mu / 60;
        let minutes = mu % 60;
        let days = hours / 24;
        let h = hours % 24;
        assert(hours == m / 60 && minutes == m % 60 && days == (m / 60) / 24 && h == (m / 60) % 24);
        if days > 0 {
            push_str(v, " ");
            push_int(v, days as i64);
            push_str(v, "d");
            push_int_zero(v, h as i64, 2);
            push_str(v, ":");
            push_int_zero(v, minutes as i64, 2);
            push_str(v, "  ");
        } else if h > 0 {
            push_str(v, "    ");
            push_int(v, h as i64);
            push_str(v, ":");
            push_int_zero(v, minutes as i64, 2);
            push_str(v, "  ");
        } else {
            push_str(v, "      ");
            push_int_width(v, minutes as i64, 2);
            push_str(v, "  ");
        }
    } else {
        push_str(v, "         ");
    }
    assert(v@ =~= old(v)@ + disc_idle_column(m as int));
}

fn push_disc_title_column(v: &mut Vec<char>, title: &str, permitted: bool)
    ensures
        final(v)@ == old(v)@ + disc_title_column(title@, permitted),
{
    if !permitted {
        push_str(v, "<Private>\n");
    } else if longer_than(title, 49) {
        push_fit(v, title, 48);
        push_str(v, "+\n");
    } else {
        push_str(v, title);
        push_str(v, "\n");
    }
    assert(v@ =~= old(v)@ + disc_title_column(title@, permitted));
}

fn push_what_row(v: &mut Vec<char>, d: &DiscussionRow)
    ensures
        final(v)@ == old(v)@ + what_row_spec(*d),
{
    push_str(v, " ");
    push_disc_name_column(v, d.name.as_str());
    let mut count: Vec<char> = Vec::new();
    crate::session::push_digits(&mut count, d.member_count as u64);
    crate::session::push_padded(v, &count, 3, ' ');
    push_str(v, if d.is_member {
        "*"
    } else {
        " "
    });
    push_str(v, " ");
    let m = crate::session::idle_minutes(d.idle_seconds, 0);
    push_disc_idle_column(v, m);
    push_disc_title_column(v, d.title.as_str(), d.permitted);
    assert(v@ =~= old(v)@ + what_row_spec(*d));
}

/// The `/what` list (see `what_report_spec`).
pub fn what_report(any: bool, named: bool, rows: &Vec<DiscussionRow>, errors: &str) -> (r: String)
    ensures
        r@ == what_report_spec(any, named, rows@, errors@),
{
    if !any {
        return String::from_str("No discussions currently exist.\n");
    }
    if named && rows.len() == 0 {
        return String::from_str(errors);
    }
    let mut v: Vec<char> = Vec::new();
    push_str(&mut v, "\n Name            Users  Idle  Title\n");
    push_str(&mut v, " ----            -----  ----  -----\n");
    let ghost start = v@;
    let mut i: usize = 0;
    while i < rows.len()
        invariant
            i <= rows.len(),
            v@ == start + what_rows_spec(rows@, i as int),
        decreases rows.len() - i,
    {
        push_what_row(&mut v, &rows[i]);
        proof {
            assert(v@ =~= start + what_rows_spec(rows@, i + 1));
        }
        i += 1;
    }
    let t = crate::report::errors_tail(errors);
    push_str(&mut v, t.as_str());
    assert(v@ =~= what_report_spec(any, named, rows@, errors@));
    string_from_chars(v)
}

} // verus!
