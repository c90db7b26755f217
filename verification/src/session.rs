//! A session's state words and the decisions of its commands: reading an
//! input line as a command, idle times and their display, and the `/who`
//! selection.

use vstd::prelude::*;
use vstd::string::StringExecFns;
use crate::words::{match_keyword, match_keyword_spec, trim, trim_spec};

verus! {

// ---------------------------------------------------------------------------
// Login and away states
// ---------------------------------------------------------------------------

/// Where a session is in the login dialogue.
#[derive(Debug, Clone, Copy, PartialEq, Eq, Structural)]
pub enum LoginState {
    PreLogin,
    AwaitingLogin,
    AwaitingPassword,
    AwaitingName,
    AwaitingBlurb,
    AwaitingTransferConfirmation,
    LoggedIn,
}

/// The state with the given number; other numbers give `PreLogin`.
pub open spec fn login_state_of(n: u8) -> LoginState {
    if n == 1 {
        LoginState::AwaitingLogin
    } else if n == 2 {
        LoginState::AwaitingPassword
    } else if n == 3 {
        LoginState::AwaitingName
    } else if n == 4 {
        LoginState::AwaitingBlurb
    } else if n == 5 {
        LoginState::AwaitingTransferConfirmation
    } else if n == 6 {
        LoginState::LoggedIn
    } else {
        LoginState::PreLogin
    }
}

/// The number of a login state.
pub open spec fn login_state_code(s: LoginState) -> u8 {
    match s {
        LoginState::PreLogin => 0,
        LoginState::AwaitingLogin => 1,
        LoginState::AwaitingPassword => 2,
        LoginState::AwaitingName => 3,
        LoginState::AwaitingBlurb => 4,
        LoginState::AwaitingTransferConfirmation => 5,
        LoginState::LoggedIn => 6,
    }
}

impl From<u8> for LoginState {
    fn from(n: u8) -> (r: LoginState) {
        match n {
            1 => LoginState::AwaitingLogin,
            2 => LoginState::AwaitingPassword,
            3 => LoginState::AwaitingName,
            4 => LoginState::AwaitingBlurb,
            5 => LoginState::AwaitingTransferConfirmation,
            6 => LoginState::LoggedIn,
            _ => LoginState::PreLogin,
        }
    }
}

impl vstd::std_specs::convert::FromSpecImpl<u8> for LoginState {
    open spec fn obeys_from_spec() -> bool {
        true
    }

    open spec fn from_spec(n: u8) -> LoginState {
        login_state_of(n)
    }
}

impl LoginState {
    /// The state's number.
    pub fn code(self) -> (r: u8)
        ensures
            r == login_state_code(self),
    {
        match self {
            LoginState::PreLogin => 0,
            LoginState::AwaitingLogin => 1,
            LoginState::AwaitingPassword => 2,
            LoginState::AwaitingName => 3,
            LoginState::AwaitingBlurb => 4,
            LoginState::AwaitingTransferConfirmation => 5,
            LoginState::LoggedIn => 6,
        }
    }
}

/// Every login state survives the round trip through its number.
pub proof fn lemma_login_state_roundtrip(s: LoginState)
    ensures
        login_state_of(login_state_code(s)) == s,
{
}

/// How available a user says they are.
#[derive(Debug, Clone, Copy, PartialEq, Eq, Structural)]
pub enum AwayState {
    Here,
    Away,
    Busy,
    Gone,
}

/// The state with the given number; other numbers give `Here`.
pub open spec fn away_state_of(n: u8) -> AwayState {
    if n == 1 {
        AwayState::Away
    } else if n == 2 {
        AwayState::Busy
    } else if n == 3 {
        AwayState::Gone
    } else {
        AwayState::Here
    }
}

/// The number of an away state.
pub open spec fn away_state_code(s: AwayState) -> u8 {
    match s {
        AwayState::Here => 0,
        AwayState::Away => 1,
        AwayState::Busy => 2,
        AwayState::Gone => 3,
    }
}

impl From<u8> for AwayState {
    fn from(n: u8) -> (r: AwayState) {
        match n {
            1 => AwayState::Away,
            2 => AwayState::Busy,
            3 => AwayState::Gone,
            _ => AwayState::Here,
        }
    }
}

impl vstd::std_specs::convert::FromSpecImpl<u8> for AwayState {
    open spec fn obeys_from_spec() -> bool {
        true
    }

    open spec fn from_spec(n: u8) -> AwayState {
        away_state_of(n)
    }
}

impl AwayState {
    /// The state's number.
    pub fn code(self) -> (r: u8)
        ensures
            r == away_state_code(self),
    {
        match self {
            AwayState::Here => 0,
            AwayState::Away => 1,
            AwayState::Busy => 2,
            AwayState::Gone => 3,
        }
    }
}

/// Every away state survives the round trip through its number.
pub proof fn lemma_away_state_roundtrip(s: AwayState)
    ensures
        away_state_of(away_state_code(s)) == s,
{
}

// ---------------------------------------------------------------------------
// Numbers as text
// ---------------------------------------------------------------------------

/// The decimal digits of a natural number.
pub open spec fn digits(n: nat) -> Seq<char>
    decreases n,
{
    if n < 10 {
        seq![(n + 48) as char]
    } else {
        digits(n / 10).push(((n % 10) + 48) as char)
    }
}

/// An integer in decimal, with a minus sign when negative.
pub open spec fn int_str(i: int) -> Seq<char> {
    if i < 0 {
        seq!['-'] + digits((-i) as nat)
    } else {
        digits(i as nat)
    }
}

/// `s` padded with `c` on the left to `w` characters.
pub open spec fn pad_left(s: Seq<char>, w: nat, c: char) -> Seq<char> {
    if s.len() >= w {
        s
    } else {
        Seq::new((w - s.len()) as nat, |i: int| c) + s
    }
}

/// An integer as `format!("{:0w$}")` writes it: zeros go after the sign.
pub open spec fn zero_pad(i: int, w: nat) -> Seq<char> {
    if i < 0 {
        seq!['-'] + pad_left(digits((-i) as nat), if w > 0 { (w - 1) as nat } else { 0 }, '0')
    } else {
        pad_left(digits(i as nat), w, '0')
    }
}

/// Appends the digits of `n`.
pub(crate) fn push_digits(v: &mut Vec<char>, n: u64)
    ensures
        final(v)@ == old(v)@ + digits(n as nat),
    decreases n,
{
    if n < 10 {
        let d = (n as u8 + 48) as char;
        v.push(d);
        assert(digits(n as nat) == seq![((n as nat) + 48) as char]);
    } else {
        push_digits(v, n / 10);
        let d = ((n % 10) as u8 + 48) as char;
        v.push(d);
        assert(digits(n as nat) == digits((n / 10) as nat).push((((n as nat) % 10) + 48) as char));
    }
}

/// The magnitude of an `i64`.
fn magnitude(i: i64) -> (r: u64)
    ensures
        r as int == (if i < 0 {
            -i
        } else {
            i as int
        }),
{
    if i >= 0 {
        i as u64
    } else if i == i64::MIN {
        0x8000_0000_0000_0000u64
    } else {
        (-i) as u64
    }
}

/// Appends `c` until `v` holds `w` more characters than `base` had.
pub(crate) fn push_fill(v: &mut Vec<char>, c: char, n: usize)
    ensures
        final(v)@ == old(v)@ + Seq::new(n as nat, |i: int| c),
{
    let mut k: usize = 0;
    while k < n
        invariant
            k <= n,
            v@ == old(v)@ + Seq::new(k as nat, |i: int| c),
        decreases n - k,
    {
        v.push(c);
        k += 1;
        proof {
            assert(v@ =~= old(v)@ + Seq::new(k as nat, |i: int| c));
        }
    }
}

/// Appends `s` padded with `c` on the left to `w` characters.
pub(crate) fn push_padded(v: &mut Vec<char>, s: &Vec<char>, w: usize, c: char)
    ensures
        final(v)@ == old(v)@ + pad_left(s@, w as nat, c),
{
    if s.len() < w {
        push_fill(v, c, w - s.len());
    }
    crate::chars::push_chars(v, s);
    proof {
        if s.len() < w {
            assert(v@ =~= old(v)@ + pad_left(s@, w as nat, c));
        } else {
            assert(v@ =~= old(v)@ + pad_left(s@, w as nat, c));
        }
    }
}

/// Appends an integer in decimal.
pub fn push_int(v: &mut Vec<char>, i: i64)
    ensures
        final(v)@ == old(v)@ + int_str(i as int),
{
    if i < 0 {
        v.push('-');
    }
    push_digits(v, magnitude(i));
    proof {
        assert(v@ =~= old(v)@ + int_str(i as int));
    }
}

/// Appends an integer right-aligned in `w` columns (`{:w$}`).
pub fn push_int_width(v: &mut Vec<char>, i: i64, w: usize)
    ensures
        final(v)@ == old(v)@ + pad_left(int_str(i as int), w as nat, ' '),
{
    let mut s: Vec<char> = Vec::new();
    push_int(&mut s, i);
    push_padded(v, &s, w, ' ');
}

/// Appends an integer zero-padded to `w` columns (`{:0w$}`).
pub fn push_int_zero(v: &mut Vec<char>, i: i64, w: usize)
    ensures
        final(v)@ == old(v)@ + zero_pad(i as int, w as nat),
{
    let mut s: Vec<char> = Vec::new();
    push_digits(&mut s, magnitude(i));
    if i < 0 {
        v.push('-');
        let w1 = if w > 0 {
            w - 1
        } else {
            0
        };
        push_padded(v, &s, w1, '0');
        proof {
            assert(v@ =~= old(v)@ + zero_pad(i as int, w as nat));
        }
    } else {
        push_padded(v, &s, w, '0');
    }
}

} // verus!

verus! {

// ---------------------------------------------------------------------------
// Idle times
// ---------------------------------------------------------------------------

/// Integer division rounding toward zero, as Rust's `/` does.
pub open spec fn tdiv(a: int, b: int) -> int {
    if a >= 0 {
        a / b
    } else {
        -((-a) / b)
    }
}

/// The remainder of `tdiv`, as Rust's `%` gives it.
pub open spec fn trem(a: int, b: int) -> int {
    if a >= 0 {
        a % b
    } else {
        -((-a) % b)
    }
}

/// `a / b` rounding toward zero, for a positive `b`.
fn div0(a: i64, b: i64) -> (r: i64)
    requires
        b > 0,
    ensures
        r == tdiv(a as int, b as int),
{
    let m = magnitude(a);
    let q = m / (b as u64);
    assert(q <= 0x8000_0000_0000_0000u64);
    if a >= 0 {
        q as i64
    } else {
        if q == 0x8000_0000_0000_0000u64 {
            i64::MIN
        } else {
            -(q as i64)
        }
    }
}

/// `a % b` with the sign of `a`, for a positive `b`.
fn rem0(a: i64, b: i64) -> (r: i64)
    requires
        b > 0,
    ensures
        r == trem(a as int, b as int),
{
    let m = magnitude(a);
    let q = m % (b as u64);
    if a >= 0 {
        q as i64
    } else {
        -(q as i64)
    }
}

/// The time format chosen by the `time_format` variable: 0 verbose, 1
/// both, 2 terse; unset or unknown is verbose (the default).
pub open spec fn time_format_spec(var: Option<Seq<char>>) -> u8 {
    match var {
        Some(v) => if v == "both"@ {
            1
        } else if v == "terse"@ {
            2
        } else {
            0
        },
        None => 0,
    }
}

/// The time format chosen by the `time_format` variable.
pub fn time_format_code(var: Option<&str>) -> (r: u8)
    ensures
        r == time_format_spec(match var {
            Some(v) => Some(v@),
            None => None,
        }),
{
    match var {
        Some(v) => {
            if crate::chars::chars_equal_str(&crate::chars::str_chars(v), "both") {
                1
            } else if crate::chars::chars_equal_str(&crate::chars::str_chars(v), "terse") {
                2
            } else {
                0
            }
        },
        None => 0,
    }
}

/// "s" unless the count is one.
pub open spec fn plural(n: int) -> Seq<char> {
    if n == 1 {
        ""@
    } else {
        "s"@
    }
}

/// A number of minutes as shown after "idle for" and the like: words
/// (format 0), words and `d hh:mm` in parentheses (1), or `d hh:mm`
/// alone (2); each part starts with a space.
pub open spec fn time_long_spec(minutes: int, format: u8) -> Seq<char> {
    let hours = tdiv(minutes, 60);
    let days = tdiv(hours, 24);
    let m = trem(minutes, 60);
    let h = trem(hours, 24);
    time_words(days, h, m, format) + time_digits(days, h, m, format)
}

/// A count and its unit, with a space before and "s" unless it is one.
pub open spec fn count_words(n: int, unit: Seq<char>) -> Seq<char> {
    " "@ + int_str(n) + unit + plural(n)
}

/// The days of `time_words`.
pub open spec fn day_words(days: int, h: int, m: int) -> Seq<char> {
    if days > 0 {
        count_words(days, " day"@) + (if h > 0 && m > 0 {
            ","@
        } else if h > 0 || m > 0 {
            " and"@
        } else {
            ""@
        })
    } else {
        ""@
    }
}

/// The hours of `time_words`.
pub open spec fn hour_words(h: int, m: int) -> Seq<char> {
    if h > 0 {
        count_words(h, " hour"@) + (if m > 0 {
            " and"@
        } else {
            ""@
        })
    } else {
        ""@
    }
}

/// The minutes of `time_words`.
pub open spec fn minute_words(m: int) -> Seq<char> {
    if m > 0 {
        count_words(m, " minute"@)
    } else {
        ""@
    }
}

/// The words of `time_long_spec`.
pub open spec fn time_words(days: int, h: int, m: int, format: u8) -> Seq<char> {
    if format <= 1 {
        if days > 0 || h > 0 || m > 0 {
            (if m == 0 {
                " exactly"@
            } else {
                ""@
            }) + day_words(days, h, m) + hour_words(h, m) + minute_words(m)
        } else {
            " under a minute"@
        }
    } else {
        ""@
    }
}

/// The `d hh:mm` part of `time_long_spec`.
pub open spec fn time_digits(days: int, h: int, m: int, format: u8) -> Seq<char> {
    if format >= 1 {
        " "@ + (if format == 1 {
            "("@
        } else {
            ""@
        }) + (if days > 0 {
            int_str(days) + "d"@ + zero_pad(h, 2) + ":"@ + zero_pad(m, 2)
        } else {
            int_str(h) + ":"@ + zero_pad(m, 2)
        }) + (if format == 1 {
            ")"@
        } else {
            ""@
        })
    } else {
        ""@
    }
}

/// Appends a count and its unit.
fn push_count(v: &mut Vec<char>, n: i64, unit: &str)
    ensures
        final(v)@ == old(v)@ + count_words(n as int, unit@),
{
    proof {
        reveal_strlit(" ");
        reveal_strlit("s");
        reveal_strlit("");
    }
    v.push(' ');
    push_int(v, n);
    crate::chars::push_str(v, unit);
    if n != 1 {
        v.push('s');
    }
    proof {
        assert(v@ =~= old(v)@ + count_words(n as int, unit@));
    }
}

/// Appends the words of `time_long_spec`.
fn push_time_words(v: &mut Vec<char>, days: i64, h: i64, m: i64, format: u8)
    ensures
        final(v)@ == old(v)@ + time_words(days as int, h as int, m as int, format),
{
    proof {
        reveal_strlit(" exactly");
        reveal_strlit(",");
        reveal_strlit(" and");
        reveal_strlit("");
        reveal_strlit(" under a minute");
    }
    if format <= 1 {
        if days > 0 || h > 0 || m > 0 {
            let ghost v0 = v@;
            if m == 0 {
                crate::chars::push_str(v, " exactly");
            }
            let ghost v1 = v@;
            if days > 0 {
                push_count(v, days, " day");
                if h > 0 && m > 0 {
                    v.push(',');
                } else if h > 0 || m > 0 {
                    crate::chars::push_str(v, " and");
                }
            }
            let ghost v2 = v@;
            assert(v2 =~= v1 + day_words(days as int, h as int, m as int));
            if h > 0 {
                push_count(v, h, " hour");
                if m > 0 {
                    crate::chars::push_str(v, " and");
                }
            }
            let ghost v3 = v@;
            assert(v3 =~= v2 + hour_words(h as int, m as int));
            if m > 0 {
                push_count(v, m, " minute");
            }
            proof {
                assert(v1 =~= v0 + (if m == 0 { " exactly"@ } else { ""@ }));
                assert(v@ =~= v3 + minute_words(m as int));
                assert(v@ =~= old(v)@ + time_words(days as int, h as int, m as int, format));
            }
        } else {
            crate::chars::push_str(v, " under a minute");
        }
    } else {
        assert(v@ =~= old(v)@ + time_words(days as int, h as int, m as int, format));
    }
}

/// Appends the `d hh:mm` part of `time_long_spec`.
fn push_time_digits(v: &mut Vec<char>, days: i64, h: i64, m: i64, format: u8)
    ensures
        final(v)@ == old(v)@ + time_digits(days as int, h as int, m as int, format),
{
    proof {
        reveal_strlit(" ");
        reveal_strlit("");
        reveal_strlit("(");
        reveal_strlit("d");
        reveal_strlit(":");
        reveal_strlit(")");
    }
    if format >= 1 {
        v.push(' ');
        if format == 1 {
            v.push('(');
        }
        if days > 0 {
            push_int(v, days);
            v.push('d');
            push_int_zero(v, h, 2);
            v.push(':');
            push_int_zero(v, m, 2);
        } else {
            push_int(v, h);
            v.push(':');
            push_int_zero(v, m, 2);
        }
        if format == 1 {
            v.push(')');
        }
        proof {
            assert(v@ =~= old(v)@ + time_digits(days as int, h as int, m as int, format));
        }
    } else {
        assert(v@ =~= old(v)@ + time_digits(days as int, h as int, m as int, format));
    }
}

/// A number of minutes as shown after "idle for" and the like.
pub fn time_long(minutes: i64, format: u8) -> (r: String)
    ensures
        r@ == time_long_spec(minutes as int, format),
{
    let hours = div0(minutes, 60);
    let days = div0(hours, 24);
    let m = rem0(minutes, 60);
    let h = rem0(hours, 24);
    let mut v: Vec<char> = Vec::new();
    push_time_words(&mut v, days, h, m, format);
    push_time_digits(&mut v, days, h, m, format);
    crate::chars::string_from_chars(v)
}

} // verus!

verus! {

// ---------------------------------------------------------------------------
// Reading an input line
// ---------------------------------------------------------------------------

/// The commands.
#[derive(Debug, Clone, Copy, PartialEq, Eq, Structural)]
pub enum Command {
    Restart,
    Down,
    Nuke,
    Who,
    Idle,
    Blurb,
    Here,
    Away,
    Busy,
    Gone,
    Help,
    Send,
    Bye,
    What,
    Join,
    Quit,
    Create,
    Destroy,
    Permit,
    Depermit,
    Appoint,
    Unappoint,
    Rename,
    Clear,
    Unidle,
    Detach,
    Howmany,
    Why,
    Date,
    Signal,
    SetVar,
    Display,
    Also,
    Oops,
}

/// The privileged `!` command that a line names, with its arguments.
pub open spec fn bang_command_spec(line: Seq<char>) -> Option<(Command, Seq<char>)> {
    if match_keyword_spec(line, "!restart"@, 8).is_some() {
        Some((Command::Restart, match_keyword_spec(line, "!restart"@, 8).unwrap()))
    } else if match_keyword_spec(line, "!down"@, 5).is_some() {
        Some((Command::Down, match_keyword_spec(line, "!down"@, 5).unwrap()))
    } else if match_keyword_spec(line, "!nuke"@, 5).is_some() {
        Some((Command::Nuke, match_keyword_spec(line, "!nuke"@, 5).unwrap()))
    } else {
        None
    }
}

/// The `/` command that a line names, with its arguments.
pub open spec fn slash_command_spec(line: Seq<char>) -> Option<(Command, Seq<char>)> {
    if match_keyword_spec(line, "/who"@, 2).is_some() {
        Some((Command::Who, match_keyword_spec(line, "/who"@, 2).unwrap()))
    } else if match_keyword_spec(line, "/idle"@, 2).is_some() {
        Some((Command::Idle, match_keyword_spec(line, "/idle"@, 2).unwrap()))
    } else if match_keyword_spec(line, "/blurb"@, 3).is_some() {
        Some((Command::Blurb, match_keyword_spec(line, "/blurb"@, 3).unwrap()))
    } else if match_keyword_spec(line, "/here"@, 2).is_some() {
        Some((Command::Here, match_keyword_spec(line, "/here"@, 2).unwrap()))
    } else if match_keyword_spec(line, "/away"@, 2).is_some() {
        Some((Command::Away, match_keyword_spec(line, "/away"@, 2).unwrap()))
    } else if match_keyword_spec(line, "/busy"@, 2).is_some() {
        Some((Command::Busy, match_keyword_spec(line, "/busy"@, 2).unwrap()))
    } else if match_keyword_spec(line, "/gone"@, 2).is_some() {
        Some((Command::Gone, match_keyword_spec(line, "/gone"@, 2).unwrap()))
    } else if match_keyword_spec(line, "/help"@, 2).is_some() {
        Some((Command::Help, match_keyword_spec(line, "/help"@, 2).unwrap()))
    } else if match_keyword_spec(line, "/send"@, 2).is_some() {
        Some((Command::Send, match_keyword_spec(line, "/send"@, 2).unwrap()))
    } else if match_keyword_spec(line, "/bye"@, 4).is_some() {
        Some((Command::Bye, match_keyword_spec(line, "/bye"@, 4).unwrap()))
    } else if match_keyword_spec(line, "/what"@, 3).is_some() {
        Some((Command::What, match_keyword_spec(line, "/what"@, 3).unwrap()))
    } else if match_keyword_spec(line, "/join"@, 2).is_some() {
        Some((Command::Join, match_keyword_spec(line, "/join"@, 2).unwrap()))
    } else if match_keyword_spec(line, "/quit"@, 2).is_some() {
        Some((Command::Quit, match_keyword_spec(line, "/quit"@, 2).unwrap()))
    } else if match_keyword_spec(line, "/create"@, 3).is_some() {
        Some((Command::Create, match_keyword_spec(line, "/create"@, 3).unwrap()))
    } else if match_keyword_spec(line, "/destroy"@, 4).is_some() {
        Some((Command::Destroy, match_keyword_spec(line, "/destroy"@, 4).unwrap()))
    } else if match_keyword_spec(line, "/permit"@, 4).is_some() {
        Some((Command::Permit, match_keyword_spec(line, "/permit"@, 4).unwrap()))
    } else if match_keyword_spec(line, "/depermit"@, 4).is_some() {
        Some((Command::Depermit, match_keyword_spec(line, "/depermit"@, 4).unwrap()))
    } else if match_keyword_spec(line, "/appoint"@, 4).is_some() {
        Some((Command::Appoint, match_keyword_spec(line, "/appoint"@, 4).unwrap()))
    } else if match_keyword_spec(line, "/unappoint"@, 10).is_some() {
        Some((Command::Unappoint, match_keyword_spec(line, "/unappoint"@, 10).unwrap()))
    } else if match_keyword_spec(line, "/rename"@, 7).is_some() {
        Some((Command::Rename, match_keyword_spec(line, "/rename"@, 7).unwrap()))
    } else if match_keyword_spec(line, "/clear"@, 3).is_some() {
        Some((Command::Clear, match_keyword_spec(line, "/clear"@, 3).unwrap()))
    } else if match_keyword_spec(line, "/unidle"@, 7).is_some() {
        Some((Command::Unidle, match_keyword_spec(line, "/unidle"@, 7).unwrap()))
    } else if match_keyword_spec(line, "/detach"@, 4).is_some() {
        Some((Command::Detach, match_keyword_spec(line, "/detach"@, 4).unwrap()))
    } else if match_keyword_spec(line, "/howmany"@, 3).is_some() {
        Some((Command::Howmany, match_keyword_spec(line, "/howmany"@, 3).unwrap()))
    } else if match_keyword_spec(line, "/why"@, 4).is_some() {
        Some((Command::Why, match_keyword_spec(line, "/why"@, 4).unwrap()))
    } else if match_keyword_spec(line, "/date"@, 3).is_some() {
        Some((Command::Date, match_keyword_spec(line, "/date"@, 3).unwrap()))
    } else if match_keyword_spec(line, "/signal"@, 3).is_some() {
        Some((Command::Signal, match_keyword_spec(line, "/signal"@, 3).unwrap()))
    } else if match_keyword_spec(line, "/set"@, 4).is_some() {
        Some((Command::SetVar, match_keyword_spec(line, "/set"@, 4).unwrap()))
    } else if match_keyword_spec(line, "/display"@, 2).is_some() {
        Some((Command::Display, match_keyword_spec(line, "/display"@, 2).unwrap()))
    } else if match_keyword_spec(line, "/also"@, 3).is_some() {
        Some((Command::Also, match_keyword_spec(line, "/also"@, 3).unwrap()))
    } else if match_keyword_spec(line, "/oops"@, 3).is_some() {
        Some((Command::Oops, match_keyword_spec(line, "/oops"@, 3).unwrap()))
    } else {
        None
    }
}

/// The privileged `!` command that a line names.
fn bang_command<'a>(line: &'a str) -> (r: Option<(Command, &'a str)>)
    ensures
        match r {
            Some((c, a)) => bang_command_spec(line@) == Some((c, a@)),
            None => bang_command_spec(line@) is None,
        },
{
    proof {
        reveal_strlit("!restart");
        reveal_strlit("!down");
        reveal_strlit("!nuke");
        reveal_strlit("/who");
        reveal_strlit("/idle");
        reveal_strlit("/blurb");
        reveal_strlit("/here");
        reveal_strlit("/away");
        reveal_strlit("/busy");
        reveal_strlit("/gone");
        reveal_strlit("/help");
        reveal_strlit("/send");
        reveal_strlit("/bye");
        reveal_strlit("/what");
        reveal_strlit("/join");
        reveal_strlit("/quit");
        reveal_strlit("/create");
        reveal_strlit("/destroy");
        reveal_strlit("/permit");
        reveal_strlit("/depermit");
        reveal_strlit("/appoint");
        reveal_strlit("/unappoint");
        reveal_strlit("/rename");
        reveal_strlit("/clear");
        reveal_strlit("/unidle");
        reveal_strlit("/detach");
        reveal_strlit("/howmany");
        reveal_strlit("/why");
        reveal_strlit("/date");
        reveal_strlit("/signal");
        reveal_strlit("/set");
        reveal_strlit("/display");
        reveal_strlit("/also");
        reveal_strlit("/oops");
    }
    if let Some(args) = match_keyword(line, "!restart", 8) {
        Some((Command::Restart, args))
    } else if let Some(args) = match_keyword(line, "!down", 5) {
        Some((Command::Down, args))
    } else if let Some(args) = match_keyword(line, "!nuke", 5) {
        Some((Command::Nuke, args))
    } else {
        None
    }
}

/// The `/` command that a line names.
fn slash_command<'a>(line: &'a str) -> (r: Option<(Command, &'a str)>)
    ensures
        match r {
            Some((c, a)) => slash_command_spec(line@) == Some((c, a@)),
            None => slash_command_spec(line@) is None,
        },
{
    proof {
        reveal_strlit("!restart");
        reveal_strlit("!down");
        reveal_strlit("!nuke");
        reveal_strlit("/who");
        reveal_strlit("/idle");
        reveal_strlit("/blurb");
        reveal_strlit("/here");
        reveal_strlit("/away");
        reveal_strlit("/busy");
        reveal_strlit("/gone");
        reveal_strlit("/help");
        reveal_strlit("/send");
        reveal_strlit("/bye");
        reveal_strlit("/what");
        reveal_strlit("/join");
        reveal_strlit("/quit");
        reveal_strlit("/create");
        reveal_strlit("/destroy");
        reveal_strlit("/permit");
        reveal_strlit("/depermit");
        reveal_strlit("/appoint");
        reveal_strlit("/unappoint");
        reveal_strlit("/rename");
        reveal_strlit("/clear");
        reveal_strlit("/unidle");
        reveal_strlit("/detach");
        reveal_strlit("/howmany");
        reveal_strlit("/why");
        reveal_strlit("/date");
        reveal_strlit("/signal");
        reveal_strlit("/set");
        reveal_strlit("/display");
        reveal_strlit("/also");
        reveal_strlit("/oops");
    }
    if let Some(args) = match_keyword(line, "/who", 2) {
        Some((Command::Who, args))
    } else if let Some(args) = match_keyword(line, "/idle", 2) {
        Some((Command::Idle, args))
    } else if let Some(args) = match_keyword(line, "/blurb", 3) {
        Some((Command::Blurb, args))
    } else if let Some(args) = match_keyword(line, "/here", 2) {
        Some((Command::Here, args))
    } else if let Some(args) = match_keyword(line, "/away", 2) {
        Some((Command::Away, args))
    } else if let Some(args) = match_keyword(line, "/busy", 2) {
        Some((Command::Busy, args))
    } else if let Some(args) = match_keyword(line, "/gone", 2) {
        Some((Command::Gone, args))
    } else if let Some(args) = match_keyword(line, "/help", 2) {
        Some((Command::Help, args))
    } else if let Some(args) = match_keyword(line, "/send", 2) {
        Some((Command::Send, args))
    } else if let Some(args) = match_keyword(line, "/bye", 4) {
        Some((Command::Bye, args))
    } else if let Some(args) = match_keyword(line, "/what", 3) {
        Some((Command::What, args))
    } else if let Some(args) = match_keyword(line, "/join", 2) {
        Some((Command::Join, args))
    } else if let Some(args) = match_keyword(line, "/quit", 2) {
        Some((Command::Quit, args))
    } else if let Some(args) = match_keyword(line, "/create", 3) {
        Some((Command::Create, args))
    } else if let Some(args) = match_keyword(line, "/destroy", 4) {
        Some((Command::Destroy, args))
    } else if let Some(args) = match_keyword(line, "/permit", 4) {
        Some((Command::Permit, args))
    } else if let Some(args) = match_keyword(line, "/depermit", 4) {
        Some((Command::Depermit, args))
    } else if let Some(args) = match_keyword(line, "/appoint", 4) {
        Some((Command::Appoint, args))
    } else if let Some(args) = match_keyword(line, "/unappoint", 10) {
        Some((Command::Unappoint, args))
    } else if let Some(args) = match_keyword(line, "/rename", 7) {
        Some((Command::Rename, args))
    } else if let Some(args) = match_keyword(line, "/clear", 3) {
        Some((Command::Clear, args))
    } else if let Some(args) = match_keyword(line, "/unidle", 7) {
        Some((Command::Unidle, args))
    } else if let Some(args) = match_keyword(line, "/detach", 4) {
        Some((Command::Detach, args))
    } else if let Some(args) = match_keyword(line, "/howmany", 3) {
        Some((Command::Howmany, args))
    } else if let Some(args) = match_keyword(line, "/why", 4) {
        Some((Command::Why, args))
    } else if let Some(args) = match_keyword(line, "/date", 3) {
        Some((Command::Date, args))
    } else if let Some(args) = match_keyword(line, "/signal", 3) {
        Some((Command::Signal, args))
    } else if let Some(args) = match_keyword(line, "/set", 4) {
        Some((Command::SetVar, args))
    } else if let Some(args) = match_keyword(line, "/display", 2) {
        Some((Command::Display, args))
    } else if let Some(args) = match_keyword(line, "/also", 3) {
        Some((Command::Also, args))
    } else if let Some(args) = match_keyword(line, "/oops", 3) {
        Some((Command::Oops, args))
    } else {
        None
    }
}

/// What an input line asks for.
#[derive(Debug, PartialEq, Eq)]
pub enum Input {
    /// A `!` command from a user without privilege.
    NotPrivileged,
    /// An unknown `!` command.
    UnknownPrivileged,
    /// An unknown `/` command.
    UnknownCommand,
    /// A command with its arguments.
    Run(Command, String),
    /// A single space: reset the idle time.
    Reset,
    /// A message (the whole line).
    Message,
    /// An empty line.
    Blank,
}

/// What an input line asks for, as a plain value.
pub ghost enum InputSpec {
    NotPrivileged,
    UnknownPrivileged,
    UnknownCommand,
    Run(Command, Seq<char>),
    Reset,
    Message,
    Blank,
}

/// What an input line asks of a user at privilege level `priv_level`:
/// `!` commands need level 50; commands are looked up on the trimmed line.
pub open spec fn input_spec(line: Seq<char>, priv_level: i32) -> InputSpec {
    if line.len() > 0 && line[0] == '!' {
        if priv_level < 50 {
            InputSpec::NotPrivileged
        } else {
            match bang_command_spec(trim_spec(line)) {
                Some((c, a)) => InputSpec::Run(c, a),
                None => InputSpec::UnknownPrivileged,
            }
        }
    } else if line.len() > 0 && line[0] == '/' {
        match slash_command_spec(trim_spec(line)) {
            Some((c, a)) => InputSpec::Run(c, a),
            None => InputSpec::UnknownCommand,
        }
    } else if line == seq![' '] {
        InputSpec::Reset
    } else if line.len() > 0 {
        InputSpec::Message
    } else {
        InputSpec::Blank
    }
}

impl Input {
    /// The value as a plain value.
    pub open spec fn spec(self) -> InputSpec {
        match self {
            Input::NotPrivileged => InputSpec::NotPrivileged,
            Input::UnknownPrivileged => InputSpec::UnknownPrivileged,
            Input::UnknownCommand => InputSpec::UnknownCommand,
            Input::Run(c, a) => InputSpec::Run(c, a@),
            Input::Reset => InputSpec::Reset,
            Input::Message => InputSpec::Message,
            Input::Blank => InputSpec::Blank,
        }
    }
}

/// What the user is told of an input line that runs nothing: a `!`
/// command without privilege, an unknown `!` or `/` command (nothing for
/// the other inputs).
pub open spec fn input_reply_spec(i: InputSpec) -> Seq<char> {
    match i {
        InputSpec::NotPrivileged => "Sorry, all !commands are privileged.\n"@,
        InputSpec::UnknownPrivileged => "Unknown !command.\n"@,
        InputSpec::UnknownCommand => "Unknown /command.  Type /help for help.\n"@,
        _ => Seq::empty(),
    }
}

/// What the user is told of an input line that runs nothing (see
/// `input_reply_spec`).
pub fn input_reply(i: &Input) -> (r: String)
    ensures
        r@ == input_reply_spec(i.spec()),
{
    match i {
        Input::NotPrivileged => String::from_str("Sorry, all !commands are privileged.\n"),
        Input::UnknownPrivileged => String::from_str("Unknown !command.\n"),
        Input::UnknownCommand => String::from_str("Unknown /command.  Type /help for help.\n"),
        _ => String::new(),
    }
}

/// Reads an input line as a command, a message, or an idle reset.
pub fn parse_input(line: &str, priv_level: i32) -> (r: Input)
    ensures
        r.spec() == input_spec(line@, priv_level),
{
    let cs = crate::chars::str_chars(line);
    if cs.len() > 0 && cs[0] == '!' {
        if priv_level < 50 {
            return Input::NotPrivileged;
        }
        match bang_command(trim(line)) {
            Some((c, a)) => Input::Run(c, String::from_str(a)),
            None => Input::UnknownPrivileged,
        }
    } else if cs.len() > 0 && cs[0] == '/' {
        match slash_command(trim(line)) {
            Some((c, a)) => Input::Run(c, String::from_str(a)),
            None => Input::UnknownCommand,
        }
    } else if cs.len() == 1 && cs[0] == ' ' {
        proof {
            assert(line@ =~= seq![' ']);
        }
        Input::Reset
    } else if cs.len() > 0 {
        Input::Message
    } else {
        Input::Blank
    }
}

} // verus!

verus! {

// ---------------------------------------------------------------------------
// Setting and resetting the idle time
// ---------------------------------------------------------------------------

/// Whole minutes from `since` to `now`, rounded toward zero.
pub open spec fn idle_minutes_spec(now: int, since: int) -> int {
    tdiv(now - since, 60)
}

/// Whole minutes from `since` to `now`, rounded toward zero.
pub fn idle_minutes(now: i64, since: i64) -> (r: i64)
    ensures
        r == idle_minutes_spec(now as int, since as int),
{
    let d: i128 = now as i128 - since as i128;
    let q: i128 = if d >= 0 {
        d / 60
    } else {
        -((-d) / 60)
    };
    q as i64
}

/// What resetting the idle time reports: "[You were idle for ...]" when
/// at least `min` minutes (and `min` is positive).
pub open spec fn reset_idle_spec(idle: int, min: int, format: u8) -> Seq<char> {
    if min > 0 && idle >= min {
        "[You were idle for"@ + time_long_spec(idle, format) + ".]\n"@
    } else {
        ""@
    }
}

/// Resetting the idle time at `now`: returns the idle minutes before and
/// the report.
pub fn reset_idle(now: i64, idle_since: i64, min: i64, format: u8) -> (r: (i64, String))
    ensures
        r.0 == idle_minutes_spec(now as int, idle_since as int),
        r.1@ == reset_idle_spec(r.0 as int, min as int, format),
{
    let idle = idle_minutes(now, idle_since);
    if min > 0 && idle >= min {
        let mut s = String::from_str("[You were idle for");
        let t = time_long(idle, format);
        s.append(t.as_str());
        s.append(".]\n");
        (idle, s)
    } else {
        (idle, String::from_str(""))
    }
}

/// The digits of `c` from `p` on end here.
pub open spec fn digits_end(c: Seq<char>, p: int) -> int
    decreases c.len() - p,
{
    if 0 <= p < c.len() && '0' <= c[p] <= '9' {
        digits_end(c, p + 1)
    } else {
        p
    }
}

/// The value of the digits `c[p..e]`.
pub open spec fn digits_value(c: Seq<char>, p: int, e: int) -> int
    decreases e - p,
{
    if p >= e {
        0
    } else {
        digits_value(c, p, e - 1) * 10 + (c[e - 1] as int - 48)
    }
}

/// The spaces of `c` from `p` on end here.
pub open spec fn spaces_end(c: Seq<char>, p: int) -> int
    decreases c.len() - p,
{
    if 0 <= p < c.len() && c[p] == ' ' {
        spaces_end(c, p + 1)
    } else {
        p
    }
}

/// A time given as `<d>d<hh>:<mm>` (each part optional, spaces allowed
/// between the parts): days, hours and minutes, or `None` for anything
/// else.
pub open spec fn time_spec_spec(c: Seq<char>) -> Option<(int, int, int)> {
    let e1 = digits_end(c, 0);
    let n1 = digits_value(c, 0, e1);
    let p1 = spaces_end(c, e1);
    let has_days = p1 < c.len() && (c[p1] == 'd' || c[p1] == 'D');
    let (days, num, p2) = if has_days {
        let q = spaces_end(c, p1 + 1);
        let e2 = digits_end(c, q);
        (n1, digits_value(c, q, e2), spaces_end(c, e2))
    } else {
        (0, n1, p1)
    };
    let has_hours = p2 < c.len() && c[p2] == ':';
    let (hours, minutes, p3) = if has_hours {
        let q = spaces_end(c, p2 + 1);
        let e3 = digits_end(c, q);
        (num, digits_value(c, q, e3), e3)
    } else {
        (0, num, p2)
    };
    if spaces_end(c, p3) < c.len() {
        None
    } else {
        Some((days, hours, minutes))
    }
}

/// Why a time specification was not taken.
#[derive(Debug, Clone, Copy, PartialEq, Eq, Structural)]
pub enum TimeSpecError {
    /// Not of the form `<d>d<hh>:<mm>`.
    Syntax,
    /// A number too large to count with.
    TooLarge,
}

/// Reads digits from `p`: where they end and their value, `None` when the
/// value does not fit in 64 bits.
fn read_digits(c: &Vec<char>, p: usize) -> (r: (usize, Option<u64>))
    requires
        p <= c.len(),
    ensures
        r.0 as int == digits_end(c@, p as int),
        p <= r.0 <= c.len(),
        match r.1 {
            Some(v) => v as int == digits_value(c@, p as int, r.0 as int),
            None => digits_value(c@, p as int, r.0 as int) > u64::MAX,
        },
{
    let mut e = p;
    let mut v: Option<u64> = Some(0);
    while e < c.len() && '0' <= c[e] && c[e] <= '9'
        invariant
            p <= e <= c.len(),
            digits_end(c@, p as int) == digits_end(c@, e as int),
            forall|k: int| p <= k < e ==> '0' <= #[trigger] c@[k] <= '9',
            match v {
                Some(x) => x as int == digits_value(c@, p as int, e as int),
                None => digits_value(c@, p as int, e as int) > u64::MAX,
            },
        decreases c.len() - e,
    {
        let d = (c[e] as u32 - 48) as u64;
        v = match v {
            Some(x) => {
                if x > (u64::MAX - d) / 10 {
                    None
                } else {
                    Some(x * 10 + d)
                }
            },
            None => None,
        };
        proof {
            assert(digits_value(c@, p as int, e + 1) == digits_value(c@, p as int, e as int) * 10 + (
            c@[e as int] as int - 48));
            assert(digits_value(c@, p as int, e as int) >= 0) by {
                lemma_digits_value_nonneg(c@, p as int, e as int);
            }
        }
        e += 1;
    }
    (e, v)
}

proof fn lemma_digits_value_nonneg(c: Seq<char>, p: int, e: int)
    requires
        0 <= p,
        e <= c.len(),
        forall|k: int| p <= k < e ==> '0' <= #[trigger] c[k] <= '9',
    ensures
        digits_value(c, p, e) >= 0,
    decreases e - p,
{
    if p < e {
        lemma_digits_value_nonneg(c, p, e - 1);
    }
}

/// Skips spaces from `p`.
fn skip_spaces(c: &Vec<char>, p: usize) -> (r: usize)
    requires
        p <= c.len(),
    ensures
        r as int == spaces_end(c@, p as int),
        p <= r <= c.len(),
{
    let mut e = p;
    while e < c.len() && c[e] == ' '
        invariant
            p <= e <= c.len(),
            spaces_end(c@, p as int) == spaces_end(c@, e as int),
        decreases c.len() - e,
    {
        e += 1;
    }
    e
}

/// Reads a time given as `<d>d<hh>:<mm>` (after trimming): days, hours
/// and minutes.
pub fn parse_time_spec(args: &str) -> (r: Result<(u64, u64, u64), TimeSpecError>)
    ensures
        match r {
            Ok((d, h, m)) => time_spec_spec(trim_spec(args@)) == Some((d as int, h as int, m as int)),
            Err(TimeSpecError::Syntax) => time_spec_spec(trim_spec(args@)) is None,
            Err(TimeSpecError::TooLarge) => time_spec_spec(trim_spec(args@)) matches Some((d, h, m))
                && (d > u64::MAX || h > u64::MAX || m > u64::MAX),
        },
{
    let c = crate::chars::str_chars(trim(args));
    let ghost cs = c@;
    let (e1, n1) = read_digits(&c, 0);
    let p1 = skip_spaces(&c, e1);
    let has_days = p1 < c.len() && (c[p1] == 'd' || c[p1] == 'D');
    let mut days: Option<u64> = Some(0);
    let mut num = n1;
    let mut p2 = p1;
    if has_days {
        days = n1;
        let q = skip_spaces(&c, p1 + 1);
        let (e2, n2) = read_digits(&c, q);
        num = n2;
        p2 = skip_spaces(&c, e2);
    }
    let has_hours = p2 < c.len() && c[p2] == ':';
    let mut hours: Option<u64> = Some(0);
    let mut minutes = num;
    let mut p3 = p2;
    if has_hours {
        hours = num;
        let q = skip_spaces(&c, p2 + 1);
        let (e3, n3) = read_digits(&c, q);
        minutes = n3;
        p3 = e3;
    }
    if skip_spaces(&c, p3) < c.len() {
        return Err(TimeSpecError::Syntax);
    }
    match (days, hours, minutes) {
        (Some(d), Some(h), Some(m)) => Ok((d, h, m)),
        _ => Err(TimeSpecError::TooLarge),
    }
}

/// What `/set idle` leads to.
#[derive(Debug, PartialEq, Eq)]
pub enum SetIdle {
    /// The new idle-since and login times, and the report.
    Changed { idle_since: i64, login_time: i64, message: String },
    /// Not allowed: idle longer than signed on, without privilege.
    Refused,
    /// A time before the earliest time that can be counted.
    OutOfRange,
}

/// The report of `/set idle`.
pub open spec fn set_idle_report(current: int, new_idle: int, format: u8) -> Seq<char> {
    (if current > 0 && current != new_idle {
        "[You were idle for"@ + time_long_spec(current, format) + ".]\n"@
    } else {
        ""@
    }) + (if current == new_idle {
        "Your idle time is still"@ + time_long_spec(current, format) + ".\n"@
    } else if new_idle > 0 {
        "Your idle time has been set to"@ + time_long_spec(new_idle, format) + ".\n"@
    } else {
        "Your idle time has been reset.\n"@
    })
}

/// Setting the idle time at `now` to `total` minutes.
pub open spec fn set_idle_spec(
    now: int,
    idle_since: int,
    login_time: int,
    priv_level: int,
    total: int,
) -> Option<(int, int)> {
    let since = now - total * 60;
    if since < login_time && priv_level < 50 {
        None
    } else {
        let login = if since < login_time {
            since
        } else {
            login_time
        };
        let new_idle = idle_minutes_spec(now, since);
        Some((if new_idle > 0 { since } else { now }, login))
    }
}

/// `/set idle`: makes the session `days`, `hours` and `minutes` idle at
/// `now`, unless that is longer than it has been signed on (privileged
/// users may).
pub fn set_idle(
    now: i64,
    idle_since: i64,
    login_time: i64,
    priv_level: i32,
    days: u64,
    hours: u64,
    minutes: u64,
    format: u8,
) -> (r: SetIdle)
    ensures
        ({
            let total = days * 1440 + hours * 60 + minutes;
            let since = now - total * 60;
            match r {
                SetIdle::Refused => set_idle_spec(now as int, idle_since as int, login_time as int, priv_level as int, total) is None,
                SetIdle::OutOfRange => set_idle_spec(now as int, idle_since as int, login_time as int, priv_level as int, total) is Some
                    && since < i64::MIN,
                SetIdle::Changed { idle_since: s, login_time: l, message } =>
                    set_idle_spec(now as int, idle_since as int, login_time as int, priv_level as int, total) == Some((s as int, l as int))
                    && message@ == set_idle_report(
                        idle_minutes_spec(now as int, idle_since as int),
                        idle_minutes_spec(now as int, since),
                        format,
                    ),
            }
        }),
{
    let total: i128 = days as i128 * 1440 + hours as i128 * 60 + minutes as i128;
    let since: i128 = now as i128 - total * 60;
    if since < login_time as i128 && priv_level < 50 {
        return SetIdle::Refused;
    }
    if since < i64::MIN as i128 {
        return SetIdle::OutOfRange;
    }
    let since = since as i64;
    let login = if since < login_time {
        since
    } else {
        login_time
    };
    let current = idle_minutes(now, idle_since);
    let new_idle = idle_minutes(now, since);
    let mut s = String::from_str("");
    if current > 0 && current != new_idle {
        s.append("[You were idle for");
        let t = time_long(current, format);
        s.append(t.as_str());
        s.append(".]\n");
    }
    if current == new_idle {
        s.append("Your idle time is still");
        let t = time_long(current, format);
        s.append(t.as_str());
        s.append(".\n");
    } else if new_idle > 0 {
        s.append("Your idle time has been set to");
        let t = time_long(new_idle, format);
        s.append(t.as_str());
        s.append(".\n");
    } else {
        s.append("Your idle time has been reset.\n");
    }
    proof {
        reveal_strlit("");
    }
    SetIdle::Changed { idle_since: if new_idle > 0 { since } else { now }, login_time: login, message: s }
}

} // verus!

verus! {

// ---------------------------------------------------------------------------
// Choosing whom /who lists
// ---------------------------------------------------------------------------

/// The idle time after which unidle becomes idle, in minutes.
pub const REPORT_IDLE_DEFAULT: i64 = 10;

/// What the listing commands need to know of a signed-on session.
pub struct SessionInfo {
    pub key: u64,
    pub attached: bool,
    pub away: AwayState,
    pub idle_minutes: i64,
    pub priv_level: i32,
}

/// The categories `/who` can ask for, and the other words (names to match).
pub struct WhoFilter {
    pub everyone: bool,
    pub here: bool,
    pub away: bool,
    pub busy: bool,
    pub gone: bool,
    pub attached: bool,
    pub detached: bool,
    pub active: bool,
    pub inactive: bool,
    pub idle: bool,
    pub unidle: bool,
    pub privileged: bool,
    pub guests: bool,
    pub names: Vec<String>,
}

/// The pieces of `s` between commas (`str::split(',')`).
pub open spec fn comma_pieces(s: Seq<char>) -> Seq<Seq<char>>
    decreases s.len(),
{
    if s.len() == 0 {
        seq![Seq::empty()]
    } else {
        let rest = comma_pieces(s.drop_last());
        if s.last() == ',' {
            rest.push(Seq::empty())
        } else {
            rest.update(rest.len() - 1, rest.last().push(s.last()))
        }
    }
}

proof fn lemma_comma_pieces_nonempty(s: Seq<char>)
    ensures
        comma_pieces(s).len() >= 1,
    decreases s.len(),
{
    if s.len() > 0 {
        lemma_comma_pieces_nonempty(s.drop_last());
    }
}

/// A word equal to a keyword up to ASCII case.
pub open spec fn is_word(w: Seq<char>, k: Seq<char>) -> bool {
    crate::chars::seq_eq_ic(w, k)
}

/// The filter state after one word of the `/who` arguments.
pub ghost struct FilterSpec {
    pub everyone: bool,
    pub here: bool,
    pub away: bool,
    pub busy: bool,
    pub gone: bool,
    pub attached: bool,
    pub detached: bool,
    pub active: bool,
    pub inactive: bool,
    pub idle: bool,
    pub unidle: bool,
    pub privileged: bool,
    pub guests: bool,
    pub names: Seq<Seq<char>>,
}

impl WhoFilter {
    /// The filter as a plain value.
    pub open spec fn spec(&self) -> FilterSpec {
        FilterSpec {
            everyone: self.everyone,
            here: self.here,
            away: self.away,
            busy: self.busy,
            gone: self.gone,
            attached: self.attached,
            detached: self.detached,
            active: self.active,
            inactive: self.inactive,
            idle: self.idle,
            unidle: self.unidle,
            privileged: self.privileged,
            guests: self.guests,
            names: crate::telnet::texts(self.names@),
        }
    }
}

/// Which keyword of the `/who` arguments a (trimmed) word is: 0 for an
/// empty word, 1 to 14 for here, away, busy, gone, attached, detached,
/// active, inactive, idle, unidle, privileged, guests, everyone and all,
/// 15 for anything else (a name to match).
#[verifier::opaque]
pub open spec fn word_class(w: Seq<char>) -> u8 {
    if w.len() == 0 {
        0
    } else if is_word(w, "here"@) {
        1
    } else if is_word(w, "away"@) {
        2
    } else if is_word(w, "busy"@) {
        3
    } else if is_word(w, "gone"@) {
        4
    } else if is_word(w, "attached"@) {
        5
    } else if is_word(w, "detached"@) {
        6
    } else if is_word(w, "active"@) {
        7
    } else if is_word(w, "inactive"@) {
        8
    } else if is_word(w, "idle"@) {
        9
    } else if is_word(w, "unidle"@) {
        10
    } else if is_word(w, "privileged"@) {
        11
    } else if is_word(w, "guests"@) {
        12
    } else if is_word(w, "everyone"@) {
        13
    } else if is_word(w, "all"@) {
        14
    } else {
        15
    }
}

/// Taking the category keyword of class `k` into the filter.
pub open spec fn flag_word(f: FilterSpec, k: u8) -> FilterSpec {
    if k == 1 {
        FilterSpec { here: true, ..f }
    } else if k == 2 {
        FilterSpec { away: true, ..f }
    } else if k == 3 {
        FilterSpec { busy: true, ..f }
    } else if k == 4 {
        FilterSpec { gone: true, ..f }
    } else if k == 5 {
        FilterSpec { attached: true, ..f }
    } else if k == 6 {
        FilterSpec { detached: true, ..f }
    } else if k == 7 {
        FilterSpec { active: true, ..f }
    } else if k == 8 {
        FilterSpec { inactive: true, ..f }
    } else if k == 9 {
        FilterSpec { idle: true, ..f }
    } else if k == 10 {
        FilterSpec { unidle: true, ..f }
    } else if k == 11 {
        FilterSpec { privileged: true, ..f }
    } else if k == 12 {
        FilterSpec { guests: true, ..f }
    } else if k == 13 {
        FilterSpec { everyone: true, ..f }
    } else if k == 14 {
        FilterSpec { active: true, attached: true, ..f }
    } else {
        f
    }
}

/// Taking one (trimmed) word of the `/who` arguments into the filter.
pub open spec fn filter_word(f: FilterSpec, w: Seq<char>) -> FilterSpec {
    let k = word_class(w);
    if k == 15 {
        FilterSpec { names: f.names.push(w), ..f }
    } else {
        flag_word(f, k)
    }
}

/// Taking the (trimmed) words in turn.
pub open spec fn filter_words(f: FilterSpec, ws: Seq<Seq<char>>) -> FilterSpec
    decreases ws.len(),
{
    if ws.len() == 0 {
        f
    } else {
        filter_word(filter_words(f, ws.drop_last()), trim_spec(ws.last()))
    }
}

/// The filter `/who` arguments give: "everyone" when there are none.
pub open spec fn who_filter_spec(args: Seq<char>) -> FilterSpec {
    let f0 = FilterSpec {
        everyone: args.len() == 0,
        here: false,
        away: false,
        busy: false,
        gone: false,
        attached: false,
        detached: false,
        active: false,
        inactive: false,
        idle: false,
        unidle: false,
        privileged: false,
        guests: false,
        names: Seq::empty(),
    };
    if args.len() == 0 {
        f0
    } else {
        filter_words(f0, comma_pieces(args))
    }
}

impl FilterSpec {
    /// Some category was asked for.
    pub open spec fn has_filters(self) -> bool {
        self.here || self.away || self.busy || self.gone || self.attached || self.detached || self.active
            || self.inactive || self.idle || self.unidle || self.privileged || self.guests || self.everyone
    }
}

/// Whether a session counts as active: "here" and attached under an hour
/// idle, or under ten minutes either way; "away", attached and under ten
/// minutes idle.
pub open spec fn is_active_spec(away: AwayState, attached: bool, idle: int) -> bool {
    match away {
        AwayState::Here => (attached && idle < 60) || idle < 10,
        AwayState::Away => attached && idle < 10,
        _ => false,
    }
}

/// Whether the filter's categories take in a session.
pub open spec fn who_includes_spec(f: FilterSpec, s: SessionInfo) -> bool {
    (s.away == AwayState::Here && f.here) || (s.away == AwayState::Away && f.away) || (s.away
        == AwayState::Busy && f.busy) || (s.away == AwayState::Gone && f.gone) || (f.attached
        && s.attached) || (f.detached && !s.attached) || (f.active && is_active_spec(
        s.away,
        s.attached,
        s.idle_minutes as int,
    )) || (f.inactive && !is_active_spec(s.away, s.attached, s.idle_minutes as int)) || (f.idle
        && s.idle_minutes >= 10) || (f.unidle && s.idle_minutes < 10) || (f.privileged
        && s.priv_level >= 50) || (f.guests && s.priv_level == 0) || f.everyone
}

/// Compares a word with a keyword, ignoring ASCII case.
fn word_is(w: &Vec<char>, k: &str) -> (r: bool)
    ensures
        r == is_word(w@, k@),
{
    let kc = crate::chars::str_chars(k);
    crate::chars::chars_eq_ignore_ascii_case(w, &kc)
}

/// Reads the `/who` arguments: categories and names to match.
pub fn who_filter(args: &str) -> (r: WhoFilter)
    ensures
        r.spec() == who_filter_spec(args@),
{
    let mut f = WhoFilter {
        everyone: args.is_empty(),
        here: false,
        away: false,
        busy: false,
        gone: false,
        attached: false,
        detached: false,
        active: false,
        inactive: false,
        idle: false,
        unidle: false,
        privileged: false,
        guests: false,
        names: Vec::new(),
    };
    proof {
        crate::telnet::lemma_texts(f.names@);
        assert(f.spec().names =~= Seq::<Seq<char>>::empty());
    }
    if args.is_empty() {
        return f;
    }
    let cs = crate::chars::str_chars(args);
    let ghost f0 = f.spec();
    let mut piece: Vec<char> = Vec::new();
    let mut i: usize = 0;
    proof {
        assert(comma_pieces(cs@.take(0)) == seq![Seq::<char>::empty()]);
        assert(cs@.take(0) =~= Seq::<char>::empty());
        lemma_comma_pieces_nonempty(cs@.take(0));
        assert(comma_pieces(cs@.take(0)).drop_last() =~= Seq::<Seq<char>>::empty());
    }
    while i < cs.len()
        invariant
            i <= cs.len(),
            cs@ == args@,
            comma_pieces(cs@.take(i as int)).len() >= 1,
            piece@ == comma_pieces(cs@.take(i as int)).last(),
            f.spec() == filter_words(f0, comma_pieces(cs@.take(i as int)).drop_last()),
        decreases cs.len() - i,
    {
        let c = cs[i];
        proof {
            assert(cs@.take(i + 1).drop_last() =~= cs@.take(i as int));
            lemma_comma_pieces_nonempty(cs@.take(i as int));
        }
        if c == ',' {
            f = take_word(f, piece);
            proof {
                let ps = comma_pieces(cs@.take(i as int));
                let ps2 = comma_pieces(cs@.take(i + 1));
                assert(ps2 == ps.push(Seq::empty()));
                assert(ps2.drop_last() =~= ps);
                assert(ps.drop_last().push(ps.last()) =~= ps);
            }
            piece = Vec::new();
        } else {
            piece.push(c);
            proof {
                let ps = comma_pieces(cs@.take(i as int));
                let ps2 = comma_pieces(cs@.take(i + 1));
                assert(ps2 == ps.update(ps.len() - 1, ps.last().push(c)));
                assert(ps2.drop_last() =~= ps.drop_last());
            }
        }
        i += 1;
    }
    f = take_word(f, piece);
    proof {
        assert(cs@.take(cs.len() as int) =~= cs@);
        let ps = comma_pieces(cs@);
        assert(ps.drop_last().push(ps.last()) =~= ps);
    }
    f
}

/// Which keyword of the `/who` arguments a word is.
fn classify_word(w: &Vec<char>) -> (r: u8)
    ensures
        r == word_class(w@),
{
    proof {
        reveal(word_class);
        reveal_strlit("here");
        reveal_strlit("away");
        reveal_strlit("busy");
        reveal_strlit("gone");
        reveal_strlit("attached");
        reveal_strlit("detached");
        reveal_strlit("active");
        reveal_strlit("inactive");
        reveal_strlit("idle");
        reveal_strlit("unidle");
        reveal_strlit("privileged");
        reveal_strlit("guests");
        reveal_strlit("everyone");
        reveal_strlit("all");
    }
    if w.len() == 0 {
        0
    } else if word_is(w, "here") {
        1
    } else if word_is(w, "away") {
        2
    } else if word_is(w, "busy") {
        3
    } else if word_is(w, "gone") {
        4
    } else if word_is(w, "attached") {
        5
    } else if word_is(w, "detached") {
        6
    } else if word_is(w, "active") {
        7
    } else if word_is(w, "inactive") {
        8
    } else if word_is(w, "idle") {
        9
    } else if word_is(w, "unidle") {
        10
    } else if word_is(w, "privileged") {
        11
    } else if word_is(w, "guests") {
        12
    } else if word_is(w, "everyone") {
        13
    } else if word_is(w, "all") {
        14
    } else {
        15
    }
}

/// Takes a category keyword into the filter.
#[verifier::rlimit(100)]
fn with_flag(f: WhoFilter, k: u8) -> (r: WhoFilter)
    ensures
        r.spec() == flag_word(f.spec(), k),
{
    if k == 1 {
        WhoFilter { here: true, ..f }
    } else if k == 2 {
        WhoFilter { away: true, ..f }
    } else if k == 3 {
        WhoFilter { busy: true, ..f }
    } else if k == 4 {
        WhoFilter { gone: true, ..f }
    } else if k == 5 {
        WhoFilter { attached: true, ..f }
    } else if k == 6 {
        WhoFilter { detached: true, ..f }
    } else if k == 7 {
        WhoFilter { active: true, ..f }
    } else if k == 8 {
        WhoFilter { inactive: true, ..f }
    } else if k == 9 {
        WhoFilter { idle: true, ..f }
    } else if k == 10 {
        WhoFilter { unidle: true, ..f }
    } else if k == 11 {
        WhoFilter { privileged: true, ..f }
    } else if k == 12 {
        WhoFilter { guests: true, ..f }
    } else if k == 13 {
        WhoFilter { everyone: true, ..f }
    } else if k == 14 {
        WhoFilter { active: true, attached: true, ..f }
    } else {
        f
    }
}

/// Takes one (untrimmed) word into the filter.
fn take_word(f: WhoFilter, piece: Vec<char>) -> (r: WhoFilter)
    ensures
        r.spec() == filter_word(f.spec(), trim_spec(piece@)),
{
    let s = crate::chars::string_from_chars(piece);
    let t = trim(s.as_str());
    let w = crate::chars::str_chars(t);
    let k = classify_word(&w);
    if k == 15 {
        let mut f = f;
        let ghost before = f.names@;
        let n = String::from_str(t);
        f.names.push(n);
        proof {
            crate::telnet::lemma_texts_push(before, n);
        }
        f
    } else {
        with_flag(f, k)
    }
}

/// Whether the filter's categories take in a session.
pub fn who_includes(f: &WhoFilter, s: &SessionInfo) -> (r: bool)
    ensures
        r == who_includes_spec(f.spec(), *s),
{
    let active = match s.away {
        AwayState::Here => (s.attached && s.idle_minutes < 60) || s.idle_minutes < 10,
        AwayState::Away => s.attached && s.idle_minutes < 10,
        _ => false,
    };
    (s.away == AwayState::Here && f.here) || (s.away == AwayState::Away && f.away) || (s.away
        == AwayState::Busy && f.busy) || (s.away == AwayState::Gone && f.gone) || (f.attached
        && s.attached) || (f.detached && !s.attached) || (f.active && active) || (f.inactive
        && !active) || (f.idle && s.idle_minutes >= 10) || (f.unidle && s.idle_minutes < 10) || (
    f.privileged && s.priv_level >= 50) || (f.guests && s.priv_level == 0) || f.everyone
}

} // verus!

verus! {

/// The labels whose flags are set, in order.
pub open spec fn pick_labels(flags: Seq<bool>, labels: Seq<Seq<char>>) -> Seq<Seq<char>>
    decreases flags.len(),
{
    if flags.len() == 0 {
        Seq::empty()
    } else {
        let rest = pick_labels(flags.drop_last(), labels.drop_last());
        if flags.last() {
            rest.push(labels.last())
        } else {
            rest
        }
    }
}

/// The flags of the categories, in the order "Nobody is ..." lists them.
pub open spec fn filter_flags(f: FilterSpec) -> Seq<bool> {
    seq![
        f.here,
        f.away,
        f.busy,
        f.gone,
        f.attached,
        f.detached,
        f.active,
        f.inactive,
        f.idle,
        f.unidle,
        f.privileged,
        f.guests
    ]
}

/// The labels of the categories, in the same order.
pub open spec fn filter_label_texts() -> Seq<Seq<char>> {
    seq![
        "\"here\""@,
        "\"away\""@,
        "\"busy\""@,
        "\"gone\""@,
        "attached"@,
        "detached"@,
        "active"@,
        "inactive"@,
        "idle"@,
        "unidle"@,
        "privileged"@,
        "a guest"@
    ]
}

/// The categories asked for, as "Nobody is ..." lists them.
pub open spec fn filter_labels(f: FilterSpec) -> Seq<Seq<char>> {
    pick_labels(filter_flags(f), filter_label_texts())
}

/// Items joined as "a", "a or b", "a, b or c".
pub open spec fn or_list(items: Seq<Seq<char>>) -> Seq<char>
    decreases items.len(),
{
    if items.len() == 0 {
        ""@
    } else if items.len() == 1 {
        items[0]
    } else if items.len() == 2 {
        items[0] + " or "@ + items[1]
    } else {
        items[0] + ", "@ + or_list(items.drop_first())
    }
}

/// What `/who` says when no one matched its categories.
pub open spec fn nobody_spec(f: FilterSpec) -> Seq<char> {
    let labels = filter_labels(f);
    if f.has_filters() && labels.len() > 0 {
        "Nobody is "@ + or_list(labels) + ".\n"@
    } else {
        ""@
    }
}

/// The count of the others signed on, after a listing by category.
pub open spec fn others_spec(total: int, shown: int) -> Seq<char> {
    let others = total - shown;
    if others == 1 {
        "(There is 1 other person signed on.)\n"@
    } else if others > 0 {
        "(There are "@ + int_str(others) + " other people signed on.)\n"@
    } else {
        ""@
    }
}

/// Appends items joined as `or_list` does.
fn push_or_list(v: &mut Vec<char>, items: &Vec<&str>, i: usize)
    requires
        i <= items.len(),
    ensures
        final(v)@ == old(v)@ + or_list(items@.skip(i as int).map_values(|s: &str| s@)),
    decreases items.len() - i,
{
    proof {
        reveal_strlit("");
    }
    let ghost rest = items@.skip(i as int).map_values(|s: &str| s@);
    let n = items.len() - i;
    if n == 0 {
        assert(rest =~= Seq::<Seq<char>>::empty());
    } else if n == 1 {
        crate::chars::push_str(v, items[i]);
        assert(rest =~= seq![items@[i as int]@]);
        assert(or_list(rest) == rest[0]);
    } else if n == 2 {
        crate::chars::push_str(v, items[i]);
        crate::chars::push_str(v, " or ");
        crate::chars::push_str(v, items[i + 1]);
        assert(rest =~= seq![items@[i as int]@, items@[i + 1]@]);
        assert(v@ =~= old(v)@ + (rest[0] + " or "@ + rest[1]));
    } else {
        crate::chars::push_str(v, items[i]);
        crate::chars::push_str(v, ", ");
        proof {
            assert(rest.drop_first() =~= items@.skip(i + 1).map_values(|s: &str| s@));
        }
        push_or_list(v, items, i + 1);
        proof {
            assert(v@ =~= old(v)@ + (rest[0] + ", "@ + or_list(rest.drop_first())));
        }
    }
}

/// The texts whose flags are set, in order.
fn pick<'a>(flags: &Vec<bool>, texts: &Vec<&'a str>) -> (r: Vec<&'a str>)
    requires
        flags.len() == texts.len(),
    ensures
        r@.map_values(|s: &str| s@) == pick_labels(flags@, texts@.map_values(|s: &str| s@)),
{
    let mut labels: Vec<&str> = Vec::new();
    let mut i: usize = 0;
    while i < flags.len()
        invariant
            i <= flags.len() == texts.len(),
            labels@.map_values(|s: &str| s@) == pick_labels(
                flags@.take(i as int),
                texts@.map_values(|s: &str| s@).take(i as int),
            ),
        decreases flags.len() - i,
    {
        let ghost before = labels@;
        if flags[i] {
            labels.push(texts[i]);
        }
        proof {
            let tm = texts@.map_values(|s: &str| s@);
            assert(flags@.take(i + 1).drop_last() =~= flags@.take(i as int));
            assert(tm.take(i + 1).drop_last() =~= tm.take(i as int));
            assert(labels@.map_values(|s: &str| s@) =~= (if flags@[i as int] {
                before.map_values(|s: &str| s@).push(tm[i as int])
            } else {
                before.map_values(|s: &str| s@)
            }));
        }
        i += 1;
    }
    proof {
        assert(flags@.take(flags.len() as int) =~= flags@);
        assert(texts@.map_values(|s: &str| s@).take(flags.len() as int) =~= texts@.map_values(|s: &str| s@));
    }
    labels
}

/// What `/who` says when no one matched its categories.
#[verifier::rlimit(60)]
pub fn nobody_message(f: &WhoFilter) -> (r: String)
    ensures
        r@ == nobody_spec(f.spec()),
{
    let flags: Vec<bool> = vec![
        f.here,
        f.away,
        f.busy,
        f.gone,
        f.attached,
        f.detached,
        f.active,
        f.inactive,
        f.idle,
        f.unidle,
        f.privileged,
        f.guests,
    ];
    let texts: Vec<&str> = vec![
        "\"here\"",
        "\"away\"",
        "\"busy\"",
        "\"gone\"",
        "attached",
        "detached",
        "active",
        "inactive",
        "idle",
        "unidle",
        "privileged",
        "a guest",
    ];
    proof {
        assert(flags@ =~= filter_flags(f.spec()));
        assert(texts@.map_values(|s: &str| s@) =~= filter_label_texts());
    }
    let labels = pick(&flags, &texts);
    let has = f.here || f.away || f.busy || f.gone || f.attached || f.detached || f.active || f.inactive
        || f.idle || f.unidle || f.privileged || f.guests || f.everyone;
    if has && labels.len() > 0 {
        let mut v: Vec<char> = Vec::new();
        crate::chars::push_str(&mut v, "Nobody is ");
        push_or_list(&mut v, &labels, 0);
        crate::chars::push_str(&mut v, ".\n");
        proof {
            assert(labels@.skip(0) =~= labels@);
            assert(v@ =~= nobody_spec(f.spec()));
        }
        crate::chars::string_from_chars(v)
    } else {
        String::from_str("")
    }
}

/// The count of the others signed on, after a listing by category.
pub fn others_message(total: usize, shown: usize) -> (r: String)
    ensures
        r@ == others_spec(total as int, shown as int),
{
    if total > shown && total - shown == 1 {
        String::from_str("(There is 1 other person signed on.)\n")
    } else if total > shown {
        let mut v: Vec<char> = Vec::new();
        crate::chars::push_str(&mut v, "(There are ");
        push_digits(&mut v, (total - shown) as u64);
        crate::chars::push_str(&mut v, " other people signed on.)\n");
        proof {
            assert(v@ =~= others_spec(total as int, shown as int));
        }
        crate::chars::string_from_chars(v)
    } else {
        proof {
            reveal_strlit("");
        }
        String::from_str("")
    }
}

} // verus!
