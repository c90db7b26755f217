//! The variables of `/set` and `/display`: which one a word names, what
//! `/set` is asked to do, which variables `/display` is asked for, and the
//! lines that show them.

use vstd::prelude::*;
use vstd::string::StringExecFns;
use crate::chars::{push_str, str_chars, string_from_chars};
use crate::user::{all_digits, decimal};
use crate::words::{getword, getword_spec, match_keyword, match_keyword_spec, lemma_getword_progress};

verus! {

/// The system variables.
#[derive(Debug, Clone, Copy, PartialEq, Eq, Structural)]
pub enum SysVar {
    Echo,
    Height,
    Idle,
    TimeFormat,
    Uptime,
    Version,
    Width,
    Unknown,
}

/// The system variable a word names (abbreviations down to a minimum
/// length are accepted); `version` is only known where it can be shown.
pub open spec fn sys_var_spec(w: Seq<char>, with_version: bool) -> SysVar {
    if match_keyword_spec(w, "echo"@, 4).is_some() {
        SysVar::Echo
    } else if match_keyword_spec(w, "height"@, 6).is_some() {
        SysVar::Height
    } else if match_keyword_spec(w, "idle"@, 4).is_some() {
        SysVar::Idle
    } else if match_keyword_spec(w, "time_format"@, 11).is_some() {
        SysVar::TimeFormat
    } else if match_keyword_spec(w, "uptime"@, 6).is_some() {
        SysVar::Uptime
    } else if with_version && match_keyword_spec(w, "version"@, 7).is_some() {
        SysVar::Version
    } else if match_keyword_spec(w, "width"@, 5).is_some() {
        SysVar::Width
    } else {
        SysVar::Unknown
    }
}

/// The system variable a word names (see `sys_var_spec`).
pub fn sys_var(w: &str, with_version: bool) -> (r: SysVar)
    ensures
        r == sys_var_spec(w@, with_version),
{
    proof {
        reveal_strlit("echo");
        reveal_strlit("height");
        reveal_strlit("idle");
        reveal_strlit("time_format");
        reveal_strlit("uptime");
        reveal_strlit("version");
        reveal_strlit("width");
    }
    if match_keyword(w, "echo", 4).is_some() {
        SysVar::Echo
    } else if match_keyword(w, "height", 6).is_some() {
        SysVar::Height
    } else if match_keyword(w, "idle", 4).is_some() {
        SysVar::Idle
    } else if match_keyword(w, "time_format", 11).is_some() {
        SysVar::TimeFormat
    } else if match_keyword(w, "uptime", 6).is_some() {
        SysVar::Uptime
    } else if with_version && match_keyword(w, "version", 7).is_some() {
        SysVar::Version
    } else if match_keyword(w, "width", 5).is_some() {
        SysVar::Width
    } else {
        SysVar::Unknown
    }
}

/// What `str::parse::<usize>` makes of a string: an optional `+` and
/// digits, in range.
pub open spec fn parse_usize_spec(s: Seq<char>) -> Option<nat> {
    let ds = if s.len() > 0 && s[0] == '+' {
        s.drop_first()
    } else {
        s
    };
    if all_digits(ds) && decimal(ds) <= usize::MAX {
        Some(decimal(ds) as nat)
    } else {
        None
    }
}

proof fn lemma_decimal_nonneg(s: Seq<char>)
    requires
        forall|i: int| 0 <= i < s.len() ==> '0' <= #[trigger] s[i] <= '9',
    ensures
        decimal(s) >= 0,
    decreases s.len(),
{
    if s.len() > 0 {
        lemma_decimal_nonneg(s.drop_last());
    }
}

proof fn lemma_decimal_grows(s: Seq<char>, k: int)
    requires
        0 <= k <= s.len(),
        forall|i: int| 0 <= i < s.len() ==> '0' <= #[trigger] s[i] <= '9',
    ensures
        decimal(s.take(k)) <= decimal(s),
    decreases s.len(),
{
    if k < s.len() {
        assert(s.drop_last().take(k) =~= s.take(k));
        lemma_decimal_grows(s.drop_last(), k);
        lemma_decimal_nonneg(s.drop_last());
    } else {
        assert(s.take(k) =~= s);
    }
}

/// Reads an unsigned decimal number (`str::parse::<usize>`).
pub fn parse_usize(s: &str) -> (r: Option<usize>)
    ensures
        (match r {
            Some(n) => Some(n as nat),
            None => None,
        }) == parse_usize_spec(s@),
{
    let cs = str_chars(s);
    let start: usize = if cs.len() > 0 && cs[0] == '+' {
        1
    } else {
        0
    };
    let ghost ds = cs@.skip(start as int);
    proof {
        if start == 1 {
            assert(ds =~= cs@.drop_first());
        } else {
            assert(ds =~= cs@);
        }
    }
    if start >= cs.len() {
        return None;
    }
    let mut v: usize = 0;
    let mut i = start;
    while i < cs.len()
        invariant
            start <= i <= cs.len(),
            cs@ == s@,
            ds == cs@.skip(start as int),
            start <= 1,
            start == 1 ==> ds == s@.drop_first(),
            start == 0 ==> ds == s@,
            (start == 1) == (s@.len() > 0 && s@[0] == '+'),
            forall|k: int| 0 <= k < i - start ==> '0' <= #[trigger] ds[k] <= '9',
            v == decimal(ds.take(i - start)),
        decreases cs.len() - i,
    {
        let c = cs[i];
        assert(ds[i - start] == c);
        if c < '0' || c > '9' {
            proof {
                assert(!('0' <= ds[i - start] <= '9'));
                assert(!all_digits(ds));
            }
            return None;
        }
        let d = (c as u32 - 48) as usize;
        proof {
            assert(ds.take(i - start + 1).drop_last() =~= ds.take(i - start));
        }
        if v > (usize::MAX - d) / 10 {
            proof {
                let k = i - start + 1;
                assert(ds.take(k).last() == c);
                assert(decimal(ds.take(k)) == v * 10 + d);
                if all_digits(ds) {
                    lemma_decimal_grows(ds, k);
                }
            }
            return None;
        }
        v = v * 10 + d;
        i += 1;
    }
    proof {
        assert(ds.take(i - start) =~= ds);
    }
    Some(v)
}

/// What `str::parse::<u64>` makes of a string: an optional `+` and
/// digits, in range.
pub open spec fn parse_u64_spec(s: Seq<char>) -> Option<nat> {
    let ds = if s.len() > 0 && s[0] == '+' {
        s.drop_first()
    } else {
        s
    };
    if all_digits(ds) && decimal(ds) <= u64::MAX {
        Some(decimal(ds) as nat)
    } else {
        None
    }
}

/// Reads an unsigned 64-bit decimal number (`str::parse::<u64>`).
pub fn parse_u64(s: &str) -> (r: Option<u64>)
    ensures
        (match r {
            Some(n) => Some(n as nat),
            None => None,
        }) == parse_u64_spec(s@),
{
    let cs = str_chars(s);
    let start: usize = if cs.len() > 0 && cs[0] == '+' {
        1
    } else {
        0
    };
    let ghost ds = cs@.skip(start as int);
    proof {
        if start == 1 {
            assert(ds =~= cs@.drop_first());
        } else {
            assert(ds =~= cs@);
        }
    }
    if start >= cs.len() {
        return None;
    }
    let mut v: u64 = 0;
    let mut i = start;
    while i < cs.len()
        invariant
            start <= i <= cs.len(),
            cs@ == s@,
            ds == cs@.skip(start as int),
            start <= 1,
            start == 1 ==> ds == s@.drop_first(),
            start == 0 ==> ds == s@,
            (start == 1) == (s@.len() > 0 && s@[0] == '+'),
            forall|k: int| 0 <= k < i - start ==> '0' <= #[trigger] ds[k] <= '9',
            v == decimal(ds.take(i - start)),
        decreases cs.len() - i,
    {
        let c = cs[i];
        assert(ds[i - start] == c);
        if c < '0' || c > '9' {
            proof {
                assert(!('0' <= ds[i - start] <= '9'));
                assert(!all_digits(ds));
            }
            return None;
        }
        let d = (c as u32 - 48) as u64;
        proof {
            assert(ds.take(i - start + 1).drop_last() =~= ds.take(i - start));
        }
        if v > (u64::MAX - d) / 10 {
            proof {
                let k = i - start + 1;
                assert(ds.take(k).last() == c);
                assert(decimal(ds.take(k)) == v * 10 + d);
                if all_digits(ds) {
                    lemma_decimal_grows(ds, k);
                }
            }
            return None;
        }
        v = v * 10 + d;
        i += 1;
    }
    proof {
        assert(ds.take(i - start) =~= ds);
    }
    Some(v)
}

/// The time formats that `/set time_format` chooses between.
#[derive(Debug, Clone, Copy, PartialEq, Eq, Structural)]
pub enum TimeFormatChoice {
    Verbose,
    Both,
    Terse,
    Default,
}

/// What `/set` is asked to do.
#[derive(Debug)]
pub enum SetCommand {
    /// No `=` or nothing after it.
    Usage,
    /// A user variable (`$name=value`).
    UserVar { name: String, value: String },
    /// Turn remote echoing on or off; `None`: neither was given.
    Echo(Option<bool>),
    /// A new terminal height; `None`: not a positive number.
    Height(Option<usize>),
    /// A new idle time, as typed.
    Idle(String),
    /// A new time format; `None`: not one of them.
    TimeFormat(Option<TimeFormatChoice>),
    /// The server uptime, which cannot be set.
    Uptime,
    /// A new terminal width; `None`: not a positive number.
    Width(Option<usize>),
    /// A variable that is not known.
    Unknown(String),
}

/// The view of a `SetCommand`.
pub enum SetSpec {
    Usage,
    UserVar(Seq<char>, Seq<char>),
    Echo(Option<bool>),
    Height(Option<nat>),
    Idle(Seq<char>),
    TimeFormat(Option<TimeFormatChoice>),
    Uptime,
    Width(Option<nat>),
    Unknown(Seq<char>),
}

/// The view of a `SetCommand`.
pub open spec fn set_command_view(c: SetCommand) -> SetSpec {
    match c {
        SetCommand::Usage => SetSpec::Usage,
        SetCommand::UserVar { name, value } => SetSpec::UserVar(name@, value@),
        SetCommand::Echo(b) => SetSpec::Echo(b),
        SetCommand::Height(h) => SetSpec::Height(
            match h {
                Some(n) => Some(n as nat),
                None => None,
            },
        ),
        SetCommand::Idle(v) => SetSpec::Idle(v@),
        SetCommand::TimeFormat(t) => SetSpec::TimeFormat(t),
        SetCommand::Uptime => SetSpec::Uptime,
        SetCommand::Width(w) => SetSpec::Width(
            match w {
                Some(n) => Some(n as nat),
                None => None,
            },
        ),
        SetCommand::Unknown(v) => SetSpec::Unknown(v@),
    }
}

/// A positive size, or `None`.
pub open spec fn positive(n: Option<nat>) -> Option<nat> {
    match n {
        Some(k) => if k > 0 {
            Some(k)
        } else {
            None
        },
        None => None,
    }
}

/// The time format a value names.
pub open spec fn time_format_choice(value: Seq<char>) -> Option<TimeFormatChoice> {
    if match_keyword_spec(value, "verbose"@, 7).is_some() {
        Some(TimeFormatChoice::Verbose)
    } else if match_keyword_spec(value, "both"@, 4).is_some() {
        Some(TimeFormatChoice::Both)
    } else if match_keyword_spec(value, "terse"@, 5).is_some() {
        Some(TimeFormatChoice::Terse)
    } else if match_keyword_spec(value, "default"@, 7).is_some() {
        Some(TimeFormatChoice::Default)
    } else {
        None
    }
}

/// What `/set var=value` asks for.
pub open spec fn parse_set_spec(args: Seq<char>) -> SetSpec {
    let (var, value) = getword_spec(args, Some('='));
    if var.len() == 0 || value.len() == 0 {
        SetSpec::Usage
    } else if var[0] == '$' {
        SetSpec::UserVar(var, value)
    } else {
        match sys_var_spec(var, false) {
            SysVar::Echo => {
                let val = getword_spec(value, None).0;
                SetSpec::Echo(
                    if match_keyword_spec(val, "on"@, 2).is_some() {
                        Some(true)
                    } else if match_keyword_spec(val, "off"@, 3).is_some() {
                        Some(false)
                    } else {
                        None
                    },
                )
            },
            SysVar::Height => SetSpec::Height(positive(parse_usize_spec(value))),
            SysVar::Idle => SetSpec::Idle(value),
            SysVar::TimeFormat => SetSpec::TimeFormat(time_format_choice(value)),
            SysVar::Uptime => SetSpec::Uptime,
            SysVar::Width => SetSpec::Width(positive(parse_usize_spec(value))),
            _ => SetSpec::Unknown(var),
        }
    }
}

fn positive_exec(n: Option<usize>) -> (r: Option<usize>)
    ensures
        (match r {
            Some(k) => Some(k as nat),
            None => None,
        }) == positive(
            match n {
                Some(k) => Some(k as nat),
                None => None,
            },
        ),
{
    match n {
        Some(k) => if k > 0 {
            Some(k)
        } else {
            None
        },
        None => None,
    }
}

fn time_format_choice_exec(value: &str) -> (r: Option<TimeFormatChoice>)
    ensures
        r == time_format_choice(value@),
{
    proof {
        reveal_strlit("verbose");
        reveal_strlit("both");
        reveal_strlit("terse");
        reveal_strlit("default");
    }
    if match_keyword(value, "verbose", 7).is_some() {
        Some(TimeFormatChoice::Verbose)
    } else if match_keyword(value, "both", 4).is_some() {
        Some(TimeFormatChoice::Both)
    } else if match_keyword(value, "terse", 5).is_some() {
        Some(TimeFormatChoice::Terse)
    } else if match_keyword(value, "default", 7).is_some() {
        Some(TimeFormatChoice::Default)
    } else {
        None
    }
}

/// Reads what `/set` is asked to do (see `parse_set_spec`).
pub fn parse_set(args: &str) -> (r: SetCommand)
    ensures
        set_command_view(r) == parse_set_spec(args@),
{
    let (var, value) = getword(args, Some('='));
    let vs = str_chars(var);
    let ws = str_chars(value);
    if vs.len() == 0 || ws.len() == 0 {
        return SetCommand::Usage;
    }
    if vs[0] == '$' {
        return SetCommand::UserVar { name: String::from_str(var), value: String::from_str(value) };
    }
    match sys_var(var, false) {
        SysVar::Echo => {
            let (val, _) = getword(value, None);
            proof {
                reveal_strlit("on");
                reveal_strlit("off");
            }
            if match_keyword(val, "on", 2).is_some() {
                SetCommand::Echo(Some(true))
            } else if match_keyword(val, "off", 3).is_some() {
                SetCommand::Echo(Some(false))
            } else {
                SetCommand::Echo(None)
            }
        },
        SysVar::Height => SetCommand::Height(positive_exec(parse_usize(value))),
        SysVar::Idle => SetCommand::Idle(String::from_str(value)),
        SysVar::TimeFormat => SetCommand::TimeFormat(time_format_choice_exec(value)),
        SysVar::Uptime => SetCommand::Uptime,
        SysVar::Width => SetCommand::Width(positive_exec(parse_usize(value))),
        _ => SetCommand::Unknown(String::from_str(var)),
    }
}

/// A variable that `/display` is asked to show.
#[derive(Debug)]
pub enum DisplayVar {
    /// A user variable (a word starting with `$`).
    User(String),
    /// A system variable (never `Unknown`).
    System(SysVar),
    /// A word that names no variable.
    Unknown(String),
}

/// The view of a `DisplayVar`: the word, and the system variable it names
/// (`None` for a user variable).
pub open spec fn display_var_view(d: DisplayVar) -> (Seq<char>, Option<SysVar>) {
    match d {
        DisplayVar::User(w) => (w@, None),
        DisplayVar::System(v) => (Seq::empty(), Some(v)),
        DisplayVar::Unknown(w) => (w@, Some(SysVar::Unknown)),
    }
}

/// How `/display` takes one word of its list.
pub open spec fn display_word_spec(w: Seq<char>) -> (Seq<char>, Option<SysVar>) {
    if w.len() > 0 && w[0] == '$' {
        (w, None)
    } else {
        let v = sys_var_spec(w, true);
        if v == SysVar::Unknown {
            (w, Some(SysVar::Unknown))
        } else {
            (Seq::empty(), Some(v))
        }
    }
}

/// The words of a `/display` list, separated by commas.
pub open spec fn display_words(s: Seq<char>) -> Seq<Seq<char>>
    decreases s.len(),
{
    if s.len() == 0 {
        Seq::empty()
    } else {
        proof {
            lemma_getword_progress(s, Some(','));
        }
        seq![getword_spec(s, Some(',')).0] + display_words(getword_spec(s, Some(',')).1)
    }
}

/// The variables `/display` is asked for, in order; `None` for an empty
/// list (the usage is shown).
pub fn parse_display(args: &str) -> (r: Option<Vec<DisplayVar>>)
    ensures
        r is None <==> args@.len() == 0,
        r matches Some(v) ==> v@.map_values(|d: DisplayVar| display_var_view(d)) == display_words(
            args@,
        ).map_values(|w: Seq<char>| display_word_spec(w)),
{
    if args.unicode_len() == 0 {
        return None;
    }
    let mut out: Vec<DisplayVar> = Vec::new();
    let mut rest = args;
    while rest.unicode_len() > 0
        invariant
            out@.map_values(|d: DisplayVar| display_var_view(d)) + display_words(rest@).map_values(
                |w: Seq<char>| display_word_spec(w),
            ) == display_words(args@).map_values(|w: Seq<char>| display_word_spec(w)),
        decreases rest@.len(),
    {
        let (w, r) = getword(rest, Some(','));
        proof {
            lemma_getword_progress(rest@, Some(','));
        }
        let wc = str_chars(w);
        let d = if wc.len() > 0 && wc[0] == '$' {
            DisplayVar::User(String::from_str(w))
        } else {
            let v = sys_var(w, true);
            if v == SysVar::Unknown {
                DisplayVar::Unknown(String::from_str(w))
            } else {
                DisplayVar::System(v)
            }
        };
        let ghost before = out@;
        proof {
            assert(display_var_view(d) == display_word_spec(w@));
            assert(display_words(rest@) == seq![w@] + display_words(r@));
            assert(display_words(rest@).map_values(|w: Seq<char>| display_word_spec(w)) =~= seq![
                display_word_spec(w@),
            ] + display_words(r@).map_values(|w: Seq<char>| display_word_spec(w)));
        }
        out.push(d);
        proof {
            assert(out@.map_values(|d: DisplayVar| display_var_view(d)) =~= before.map_values(
                |d: DisplayVar| display_var_view(d),
            ).push(display_word_spec(w@)));
        }
        rest = r;
    }
    proof {
        assert(display_words(rest@) =~= Seq::<Seq<char>>::empty());
    }
    Some(out)
}

/// How a time format is named in `/display time_format`: the user's own
/// setting, or the server default (verbose unless it says otherwise).
pub open spec fn time_format_line_spec(var: Option<Seq<char>>, default: Option<Seq<char>>) -> Seq<char> {
    "Your time format is "@ + match var {
        Some(v) => if v == "verbose"@ {
            "verbose.\n"@
        } else if v == "both"@ {
            "both verbose and terse.\n"@
        } else if v == "terse"@ {
            "terse.\n"@
        } else {
            "unknown.\n"@
        },
        None => "the default: "@ + match default {
            Some(d) => if d == "both"@ {
                "both verbose and terse.\n"@
            } else if d == "terse"@ {
                "terse.\n"@
            } else {
                "verbose.\n"@
            },
            None => "verbose.\n"@,
        },
    }
}

fn eq_str(a: &str, b: &str) -> (r: bool)
    ensures
        r == (a@ == b@),
{
    let x = str_chars(a);
    let y = str_chars(b);
    crate::chars::chars_equal(&x, &y)
}

/// The line of `/display time_format` (see `time_format_line_spec`).
pub fn time_format_line(var: Option<&str>, default: Option<&str>) -> (r: String)
    ensures
        r@ == time_format_line_spec(
            match var {
                Some(v) => Some(v@),
                None => None,
            },
            match default {
                Some(d) => Some(d@),
                None => None,
            },
        ),
{
    let mut v: Vec<char> = Vec::new();
    push_str(&mut v, "Your time format is ");
    match var {
        Some(s) => {
            if eq_str(s, "verbose") {
                push_str(&mut v, "verbose.\n");
            } else if eq_str(s, "both") {
                push_str(&mut v, "both verbose and terse.\n");
            } else if eq_str(s, "terse") {
                push_str(&mut v, "terse.\n");
            } else {
                push_str(&mut v, "unknown.\n");
            }
        },
        None => {
            push_str(&mut v, "the default: ");
            match default {
                Some(d) => {
                    if eq_str(d, "both") {
                        push_str(&mut v, "both verbose and terse.\n");
                    } else if eq_str(d, "terse") {
                        push_str(&mut v, "terse.\n");
                    } else {
                        push_str(&mut v, "verbose.\n");
                    }
                },
                None => {
                    push_str(&mut v, "verbose.\n");
                },
            }
        },
    }
    string_from_chars(v)
}

} // verus!
