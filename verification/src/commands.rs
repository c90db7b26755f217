//! Commands that decide from their arguments and the session's state alone:
//! `/signal`, which turns the bells for public and private messages on and
//! off; `/create`, which checks a new discussion's name; `/send`, `/blurb`,
//! `/rename` and `/nuke`; `/restart` and `/down`; the away states; `/oops`;
//! and the reply sendlist kept for a private message's sender.

use vstd::prelude::*;
use vstd::string::StringExecFns;
use crate::chars::{push_str, seq_eq_ic, str_chars, string_from_chars, chars_eq_ignore_ascii_case};
use crate::sendable::{Candidate, find_sendable, find_sendable_spec};
use crate::session::AwayState;
use crate::variables::{parse_u64, parse_u64_spec};
use crate::words::{getword, getword_spec, match_keyword, match_keyword_spec, trim, trim_spec};

verus! {

/// "on" or "off".
pub open spec fn on_off(b: bool) -> Seq<char> {
    if b {
        "on"@
    } else {
        "off"@
    }
}

fn on_off_exec(b: bool) -> (r: &'static str)
    ensures
        r@ == on_off(b),
{
    if b {
        "on"
    } else {
        "off"
    }
}

/// `/signal` for one kind of message (`kind` is "public" or "private"):
/// the new setting and the answer.
pub open spec fn signal_kind_spec(rest: Seq<char>, current: bool, kind: Seq<char>) -> (bool, Seq<char>) {
    if match_keyword_spec(rest, "on"@, 2).is_some() {
        (true, "Signals for "@ + kind + " messages are now on.\n"@)
    } else if match_keyword_spec(rest, "off"@, 2).is_some() {
        (false, "Signals for "@ + kind + " messages are now off.\n"@)
    } else if rest.len() == 0 {
        (current, "Signals are "@ + on_off(current) + " for "@ + kind + " messages.\n"@)
    } else {
        (current, "Usage: /signal "@ + kind + " [on|off]\n"@)
    }
}

/// `/signal`: the new settings for public and private messages, and the
/// answer.
pub open spec fn signal_spec(args: Seq<char>, public: bool, private: bool) -> (bool, bool, Seq<char>) {
    if match_keyword_spec(args, "on"@, 2).is_some() {
        (true, true, "All signals are now on.\n"@)
    } else if match_keyword_spec(args, "off"@, 2).is_some() {
        (false, false, "All signals are now off.\n"@)
    } else if match_keyword_spec(args, "public"@, 2).is_some() {
        let (p, text) = signal_kind_spec(match_keyword_spec(args, "public"@, 2).unwrap(), public, "public"@);
        (p, private, text)
    } else if match_keyword_spec(args, "private"@, 2).is_some() {
        let (p, text) = signal_kind_spec(match_keyword_spec(args, "private"@, 2).unwrap(), private, "private"@);
        (public, p, text)
    } else if args.len() == 0 {
        (
            public,
            private,
            if public == private {
                "Signals are "@ + on_off(public) + " for both public and private messages.\n"@
            } else {
                "Signals are "@ + on_off(public) + " for public messages and "@ + on_off(private)
                    + " for private messages.\n"@
            },
        )
    } else {
        (public, private, "Usage: /signal [public|private] [on|off]\n"@)
    }
}

fn signal_kind(rest: &str, current: bool, kind: &str) -> (r: (bool, String))
    ensures
        (r.0, r.1@) == signal_kind_spec(rest@, current, kind@),
{
    proof {
        reveal_strlit("on");
        reveal_strlit("off");
    }
    let mut v: Vec<char> = Vec::new();
    let setting: bool;
    if match_keyword(rest, "on", 2).is_some() {
        push_str(&mut v, "Signals for ");
        push_str(&mut v, kind);
        push_str(&mut v, " messages are now on.\n");
        setting = true;
    } else if match_keyword(rest, "off", 2).is_some() {
        push_str(&mut v, "Signals for ");
        push_str(&mut v, kind);
        push_str(&mut v, " messages are now off.\n");
        setting = false;
    } else if rest.unicode_len() == 0 {
        push_str(&mut v, "Signals are ");
        push_str(&mut v, on_off_exec(current));
        push_str(&mut v, " for ");
        push_str(&mut v, kind);
        push_str(&mut v, " messages.\n");
        setting = current;
    } else {
        push_str(&mut v, "Usage: /signal ");
        push_str(&mut v, kind);
        push_str(&mut v, " [on|off]\n");
        setting = current;
    }
    (setting, string_from_chars(v))
}

/// `/signal` (see `signal_spec`): returns the new settings for public and
/// private messages and the answer.
pub fn signal_command(args: &str, public: bool, private: bool) -> (r: (bool, bool, String))
    ensures
        (r.0, r.1, r.2@) == signal_spec(args@, public, private),
{
    proof {
        reveal_strlit("on");
        reveal_strlit("off");
        reveal_strlit("public");
        reveal_strlit("private");
    }
    if match_keyword(args, "on", 2).is_some() {
        (true, true, String::from_str("All signals are now on.\n"))
    } else if match_keyword(args, "off", 2).is_some() {
        (false, false, String::from_str("All signals are now off.\n"))
    } else if let Some(rest) = match_keyword(args, "public", 2) {
        let (p, text) = signal_kind(rest, public, "public");
        (p, private, text)
    } else if let Some(rest) = match_keyword(args, "private", 2) {
        let (p, text) = signal_kind(rest, private, "private");
        (public, p, text)
    } else if args.unicode_len() == 0 {
        let mut v: Vec<char> = Vec::new();
        push_str(&mut v, "Signals are ");
        push_str(&mut v, on_off_exec(public));
        if public == private {
            push_str(&mut v, " for both public and private messages.\n");
        } else {
            push_str(&mut v, " for public messages and ");
            push_str(&mut v, on_off_exec(private));
            push_str(&mut v, " for private messages.\n");
        }
        (public, private, string_from_chars(v))
    } else {
        (public, private, String::from_str("Usage: /signal [public|private] [on|off]\n"))
    }
}

/// The options of `/create`: whether the discussion is public, and the
/// rest of the arguments.
pub open spec fn create_options(args: Seq<char>) -> (bool, Seq<char>) {
    if match_keyword_spec(args, "-public"@, 3).is_some() {
        (true, match_keyword_spec(args, "-public"@, 3).unwrap())
    } else if match_keyword_spec(args, "-private"@, 3).is_some() {
        (false, match_keyword_spec(args, "-private"@, 3).unwrap())
    } else if match_keyword_spec(args, "public"@, 6).is_some() {
        (true, match_keyword_spec(args, "public"@, 6).unwrap())
    } else if match_keyword_spec(args, "private"@, 7).is_some() {
        (false, match_keyword_spec(args, "private"@, 7).unwrap())
    } else {
        (true, args)
    }
}

/// What `/create` decided.
#[derive(Debug)]
pub enum CreateCheck {
    /// The discussion cannot be created; the user is told why.
    Refused(String),
    /// Create the discussion `name` with `title`, public or private.
    Create { name: String, title: String, public: bool },
}

/// The view of a `CreateCheck`: refused with a text, or created with a
/// name, a title and whether it is public.
pub open spec fn create_check_view(c: CreateCheck) -> (bool, Seq<char>, Seq<char>, bool) {
    match c {
        CreateCheck::Refused(m) => (false, m@, Seq::empty(), false),
        CreateCheck::Create { name, title, public } => (true, name@, title@, public),
    }
}

/// `/create [public|private] <name> <title>`: the name must not be "me",
/// a reserved name (`reserved`: the reserved name and whether it is the
/// user's own), or the exact name of a session or discussion.
pub open spec fn create_spec(
    args: Seq<char>,
    reserved: Option<(Seq<char>, bool)>,
    sessions: Seq<Candidate>,
    discussions: Seq<Candidate>,
) -> (bool, Seq<char>, Seq<char>, bool) {
    let (public, rest) = create_options(args);
    let (name, title) = getword_spec(rest, None);
    if name.len() == 0 || title.len() == 0 {
        (false, "Usage: /create [public|private] <name> <title>\n"@, Seq::empty(), false)
    } else if seq_eq_ic(name, "me"@) {
        (false, "The keyword \"me\" is reserved.  (not created)\n"@, Seq::empty(), false)
    } else if reserved is Some {
        (
            false,
            "\""@ + reserved.unwrap().0 + "\" is "@ + (if reserved.unwrap().1 {
                "your"@
            } else {
                "a"@
            }) + " reserved name. (not created)\n"@,
            Seq::empty(),
            false,
        )
    } else {
        let f = find_sendable_spec(name, sessions, discussions, false, true, true, true);
        if f.1 is Some {
            (
                false,
                "There is already someone named \""@ + sessions[f.1.unwrap()].name@ + "\". (not created)\n"@,
                Seq::empty(),
                false,
            )
        } else if f.3 is Some {
            (
                false,
                "There is already a discussion named \""@ + discussions[f.3.unwrap()].name@
                    + "\". (not created)\n"@,
                Seq::empty(),
                false,
            )
        } else {
            (true, name, title, public)
        }
    }
}

fn create_options_exec(args: &str) -> (r: (bool, &str))
    ensures
        (r.0, r.1@) == create_options(args@),
{
    proof {
        reveal_strlit("-public");
        reveal_strlit("-private");
        reveal_strlit("public");
        reveal_strlit("private");
    }
    if let Some(rest) = match_keyword(args, "-public", 3) {
        (true, rest)
    } else if let Some(rest) = match_keyword(args, "-private", 3) {
        (false, rest)
    } else if let Some(rest) = match_keyword(args, "public", 6) {
        (true, rest)
    } else if let Some(rest) = match_keyword(args, "private", 7) {
        (false, rest)
    } else {
        (true, args)
    }
}

/// Checks `/create` (see `create_spec`).
pub fn create_command(
    args: &str,
    reserved: Option<(&str, bool)>,
    sessions: &Vec<Candidate>,
    discussions: &Vec<Candidate>,
) -> (r: CreateCheck)
    ensures
        create_check_view(r) == create_spec(
            args@,
            match reserved {
                Some((s, b)) => Some((s@, b)),
                None => None,
            },
            sessions@,
            discussions@,
        ),
{
    let (public, rest) = create_options_exec(args);
    let (name, title) = getword(rest, None);
    let nc = str_chars(name);
    let tc = str_chars(title);
    if nc.len() == 0 || tc.len() == 0 {
        return CreateCheck::Refused(String::from_str("Usage: /create [public|private] <name> <title>\n"));
    }
    let me: Vec<char> = vec!['m', 'e'];
    proof {
        reveal_strlit("me");
        assert(me@ =~= "me"@);
    }
    if chars_eq_ignore_ascii_case(&nc, &me) {
        return CreateCheck::Refused(String::from_str("The keyword \"me\" is reserved.  (not created)\n"));
    }
    match reserved {
        Some((rname, mine)) => {
            let mut v: Vec<char> = Vec::new();
            push_str(&mut v, "\"");
            push_str(&mut v, rname);
            push_str(&mut v, "\" is ");
            push_str(&mut v, if mine {
                "your"
            } else {
                "a"
            });
            push_str(&mut v, " reserved name. (not created)\n");
            return CreateCheck::Refused(string_from_chars(v));
        },
        None => {},
    }
    let f = find_sendable(name, sessions, discussions, false, true, true, true);
    if f.session.is_some() {
        let i = f.session.unwrap();
        let mut v: Vec<char> = Vec::new();
        push_str(&mut v, "There is already someone named \"");
        push_str(&mut v, sessions[i].name.as_str());
        push_str(&mut v, "\". (not created)\n");
        CreateCheck::Refused(string_from_chars(v))
    } else if f.discussion.is_some() {
        let j = f.discussion.unwrap();
        let mut v: Vec<char> = Vec::new();
        push_str(&mut v, "There is already a discussion named \"");
        push_str(&mut v, discussions[j].name.as_str());
        push_str(&mut v, "\". (not created)\n");
        CreateCheck::Refused(string_from_chars(v))
    } else {
        CreateCheck::Create { name: String::from_str(name), title: String::from_str(title), public }
    }
}

/// The answer to a created discussion.
pub open spec fn created_spec(name: Seq<char>, title: Seq<char>) -> Seq<char> {
    "You have created discussion "@ + name + ", \""@ + title + "\".\n"@
}

/// The answer to a created discussion.
pub fn created_text(name: &str, title: &str) -> (r: String)
    ensures
        r@ == created_spec(name@, title@),
{
    let mut v: Vec<char> = Vec::new();
    push_str(&mut v, "You have created discussion ");
    push_str(&mut v, name);
    push_str(&mut v, ", \"");
    push_str(&mut v, title);
    push_str(&mut v, "\".\n");
    string_from_chars(v)
}

/// A typed `/send` list as a sendlist: underscores and commas become the
/// unquoted-underscore and separator marks; backslashes and double quotes
/// are dropped.
pub open spec fn send_typed_spec(args: Seq<char>) -> Seq<char>
    decreases args.len(),
{
    if args.len() == 0 {
        Seq::empty()
    } else {
        let rest = send_typed_spec(args.drop_last());
        let c = args.last();
        if c == '\\' || c == '"' {
            rest
        } else if c == '_' {
            rest.push(crate::constants::UNQUOTED_UNDERSCORE)
        } else if c == ',' {
            rest.push(crate::constants::SEPARATOR)
        } else {
            rest.push(c)
        }
    }
}

/// A typed `/send` list as a sendlist (see `send_typed_spec`).
pub fn send_typed(args: &str) -> (r: String)
    ensures
        r@ == send_typed_spec(args@),
{
    let cs = str_chars(args);
    let mut v: Vec<char> = Vec::new();
    let mut i: usize = 0;
    while i < cs.len()
        invariant
            i <= cs.len(),
            cs@ == args@,
            v@ == send_typed_spec(args@.take(i as int)),
        decreases cs.len() - i,
    {
        let c = cs[i];
        proof {
            assert(args@.take(i + 1).drop_last() =~= args@.take(i as int));
            assert(args@.take(i + 1).last() == c);
        }
        if c == '\\' || c == '"' {
        } else if c == '_' {
            v.push(crate::constants::UNQUOTED_UNDERSCORE);
        } else if c == ',' {
            v.push(crate::constants::SEPARATOR);
        } else {
            v.push(c);
        }
        i += 1;
    }
    proof {
        assert(args@.take(i as int) =~= args@);
    }
    string_from_chars(v)
}

/// A sendlist as `/send` shows it: the sessions, then " and discussion(s)"
/// and the discussions; or the discussions alone.
pub open spec fn sendlist_text_spec(sessions: Seq<Seq<char>>, discussions: Seq<Seq<char>>) -> Seq<char> {
    if sessions.len() > 0 {
        crate::sendlist::join_list(sessions, ", "@, ", "@) + if discussions.len() > 0 {
            " and discussion"@ + crate::sendlist::plural_s(discussions.len()) + " "@
                + crate::sendlist::join_list(discussions, ", "@, ", "@)
        } else {
            Seq::empty()
        }
    } else {
        crate::sendlist::join_list(discussions, ", "@, ", "@)
    }
}

fn push_comma_joined(v: &mut Vec<char>, items: &Vec<String>)
    ensures
        final(v)@ == old(v)@ + crate::sendlist::join_list(items@.map_values(|s: String| s@), ", "@, ", "@),
{
    let ghost s = items@.map_values(|s: String| s@);
    let mut i: usize = 0;
    while i < items.len()
        invariant
            i <= items.len(),
            s == items@.map_values(|s: String| s@),
            v@ == old(v)@ + crate::sendlist::join_upto(s, i as int, ", "@, ", "@),
        decreases items.len() - i,
    {
        if i > 0 {
            push_str(v, ", ");
        }
        push_str(v, items[i].as_str());
        proof {
            assert(v@ =~= old(v)@ + crate::sendlist::join_upto(s, i + 1, ", "@, ", "@));
        }
        i += 1;
    }
}

/// A sendlist as `/send` shows it (see `sendlist_text_spec`).
pub fn sendlist_text(sessions: &Vec<String>, discussions: &Vec<String>) -> (r: String)
    ensures
        r@ == sendlist_text_spec(sessions@.map_values(|s: String| s@), discussions@.map_values(|s: String| s@)),
{
    let mut v: Vec<char> = Vec::new();
    if sessions.len() > 0 {
        push_comma_joined(&mut v, sessions);
        if discussions.len() > 0 {
            push_str(&mut v, " and discussion");
            if discussions.len() == 1 {
                push_str(&mut v, "");
            } else {
                push_str(&mut v, "s");
            }
            push_str(&mut v, " ");
            push_comma_joined(&mut v, discussions);
        }
    } else {
        push_comma_joined(&mut v, discussions);
    }
    assert(v@ =~= sendlist_text_spec(sessions@.map_values(|s: String| s@), discussions@.map_values(|s: String| s@)));
    string_from_chars(v)
}

/// What `/send` is asked to do.
#[derive(Debug)]
pub enum SendCommand {
    /// Show the default sendlist.
    Show,
    /// Turn the default sendlist off.
    Off,
    /// Set the default sendlist to this sendlist text.
    Change(String),
}

/// What `/send` is asked to do: show the default sendlist, turn it off,
/// or set it.
pub open spec fn send_command_spec(args: Seq<char>) -> (nat, Seq<char>) {
    if args.len() == 0 {
        (0, Seq::empty())
    } else if seq_eq_ic(args, "off"@) {
        (1, Seq::empty())
    } else {
        (2, send_typed_spec(args))
    }
}

/// The view of a `SendCommand`.
pub open spec fn send_command_view(c: SendCommand) -> (nat, Seq<char>) {
    match c {
        SendCommand::Show => (0, Seq::empty()),
        SendCommand::Off => (1, Seq::empty()),
        SendCommand::Change(t) => (2, t@),
    }
}

/// Reads what `/send` is asked to do (see `send_command_spec`).
pub fn send_command(args: &str) -> (r: SendCommand)
    ensures
        send_command_view(r) == send_command_spec(args@),
{
    let a = str_chars(args);
    if a.len() == 0 {
        return SendCommand::Show;
    }
    let off: Vec<char> = vec!['o', 'f', 'f'];
    proof {
        reveal_strlit("off");
        assert(off@ =~= "off"@);
    }
    if chars_eq_ignore_ascii_case(&a, &off) {
        SendCommand::Off
    } else {
        SendCommand::Change(send_typed(args))
    }
}

/// What `/blurb` decided.
#[derive(Debug)]
pub enum BlurbCommand {
    /// Show the blurb (or that there is none).
    Show,
    /// Turn the blurb off.
    Off,
    /// Set the blurb.
    Change(String),
}

/// The view of a `BlurbCommand`.
pub open spec fn blurb_command_view(c: BlurbCommand) -> (nat, Seq<char>) {
    match c {
        BlurbCommand::Show => (0, Seq::empty()),
        BlurbCommand::Off => (1, Seq::empty()),
        BlurbCommand::Change(b) => (2, b@),
    }
}

/// What `/blurb` asks for, on the trimmed arguments: nothing shows the
/// blurb, "off" turns it off, anything else is the new blurb, without the
/// double quotes or square brackets around it.
pub open spec fn blurb_command_spec(args: Seq<char>) -> (nat, Seq<char>) {
    let a = crate::words::trim_spec(args);
    if a.len() == 0 {
        (0, Seq::empty())
    } else if seq_eq_ic(a, "off"@) {
        (1, Seq::empty())
    } else if (a[0] == '"' && a[a.len() - 1] == '"' && a.len() > 2) || (a[0] == '[' && a[a.len() - 1] == ']') {
        (2, a.subrange(1, a.len() - 1))
    } else {
        (2, a)
    }
}

/// Reads what `/blurb` asks for (see `blurb_command_spec`).
pub fn blurb_command(args: &str) -> (r: BlurbCommand)
    ensures
        blurb_command_view(r) == blurb_command_spec(args@),
{
    let t = crate::words::trim(args);
    let a = str_chars(t);
    let n = a.len();
    if n == 0 {
        return BlurbCommand::Show;
    }
    let off: Vec<char> = vec!['o', 'f', 'f'];
    proof {
        reveal_strlit("off");
        assert(off@ =~= "off"@);
    }
    if chars_eq_ignore_ascii_case(&a, &off) {
        return BlurbCommand::Off;
    }
    if (a[0] == '"' && a[n - 1] == '"' && n > 2) || (a[0] == '[' && a[n - 1] == ']') {
        if n >= 2 {
            BlurbCommand::Change(String::from_str(t.substring_char(1, n - 1)))
        } else {
            BlurbCommand::Change(String::new())
        }
    } else {
        BlurbCommand::Change(String::from_str(t))
    }
}

/// The outcome of `/blurb` for a user whose blurb is `current`: the new
/// blurb when it changes (`Some(None)`: turned off), and the answer.
pub open spec fn blurb_reply_spec(cmd: (nat, Seq<char>), current: Option<Seq<char>>) -> (Option<Option<Seq<char>>>, Seq<char>) {
    if cmd.0 == 0 {
        (
            None,
            match current {
                Some(b) => "Your blurb is currently set to ["@ + b + "].\n"@,
                None => "You do not currently have a blurb set.\n"@,
            },
        )
    } else if cmd.0 == 1 {
        if current is Some && current.unwrap().len() > 0 {
            (Some(None), "Your blurb has been turned off.\n"@)
        } else {
            (None, "Your blurb was already turned off.\n"@)
        }
    } else {
        (Some(Some(cmd.1)), "Your blurb has been set to ["@ + cmd.1 + "].\n"@)
    }
}

/// The outcome of `/blurb` (see `blurb_reply_spec`).
pub fn blurb_reply(cmd: &BlurbCommand, current: Option<&str>) -> (r: (Option<Option<String>>, String))
    ensures
        ((match r.0 {
            Some(Some(b)) => Some(Some(b@)),
            Some(None) => Some(None),
            None => None,
        }), r.1@) == blurb_reply_spec(
            blurb_command_view(*cmd),
            match current {
                Some(b) => Some(b@),
                None => None,
            },
        ),
{
    let mut v: Vec<char> = Vec::new();
    match cmd {
        BlurbCommand::Show => {
            match current {
                Some(b) => {
                    push_str(&mut v, "Your blurb is currently set to [");
                    push_str(&mut v, b);
                    push_str(&mut v, "].\n");
                },
                None => push_str(&mut v, "You do not currently have a blurb set.\n"),
            }
            (None, string_from_chars(v))
        },
        BlurbCommand::Off => {
            let set = match current {
                Some(b) => b.unicode_len() > 0,
                None => false,
            };
            if set {
                (Some(None), String::from_str("Your blurb has been turned off.\n"))
            } else {
                (None, String::from_str("Your blurb was already turned off.\n"))
            }
        },
        BlurbCommand::Change(b) => {
            push_str(&mut v, "Your blurb has been set to [");
            push_str(&mut v, b.as_str());
            push_str(&mut v, "].\n");
            (Some(Some(b.clone())), string_from_chars(v))
        },
    }
}

/// `/rename <name>`: whether the name changes, and the answer.  A name
/// used by another session or a discussion only draws a warning; the
/// name changes all the same.  `reserved` is the reserved name the new
/// name falls under and whether it is reserved for this user (which is
/// refused); `me` is the index of the user's own session, if listed.
pub open spec fn rename_spec(
    args: Seq<char>,
    reserved: Option<(Seq<char>, bool)>,
    me: Option<int>,
    sessions: Seq<Candidate>,
    discussions: Seq<Candidate>,
) -> (bool, Seq<char>) {
    if args.len() == 0 {
        (false, "Usage: /rename <name>\n"@)
    } else if seq_eq_ic(args, "me"@) {
        (false, "The keyword \"me\" is reserved.  (name unchanged)\n"@)
    } else if reserved is Some && reserved.unwrap().1 {
        (false, "\""@ + reserved.unwrap().0 + "\" is a reserved name.  (name unchanged)\n"@)
    } else {
        let f = find_sendable_spec(args, sessions, discussions, false, true, true, true);
        let warning = if f.1 is Some && f.1 != me {
            "The name \""@ + sessions[f.1.unwrap()].name@ + "\" is already in use.  (name unchanged)\n"@
        } else if f.3 is Some {
            "There is already a discussion named \""@ + discussions[f.3.unwrap()].name@
                + "\".  (name unchanged)\n"@
        } else {
            Seq::empty()
        };
        (true, warning + "You have changed your name to \""@ + args + "\".\n"@)
    }
}

/// `/rename` (see `rename_spec`): whether the name changes to `args`, and
/// the answer.
pub fn rename_command(
    args: &str,
    reserved: Option<(&str, bool)>,
    me: Option<usize>,
    sessions: &Vec<Candidate>,
    discussions: &Vec<Candidate>,
) -> (r: (bool, String))
    ensures
        (r.0, r.1@) == rename_spec(
            args@,
            match reserved {
                Some((n, b)) => Some((n@, b)),
                None => None,
            },
            match me {
                Some(i) => Some(i as int),
                None => None,
            },
            sessions@,
            discussions@,
        ),
{
    let a = str_chars(args);
    if a.len() == 0 {
        return (false, String::from_str("Usage: /rename <name>\n"));
    }
    let me_word: Vec<char> = vec!['m', 'e'];
    proof {
        reveal_strlit("me");
        assert(me_word@ =~= "me"@);
    }
    if chars_eq_ignore_ascii_case(&a, &me_word) {
        return (false, String::from_str("The keyword \"me\" is reserved.  (name unchanged)\n"));
    }
    match reserved {
        Some((n, mine)) => {
            if mine {
                let mut v: Vec<char> = Vec::new();
                push_str(&mut v, "\"");
                push_str(&mut v, n);
                push_str(&mut v, "\" is a reserved name.  (name unchanged)\n");
                return (false, string_from_chars(v));
            }
        },
        None => {},
    }
    let f = find_sendable(args, sessions, discussions, false, true, true, true);
    let mut v: Vec<char> = Vec::new();
    let other = match (f.session, me) {
        (Some(i), Some(m)) => i != m,
        (Some(_), None) => true,
        _ => false,
    };
    if other {
        let i = f.session.unwrap();
        push_str(&mut v, "The name \"");
        push_str(&mut v, sessions[i].name.as_str());
        push_str(&mut v, "\" is already in use.  (name unchanged)\n");
    } else if f.discussion.is_some() {
        let j = f.discussion.unwrap();
        push_str(&mut v, "There is already a discussion named \"");
        push_str(&mut v, discussions[j].name.as_str());
        push_str(&mut v, "\".  (name unchanged)\n");
    }
    push_str(&mut v, "You have changed your name to \"");
    push_str(&mut v, args);
    push_str(&mut v, "\".\n");
    (true, string_from_chars(v))
}

/// `/nuke [!]<name>`: whether output is drained first (no `!`), and the
/// name to look up.
pub open spec fn nuke_args_spec(args: Seq<char>) -> (bool, Seq<char>) {
    if args.len() > 0 && args[0] == '!' {
        (false, args.skip(1))
    } else {
        (true, args)
    }
}

/// `/nuke [!]<name>` (see `nuke_args_spec`).
pub fn nuke_args(args: &str) -> (r: (bool, String))
    ensures
        (r.0, r.1@) == nuke_args_spec(args@),
{
    let a = str_chars(args);
    if a.len() > 0 && a[0] == '!' {
        (false, String::from_str(args.substring_char(1, a.len())))
    } else {
        (true, String::from_str(args))
    }
}

/// What the user who nuked a session is told, and what its victim is told.
pub open spec fn nuked_spec(name: Seq<char>, drain: bool, by: Seq<char>) -> (Seq<char>, Seq<char>) {
    (
        "\""@ + name + (if drain {
            "\" has been nuked.\n"@
        } else {
            "\" has been nuked immediately.\n"@
        }),
        "\u{7}\u{7}\u{7}*** You have been nuked by "@ + by + ". ***\n"@,
    )
}

/// What the user who nuked a session is told, and what its victim is told.
pub fn nuked_text(name: &str, drain: bool, by: &str) -> (r: (String, String))
    ensures
        (r.0@, r.1@) == nuked_spec(name@, drain, by@),
{
    let mut v: Vec<char> = Vec::new();
    push_str(&mut v, "\"");
    push_str(&mut v, name);
    if drain {
        push_str(&mut v, "\" has been nuked.\n");
    } else {
        push_str(&mut v, "\" has been nuked immediately.\n");
    }
    let mut u: Vec<char> = Vec::new();
    push_str(&mut u, "\u{7}\u{7}\u{7}*** You have been nuked by ");
    push_str(&mut u, by);
    push_str(&mut u, ". ***\n");
    (string_from_chars(v), string_from_chars(u))
}


/// What `/restart` or `/down` asks for.
#[derive(Debug, Clone, Copy, PartialEq, Eq, Structural)]
pub enum ShutdownRequest {
    /// `!`: at once.
    Immediate,
    /// `cancel`: call off a pending one.
    Cancel,
    /// After this many seconds (30 unless a number was given).
    Delayed(u64),
}

/// `/restart` and `/down`: `!` is immediate, `cancel` calls a pending
/// one off, anything else is a delay in seconds (30 where it is no number).
pub open spec fn shutdown_request_spec(args: Seq<char>) -> ShutdownRequest {
    if args == "!"@ {
        ShutdownRequest::Immediate
    } else if match_keyword_spec(args, "cancel"@, 6).is_some() {
        ShutdownRequest::Cancel
    } else {
        match parse_u64_spec(args) {
            Some(n) => ShutdownRequest::Delayed(n as u64),
            None => ShutdownRequest::Delayed(30),
        }
    }
}

/// `/restart` and `/down` (see `shutdown_request_spec`).
pub fn shutdown_request(args: &str) -> (r: ShutdownRequest)
    ensures
        r == shutdown_request_spec(args@),
{
    proof {
        reveal_strlit("!");
        reveal_strlit("cancel");
    }
    let a = str_chars(args);
    if a.len() == 1 && a[0] == '!' {
        assert(args@ =~= "!"@);
        return ShutdownRequest::Immediate;
    }
    assert(args@ != "!"@) by {
        if args@ == "!"@ {
            assert(a@[0] == '!');
        }
    }
    if match_keyword(args, "cancel", 6).is_some() {
        ShutdownRequest::Cancel
    } else {
        match parse_u64(args) {
            Some(n) => ShutdownRequest::Delayed(n),
            None => ShutdownRequest::Delayed(30),
        }
    }
}

/// The announcement of a restart or shutdown by `name`.
pub open spec fn shutdown_spec(name: Seq<char>, restart: bool) -> Seq<char> {
    "*** "@ + name + (if restart {
        " has restarted Phoenix! ***\n"@
    } else {
        " has shut down Phoenix! ***\n"@
    })
}

/// The announcement of a restart or shutdown by `name`.
pub fn shutdown_text(name: &str, restart: bool) -> (r: String)
    ensures
        r@ == shutdown_spec(name@, restart),
{
    let mut v: Vec<char> = Vec::new();
    push_str(&mut v, "*** ");
    push_str(&mut v, name);
    if restart {
        push_str(&mut v, " has restarted Phoenix! ***\n");
    } else {
        push_str(&mut v, " has shut down Phoenix! ***\n");
    }
    string_from_chars(v)
}

/// What a cancel gives: the announcement when a restart (`Some(true)`) or
/// shutdown (`Some(false)`) was pending (first), or the reply to the user
/// when none was (second).
pub open spec fn cancel_spec(name: Seq<char>, pending: Option<bool>) -> (Option<Seq<char>>, Seq<char>) {
    match pending {
        Some(true) => (Some("*** "@ + name + " has cancelled the server restart. ***\n"@), Seq::empty()),
        Some(false) => (Some("*** "@ + name + " has cancelled the server shutdown. ***\n"@), Seq::empty()),
        None => (None, "The server was not about to shut down or restart.\n"@),
    }
}

/// What a cancel gives (see `cancel_spec`).
pub fn cancel_text(name: &str, pending: Option<bool>) -> (r: (Option<String>, String))
    ensures
        (match r.0 {
            Some(s) => Some(s@),
            None => None,
        }, r.1@) == cancel_spec(name@, pending),
{
    match pending {
        Some(restart) => {
            let mut v: Vec<char> = Vec::new();
            push_str(&mut v, "*** ");
            push_str(&mut v, name);
            if restart {
                push_str(&mut v, " has cancelled the server restart. ***\n");
            } else {
                push_str(&mut v, " has cancelled the server shutdown. ***\n");
            }
            (Some(string_from_chars(v)), String::new())
        },
        None => (None, String::from_str("The server was not about to shut down or restart.\n")),
    }
}

/// The word for each away state, as the user is told of it.
pub open spec fn away_word_spec(state: AwayState) -> Seq<char> {
    match state {
        AwayState::Here => "here"@,
        AwayState::Away => "away"@,
        AwayState::Busy => "busy"@,
        AwayState::Gone => "gone"@,
    }
}

/// The reply to `/here`, `/away`, `/busy` and `/gone`.
pub open spec fn away_reply_spec(state: AwayState) -> Seq<char> {
    "You are now \""@ + away_word_spec(state) + "\".\n"@
}

/// The reply to `/here`, `/away`, `/busy` and `/gone`.
pub fn away_reply(state: AwayState) -> (r: String)
    ensures
        r@ == away_reply_spec(state),
{
    let mut v: Vec<char> = Vec::new();
    push_str(&mut v, "You are now \"");
    match state {
        AwayState::Here => push_str(&mut v, "here"),
        AwayState::Away => push_str(&mut v, "away"),
        AwayState::Busy => push_str(&mut v, "busy"),
        AwayState::Gone => push_str(&mut v, "gone"),
    }
    push_str(&mut v, "\".\n");
    string_from_chars(v)
}

/// The /oops text a session starts with.
pub const DEFAULT_OOPS_TEXT: &'static str = "Oops!  Sorry, that last message was intended for someone else...";

/// What `/oops` asks for.
#[derive(Debug, Clone, PartialEq, Eq)]
pub enum OopsCommand {
    /// No arguments: the usage line.
    Usage,
    /// `text` alone: show the current /oops text.
    ShowText,
    /// `text <message>`: the new /oops text (trimmed).
    ChangeText(String),
    /// A sendlist: resend the last message there.
    Resend,
}

/// `/oops <sendlist>` or `/oops text [<message>]`.
pub open spec fn oops_command_spec(args: Seq<char>) -> (bool, bool, Option<Seq<char>>) {
    if args.len() == 0 {
        (true, false, None)
    } else {
        match match_keyword_spec(args, "text"@, 4) {
            Some(rest) => if trim_spec(rest).len() > 0 {
                (false, true, Some(trim_spec(rest)))
            } else {
                (false, true, None)
            },
            None => (false, false, None),
        }
    }
}

/// `/oops` (see `oops_command_spec`: usage, about the text, the new text).
pub fn oops_command(args: &str) -> (r: OopsCommand)
    ensures
        oops_command_spec(args@) == (match r {
            OopsCommand::Usage => (true, false, None),
            OopsCommand::ShowText => (false, true, None),
            OopsCommand::ChangeText(t) => (false, true, Some(t@)),
            OopsCommand::Resend => (false, false, None),
        }),
{
    proof {
        reveal_strlit("text");
    }
    let a = str_chars(args);
    if a.len() == 0 {
        return OopsCommand::Usage;
    }
    match match_keyword(args, "text", 4) {
        Some(rest) => {
            let t = trim(rest);
            if str_chars(t).len() > 0 {
                OopsCommand::ChangeText(String::from_str(t))
            } else {
                OopsCommand::ShowText
            }
        },
        None => OopsCommand::Resend,
    }
}

/// What the user is told of the /oops text: it was just `changed`, or
/// what it is.
pub open spec fn oops_text_reply_spec(text: Seq<char>, changed: bool) -> Seq<char> {
    (if changed {
        "Your /oops text is now \""@
    } else {
        "Your /oops text is currently \""@
    }) + text + "\".\n"@
}

/// What the user is told of the /oops text (see `oops_text_reply_spec`).
pub fn oops_text_reply(text: &str, changed: bool) -> (r: String)
    ensures
        r@ == oops_text_reply_spec(text@, changed),
{
    let mut v: Vec<char> = Vec::new();
    if changed {
        push_str(&mut v, "Your /oops text is now \"");
    } else {
        push_str(&mut v, "Your /oops text is currently \"");
    }
    push_str(&mut v, text);
    push_str(&mut v, "\".\n");
    string_from_chars(v)
}


/// Whether a sendlist must be quoted to be typed back as one entry.
pub open spec fn needs_quotes(s: Seq<char>) -> bool {
    exists|i: int|
        0 <= i < s.len() && (#[trigger] s[i] == ' ' || s[i] == ',' || s[i] == ':' || s[i] == ';' || s[i] == '_')
}

/// The reply sendlist kept for a name: quoted where it holds a space,
/// `,`, `:`, `;` or `_`, as it is otherwise.
pub open spec fn reply_sendlist_spec(s: Seq<char>) -> Seq<char> {
    if needs_quotes(s) {
        "\""@ + s + "\""@
    } else {
        s
    }
}

/// The reply sendlist kept for a name (see `reply_sendlist_spec`).
pub fn reply_sendlist_text(sendlist: &str) -> (r: String)
    ensures
        r@ == reply_sendlist_spec(sendlist@),
{
    let a = str_chars(sendlist);
    let mut i: usize = 0;
    let mut found = false;
    while i < a.len()
        invariant
            i <= a.len(),
            a@ == sendlist@,
            found == exists|j: int|
                0 <= j < i && (#[trigger] a@[j] == ' ' || a@[j] == ',' || a@[j] == ':' || a@[j] == ';' || a@[j]
                    == '_'),
        decreases a.len() - i,
    {
        let c = a[i];
        if c == ' ' || c == ',' || c == ':' || c == ';' || c == '_' {
            found = true;
        }
        i += 1;
    }
    if found {
        let mut v: Vec<char> = Vec::new();
        push_str(&mut v, "\"");
        push_str(&mut v, sendlist);
        push_str(&mut v, "\"");
        string_from_chars(v)
    } else {
        String::from_str(sendlist)
    }
}

} // verus!
