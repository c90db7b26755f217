//! Whether a name can be taken at login: reserved words, reserved names,
//! and names already used by a session or a discussion, with what the user
//! is told and whether an old session of the same user is taken over.

use vstd::prelude::*;
use vstd::string::StringExecFns;
use crate::chars::{push_str, seq_eq_ic, str_chars, string_from_chars, chars_eq_ignore_ascii_case};
use crate::sendable::{Candidate, find_sendable, find_sendable_spec};

verus! {

/// What checking a name decided.
#[derive(Debug)]
pub enum NameCheck {
    /// The name is free.
    Available,
    /// The name cannot be taken; the user is told why.
    Refused(String),
    /// The user's own attached session (index into the sessions) is taken
    /// over by this connection.
    Transfer(usize),
    /// The user's own session is attached elsewhere; the user is told so
    /// and asked whether to take it over.
    AttachedElsewhere(String),
    /// The user's own detached session (index) is attached to this
    /// connection.
    Attach(usize),
}

/// The view of a `NameCheck`: the kind (0 available, 1 refused, 2
/// transfer, 3 attached elsewhere, 4 attach), the text and the index.
pub open spec fn name_check_view(c: NameCheck) -> (nat, Seq<char>, int) {
    match c {
        NameCheck::Available => (0, Seq::empty(), 0),
        NameCheck::Refused(m) => (1, m@, 0),
        NameCheck::Transfer(i) => (2, Seq::empty(), i as int),
        NameCheck::AttachedElsewhere(m) => (3, m@, 0),
        NameCheck::Attach(i) => (4, Seq::empty(), i as int),
    }
}

/// " now" when checking again, else nothing.
pub open spec fn now_word(double_check: bool) -> Seq<char> {
    if double_check {
        " now"@
    } else {
        ""@
    }
}

/// "now" when checking again, else "already".
pub open spec fn already_word(double_check: bool) -> Seq<char> {
    if double_check {
        "now"@
    } else {
        "already"@
    }
}

/// Checking a name at login.  `reserved` is the reserved name that the
/// name falls under and whether it is reserved for this user; `own[i]`
/// tells whether session `i` belongs to this (privileged) user and
/// `attached[i]` whether it has a connection.
pub open spec fn check_name_spec(
    name: Seq<char>,
    double_check: bool,
    transferring: bool,
    reserved: Option<(Seq<char>, bool)>,
    sessions: Seq<Candidate>,
    discussions: Seq<Candidate>,
    own: Seq<bool>,
    attached: Seq<bool>,
) -> (nat, Seq<char>, int) {
    if seq_eq_ic(name, "me"@) {
        (1, "The keyword \"me\" is reserved.  Choose another name.\n"@, 0)
    } else if seq_eq_ic(name, "A"@) {
        (1, "There is already a discussion named \"A\".  Choose another name.\n"@, 0)
    } else if reserved is Some && !reserved.unwrap().1 {
        (1, "\""@ + reserved.unwrap().0 + "\" is"@ + now_word(double_check) + " a reserved name.  Choose another.\n"@, 0)
    } else {
        let f = find_sendable_spec(name, sessions, discussions, false, true, true, true);
        if f.1 is Some {
            let i = f.1.unwrap();
            if own[i] {
                if attached[i] {
                    if transferring {
                        (2, Seq::empty(), i)
                    } else {
                        (3, "You are"@ + now_word(double_check) + " attached elsewhere under that name.\n"@, 0)
                    }
                } else {
                    (4, Seq::empty(), i)
                }
            } else {
                (
                    1,
                    "The name \""@ + sessions[i].name@ + "\" is "@ + already_word(double_check)
                        + " in use.  Choose another.\n"@,
                    0,
                )
            }
        } else if f.3 is Some {
            (
                1,
                "There is "@ + already_word(double_check) + " a discussion named \""@
                    + discussions[f.3.unwrap()].name@ + "\".  Choose another name.\n"@,
                0,
            )
        } else {
            (0, Seq::empty(), 0)
        }
    }
}

fn now_word_exec(double_check: bool) -> (r: &'static str)
    ensures
        r@ == now_word(double_check),
{
    if double_check {
        " now"
    } else {
        ""
    }
}

fn already_word_exec(double_check: bool) -> (r: &'static str)
    ensures
        r@ == already_word(double_check),
{
    if double_check {
        "now"
    } else {
        "already"
    }
}

/// Checks a name at login (see `check_name_spec`).
pub fn check_name(
    name: &str,
    double_check: bool,
    transferring: bool,
    reserved: Option<(&str, bool)>,
    sessions: &Vec<Candidate>,
    discussions: &Vec<Candidate>,
    own: &Vec<bool>,
    attached: &Vec<bool>,
) -> (r: NameCheck)
    requires
        own@.len() == sessions@.len(),
        attached@.len() == sessions@.len(),
    ensures
        name_check_view(r) == check_name_spec(
            name@,
            double_check,
            transferring,
            match reserved {
                Some((s, b)) => Some((s@, b)),
                None => None,
            },
            sessions@,
            discussions@,
            own@,
            attached@,
        ),
{
    let n = str_chars(name);
    let me: Vec<char> = vec!['m', 'e'];
    let a: Vec<char> = vec!['A'];
    proof {
        reveal_strlit("me");
        reveal_strlit("A");
        assert(me@ =~= "me"@);
        assert(a@ =~= "A"@);
    }
    if chars_eq_ignore_ascii_case(&n, &me) {
        return NameCheck::Refused(String::from_str("The keyword \"me\" is reserved.  Choose another name.\n"));
    }
    if chars_eq_ignore_ascii_case(&n, &a) {
        return NameCheck::Refused(
            String::from_str("There is already a discussion named \"A\".  Choose another name.\n"),
        );
    }
    match reserved {
        Some((rname, mine)) => {
            if !mine {
                let mut v: Vec<char> = Vec::new();
                push_str(&mut v, "\"");
                push_str(&mut v, rname);
                push_str(&mut v, "\" is");
                push_str(&mut v, now_word_exec(double_check));
                push_str(&mut v, " a reserved name.  Choose another.\n");
                return NameCheck::Refused(string_from_chars(v));
            }
        },
        None => {},
    }
    let f = find_sendable(name, sessions, discussions, false, true, true, true);
    if f.session.is_some() {
        let i = f.session.unwrap();
        if own[i] {
            if attached[i] {
                if transferring {
                    NameCheck::Transfer(i)
                } else {
                    let mut v: Vec<char> = Vec::new();
                    push_str(&mut v, "You are");
                    push_str(&mut v, now_word_exec(double_check));
                    push_str(&mut v, " attached elsewhere under that name.\n");
                    NameCheck::AttachedElsewhere(string_from_chars(v))
                }
            } else {
                NameCheck::Attach(i)
            }
        } else {
            let mut v: Vec<char> = Vec::new();
            push_str(&mut v, "The name \"");
            push_str(&mut v, sessions[i].name.as_str());
            push_str(&mut v, "\" is ");
            push_str(&mut v, already_word_exec(double_check));
            push_str(&mut v, " in use.  Choose another.\n");
            NameCheck::Refused(string_from_chars(v))
        }
    } else if f.discussion.is_some() {
        let j = f.discussion.unwrap();
        let mut v: Vec<char> = Vec::new();
        push_str(&mut v, "There is ");
        push_str(&mut v, already_word_exec(double_check));
        push_str(&mut v, " a discussion named \"");
        push_str(&mut v, discussions[j].name.as_str());
        push_str(&mut v, "\".  Choose another name.\n");
        NameCheck::Refused(string_from_chars(v))
    } else {
        NameCheck::Available
    }
}

/// What a line typed at the `login:` prompt leads to.
#[derive(Debug, Clone, Copy, PartialEq, Eq, Structural)]
pub enum LoginStep {
    /// `/bye`: leave.
    Bye,
    /// Nothing typed: ask again.
    Prompt,
    /// A known account with a password: ask for it.
    AskPassword,
    /// A known account without a password: ask for a name.
    AskName,
    /// No such account: try again, or close after too many attempts.
    Invalid { attempts: u32, close: bool },
}

/// The warning shown before a password is asked for, by the state of the
/// echo option: none when the server echoes, else that the password will
/// or may echo.
pub open spec fn echo_warning_spec(echo: u8) -> Seq<char> {
    if echo == crate::telnet::TELNET_ENABLED {
        Seq::empty()
    } else if echo == 0 {
        "\u{7}\nSorry, password probably WILL echo.\n\n"@
    } else {
        "\nWarning: password may echo.\n\n"@
    }
}

/// The warning shown before a password is asked for.
pub fn echo_warning(echo: u8) -> (r: String)
    ensures
        r@ == echo_warning_spec(echo),
{
    if echo == crate::telnet::TELNET_ENABLED {
        String::new()
    } else if echo == 0 {
        String::from_str("\u{7}\nSorry, password probably WILL echo.\n\n")
    } else {
        String::from_str("\nWarning: password may echo.\n\n")
    }
}

/// What a line typed at `login:` leads to: `account` tells whether the
/// (trimmed) line names an account and whether it has a password;
/// `attempts` failed attempts so far, of at most `max_attempts`.
pub open spec fn login_step_spec(line: Seq<char>, account: Option<bool>, attempts: u32, max_attempts: u32) -> LoginStep {
    let t = crate::words::trim_spec(line);
    if crate::words::match_keyword_spec(t, "/bye"@, 4).is_some() {
        LoginStep::Bye
    } else if t.len() == 0 {
        LoginStep::Prompt
    } else {
        match account {
            Some(true) => LoginStep::AskPassword,
            Some(false) => LoginStep::AskName,
            None => {
                let a = if attempts < u32::MAX {
                    (attempts + 1) as u32
                } else {
                    attempts
                };
                LoginStep::Invalid { attempts: a, close: a >= max_attempts }
            },
        }
    }
}

/// What a line typed at `login:` leads to (see `login_step_spec`).
pub fn login_step(line: &str, account: Option<bool>, attempts: u32, max_attempts: u32) -> (r: LoginStep)
    ensures
        r == login_step_spec(line@, account, attempts, max_attempts),
{
    let t = crate::words::trim(line);
    proof {
        reveal_strlit("/bye");
    }
    if crate::words::match_keyword(t, "/bye", 4).is_some() {
        LoginStep::Bye
    } else if t.unicode_len() == 0 {
        LoginStep::Prompt
    } else {
        match account {
            Some(true) => LoginStep::AskPassword,
            Some(false) => LoginStep::AskName,
            None => {
                let a = if attempts < u32::MAX {
                    attempts + 1
                } else {
                    attempts
                };
                LoginStep::Invalid { attempts: a, close: a >= max_attempts }
            },
        }
    }
}

/// The name to check when one is entered: the (trimmed) line, or with
/// nothing typed the user's first reserved name, if any.
pub open spec fn name_choice_spec(line: Seq<char>, reserved: Seq<Seq<char>>) -> Option<Seq<char>> {
    let t = crate::words::trim_spec(line);
    if t.len() > 0 {
        Some(t)
    } else if reserved.len() > 0 {
        Some(reserved[0])
    } else {
        None
    }
}

/// The name to check when one is entered (see `name_choice_spec`).
pub fn name_choice(line: &str, reserved: &Vec<String>) -> (r: Option<String>)
    ensures
        (match r {
            Some(s) => Some(s@),
            None => None,
        }) == name_choice_spec(line@, reserved@.map_values(|s: String| s@)),
{
    let t = crate::words::trim(line);
    if t.unicode_len() > 0 {
        Some(String::from_str(t))
    } else if reserved.len() > 0 {
        Some(reserved[0].clone())
    } else {
        None
    }
}

/// Whether the answer to "Transfer active session?" is yes (any
/// abbreviation of it, ignoring case).
pub open spec fn transfer_confirmed_spec(line: Seq<char>) -> bool {
    crate::words::match_keyword_spec(crate::words::trim_spec(line), "yes"@, 1).is_some()
}

/// Whether the answer to "Transfer active session?" is yes.
pub fn transfer_confirmed(line: &str) -> (r: bool)
    ensures
        r == transfer_confirmed_spec(line@),
{
    proof {
        reveal_strlit("yes");
    }
    crate::words::match_keyword(crate::words::trim(line), "yes", 1).is_some()
}

/// The lines that tell a user the names reserved for the account: the
/// default (first) one, and the others (the last of them is named twice,
/// before and after "and", when there are more than one).
pub open spec fn reserved_names_spec(reserved: Seq<Seq<char>>) -> Seq<char> {
    if reserved.len() == 0 {
        "\n"@
    } else {
        let rest = reserved.skip(1);
        let left = rest.len();
        "\nYour default (reserved) name is \""@ + reserved[0] + "\".\n"@ + (if left > 0 {
            "\nYou also have \""@ + rest[0] + crate::sendlist::join_upto(
                seq![Seq::empty()] + rest.skip(1),
                left as int,
                "\", \""@,
                "\", \""@,
            ) + (if left > 1 {
                "\" and \""@ + rest[left - 1]
            } else {
                Seq::empty()
            }) + "\" reserved.\n"@
        } else {
            Seq::empty()
        }) + "\n"@
    }
}

/// The lines that tell a user the names reserved for the account (see
/// `reserved_names_spec`).
pub fn reserved_names_text(reserved: &Vec<String>) -> (r: String)
    ensures
        r@ == reserved_names_spec(reserved@.map_values(|s: String| s@)),
{
    let ghost rs = reserved@.map_values(|s: String| s@);
    let mut v: Vec<char> = Vec::new();
    if reserved.len() == 0 {
        push_str(&mut v, "\n");
        assert(v@ =~= reserved_names_spec(rs));
        return string_from_chars(v);
    }
    push_str(&mut v, "\nYour default (reserved) name is \"");
    push_str(&mut v, reserved[0].as_str());
    push_str(&mut v, "\".\n");
    let left = reserved.len() - 1;
    let ghost head = v@;
    if left > 0 {
        let ghost rest = rs.skip(1);
        let ghost items = seq![Seq::<char>::empty()] + rest.skip(1);
        push_str(&mut v, "\nYou also have \"");
        push_str(&mut v, reserved[1].as_str());
        assert(rest[0] == reserved@[1]@);
        let ghost base = v@;
        proof {
            reveal_with_fuel(crate::sendlist::join_upto, 2);
            assert(items[0] == Seq::<char>::empty());
            assert(crate::sendlist::join_upto(items, 1, "\", \""@, "\", \""@) =~= Seq::<char>::empty());
            assert(v@ =~= base + crate::sendlist::join_upto(items, 1, "\", \""@, "\", \""@));
        }
        let mut i: usize = 1;
        while i < left
            invariant
                1 <= i <= left,
                left == reserved@.len() - 1,
                rs == reserved@.map_values(|s: String| s@),
                rest == rs.skip(1),
                items == seq![Seq::<char>::empty()] + rest.skip(1),
                v@ == base + crate::sendlist::join_upto(items, i as int, "\", \""@, "\", \""@),
            decreases left - i,
        {
            push_str(&mut v, "\", \"");
            push_str(&mut v, reserved[i + 1].as_str());
            proof {
                assert(items[i as int] == reserved@[i + 1]@);
                assert(v@ =~= base + crate::sendlist::join_upto(items, i + 1, "\", \""@, "\", \""@));
            }
            i += 1;
        }
        if left > 1 {
            push_str(&mut v, "\" and \"");
            push_str(&mut v, reserved[left].as_str());
            assert(rest[left - 1] == reserved@[left as int]@);
        }
        push_str(&mut v, "\" reserved.\n");
    }
    push_str(&mut v, "\n");
    assert(v@ =~= reserved_names_spec(rs));
    string_from_chars(v)
}

} // verus!
