//! How a received message is printed: the header that says whom it is
//! from and to (with a bell when signals are on), the time stamp, and the
//! text wrapped to the width of the terminal.

use vstd::prelude::*;
use crate::chars::{chars_eq_ignore_ascii_case, push_str, push_chars, seq_eq_ic, str_chars, string_from_chars};
use crate::output::MessageType;
use crate::sendlist::{join_list, plural_s};
use crate::words::{skip_ws, skip_whitespace};

verus! {

/// The bell.
pub const BELL_STR: &'static str = "\u{7}";

/// The last space among the first `k` characters.
pub open spec fn last_space_before(r: Seq<char>, k: int) -> Option<int>
    decreases k,
{
    if k <= 0 {
        None
    } else if r[k - 1] == ' ' {
        Some(k - 1)
    } else {
        last_space_before(r, k - 1)
    }
}

/// `r` wrapped to lines of fewer than `limit` characters: a line that
/// does not fit breaks at its last space (the spaces after it are
/// dropped), or, with no space, after `limit - 1` characters; lines after
/// the first start with " - ".
pub open spec fn wrap_spec(r: Seq<char>, limit: int) -> Seq<char>
    decreases r.len(),
{
    if r.len() == 0 || limit < 2 {
        r
    } else if r.len() < limit {
        r
    } else {
        let (line, rest) = match last_space_before(r, limit) {
            Some(w) => (r.take(w), r.skip(w + 1).skip(skip_ws(r.skip(w + 1), 0))),
            None => (r.take(limit - 1), r.skip(limit - 1)),
        };
        line + if rest.len() > 0 && rest.len() < r.len() {
            "\n - "@ + wrap_spec(rest, limit)
        } else {
            Seq::empty()
        }
    }
}

proof fn lemma_last_space_bounds(r: Seq<char>, k: int)
    requires
        0 <= k <= r.len(),
    ensures
        last_space_before(r, k) matches Some(w) ==> 0 <= w < k && r[w] == ' ',
    decreases k,
{
    if k > 0 && r[k - 1] != ' ' {
        lemma_last_space_bounds(r, k - 1);
    }
}

proof fn lemma_skip_ws_range(s: Seq<char>, i: int)
    requires
        0 <= i <= s.len(),
    ensures
        i <= skip_ws(s, i) <= s.len(),
    decreases s.len() - i,
{
    if i < s.len() && crate::chars::is_ws(s[i]) {
        lemma_skip_ws_range(s, i + 1);
    }
}

/// The column at position `i` of `s`: how many characters stand between
/// the last line break before `i` (or the start) and `i`.
pub open spec fn column(s: Seq<char>, i: int) -> int
    decreases i,
{
    if i <= 0 || i > s.len() {
        0
    } else if s[i - 1] == '\n' {
        0
    } else {
        column(s, i - 1) + 1
    }
}

proof fn lemma_column_bound(s: Seq<char>, i: int)
    requires
        0 <= i <= s.len(),
    ensures
        0 <= column(s, i) <= i,
    decreases i,
{
    if i > 0 && s[i - 1] != '\n' {
        lemma_column_bound(s, i - 1);
    }
}

proof fn lemma_column_concat(a: Seq<char>, b: Seq<char>, j: int)
    requires
        0 <= j <= b.len(),
    ensures
        column(a + b, a.len() + j) == if column(b, j) == j {
            column(a, a.len() as int) + j
        } else {
            column(b, j)
        },
    decreases j,
{
    lemma_column_bound(b, j);
    if j == 0 {
        lemma_column_prefix(a, b, a.len() as int);
    } else {
        assert((a + b)[a.len() + j - 1] == b[j - 1]);
        if b[j - 1] != '\n' {
            lemma_column_concat(a, b, j - 1);
            lemma_column_bound(b, j - 1);
        }
    }
}

proof fn lemma_column_prefix(a: Seq<char>, b: Seq<char>, i: int)
    requires
        0 <= i <= a.len(),
    ensures
        column(a + b, i) == column(a, i),
    decreases i,
{
    if i > 0 {
        assert((a + b)[i - 1] == a[i - 1]);
        lemma_column_prefix(a, b, i - 1);
    }
}

/// Word wrapping keeps lines short: wrapped to `limit` (at least 2), no
/// line of a text holds more than `limit + 2` characters (a continuation
/// line's " - " included), and its first line fewer than `limit`.
pub proof fn lemma_wrap_fits(r: Seq<char>, limit: int)
    requires
        limit >= 2,
    ensures
        forall|i: int|
            0 <= i <= wrap_spec(r, limit).len() ==> #[trigger] column(wrap_spec(r, limit), i) <= limit + 2,
        forall|i: int|
            0 <= i <= wrap_spec(r, limit).len() && #[trigger] column(wrap_spec(r, limit), i) == i ==> i < limit,
    decreases r.len(),
{
    reveal_strlit("\n - ");
    reveal_strlit("\n");
    reveal_strlit(" - ");
    let w = wrap_spec(r, limit);
    if r.len() == 0 || r.len() < limit {
        assert forall|i: int| 0 <= i <= w.len() implies column(w, i) <= i by {
            lemma_column_bound(w, i);
        }
    } else {
        lemma_last_space_bounds(r, limit);
        let (line, rest) = match last_space_before(r, limit) {
            Some(k) => (r.take(k), r.skip(k + 1).skip(skip_ws(r.skip(k + 1), 0))),
            None => (r.take(limit - 1), r.skip(limit - 1)),
        };
        assert(line.len() < limit);
        if rest.len() > 0 && rest.len() < r.len() {
            let inner = wrap_spec(rest, limit);
            lemma_wrap_fits(rest, limit);
            let x = " - "@ + inner;
            let t = "\n"@ + x;
            assert(w =~= line + t);
            assert forall|m: int| 0 <= m <= x.len() implies column(x, m) <= limit + 2 && (column(x, m) == m
                ==> m <= limit + 2) by {
                lemma_column_bound(x, m);
                if m <= 3 {
                } else {
                    lemma_column_concat(" - "@, inner, m - 3);
                    assert((" - "@ + inner).len() == 3 + inner.len());
                    lemma_column_bound(" - "@, 3);
                }
            }
            assert forall|j: int| 1 <= j <= t.len() implies column(t, j) == column(x, j - 1) by {
                lemma_column_concat("\n"@, x, j - 1);
                lemma_column_bound(x, j - 1);
                assert(("\n"@)[0] == '\n');
                assert(column("\n"@, 1) == 0);
            }
            assert forall|i: int| 0 <= i <= w.len() implies #[trigger] column(w, i) <= limit + 2 && (column(w, i)
                == i ==> i < limit) by {
                if i <= line.len() {
                    lemma_column_prefix(line, t, i);
                    lemma_column_bound(line, i);
                } else {
                    let j = i - line.len();
                    lemma_column_concat(line, t, j);
                    lemma_column_bound(x, j - 1);
                    lemma_column_bound(line, line.len() as int);
                }
            }
        } else {
            assert(w =~= line);
            assert forall|i: int| 0 <= i <= w.len() implies column(w, i) <= i by {
                lemma_column_bound(w, i);
            }
        }
    }
}

/// The header of a message: whom it is from and to, with a bell when the
/// signal for its kind is on.  For a private message, `to_me` says it was
/// sent to the reader by name, `private_discussion` that it reached the
/// reader through a private discussion; `to_names` and `discussions` are
/// the names of its sendlist.
pub open spec fn header_spec(
    kind: MessageType,
    signal_public: bool,
    signal_private: bool,
    from: Seq<char>,
    to_me: bool,
    private_discussion: bool,
    to_names: Seq<Seq<char>>,
    discussions: Seq<Seq<char>>,
) -> Seq<char> {
    let bell = "\u{7}"@;
    match kind {
        MessageType::Public => (if signal_public {
            bell
        } else {
            Seq::empty()
        }) + "\n -> From "@ + from + " to everyone:"@,
        MessageType::Private => {
            let is_private = to_me || private_discussion;
            (if is_private {
                (if signal_private {
                    bell
                } else {
                    Seq::empty()
                }) + if to_me {
                    "\n >> Private message from "@
                } else {
                    (if !signal_private && signal_public {
                        bell
                    } else {
                        Seq::empty()
                    }) + "\n >> From "@
                }
            } else {
                (if signal_public {
                    bell
                } else {
                    Seq::empty()
                }) + "\n -> From "@
            }) + from + (if to_names.len() > 1 || discussions.len() > 0 {
                " to "@ + join_list(to_names, ", "@, ", "@) + if discussions.len() > 0 {
                    (if to_names.len() > 0 {
                        "; "@
                    } else {
                        Seq::empty()
                    }) + "discussion"@ + plural_s(discussions.len()) + " "@ + join_list(
                        discussions,
                        ", "@,
                        ", "@,
                    )
                } else {
                    Seq::empty()
                }
            } else {
                Seq::empty()
            }) + ":"@
        },
    }
}

/// A message as printed: the header, the time stamp, and the text
/// wrapped to the terminal's `width`.
pub open spec fn message_spec(header: Seq<char>, stamp: Seq<char>, text: Seq<char>, width: int) -> Seq<char> {
    header + " ["@ + stamp + "]\n - "@ + wrap_spec(text, width - 4) + "\n"@
}

/// Whether a private message is private to the reader (and the reader's
/// replies go back to its sender).
pub open spec fn is_private_spec(kind: MessageType, to_me: bool, private_discussion: bool) -> bool {
    kind == MessageType::Private && (to_me || private_discussion)
}

fn push_joined_commas(v: &mut Vec<char>, items: &Vec<String>)
    ensures
        final(v)@ == old(v)@ + join_list(items@.map_values(|s: String| s@), ", "@, ", "@),
{
    let ghost s = items@.map_values(|s: String| s@);
    let mut i: usize = 0;
    while i < items.len()
        invariant
            i <= items.len(),
            s == items@.map_values(|s: String| s@),
            v@ == old(v)@ + crate::sendlist::join_upto(s, i as int, ", "@, ", "@),
        decreases items.len() - i,
    {
        if i > 0 {
            push_str(v, ", ");
        }
        push_str(v, items[i].as_str());
        proof {
            assert(v@ =~= old(v)@ + crate::sendlist::join_upto(s, i + 1, ", "@, ", "@));
        }
        i += 1;
    }
}

fn push_to_part(v: &mut Vec<char>, to_names: &Vec<String>, discussions: &Vec<String>)
    ensures
        final(v)@ == old(v)@ + (if to_names@.len() > 1 || discussions@.len() > 0 {
            " to "@ + join_list(to_names@.map_values(|s: String| s@), ", "@, ", "@) + if discussions@.len()
                > 0 {
                (if to_names@.len() > 0 {
                    "; "@
                } else {
                    Seq::empty()
                }) + "discussion"@ + plural_s(discussions@.len()) + " "@ + join_list(
                    discussions@.map_values(|s: String| s@),
                    ", "@,
                    ", "@,
                )
            } else {
                Seq::empty()
            }
        } else {
            Seq::empty()
        }),
{
    if to_names.len() > 1 || discussions.len() > 0 {
        push_str(v, " to ");
        push_joined_commas(v, to_names);
        let ghost mid = v@;
        if discussions.len() > 0 {
            if to_names.len() > 0 {
                push_str(v, "; ");
            }
            push_str(v, "discussion");
            if discussions.len() == 1 {
                push_str(v, "");
            } else {
                push_str(v, "s");
            }
            push_str(v, " ");
            push_joined_commas(v, discussions);
        }
        assert(v@ =~= old(v)@ + (" to "@ + join_list(to_names@.map_values(|s: String| s@), ", "@, ", "@)
            + if discussions@.len() > 0 {
            (if to_names@.len() > 0 {
                "; "@
            } else {
                Seq::empty()
            }) + "discussion"@ + plural_s(discussions@.len()) + " "@ + join_list(
                discussions@.map_values(|s: String| s@),
                ", "@,
                ", "@,
            )
        } else {
            Seq::empty()
        }));
    } else {
        assert(v@ =~= old(v)@ + Seq::<char>::empty());
    }
}

/// The header of a message (see `header_spec`).
pub fn message_header(
    kind: MessageType,
    signal_public: bool,
    signal_private: bool,
    from: &str,
    to_me: bool,
    private_discussion: bool,
    to_names: &Vec<String>,
    discussions: &Vec<String>,
) -> (r: String)
    ensures
        r@ == header_spec(
            kind,
            signal_public,
            signal_private,
            from@,
            to_me,
            private_discussion,
            to_names@.map_values(|s: String| s@),
            discussions@.map_values(|s: String| s@),
        ),
{
    let mut v: Vec<char> = Vec::new();
    match kind {
        MessageType::Public => {
            if signal_public {
                push_str(&mut v, "\u{7}");
            }
            push_str(&mut v, "\n -> From ");
            push_str(&mut v, from);
            push_str(&mut v, " to everyone:");
        },
        MessageType::Private => {
            if to_me || private_discussion {
                if signal_private {
                    push_str(&mut v, "\u{7}");
                }
                if to_me {
                    push_str(&mut v, "\n >> Private message from ");
                } else {
                    if !signal_private && signal_public {
                        push_str(&mut v, "\u{7}");
                    }
                    push_str(&mut v, "\n >> From ");
                }
            } else {
                if signal_public {
                    push_str(&mut v, "\u{7}");
                }
                push_str(&mut v, "\n -> From ");
            }
            push_str(&mut v, from);
            push_to_part(&mut v, to_names, discussions);
            push_str(&mut v, ":");
        },
    }
    proof {
        assert(v@ =~= header_spec(
            kind,
            signal_public,
            signal_private,
            from@,
            to_me,
            private_discussion,
            to_names@.map_values(|s: String| s@),
            discussions@.map_values(|s: String| s@),
        ));
    }
    string_from_chars(v)
}

/// The last space among the first `k` characters.
fn last_space(r: &Vec<char>, k: usize) -> (w: Option<usize>)
    requires
        k <= r.len(),
    ensures
        (match w {
            Some(i) => Some(i as int),
            None => None,
        }) == last_space_before(r@, k as int),
{
    let mut j = k;
    while j > 0
        invariant
            j <= k <= r.len(),
            last_space_before(r@, k as int) == last_space_before(r@, j as int),
        decreases j,
    {
        if r[j - 1] == ' ' {
            return Some(j - 1);
        }
        j -= 1;
    }
    None
}

fn copy_range(r: &Vec<char>, a: usize, b: usize) -> (out: Vec<char>)
    requires
        a <= b <= r.len(),
    ensures
        out@ == r@.subrange(a as int, b as int),
{
    let mut out: Vec<char> = Vec::new();
    let mut i = a;
    while i < b
        invariant
            a <= i <= b <= r.len(),
            out@ == r@.subrange(a as int, i as int),
        decreases b - i,
    {
        out.push(r[i]);
        i += 1;
    }
    out
}

/// Appends `text` wrapped (see `wrap_spec`).
fn push_wrapped(v: &mut Vec<char>, text: &str, limit: usize)
    requires
        limit >= 2,
    ensures
        final(v)@ == old(v)@ + wrap_spec(text@, limit as int),
{
    let mut rem = str_chars(text);
    loop
        invariant_except_break
            limit >= 2,
            v@ + wrap_spec(rem@, limit as int) == old(v)@ + wrap_spec(text@, limit as int),
        ensures
            v@ == old(v)@ + wrap_spec(text@, limit as int),
        decreases rem@.len(),
    {
        if rem.len() == 0 {
            assert(wrap_spec(rem@, limit as int) =~= Seq::<char>::empty());
            break;
        }
        if rem.len() < limit {
            push_chars(v, &rem);
            break;
        }
        let ghost r = rem@;
        proof {
            lemma_last_space_bounds(r, limit as int);
        }
        let (line, rest) = match last_space(&rem, limit) {
            Some(w) => {
                let after = copy_range(&rem, w + 1, rem.len());
                let s = skip_whitespace(&after, 0);
                proof {
                    lemma_skip_ws_range(after@, 0);
                    assert(after@ =~= r.skip(w + 1));
                }
                let rest = copy_range(&after, s, after.len());
                proof {
                    assert(rest@ =~= r.skip(w + 1).skip(skip_ws(r.skip(w + 1), 0)));
                }
                (copy_range(&rem, 0, w), rest)
            },
            None => {
                let line = copy_range(&rem, 0, limit - 1);
                let rest = copy_range(&rem, limit - 1, rem.len());
                proof {
                    assert(rest@ =~= r.skip(limit - 1));
                }
                (line, rest)
            },
        };
        proof {
            assert(rest@.len() < r.len());
            match last_space_before(r, limit as int) {
                Some(w) => {
                    assert(line@ =~= r.take(w));
                },
                None => {
                    assert(line@ =~= r.take(limit - 1));
                },
            }
        }
        let ghost before = v@;
        push_chars(v, &line);
        if rest.len() > 0 {
            push_str(v, "\n - ");
            proof {
                assert(v@ + wrap_spec(rest@, limit as int) =~= before + wrap_spec(r, limit as int));
            }
        } else {
            proof {
                assert(wrap_spec(rest@, limit as int) =~= Seq::<char>::empty());
                assert(v@ + wrap_spec(rest@, limit as int) =~= before + wrap_spec(r, limit as int));
            }
        }
        rem = rest;
    }
}

/// A message as printed (see `message_spec`), for a terminal at least
/// six columns wide.
pub fn print_message(header: &str, stamp: &str, text: &str, width: usize) -> (r: String)
    requires
        width >= 6,
    ensures
        r@ == message_spec(header@, stamp@, text@, width as int),
{
    let mut v: Vec<char> = Vec::new();
    push_str(&mut v, header);
    push_str(&mut v, " [");
    push_str(&mut v, stamp);
    push_str(&mut v, "]\n - ");
    push_wrapped(&mut v, text, width - 4);
    push_str(&mut v, "\n");
    assert(v@ =~= message_spec(header@, stamp@, text@, width as int));
    string_from_chars(v)
}

/// Whether a message is private to the reader (see `is_private_spec`).
pub fn is_private(kind: MessageType, to_me: bool, private_discussion: bool) -> (r: bool)
    ensures
        r == is_private_spec(kind, to_me, private_discussion),
{
    match kind {
        MessageType::Private => to_me || private_discussion,
        MessageType::Public => false,
    }
}


/// Which sendlist a message goes to.
#[derive(Debug, Clone, Copy, PartialEq, Eq, Structural)]
pub enum SendlistChoice {
    /// None was typed: the last one used.
    Last,
    /// `default` was typed: the default sendlist.
    Default,
    /// The one typed.
    Typed,
    /// None was typed and none was used before.
    NoLast,
    /// `default` was typed and there is no default sendlist.
    NoDefault,
}

/// Which sendlist a message goes to, given the sendlist typed before it
/// and whether the sender has a last and a default sendlist.
pub open spec fn sendlist_choice_spec(typed: Seq<char>, has_last: bool, has_default: bool) -> SendlistChoice {
    if typed.len() == 0 {
        if has_last {
            SendlistChoice::Last
        } else {
            SendlistChoice::NoLast
        }
    } else if seq_eq_ic(typed, "default"@) {
        if has_default {
            SendlistChoice::Default
        } else {
            SendlistChoice::NoDefault
        }
    } else {
        SendlistChoice::Typed
    }
}

/// Which sendlist a message goes to (see `sendlist_choice_spec`).
pub fn sendlist_choice(typed: &str, has_last: bool, has_default: bool) -> (r: SendlistChoice)
    ensures
        r == sendlist_choice_spec(typed@, has_last, has_default),
{
    let t = str_chars(typed);
    if t.len() == 0 {
        if has_last {
            SendlistChoice::Last
        } else {
            SendlistChoice::NoLast
        }
    } else if chars_eq_ignore_ascii_case(&t, &str_chars("default")) {
        if has_default {
            SendlistChoice::Default
        } else {
            SendlistChoice::NoDefault
        }
    } else {
        SendlistChoice::Typed
    }
}

/// What the sender is told when a message cannot go out for want of a
/// sendlist (`NoLast` or `NoDefault`; nothing for the other choices).
pub open spec fn no_sendlist_spec(choice: SendlistChoice) -> Seq<char> {
    match choice {
        SendlistChoice::NoLast => "\u{7}\u{7}You have no previous sendlist. (message not sent)\n"@,
        SendlistChoice::NoDefault => "\u{7}\u{7}You have no default sendlist. (message not sent)\n"@,
        _ => Seq::empty(),
    }
}

/// What the sender is told when a message cannot go out for want of a
/// sendlist (see `no_sendlist_spec`).
pub fn no_sendlist_text(choice: SendlistChoice) -> (r: String)
    ensures
        r@ == no_sendlist_spec(choice),
{
    match choice {
        SendlistChoice::NoLast => String::from_str("\u{7}\u{7}You have no previous sendlist. (message not sent)\n"),
        SendlistChoice::NoDefault => String::from_str("\u{7}\u{7}You have no default sendlist. (message not sent)\n"),
        _ => String::new(),
    }
}

/// What the sender is told when nothing follows the sendlist: `typed` is
/// the sendlist as typed before the text, `shown` the sendlist as it was
/// understood, `explicit` whether a `:` ended it (else a `;`).
pub open spec fn no_message_spec(typed: Seq<char>, shown: Seq<char>, explicit: bool) -> Seq<char> {
    if typed == "default"@ {
        "\u{7}\u{7}There is no message after \"default\". (message not sent)\n"@
    } else {
        "\u{7}\u{7}There is no message after \""@ + shown + (if explicit {
            ":"@
        } else {
            ";"@
        }) + "\". (message not sent)\n"@
    }
}

/// What the sender is told when nothing follows the sendlist (see
/// `no_message_spec`).
pub fn no_message_text(typed: &str, shown: &str, explicit: bool) -> (r: String)
    ensures
        r@ == no_message_spec(typed@, shown@, explicit),
{
    proof {
        reveal_strlit("default");
    }
    let t = str_chars(typed);
    let d = str_chars("default");
    let mut same = t.len() == d.len();
    let mut i: usize = 0;
    while same && i < t.len()
        invariant
            t@ == typed@,
            d@ == "default"@,
            i <= t.len(),
            same ==> t.len() == d.len(),
            same == (t.len() == d.len() && forall|j: int| 0 <= j < i ==> t@[j] == d@[j]),
        decreases t.len() - i,
    {
        if t[i] != d[i] {
            same = false;
        }
        i += 1;
    }
    proof {
        if same {
            assert(typed@ =~= "default"@);
        }
        if typed@ == "default"@ {
            assert(t.len() == d.len());
            assert(forall|j: int| 0 <= j < t.len() ==> t@[j] == d@[j]);
        }
    }
    if same {
        String::from_str("\u{7}\u{7}There is no message after \"default\". (message not sent)\n")
    } else {
        let mut v: Vec<char> = Vec::new();
        push_str(&mut v, "\u{7}\u{7}There is no message after \"");
        push_str(&mut v, shown);
        if explicit {
            push_str(&mut v, ":");
        } else {
            push_str(&mut v, ";");
        }
        push_str(&mut v, "\". (message not sent)\n");
        string_from_chars(v)
    }
}

} // verus!
