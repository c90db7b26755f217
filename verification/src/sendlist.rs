//! Sendlists: finding the explicit sendlist at the start of a message,
//! turning the typed sendlist into its entries, and reporting entries that
//! matched no one or more than one recipient.

use vstd::prelude::*;
use vstd::string::StrSliceExecFns;
use crate::chars::{
    is_ws, alphabetic, char_is_alphabetic, is_whitespace, str_chars, string_from_chars,
    chars_equal_str, push_str, push_chars,
};
use crate::session::{digits, push_digits};
use crate::name::{name_before, name_eq, same_text, text_before};
use crate::sendable::{Candidate, find_sendable_spec, find_sendable};
use crate::constants::{UNQUOTED_UNDERSCORE, SEPARATOR};
use crate::words::{find_stop, trim, trim_spec};
use crate::discussion::{key_set, key_set_new, key_set_insert, key_set_remove, key_set_contains, key_set_keys};
use vstd::string::StringExecFns;

verus! {

/// The smileys that are not taken for a sendlist.
pub open spec fn is_smiley(s: Seq<char>) -> bool {
    ||| s == ":-)"@
    ||| s == ":-("@
    ||| s == ":-P"@
    ||| s == ";-)"@
    ||| s == ":_)"@
    ||| s == ":_("@
    ||| s == ":)"@
    ||| s == ":("@
    ||| s == ":P"@
    ||| s == ";)"@
}

/// The default sendlist name.
pub open spec fn default_name() -> Seq<char> {
    "default"@
}

/// The result of `message_start`: the message text, the sendlist, the last
/// explicit sendlist and whether the sendlist was explicit.
pub type StartSpec = (Seq<char>, Seq<char>, Seq<char>, bool);

/// No explicit sendlist: the whole line (less one leading space) is the
/// message for the default sendlist.
pub open spec fn default_start(line: Seq<char>) -> StartSpec {
    if line.len() > 0 && line[0] == ' ' {
        (line.subrange(1, line.len() as int), default_name(), Seq::empty(), false)
    } else {
        (line, default_name(), Seq::empty(), false)
    }
}

/// Drops one leading space.
pub open spec fn drop_one_space(s: Seq<char>) -> Seq<char> {
    if s.len() > 0 && s[0] == ' ' {
        s.subrange(1, s.len() as int)
    } else {
        s
    }
}

/// Scanning the line for an explicit sendlist from position `i`, with the
/// sendlist collected so far in `acc`, inside or outside double quotes.
pub open spec fn scan(line: Seq<char>, i: int, acc: Seq<char>, in_quote: bool) -> StartSpec
    decreases line.len() - i,
{
    if i < 0 || i >= line.len() {
        default_start(line)
    } else if in_quote {
        let c = line[i];
        if c == '"' {
            scan(line, i + 1, acc, false)
        } else if c == '\\' {
            if i + 1 < line.len() {
                scan(line, i + 2, acc.push(line[i + 1]), true)
            } else {
                scan(line, i + 1, acc, true)
            }
        } else {
            scan(line, i + 1, acc.push(c), true)
        }
    } else {
        let c = line[i];
        if c == ' ' || c == '\t' {
            default_start(line)
        } else if c == ':' || c == ';' {
            (drop_one_space(line.subrange(i + 1, line.len() as int)), acc, acc, true)
        } else if c == '\\' {
            if i + 1 < line.len() {
                scan(line, i + 2, acc.push(line[i + 1]), false)
            } else {
                (line, default_name(), Seq::empty(), false)
            }
        } else if c == '"' {
            scan(line, i + 1, acc, true)
        } else if c == '_' {
            scan(line, i + 1, acc.push(UNQUOTED_UNDERSCORE), false)
        } else if c == ',' {
            scan(line, i + 1, acc.push(SEPARATOR), false)
        } else {
            scan(line, i + 1, acc.push(c), false)
        }
    }
}

/// Whether the line starts with one of the smileys (up to the first
/// whitespace), checked only when it does not start with a letter or
/// whitespace.
pub open spec fn starts_with_smiley(line: Seq<char>) -> bool {
    &&& !(line.len() > 0 && (alphabetic(line[0]) || is_ws(line[0])))
    &&& is_smiley(line.subrange(0, find_stop(line, 0, None)))
}

/// Where the message text starts after a possible explicit sendlist.
pub open spec fn message_start_spec(line: Seq<char>) -> StartSpec {
    if starts_with_smiley(line) {
        (line, default_name(), Seq::empty(), false)
    } else {
        scan(line, 0, Seq::empty(), false)
    }
}

/// What every result of `message_start_spec` is like: the message text is
/// a suffix of the line, and the last explicit sendlist is the sendlist
/// when it is explicit, empty (with "default" as the sendlist) otherwise.
pub open spec fn start_consistent(line: Seq<char>, r: StartSpec) -> bool {
    &&& exists|k: int| 0 <= k <= line.len() && r.0 == #[trigger] line.subrange(k, line.len() as int)
    &&& r.3 ==> r.2 == r.1
    &&& !r.3 ==> r.1 == default_name() && r.2 == Seq::<char>::empty()
}

proof fn lemma_default_start_consistent(line: Seq<char>)
    ensures
        start_consistent(line, default_start(line)),
{
    if line.len() > 0 && line[0] == ' ' {
        assert(line.subrange(1, line.len() as int) == line.subrange(1, line.len() as int));
    } else {
        assert(line == line.subrange(0, line.len() as int));
    }
}

proof fn lemma_scan_consistent(line: Seq<char>, i: int, acc: Seq<char>, in_quote: bool)
    requires
        0 <= i,
    ensures
        start_consistent(line, scan(line, i, acc, in_quote)),
    decreases line.len() - i,
{
    lemma_default_start_consistent(line);
    if i >= line.len() {
    } else if in_quote {
        let c = line[i];
        if c == '\\' && i + 1 < line.len() {
            lemma_scan_consistent(line, i + 2, acc.push(line[i + 1]), true);
        } else if c == '"' {
            lemma_scan_consistent(line, i + 1, acc, false);
        } else if c == '\\' {
            lemma_scan_consistent(line, i + 1, acc, true);
        } else {
            lemma_scan_consistent(line, i + 1, acc.push(c), true);
        }
    } else {
        let c = line[i];
        if c == ' ' || c == '\t' {
        } else if c == ':' || c == ';' {
            let rest = line.subrange(i + 1, line.len() as int);
            if rest.len() > 0 && rest[0] == ' ' {
                assert(drop_one_space(rest) == line.subrange(i + 2, line.len() as int));
            } else {
                assert(drop_one_space(rest) == line.subrange(i + 1, line.len() as int));
            }
        } else if c == '\\' {
            if i + 1 < line.len() {
                lemma_scan_consistent(line, i + 2, acc.push(line[i + 1]), false);
            } else {
                assert(line == line.subrange(0, line.len() as int));
            }
        } else if c == '"' {
            lemma_scan_consistent(line, i + 1, acc, true);
        } else if c == '_' {
            lemma_scan_consistent(line, i + 1, acc.push(UNQUOTED_UNDERSCORE), false);
        } else if c == ',' {
            lemma_scan_consistent(line, i + 1, acc.push(SEPARATOR), false);
        } else {
            lemma_scan_consistent(line, i + 1, acc.push(c), false);
        }
    }
}

/// For every line, the message text `message_start` finds is a suffix of
/// the line, and the last explicit sendlist is the sendlist when it is
/// explicit, while an implicit one is "default" with no last explicit
/// sendlist.
pub proof fn lemma_message_start_consistent(line: Seq<char>)
    ensures
        start_consistent(line, message_start_spec(line)),
{
    if starts_with_smiley(line) {
        assert(line == line.subrange(0, line.len() as int));
    } else {
        lemma_scan_consistent(line, 0, Seq::empty(), false);
    }
}

proof fn lemma_find_stop_le(s: Seq<char>, i: int)
    requires
        0 <= i <= s.len(),
    ensures
        i <= find_stop(s, i, None) <= s.len(),
    decreases s.len() - i,
{
    if i < s.len() && !crate::words::is_stop(s[i], None) {
        lemma_find_stop_le(s, i + 1);
    }
}

fn is_smiley_exec(v: &Vec<char>) -> (r: bool)
    ensures
        r == is_smiley(v@),
{
    chars_equal_str(v, ":-)") || chars_equal_str(v, ":-(") || chars_equal_str(v, ":-P")
        || chars_equal_str(v, ";-)") || chars_equal_str(v, ":_)") || chars_equal_str(v, ":_(")
        || chars_equal_str(v, ":)") || chars_equal_str(v, ":(") || chars_equal_str(v, ":P")
        || chars_equal_str(v, ";)")
}

fn default_sendlist_name() -> (r: String)
    ensures
        r@ == default_name(),
{
    String::from_str("default")
}

fn default_start_exec<'a>(line: &'a str, n: usize, cs: &Vec<char>) -> (r: (
    &'a str,
    String,
    String,
    bool,
))
    requires
        n == line@.len(),
        cs@ == line@,
    ensures
        (r.0@, r.1@, r.2@, r.3) == default_start(line@),
{
    if n > 0 && cs[0] == ' ' {
        (line.substring_char(1, n), default_sendlist_name(), String::new(), false)
    } else {
        (line, default_sendlist_name(), String::new(), false)
    }
}

/// Finds the start of the message text after a possible explicit sendlist
/// (names up to a `:` or `;`), returning the message text, the sendlist
/// ("default" when there is no explicit one), the last explicit sendlist
/// and whether the sendlist was explicit.  A few smileys are not taken for
/// a sendlist.
pub fn message_start<'a>(line: &'a str) -> (r: (&'a str, String, String, bool))
    ensures
        (r.0@, r.1@, r.2@, r.3) == message_start_spec(line@),
{
    let cs = str_chars(line);
    let n = cs.len();

    // Smileys are not sendlists.
    if !(n > 0 && (char_is_alphabetic(cs[0]) || is_whitespace(cs[0]))) {
        let mut end: usize = 0;
        while end < n && !is_whitespace(cs[end])
            invariant
                n == cs.len(),
                end <= n,
                find_stop(cs@, 0, None) == find_stop(cs@, end as int, None),
            decreases n - end,
        {
            end += 1;
        }
        let mut initial: Vec<char> = Vec::new();
        let mut k: usize = 0;
        while k < end
            invariant
                end <= n,
                n == cs.len(),
                k <= end,
                initial@ == cs@.subrange(0, k as int),
            decreases end - k,
        {
            initial.push(cs[k]);
            k += 1;
        }
        if is_smiley_exec(&initial) {
            return (line, default_sendlist_name(), String::new(), false);
        }
    }

    let mut acc: Vec<char> = Vec::new();
    let mut in_quote = false;
    let mut i: usize = 0;
    while i < n
        invariant
            n == cs.len(),
            cs@ == line@,
            i <= n,
            message_start_spec(line@) == scan(line@, i as int, acc@, in_quote),
        decreases n - i,
    {
        let c = cs[i];
        if in_quote {
            if c == '"' {
                in_quote = false;
                i += 1;
            } else if c == '\\' {
                if i + 1 < n {
                    acc.push(cs[i + 1]);
                    i += 2;
                } else {
                    i += 1;
                }
            } else {
                acc.push(c);
                i += 1;
            }
        } else {
            if c == ' ' || c == '\t' {
                return default_start_exec(line, n, &cs);
            } else if c == ':' || c == ';' {
                let start = if i + 1 < n && cs[i + 1] == ' ' {
                    i + 2
                } else {
                    i + 1
                };
                let sendlist = string_from_chars(acc.clone());
                let last = string_from_chars(acc);
                assert(drop_one_space(line@.subrange(i + 1, n as int)) == line@.subrange(
                    start as int,
                    n as int,
                ));
                return (line.substring_char(start, n), sendlist, last, true);
            } else if c == '\\' {
                if i + 1 < n {
                    acc.push(cs[i + 1]);
                    i += 2;
                } else {
                    return (line, default_sendlist_name(), String::new(), false);
                }
            } else if c == '"' {
                in_quote = true;
                i += 1;
            } else if c == '_' {
                acc.push(UNQUOTED_UNDERSCORE);
                i += 1;
            } else if c == ',' {
                acc.push(SEPARATOR);
                i += 1;
            } else {
                acc.push(c);
                i += 1;
            }
        }
    }
    default_start_exec(line, n, &cs)
}

} // verus!

verus! {

// ---------------------------------------------------------------------------
// The entries of a typed sendlist
// ---------------------------------------------------------------------------

/// The position of the first separator at or after `i` (the length when
/// there is none).
pub open spec fn find_sep(s: Seq<char>, i: int) -> int
    decreases s.len() - i,
{
    if i < 0 || i >= s.len() {
        s.len() as int
    } else if s[i] == SEPARATOR {
        i
    } else {
        find_sep(s, i + 1)
    }
}

/// Where the next separator is.
pub proof fn lemma_find_sep_bounds(s: Seq<char>, i: int)
    requires
        0 <= i <= s.len(),
    ensures
        i <= find_sep(s, i) <= s.len(),
        find_sep(s, i) < s.len() ==> s[find_sep(s, i)] == SEPARATOR,
    decreases s.len() - i,
{
    if i < s.len() && s[i] != SEPARATOR {
        lemma_find_sep_bounds(s, i + 1);
    }
}

/// The entries of `s` from position `i` on: the pieces between separators,
/// trimmed, leaving out the empty ones.
pub open spec fn parts_from(s: Seq<char>, i: int) -> Seq<Seq<char>>
    decreases s.len() - i,
{
    if i < 0 || i > s.len() {
        Seq::empty()
    } else {
        let k = find_sep(s, i);
        let piece = trim_spec(s.subrange(i, k));
        let rest = if k < s.len() {
            proof {
                lemma_find_sep_bounds(s, i);
            }
            parts_from(s, k + 1)
        } else {
            Seq::empty()
        };
        if piece.len() > 0 {
            seq![piece] + rest
        } else {
            rest
        }
    }
}

/// The entries of a typed sendlist.
pub open spec fn sendlist_parts(s: Seq<char>) -> Seq<Seq<char>> {
    parts_from(s, 0)
}

/// The entries of a typed sendlist: split at the separators, trimmed, the
/// empty ones left out.
pub fn split_sendlist(typed: &str) -> (r: Vec<String>)
    ensures
        r@.map_values(|p: String| p@) == sendlist_parts(typed@),
{
    let cs = str_chars(typed);
    let n = cs.len();
    let mut out: Vec<String> = Vec::new();
    let mut i: usize = 0;
    loop
        invariant_except_break
            i <= n,
            n == cs@.len(),
            cs@ == typed@,
            out@.map_values(|p: String| p@) + parts_from(cs@, i as int) == parts_from(cs@, 0),
        ensures
            out@.map_values(|p: String| p@) == parts_from(typed@, 0),
        decreases n - i,
    {
        let mut k: usize = i;
        while k < n && cs[k] != SEPARATOR
            invariant
                i <= k <= n,
                n == cs@.len(),
                find_sep(cs@, i as int) == find_sep(cs@, k as int),
            decreases n - k,
        {
            k += 1;
        }
        proof {
            lemma_find_sep_bounds(cs@, i as int);
        }
        let piece = trim(typed.substring_char(i, k));
        let ghost before = out@;
        if piece.unicode_len() > 0 {
            out.push(String::from_str(piece));
            proof {
                assert(out@.map_values(|p: String| p@) =~= before.map_values(|p: String| p@).push(
                    piece@,
                ));
            }
        }
        if k == n {
            proof {
                assert(parts_from(cs@, i as int) == (if piece@.len() > 0 {
                    seq![piece@]
                } else {
                    Seq::empty()
                }));
                assert(out@.map_values(|p: String| p@) =~= before.map_values(|p: String| p@) + (
                if piece@.len() > 0 {
                    seq![piece@]
                } else {
                    Seq::empty()
                }));
            }
            break;
        }
        proof {
            assert(parts_from(cs@, i as int) == (if piece@.len() > 0 {
                seq![piece@]
            } else {
                Seq::empty()
            }) + parts_from(cs@, k + 1));
            assert(out@.map_values(|p: String| p@) + parts_from(cs@, k + 1) =~= before.map_values(
                |p: String| p@,
            ) + parts_from(cs@, i as int));
        }
        i = k + 1;
    }
    out
}

} // verus!

verus! {

// ---------------------------------------------------------------------------
// Reporting entries that matched no one or more than one recipient
// ---------------------------------------------------------------------------

/// An entry as shown back: unquoted underscores as underscores again.
pub open spec fn shown_part(p: Seq<char>) -> Seq<char> {
    p.map_values(|c: char| if c == UNQUOTED_UNDERSCORE { '_' } else { c })
}

/// What stands before item `i` of `n` in a list: nothing before the first,
/// `last` before the last, `mid` before the others.
pub open spec fn list_sep(i: int, n: int, mid: Seq<char>, last: Seq<char>) -> Seq<char> {
    if i == 0 {
        Seq::empty()
    } else if i == n - 1 {
        last
    } else {
        mid
    }
}

/// The first `k` items of `s` with their separators.
pub open spec fn join_upto(s: Seq<Seq<char>>, k: int, mid: Seq<char>, last: Seq<char>) -> Seq<char>
    decreases k,
{
    if k <= 0 {
        Seq::empty()
    } else {
        join_upto(s, k - 1, mid, last) + list_sep(k - 1, s.len() as int, mid, last) + s[k - 1]
    }
}

/// The items of `s` joined: "a, b, c and d" for `mid` ", " and `last`
/// " and ".
pub open spec fn join_list(s: Seq<Seq<char>>, mid: Seq<char>, last: Seq<char>) -> Seq<char> {
    join_upto(s, s.len() as int, mid, last)
}

/// "" for one, "s" for more.
pub open spec fn plural_s(n: nat) -> Seq<char> {
    if n == 1 {
        ""@
    } else {
        "s"@
    }
}

/// The report for an entry that matched several names (`sn`) or
/// discussions (`dn`), or none.
pub open spec fn match_error(part: Seq<char>, sn: Seq<Seq<char>>, dn: Seq<Seq<char>>) -> Seq<char> {
    let ns = sn.len();
    let nd = dn.len();
    let head = if ns > 0 {
        "\""@ + part + "\" matches "@ + digits(ns) + " name"@ + plural_s(ns) + ": "@ + join_list(
            sn,
            ", "@,
            " and "@,
        ) + if nd > 0 {
            "; and "@
        } else {
            ".\n"@
        }
    } else if nd > 0 {
        "\""@ + part + "\" matches "@
    } else {
        Seq::empty()
    };
    let tail = if nd > 0 {
        digits(nd) + " discussion"@ + plural_s(nd) + ": "@ + join_list(dn, ", "@, " and "@) + ".\n"@
    } else {
        Seq::empty()
    };
    head + tail
}

/// The report for the entries that matched no one at all.
pub open spec fn unmatched_text(nm: Seq<Seq<char>>) -> Seq<char> {
    if nm.len() == 0 {
        Seq::empty()
    } else {
        "No names matched \""@ + join_list(nm, "\", \""@, "\" or \""@) + "\".\n"@
    }
}

/// Where `p` goes in `nm`: after the leading names that come before it in
/// the order of names.
pub open spec fn insert_pos(nm: Seq<Seq<char>>, p: Seq<char>) -> int
    decreases nm.len(),
{
    if nm.len() == 0 {
        0
    } else if name_before(nm[0], p) {
        1 + insert_pos(nm.drop_first(), p)
    } else {
        0
    }
}

/// `nm`, kept in the order of names, with `p` added: it replaces the name
/// at its place that compares equal to it, or is inserted there.
pub open spec fn add_unmatched(nm: Seq<Seq<char>>, p: Seq<char>) -> Seq<Seq<char>> {
    let j = insert_pos(nm, p);
    if j < nm.len() && name_eq(nm[j], p) {
        nm.update(j, p)
    } else {
        nm.insert(j, p)
    }
}

proof fn lemma_insert_pos_bounds(nm: Seq<Seq<char>>, p: Seq<char>)
    ensures
        0 <= insert_pos(nm, p) <= nm.len(),
    decreases nm.len(),
{
    if nm.len() > 0 && name_before(nm[0], p) {
        lemma_insert_pos_bounds(nm.drop_first(), p);
    }
}

fn push_list_sep(v: &mut Vec<char>, i: usize, n: usize, mid: &str, last: &str)
    ensures
        final(v)@ == old(v)@ + list_sep(i as int, n as int, mid@, last@),
{
    if i == 0 {
        assert(old(v)@ + Seq::<char>::empty() =~= old(v)@);
    } else if n > 0 && i == n - 1 {
        push_str(v, last);
    } else {
        push_str(v, mid);
    }
}

/// Appends the items joined (see `join_list`).
fn push_joined(v: &mut Vec<char>, items: &Vec<String>, mid: &str, last: &str)
    ensures
        final(v)@ == old(v)@ + join_list(items@.map_values(|s: String| s@), mid@, last@),
{
    let ghost s = items@.map_values(|s: String| s@);
    let mut i: usize = 0;
    while i < items.len()
        invariant
            i <= items.len(),
            s == items@.map_values(|s: String| s@),
            v@ == old(v)@ + join_upto(s, i as int, mid@, last@),
        decreases items.len() - i,
    {
        let ghost mid_v = v@;
        push_list_sep(v, i, items.len(), mid, last);
        push_str(v, items[i].as_str());
        proof {
            assert(v@ =~= old(v)@ + join_upto(s, i + 1, mid@, last@));
        }
        i += 1;
    }
}

} // verus!

verus! {

// ---------------------------------------------------------------------------
// Setting a sendlist
// ---------------------------------------------------------------------------

/// What setting a sendlist gathers: the sessions, the discussions, the
/// reports so far and the entries that matched no one.
pub type SetState = (Set<u64>, Set<u64>, Seq<char>, Seq<Seq<char>>);

/// The keys of the candidates at the given indices.
pub open spec fn keys_of(c: Seq<Candidate>, idx: Seq<int>) -> Set<u64> {
    idx.map_values(|i: int| c[i].key).to_set()
}

/// The names of the candidates at the given indices, in order.
pub open spec fn names_of(c: Seq<Candidate>, idx: Seq<int>) -> Seq<Seq<char>> {
    idx.map_values(|i: int| c[i].name@)
}

/// One entry's part in setting a sendlist: the recipient it picks out is
/// added; with `multi`, every match is; otherwise the entry is reported.
pub open spec fn set_step(
    st: SetState,
    part: Seq<char>,
    me: u64,
    sessions: Seq<Candidate>,
    discussions: Seq<Candidate>,
    multi: bool,
    do_sessions: bool,
    do_discussions: bool,
) -> SetState {
    let f = find_sendable_spec(part, sessions, discussions, !multi, false, do_sessions, do_discussions);
    if f.0 {
        (st.0.insert(me), st.1, st.2, st.3)
    } else if f.1.is_some() {
        (st.0.insert(sessions[f.1.unwrap()].key), st.1, st.2, st.3)
    } else if f.3.is_some() {
        (st.0, st.1.insert(discussions[f.3.unwrap()].key), st.2, st.3)
    } else if multi {
        (st.0 + keys_of(sessions, f.2), st.1 + keys_of(discussions, f.4), st.2, st.3)
    } else {
        let p = shown_part(part);
        let sn = names_of(sessions, f.2);
        let dn = names_of(discussions, f.4);
        (
            st.0,
            st.1,
            st.2 + match_error(p, sn, dn),
            if sn.len() == 0 && dn.len() == 0 {
                add_unmatched(st.3, p)
            } else {
                st.3
            },
        )
    }
}

/// Setting a sendlist entry by entry.
pub open spec fn set_fold(
    parts: Seq<Seq<char>>,
    me: u64,
    sessions: Seq<Candidate>,
    discussions: Seq<Candidate>,
    multi: bool,
    do_sessions: bool,
    do_discussions: bool,
) -> SetState
    decreases parts.len(),
{
    if parts.len() == 0 {
        (Set::empty(), Set::empty(), Seq::empty(), Seq::empty())
    } else {
        set_step(
            set_fold(parts.drop_last(), me, sessions, discussions, multi, do_sessions, do_discussions),
            parts.last(),
            me,
            sessions,
            discussions,
            multi,
            do_sessions,
            do_discussions,
        )
    }
}

/// Adds `k` unless `v` holds it.
fn insert_key(v: &mut Vec<u64>, k: u64)
    ensures
        final(v)@.to_set() == old(v)@.to_set().insert(k),
        old(v)@.no_duplicates() ==> final(v)@.no_duplicates(),
{
    let mut i: usize = 0;
    while i < v.len()
        invariant
            i <= v.len(),
            forall|j: int| 0 <= j < i ==> v@[j] != k,
        decreases v.len() - i,
    {
        if v[i] == k {
            proof {
                assert(v@.to_set().contains(k));
                assert(v@.to_set().insert(k) =~= v@.to_set());
            }
            return;
        }
        i += 1;
    }
    let ghost before = v@;
    v.push(k);
    proof {
        before.lemma_push_to_set_commute(k);
        assert(v@ == before.push(k));
    }
}

/// Adds the keys of the candidates at `idx`.
fn insert_keys(v: &mut Vec<u64>, c: &Vec<Candidate>, idx: &Vec<usize>)
    requires
        forall|j: int| 0 <= j < idx@.len() ==> #[trigger] idx@[j] < c@.len(),
    ensures
        final(v)@.to_set() == old(v)@.to_set() + keys_of(c@, idx@.map_values(|i: usize| i as int)),
        old(v)@.no_duplicates() ==> final(v)@.no_duplicates(),
{
    let ghost m = idx@.map_values(|i: usize| i as int);
    let mut j: usize = 0;
    while j < idx.len()
        invariant
            j <= idx.len(),
            m == idx@.map_values(|i: usize| i as int),
            forall|t: int| 0 <= t < idx@.len() ==> #[trigger] idx@[t] < c@.len(),
            v@.to_set() == old(v)@.to_set() + keys_of(c@, m.take(j as int)),
            old(v)@.no_duplicates() ==> v@.no_duplicates(),
        decreases idx.len() - j,
    {
        let k = c[idx[j]].key;
        insert_key(v, k);
        proof {
            let f = |i: int| c@[i].key;
            assert(m.take(j + 1) =~= m.take(j as int).push(m[j as int]));
            assert(m.take(j + 1).map_values(f) =~= m.take(j as int).map_values(f).push(k));
            m.take(j as int).map_values(f).lemma_push_to_set_commute(k);
            assert(v@.to_set() =~= old(v)@.to_set() + keys_of(c@, m.take(j + 1)));
        }
        j += 1;
    }
    proof {
        assert(m.take(j as int) =~= m);
    }
}

/// The names of the candidates at `idx`.
fn names_at(c: &Vec<Candidate>, idx: &Vec<usize>) -> (r: Vec<String>)
    requires
        forall|j: int| 0 <= j < idx@.len() ==> #[trigger] idx@[j] < c@.len(),
    ensures
        r@.map_values(|s: String| s@) == names_of(c@, idx@.map_values(|i: usize| i as int)),
{
    let ghost m = idx@.map_values(|i: usize| i as int);
    let mut out: Vec<String> = Vec::new();
    let mut j: usize = 0;
    while j < idx.len()
        invariant
            j <= idx.len(),
            m == idx@.map_values(|i: usize| i as int),
            forall|t: int| 0 <= t < idx@.len() ==> #[trigger] idx@[t] < c@.len(),
            out@.map_values(|s: String| s@) == names_of(c@, m.take(j as int)),
        decreases idx.len() - j,
    {
        let ghost before = out@;
        let nm = c[idx[j]].name.clone();
        out.push(nm);
        proof {
            let f = |i: int| c@[i].name@;
            assert(m.take(j + 1) =~= m.take(j as int).push(m[j as int]));
            assert(m.take(j + 1).map_values(f) =~= m.take(j as int).map_values(f).push(nm@));
            assert(out@.map_values(|s: String| s@) =~= before.map_values(|s: String| s@).push(nm@));
            assert(out@.map_values(|s: String| s@) =~= names_of(c@, m.take(j + 1)));
        }
        j += 1;
    }
    proof {
        assert(m.take(j as int) =~= m);
    }
    out
}

/// An entry as shown back (see `shown_part`).
fn show_part(p: &str) -> (r: Vec<char>)
    ensures
        r@ == shown_part(p@),
{
    let cs = str_chars(p);
    let mut out: Vec<char> = Vec::new();
    let mut i: usize = 0;
    while i < cs.len()
        invariant
            i <= cs.len(),
            cs@ == p@,
            out@ == shown_part(p@.take(i as int)),
        decreases cs.len() - i,
    {
        let c = cs[i];
        out.push(if c == UNQUOTED_UNDERSCORE { '_' } else { c });
        proof {
            assert(p@.take(i + 1) =~= p@.take(i as int).push(c));
            assert(out@ =~= shown_part(p@.take(i + 1)));
        }
        i += 1;
    }
    proof {
        assert(p@.take(i as int) =~= p@);
    }
    out
}

/// Appends the report for an entry (see `match_error`).
#[verifier::rlimit(40)]
fn push_match_error(v: &mut Vec<char>, part: &Vec<char>, sn: &Vec<String>, dn: &Vec<String>)
    ensures
        final(v)@ == old(v)@ + match_error(
            part@,
            sn@.map_values(|s: String| s@),
            dn@.map_values(|s: String| s@),
        ),
{
    let ghost s = sn@.map_values(|s: String| s@);
    let ghost d = dn@.map_values(|s: String| s@);
    let ns = sn.len();
    let nd = dn.len();
    let ghost head: Seq<char>;
    if ns > 0 {
        push_str(v, "\"");
        push_chars(v, part);
        push_str(v, "\" matches ");
        push_digits(v, ns as u64);
        push_str(v, " name");
        if ns == 1 {
            push_str(v, "");
        } else {
            push_str(v, "s");
        }
        push_str(v, ": ");
        push_joined(v, sn, ", ", " and ");
        if nd > 0 {
            push_str(v, "; and ");
        } else {
            push_str(v, ".\n");
        }
        proof {
            head = "\""@ + part@ + "\" matches "@ + digits(ns as nat) + " name"@ + plural_s(ns as nat)
                + ": "@ + join_list(s, ", "@, " and "@) + if nd > 0 {
                "; and "@
            } else {
                ".\n"@
            };
            assert(v@ =~= old(v)@ + head);
        }
    } else if nd > 0 {
        push_str(v, "\"");
        push_chars(v, part);
        push_str(v, "\" matches ");
        proof {
            head = "\""@ + part@ + "\" matches "@;
            assert(v@ =~= old(v)@ + head);
        }
    } else {
        proof {
            head = Seq::empty();
            assert(v@ =~= old(v)@ + head);
        }
    }
    let ghost mid = v@;
    if nd > 0 {
        push_digits(v, nd as u64);
        push_str(v, " discussion");
        if nd == 1 {
            push_str(v, "");
        } else {
            push_str(v, "s");
        }
        push_str(v, ": ");
        push_joined(v, dn, ", ", " and ");
        push_str(v, ".\n");
        proof {
            assert(v@ =~= mid + (digits(nd as nat) + " discussion"@ + plural_s(nd as nat) + ": "@
                + join_list(d, ", "@, " and "@) + ".\n"@));
        }
    }
    proof {
        assert(v@ =~= old(v)@ + match_error(part@, s, d));
    }
}

/// An entry as shown back (see `shown_part`).
pub fn show_part_text(p: &str) -> (r: Vec<char>)
    ensures
        r@ == shown_part(p@),
{
    show_part(p)
}

/// Adds an entry that matched no one at its place in the order of names,
/// replacing one that compares equal to it.
fn add_unmatched_exec(nm: &mut Vec<String>, p: &Vec<char>)
    ensures
        final(nm)@.map_values(|s: String| s@) == add_unmatched(old(nm)@.map_values(|s: String| s@), p@),
{
    let ghost s = nm@.map_values(|s: String| s@);
    let ps = string_from_chars(p.clone());
    let mut j: usize = 0;
    proof {
        assert(s.skip(0) =~= s);
        lemma_insert_pos_bounds(s, p@);
    }
    while j < nm.len() && text_before(nm[j].as_str(), ps.as_str())
        invariant
            j <= nm.len(),
            s == nm@.map_values(|s: String| s@),
            ps@ == p@,
            nm@ == old(nm)@,
            insert_pos(s, p@) == j + insert_pos(s.skip(j as int), p@),
        decreases nm.len() - j,
    {
        proof {
            let t = s.skip(j as int);
            assert(t[0] == s[j as int]);
            assert(t.drop_first() =~= s.skip(j + 1));
        }
        j += 1;
    }
    proof {
        let t = s.skip(j as int);
        if j < nm.len() {
            assert(t[0] == s[j as int]);
        }
        assert(insert_pos(t, p@) == 0);
    }
    if j < nm.len() && same_text(nm[j].as_str(), ps.as_str()) {
        nm.set(j, ps);
        proof {
            assert(nm@.map_values(|s: String| s@) =~= s.update(j as int, p@));
        }
    } else {
        nm.insert(j, ps);
        proof {
            assert(nm@.map_values(|s: String| s@) =~= s.insert(j as int, p@));
        }
    }
}

} // verus!

verus! {

/// One entry's part in setting a sendlist (see `set_step`).
fn set_step_exec(
    sess: &mut Vec<u64>,
    discs: &mut Vec<u64>,
    errors: &mut Vec<char>,
    unmatched: &mut Vec<String>,
    part: &str,
    me: u64,
    sessions: &Vec<Candidate>,
    discussions: &Vec<Candidate>,
    multi: bool,
    do_sessions: bool,
    do_discussions: bool,
)
    requires
        old(sess)@.no_duplicates(),
        old(discs)@.no_duplicates(),
    ensures
        final(sess)@.no_duplicates(),
        final(discs)@.no_duplicates(),
        (final(sess)@.to_set(), final(discs)@.to_set(), final(errors)@, final(unmatched)@.map_values(
            |s: String| s@,
        )) == set_step(
            (old(sess)@.to_set(), old(discs)@.to_set(), old(errors)@, old(unmatched)@.map_values(
                |s: String| s@,
            )),
            part@,
            me,
            sessions@,
            discussions@,
            multi,
            do_sessions,
            do_discussions,
        ),
{
    let f = find_sendable(part, sessions, discussions, !multi, false, do_sessions, do_discussions);
    if f.me {
        insert_key(sess, me);
    } else if f.session.is_some() {
        let i = f.session.unwrap();
        insert_key(sess, sessions[i].key);
    } else if f.discussion.is_some() {
        let j = f.discussion.unwrap();
        insert_key(discs, discussions[j].key);
    } else if multi {
        insert_keys(sess, sessions, &f.session_matches);
        insert_keys(discs, discussions, &f.discussion_matches);
    } else {
        let p = show_part(part);
        let sn = names_at(sessions, &f.session_matches);
        let dn = names_at(discussions, &f.discussion_matches);
        push_match_error(errors, &p, &sn, &dn);
        if sn.len() == 0 && dn.len() == 0 {
            add_unmatched_exec(unmatched, &p);
        }
    }
}

/// Keys in strictly ascending order hold no key twice.
proof fn lemma_ascending_no_duplicates(s: Seq<u64>)
    requires
        forall|i: int, j: int| 0 <= i < j < s.len() ==> s[i] < s[j],
    ensures
        s.no_duplicates(),
{
    assert forall|i: int, j: int| 0 <= i < s.len() && 0 <= j < s.len() && i != j implies s[i] != s[j] by {
        if i < j {
            assert(s[i] < s[j]);
        } else {
            assert(s[j] < s[i]);
        }
    }
}

/// The ordered set of the keys in `v`.
fn key_set_from(v: &Vec<u64>) -> (r: im::OrdSet<u64>)
    ensures
        key_set(r) == v@.to_set(),
{
    let mut r = key_set_new();
    let mut i: usize = 0;
    proof {
        assert(v@.take(0).to_set() =~= Set::<u64>::empty());
    }
    while i < v.len()
        invariant
            i <= v.len(),
            key_set(r) == v@.take(i as int).to_set(),
        decreases v.len() - i,
    {
        key_set_insert(&mut r, v[i]);
        proof {
            assert(v@.take(i + 1) =~= v@.take(i as int).push(v@[i as int]));
            v@.take(i as int).lemma_push_to_set_commute(v@[i as int]);
        }
        i += 1;
    }
    proof {
        assert(v@.take(v.len() as int) =~= v@);
    }
    r
}

/// A sendlist as set: what was typed, the reports on its entries, and the
/// sessions and discussions it names.
#[derive(Debug)]
pub struct Sendlist {
    typed: String,
    errors: String,
    sessions: im::OrdSet<u64>,
    discussions: im::OrdSet<u64>,
}

/// The view of a sendlist.
pub struct SendlistView {
    pub typed: Seq<char>,
    pub errors: Seq<char>,
    pub sessions: Set<u64>,
    pub discussions: Set<u64>,
}

impl View for Sendlist {
    type V = SendlistView;

    closed spec fn view(&self) -> SendlistView {
        SendlistView {
            typed: self.typed@,
            errors: self.errors@,
            sessions: key_set(self.sessions),
            discussions: key_set(self.discussions),
        }
    }
}

/// Setting a sendlist to `typed`: unchanged when `typed` is what it holds
/// already or is empty; otherwise each entry adds the recipient it picks
/// out (or, with `multi`, all it matches) and the reports are gathered.
pub open spec fn set_spec(
    old: SendlistView,
    typed: Seq<char>,
    me: u64,
    sessions: Seq<Candidate>,
    discussions: Seq<Candidate>,
    multi: bool,
    do_sessions: bool,
    do_discussions: bool,
) -> SendlistView {
    if typed == old.typed || typed.len() == 0 {
        old
    } else {
        let st = set_fold(
            sendlist_parts(typed),
            me,
            sessions,
            discussions,
            multi,
            do_sessions,
            do_discussions,
        );
        SendlistView { typed, errors: st.2 + unmatched_text(st.3), sessions: st.0, discussions: st.1 }
    }
}

/// The sendlist that holds nothing.
pub open spec fn empty_sendlist() -> SendlistView {
    SendlistView { typed: Seq::empty(), errors: Seq::empty(), sessions: Set::empty(), discussions: Set::empty() }
}

/// The members of the named discussions that are in `discussions`, less
/// the sender.
pub open spec fn member_keys(members: Seq<(u64, Vec<u64>)>, discussions: Set<u64>, sender: Option<u64>) -> Set<u64>
    decreases members.len(),
{
    if members.len() == 0 {
        Set::empty()
    } else {
        member_keys(members.drop_last(), discussions, sender) + if discussions.contains(members.last().0) {
            members.last().1@.to_set().filter(|m: u64| sender != Some(m))
        } else {
            Set::empty()
        }
    }
}

impl Sendlist {
    /// The sets hold each key once, so every sendlist is well formed.
    pub closed spec fn wf(&self) -> bool {
        true
    }

    /// A sendlist set to `typed` (see `set`).
    pub fn new(
        me: u64,
        typed: &str,
        multi: bool,
        do_sessions: bool,
        do_discussions: bool,
        sessions: &Vec<Candidate>,
        discussions: &Vec<Candidate>,
    ) -> (r: Sendlist)
        ensures
            r.wf(),
            r@ == set_spec(
                empty_sendlist(),
                typed@,
                me,
                sessions@,
                discussions@,
                multi,
                do_sessions,
                do_discussions,
            ),
    {
        let mut s = Sendlist {
            typed: String::new(),
            errors: String::new(),
            sessions: key_set_new(),
            discussions: key_set_new(),
        };
        proof {
            assert(s@.sessions =~= Set::<u64>::empty());
            assert(s@.discussions =~= Set::<u64>::empty());
            assert(s@ == empty_sendlist());
        }
        s.set(me, typed, multi, do_sessions, do_discussions, sessions, discussions);
        s
    }

    /// Sets the sendlist to what was typed: each entry (between separators)
    /// is looked up among the signed-on `sessions` and the `discussions`
    /// (`!multi`: only those the sender is a member of).
    pub fn set(
        &mut self,
        me: u64,
        typed: &str,
        multi: bool,
        do_sessions: bool,
        do_discussions: bool,
        sessions: &Vec<Candidate>,
        discussions: &Vec<Candidate>,
    )
        requires
            old(self).wf(),
        ensures
            final(self).wf(),
            final(self)@ == set_spec(
                old(self)@,
                typed@,
                me,
                sessions@,
                discussions@,
                multi,
                do_sessions,
                do_discussions,
            ),
    {
        let old_typed = str_chars(self.typed.as_str());
        let new_typed = str_chars(typed);
        if crate::chars::chars_equal(&old_typed, &new_typed) || new_typed.len() == 0 {
            return;
        }
        let parts = split_sendlist(typed);
        let ghost ps = parts@.map_values(|p: String| p@);
        let mut sess: Vec<u64> = Vec::new();
        let mut discs: Vec<u64> = Vec::new();
        let mut errors: Vec<char> = Vec::new();
        let mut unmatched: Vec<String> = Vec::new();
        proof {
            assert(sess@.to_set() =~= Set::<u64>::empty());
            assert(discs@.to_set() =~= Set::<u64>::empty());
            assert(unmatched@.map_values(|s: String| s@) =~= Seq::<Seq<char>>::empty());
            assert(ps.take(0) =~= Seq::<Seq<char>>::empty());
        }
        let mut i: usize = 0;
        while i < parts.len()
            invariant
                i <= parts.len(),
                ps == parts@.map_values(|p: String| p@),
                sess@.no_duplicates(),
                discs@.no_duplicates(),
                (sess@.to_set(), discs@.to_set(), errors@, unmatched@.map_values(|s: String| s@))
                    == set_fold(
                    ps.take(i as int),
                    me,
                    sessions@,
                    discussions@,
                    multi,
                    do_sessions,
                    do_discussions,
                ),
            decreases parts.len() - i,
        {
            set_step_exec(
                &mut sess,
                &mut discs,
                &mut errors,
                &mut unmatched,
                parts[i].as_str(),
                me,
                sessions,
                discussions,
                multi,
                do_sessions,
                do_discussions,
            );
            proof {
                assert(ps.take(i + 1).drop_last() =~= ps.take(i as int));
                assert(ps.take(i + 1).last() == parts@[i as int]@);
            }
            i += 1;
        }
        proof {
            assert(ps.take(i as int) =~= ps);
        }
        if unmatched.len() > 0 {
            push_str(&mut errors, "No names matched \"");
            push_joined(&mut errors, &unmatched, "\", \"", "\" or \"");
            push_str(&mut errors, "\".\n");
        }
        proof {
            let st = set_fold(ps, me, sessions@, discussions@, multi, do_sessions, do_discussions);
            assert(errors@ =~= st.2 + unmatched_text(st.3));
        }
        self.errors = string_from_chars(errors);
        self.typed = String::from_str(typed);
        self.sessions = key_set_from(&sess);
        self.discussions = key_set_from(&discs);
    }

    /// Everyone the sendlist reaches: its sessions, and the members of its
    /// discussions (`members` pairs a discussion's key with its members'
    /// keys) other than the sender; each once.
    pub fn expand(&self, members: &Vec<(u64, Vec<u64>)>, sender: Option<u64>) -> (who: Vec<u64>)
        requires
            self.wf(),
        ensures
            who@.no_duplicates(),
            who@.to_set() == self@.sessions + member_keys(members@, self@.discussions, sender),
    {
        let mut who = key_set_keys(&self.sessions);
        proof {
            lemma_ascending_no_duplicates(who@);
            assert(who@.to_set() =~= self@.sessions);
            assert(members@.take(0) =~= Seq::<(u64, Vec<u64>)>::empty());
        }
        let mut i: usize = 0;
        while i < members.len()
            invariant
                i <= members.len(),
                self.wf(),
                who@.no_duplicates(),
                who@.to_set() == self@.sessions + member_keys(members@.take(i as int), self@.discussions, sender),
            decreases members.len() - i,
        {
            let ghost base = who@.to_set();
            let d = members[i].0;
            let ms = &members[i].1;
            proof {
                assert(members@.take(i + 1).drop_last() =~= members@.take(i as int));
                assert(members@.take(i + 1).last() == members@[i as int]);
            }
            if self.has_discussion(d) {
                let mut j: usize = 0;
                while j < ms.len()
                    invariant
                        j <= ms.len(),
                        who@.no_duplicates(),
                        who@.to_set() == base + ms@.take(j as int).to_set().filter(|m: u64| sender != Some(m)),
                    decreases ms.len() - j,
                {
                    let m = ms[j];
                    let ghost before = who@.to_set();
                    let keep = match sender {
                        Some(s) => s != m,
                        None => true,
                    };
                    if keep {
                        insert_key(&mut who, m);
                    }
                    proof {
                        assert(ms@.take(j + 1) =~= ms@.take(j as int).push(m));
                        ms@.take(j as int).lemma_push_to_set_commute(m);
                        assert(who@.to_set() =~= base + ms@.take(j + 1).to_set().filter(
                            |m: u64| sender != Some(m),
                        ));
                    }
                    j += 1;
                }
                proof {
                    assert(ms@.take(j as int) =~= ms@);
                    assert(who@.to_set() =~= self@.sessions + member_keys(
                        members@.take(i + 1),
                        self@.discussions,
                        sender,
                    ));
                }
            } else {
                proof {
                    assert(who@.to_set() =~= self@.sessions + member_keys(
                        members@.take(i + 1),
                        self@.discussions,
                        sender,
                    ));
                }
            }
            i += 1;
        }
        proof {
            assert(members@.take(i as int) =~= members@);
        }
        who
    }

    /// Whether the sendlist names the discussion `d`.
    pub fn has_discussion(&self, d: u64) -> (r: bool)
        ensures
            r == self@.discussions.contains(d),
    {
        key_set_contains(&self.discussions, d)
    }
}

} // verus!

verus! {


impl Sendlist {
    /// The reports on the entries.
    pub fn errors(&self) -> (r: String)
        ensures
            r@ == self@.errors,
    {
        self.errors.clone()
    }

    /// What was typed.
    pub fn typed(&self) -> (r: String)
        ensures
            r@ == self@.typed,
    {
        self.typed.clone()
    }

    /// The sessions named, each once, in ascending order of keys.
    pub fn sessions(&self) -> (r: Vec<u64>)
        requires
            self.wf(),
        ensures
            r@.no_duplicates(),
            r@.to_set() == self@.sessions,
            forall|i: int, j: int| 0 <= i < j < r@.len() ==> r@[i] < r@[j],
    {
        let r = key_set_keys(&self.sessions);
        proof {
            lemma_ascending_no_duplicates(r@);
            assert(r@.to_set() =~= self@.sessions);
        }
        r
    }

    /// The discussions named, each once, in ascending order of keys.
    pub fn discussions(&self) -> (r: Vec<u64>)
        requires
            self.wf(),
        ensures
            r@.no_duplicates(),
            r@.to_set() == self@.discussions,
            forall|i: int, j: int| 0 <= i < j < r@.len() ==> r@[i] < r@[j],
    {
        let r = key_set_keys(&self.discussions);
        proof {
            lemma_ascending_no_duplicates(r@);
            assert(r@.to_set() =~= self@.discussions);
        }
        r
    }

    /// Replaces the reports.
    pub fn set_errors(&mut self, value: &str)
        ensures
            final(self)@ == (SendlistView { errors: value@, ..old(self)@ }),
            old(self).wf() ==> final(self).wf(),
    {
        self.errors = String::from_str(value);
    }

    /// Replaces what was typed.
    pub fn set_typed(&mut self, value: &str)
        ensures
            final(self)@ == (SendlistView { typed: value@, ..old(self)@ }),
            old(self).wf() ==> final(self).wf(),
    {
        self.typed = String::from_str(value);
    }

    /// Replaces the sessions.
    pub fn set_sessions(&mut self, value: Vec<u64>)
        requires
            value@.no_duplicates(),
        ensures
            final(self)@ == (SendlistView { sessions: value@.to_set(), ..old(self)@ }),
            old(self).wf() ==> final(self).wf(),
    {
        self.sessions = key_set_from(&value);
    }

    /// Replaces the discussions.
    pub fn set_discussions(&mut self, value: Vec<u64>)
        requires
            value@.no_duplicates(),
        ensures
            final(self)@ == (SendlistView { discussions: value@.to_set(), ..old(self)@ }),
            old(self).wf() ==> final(self).wf(),
    {
        self.discussions = key_set_from(&value);
    }

    /// Adds a session.
    pub fn add_session(&mut self, k: u64)
        requires
            old(self).wf(),
        ensures
            final(self).wf(),
            final(self)@ == (SendlistView { sessions: old(self)@.sessions.insert(k), ..old(self)@ }),
    {
        key_set_insert(&mut self.sessions, k);
    }

    /// Removes a session.
    pub fn remove_session(&mut self, k: u64)
        requires
            old(self).wf(),
        ensures
            final(self).wf(),
            final(self)@ == (SendlistView { sessions: old(self)@.sessions.remove(k), ..old(self)@ }),
    {
        key_set_remove(&mut self.sessions, k);
    }

    /// Adds a discussion.
    pub fn add_discussion(&mut self, k: u64)
        requires
            old(self).wf(),
        ensures
            final(self).wf(),
            final(self)@ == (SendlistView { discussions: old(self)@.discussions.insert(k), ..old(self)@ }),
    {
        key_set_insert(&mut self.discussions, k);
    }

    /// Removes a discussion.
    pub fn remove_discussion(&mut self, k: u64)
        requires
            old(self).wf(),
        ensures
            final(self).wf(),
            final(self)@ == (SendlistView { discussions: old(self)@.discussions.remove(k), ..old(self)@ }),
    {
        key_set_remove(&mut self.discussions, k);
    }
}

/// Setting a sendlist to what it holds already changes nothing, and so
/// does setting it to nothing.
pub proof fn lemma_set_unchanged(
    old: SendlistView,
    typed: Seq<char>,
    me: u64,
    sessions: Seq<Candidate>,
    discussions: Seq<Candidate>,
    multi: bool,
    do_sessions: bool,
    do_discussions: bool,
)
    requires
        typed == old.typed || typed.len() == 0,
    ensures
        set_spec(old, typed, me, sessions, discussions, multi, do_sessions, do_discussions) == old,
{
}

/// Setting a sendlist twice to the same text is the same as setting it
/// once.
pub proof fn lemma_set_idempotent(
    old: SendlistView,
    typed: Seq<char>,
    me: u64,
    sessions: Seq<Candidate>,
    discussions: Seq<Candidate>,
    multi: bool,
    do_sessions: bool,
    do_discussions: bool,
)
    ensures
        ({
            let once = set_spec(old, typed, me, sessions, discussions, multi, do_sessions, do_discussions);
            set_spec(once, typed, me, sessions, discussions, multi, do_sessions, do_discussions) == once
        }),
{
}


/// Removing a session or a discussion just added to a sendlist gives the
/// sendlist back, where it did not hold it before.
pub proof fn lemma_remove_undoes_add(v: SendlistView, k: u64)
    ensures
        !v.sessions.contains(k) ==> (SendlistView {
            sessions: v.sessions.insert(k).remove(k),
            ..v
        }) == v,
        !v.discussions.contains(k) ==> (SendlistView {
            discussions: v.discussions.insert(k).remove(k),
            ..v
        }) == v,
{
    if !v.sessions.contains(k) {
        assert(v.sessions.insert(k).remove(k) =~= v.sessions);
    }
    if !v.discussions.contains(k) {
        assert(v.discussions.insert(k).remove(k) =~= v.discussions);
    }
}


/// A message never comes back to its sender through a discussion: the
/// members reached through the discussions a sendlist names leave out the
/// sender, and take in every other member of each of them (each pair of
/// `members` is a discussion's key and its members' keys).
pub proof fn lemma_member_keys_leave_out_sender(
    members: Seq<(u64, Vec<u64>)>,
    discussions: Set<u64>,
    s: u64,
)
    ensures
        !member_keys(members, discussions, Some(s)).contains(s),
        forall|i: int, m: u64|
            #![trigger members[i], member_keys(members, discussions, Some(s)).contains(m)]
            0 <= i < members.len() && discussions.contains(members[i].0) && members[i].1@.contains(m) && m != s
                ==> member_keys(members, discussions, Some(s)).contains(m),
    decreases members.len(),
{
    if members.len() > 0 {
        lemma_member_keys_leave_out_sender(members.drop_last(), discussions, s);
        assert forall|i: int, m: u64|
            #![trigger members[i], member_keys(members, discussions, Some(s)).contains(m)]
            0 <= i < members.len() && discussions.contains(members[i].0) && members[i].1@.contains(m) && m != s
                implies member_keys(members, discussions, Some(s)).contains(m) by {
            if i < members.len() - 1 {
                assert(members.drop_last()[i] == members[i]);
                assert(members[i].1@.contains(m));
                assert(member_keys(members.drop_last(), discussions, Some(s)).contains(m));
            } else {
                assert(members.last().1@.to_set().contains(m));
            }
        }
    }
}

/// The recipients of a sendlist include its sender only where the
/// sendlist names the sender's own session.
pub proof fn lemma_expand_sender(v: SendlistView, members: Seq<(u64, Vec<u64>)>, s: u64)
    ensures
        (v.sessions + member_keys(members, v.discussions, Some(s))).contains(s) ==> v.sessions.contains(s),
{
    lemma_member_keys_leave_out_sender(members, v.discussions, s);
}


/// Whether a text holds neither a double quote nor a backslash.
pub open spec fn plain_quoted(q: Seq<char>) -> bool {
    forall|i: int| 0 <= i < q.len() ==> q[i] != '"' && q[i] != '\\'
}

/// Scanning the inside of a quote reads its characters into the sendlist.
proof fn lemma_scan_quoted(line: Seq<char>, q: Seq<char>, j: int)
    requires
        plain_quoted(q),
        0 <= j <= q.len(),
        line.len() > q.len() + 1,
        forall|t: int| 0 <= t < q.len() ==> line[1 + t] == q[t],
    ensures
        scan(line, 1 + j, q.take(j), true) == scan(line, 1 + q.len() as int, q, true),
    decreases q.len() - j,
{
    if j < q.len() {
        assert(line[1 + j] == q[j]);
        assert(q.take(j).push(q[j]) =~= q.take(j + 1));
        lemma_scan_quoted(line, q, j + 1);
    } else {
        assert(q.take(j) =~= q);
    }
}

/// A message line that starts with a double-quoted name (holding no quote
/// or backslash) and a `:` or `;` is sent to that name, with the quoted
/// text (spaces and all) as its explicit sendlist, and the text after the
/// `:` or `;` (less one leading space) as the message.
pub proof fn lemma_quoted_sendlist(q: Seq<char>, sep: char, rest: Seq<char>)
    requires
        plain_quoted(q),
        sep == ':' || sep == ';',
    ensures
        message_start_spec(seq!['"'] + q + seq!['"', sep] + rest) == (drop_one_space(rest), q, q, true),
{
    let line = seq!['"'] + q + seq!['"', sep] + rest;
    let n = q.len() as int;
    assert(line[0] == '"');
    assert forall|t: int| 0 <= t < q.len() implies line[1 + t] == q[t] by {
        assert(line[1 + t] == q[t]);
    }
    assert(line[1 + n] == '"');
    assert(line[2 + n] == sep);
    // Not a smiley: the first word starts with the quote.
    assert(!crate::words::is_stop(line[0], None)) by {
        reveal_strlit(" ");
    }
    lemma_find_stop_le(line, 1);
    let first = line.subrange(0, find_stop(line, 0, None));
    assert(first[0] == '"');
    assert(!is_smiley(first)) by {
        reveal_strlit(":-)");
        reveal_strlit(":-(");
        reveal_strlit(":-P");
        reveal_strlit(";-)");
        reveal_strlit(":_)");
        reveal_strlit(":_(");
        reveal_strlit(":)");
        reveal_strlit(":(");
        reveal_strlit(":P");
        reveal_strlit(";)");
    }
    assert(!starts_with_smiley(line));
    lemma_scan_quoted(line, q, 0);
    assert(q.take(0) =~= Seq::<char>::empty());
    assert(scan(line, 0, Seq::empty(), false) == scan(line, 1, Seq::empty(), true));
    assert(scan(line, 1 + n, q, true) == scan(line, 2 + n, q, false));
    assert(line.subrange(3 + n, line.len() as int) =~= rest);
}


/// Whether a name is typed plainly: no whitespace, quote, backslash,
/// underscore, comma, colon or semicolon.
pub open spec fn plain_name(q: Seq<char>) -> bool {
    forall|i: int|
        0 <= i < q.len() ==> !is_ws(#[trigger] q[i]) && q[i] != '"' && q[i] != '\\' && q[i] != '_' && q[i]
            != ',' && q[i] != ':' && q[i] != ';'
}

/// Scanning a plainly typed name reads it into the sendlist as it is.
proof fn lemma_scan_plain(line: Seq<char>, q: Seq<char>, j: int)
    requires
        plain_name(q),
        0 <= j <= q.len(),
        line.len() > q.len(),
        forall|t: int| 0 <= t < q.len() ==> line[t] == q[t],
    ensures
        scan(line, j, q.take(j), false) == scan(line, q.len() as int, q, false),
    decreases q.len() - j,
{
    if j < q.len() {
        assert(line[j] == q[j]);
        assert(!is_ws(q[j]));
        assert(q.take(j).push(q[j]) =~= q.take(j + 1));
        lemma_scan_plain(line, q, j + 1);
    } else {
        assert(q.take(j) =~= q);
    }
}

/// A message line that starts with a plainly typed name and a `:` or `;`
/// is sent to that name: it is the explicit sendlist, and the text after
/// the `:` or `;` (less one leading space) is the message.
pub proof fn lemma_plain_sendlist(q: Seq<char>, sep: char, rest: Seq<char>)
    requires
        plain_name(q),
        q.len() > 0,
        sep == ':' || sep == ';',
    ensures
        message_start_spec(q + seq![sep] + rest) == (drop_one_space(rest), q, q, true),
{
    let line = q + seq![sep] + rest;
    let n = q.len() as int;
    assert forall|t: int| 0 <= t < q.len() implies line[t] == q[t] by {
        assert(line[t] == q[t]);
    }
    assert(line[n] == sep);
    assert(!is_ws(line[0]));
    lemma_find_stop_le(line, 1);
    let first = line.subrange(0, find_stop(line, 0, None));
    assert(first[0] == q[0]);
    assert(!is_smiley(first)) by {
        reveal_strlit(":-)");
        reveal_strlit(":-(");
        reveal_strlit(":-P");
        reveal_strlit(";-)");
        reveal_strlit(":_)");
        reveal_strlit(":_(");
        reveal_strlit(":)");
        reveal_strlit(":(");
        reveal_strlit(":P");
        reveal_strlit(";)");
    }
    assert(!starts_with_smiley(line));
    lemma_scan_plain(line, q, 0);
    assert(q.take(0) =~= Seq::<char>::empty());
    assert(line.subrange(n + 1, line.len() as int) =~= rest);
}

} // verus!
