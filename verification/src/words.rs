//! Word splitting and keyword/name matching for command lines.

use vstd::prelude::*;
use vstd::string::StrSliceExecFns;
use crate::chars::{is_ws, is_whitespace, lower, str_chars, to_ascii_lower, seq_eq_ic};
use crate::constants::{UNQUOTED_UNDERSCORE};

verus! {

/// Index of the first non-whitespace character at or after `i`
/// (`s.len()` when there is none).
pub open spec fn skip_ws(s: Seq<char>, i: int) -> int
    decreases s.len() - i,
{
    if i < 0 || i >= s.len() {
        s.len() as int
    } else if is_ws(s[i]) {
        skip_ws(s, i + 1)
    } else {
        i
    }
}

/// A character that ends a word: whitespace or the separator.
pub open spec fn is_stop(c: char, sep: Option<char>) -> bool {
    is_ws(c) || sep == Some(c)
}

/// Index of the first word-ending character at or after `i`
/// (`s.len()` when there is none).
pub open spec fn find_stop(s: Seq<char>, i: int, sep: Option<char>) -> int
    decreases s.len() - i,
{
    if i < 0 || i >= s.len() {
        s.len() as int
    } else if is_stop(s[i], sep) {
        i
    } else {
        find_stop(s, i + 1, sep)
    }
}

/// The first word of `s` and the rest of the line after it: leading
/// whitespace is skipped, the word runs to the next whitespace (or
/// separator), and the rest starts after any whitespace, one separator and
/// whitespace after that.
pub open spec fn getword_spec(s: Seq<char>, sep: Option<char>) -> (Seq<char>, Seq<char>) {
    let a = skip_ws(s, 0);
    let e = find_stop(s, a, sep);
    if e >= s.len() {
        (s.subrange(a, s.len() as int), Seq::empty())
    } else {
        let b = skip_ws(s, e);
        if sep.is_some() && b < s.len() && s[b] == sep.unwrap() {
            (s.subrange(a, e), s.subrange(skip_ws(s, b + 1), s.len() as int))
        } else {
            (s.subrange(a, e), s.subrange(b, s.len() as int))
        }
    }
}

proof fn lemma_skip_ws_bounds(s: Seq<char>, i: int)
    requires
        0 <= i <= s.len(),
    ensures
        i <= skip_ws(s, i) <= s.len(),
    decreases s.len() - i,
{
    if i < s.len() && is_ws(s[i]) {
        lemma_skip_ws_bounds(s, i + 1);
    }
}

proof fn lemma_find_stop_bounds(s: Seq<char>, i: int, sep: Option<char>)
    requires
        0 <= i <= s.len(),
    ensures
        i <= find_stop(s, i, sep) <= s.len(),
    decreases s.len() - i,
{
    if i < s.len() && !is_stop(s[i], sep) {
        lemma_find_stop_bounds(s, i + 1, sep);
    }
}

/// Index of the first non-whitespace character of `v` at or after `i`.
pub fn skip_whitespace(v: &Vec<char>, i: usize) -> (r: usize)
    requires
        i <= v.len(),
    ensures
        r as int == skip_ws(v@, i as int),
        i <= r <= v.len(),
{
    let mut j = i;
    while j < v.len() && is_whitespace(v[j])
        invariant
            i <= j <= v.len(),
            skip_ws(v@, i as int) == skip_ws(v@, j as int),
        decreases v.len() - j,
    {
        j += 1;
    }
    j
}

/// Index of the first word-ending character of `v` at or after `i`.
fn find_word_end(v: &Vec<char>, i: usize, sep: Option<char>) -> (r: usize)
    requires
        i <= v.len(),
    ensures
        r as int == find_stop(v@, i as int, sep),
        i <= r <= v.len(),
{
    let mut j = i;
    while j < v.len() && !(is_whitespace(v[j]) || sep == Some(v[j]))
        invariant
            i <= j <= v.len(),
            find_stop(v@, i as int, sep) == find_stop(v@, j as int, sep),
        decreases v.len() - j,
    {
        j += 1;
    }
    j
}

/// Splits off the first word of `input`, returning the word and the rest
/// of the line.  With a separator, a separator after the word (possibly
/// after whitespace) is skipped too, together with the whitespace after it.
pub fn getword<'a>(input: &'a str, separator: Option<char>) -> (r: (&'a str, &'a str))
    ensures
        r.0@ == getword_spec(input@, separator).0,
        r.1@ == getword_spec(input@, separator).1,
{
    let cs = str_chars(input);
    let n = cs.len();
    let a = skip_whitespace(&cs, 0);
    let e = find_word_end(&cs, a, separator);
    if e >= n {
        return (input.substring_char(a, n), input.substring_char(n, n));
    }
    let b = skip_whitespace(&cs, e);
    match separator {
        Some(sep) => {
            if b < n && cs[b] == sep {
                let c = skip_whitespace(&cs, b + 1);
                return (input.substring_char(a, e), input.substring_char(c, n));
            }
        },
        None => {},
    }
    (input.substring_char(a, e), input.substring_char(b, n))
}

/// `match_keyword`'s answer: the first word of `input` is a prefix of
/// `keyword` (up to ASCII case) at least `min` characters long (the whole
/// keyword when `min` is 0); the rest of the line is returned.
pub open spec fn match_keyword_spec(input: Seq<char>, keyword: Seq<char>, min: nat) -> Option<
    Seq<char>,
> {
    let w = getword_spec(input, None).0;
    let m = if min == 0 {
        keyword.len()
    } else {
        min
    };
    if m <= w.len() <= keyword.len() && seq_eq_ic(w, keyword.subrange(0, w.len() as int)) {
        Some(getword_spec(input, None).1)
    } else {
        None
    }
}

/// Matches the first word of `input` against an abbreviation of
/// `keyword`, returning the rest of the line on a match.
pub fn match_keyword<'a>(input: &'a str, keyword: &str, min: usize) -> (r: Option<&'a str>)
    requires
        vstd::string::is_ascii(keyword),
    ensures
        r.is_some() == match_keyword_spec(input@, keyword@, min as nat).is_some(),
        r.is_some() ==> r.unwrap()@ == match_keyword_spec(input@, keyword@, min as nat).unwrap(),
{
    let (word, rest) = getword(input, None);
    let w = str_chars(word);
    let k = str_chars(keyword);
    let m = if min == 0 {
        k.len()
    } else {
        min
    };
    if w.len() >= m && w.len() <= k.len() {
        let mut i: usize = 0;
        while i < w.len()
            invariant
                w.len() <= k.len(),
                m <= w.len(),
                m as nat == (if min == 0 { keyword@.len() } else { min as nat }),
                w@ == getword_spec(input@, None).0,
                rest@ == getword_spec(input@, None).1,
                k@ == keyword@,
                i <= w.len(),
                forall|j: int| 0 <= j < i ==> #[trigger] lower(w@[j]) == lower(k@[j]),
            decreases w.len() - i,
        {
            if to_ascii_lower(w[i]) != to_ascii_lower(k[i]) {
                assert(!seq_eq_ic(w@, k@.subrange(0, w.len() as int))) by {
                    assert(k@.subrange(0, w.len() as int)[i as int] == k@[i as int]);
                }
                return None;
            }
            i += 1;
        }
        assert(seq_eq_ic(w@, k@.subrange(0, w.len() as int))) by {
            assert forall|j: int| 0 <= j < w.len() implies #[trigger] lower(w@[j]) == lower(
                k@.subrange(0, w.len() as int)[j],
            ) by {
                assert(k@.subrange(0, w.len() as int)[j] == k@[j]);
            }
        }
        return Some(rest);
    }
    None
}

/// One name character matches one sendlist character: equal up to ASCII
/// case, or an unquoted underscore in the sendlist against a space or an
/// underscore in the name.
pub open spec fn name_char_matches(n: char, s: char) -> bool {
    (s == UNQUOTED_UNDERSCORE && (n == ' ' || n == '_')) || lower(n) == lower(s)
}

/// The sendlist matches the name starting at character `k` of the name.
pub open spec fn matches_at(name: Seq<char>, sendlist: Seq<char>, k: int) -> bool {
    &&& 0 <= k
    &&& k + sendlist.len() <= name.len()
    &&& forall|j: int| 0 <= j < sendlist.len() ==> #[trigger] name_char_matches(name[k + j], sendlist[j])
}

/// The first character position of `name` at which `sendlist` matches.
pub open spec fn first_match_from(name: Seq<char>, sendlist: Seq<char>, k: int) -> Option<int>
    decreases name.len() - k,
{
    if k < 0 || k >= name.len() {
        None
    } else if matches_at(name, sendlist, k) {
        Some(k)
    } else {
        first_match_from(name, sendlist, k + 1)
    }
}

/// Position (in characters) where `sendlist` first matches inside `name`,
/// or `None`; an empty name or sendlist matches nowhere.
pub open spec fn first_match(name: Seq<char>, sendlist: Seq<char>) -> Option<int> {
    if name.len() == 0 || sendlist.len() == 0 {
        None
    } else {
        first_match_from(name, sendlist, 0)
    }
}

/// Number of bytes in the UTF-8 encoding of a character (`char::len_utf8`).
pub open spec fn char_width(c: char) -> nat {
    if (c as u32) < 0x80 {
        1
    } else if (c as u32) < 0x800 {
        2
    } else if (c as u32) < 0x10000 {
        3
    } else {
        4
    }
}

/// Number of bytes in the UTF-8 encoding of a character sequence.
pub open spec fn utf8_len(s: Seq<char>) -> nat
    decreases s.len(),
{
    if s.len() == 0 {
        0
    } else {
        utf8_len(s.drop_last()) + char_width(s.last())
    }
}

/// A prefix takes no more bytes than the whole.
pub proof fn lemma_utf8_len_prefix(s: Seq<char>, k: int)
    requires
        0 <= k <= s.len(),
    ensures
        utf8_len(s.subrange(0, k)) <= utf8_len(s),
    decreases s.len() - k,
{
    if k < s.len() {
        lemma_utf8_len_prefix(s, k + 1);
        assert(s.subrange(0, k + 1).drop_last() == s.subrange(0, k));
    } else {
        assert(s.subrange(0, k) == s);
    }
}

pub(crate) fn char_byte_width(c: char) -> (r: usize)
    ensures
        r == char_width(c),
{
    let u = c as u32;
    if u < 0x80 {
        1
    } else if u < 0x800 {
        2
    } else if u < 0x10000 {
        3
    } else {
        4
    }
}

/// Whether `sendlist` matches `name` at character position `k`.
fn matches_at_exec(name: &Vec<char>, sendlist: &Vec<char>, k: usize) -> (r: bool)
    requires
        k <= name.len(),
    ensures
        r == matches_at(name@, sendlist@, k as int),
{
    if sendlist.len() > name.len() - k {
        return false;
    }
    let mut j: usize = 0;
    while j < sendlist.len()
        invariant
            k + sendlist.len() <= name.len(),
            j <= sendlist.len(),
            forall|i: int| 0 <= i < j ==> #[trigger] name_char_matches(name@[k + i], sendlist@[i]),
        decreases sendlist.len() - j,
    {
        let n = name[k + j];
        let s = sendlist[j];
        if !((s == UNQUOTED_UNDERSCORE && (n == ' ' || n == '_')) || to_ascii_lower(n)
            == to_ascii_lower(s)) {
            assert(!name_char_matches(name@[k + j], sendlist@[j as int]));
            return false;
        }
        j += 1;
    }
    true
}

/// The first character position of `name` where `sendlist` matches.
pub fn first_match_index(name: &Vec<char>, sendlist: &Vec<char>) -> (r: Option<usize>)
    ensures
        r.is_some() == first_match(name@, sendlist@).is_some(),
        r.is_some() ==> r.unwrap() as int == first_match(name@, sendlist@).unwrap(),
{
    if name.len() == 0 || sendlist.len() == 0 {
        return None;
    }
    let mut k: usize = 0;
    while k < name.len()
        invariant
            k <= name.len(),
            name.len() > 0,
            sendlist.len() > 0,
            first_match(name@, sendlist@) == first_match_from(name@, sendlist@, k as int),
        decreases name.len() - k,
    {
        if matches_at_exec(name, sendlist, k) {
            return Some(k);
        }
        k += 1;
    }
    None
}

proof fn lemma_first_match_from_bounds(name: Seq<char>, sendlist: Seq<char>, k: int)
    requires
        0 <= k,
    ensures
        first_match_from(name, sendlist, k) matches Some(x) ==> k <= x < name.len(),
    decreases name.len() - k,
{
    if k < name.len() && !matches_at(name, sendlist, k) {
        lemma_first_match_from_bounds(name, sendlist, k + 1);
    }
}

/// Finds where a sendlist entry matches inside a name (case-insensitively,
/// with an unquoted underscore matching a space or an underscore), returning
/// one more than the byte offset of the first match.
pub fn match_name(name: &str, sendlist: &str) -> (r: Option<usize>)
    requires
        utf8_len(name@) < usize::MAX,
    ensures
        r.is_some() == first_match(name@, sendlist@).is_some(),
        r.is_some() ==> r.unwrap() == utf8_len(
            name@.subrange(0, first_match(name@, sendlist@).unwrap()),
        ) + 1,
{
    let n = str_chars(name);
    let s = str_chars(sendlist);
    match first_match_index(&n, &s) {
        None => None,
        Some(k) => {
            proof {
                lemma_first_match_from_bounds(n@, s@, 0);
            }
            let mut off: usize = 0;
            let mut i: usize = 0;
            while i < k
                invariant
                    k < n.len(),
                    n@ == name@,
                    i <= k,
                    off == utf8_len(n@.subrange(0, i as int)),
                    utf8_len(name@) < usize::MAX,
                decreases k - i,
            {
                proof {
                    lemma_utf8_len_prefix(n@, i + 1);
                    assert(n@.subrange(0, i + 1).drop_last() == n@.subrange(0, i as int));
                }
                off = off + char_byte_width(n[i]);
                i += 1;
            }
            proof {
                lemma_utf8_len_prefix(n@, k as int);
            }
            Some(off + 1)
        },
    }
}

} // verus!

verus! {

proof fn lemma_skip_ws_stops(s: Seq<char>, i: int)
    requires
        0 <= i <= s.len(),
    ensures
        skip_ws(s, i) < s.len() ==> !is_ws(s[skip_ws(s, i)]),
    decreases s.len() - i,
{
    if i < s.len() && is_ws(s[i]) {
        lemma_skip_ws_stops(s, i + 1);
    }
}

proof fn lemma_find_stop_stops(s: Seq<char>, i: int, sep: Option<char>)
    requires
        0 <= i <= s.len(),
    ensures
        find_stop(s, i, sep) < s.len() ==> is_stop(s[find_stop(s, i, sep)], sep),
    decreases s.len() - i,
{
    if i < s.len() && !is_stop(s[i], sep) {
        lemma_find_stop_stops(s, i + 1, sep);
    }
}

/// Splitting off a word consumes at least one character of a non-empty
/// line.
pub proof fn lemma_getword_progress(s: Seq<char>, sep: Option<char>)
    requires
        s.len() > 0,
    ensures
        getword_spec(s, sep).1.len() < s.len(),
{
    lemma_skip_ws_bounds(s, 0);
    lemma_skip_ws_stops(s, 0);
    let a = skip_ws(s, 0);
    lemma_find_stop_bounds(s, a, sep);
    lemma_find_stop_stops(s, a, sep);
    let e = find_stop(s, a, sep);
    if e < s.len() {
        lemma_skip_ws_bounds(s, e);
        let b = skip_ws(s, e);
        if sep.is_some() && b < s.len() && s[b] == sep.unwrap() {
            lemma_skip_ws_bounds(s, b + 1);
        } else {
            if e == a {
                assert(is_stop(s[e], sep));
                if !is_ws(s[e]) {
                    assert(b == e);
                }
            }
        }
    }
}

/// The words of a list typed with `sep` between them (as `getword` takes
/// them off one after another until nothing is left).
pub open spec fn list_words(s: Seq<char>, sep: Option<char>) -> Seq<Seq<char>>
    decreases s.len(),
{
    if s.len() == 0 {
        Seq::empty()
    } else {
        proof {
            lemma_getword_progress(s, sep);
        }
        seq![getword_spec(s, sep).0] + list_words(getword_spec(s, sep).1, sep)
    }
}

/// The words of a list typed with `sep` between them.
pub fn split_list(input: &str, sep: Option<char>) -> (r: Vec<String>)
    ensures
        r@.map_values(|w: String| w@) == list_words(input@, sep),
{
    let mut out: Vec<String> = Vec::new();
    let mut rest = input;
    while !rest.is_empty()
        invariant
            out@.map_values(|w: String| w@) + list_words(rest@, sep) == list_words(input@, sep),
        decreases rest@.len(),
    {
        let (w, r) = getword(rest, sep);
        proof {
            lemma_getword_progress(rest@, sep);
        }
        let ghost before = out@;
        out.push(w.to_owned());
        proof {
            assert(out@.map_values(|w: String| w@) =~= before.map_values(|w: String| w@).push(w@));
            assert(list_words(rest@, sep) == seq![w@] + list_words(r@, sep));
            assert(out@.map_values(|w: String| w@) + list_words(r@, sep) =~= before.map_values(
                |w: String| w@,
            ) + list_words(rest@, sep));
        }
        rest = r;
    }
    proof {
        assert(out@.map_values(|w: String| w@) + list_words(rest@, sep) =~= out@.map_values(
            |w: String| w@,
        ));
    }
    out
}

} // verus!

verus! {

/// Index just past the last non-whitespace character of `s` before `j`
/// (0 when there is none).
pub open spec fn rskip_ws(s: Seq<char>, j: int) -> int
    decreases j,
{
    if j <= 0 || j > s.len() {
        0
    } else if is_ws(s[j - 1]) {
        rskip_ws(s, j - 1)
    } else {
        j
    }
}

/// `s` without leading and trailing whitespace.
pub open spec fn trim_spec(s: Seq<char>) -> Seq<char> {
    let a = skip_ws(s, 0);
    let b = rskip_ws(s, s.len() as int);
    if a < b {
        s.subrange(a, b)
    } else {
        Seq::empty()
    }
}

/// `s` without leading and trailing whitespace (`str::trim`).
pub fn trim(s: &str) -> (r: &str)
    ensures
        r@ == trim_spec(s@),
{
    let cs = str_chars(s);
    let n = cs.len();
    let a = skip_whitespace(&cs, 0);
    let mut b = n;
    while b > 0 && is_whitespace(cs[b - 1])
        invariant
            b <= n,
            n == cs@.len(),
            rskip_ws(cs@, n as int) == rskip_ws(cs@, b as int),
        decreases b,
    {
        b -= 1;
    }
    if a < b {
        s.substring_char(a, b)
    } else {
        s.substring_char(0, 0)
    }
}

/// `s` after the exact prefix `p`, if it starts with it
/// (`str::strip_prefix`).
pub open spec fn strip_prefix_spec(s: Seq<char>, p: Seq<char>) -> Option<Seq<char>> {
    if p.len() <= s.len() && s.take(p.len() as int) == p {
        Some(s.skip(p.len() as int))
    } else {
        None
    }
}

/// `s` after the exact prefix `p`, if it starts with it.
pub fn strip_prefix<'a>(s: &'a str, p: &str) -> (r: Option<&'a str>)
    ensures
        r matches Some(t) ==> strip_prefix_spec(s@, p@) == Some(t@),
        r is None ==> strip_prefix_spec(s@, p@) is None,
{
    let cs = str_chars(s);
    let ps = str_chars(p);
    if ps.len() > cs.len() {
        return None;
    }
    let mut i: usize = 0;
    while i < ps.len()
        invariant
            i <= ps.len() <= cs.len(),
            cs@ == s@,
            ps@ == p@,
            forall|j: int| 0 <= j < i ==> cs@[j] == ps@[j],
        decreases ps.len() - i,
    {
        if cs[i] != ps[i] {
            proof {
                assert(s@.take(p@.len() as int)[i as int] != p@[i as int]);
            }
            return None;
        }
        i += 1;
    }
    proof {
        assert(s@.take(p@.len() as int) =~= p@);
    }
    Some(s.substring_char(ps.len(), cs.len()))
}

} // verus!
