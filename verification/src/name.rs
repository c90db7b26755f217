//! Names of users, with their optional blurbs.

use vstd::prelude::*;
use vstd::string::StringExecFns;
use crate::chars::{lower, seq_eq_ic, str_chars};

verus! {

/// The text that `unicase` takes two strings to be equal under: equal
/// after case folding.
pub uninterp spec fn unicase_eq(a: Seq<char>, b: Seq<char>) -> bool;

/// Whether every character of `s` is ASCII.
pub open spec fn all_ascii(s: Seq<char>) -> bool {
    forall|i: int| 0 <= i < s.len() ==> (#[trigger] s[i] as u32) < 128
}

/// Whether `a` comes before `b` in lexicographic order of characters (a
/// proper prefix comes first).
pub open spec fn lex_before(a: Seq<char>, b: Seq<char>) -> bool
    decreases a.len(),
{
    if b.len() == 0 {
        false
    } else if a.len() == 0 {
        true
    } else if a[0] != b[0] {
        a[0] < b[0]
    } else {
        lex_before(a.drop_first(), b.drop_first())
    }
}

/// `s` with its ASCII letters in lower case.
pub open spec fn lowered(s: Seq<char>) -> Seq<char> {
    s.map_values(|c: char| lower(c))
}

/// Whether two names are the same, as `unicase` compares them: for ASCII
/// names, equal but for ASCII case.
pub open spec fn name_eq(a: Seq<char>, b: Seq<char>) -> bool {
    if all_ascii(a) && all_ascii(b) {
        seq_eq_ic(a, b)
    } else {
        unicase_eq(a, b)
    }
}

/// Whether name `a` comes before name `b`, as `unicase` orders them: for
/// ASCII names, lexicographically after ASCII lowercasing.
pub open spec fn name_before(a: Seq<char>, b: Seq<char>) -> bool {
    if all_ascii(a) && all_ascii(b) {
        lex_before(lowered(a), lowered(b))
    } else {
        unicase_before(a, b)
    }
}

/// Calls `unicase::UniCase::eq`, the case-insensitive comparison that
/// names are compared by; the contract names the result, and states that
/// equal strings compare equal (both encodings compare identical text as
/// equal: ASCII by `eq_ignore_ascii_case`, Unicode by comparing the
/// case-folded characters) and that two ASCII strings compare equal when
/// they are equal but for ASCII case.
#[verifier::external_body]
pub(crate) fn same_text(a: &str, b: &str) -> (r: bool)
    ensures
        r == unicase_eq(a@, b@),
        a@ == b@ ==> r,
        all_ascii(a@) && all_ascii(b@) ==> (r <==> seq_eq_ic(a@, b@)),
{
    unicase::UniCase::new(a) == unicase::UniCase::new(b)
}

/// Whether `a` comes before `b` in the order `unicase` gives names.
pub uninterp spec fn unicase_before(a: Seq<char>, b: Seq<char>) -> bool;

/// Calls `unicase::UniCase`'s `<`: whether `a` comes before `b` in the
/// case-insensitive order of names (ASCII text compared letter by letter
/// ignoring ASCII case, other text by its case-folded characters); the
/// contract names the result and states the order of two ASCII strings:
/// lexicographic after ASCII lowercasing.
#[verifier::external_body]
pub(crate) fn text_before(a: &str, b: &str) -> (r: bool)
    ensures
        r == unicase_before(a@, b@),
        all_ascii(a@) && all_ascii(b@) ==> (r <==> lex_before(lowered(a@), lowered(b@))),
{
    unicase::UniCase::new(a) < unicase::UniCase::new(b)
}

/// A user's name and blurb, with the two ways they are shown.
pub struct Name {
    pub name: String,
    pub blurb: Option<String>,
    pub name_blurb: String,
    pub column_display: String,
}

/// The name followed by the blurb in brackets, if there is one.
pub open spec fn name_blurb_spec(name: Seq<char>, blurb: Option<Seq<char>>) -> Seq<char> {
    match blurb {
        Some(b) => name + " ["@ + b + "]"@,
        None => name,
    }
}

/// `s` padded with spaces on the right to `w` characters.
pub open spec fn pad_right(s: Seq<char>, w: nat) -> Seq<char> {
    if s.len() >= w {
        s
    } else {
        s + Seq::new((w - s.len()) as nat, |i: int| ' ')
    }
}

/// The name and blurb for a column of the user list: padded to 33
/// characters and a space, or, when longer than 33 bytes, cut to 32
/// characters and marked with a `+`.
pub open spec fn column_spec(nb: Seq<char>) -> Seq<char> {
    if vstd::utf8::encode_utf8(nb).len() > 33 {
        pad_right(if nb.len() <= 32 { nb } else { nb.take(32) }, 32) + "+ "@
    } else {
        pad_right(nb, 33) + " "@
    }
}

/// Appends spaces to `v` until it holds `w` characters.
pub(crate) fn pad_chars(v: &mut Vec<char>, w: usize)
    ensures
        final(v)@ == pad_right(old(v)@, w as nat),
{
    let ghost start = v@;
    while v.len() < w
        invariant
            v@.len() >= start.len(),
            v@ == start + Seq::new((v@.len() - start.len()) as nat, |i: int| ' '),
            start.len() < w ==> v@.len() <= w,
            start.len() >= w ==> v@.len() == start.len(),
        decreases w - v.len(),
    {
        v.push(' ');
        proof {
            assert(v@ =~= start + Seq::new((v@.len() - start.len()) as nat, |i: int| ' '));
        }
    }
    proof {
        if start.len() >= w {
            assert(v@.len() == start.len());
            assert(Seq::new((v@.len() - start.len()) as nat, |i: int| ' ') =~= Seq::<char>::empty());
            assert(v@ =~= start);
        }
    }
}

impl Name {
    /// Makes a name with an optional blurb.
    pub fn new(name: &str, blurb: Option<&str>) -> (r: Name)
        ensures
            r.name@ == name@,
            r.blurb.is_some() == blurb.is_some(),
            blurb.is_some() ==> r.blurb.unwrap()@ == blurb.unwrap()@,
            r.name_blurb@ == name_blurb_spec(
                name@,
                match blurb {
                    Some(b) => Some(b@),
                    None => None,
                },
            ),
            r.column_display@ == column_spec(r.name_blurb@),
    {
        let name_blurb = match blurb {
            Some(b) => {
                let mut s = String::from_str(name);
                s.append(" [");
                s.append(b);
                s.append("]");
                s
            },
            None => String::from_str(name),
        };
        let chars = str_chars(name_blurb.as_str());
        let mut col: Vec<char> = Vec::new();
        let nb_str = name_blurb.as_str();
        let blen = nb_str.as_bytes().len();
        if blen > 33 {
            let mut i: usize = 0;
            while i < chars.len() && i < 32
                invariant
                    i <= chars.len(),
                    i <= 32,
                    col@ == chars@.take(i as int),
                decreases 32 - i,
            {
                col.push(chars[i]);
                i += 1;
            }
            proof {
                let nb = chars@;
                assert(chars@.take(i as int) =~= (if nb.len() <= 32 { nb } else { nb.take(32) }));
            }
            pad_chars(&mut col, 32);
            col.push('+');
            col.push(' ');
            proof {
                reveal_strlit("+ ");
                let nb = chars@;
                assert(col@ =~= pad_right(if nb.len() <= 32 { nb } else { nb.take(32) }, 32) + "+ "@);
            }
        } else {
            let mut i: usize = 0;
            while i < chars.len()
                invariant
                    i <= chars.len(),
                    col@ == chars@.take(i as int),
                decreases chars.len() - i,
            {
                col.push(chars[i]);
                i += 1;
            }
            proof {
                assert(chars@.take(i as int) =~= chars@);
            }
            pad_chars(&mut col, 33);
            col.push(' ');
            proof {
                reveal_strlit(" ");
                assert(col@ =~= pad_right(chars@, 33) + " "@);
            }
        }
        let column_display = crate::chars::string_from_chars(col);
        Name {
            name: String::from_str(name),
            blurb: match blurb {
                Some(b) => Some(String::from_str(b)),
                None => None,
            },
            name_blurb,
            column_display,
        }
    }

    /// Whether the name has a blurb.
    pub fn has_blurb(&self) -> (r: bool)
        ensures
            r == self.blurb.is_some(),
    {
        self.blurb.is_some()
    }

    /// Whether two names are the same name (compared without regard to
    /// case; blurbs do not count).
    pub fn same(&self, other: &Name) -> (r: bool)
        ensures
            r == unicase_eq(self.name@, other.name@),
    {
        same_text(self.name.as_str(), other.name.as_str())
    }

    /// The name and blurb, or "you" when it is the name of `me`.
    pub fn you<'a>(&'a self, me: &Name) -> (r: &'a str)
        ensures
            r@ == (if unicase_eq(self.name@, me.name@) {
                "you"@
            } else {
                self.name_blurb@
            }),
    {
        if self.same(me) {
            "you"
        } else {
            self.name_blurb.as_str()
        }
    }
}

} // verus!
