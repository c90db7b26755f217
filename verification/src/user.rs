//! User accounts: the lines of the password file, reserved names, and
//! password checks.

use vstd::prelude::*;
use vstd::string::StringExecFns;
use crate::chars::{chars_eq_ignore_ascii_case, seq_eq_ic, str_chars, string_from_chars};
use crate::session::comma_pieces;
use crate::words::{trim, trim_spec};
use argon2::PasswordVerifier;
use argon2::password_hash::PasswordHasher;

verus! {

// ---------------------------------------------------------------------------
// Passwords
// ---------------------------------------------------------------------------

/// Whether `PasswordHash::new` accepts a string as a PHC hash.
pub uninterp spec fn phc_parses(encrypted: Seq<char>) -> bool;

/// Whether Argon2 (default parameters) accepts a password for a PHC hash.
pub uninterp spec fn argon2_accepts(input: Seq<char>, encrypted: Seq<char>) -> bool;

/// Whether `pwhash::unix::verify` accepts a password for a crypt(3) hash.
pub uninterp spec fn crypt_accepts(input: Seq<char>, encrypted: Seq<char>) -> bool;

/// Calls `password_hash::PasswordHash::new`: whether the string parses as
/// a PHC hash (the result is named only).
#[verifier::external_body]
fn phc_hash_parses(encrypted: &str) -> (r: bool)
    ensures
        r == phc_parses(encrypted@),
{
    argon2::PasswordHash::new(encrypted).is_ok()
}

/// Calls `argon2::Argon2::default().verify_password` on the parsed hash:
/// whether the password matches (the result is named only).
#[verifier::external_body]
fn argon2_verify(input: &str, encrypted: &str) -> (r: bool)
    requires
        phc_parses(encrypted@),
    ensures
        r == argon2_accepts(input@, encrypted@),
{
    match argon2::PasswordHash::new(encrypted) {
        Ok(h) => argon2::Argon2::default().verify_password(input.as_bytes(), &h).is_ok(),
        Err(_) => false,
    }
}

/// Whether a stored hash holds a character outside U+0020..U+007F, which
/// no crypt(3) hash does (crypt(3) hashes are printable ASCII).
pub open spec fn has_non_crypt_char(encrypted: Seq<char>) -> bool {
    exists|i: int| 0 <= i < encrypted.len() && !(0x20 <= (#[trigger] encrypted[i] as u32) < 0x80)
}

/// Calls `pwhash::unix::verify`, which recognizes the crypt(3) format of
/// the hash and compares; the result is named only.  Its decoding
/// subtracts 0x20 from each character it reads and looks the difference up
/// in a 96-entry table, so only hashes of characters U+0020..U+007F are
/// handed to it.
#[verifier::external_body]
fn crypt_verify(input: &str, encrypted: &str) -> (r: bool)
    requires
        !has_non_crypt_char(encrypted@),
    ensures
        r == crypt_accepts(input@, encrypted@),
{
    pwhash::unix::verify(input, encrypted)
}

/// Calls `argon2::Argon2::default().hash_password` with a fresh random
/// salt from the operating system and writes the hash as a PHC string.
/// The hash depends on the salt, so only what the crate documents of every
/// such string is claimed: it parses as a PHC hash, and the password it was
/// made from verifies against it.
#[verifier::external_body]
fn argon2_hash(password: &str) -> (r: Option<String>)
    ensures
        r matches Some(h) ==> phc_parses(h@) && argon2_accepts(password@, h@),
{
    let salt = argon2::password_hash::SaltString::generate(&mut argon2::password_hash::rand_core::OsRng);
    match argon2::Argon2::default().hash_password(password.as_bytes(), &salt) {
        Ok(h) => Some(h.to_string()),
        Err(_) => None,
    }
}

/// Whether a password matches a stored hash: an Argon2 PHC hash when the
/// hash parses as one, else a traditional crypt(3) hash (which is
/// printable ASCII: no password matches a hash with any other character).
pub open spec fn password_matches(input: Seq<char>, encrypted: Seq<char>) -> bool {
    if phc_parses(encrypted) {
        argon2_accepts(input, encrypted)
    } else if has_non_crypt_char(encrypted) {
        false
    } else {
        crypt_accepts(input, encrypted)
    }
}

/// Whether a string holds a character outside U+0020..U+007F (see
/// `has_non_crypt_char`).
fn holds_non_crypt_char(s: &str) -> (r: bool)
    ensures
        r == has_non_crypt_char(s@),
{
    let cs = str_chars(s);
    let mut i: usize = 0;
    while i < cs.len()
        invariant
            i <= cs.len(),
            cs@ == s@,
            forall|j: int| 0 <= j < i ==> 0x20 <= (#[trigger] cs@[j] as u32) < 0x80,
        decreases cs.len() - i,
    {
        let c = cs[i] as u32;
        if c < 0x20 || c >= 0x80 {
            assert(!(0x20 <= (cs@[i as int] as u32) < 0x80));
            return true;
        }
        i += 1;
    }
    false
}

/// Whether a password matches a stored hash.
pub fn verify_password(input: &str, encrypted: &str) -> (r: bool)
    ensures
        r == password_matches(input@, encrypted@),
{
    if phc_hash_parses(encrypted) {
        argon2_verify(input, encrypted)
    } else if holds_non_crypt_char(encrypted) {
        false
    } else {
        crypt_verify(input, encrypted)
    }
}

/// Hashing a new password failed.
#[derive(Debug, Clone, Copy, PartialEq, Eq, Structural)]
pub struct HashError;

/// Hashes a new password with Argon2 and a random salt; the password
/// then matches the hash.
pub fn hash_password(password: &str) -> (r: Result<String, HashError>)
    ensures
        r matches Ok(h) ==> password_matches(password@, h@),
{
    match argon2_hash(password) {
        Some(h) => Ok(h),
        None => Err(HashError),
    }
}

// ---------------------------------------------------------------------------
// The password file
// ---------------------------------------------------------------------------

/// The value of a string of decimal digits.
pub open spec fn decimal(s: Seq<char>) -> int
    decreases s.len(),
{
    if s.len() == 0 {
        0
    } else {
        decimal(s.drop_last()) * 10 + (s.last() as int - 48)
    }
}

/// Only ASCII digits, at least one.
pub open spec fn all_digits(s: Seq<char>) -> bool {
    s.len() > 0 && forall|i: int| 0 <= i < s.len() ==> '0' <= #[trigger] s[i] <= '9'
}

/// What `str::parse::<i32>` makes of a string: an optional sign and
/// digits, in range; `None` otherwise.
pub open spec fn parse_i32_spec(s: Seq<char>) -> Option<i32> {
    let (neg, ds) = if s.len() > 0 && s[0] == '-' {
        (true, s.drop_first())
    } else if s.len() > 0 && s[0] == '+' {
        (false, s.drop_first())
    } else {
        (false, s)
    };
    if !all_digits(ds) {
        None
    } else {
        let v = if neg {
            -decimal(ds)
        } else {
            decimal(ds)
        };
        if i32::MIN <= v <= i32::MAX {
            Some(v as i32)
        } else {
            None
        }
    }
}

proof fn lemma_decimal_nonneg(s: Seq<char>)
    requires
        forall|i: int| 0 <= i < s.len() ==> '0' <= #[trigger] s[i] <= '9',
    ensures
        decimal(s) >= 0,
    decreases s.len(),
{
    if s.len() > 0 {
        lemma_decimal_nonneg(s.drop_last());
    }
}

proof fn lemma_decimal_grows(s: Seq<char>, t: Seq<char>)
    requires
        t.len() <= s.len(),
        t == s.take(t.len() as int),
        forall|i: int| 0 <= i < s.len() ==> '0' <= #[trigger] s[i] <= '9',
    ensures
        decimal(t) <= decimal(s),
    decreases s.len(),
{
    if t.len() < s.len() {
        assert(s.drop_last().take(t.len() as int) =~= t);
        lemma_decimal_grows(s.drop_last(), t);
        lemma_decimal_nonneg(s.drop_last());
    } else {
        assert(t =~= s);
    }
}

/// Reads a decimal integer (`str::parse::<i32>`).
pub fn parse_i32(s: &str) -> (r: Option<i32>)
    ensures
        r == parse_i32_spec(s@),
{
    let cs = str_chars(s);
    let mut start: usize = 0;
    let mut neg = false;
    if cs.len() > 0 && cs[0] == '-' {
        neg = true;
        start = 1;
    } else if cs.len() > 0 && cs[0] == '+' {
        start = 1;
    }
    let ghost ds = cs@.skip(start as int);
    proof {
        if start == 1 {
            assert(ds =~= cs@.drop_first());
        } else {
            assert(ds =~= cs@);
        }
    }
    if start >= cs.len() {
        proof {
            assert(ds.len() == 0);
        }
        return None;
    }
    let mut v: i64 = 0;
    let mut i = start;
    while i < cs.len()
        invariant
            start <= i <= cs.len(),
            cs@ == s@,
            ds == cs@.skip(start as int),
            start <= 1,
            start == 1 ==> ds == s@.drop_first(),
            start == 0 ==> ds == s@,
            (start == 1) == (s@.len() > 0 && (s@[0] == '-' || s@[0] == '+')),
            neg == (s@.len() > 0 && s@[0] == '-'),
            forall|k: int| 0 <= k < i - start ==> '0' <= #[trigger] ds[k] <= '9',
            v == decimal(ds.take(i - start)),
            0 <= v <= 0x8000_0000,
        decreases cs.len() - i,
    {
        let c = cs[i];
        assert(ds[i - start] == c);
        if c < '0' || c > '9' {
            proof {
                assert(!('0' <= ds[i - start] <= '9'));
                assert(!all_digits(ds));
            }
            return None;
        }
        let d = (c as u32 - 48) as i64;
        proof {
            assert(ds.take(i - start + 1).drop_last() =~= ds.take(i - start));
        }
        if v * 10 + d > 0x8000_0000 {
            proof {
                let k = i - start + 1;
                assert(ds.take(k).last() == c);
                assert(decimal(ds.take(k)) == v * 10 + d);
                if all_digits(ds) {
                    assert(ds.take(k).len() == k);
                    lemma_decimal_grows(ds, ds.take(k));
                    assert(decimal(ds) > 0x8000_0000);
                }
                assert(parse_i32_spec(s@) is None);
            }
            return None;
        }
        v = v * 10 + d;
        i += 1;
    }
    proof {
        assert(ds.take(i - start) =~= ds);
        assert(ds.len() > 0);
        assert(all_digits(ds));
    }
    if neg {
        Some((-v) as i32)
    } else if v <= 0x7fff_ffff {
        Some(v as i32)
    } else {
        None
    }
}

/// An account as the password file gives it.
#[derive(Debug, Clone)]
pub struct PasswdEntry {
    pub username: String,
    pub password: Option<String>,
    pub names: Option<String>,
    pub priv_level: i32,
}

/// A comment or blank line of the password file.
pub open spec fn skipped_line(line: Seq<char>) -> bool {
    (line.len() > 0 && line[0] == '#') || trim_spec(line).len() == 0
}

/// The fields of a password file line, between colons.
pub open spec fn colon_fields(line: Seq<char>) -> Seq<Seq<char>>
    decreases line.len(),
{
    if line.len() == 0 {
        seq![Seq::empty()]
    } else {
        let rest = colon_fields(line.drop_last());
        if line.last() == ':' {
            rest.push(Seq::empty())
        } else {
            rest.update(rest.len() - 1, rest.last().push(line.last()))
        }
    }
}

proof fn lemma_colon_fields_nonempty(s: Seq<char>)
    ensures
        colon_fields(s).len() >= 1,
    decreases s.len(),
{
    if s.len() > 0 {
        lemma_colon_fields_nonempty(s.drop_last());
    }
}

/// Splits a line at colons.
fn split_colons(cs: &Vec<char>) -> (r: Vec<Vec<char>>)
    ensures
        r@.map_values(|f: Vec<char>| f@) == colon_fields(cs@),
{
    let mut out: Vec<Vec<char>> = Vec::new();
    let mut cur: Vec<char> = Vec::new();
    let mut i: usize = 0;
    proof {
        assert(cs@.take(0) =~= Seq::<char>::empty());
        assert(out@.map_values(|f: Vec<char>| f@).push(cur@) =~= colon_fields(cs@.take(0)));
    }
    while i < cs.len()
        invariant
            i <= cs.len(),
            out@.map_values(|f: Vec<char>| f@).push(cur@) == colon_fields(cs@.take(i as int)),
        decreases cs.len() - i,
    {
        let c = cs[i];
        let ghost before = out@.map_values(|f: Vec<char>| f@);
        let ghost cur0 = cur@;
        proof {
            assert(cs@.take(i + 1).drop_last() =~= cs@.take(i as int));
            lemma_colon_fields_nonempty(cs@.take(i as int));
        }
        if c == ':' {
            let done = cur;
            out.push(done);
            cur = Vec::new();
            proof {
                assert(out@.map_values(|f: Vec<char>| f@) =~= before.push(cur0));
                assert(out@.map_values(|f: Vec<char>| f@).push(cur@) =~= colon_fields(cs@.take(i + 1)));
            }
        } else {
            cur.push(c);
            proof {
                assert(out@.map_values(|f: Vec<char>| f@).push(cur@) =~= before.push(cur0).update(
                    before.len() as int,
                    cur0.push(c),
                ));
            }
        }
        i += 1;
    }
    out.push(cur);
    proof {
        assert(cs@.take(cs.len() as int) =~= cs@);
    }
    out
}

/// What a password file line gives: `username:password:names:priv`, each
/// part may be empty (no password, no reserved names); a priv level that
/// does not parse counts as 0; comments, blank lines and lines of fewer
/// than four fields give nothing.
pub open spec fn passwd_line_spec(line: Seq<char>) -> Option<(Seq<char>, Option<Seq<char>>, Option<Seq<char>>, i32)> {
    let f = colon_fields(line);
    if skipped_line(line) || f.len() < 4 {
        None
    } else {
        Some((
            f[0],
            if f[1].len() == 0 { None } else { Some(f[1]) },
            if f[2].len() == 0 { None } else { Some(f[2]) },
            match parse_i32_spec(f[3]) {
                Some(p) => p,
                None => 0,
            },
        ))
    }
}

impl PasswdEntry {
    /// The entry as plain values.
    pub open spec fn spec(&self) -> (Seq<char>, Option<Seq<char>>, Option<Seq<char>>, i32) {
        (
            self.username@,
            match self.password {
                Some(p) => Some(p@),
                None => None,
            },
            match self.names {
                Some(n) => Some(n@),
                None => None,
            },
            self.priv_level,
        )
    }
}

/// Reads a line of the password file.
pub fn parse_passwd_line(line: &str) -> (r: Option<PasswdEntry>)
    ensures
        match r {
            Some(e) => passwd_line_spec(line@) == Some(e.spec()),
            None => passwd_line_spec(line@) is None,
        },
{
    let cs = str_chars(line);
    if (cs.len() > 0 && cs[0] == '#') || trim(line).is_empty() {
        return None;
    }
    let f = split_colons(&cs);
    proof {
        assert(f@.map_values(|x: Vec<char>| x@).len() == f@.len());
    }
    if f.len() < 4 {
        return None;
    }
    proof {
        assert(f@.map_values(|x: Vec<char>| x@)[0] == f@[0]@);
        assert(f@.map_values(|x: Vec<char>| x@)[1] == f@[1]@);
        assert(f@.map_values(|x: Vec<char>| x@)[2] == f@[2]@);
        assert(f@.map_values(|x: Vec<char>| x@)[3] == f@[3]@);
    }
    let username = string_from_chars(f[0].clone());
    let password = if f[1].len() == 0 {
        None
    } else {
        Some(string_from_chars(f[1].clone()))
    };
    let names = if f[2].len() == 0 {
        None
    } else {
        Some(string_from_chars(f[2].clone()))
    };
    let p = string_from_chars(f[3].clone());
    let priv_level = match parse_i32(p.as_str()) {
        Some(v) => v,
        None => 0,
    };
    Some(PasswdEntry { username, password, names, priv_level })
}

// ---------------------------------------------------------------------------
// Reserved names
// ---------------------------------------------------------------------------

/// The pieces of a list, each trimmed, without those left empty.
pub open spec fn trimmed_pieces(ps: Seq<Seq<char>>) -> Seq<Seq<char>>
    decreases ps.len(),
{
    if ps.len() == 0 {
        Seq::empty()
    } else {
        let rest = trimmed_pieces(ps.drop_last());
        if trim_spec(ps.last()).len() > 0 {
            rest.push(trim_spec(ps.last()))
        } else {
            rest
        }
    }
}

/// The names an account reserves: the comma-separated list, trimmed,
/// without empty entries.
pub open spec fn reserved_spec(names: Seq<char>) -> Seq<Seq<char>> {
    trimmed_pieces(comma_pieces(names))
}

/// Appends `piece`, trimmed, unless it is left empty.
fn push_trimmed(out: &mut Vec<String>, piece: Vec<char>)
    ensures
        final(out)@.map_values(|x: String| x@) == if trim_spec(piece@).len() > 0 {
            old(out)@.map_values(|x: String| x@).push(trim_spec(piece@))
        } else {
            old(out)@.map_values(|x: String| x@)
        },
{
    let p = string_from_chars(piece);
    let t = trim(p.as_str());
    if str_chars(t).len() > 0 {
        let ghost before = out@.map_values(|x: String| x@);
        out.push(String::from_str(t));
        proof {
            assert(out@.map_values(|x: String| x@) =~= before.push(trim_spec(piece@)));
        }
    }
}

/// The names an account reserves (see `reserved_spec`).
pub fn reserved_names(names: &str) -> (r: Vec<String>)
    ensures
        r@.map_values(|x: String| x@) == reserved_spec(names@),
{
    let cs = str_chars(names);
    let mut out: Vec<String> = Vec::new();
    let mut cur: Vec<char> = Vec::new();
    let mut i: usize = 0;
    proof {
        assert(cs@.take(0) =~= Seq::<char>::empty());
        assert(comma_pieces(cs@.take(0)).drop_last() =~= Seq::<Seq<char>>::empty());
        assert(out@.map_values(|x: String| x@) =~= Seq::<Seq<char>>::empty());
    }
    while i < cs.len()
        invariant
            i <= cs.len(),
            cs@ == names@,
            comma_pieces(cs@.take(i as int)).len() >= 1,
            cur@ == comma_pieces(cs@.take(i as int)).last(),
            out@.map_values(|x: String| x@) == trimmed_pieces(comma_pieces(cs@.take(i as int)).drop_last()),
        decreases cs.len() - i,
    {
        let c = cs[i];
        let ghost ps = comma_pieces(cs@.take(i as int));
        proof {
            assert(cs@.take(i + 1).drop_last() =~= cs@.take(i as int));
            assert(cs@.take(i + 1).last() == c);
        }
        if c == ',' {
            let done = cur;
            cur = Vec::new();
            push_trimmed(&mut out, done);
            proof {
                let ps2 = comma_pieces(cs@.take(i + 1));
                assert(ps2 == ps.push(Seq::empty()));
                assert(ps2.drop_last() =~= ps);
            }
        } else {
            cur.push(c);
            proof {
                let ps2 = comma_pieces(cs@.take(i + 1));
                assert(ps2.drop_last() =~= ps.drop_last());
            }
        }
        i += 1;
    }
    push_trimmed(&mut out, cur);
    proof {
        assert(cs@.take(i as int) =~= cs@);
    }
    out
}

/// The first reserved name equal to `name` up to ASCII case.
pub open spec fn find_reserved_spec(reserved: Seq<Seq<char>>, name: Seq<char>) -> Option<Seq<char>>
    decreases reserved.len(),
{
    if reserved.len() == 0 {
        None
    } else if seq_eq_ic(reserved[0], name) {
        Some(reserved[0])
    } else {
        find_reserved_spec(reserved.drop_first(), name)
    }
}

/// The first reserved name equal to `name` up to ASCII case.
pub fn find_reserved(reserved: &Vec<String>, name: &str) -> (r: Option<String>)
    ensures
        match r {
            Some(s) => find_reserved_spec(reserved@.map_values(|x: String| x@), name@) == Some(s@),
            None => find_reserved_spec(reserved@.map_values(|x: String| x@), name@) is None,
        },
{
    let nc = str_chars(name);
    let mut i: usize = 0;
    proof {
        assert(reserved@.map_values(|x: String| x@).skip(0) =~= reserved@.map_values(|x: String| x@));
    }
    while i < reserved.len()
        invariant
            i <= reserved.len(),
            nc@ == name@,
            find_reserved_spec(reserved@.map_values(|x: String| x@), name@) == find_reserved_spec(
                reserved@.map_values(|x: String| x@).skip(i as int),
                name@,
            ),
        decreases reserved.len() - i,
    {
        let rc = str_chars(reserved[i].as_str());
        proof {
            let m = reserved@.map_values(|x: String| x@);
            assert(m.skip(i as int)[0] == reserved@[i as int]@);
            assert(m.skip(i as int).drop_first() =~= m.skip(i + 1));
        }
        if chars_eq_ignore_ascii_case(&rc, &nc) {
            return Some(String::from_str(reserved[i].as_str()));
        }
        i += 1;
    }
    None
}

} // verus!
