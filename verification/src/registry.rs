//! The server's own bookkeeping: the registry of names claimed by
//! signed-on sessions (a claim is a check and an insert in one step, so of
//! two logins racing for one name exactly one wins), and the countdown
//! announcements of a scheduled shutdown or restart.

use vstd::prelude::*;
use vstd::string::StringExecFns;
use crate::chars::{push_str, string_from_chars};
use crate::name::{unicase_eq, same_text};
use crate::session::{digits, push_digits};

verus! {

/// The names claimed by signed-on sessions, compared as names are
/// (folding case).
#[derive(Debug)]
pub struct NameRegistry {
    names: Vec<String>,
}

/// Whether `names` holds a name that compares equal to `name`.
pub open spec fn claimed(names: Seq<Seq<char>>, name: Seq<char>) -> bool {
    exists|j: int| 0 <= j < names.len() && #[trigger] unicase_eq(names[j], name)
}

/// `names` without those that compare equal to `name`.
pub open spec fn without(names: Seq<Seq<char>>, name: Seq<char>) -> Seq<Seq<char>>
    decreases names.len(),
{
    if names.len() == 0 {
        names
    } else {
        let rest = without(names.drop_last(), name);
        if unicase_eq(names.last(), name) {
            rest
        } else {
            rest.push(names.last())
        }
    }
}

impl View for NameRegistry {
    type V = Seq<Seq<char>>;

    closed spec fn view(&self) -> Seq<Seq<char>> {
        self.names@.map_values(|s: String| s@)
    }
}

impl NameRegistry {
    /// No name is claimed.
    pub fn new() -> (r: NameRegistry)
        ensures
            r@ == Seq::<Seq<char>>::empty(),
    {
        let r = NameRegistry { names: Vec::new() };
        assert(r@ =~= Seq::<Seq<char>>::empty());
        r
    }

    /// Whether a name that compares equal to `name` is claimed.
    pub fn is_claimed(&self, name: &str) -> (r: bool)
        ensures
            r == claimed(self@, name@),
            self@.contains(name@) ==> r,
    {
        let mut j: usize = 0;
        while j < self.names.len()
            invariant
                j <= self.names.len(),
                forall|t: int| 0 <= t < j ==> !unicase_eq(#[trigger] self@[t], name@),
                forall|t: int| 0 <= t < j ==> #[trigger] self@[t] != name@,
            decreases self.names.len() - j,
        {
            if same_text(self.names[j].as_str(), name) {
                assert(unicase_eq(self@[j as int], name@));
                return true;
            }
            j += 1;
        }
        proof {
            if self@.contains(name@) {
                let k = choose|k: int| 0 <= k < self@.len() && self@[k] == name@;
                assert(self.names@[k]@ == name@);
            }
        }
        false
    }

    /// Claims a name: succeeds, and records it, unless a name that
    /// compares equal is claimed already; so a name claimed once cannot be
    /// claimed again until it is released.
    pub fn claim(&mut self, name: &str) -> (ok: bool)
        ensures
            ok == !claimed(old(self)@, name@),
            old(self)@.contains(name@) ==> !ok,
            ok ==> final(self)@.contains(name@),
            final(self)@ == (if ok {
                old(self)@.push(name@)
            } else {
                old(self)@
            }),
    {
        if self.is_claimed(name) {
            false
        } else {
            let ghost before = self@;
            self.names.push(String::from_str(name));
            assert(self@ =~= before.push(name@));
            assert(self@[before.len() as int] == name@);
            true
        }
    }

    /// Releases a name: every claimed name that compares equal to it goes.
    pub fn release(&mut self, name: &str)
        ensures
            final(self)@ == without(old(self)@, name@),
    {
        let ghost s = self@;
        let mut kept: Vec<String> = Vec::new();
        let mut j: usize = 0;
        while j < self.names.len()
            invariant
                j <= self.names.len(),
                s == self@,
                kept@.map_values(|t: String| t@) == without(s.take(j as int), name@),
            decreases self.names.len() - j,
        {
            let ghost before = kept@;
            proof {
                assert(s.take(j + 1).drop_last() =~= s.take(j as int));
                assert(s.take(j + 1).last() == s[j as int]);
            }
            if !same_text(self.names[j].as_str(), name) {
                let t = self.names[j].clone();
                kept.push(t);
                proof {
                    assert(kept@.map_values(|t: String| t@) =~= before.map_values(|t: String| t@).push(
                        s[j as int],
                    ));
                }
            }
            j += 1;
        }
        proof {
            assert(s.take(j as int) =~= s);
        }
        self.names = kept;
    }
}

/// After a release no claimed name compares equal to the released one.
pub proof fn lemma_release_frees(names: Seq<Seq<char>>, name: Seq<char>)
    ensures
        !claimed(without(names, name), name),
    decreases names.len(),
{
    if names.len() > 0 {
        lemma_release_frees(names.drop_last(), name);
        let rest = without(names.drop_last(), name);
        if !unicase_eq(names.last(), name) {
            assert forall|j: int| 0 <= j < rest.len() + 1 implies !unicase_eq(
                #[trigger] rest.push(names.last())[j],
                name,
            ) by {
                if j < rest.len() {
                    assert(rest.push(names.last())[j] == rest[j]);
                }
            }
        }
    }
}

/// The announcement made with `remaining` seconds left before a shutdown
/// or restart, if one is made then.
pub open spec fn countdown_spec(remaining: nat, restart: bool) -> Option<Seq<char>> {
    let action = if restart {
        "restarting"@
    } else {
        "shutting down"@
    };
    let when = if remaining == 300 {
        Some("5 minutes"@)
    } else if remaining == 180 {
        Some("3 minutes"@)
    } else if remaining == 120 {
        Some("2 minutes"@)
    } else if remaining == 60 {
        Some("1 minute"@)
    } else if remaining == 30 || remaining == 10 || (2 <= remaining <= 5) {
        Some(digits(remaining) + " seconds"@)
    } else if remaining == 1 {
        Some("1 second"@)
    } else if remaining == 0 {
        Some("NOW"@)
    } else {
        None
    };
    match when {
        Some(w) => Some(
            "*** Server "@ + action + if remaining == 0 {
                " "@
            } else {
                " in "@
            } + w + " ***\n"@,
        ),
        None => None,
    }
}

/// The announcement made with `remaining` seconds left (0: the moment of
/// the shutdown or restart itself), if one is made then.
pub fn countdown_announcement(remaining: u64, restart: bool) -> (r: Option<String>)
    ensures
        (match r {
            Some(s) => Some(s@),
            None => None,
        }) == countdown_spec(remaining as nat, restart),
{
    let action = if restart {
        "restarting"
    } else {
        "shutting down"
    };
    let mut v: Vec<char> = Vec::new();
    push_str(&mut v, "*** Server ");
    push_str(&mut v, action);
    if remaining == 0 {
        push_str(&mut v, " ");
    } else {
        push_str(&mut v, " in ");
    }
    let ghost head = v@;
    if remaining == 300 {
        push_str(&mut v, "5 minutes");
    } else if remaining == 180 {
        push_str(&mut v, "3 minutes");
    } else if remaining == 120 {
        push_str(&mut v, "2 minutes");
    } else if remaining == 60 {
        push_str(&mut v, "1 minute");
    } else if remaining == 30 || remaining == 10 || (2 <= remaining && remaining <= 5) {
        push_digits(&mut v, remaining);
        push_str(&mut v, " seconds");
    } else if remaining == 1 {
        push_str(&mut v, "1 second");
    } else if remaining == 0 {
        push_str(&mut v, "NOW");
    } else {
        return None;
    }
    push_str(&mut v, " ***\n");
    assert(v@ =~= countdown_spec(remaining as nat, restart).unwrap());
    Some(string_from_chars(v))
}

} // verus!
