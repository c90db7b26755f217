//! Who `/who`, `/idle` and `/why` list: the sessions that the names among
//! the arguments reach (as a sendlist: a discussion's name lists its
//! members), together with those in the categories asked for, in the order
//! of their keys; with the message and the reports that go with the list.

use vstd::prelude::*;
use vstd::string::StringExecFns;
use crate::chars::{push_str, string_from_chars};
use crate::constants::SEPARATOR;
use crate::sendable::Candidate;
use crate::sendlist::{Sendlist, SendlistView, empty_sendlist, member_keys, set_spec};
use crate::session::{
    FilterSpec, SessionInfo, WhoFilter, nobody_message, nobody_spec, others_message, others_spec, who_filter,
    who_filter_spec, who_includes, who_includes_spec,
};
use crate::telnet::{lemma_texts, texts};

verus! {

/// The names joined into one typed sendlist, with the separator between
/// them.
pub open spec fn joined_names(names: Seq<Seq<char>>) -> Seq<char>
    decreases names.len(),
{
    if names.len() == 0 {
        Seq::empty()
    } else if names.len() == 1 {
        names[0]
    } else {
        joined_names(names.drop_last()) + seq![SEPARATOR] + names.last()
    }
}

/// Whether the keys are in ascending order, each once.
pub open spec fn ascending(s: Seq<u64>) -> bool {
    forall|i: int, j: int| 0 <= i < j < s.len() ==> s[i] < s[j]
}

/// The sendlist made of the names among the arguments.
pub open spec fn named_sendlist(
    f: FilterSpec,
    me: u64,
    sessions: Seq<Candidate>,
    discussions: Seq<Candidate>,
) -> SendlistView {
    set_spec(empty_sendlist(), joined_names(f.names), me, sessions, discussions, true, true, true)
}

/// Whom the names among the arguments reach: the sessions they name and the
/// members of the discussions they name (`members` pairs a discussion's key
/// with its members' keys).
pub open spec fn named_keys(
    f: FilterSpec,
    me: u64,
    sessions: Seq<Candidate>,
    discussions: Seq<Candidate>,
    members: Seq<(u64, Vec<u64>)>,
) -> Set<u64> {
    if f.names.len() == 0 {
        Set::empty()
    } else {
        let v = named_sendlist(f, me, sessions, discussions);
        v.sessions + member_keys(members, v.discussions, None)
    }
}

/// The signed-on sessions in the categories asked for.
pub open spec fn filtered_keys(f: FilterSpec, infos: Seq<SessionInfo>) -> Set<u64> {
    Set::new(
        |k: u64|
            f.has_filters() && exists|i: int|
                0 <= i < infos.len() && infos[i].key == k && #[trigger] who_includes_spec(f, infos[i]),
    )
}

/// Whether one of the first `n` sessions described has key `k` and is in
/// the categories asked for.
pub open spec fn included_among(f: FilterSpec, infos: Seq<SessionInfo>, n: int, k: u64) -> bool {
    exists|j: int| 0 <= j < n && infos[j].key == k && #[trigger] who_includes_spec(f, infos[j])
}

/// The keys listed for the arguments (none when no one is signed on).
pub open spec fn who_keys(
    args: Seq<char>,
    me: u64,
    sessions: Seq<Candidate>,
    discussions: Seq<Candidate>,
    members: Seq<(u64, Vec<u64>)>,
    infos: Seq<SessionInfo>,
) -> Set<u64> {
    let f = who_filter_spec(args);
    if infos.len() == 0 {
        Set::empty()
    } else {
        named_keys(f, me, sessions, discussions, members) + filtered_keys(f, infos)
    }
}

/// The reports of names that matched no one or several.
pub open spec fn who_errors(
    args: Seq<char>,
    me: u64,
    sessions: Seq<Candidate>,
    discussions: Seq<Candidate>,
    infos: Seq<SessionInfo>,
) -> Seq<char> {
    let f = who_filter_spec(args);
    if infos.len() == 0 || f.names.len() == 0 {
        Seq::empty()
    } else {
        named_sendlist(f, me, sessions, discussions).errors
    }
}

/// The message that goes with the list of `shown` sessions: that nobody is
/// signed on, that nobody is in the categories asked for, or how many
/// others are signed on.
pub open spec fn who_message(args: Seq<char>, infos: Seq<SessionInfo>, shown: nat) -> Seq<char> {
    let f = who_filter_spec(args);
    if infos.len() == 0 {
        "Nobody is signed on.\n"@
    } else if shown == 0 {
        nobody_spec(f)
    } else if f.has_filters() {
        others_spec(infos.len() as int, shown as int)
    } else {
        Seq::empty()
    }
}

/// The sessions a listing shows, with its message and reports.
pub struct WhoSet {
    pub shown: Vec<u64>,
    pub errors: String,
    pub msg: String,
}

/// Joins the names with the separator (see `joined_names`).
fn join_names(names: &Vec<String>) -> (r: String)
    ensures
        r@ == joined_names(texts(names@)),
{
    proof {
        lemma_texts(names@);
    }
    let mut v: Vec<char> = Vec::new();
    let mut i: usize = 0;
    proof {
        assert(texts(names@).take(0) =~= Seq::<Seq<char>>::empty());
    }
    while i < names.len()
        invariant
            i <= names.len(),
            texts(names@).len() == names@.len(),
            forall|j: int| 0 <= j < names@.len() ==> #[trigger] texts(names@)[j] == names@[j]@,
            v@ == joined_names(texts(names@).take(i as int)),
        decreases names.len() - i,
    {
        let ghost t = texts(names@);
        proof {
            assert(t.take(i + 1).drop_last() =~= t.take(i as int));
            assert(t.take(i + 1).last() == names@[i as int]@);
        }
        if i > 0 {
            v.push(SEPARATOR);
        }
        push_str(&mut v, names[i].as_str());
        proof {
            if i == 0 {
                assert(t.take(1).len() == 1);
                assert(v@ =~= t.take(1)[0]);
            } else {
                assert(v@ =~= joined_names(t.take(i as int)) + seq![SEPARATOR] + t.take(i + 1).last());
            }
        }
        i += 1;
    }
    proof {
        assert(texts(names@).take(names.len() as int) =~= texts(names@));
    }
    string_from_chars(v)
}

/// Adds a key to keys kept in ascending order.
fn insert_ascending(v: &mut Vec<u64>, k: u64)
    requires
        ascending(old(v)@),
    ensures
        ascending(final(v)@),
        final(v)@.to_set() == old(v)@.to_set().insert(k),
{
    let mut i: usize = 0;
    while i < v.len() && v[i] < k
        invariant
            i <= v.len(),
            v@ == old(v)@,
            forall|j: int| 0 <= j < i ==> v@[j] < k,
        decreases v.len() - i,
    {
        i += 1;
    }
    if i < v.len() && v[i] == k {
        proof {
            assert(old(v)@[i as int] == k);
            assert(old(v)@.contains(k));
            assert(old(v)@.to_set().insert(k) =~= old(v)@.to_set());
        }
        return;
    }
    let ghost s0 = v@;
    v.insert(i, k);
    proof {
        assert(v@ == s0.insert(i as int, k));
        assert forall|a: int, b: int| 0 <= a < b < v@.len() implies v@[a] < v@[b] by {
            if b < i {
            } else if a < i && b == i {
            } else if a < i {
                assert(s0[a] < k);
                assert(i < s0.len() ==> k < s0[i as int]);
                assert(s0[i as int] <= s0[b - 1]);
            } else if a == i {
                assert(k < s0[i as int]);
                assert(s0[i as int] <= s0[b - 1]);
            } else {
            }
        }
        assert forall|x: u64| v@.to_set().contains(x) <==> s0.to_set().insert(k).contains(x) by {
            if v@.contains(x) {
                let t = choose|t: int| 0 <= t < v@.len() && v@[t] == x;
                if t < i {
                    assert(s0[t] == x);
                } else if t > i {
                    assert(s0[t - 1] == x);
                }
            }
            if s0.contains(x) {
                let t = choose|t: int| 0 <= t < s0.len() && s0[t] == x;
                if t < i {
                    assert(v@[t] == x);
                } else {
                    assert(v@[t + 1] == x);
                }
            }
            if x == k {
                assert(v@[i as int] == k);
            }
        }
        assert(v@.to_set() =~= s0.to_set().insert(k));
    }
}

/// The sessions `/who`, `/idle` and `/why` list for `args`, asked by `me`:
/// those the names among the arguments reach as a sendlist, and those in
/// the categories asked for, each once in ascending order of keys; with the
/// reports of names that matched no one or several, and the message (see
/// `who_keys`, `who_errors` and `who_message`).  `sessions` and `infos`
/// describe the signed-on sessions; `discussions` and `members` the
/// discussions.
pub fn who_set(
    me: u64,
    args: &str,
    sessions: &Vec<Candidate>,
    discussions: &Vec<Candidate>,
    members: &Vec<(u64, Vec<u64>)>,
    infos: &Vec<SessionInfo>,
) -> (r: WhoSet)
    ensures
        ascending(r.shown@),
        r.shown@.to_set() == who_keys(args@, me, sessions@, discussions@, members@, infos@),
        r.errors@ == who_errors(args@, me, sessions@, discussions@, infos@),
        r.msg@ == who_message(args@, infos@, r.shown@.len()),
{
    if infos.len() == 0 {
        proof {
            assert(Seq::<u64>::empty().to_set() =~= Set::<u64>::empty());
        }
        return WhoSet { shown: Vec::new(), errors: String::new(), msg: String::from_str("Nobody is signed on.\n") };
    }
    let f = who_filter(args);
    let ghost fs = f.spec();
    proof {
        lemma_texts(f.names@);
    }
    let mut shown: Vec<u64> = Vec::new();
    let mut errors = String::new();
    proof {
        assert(shown@.to_set() =~= Set::<u64>::empty());
    }
    if f.names.len() > 0 {
        let typed = join_names(&f.names);
        let list = Sendlist::new(me, typed.as_str(), true, true, true, sessions, discussions);
        let who = list.expand(members, None);
        errors = list.errors();
        let mut i: usize = 0;
        while i < who.len()
            invariant
                i <= who.len(),
                ascending(shown@),
                shown@.to_set() == who@.take(i as int).to_set(),
            decreases who.len() - i,
        {
            insert_ascending(&mut shown, who[i]);
            proof {
                assert(who@.take(i + 1) =~= who@.take(i as int).push(who@[i as int]));
                who@.take(i as int).lemma_push_to_set_commute(who@[i as int]);
                assert(who@.take(i + 1).to_set() =~= who@.take(i as int).to_set().insert(who@[i as int]));
            }
            i += 1;
        }
        proof {
            assert(who@.take(who.len() as int) =~= who@);
        }
    }
    let ghost named = shown@.to_set();
    assert(named == named_keys(fs, me, sessions@, discussions@, members@));
    let has_filters = f.everyone || f.here || f.away || f.busy || f.gone || f.attached || f.detached
        || f.active || f.inactive || f.idle || f.unidle || f.privileged || f.guests;
    if has_filters {
        let mut i: usize = 0;
        while i < infos.len()
            invariant
                i <= infos.len(),
                has_filters == fs.has_filters(),
                fs == f.spec(),
                ascending(shown@),
                i == 0 ==> shown@.to_set() == named,
                forall|k: u64|
                    #[trigger] shown@.to_set().contains(k) <==> (named.contains(k) || included_among(fs, infos@, i as int, k)),
            decreases infos.len() - i,
        {
            let ghost before = shown@.to_set();
            let inc = who_includes(&f, &infos[i]);
            if inc {
                insert_ascending(&mut shown, infos[i].key);
            }
            proof {
                let key = infos@[i as int].key;
                assert(inc == who_includes_spec(fs, infos@[i as int]));
                assert(shown@.to_set() == if inc { before.insert(key) } else { before });
                assert forall|k: u64|
                    #[trigger] shown@.to_set().contains(k) <==> (named.contains(k) || included_among(fs, infos@, i + 1, k)) by {
                    assert(before.contains(k) == (named.contains(k) || included_among(fs, infos@, i as int, k)));
                    if included_among(fs, infos@, i + 1, k) {
                        let j = choose|j: int| 0 <= j < i + 1 && infos@[j].key == k && #[trigger] who_includes_spec(fs, infos@[j]);
                        if j < i {
                            assert(included_among(fs, infos@, i as int, k));
                        } else {
                            assert(inc && k == key);
                        }
                    }
                    if included_among(fs, infos@, i as int, k) {
                        let j = choose|j: int| 0 <= j < i && infos@[j].key == k && #[trigger] who_includes_spec(fs, infos@[j]);
                        assert(included_among(fs, infos@, i + 1, k));
                    }
                    if inc && k == key {
                        assert(infos@[i as int].key == k && who_includes_spec(fs, infos@[i as int]));
                        assert(included_among(fs, infos@, i + 1, k));
                    }
                }
            }
            i += 1;
        }
    }
    proof {
        assert(shown@.to_set() =~= who_keys(args@, me, sessions@, discussions@, members@, infos@));
    }
    let msg = if shown.len() == 0 {
        nobody_message(&f)
    } else if has_filters {
        others_message(infos.len(), shown.len())
    } else {
        String::new()
    };
    WhoSet { shown, errors, msg }
}

} // verus!
