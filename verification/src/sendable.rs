//! Finding whom a sendlist entry names: the signed-on sessions and the
//! discussions whose names it matches, exactly or in part, and the one
//! recipient it picks out when there is one.

use vstd::prelude::*;
use crate::chars::{seq_eq_ic, str_chars, chars_eq_ignore_ascii_case};
use crate::words::{first_match, first_match_index};

verus! {

/// A possible recipient: its key, the name it is matched by, and whether
/// the sender is a member of it (for discussions).
#[derive(Debug)]
pub struct Candidate {
    pub key: u64,
    pub name: String,
    pub member: bool,
}

/// What scanning a list of candidates found: the index of the last exact
/// match, the indices of all matches in order, how many matched at the
/// start of their name, and the last of those.
pub type ScanSpec = (Option<int>, Seq<int>, nat, Option<int>);

/// Scanning `cands` for `entry`; with `only_members`, candidates that the
/// sender is not a member of are passed over; with `exact`, only exact
/// matches count.
pub open spec fn scan_spec(cands: Seq<Candidate>, entry: Seq<char>, only_members: bool, exact: bool) -> ScanSpec
    decreases cands.len(),
{
    if cands.len() == 0 {
        (None, Seq::empty(), 0, None)
    } else {
        let prev = scan_spec(cands.drop_last(), entry, only_members, exact);
        let i = cands.len() - 1;
        let c = cands.last();
        if only_members && !c.member {
            prev
        } else if seq_eq_ic(c.name@, entry) {
            (Some(i), prev.1.push(i), prev.2, prev.3)
        } else if !exact && first_match(c.name@, entry).is_some() {
            if first_match(c.name@, entry) == Some(0int) {
                (prev.0, prev.1.push(i), prev.2 + 1, Some(i))
            } else {
                (prev.0, prev.1.push(i), prev.2, prev.3)
            }
        } else {
            prev
        }
    }
}

/// The outcome of looking up one sendlist entry.
#[derive(Debug)]
pub struct Sendable {
    /// The entry was "me": the sender itself.
    pub me: bool,
    /// The session picked out (an index into the sessions).
    pub session: Option<usize>,
    /// Every session that matched.
    pub session_matches: Vec<usize>,
    /// The discussion picked out (an index into the discussions).
    pub discussion: Option<usize>,
    /// Every discussion that matched.
    pub discussion_matches: Vec<usize>,
}

/// The view of a `Sendable`.
pub type SendableSpec = (bool, Option<int>, Seq<int>, Option<int>, Seq<int>);

/// The `SendableSpec` of an outcome.
pub open spec fn sendable_view(s: Sendable) -> SendableSpec {
    (
        s.me,
        match s.session {
            Some(i) => Some(i as int),
            None => None,
        },
        s.session_matches@.map_values(|i: usize| i as int),
        match s.discussion {
            Some(i) => Some(i as int),
            None => None,
        },
        s.discussion_matches@.map_values(|i: usize| i as int),
    )
}

/// The single index of a one-element sequence.
pub open spec fn only(s: Seq<int>) -> Option<int> {
    if s.len() == 1 {
        Some(s[0])
    } else {
        None
    }
}

/// Looking up `entry` among the signed-on `sessions` (unless
/// `!do_sessions`) and the `discussions` (unless `!do_discussions`; with
/// `member`, only those the sender belongs to).  "me" names the sender.
/// An exact match (ignoring ASCII case) picks its recipient; otherwise one
/// single match at the start of a name does; otherwise one single match
/// anywhere does.
pub open spec fn find_sendable_spec(
    entry: Seq<char>,
    sessions: Seq<Candidate>,
    discussions: Seq<Candidate>,
    member: bool,
    exact: bool,
    do_sessions: bool,
    do_discussions: bool,
) -> SendableSpec {
    if do_sessions && seq_eq_ic(entry, "me"@) {
        (true, None, Seq::empty(), None, Seq::empty())
    } else {
        let ss = if do_sessions {
            scan_spec(sessions, entry, false, exact)
        } else {
            (None, Seq::empty(), 0, None)
        };
        let ds = if do_discussions {
            scan_spec(discussions, entry, member, exact)
        } else {
            (None, Seq::empty(), 0, None)
        };
        if ss.0.is_some() || ds.0.is_some() {
            (false, ss.0, ss.1, ds.0, ds.1)
        } else if ss.2 + ds.2 == 1 {
            (false, ss.3, ss.1, ds.3, ds.1)
        } else if ss.1.len() + ds.1.len() == 1 {
            (false, only(ss.1), ss.1, only(ds.1), ds.1)
        } else {
            (false, None, ss.1, None, ds.1)
        }
    }
}

/// Scanning a list of candidates (see `scan_spec`).
fn scan(cands: &Vec<Candidate>, entry: &Vec<char>, only_members: bool, exact: bool) -> (r: (
    Option<usize>,
    Vec<usize>,
    usize,
    Option<usize>,
))
    ensures
        ({
            let s = scan_spec(cands@, entry@, only_members, exact);
            &&& s.0 == (match r.0 {
                Some(i) => Some(i as int),
                None => None,
            })
            &&& s.1 == r.1@.map_values(|i: usize| i as int)
            &&& s.2 == r.2 as nat
            &&& s.3 == (match r.3 {
                Some(i) => Some(i as int),
                None => None,
            })
        }),
        forall|j: int| 0 <= j < r.1@.len() ==> #[trigger] r.1@[j] < cands@.len(),
        r.0 matches Some(i) ==> i < cands@.len(),
        r.3 matches Some(i) ==> i < cands@.len(),
{
    let mut found: Option<usize> = None;
    let mut matches: Vec<usize> = Vec::new();
    let mut leads: usize = 0;
    let mut lead: Option<usize> = None;
    let mut i: usize = 0;
    while i < cands.len()
        invariant
            i <= cands.len(),
            leads <= i,
            ({
                let s = scan_spec(cands@.take(i as int), entry@, only_members, exact);
                &&& s.0 == (match found {
                    Some(k) => Some(k as int),
                    None => None,
                })
                &&& s.1 == matches@.map_values(|k: usize| k as int)
                &&& s.2 == leads as nat
                &&& s.3 == (match lead {
                    Some(k) => Some(k as int),
                    None => None,
                })
            }),
            forall|j: int| 0 <= j < matches@.len() ==> #[trigger] matches@[j] < i,
            found matches Some(k) ==> k < i,
            lead matches Some(k) ==> k < i,
        decreases cands.len() - i,
    {
        proof {
            assert(cands@.take(i + 1).drop_last() =~= cands@.take(i as int));
            assert(cands@.take(i + 1).last() == cands@[i as int]);
        }
        let ghost before = matches@;
        let c = &cands[i];
        if only_members && !c.member {
        } else {
            let name = str_chars(c.name.as_str());
            if chars_eq_ignore_ascii_case(&name, entry) {
                found = Some(i);
                matches.push(i);
                proof {
                    assert(matches@.map_values(|k: usize| k as int) =~= before.map_values(
                        |k: usize| k as int,
                    ).push(i as int));
                }
            } else if !exact {
                match first_match_index(&name, entry) {
                    Some(pos) => {
                        if pos == 0 {
                            leads = leads + 1;
                            lead = Some(i);
                        }
                        matches.push(i);
                        proof {
                            assert(matches@.map_values(|k: usize| k as int) =~= before.map_values(
                                |k: usize| k as int,
                            ).push(i as int));
                        }
                    },
                    None => {},
                }
            }
        }
        i = i + 1;
    }
    proof {
        assert(cands@.take(i as int) =~= cands@);
    }
    (found, matches, leads, lead)
}

/// The first element of a one-element vector.
fn only_of(v: &Vec<usize>) -> (r: Option<usize>)
    ensures
        (match r {
            Some(i) => Some(i as int),
            None => None,
        }) == only(v@.map_values(|i: usize| i as int)),
{
    if v.len() == 1 {
        Some(v[0])
    } else {
        None
    }
}

/// Looks up one sendlist entry (see `find_sendable_spec`).
pub fn find_sendable(
    entry: &str,
    sessions: &Vec<Candidate>,
    discussions: &Vec<Candidate>,
    member: bool,
    exact: bool,
    do_sessions: bool,
    do_discussions: bool,
) -> (r: Sendable)
    ensures
        sendable_view(r) == find_sendable_spec(
            entry@,
            sessions@,
            discussions@,
            member,
            exact,
            do_sessions,
            do_discussions,
        ),
        r.session matches Some(i) ==> i < sessions@.len(),
        r.discussion matches Some(i) ==> i < discussions@.len(),
        forall|j: int| 0 <= j < r.session_matches@.len() ==> #[trigger] r.session_matches@[j] < sessions@.len(),
        forall|j: int| 0 <= j < r.discussion_matches@.len() ==> #[trigger] r.discussion_matches@[j] < discussions@.len(),
{
    let e = str_chars(entry);
    let me: Vec<char> = vec!['m', 'e'];
    proof {
        assert(me@ =~= "me"@) by {
            reveal_strlit("me");
        }
    }
    if do_sessions && chars_eq_ignore_ascii_case(&e, &me) {
        let r = Sendable {
            me: true,
            session: None,
            session_matches: Vec::new(),
            discussion: None,
            discussion_matches: Vec::new(),
        };
        proof {
            assert(sendable_view(r).2 =~= Seq::<int>::empty());
            assert(sendable_view(r).4 =~= Seq::<int>::empty());
        }
        return r;
    }
    let empty: Vec<Candidate> = Vec::new();
    let (s_found, s_matches, s_leads, s_lead) = if do_sessions {
        scan(sessions, &e, false, exact)
    } else {
        let r = scan(&empty, &e, false, exact);
        proof {
            assert(empty@ =~= Seq::<Candidate>::empty());
        }
        r
    };
    let (d_found, d_matches, d_leads, d_lead) = if do_discussions {
        scan(discussions, &e, member, exact)
    } else {
        let r = scan(&empty, &e, member, exact);
        proof {
            assert(empty@ =~= Seq::<Candidate>::empty());
        }
        r
    };
    if s_found.is_some() || d_found.is_some() {
        Sendable {
            me: false,
            session: s_found,
            session_matches: s_matches,
            discussion: d_found,
            discussion_matches: d_matches,
        }
    } else if (s_leads == 1 && d_leads == 0) || (s_leads == 0 && d_leads == 1) {
        Sendable {
            me: false,
            session: s_lead,
            session_matches: s_matches,
            discussion: d_lead,
            discussion_matches: d_matches,
        }
    } else if (s_matches.len() == 1 && d_matches.len() == 0) || (s_matches.len() == 0 && d_matches.len() == 1) {
        let s = only_of(&s_matches);
        let d = only_of(&d_matches);
        Sendable {
            me: false,
            session: s,
            session_matches: s_matches,
            discussion: d,
            discussion_matches: d_matches,
        }
    } else {
        Sendable {
            me: false,
            session: None,
            session_matches: s_matches,
            discussion: None,
            discussion_matches: d_matches,
        }
    }
}


/// Whether `entry` matches `name` at its very start (ignoring ASCII case).
pub open spec fn starts_name(name: Seq<char>, entry: Seq<char>) -> bool {
    first_match(name, entry) == Some(0int)
}

/// Whether a candidate takes part in a lookup that, with `only_members`,
/// passes over those the sender is not a member of.
pub open spec fn considered(c: Candidate, only_members: bool) -> bool {
    !only_members || c.member
}

proof fn lemma_scan_no_lead(cands: Seq<Candidate>, entry: Seq<char>, only_members: bool)
    requires
        forall|j: int|
            0 <= j < cands.len() && considered(cands[j], only_members) ==> !seq_eq_ic(cands[j].name@, entry)
                && !starts_name(cands[j].name@, entry),
    ensures
        scan_spec(cands, entry, only_members, false).0 is None,
        scan_spec(cands, entry, only_members, false).2 == 0,
        scan_spec(cands, entry, only_members, false).3 is None,
    decreases cands.len(),
{
    if cands.len() > 0 {
        lemma_scan_no_lead(cands.drop_last(), entry, only_members);
        assert(considered(cands.last(), only_members) ==> !starts_name(cands[cands.len() - 1].name@, entry));
    }
}

proof fn lemma_scan_one_lead(cands: Seq<Candidate>, entry: Seq<char>, only_members: bool, i: int)
    requires
        0 <= i < cands.len(),
        considered(cands[i], only_members),
        starts_name(cands[i].name@, entry),
        forall|j: int| 0 <= j < cands.len() && considered(cands[j], only_members) ==> !seq_eq_ic(cands[j].name@, entry),
        forall|j: int|
            0 <= j < cands.len() && j != i && considered(cands[j], only_members) ==> !starts_name(cands[j].name@, entry),
    ensures
        scan_spec(cands, entry, only_members, false).0 is None,
        scan_spec(cands, entry, only_members, false).2 == 1,
        scan_spec(cands, entry, only_members, false).3 == Some(i),
    decreases cands.len(),
{
    let last = cands.len() - 1;
    if i == last {
        lemma_scan_no_lead(cands.drop_last(), entry, only_members);
        assert(cands.last() == cands[i]);
    } else {
        lemma_scan_one_lead(cands.drop_last(), entry, only_members, i);
        assert(considered(cands.last(), only_members) ==> !starts_name(cands[last].name@, entry));
    }
}

/// Without an exact match, the one session whose name starts with the entry
/// is the recipient, however many other names hold the entry further in.
pub proof fn lemma_single_leading_session_is_picked(
    entry: Seq<char>,
    sessions: Seq<Candidate>,
    discussions: Seq<Candidate>,
    member: bool,
    do_discussions: bool,
    i: int,
)
    requires
        !seq_eq_ic(entry, "me"@),
        0 <= i < sessions.len(),
        starts_name(sessions[i].name@, entry),
        forall|j: int| 0 <= j < sessions.len() ==> !seq_eq_ic(sessions[j].name@, entry),
        forall|j: int| 0 <= j < sessions.len() && j != i ==> !starts_name(sessions[j].name@, entry),
        do_discussions ==> forall|j: int|
            0 <= j < discussions.len() && considered(discussions[j], member) ==> !seq_eq_ic(discussions[j].name@, entry)
                && !starts_name(discussions[j].name@, entry),
    ensures
        find_sendable_spec(entry, sessions, discussions, member, false, true, do_discussions).1 == Some(i),
        find_sendable_spec(entry, sessions, discussions, member, false, true, do_discussions).3 is None,
{
    lemma_scan_one_lead(sessions, entry, false, i);
    if do_discussions {
        lemma_scan_no_lead(discussions, entry, member);
    }
}

/// Without an exact match, the one discussion whose name starts with the
/// entry is the recipient, however many other names hold the entry
/// further in.
pub proof fn lemma_single_leading_discussion_is_picked(
    entry: Seq<char>,
    sessions: Seq<Candidate>,
    discussions: Seq<Candidate>,
    member: bool,
    do_sessions: bool,
    i: int,
)
    requires
        do_sessions ==> !seq_eq_ic(entry, "me"@),
        0 <= i < discussions.len(),
        considered(discussions[i], member),
        starts_name(discussions[i].name@, entry),
        forall|j: int|
            0 <= j < discussions.len() && considered(discussions[j], member) ==> !seq_eq_ic(discussions[j].name@, entry),
        forall|j: int|
            0 <= j < discussions.len() && j != i && considered(discussions[j], member) ==> !starts_name(
                discussions[j].name@,
                entry,
            ),
        do_sessions ==> forall|j: int|
            0 <= j < sessions.len() ==> !seq_eq_ic(sessions[j].name@, entry) && !starts_name(sessions[j].name@, entry),
    ensures
        find_sendable_spec(entry, sessions, discussions, member, false, do_sessions, true).3 == Some(i),
        find_sendable_spec(entry, sessions, discussions, member, false, do_sessions, true).1 is None,
{
    lemma_scan_one_lead(discussions, entry, member, i);
    if do_sessions {
        lemma_scan_no_lead(sessions, entry, false);
    }
}


proof fn lemma_scan_one_exact(cands: Seq<Candidate>, entry: Seq<char>, only_members: bool, exact: bool, i: int)
    requires
        0 <= i < cands.len(),
        considered(cands[i], only_members),
        seq_eq_ic(cands[i].name@, entry),
        forall|j: int|
            0 <= j < cands.len() && j != i && considered(cands[j], only_members) ==> !seq_eq_ic(cands[j].name@, entry),
    ensures
        scan_spec(cands, entry, only_members, exact).0 == Some(i),
    decreases cands.len(),
{
    if i < cands.len() - 1 {
        lemma_scan_one_exact(cands.drop_last(), entry, only_members, exact, i);
    }
}

/// A session whose name is the entry (ignoring ASCII case), and the only
/// one, is the recipient, whatever other names hold the entry.
pub proof fn lemma_exact_session_is_picked(
    entry: Seq<char>,
    sessions: Seq<Candidate>,
    discussions: Seq<Candidate>,
    member: bool,
    exact: bool,
    do_discussions: bool,
    i: int,
)
    requires
        !seq_eq_ic(entry, "me"@),
        0 <= i < sessions.len(),
        seq_eq_ic(sessions[i].name@, entry),
        forall|j: int| 0 <= j < sessions.len() && j != i ==> !seq_eq_ic(sessions[j].name@, entry),
    ensures
        find_sendable_spec(entry, sessions, discussions, member, exact, true, do_discussions).1 == Some(i),
{
    lemma_scan_one_exact(sessions, entry, false, exact, i);
}

} // verus!
