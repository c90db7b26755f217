//! What a moderator is told about each name of a permit, depermit,
//! appoint or unappoint list, and about names that matched no one or
//! several users.

use vstd::prelude::*;
use crate::chars::{push_str, push_chars, string_from_chars};
use crate::discussion::{AppointResult, DepermitResult, PermitResult};
use crate::sendlist::{join_list, join_upto, shown_part};
use crate::session::{digits, push_digits};
use crate::discussion::Target;
use crate::sendable::{Candidate, find_sendable, find_sendable_spec};
use crate::words::{list_words, match_keyword, match_keyword_spec, split_list};
use vstd::string::StringExecFns;

verus! {

/// The answer to a moderation command from someone who is not a
/// moderator.
pub open spec fn not_moderator_spec(disc: Seq<char>) -> Seq<char> {
    "You are not a moderator of discussion "@ + disc + ".\n"@
}

/// The answer to a moderation command from someone who is not a
/// moderator.
pub fn not_moderator_text(disc: &str) -> (r: String)
    ensures
        r@ == not_moderator_spec(disc@),
{
    let mut v: Vec<char> = Vec::new();
    push_str(&mut v, "You are not a moderator of discussion ");
    push_str(&mut v, disc);
    push_str(&mut v, ".\n");
    string_from_chars(v)
}

/// What the moderator is told about one name of a permit list.
pub open spec fn permit_reply_spec(r: PermitResult, disc: Seq<char>, name: Seq<char>) -> Seq<char> {
    match r {
        PermitResult::AlreadyPublic => "Discussion "@ + disc + " is already public.\n"@,
        PermitResult::MadePublic => "You have made discussion "@ + disc + " public.\n"@,
        PermitResult::Repermitted => "You have repermitted "@ + name + " to discussion "@ + disc + ".\n"@,
        PermitResult::AlreadyExplicitlyPermitted => name + " is already explicitly permitted to public discussion "@
            + disc + ".\n"@,
        PermitResult::ExplicitlyPermitted => "You have explicitly permitted "@ + name
            + " to public discussion "@ + disc + ".\n"@,
        PermitResult::AlreadyPermitted => name + " is already permitted to discussion "@ + disc + ".\n"@,
        PermitResult::Permitted => "You have permitted "@ + name + " to discussion "@ + disc + ".\n"@,
        PermitResult::Unmatched => Seq::empty(),
    }
}

/// What the moderator is told about one name of a permit list (nothing
/// for a name that matched no one: see `matches_text`).
pub fn permit_reply(r: PermitResult, disc: &str, name: &str) -> (t: String)
    ensures
        t@ == permit_reply_spec(r, disc@, name@),
{
    let mut v: Vec<char> = Vec::new();
    match r {
        PermitResult::AlreadyPublic => {
            push_str(&mut v, "Discussion ");
            push_str(&mut v, disc);
            push_str(&mut v, " is already public.\n");
        },
        PermitResult::MadePublic => {
            push_str(&mut v, "You have made discussion ");
            push_str(&mut v, disc);
            push_str(&mut v, " public.\n");
        },
        PermitResult::Repermitted => {
            push_str(&mut v, "You have repermitted ");
            push_str(&mut v, name);
            push_str(&mut v, " to discussion ");
            push_str(&mut v, disc);
            push_str(&mut v, ".\n");
        },
        PermitResult::AlreadyExplicitlyPermitted => {
            push_str(&mut v, name);
            push_str(&mut v, " is already explicitly permitted to public discussion ");
            push_str(&mut v, disc);
            push_str(&mut v, ".\n");
        },
        PermitResult::ExplicitlyPermitted => {
            push_str(&mut v, "You have explicitly permitted ");
            push_str(&mut v, name);
            push_str(&mut v, " to public discussion ");
            push_str(&mut v, disc);
            push_str(&mut v, ".\n");
        },
        PermitResult::AlreadyPermitted => {
            push_str(&mut v, name);
            push_str(&mut v, " is already permitted to discussion ");
            push_str(&mut v, disc);
            push_str(&mut v, ".\n");
        },
        PermitResult::Permitted => {
            push_str(&mut v, "You have permitted ");
            push_str(&mut v, name);
            push_str(&mut v, " to discussion ");
            push_str(&mut v, disc);
            push_str(&mut v, ".\n");
        },
        PermitResult::Unmatched => {},
    }
    assert(v@ =~= permit_reply_spec(r, disc@, name@));
    string_from_chars(v)
}

/// What the moderator is told about one name of a depermit list.
pub open spec fn depermit_reply_spec(r: DepermitResult, disc: Seq<char>, name: Seq<char>) -> Seq<char> {
    match r {
        DepermitResult::AlreadyPrivate => "Discussion "@ + disc + " is already private.\n"@,
        DepermitResult::MadePrivate => "You have made discussion "@ + disc + " private.\n"@,
        DepermitResult::AlreadyDepermitted => name + " is already depermitted from discussion "@ + disc + ".\n"@,
        DepermitResult::DepermittedAndRemoved => "You have depermitted and removed "@ + name
            + " from discussion "@ + disc + ".\n"@,
        DepermitResult::Depermitted => "You have depermitted "@ + name + " from discussion "@ + disc + ".\n"@,
        DepermitResult::AlreadyExplicitlyDepermitted => name
            + " is already explicitly depermitted from private discussion "@ + disc + ".\n"@,
        DepermitResult::ExplicitlyDepermitted => "You have explicitly depermitted "@ + name
            + " from discussion "@ + disc + ".\n"@,
        DepermitResult::Unmatched => Seq::empty(),
    }
}

/// What the moderator is told about one name of a depermit list.
pub fn depermit_reply(r: DepermitResult, disc: &str, name: &str) -> (t: String)
    ensures
        t@ == depermit_reply_spec(r, disc@, name@),
{
    let mut v: Vec<char> = Vec::new();
    match r {
        DepermitResult::AlreadyPrivate => {
            push_str(&mut v, "Discussion ");
            push_str(&mut v, disc);
            push_str(&mut v, " is already private.\n");
        },
        DepermitResult::MadePrivate => {
            push_str(&mut v, "You have made discussion ");
            push_str(&mut v, disc);
            push_str(&mut v, " private.\n");
        },
        DepermitResult::AlreadyDepermitted => {
            push_str(&mut v, name);
            push_str(&mut v, " is already depermitted from discussion ");
            push_str(&mut v, disc);
            push_str(&mut v, ".\n");
        },
        DepermitResult::DepermittedAndRemoved => {
            push_str(&mut v, "You have depermitted and removed ");
            push_str(&mut v, name);
            push_str(&mut v, " from discussion ");
            push_str(&mut v, disc);
            push_str(&mut v, ".\n");
        },
        DepermitResult::Depermitted => {
            push_str(&mut v, "You have depermitted ");
            push_str(&mut v, name);
            push_str(&mut v, " from discussion ");
            push_str(&mut v, disc);
            push_str(&mut v, ".\n");
        },
        DepermitResult::AlreadyExplicitlyDepermitted => {
            push_str(&mut v, name);
            push_str(&mut v, " is already explicitly depermitted from private discussion ");
            push_str(&mut v, disc);
            push_str(&mut v, ".\n");
        },
        DepermitResult::ExplicitlyDepermitted => {
            push_str(&mut v, "You have explicitly depermitted ");
            push_str(&mut v, name);
            push_str(&mut v, " from discussion ");
            push_str(&mut v, disc);
            push_str(&mut v, ".\n");
        },
        DepermitResult::Unmatched => {},
    }
    assert(v@ =~= depermit_reply_spec(r, disc@, name@));
    string_from_chars(v)
}

/// What the moderator is told about one name of an appoint or unappoint
/// list.
pub open spec fn appoint_reply_spec(r: AppointResult, disc: Seq<char>, name: Seq<char>) -> Seq<char> {
    match r {
        AppointResult::AlreadyModerator => name + " is already a moderator of discussion "@ + disc + ".\n"@,
        AppointResult::Appointed => "You have appointed "@ + name + " as a moderator of discussion "@ + disc
            + ".\n"@,
        AppointResult::IsCreator => name + " is the creator of discussion "@ + disc
            + " and may not be unappointed.\n"@,
        AppointResult::NotModerator => name + " is not a moderator of discussion "@ + disc + ".\n"@,
        AppointResult::Unappointed => "You have unappointed "@ + name + " as a moderator of discussion "@
            + disc + ".\n"@,
        AppointResult::Unmatched => Seq::empty(),
    }
}

/// What the moderator is told about one name of an appoint or unappoint
/// list.
pub fn appoint_reply(r: AppointResult, disc: &str, name: &str) -> (t: String)
    ensures
        t@ == appoint_reply_spec(r, disc@, name@),
{
    let mut v: Vec<char> = Vec::new();
    match r {
        AppointResult::AlreadyModerator => {
            push_str(&mut v, name);
            push_str(&mut v, " is already a moderator of discussion ");
            push_str(&mut v, disc);
            push_str(&mut v, ".\n");
        },
        AppointResult::Appointed => {
            push_str(&mut v, "You have appointed ");
            push_str(&mut v, name);
            push_str(&mut v, " as a moderator of discussion ");
            push_str(&mut v, disc);
            push_str(&mut v, ".\n");
        },
        AppointResult::IsCreator => {
            push_str(&mut v, name);
            push_str(&mut v, " is the creator of discussion ");
            push_str(&mut v, disc);
            push_str(&mut v, " and may not be unappointed.\n");
        },
        AppointResult::NotModerator => {
            push_str(&mut v, name);
            push_str(&mut v, " is not a moderator of discussion ");
            push_str(&mut v, disc);
            push_str(&mut v, ".\n");
        },
        AppointResult::Unappointed => {
            push_str(&mut v, "You have unappointed ");
            push_str(&mut v, name);
            push_str(&mut v, " as a moderator of discussion ");
            push_str(&mut v, disc);
            push_str(&mut v, ".\n");
        },
        AppointResult::Unmatched => {},
    }
    assert(v@ =~= appoint_reply_spec(r, disc@, name@));
    string_from_chars(v)
}

/// What a user is told about a name that matched no user (or, with
/// `discussions`, no discussion), or several (`matches`, their names).
pub open spec fn matches_spec(name: Seq<char>, matches: Seq<Seq<char>>, discussions: bool) -> Seq<char> {
    let shown = shown_part(name);
    let noun = if discussions {
        "discussion"@
    } else {
        "name"@
    };
    if matches.len() > 0 {
        "\""@ + shown + (if matches.len() == 1 {
            "\" matches one "@ + noun + ": "@
        } else {
            "\" matches "@ + digits(matches.len()) + " "@ + noun + "s: "@
        }) + join_list(matches, ", "@, " and "@) + ".\n"@
    } else {
        "No "@ + noun + "s matched \""@ + shown + "\".\n"@
    }
}

/// What a user is told about a name that matched no one, or several
/// (see `matches_spec`).
pub fn matches_text(name: &str, matches: &Vec<String>, discussions: bool) -> (r: String)
    ensures
        r@ == matches_spec(name@, matches@.map_values(|s: String| s@), discussions),
{
    let shown = crate::sendlist::show_part_text(name);
    let noun = if discussions {
        "discussion"
    } else {
        "name"
    };
    let mut v: Vec<char> = Vec::new();
    if matches.len() > 0 {
        push_str(&mut v, "\"");
        push_chars(&mut v, &shown);
        if matches.len() == 1 {
            push_str(&mut v, "\" matches one ");
            push_str(&mut v, noun);
            push_str(&mut v, ": ");
        } else {
            push_str(&mut v, "\" matches ");
            push_digits(&mut v, matches.len() as u64);
            push_str(&mut v, " ");
            push_str(&mut v, noun);
            push_str(&mut v, "s: ");
        }
        let ghost base = v@;
        let ghost s = matches@.map_values(|s: String| s@);
        let mut i: usize = 0;
        while i < matches.len()
            invariant
                i <= matches.len(),
                s == matches@.map_values(|s: String| s@),
                v@ == base + join_upto(s, i as int, ", "@, " and "@),
            decreases matches.len() - i,
        {
            let ghost before = v@;
            if i == 0 {
            } else if i == matches.len() - 1 {
                push_str(&mut v, " and ");
            } else {
                push_str(&mut v, ", ");
            }
            push_str(&mut v, matches[i].as_str());
            proof {
                assert(v@ =~= base + join_upto(s, i + 1, ", "@, " and "@));
            }
            i += 1;
        }
        push_str(&mut v, ".\n");
    } else {
        push_str(&mut v, "No ");
        push_str(&mut v, noun);
        push_str(&mut v, "s matched \"");
        push_chars(&mut v, &shown);
        push_str(&mut v, "\".\n");
    }
    assert(v@ =~= matches_spec(name@, matches@.map_values(|s: String| s@), discussions));
    string_from_chars(v)
}

/// A name of a moderation list, resolved.
#[derive(Debug)]
pub struct Resolved {
    /// The word as typed.
    pub word: String,
    /// Whom it names.
    pub target: Target,
    /// The sessions it matched (indices), when it named no one.
    pub matches: Vec<usize>,
}

/// The view of a `Resolved`.
pub open spec fn resolved_view(r: Resolved) -> (Seq<char>, Target, Seq<int>) {
    (r.word@, r.target, r.matches@.map_values(|i: usize| i as int))
}

/// What one word of a moderation list names: "others" (where allowed),
/// the sender ("me"), the session it picks out, or no one (with the
/// sessions it matched).
pub open spec fn resolve_spec(w: Seq<char>, me: u64, sessions: Seq<Candidate>, allow_others: bool) -> (Seq<char>, Target, Seq<int>) {
    if allow_others && match_keyword_spec(w, "others"@, 6).is_some() {
        (w, Target::Others, Seq::empty())
    } else {
        let f = find_sendable_spec(w, sessions, Seq::empty(), false, false, true, false);
        if f.0 {
            (w, Target::User(me), Seq::empty())
        } else if f.1 is Some {
            (w, Target::User(sessions[f.1.unwrap()].key), Seq::empty())
        } else {
            (w, Target::Unmatched, f.2)
        }
    }
}

/// Resolves the names of a moderation list (words separated by spaces or
/// commas), each by `resolve_spec`.
pub fn resolve_targets(args: &str, me: u64, sessions: &Vec<Candidate>, allow_others: bool) -> (r: Vec<Resolved>)
    ensures
        r@.map_values(|x: Resolved| resolved_view(x)) == list_words(args@, Some(',')).map_values(
            |w: Seq<char>| resolve_spec(w, me, sessions@, allow_others),
        ),
{
    let words = split_list(args, Some(','));
    let ghost ws = words@.map_values(|w: String| w@);
    let none: Vec<Candidate> = Vec::new();
    proof {
        reveal_strlit("others");
        assert(none@ =~= Seq::<Candidate>::empty());
    }
    let mut out: Vec<Resolved> = Vec::new();
    let mut i: usize = 0;
    while i < words.len()
        invariant
            i <= words.len(),
            ws == words@.map_values(|w: String| w@),
            ws == list_words(args@, Some(',')),
            none@ == Seq::<Candidate>::empty(),
            out@.map_values(|x: Resolved| resolved_view(x)) == ws.take(i as int).map_values(
                |w: Seq<char>| resolve_spec(w, me, sessions@, allow_others),
            ),
        decreases words.len() - i,
    {
        let w = words[i].as_str();
        proof {
            reveal_strlit("others");
        }
        let r = if allow_others && match_keyword(w, "others", 6).is_some() {
            Resolved { word: String::from_str(w), target: Target::Others, matches: Vec::new() }
        } else {
            let f = find_sendable(w, sessions, &none, false, false, true, false);
            if f.me {
                Resolved { word: String::from_str(w), target: Target::User(me), matches: Vec::new() }
            } else if f.session.is_some() {
                let k = sessions[f.session.unwrap()].key;
                Resolved { word: String::from_str(w), target: Target::User(k), matches: Vec::new() }
            } else {
                Resolved { word: String::from_str(w), target: Target::Unmatched, matches: f.session_matches }
            }
        };
        proof {
            assert(ws[i as int] == w@);
            assert(r.matches@.map_values(|i: usize| i as int) =~= resolve_spec(w@, me, sessions@, allow_others).2);
            assert(resolved_view(r) == resolve_spec(w@, me, sessions@, allow_others));
        }
        let ghost before = out@;
        let ghost rv = resolved_view(r);
        out.push(r);
        proof {
            assert(out@.map_values(|x: Resolved| resolved_view(x)) =~= before.map_values(
                |x: Resolved| resolved_view(x),
            ).push(rv));
            assert(ws.take(i + 1) =~= ws.take(i as int).push(ws[i as int]));
            assert(out@.map_values(|x: Resolved| resolved_view(x)) =~= ws.take(i + 1).map_values(
                |w: Seq<char>| resolve_spec(w, me, sessions@, allow_others),
            ));
        }
        i += 1;
    }
    proof {
        assert(ws.take(i as int) =~= ws);
    }
    out
}

/// What a user is told on joining a discussion (`Err(true)`: already a
/// member; `Err(false)`: not permitted).
pub open spec fn join_reply_spec(r: Result<(), bool>, disc: Seq<char>) -> Seq<char> {
    match r {
        Ok(()) => "You are now a member of discussion "@ + disc + ".\n"@,
        Err(true) => "You are already a member of discussion "@ + disc + ".\n"@,
        Err(false) => "You are not permitted to join discussion "@ + disc + ".\n"@,
    }
}

/// What a user is told on joining a discussion.
pub fn join_reply(r: Result<(), bool>, disc: &str) -> (t: String)
    ensures
        t@ == join_reply_spec(r, disc@),
{
    let mut v: Vec<char> = Vec::new();
    match r {
        Ok(()) => push_str(&mut v, "You are now a member of discussion "),
        Err(true) => push_str(&mut v, "You are already a member of discussion "),
        Err(false) => push_str(&mut v, "You are not permitted to join discussion "),
    }
    push_str(&mut v, disc);
    push_str(&mut v, ".\n");
    string_from_chars(v)
}

/// What a user is told on quitting a discussion.
pub open spec fn quit_reply_spec(was_member: bool, disc: Seq<char>) -> Seq<char> {
    if was_member {
        "You are no longer a member of discussion "@ + disc + ".\n"@
    } else {
        "You are not a member of discussion "@ + disc + ".\n"@
    }
}

/// What a user is told on quitting a discussion.
pub fn quit_reply(was_member: bool, disc: &str) -> (t: String)
    ensures
        t@ == quit_reply_spec(was_member, disc@),
{
    let mut v: Vec<char> = Vec::new();
    if was_member {
        push_str(&mut v, "You are no longer a member of discussion ");
    } else {
        push_str(&mut v, "You are not a member of discussion ");
    }
    push_str(&mut v, disc);
    push_str(&mut v, ".\n");
    string_from_chars(v)
}

/// What a user is told on destroying a discussion (or failing to).
pub open spec fn destroy_reply_spec(allowed: bool, disc: Seq<char>) -> Seq<char> {
    if allowed {
        "You have destroyed discussion "@ + disc + ".\n"@
    } else {
        not_moderator_spec(disc)
    }
}

/// What a user is told on destroying a discussion (or failing to).
pub fn destroy_reply(allowed: bool, disc: &str) -> (t: String)
    ensures
        t@ == destroy_reply_spec(allowed, disc@),
{
    if allowed {
        let mut v: Vec<char> = Vec::new();
        push_str(&mut v, "You have destroyed discussion ");
        push_str(&mut v, disc);
        push_str(&mut v, ".\n");
        string_from_chars(v)
    } else {
        not_moderator_text(disc)
    }
}

} // verus!
