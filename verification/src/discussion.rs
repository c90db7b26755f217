//! Discussions: named groups of users with a moderation policy.
//!
//! A discussion is public (open to all but the explicitly denied) or
//! private (open to the explicitly allowed).  Its creator and moderators
//! may always join, and only they may change who is permitted.  Users are
//! known here by keys that order them and find them again (one per name);
//! the sets of keys are `im` ordered sets.

use vstd::prelude::*;
use vstd::string::StringExecFns;
use crate::words::{match_keyword, match_keyword_spec};

verus! {

// ---------------------------------------------------------------------------
// Ordered sets of keys
// ---------------------------------------------------------------------------

#[verifier::external_type_specification]
#[verifier::external_body]
#[verifier::reject_recursive_types(A)]
pub struct ExOrdSet<A>(im::OrdSet<A>);

/// The keys an ordered set holds.
pub uninterp spec fn key_set(s: im::OrdSet<u64>) -> Set<u64>;

/// `im::OrdSet::new`: an empty set.
#[verifier::external_body]
pub(crate) fn key_set_new() -> (r: im::OrdSet<u64>)
    ensures
        key_set(r) == Set::<u64>::empty(),
{
    im::OrdSet::new()
}

/// `im::OrdSet::insert`: the key is in the set afterwards, with the
/// others.
#[verifier::external_body]
pub(crate) fn key_set_insert(s: &mut im::OrdSet<u64>, k: u64)
    ensures
        key_set(*final(s)) == key_set(*old(s)).insert(k),
{
    s.insert(k);
}

/// `im::OrdSet::remove`: the key is gone, the others stay.
#[verifier::external_body]
pub(crate) fn key_set_remove(s: &mut im::OrdSet<u64>, k: u64)
    ensures
        key_set(*final(s)) == key_set(*old(s)).remove(k),
{
    s.remove(&k);
}

/// `im::OrdSet::contains`.
#[verifier::external_body]
pub(crate) fn key_set_contains(s: &im::OrdSet<u64>, k: u64) -> (r: bool)
    ensures
        r == key_set(*s).contains(k),
{
    s.contains(&k)
}

/// `im::OrdSet::iter`, collected: every key once, in ascending order.
#[verifier::external_body]
pub(crate) fn key_set_keys(s: &im::OrdSet<u64>) -> (r: Vec<u64>)
    ensures
        forall|k: u64| r@.contains(k) <==> key_set(*s).contains(k),
        forall|i: int, j: int| 0 <= i < j < r@.len() ==> r@[i] < r@[j],
{
    s.iter().copied().collect()
}

// ---------------------------------------------------------------------------
// Discussions
// ---------------------------------------------------------------------------

/// A discussion.
pub struct Discussion {
    pub id: usize,
    pub name: String,
    pub title: String,
    pub public: bool,
    pub creator: Option<u64>,
    pub members: im::OrdSet<u64>,
    pub moderators: im::OrdSet<u64>,
    pub allowed: im::OrdSet<u64>,
    pub denied: im::OrdSet<u64>,
    pub creation_time: i64,
    pub idle_since: i64,
}

/// The moderation state of a discussion.
#[verifier::ext_equal]
pub ghost struct DiscussionView {
    pub public: bool,
    pub creator: Option<u64>,
    pub members: Set<u64>,
    pub moderators: Set<u64>,
    pub allowed: Set<u64>,
    pub denied: Set<u64>,
}

/// A join by `k`: refused with `true` if `k` is a member already, with
/// `false` if `k` may not join; otherwise `k` becomes a member.
pub open spec fn join_spec(d: DiscussionView, k: u64) -> (Result<(), bool>, DiscussionView) {
    if d.members.contains(k) {
        (Err(true), d)
    } else if d.is_permitted(k) {
        (Ok(()), DiscussionView { members: d.members.insert(k), ..d })
    } else {
        (Err(false), d)
    }
}

/// A quit by `k`: `k` is no longer a member.
pub open spec fn quit_spec(d: DiscussionView, k: u64) -> DiscussionView {
    DiscussionView { members: d.members.remove(k), ..d }
}

impl View for Discussion {
    type V = DiscussionView;

    open spec fn view(&self) -> DiscussionView {
        DiscussionView {
            public: self.public,
            creator: self.creator,
            members: key_set(self.members),
            moderators: key_set(self.moderators),
            allowed: key_set(self.allowed),
            denied: key_set(self.denied),
        }
    }
}

impl DiscussionView {
    /// `k` created the discussion.
    pub open spec fn is_creator(self, k: u64) -> bool {
        self.creator == Some(k)
    }

    /// `k` may change who is permitted.
    pub open spec fn is_moderating(self, k: u64) -> bool {
        self.is_creator(k) || self.moderators.contains(k)
    }

    /// `k` may join: the creator and moderators always; others when the
    /// discussion is public or they are allowed, unless they are denied.
    pub open spec fn is_permitted(self, k: u64) -> bool {
        self.is_moderating(k) || ((self.public || self.allowed.contains(k)) && !self.denied.contains(k))
    }

    /// No one is both explicitly allowed and explicitly denied.
    pub open spec fn lists_disjoint(self) -> bool {
        self.allowed.disjoint(self.denied)
    }
}

/// Whom a moderation command names: everyone else ("others"), a user
/// found by name, or a name that matched no one (or several).
#[derive(Debug, Clone, Copy, PartialEq, Eq, Structural)]
pub enum Target {
    Others,
    User(u64),
    Unmatched,
}

/// What a permit command did for one name on its list.
#[derive(Debug, Clone, Copy, PartialEq, Eq, Structural)]
pub enum PermitResult {
    AlreadyPublic,
    MadePublic,
    Repermitted,
    AlreadyExplicitlyPermitted,
    ExplicitlyPermitted,
    AlreadyPermitted,
    Permitted,
    Unmatched,
}

/// What a depermit command did for one name on its list.
#[derive(Debug, Clone, Copy, PartialEq, Eq, Structural)]
pub enum DepermitResult {
    AlreadyPrivate,
    MadePrivate,
    AlreadyDepermitted,
    DepermittedAndRemoved,
    Depermitted,
    AlreadyExplicitlyDepermitted,
    ExplicitlyDepermitted,
    Unmatched,
}

/// What an appoint or unappoint command did for one name.
#[derive(Debug, Clone, Copy, PartialEq, Eq, Structural)]
pub enum AppointResult {
    AlreadyModerator,
    Appointed,
    IsCreator,
    NotModerator,
    Unappointed,
    Unmatched,
}

/// Permitting one target.
pub open spec fn permit_step(d: DiscussionView, t: Target) -> (DiscussionView, PermitResult) {
    match t {
        Target::Others => if d.public {
            (d, PermitResult::AlreadyPublic)
        } else {
            (DiscussionView { public: true, ..d }, PermitResult::MadePublic)
        },
        Target::User(k) => if d.public {
            if d.denied.contains(k) {
                (DiscussionView { denied: d.denied.remove(k), ..d }, PermitResult::Repermitted)
            } else if d.allowed.contains(k) {
                (d, PermitResult::AlreadyExplicitlyPermitted)
            } else {
                (DiscussionView { allowed: d.allowed.insert(k), ..d }, PermitResult::ExplicitlyPermitted)
            }
        } else if d.denied.contains(k) {
            (
                DiscussionView { denied: d.denied.remove(k), allowed: d.allowed.insert(k), ..d },
                PermitResult::Repermitted,
            )
        } else if d.allowed.contains(k) {
            (d, PermitResult::AlreadyPermitted)
        } else {
            (DiscussionView { allowed: d.allowed.insert(k), ..d }, PermitResult::Permitted)
        },
        Target::Unmatched => (d, PermitResult::Unmatched),
    }
}

/// Depermitting one target.
pub open spec fn depermit_step(d: DiscussionView, t: Target) -> (DiscussionView, DepermitResult) {
    match t {
        Target::Others => if d.public {
            (
                DiscussionView { public: false, allowed: d.allowed.union(d.members), ..d },
                DepermitResult::MadePrivate,
            )
        } else {
            (d, DepermitResult::AlreadyPrivate)
        },
        Target::User(k) => if d.public {
            let d1 = DiscussionView { allowed: d.allowed.remove(k), ..d };
            if d.denied.contains(k) {
                (d1, DepermitResult::AlreadyDepermitted)
            } else if d.members.contains(k) {
                (
                    DiscussionView { denied: d.denied.insert(k), members: d.members.remove(k), ..d1 },
                    DepermitResult::DepermittedAndRemoved,
                )
            } else {
                (DiscussionView { denied: d.denied.insert(k), ..d1 }, DepermitResult::Depermitted)
            }
        } else if d.allowed.contains(k) {
            let d1 = DiscussionView { allowed: d.allowed.remove(k), ..d };
            if d.members.contains(k) {
                (DiscussionView { members: d.members.remove(k), ..d1 }, DepermitResult::DepermittedAndRemoved)
            } else {
                (d1, DepermitResult::Depermitted)
            }
        } else if d.denied.contains(k) {
            (d, DepermitResult::AlreadyExplicitlyDepermitted)
        } else {
            (DiscussionView { denied: d.denied.insert(k), ..d }, DepermitResult::ExplicitlyDepermitted)
        },
        Target::Unmatched => (d, DepermitResult::Unmatched),
    }
}

/// Appointing one target.
pub open spec fn appoint_step(d: DiscussionView, t: Target) -> (DiscussionView, AppointResult) {
    match t {
        Target::User(k) => if d.moderators.contains(k) {
            (d, AppointResult::AlreadyModerator)
        } else {
            (DiscussionView { moderators: d.moderators.insert(k), ..d }, AppointResult::Appointed)
        },
        _ => (d, AppointResult::Unmatched),
    }
}

/// Unappointing one target.
pub open spec fn unappoint_step(d: DiscussionView, t: Target) -> (DiscussionView, AppointResult) {
    match t {
        Target::User(k) => if d.is_creator(k) {
            (d, AppointResult::IsCreator)
        } else if !d.moderators.contains(k) {
            (d, AppointResult::NotModerator)
        } else {
            (DiscussionView { moderators: d.moderators.remove(k), ..d }, AppointResult::Unappointed)
        },
        _ => (d, AppointResult::Unmatched),
    }
}

/// A whole permit list, target by target.
pub open spec fn permit_all(d: DiscussionView, ts: Seq<Target>) -> (DiscussionView, Seq<PermitResult>)
    decreases ts.len(),
{
    if ts.len() == 0 {
        (d, Seq::empty())
    } else {
        let (d1, rs) = permit_all(d, ts.drop_last());
        let (d2, r) = permit_step(d1, ts.last());
        (d2, rs.push(r))
    }
}

/// A whole depermit list, target by target.
pub open spec fn depermit_all(d: DiscussionView, ts: Seq<Target>) -> (DiscussionView, Seq<DepermitResult>)
    decreases ts.len(),
{
    if ts.len() == 0 {
        (d, Seq::empty())
    } else {
        let (d1, rs) = depermit_all(d, ts.drop_last());
        let (d2, r) = depermit_step(d1, ts.last());
        (d2, rs.push(r))
    }
}

/// A whole appoint list.
pub open spec fn appoint_all(d: DiscussionView, ts: Seq<Target>) -> (DiscussionView, Seq<AppointResult>)
    decreases ts.len(),
{
    if ts.len() == 0 {
        (d, Seq::empty())
    } else {
        let (d1, rs) = appoint_all(d, ts.drop_last());
        let (d2, r) = appoint_step(d1, ts.last());
        (d2, rs.push(r))
    }
}

/// A whole unappoint list.
pub open spec fn unappoint_all(d: DiscussionView, ts: Seq<Target>) -> (DiscussionView, Seq<AppointResult>)
    decreases ts.len(),
{
    if ts.len() == 0 {
        (d, Seq::empty())
    } else {
        let (d1, rs) = unappoint_all(d, ts.drop_last());
        let (d2, r) = unappoint_step(d1, ts.last());
        (d2, rs.push(r))
    }
}

/// Whether a word of a moderation list is the keyword "others".
pub fn is_others(word: &str) -> (r: bool)
    ensures
        r == match_keyword_spec(word@, "others"@, 6).is_some(),
{
    proof {
        reveal_strlit("others");
    }
    match_keyword(word, "others", 6).is_some()
}

impl Discussion {
    /// A new discussion; its creator, if any, is its first member and a
    /// moderator.
    pub fn new(id: usize, creator: Option<u64>, name: &str, title: &str, public: bool, now: i64) -> (r: Discussion)
        ensures
            r.id == id,
            r.name@ == name@,
            r.title@ == title@,
            r.creation_time == now,
            r.idle_since == now,
            r@ == (DiscussionView {
                public: public,
                creator: creator,
                members: match creator {
                    Some(k) => Set::empty().insert(k),
                    None => Set::empty(),
                },
                moderators: match creator {
                    Some(k) => Set::empty().insert(k),
                    None => Set::empty(),
                },
                allowed: Set::empty(),
                denied: Set::empty(),
            }),
    {
        let mut members = key_set_new();
        let mut moderators = key_set_new();
        match creator {
            Some(k) => {
                key_set_insert(&mut members, k);
                key_set_insert(&mut moderators, k);
            },
            None => {},
        }
        Discussion {
            id,
            name: String::from_str(name),
            title: String::from_str(title),
            public,
            creator,
            members,
            moderators,
            allowed: key_set_new(),
            denied: key_set_new(),
            creation_time: now,
            idle_since: now,
        }
    }

    /// Whether `k` created the discussion.
    pub fn is_creator(&self, k: u64) -> (r: bool)
        ensures
            r == self@.is_creator(k),
    {
        match self.creator {
            Some(c) => c == k,
            None => false,
        }
    }

    /// Whether `k` is a member.
    pub fn is_member(&self, k: u64) -> (r: bool)
        ensures
            r == self@.members.contains(k),
    {
        key_set_contains(&self.members, k)
    }

    /// Whether `k` is a moderator.
    pub fn is_moderator(&self, k: u64) -> (r: bool)
        ensures
            r == self@.moderators.contains(k),
    {
        key_set_contains(&self.moderators, k)
    }

    /// Whether `k` is explicitly allowed.
    pub fn is_allowed(&self, k: u64) -> (r: bool)
        ensures
            r == self@.allowed.contains(k),
    {
        key_set_contains(&self.allowed, k)
    }

    /// Whether `k` is explicitly denied.
    pub fn is_denied(&self, k: u64) -> (r: bool)
        ensures
            r == self@.denied.contains(k),
    {
        key_set_contains(&self.denied, k)
    }

    /// Whether `k` may join.
    pub fn is_permitted(&self, k: u64) -> (r: bool)
        ensures
            r == self@.is_permitted(k),
    {
        self.is_creator(k) || self.is_moderator(k) || ((self.public || self.is_allowed(k)) && !self.is_denied(k))
    }

    /// The members, in order.
    pub fn members(&self) -> (r: Vec<u64>)
        ensures
            forall|k: u64| r@.contains(k) <==> self@.members.contains(k),
            forall|i: int, j: int| 0 <= i < j < r@.len() ==> r@[i] < r@[j],
    {
        key_set_keys(&self.members)
    }

    /// Permits one target.
    pub fn permit_one(&mut self, t: Target) -> (r: PermitResult)
        ensures
            (final(self)@, r) == permit_step(old(self)@, t),
            final(self).name == old(self).name,
            final(self).title == old(self).title,
            final(self).id == old(self).id,
            final(self).creation_time == old(self).creation_time,
            final(self).idle_since == old(self).idle_since,
    {
        match t {
            Target::Others => {
                if self.public {
                    PermitResult::AlreadyPublic
                } else {
                    self.public = true;
                    PermitResult::MadePublic
                }
            },
            Target::User(k) => {
                if self.public {
                    if self.is_denied(k) {
                        key_set_remove(&mut self.denied, k);
                        PermitResult::Repermitted
                    } else if self.is_allowed(k) {
                        PermitResult::AlreadyExplicitlyPermitted
                    } else {
                        key_set_insert(&mut self.allowed, k);
                        PermitResult::ExplicitlyPermitted
                    }
                } else if self.is_denied(k) {
                    key_set_remove(&mut self.denied, k);
                    key_set_insert(&mut self.allowed, k);
                    PermitResult::Repermitted
                } else if self.is_allowed(k) {
                    PermitResult::AlreadyPermitted
                } else {
                    key_set_insert(&mut self.allowed, k);
                    PermitResult::Permitted
                }
            },
            Target::Unmatched => PermitResult::Unmatched,
        }
    }

    /// Depermits one target.
    pub fn depermit_one(&mut self, t: Target) -> (r: DepermitResult)
        ensures
            (final(self)@, r) == depermit_step(old(self)@, t),
            final(self).name == old(self).name,
            final(self).title == old(self).title,
            final(self).id == old(self).id,
            final(self).creation_time == old(self).creation_time,
            final(self).idle_since == old(self).idle_since,
    {
        match t {
            Target::Others => {
                if self.public {
                    self.public = false;
                    let members = key_set_keys(&self.members);
                    let ghost a0 = key_set(self.allowed);
                    let mut i: usize = 0;
                    while i < members.len()
                        invariant
                            i <= members.len(),
                            forall|k: u64| members@.contains(k) <==> old(self)@.members.contains(k),
                            forall|x: u64|
                                key_set(self.allowed).contains(x) <==> (a0.contains(x) || exists|j: int|
                                    0 <= j < i && members@[j] == x),
                            self@ == (DiscussionView { public: false, allowed: key_set(self.allowed), ..old(self)@ }),
                            self.name == old(self).name,
                            self.title == old(self).title,
                            self.id == old(self).id,
                            self.creation_time == old(self).creation_time,
                            self.idle_since == old(self).idle_since,
                        decreases members.len() - i,
                    {
                        let k = members[i];
                        if !self.is_allowed(k) {
                            key_set_insert(&mut self.allowed, k);
                        }
                        proof {
                            assert forall|x: u64|
                                key_set(self.allowed).contains(x) implies (a0.contains(x) || exists|j: int|
                                    0 <= j < i + 1 && members@[j] == x) by {
                                if x == k {
                                    assert(members@[i as int] == x);
                                } else {
                                    assert(a0.contains(x) || exists|j: int| 0 <= j < i && members@[j] == x);
                                }
                            }
                            assert forall|x: u64|
                                (a0.contains(x) || exists|j: int| 0 <= j < i + 1 && members@[j] == x)
                                    implies key_set(self.allowed).contains(x) by {
                                if a0.contains(x) {
                                } else {
                                    let j = choose|j: int| 0 <= j < i + 1 && members@[j] == x;
                                    if j < i {
                                    } else {
                                        assert(x == k);
                                    }
                                }
                            }
                        }
                        i += 1;
                    }
                    proof {
                        assert forall|x: u64|
                            key_set(self.allowed).contains(x) <==> old(self)@.allowed.union(
                                old(self)@.members,
                            ).contains(x) by {
                            if key_set(self.allowed).contains(x) && !a0.contains(x) {
                                let j = choose|j: int| 0 <= j < i && members@[j] == x;
                                assert(members@[j] == x);
                                assert(members@.contains(x));
                            }
                            if old(self)@.members.contains(x) && !a0.contains(x) {
                                assert(members@.contains(x));
                                let j = choose|j: int| 0 <= j < members@.len() && members@[j] == x;
                                assert(0 <= j < i && members@[j] == x);
                            }
                        }
                        assert(key_set(self.allowed) =~= old(self)@.allowed.union(old(self)@.members));
                    }
                    DepermitResult::MadePrivate
                } else {
                    DepermitResult::AlreadyPrivate
                }
            },
            Target::User(k) => {
                if self.public {
                    key_set_remove(&mut self.allowed, k);
                    if self.is_denied(k) {
                        DepermitResult::AlreadyDepermitted
                    } else {
                        key_set_insert(&mut self.denied, k);
                        if self.is_member(k) {
                            key_set_remove(&mut self.members, k);
                            DepermitResult::DepermittedAndRemoved
                        } else {
                            DepermitResult::Depermitted
                        }
                    }
                } else if self.is_allowed(k) {
                    key_set_remove(&mut self.allowed, k);
                    if self.is_member(k) {
                        key_set_remove(&mut self.members, k);
                        DepermitResult::DepermittedAndRemoved
                    } else {
                        DepermitResult::Depermitted
                    }
                } else if self.is_denied(k) {
                    DepermitResult::AlreadyExplicitlyDepermitted
                } else {
                    key_set_insert(&mut self.denied, k);
                    DepermitResult::ExplicitlyDepermitted
                }
            },
            Target::Unmatched => DepermitResult::Unmatched,
        }
    }

    /// Appoints one target as a moderator.
    pub fn appoint_one(&mut self, t: Target) -> (r: AppointResult)
        ensures
            (final(self)@, r) == appoint_step(old(self)@, t),
            final(self).name == old(self).name,
            final(self).title == old(self).title,
            final(self).id == old(self).id,
            final(self).creation_time == old(self).creation_time,
            final(self).idle_since == old(self).idle_since,
    {
        match t {
            Target::User(k) => {
                if self.is_moderator(k) {
                    AppointResult::AlreadyModerator
                } else {
                    key_set_insert(&mut self.moderators, k);
                    AppointResult::Appointed
                }
            },
            _ => AppointResult::Unmatched,
        }
    }

    /// Unappoints one target as a moderator.
    pub fn unappoint_one(&mut self, t: Target) -> (r: AppointResult)
        ensures
            (final(self)@, r) == unappoint_step(old(self)@, t),
            final(self).name == old(self).name,
            final(self).title == old(self).title,
            final(self).id == old(self).id,
            final(self).creation_time == old(self).creation_time,
            final(self).idle_since == old(self).idle_since,
    {
        match t {
            Target::User(k) => {
                if self.is_creator(k) {
                    AppointResult::IsCreator
                } else if !self.is_moderator(k) {
                    AppointResult::NotModerator
                } else {
                    key_set_remove(&mut self.moderators, k);
                    AppointResult::Unappointed
                }
            },
            _ => AppointResult::Unmatched,
        }
    }
}

} // verus!

verus! {

impl Discussion {
    /// Permits each target in turn, when `actor` moderates the discussion
    /// (`None` otherwise, and nothing changes).
    pub fn permit(&mut self, actor: u64, targets: &Vec<Target>) -> (r: Option<Vec<PermitResult>>)
        ensures
            match r {
                None => !old(self)@.is_moderating(actor) && final(self)@ == old(self)@,
                Some(rs) => old(self)@.is_moderating(actor) && (final(self)@, rs@) == permit_all(
                    old(self)@,
                    targets@,
                ),
            },
            final(self).name == old(self).name,
            final(self).title == old(self).title,
            final(self).id == old(self).id,
            final(self).creation_time == old(self).creation_time,
            final(self).idle_since == old(self).idle_since,
    {
        if !(self.is_creator(actor) || self.is_moderator(actor)) {
            return None;
        }
        let mut rs: Vec<PermitResult> = Vec::new();
        let mut i: usize = 0;
        while i < targets.len()
            invariant
                i <= targets.len(),
                (self@, rs@) == permit_all(old(self)@, targets@.take(i as int)),
                self.name == old(self).name,
                self.title == old(self).title,
                self.id == old(self).id,
                self.creation_time == old(self).creation_time,
                self.idle_since == old(self).idle_since,
            decreases targets.len() - i,
        {
            proof {
                assert(targets@.take(i + 1).drop_last() =~= targets@.take(i as int));
            }
            let r = self.permit_one(targets[i]);
            rs.push(r);
            i += 1;
        }
        proof {
            assert(targets@.take(targets.len() as int) =~= targets@);
        }
        Some(rs)
    }

    /// Depermits each target in turn, when `actor` moderates the
    /// discussion.
    pub fn depermit(&mut self, actor: u64, targets: &Vec<Target>) -> (r: Option<Vec<DepermitResult>>)
        ensures
            match r {
                None => !old(self)@.is_moderating(actor) && final(self)@ == old(self)@,
                Some(rs) => old(self)@.is_moderating(actor) && (final(self)@, rs@) == depermit_all(
                    old(self)@,
                    targets@,
                ),
            },
            final(self).name == old(self).name,
            final(self).title == old(self).title,
            final(self).id == old(self).id,
            final(self).creation_time == old(self).creation_time,
            final(self).idle_since == old(self).idle_since,
    {
        if !(self.is_creator(actor) || self.is_moderator(actor)) {
            return None;
        }
        let mut rs: Vec<DepermitResult> = Vec::new();
        let mut i: usize = 0;
        while i < targets.len()
            invariant
                i <= targets.len(),
                (self@, rs@) == depermit_all(old(self)@, targets@.take(i as int)),
                self.name == old(self).name,
                self.title == old(self).title,
                self.id == old(self).id,
                self.creation_time == old(self).creation_time,
                self.idle_since == old(self).idle_since,
            decreases targets.len() - i,
        {
            proof {
                assert(targets@.take(i + 1).drop_last() =~= targets@.take(i as int));
            }
            let r = self.depermit_one(targets[i]);
            rs.push(r);
            i += 1;
        }
        proof {
            assert(targets@.take(targets.len() as int) =~= targets@);
        }
        Some(rs)
    }

    /// Appoints each target as a moderator, when `actor` moderates the
    /// discussion or has privilege level 50 or more.
    pub fn appoint(&mut self, actor: u64, priv_level: i32, targets: &Vec<Target>) -> (r: Option<Vec<AppointResult>>)
        ensures
            match r {
                None => !(old(self)@.is_moderating(actor) || priv_level >= 50) && final(self)@ == old(self)@,
                Some(rs) => (old(self)@.is_moderating(actor) || priv_level >= 50) && (final(self)@, rs@)
                    == appoint_all(old(self)@, targets@),
            },
            final(self).name == old(self).name,
            final(self).title == old(self).title,
            final(self).id == old(self).id,
            final(self).creation_time == old(self).creation_time,
            final(self).idle_since == old(self).idle_since,
    {
        if !(self.is_creator(actor) || self.is_moderator(actor) || priv_level >= 50) {
            return None;
        }
        let mut rs: Vec<AppointResult> = Vec::new();
        let mut i: usize = 0;
        while i < targets.len()
            invariant
                i <= targets.len(),
                (self@, rs@) == appoint_all(old(self)@, targets@.take(i as int)),
                self.name == old(self).name,
                self.title == old(self).title,
                self.id == old(self).id,
                self.creation_time == old(self).creation_time,
                self.idle_since == old(self).idle_since,
            decreases targets.len() - i,
        {
            proof {
                assert(targets@.take(i + 1).drop_last() =~= targets@.take(i as int));
            }
            let r = self.appoint_one(targets[i]);
            rs.push(r);
            i += 1;
        }
        proof {
            assert(targets@.take(targets.len() as int) =~= targets@);
        }
        Some(rs)
    }

    /// Unappoints each target, when `actor` moderates the discussion.
    pub fn unappoint(&mut self, actor: u64, targets: &Vec<Target>) -> (r: Option<Vec<AppointResult>>)
        ensures
            match r {
                None => !old(self)@.is_moderating(actor) && final(self)@ == old(self)@,
                Some(rs) => old(self)@.is_moderating(actor) && (final(self)@, rs@) == unappoint_all(
                    old(self)@,
                    targets@,
                ),
            },
            final(self).name == old(self).name,
            final(self).title == old(self).title,
            final(self).id == old(self).id,
            final(self).creation_time == old(self).creation_time,
            final(self).idle_since == old(self).idle_since,
    {
        if !(self.is_creator(actor) || self.is_moderator(actor)) {
            return None;
        }
        let mut rs: Vec<AppointResult> = Vec::new();
        let mut i: usize = 0;
        while i < targets.len()
            invariant
                i <= targets.len(),
                (self@, rs@) == unappoint_all(old(self)@, targets@.take(i as int)),
                self.name == old(self).name,
                self.title == old(self).title,
                self.id == old(self).id,
                self.creation_time == old(self).creation_time,
                self.idle_since == old(self).idle_since,
            decreases targets.len() - i,
        {
            proof {
                assert(targets@.take(i + 1).drop_last() =~= targets@.take(i as int));
            }
            let r = self.unappoint_one(targets[i]);
            rs.push(r);
            i += 1;
        }
        proof {
            assert(targets@.take(targets.len() as int) =~= targets@);
        }
        Some(rs)
    }

    /// Joins `k` to the discussion if permitted; returns whether `k`
    /// joined (`Err(true)`: already a member; `Err(false)`: not
    /// permitted).
    pub fn join(&mut self, k: u64) -> (r: Result<(), bool>)
        ensures
            (r, final(self)@) == join_spec(old(self)@, k),
            final(self).name == old(self).name,
            final(self).title == old(self).title,
            final(self).id == old(self).id,
            final(self).creation_time == old(self).creation_time,
            final(self).idle_since == old(self).idle_since,
    {
        if self.is_member(k) {
            Err(true)
        } else if self.is_permitted(k) {
            key_set_insert(&mut self.members, k);
            Ok(())
        } else {
            Err(false)
        }
    }

    /// Takes `k` out of the discussion; returns whether it was a member.
    pub fn quit(&mut self, k: u64) -> (r: bool)
        ensures
            r == old(self)@.members.contains(k),
            final(self)@ == quit_spec(old(self)@, k),
            final(self).name == old(self).name,
            final(self).title == old(self).title,
            final(self).id == old(self).id,
            final(self).creation_time == old(self).creation_time,
            final(self).idle_since == old(self).idle_since,
    {
        let was = self.is_member(k);
        if was {
            key_set_remove(&mut self.members, k);
        } else {
            proof {
                assert(key_set(self.members).remove(k) =~= key_set(self.members));
            }
        }
        was
    }

    /// Whether `k` may destroy the discussion.
    pub fn may_destroy(&self, k: u64) -> (r: bool)
        ensures
            r == self@.is_moderating(k),
    {
        self.is_creator(k) || self.is_moderator(k)
    }
}

/// Whether `k` is a member of one of the private discussions among
/// `discussions` whose keys are in `ids`: a message to those reaches `k`
/// privately.
pub open spec fn private_member_spec(k: u64, discussions: Seq<Discussion>, ids: Seq<u64>) -> bool {
    exists|i: int|
        0 <= i < discussions.len() && ids.contains(discussions[i].id as u64) && !discussions[i].public
            && #[trigger] key_set(discussions[i].members).contains(k)
}

/// Whether `id` is among `ids`.
fn holds_key(ids: &Vec<u64>, id: u64) -> (r: bool)
    ensures
        r == ids@.contains(id),
{
    let mut j: usize = 0;
    while j < ids.len()
        invariant
            j <= ids.len(),
            forall|t: int| 0 <= t < j ==> ids@[t] != id,
        decreases ids.len() - j,
    {
        if ids[j] == id {
            assert(ids@[j as int] == id);
            return true;
        }
        j += 1;
    }
    false
}

/// Whether `k` is a member of one of the private discussions named by
/// `ids` (see `private_member_spec`).
pub fn private_member(k: u64, discussions: &Vec<Discussion>, ids: &Vec<u64>) -> (r: bool)
    ensures
        r == private_member_spec(k, discussions@, ids@),
{
    let mut i: usize = 0;
    while i < discussions.len()
        invariant
            i <= discussions.len(),
            forall|j: int|
                0 <= j < i ==> !(ids@.contains(discussions@[j].id as u64) && !discussions@[j].public
                    && #[trigger] key_set(discussions@[j].members).contains(k)),
        decreases discussions.len() - i,
    {
        let d = &discussions[i];
        if !d.public && key_set_contains(&d.members, k) && holds_key(ids, d.id as u64) {
            return true;
        }
        i += 1;
    }
    false
}

// ---------------------------------------------------------------------------
// Laws
// ---------------------------------------------------------------------------

/// Permitting never puts anyone on both the allowed and the denied list.
pub proof fn lemma_permit_keeps_lists_disjoint(d: DiscussionView, t: Target)
    requires
        d.lists_disjoint(),
    ensures
        permit_step(d, t).0.lists_disjoint(),
{
    let d2 = permit_step(d, t).0;
    assert(d2.allowed.disjoint(d2.denied)) by {
        assert forall|x: u64| d2.allowed.contains(x) implies !d2.denied.contains(x) by {
            assert(d.allowed.contains(x) ==> !d.denied.contains(x));
        }
    }
}

/// Depermitting keeps the allowed and denied lists apart, as long as,
/// when a public discussion is made private (and its members allowed), no
/// member is denied.
pub proof fn lemma_depermit_keeps_lists_disjoint(d: DiscussionView, t: Target)
    requires
        d.lists_disjoint(),
        t == Target::Others && d.public ==> d.members.disjoint(d.denied),
    ensures
        depermit_step(d, t).0.lists_disjoint(),
{
    let d2 = depermit_step(d, t).0;
    assert(d2.allowed.disjoint(d2.denied)) by {
        assert forall|x: u64| d2.allowed.contains(x) implies !d2.denied.contains(x) by {
            assert(d.allowed.contains(x) ==> !d.denied.contains(x));
            assert(d.members.disjoint(d.denied) ==> (d.members.contains(x) ==> !d.denied.contains(x)));
        }
    }
}

/// After a permit names a user, that user may join.
pub proof fn lemma_permit_permits(d: DiscussionView, k: u64)
    ensures
        permit_step(d, Target::User(k)).0.is_permitted(k),
{
}

/// After a depermit names a user, that user may not join unless they
/// moderate the discussion.
pub proof fn lemma_depermit_denies(d: DiscussionView, k: u64)
    requires
        !d.is_moderating(k),
    ensures
        !depermit_step(d, Target::User(k)).0.is_permitted(k),
{
}

/// Permitting and depermitting change neither the creator nor the
/// moderators, so whoever moderates a discussion may always join it.
pub proof fn lemma_moderators_stay_permitted(d: DiscussionView, t: Target, k: u64)
    requires
        d.is_moderating(k),
    ensures
        permit_step(d, t).0.is_permitted(k),
        depermit_step(d, t).0.is_permitted(k),
{
}


/// Quitting a discussion just joined leaves it as it was before the join;
/// and joining twice gives the first join's refusal again, or, after a
/// join that succeeded, "already a member".
pub proof fn lemma_quit_undoes_join(d: DiscussionView, k: u64)
    requires
        !d.members.contains(k),
    ensures
        join_spec(d, k).0 is Ok ==> quit_spec(join_spec(d, k).1, k) == d,
        join_spec(join_spec(d, k).1, k).0 == (if join_spec(d, k).0 is Ok {
            Err(true)
        } else {
            join_spec(d, k).0
        }),
{
    assert(d.members.insert(k).remove(k) =~= d.members);
}


/// Depermitting a user who was permitted through the lists (a public
/// discussion not denying them, or a private one allowing them) removes
/// them from the members; a depermit never removes anyone else, never
/// leaves the user allowed, and reports "depermitted and removed" exactly
/// when the user was a member and no longer is.
pub proof fn lemma_depermit_removes_member(d: DiscussionView, k: u64)
    ensures
        ({
            let (d2, r) = depermit_step(d, Target::User(k));
            &&& (d.public && !d.denied.contains(k)) || (!d.public && d.allowed.contains(k)) ==> !d2.members.contains(k)
            &&& forall|m: u64| m != k ==> (d2.members.contains(m) <==> d.members.contains(m))
            &&& !d2.allowed.contains(k)
            &&& (r == DepermitResult::DepermittedAndRemoved) == (d.members.contains(k) && !d2.members.contains(k))
        }),
{
}

} // verus!
