//! What the organisation commands change: which groups or contexts a deletion
//! removes, and the steps of creating and modifying a group, as functions
//! from what a lookup found to the next thing to do.
use vstd::prelude::*;

use crate::org::{distinct, distinct_names, Reply, ReplyView};
use crate::perms::{rule_views, RuleEntry, RuleEntryView};

verus! {

/// What a deletion run decides for each name: deleted, kept because the sender
/// does not own it, or not found.
pub struct DeletionOutcome {
    pub deleted: Vec<String>,
    pub not_owner: Vec<String>,
    pub not_found: Vec<String>,
}

pub struct DeletionOutcomeView {
    pub deleted: Seq<Seq<char>>,
    pub not_owner: Seq<Seq<char>>,
    pub not_found: Seq<Seq<char>>,
}

impl View for DeletionOutcome {
    type V = DeletionOutcomeView;

    open spec fn view(&self) -> DeletionOutcomeView {
        DeletionOutcomeView {
            deleted: self.deleted.deep_view(),
            not_owner: self.not_owner.deep_view(),
            not_found: self.not_found.deep_view(),
        }
    }
}

/// The outcome for the first `k` names of `names`, where `found[i]` is what
/// the lookup of `names[i]` found: its stored name and whether the sender owns
/// it. An owned one is deleted, another one is kept as not owned (both under
/// the stored name), and a name not found is reported as given.
pub open spec fn deletion_upto(
    names: Seq<Seq<char>>,
    found: Seq<Option<(Seq<char>, bool)>>,
    k: int,
) -> DeletionOutcomeView
    decreases k,
{
    if k <= 0 {
        DeletionOutcomeView {
            deleted: Seq::empty(),
            not_owner: Seq::empty(),
            not_found: Seq::empty(),
        }
    } else {
        let prev = deletion_upto(names, found, k - 1);
        match found[k - 1] {
            Some((stored, true)) => DeletionOutcomeView { deleted: prev.deleted.push(stored), ..prev },
            Some((stored, false)) => DeletionOutcomeView {
                not_owner: prev.not_owner.push(stored),
                ..prev
            },
            None => DeletionOutcomeView { not_found: prev.not_found.push(names[k - 1]), ..prev },
        }
    }
}

/// The outcome of deleting `names`: each distinct name is looked up once, in
/// order of first occurrence.
pub open spec fn deletion(
    names: Seq<Seq<char>>,
    found: Seq<Option<(Seq<char>, bool)>>,
) -> DeletionOutcomeView {
    deletion_upto(distinct(names), found, distinct(names).len() as int)
}

/// The names a deletion run looks up, once each, in order of first occurrence.
pub fn names_to_look_up(names: &Vec<String>) -> (res: Vec<String>)
    ensures
        res.deep_view() == distinct(names.deep_view()),
{
    distinct_names(names)
}

/// Sorts the names of a deletion run by what their lookups found.
/// `found[i]` answers the lookup of the `i`-th name of `names_to_look_up`.
pub fn deletion_outcome(names: &Vec<String>, found: &Vec<Option<(String, bool)>>) -> (res:
    DeletionOutcome)
    requires
        found@.len() == distinct(names.deep_view()).len(),
    ensures
        res@ == deletion(names.deep_view(), found.deep_view()),
{
    let d = distinct_names(names);
    let ghost dv = d.deep_view();
    let ghost fv = found.deep_view();
    let mut deleted: Vec<String> = Vec::new();
    let mut not_owner: Vec<String> = Vec::new();
    let mut not_found: Vec<String> = Vec::new();
    let mut i: usize = 0;
    assert(deleted.deep_view() =~= Seq::<Seq<char>>::empty());
    assert(not_owner.deep_view() =~= Seq::<Seq<char>>::empty());
    assert(not_found.deep_view() =~= Seq::<Seq<char>>::empty());
    while i < found.len()
        invariant
            dv == d.deep_view(),
            fv == found.deep_view(),
            found@.len() == d@.len(),
            i <= found@.len(),
            (DeletionOutcomeView {
                deleted: deleted.deep_view(),
                not_owner: not_owner.deep_view(),
                not_found: not_found.deep_view(),
            }) == deletion_upto(dv, fv, i as int),
        decreases found.len() - i,
    {
        let ghost pd = deleted.deep_view();
        let ghost po = not_owner.deep_view();
        let ghost pn = not_found.deep_view();
        assert(fv[i as int] == found@[i as int].deep_view());
        match &found[i] {
            Some((stored, owned)) => {
                if *owned {
                    deleted.push(stored.clone());
                    assert(deleted.deep_view() =~= pd.push(stored@));
                } else {
                    not_owner.push(stored.clone());
                    assert(not_owner.deep_view() =~= po.push(stored@));
                }
            },
            None => {
                assert(dv[i as int] == d@[i as int]@);
                not_found.push(d[i].clone());
                assert(not_found.deep_view() =~= pn.push(dv[i as int]));
            },
        }
        i = i + 1;
    }
    DeletionOutcome { deleted, not_owner, not_found }
}

proof fn lemma_deletion_upto_members(
    names: Seq<Seq<char>>,
    found: Seq<Option<(Seq<char>, bool)>>,
    k: int,
    x: Seq<char>,
)
    requires
        0 <= k <= found.len(),
    ensures
        deletion_upto(names, found, k).deleted.contains(x) <==> exists|i: int|
            0 <= i < k && #[trigger] found[i] == Some((x, true)),
        deletion_upto(names, found, k).not_owner.contains(x) <==> exists|i: int|
            0 <= i < k && #[trigger] found[i] == Some((x, false)),
        deletion_upto(names, found, k).not_found.contains(x) <==> exists|i: int|
            0 <= i < k && #[trigger] found[i] is None && names[i] == x,
    decreases k,
{
    if k > 0 {
        lemma_deletion_upto_members(names, found, k - 1, x);
        let prev = deletion_upto(names, found, k - 1);
        let cur = deletion_upto(names, found, k);
        lemma_push_contains(prev.deleted, cur.deleted, x);
        lemma_push_contains(prev.not_owner, cur.not_owner, x);
        lemma_push_contains(prev.not_found, cur.not_found, x);
        if exists|i: int| 0 <= i < k && #[trigger] found[i] == Some((x, true)) {
            let i = choose|i: int| 0 <= i < k && #[trigger] found[i] == Some((x, true));
            if i < k - 1 {
                assert(exists|j: int| 0 <= j < k - 1 && #[trigger] found[j] == Some((x, true)));
            }
        }
        if exists|i: int| 0 <= i < k && #[trigger] found[i] == Some((x, false)) {
            let i = choose|i: int| 0 <= i < k && #[trigger] found[i] == Some((x, false));
            if i < k - 1 {
                assert(exists|j: int| 0 <= j < k - 1 && #[trigger] found[j] == Some((x, false)));
            }
        }
        if exists|i: int| 0 <= i < k && #[trigger] found[i] is None && names[i] == x {
            let i = choose|i: int| 0 <= i < k && #[trigger] found[i] is None && names[i] == x;
            if i < k - 1 {
                assert(exists|j: int| 0 <= j < k - 1 && #[trigger] found[j] is None && names[j] == x);
            }
        }
        if exists|i: int| 0 <= i < k - 1 && #[trigger] found[i] == Some((x, true)) {
            let i = choose|i: int| 0 <= i < k - 1 && #[trigger] found[i] == Some((x, true));
            assert(0 <= i < k);
        }
        if exists|i: int| 0 <= i < k - 1 && #[trigger] found[i] == Some((x, false)) {
            let i = choose|i: int| 0 <= i < k - 1 && #[trigger] found[i] == Some((x, false));
            assert(0 <= i < k);
        }
        if exists|i: int| 0 <= i < k - 1 && #[trigger] found[i] is None && names[i] == x {
            let i = choose|i: int| 0 <= i < k - 1 && #[trigger] found[i] is None && names[i] == x;
            assert(0 <= i < k);
        }
    }
}

proof fn lemma_push_contains(before: Seq<Seq<char>>, after: Seq<Seq<char>>, x: Seq<char>)
    requires
        after == before || exists|y: Seq<char>| after == before.push(y),
    ensures
        after.contains(x) <==> (before.contains(x) || (after != before && after.last() == x)),
{
    if after != before {
        let y = choose|y: Seq<char>| after == before.push(y);
        if before.contains(x) {
            let i = choose|i: int| 0 <= i < before.len() && before[i] == x;
            assert(after[i] == x);
        }
        if after.contains(x) {
            let i = choose|i: int| 0 <= i < after.len() && after[i] == x;
            if i < before.len() {
                assert(before[i] == x);
            }
        }
        assert(after[after.len() - 1] == after.last());
    }
}

/// Only what the sender owns is deleted: a name is deleted exactly when its
/// lookup found it owned by the sender, it is kept as not owned exactly when
/// the lookup found it owned by someone else, and it is reported as not found
/// exactly when the lookup found nothing.
pub proof fn law_only_owned_deleted(
    names: Seq<Seq<char>>,
    found: Seq<Option<(Seq<char>, bool)>>,
    x: Seq<char>,
)
    requires
        found.len() == distinct(names).len(),
    ensures
        deletion(names, found).deleted.contains(x) <==> exists|i: int|
            0 <= i < found.len() && #[trigger] found[i] == Some((x, true)),
        deletion(names, found).not_owner.contains(x) <==> exists|i: int|
            0 <= i < found.len() && #[trigger] found[i] == Some((x, false)),
        deletion(names, found).not_found.contains(x) <==> exists|i: int|
            0 <= i < found.len() && #[trigger] found[i] is None && distinct(names)[i] == x,
{
    lemma_deletion_upto_members(distinct(names), found, found.len() as int, x);
}

} // verus!

verus! {

/// A group or a context as a lookup finds it: its id, name, owner and admin
/// group.
pub struct FoundGroup {
    pub id: u64,
    pub name: String,
    pub desc: String,
    pub owner: u64,
    pub admin_group: Option<u64>,
}

pub struct FoundGroupView {
    pub id: u64,
    pub name: Seq<char>,
    pub desc: Seq<char>,
    pub owner: u64,
    pub admin_group: Option<u64>,
}

impl View for FoundGroup {
    type V = FoundGroupView;

    open spec fn view(&self) -> FoundGroupView {
        FoundGroupView {
            id: self.id,
            name: self.name@,
            desc: self.desc@,
            owner: self.owner,
            admin_group: self.admin_group,
        }
    }
}

/// What the organisation store answered to the last action.
pub enum OrgEvent {
    /// The command starts.
    Begin,
    /// A user lookup: the user's id, if the user is known.
    User(Option<u64>),
    /// A group or context lookup: what was found, if anything.
    Group(Option<FoundGroup>),
    /// A group was created with this id.
    Created(u64),
    /// A membership was added or removed: whether anything changed.
    Changed(bool),
    /// Whether a user is a member of a group.
    Member(bool),
    /// The group or context was updated.
    Updated,
    /// The sender's power level in the room.
    Level(i64),
    /// The room was attached to a context: the name of the context it had
    /// before, if any.
    Attached(Option<String>),
    /// A user found by id, as user and server.
    UserNamed(String, String),
    /// A number of rooms.
    Count(u64),
    /// A permission lookup: its id and name, if it exists.
    Permission(Option<(u64, String)>),
    /// A list of names.
    Names(Vec<String>),
    /// The permission rules of a context.
    Rules(Vec<RuleEntry>),
}

pub enum OrgEventView {
    Begin,
    User(Option<u64>),
    Group(Option<FoundGroupView>),
    Created(u64),
    Changed(bool),
    Member(bool),
    Updated,
    Level(i64),
    Attached(Option<Seq<char>>),
    UserNamed(Seq<char>, Seq<char>),
    Count(u64),
    Permission(Option<(u64, Seq<char>)>),
    Names(Seq<Seq<char>>),
    Rules(Seq<RuleEntryView>),
}

impl View for OrgEvent {
    type V = OrgEventView;

    open spec fn view(&self) -> OrgEventView {
        match self {
            OrgEvent::Begin => OrgEventView::Begin,
            OrgEvent::User(u) => OrgEventView::User(*u),
            OrgEvent::Group(g) => OrgEventView::Group(
                match g {
                    Some(x) => Some(x@),
                    None => None,
                },
            ),
            OrgEvent::Created(id) => OrgEventView::Created(*id),
            OrgEvent::Changed(b) => OrgEventView::Changed(*b),
            OrgEvent::Member(b) => OrgEventView::Member(*b),
            OrgEvent::Updated => OrgEventView::Updated,
            OrgEvent::Level(l) => OrgEventView::Level(*l),
            OrgEvent::Attached(p) => OrgEventView::Attached(p.deep_view()),
            OrgEvent::UserNamed(u, sv) => OrgEventView::UserNamed(u@, sv@),
            OrgEvent::Count(n) => OrgEventView::Count(*n),
            OrgEvent::Permission(p) => OrgEventView::Permission(p.deep_view()),
            OrgEvent::Names(n) => OrgEventView::Names(n.deep_view()),
            OrgEvent::Rules(r) => OrgEventView::Rules(rule_views(r@)),
        }
    }
}

/// The changes an update of a group or a context writes: `None` leaves a
/// field as it is; for the admin group, `Some(None)` removes it.
pub struct Change {
    pub target: u64,
    pub name: Option<String>,
    pub desc: Option<String>,
    pub owner: Option<u64>,
    pub admin_group: Option<Option<u64>>,
}

pub struct ChangeView {
    pub target: u64,
    pub name: Option<Seq<char>>,
    pub desc: Option<Seq<char>>,
    pub owner: Option<u64>,
    pub admin_group: Option<Option<u64>>,
}

impl View for Change {
    type V = ChangeView;

    open spec fn view(&self) -> ChangeView {
        ChangeView {
            target: self.target,
            name: self.name.deep_view(),
            desc: self.desc.deep_view(),
            owner: self.owner,
            admin_group: self.admin_group,
        }
    }
}

/// What to do next: a lookup or a change in the organisation store, a reply,
/// or nothing more.
pub enum OrgAction {
    /// Look up the user `user:server`; answered by `OrgEvent::User`.
    FindUser(String, String),
    /// Look up the sender, recording it if it is new; answered by `OrgEvent::User`.
    SenderUser,
    /// Look up a group by name; answered by `OrgEvent::Group`.
    FindGroup(String),
    /// Create a group with name, description, owner and admin group; answered
    /// by `OrgEvent::Created`.
    CreateGroup(String, String, u64, Option<u64>),
    /// Add a user to a group; answered by `OrgEvent::Changed`.
    AddMember(u64, u64),
    /// Remove a user from a group; answered by `OrgEvent::Changed`.
    RemoveMember(u64, u64),
    /// Ask whether a user is a member of a group; answered by `OrgEvent::Member`.
    IsMember(u64, u64),
    /// Write the changes to a group; answered by `OrgEvent::Updated`.
    UpdateGroup(Change),
    /// Look up a context by name; answered by `OrgEvent::Group`, which
    /// carries the context found.
    FindContext(String),
    /// Create a context with name, description, owner and admin group;
    /// answered by `OrgEvent::Created`.
    CreateContext(String, String, u64, Option<u64>),
    /// Write the changes to a context; answered by `OrgEvent::Updated`.
    UpdateContext(Change),
    /// Ask the sender's power level in the room; answered by `OrgEvent::Level`.
    PowerLevel,
    /// Make a context the room's context; answered by `OrgEvent::Attached`.
    AttachRoom(u64),
    /// Look up the room's context; answered by `OrgEvent::Group`.
    RoomContext,
    /// Look up a user by id; answered by `OrgEvent::UserNamed`.
    UserById(u64),
    /// Look up a group by id; answered by `OrgEvent::Group`.
    GroupById(u64),
    /// Count the rooms that use a context; answered by `OrgEvent::Count`.
    CountRooms(u64),
    /// Look up a permission by qualifier; answered by `OrgEvent::Permission`.
    FindPermission(String),
    /// Store the rule of a permission for a group in a context, with a
    /// priority and whether it allows; answered by `OrgEvent::Updated`.
    SetRule(u64, u64, u64, i32, bool),
    /// Delete a group; answered by `OrgEvent::Updated`.
    DeleteGroup(u64),
    /// Delete a context; answered by `OrgEvent::Updated`.
    DeleteContext(u64),
    /// The names of the groups `user:server` is a member of; answered by
    /// `OrgEvent::Names`.
    MemberOf(String, String),
    /// The names of the groups `user:server` administers; answered by
    /// `OrgEvent::Names`.
    AdminOf(String, String),
    /// The names of the groups `user:server` owns; answered by
    /// `OrgEvent::Names`.
    OwnerOf(String, String),
    /// The first members of a group, at most the given number of them, as
    /// shown; answered by `OrgEvent::Names`.
    Members(u64, u64),
    /// Count the members of a group; answered by `OrgEvent::Count`.
    CountMembers(u64),
    /// The names of the contexts `user:server` administers; answered by
    /// `OrgEvent::Names`.
    ContextAdminOf(String, String),
    /// The names of the contexts `user:server` owns; answered by
    /// `OrgEvent::Names`.
    ContextOwnerOf(String, String),
    /// The permission rules of a context; answered by `OrgEvent::Rules`.
    ListRules(u64),
    /// Leave the room without a context; answered by `OrgEvent::Updated`.
    DetachRoom,
    /// Reply, and stop.
    Reply(Reply),
    /// Stop without replying: the store answered something the command did
    /// not ask for.
    Finish,
}

pub enum OrgActionView {
    FindUser(Seq<char>, Seq<char>),
    SenderUser,
    FindGroup(Seq<char>),
    CreateGroup(Seq<char>, Seq<char>, u64, Option<u64>),
    AddMember(u64, u64),
    RemoveMember(u64, u64),
    IsMember(u64, u64),
    UpdateGroup(ChangeView),
    FindContext(Seq<char>),
    CreateContext(Seq<char>, Seq<char>, u64, Option<u64>),
    UpdateContext(ChangeView),
    PowerLevel,
    AttachRoom(u64),
    RoomContext,
    UserById(u64),
    GroupById(u64),
    CountRooms(u64),
    FindPermission(Seq<char>),
    SetRule(u64, u64, u64, i32, bool),
    DeleteGroup(u64),
    DeleteContext(u64),
    MemberOf(Seq<char>, Seq<char>),
    AdminOf(Seq<char>, Seq<char>),
    OwnerOf(Seq<char>, Seq<char>),
    Members(u64, u64),
    CountMembers(u64),
    ContextAdminOf(Seq<char>, Seq<char>),
    ContextOwnerOf(Seq<char>, Seq<char>),
    ListRules(u64),
    DetachRoom,
    Reply(ReplyView),
    Finish,
}

impl View for OrgAction {
    type V = OrgActionView;

    open spec fn view(&self) -> OrgActionView {
        match self {
            OrgAction::FindUser(u, s) => OrgActionView::FindUser(u@, s@),
            OrgAction::SenderUser => OrgActionView::SenderUser,
            OrgAction::FindGroup(n) => OrgActionView::FindGroup(n@),
            OrgAction::CreateGroup(n, d, o, a) => OrgActionView::CreateGroup(n@, d@, *o, *a),
            OrgAction::AddMember(u, g) => OrgActionView::AddMember(*u, *g),
            OrgAction::RemoveMember(u, g) => OrgActionView::RemoveMember(*u, *g),
            OrgAction::IsMember(u, g) => OrgActionView::IsMember(*u, *g),
            OrgAction::UpdateGroup(c) => OrgActionView::UpdateGroup(c@),
            OrgAction::FindContext(n) => OrgActionView::FindContext(n@),
            OrgAction::CreateContext(n, d, o, a) => OrgActionView::CreateContext(n@, d@, *o, *a),
            OrgAction::UpdateContext(c) => OrgActionView::UpdateContext(c@),
            OrgAction::PowerLevel => OrgActionView::PowerLevel,
            OrgAction::AttachRoom(c) => OrgActionView::AttachRoom(*c),
            OrgAction::RoomContext => OrgActionView::RoomContext,
            OrgAction::UserById(u) => OrgActionView::UserById(*u),
            OrgAction::GroupById(g) => OrgActionView::GroupById(*g),
            OrgAction::CountRooms(c) => OrgActionView::CountRooms(*c),
            OrgAction::FindPermission(q) => OrgActionView::FindPermission(q@),
            OrgAction::SetRule(p, g, c, pr, a) => OrgActionView::SetRule(*p, *g, *c, *pr, *a),
            OrgAction::DeleteGroup(g) => OrgActionView::DeleteGroup(*g),
            OrgAction::DeleteContext(c) => OrgActionView::DeleteContext(*c),
            OrgAction::MemberOf(u, sv) => OrgActionView::MemberOf(u@, sv@),
            OrgAction::AdminOf(u, sv) => OrgActionView::AdminOf(u@, sv@),
            OrgAction::OwnerOf(u, sv) => OrgActionView::OwnerOf(u@, sv@),
            OrgAction::Members(g, n) => OrgActionView::Members(*g, *n),
            OrgAction::CountMembers(g) => OrgActionView::CountMembers(*g),
            OrgAction::ContextAdminOf(u, sv) => OrgActionView::ContextAdminOf(u@, sv@),
            OrgAction::ContextOwnerOf(u, sv) => OrgActionView::ContextOwnerOf(u@, sv@),
            OrgAction::ListRules(c) => OrgActionView::ListRules(*c),
            OrgAction::DetachRoom => OrgActionView::DetachRoom,
            OrgAction::Reply(r) => OrgActionView::Reply(r@),
            OrgAction::Finish => OrgActionView::Finish,
        }
    }
}

} // verus!
