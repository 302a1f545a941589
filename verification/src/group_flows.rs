//! The `groupadd` command as a sequence of steps: each step takes what the
//! organisation store answered and says what to do next.
use vstd::prelude::*;

use crate::flows::{FoundGroupView, OrgAction, OrgActionView, OrgEvent, OrgEventView};
use crate::groups::{group_created_html, group_created_plain, GroupCreated, GroupCreatedView};
use crate::org::{
    all_nonempty, check_creation, creation_rejection, malformed_owner, malformed_owner_reply,
    mention_parts, name_taken, name_taken_reply, parse_mention, sort_mentions, sorted_mentions,
    unknown_admin_group, unknown_admin_group_reply, unknown_owner, unknown_owner_reply, Entity,
    Reply, ReplyView,
};

verus! {

/// The arguments of `groupadd`, with what the command knows before any lookup:
/// the naming rules' verdict on the name, the longest description allowed,
/// and the sender as user and server.
pub struct GroupAddRequest {
    pub name: String,
    pub desc: Option<String>,
    pub owner: Option<String>,
    pub admin_group: Option<String>,
    pub users: Vec<String>,
    pub name_valid: bool,
    pub desc_max_len: usize,
    pub sender: (String, String),
}

pub struct GroupAddRequestView {
    pub name: Seq<char>,
    pub desc: Option<Seq<char>>,
    pub owner: Option<Seq<char>>,
    pub admin_group: Option<Seq<char>>,
    pub users: Seq<Seq<char>>,
    pub name_valid: bool,
    pub desc_max_len: nat,
    pub sender: (Seq<char>, Seq<char>),
}

impl View for GroupAddRequest {
    type V = GroupAddRequestView;

    open spec fn view(&self) -> GroupAddRequestView {
        GroupAddRequestView {
            name: self.name@,
            desc: self.desc.deep_view(),
            owner: self.owner.deep_view(),
            admin_group: self.admin_group.deep_view(),
            users: self.users.deep_view(),
            name_valid: self.name_valid,
            desc_max_len: self.desc_max_len as nat,
            sender: (self.sender.0@, self.sender.1@),
        }
    }
}

/// Where a `groupadd` run stands.
#[derive(Clone, Copy, Debug, PartialEq, Eq, Structural)]
pub enum GroupAddPhase {
    Start,
    AwaitOwner,
    AwaitSender,
    AwaitUser(usize),
    AwaitName,
    AwaitAdmin,
    AwaitCreated,
    Adding(usize),
    Done,
}

/// A `groupadd` run.
pub struct GroupAdd {
    req: GroupAddRequest,
    phase: GroupAddPhase,
    wellformed: Vec<(String, String, String)>,
    malformed: Vec<String>,
    owner: Option<(u64, String, String)>,
    members: Vec<(u64, String, String)>,
    missing: Vec<String>,
    admin: Option<(u64, String)>,
    group: Option<u64>,
}

/// What a `groupadd` run holds: the request, its phase, the `-u` mentions
/// sorted into well-formed (mention, user, server) and malformed ones, the
/// owner found (id, user, server), the members found and the mentions of
/// unknown users, the admin group found (id, name), and the created group.
pub struct GroupAddView {
    pub req: GroupAddRequestView,
    pub phase: GroupAddPhase,
    pub wellformed: Seq<(Seq<char>, Seq<char>, Seq<char>)>,
    pub malformed: Seq<Seq<char>>,
    pub owner: Option<(u64, Seq<char>, Seq<char>)>,
    pub members: Seq<(u64, Seq<char>, Seq<char>)>,
    pub missing: Seq<Seq<char>>,
    pub admin: Option<(u64, Seq<char>)>,
    pub group: Option<u64>,
}

impl View for GroupAdd {
    type V = GroupAddView;

    closed spec fn view(&self) -> GroupAddView {
        GroupAddView {
            req: self.req@,
            phase: self.phase,
            wellformed: self.wellformed.deep_view(),
            malformed: self.malformed.deep_view(),
            owner: self.owner.deep_view(),
            members: self.members.deep_view(),
            missing: self.missing.deep_view(),
            admin: self.admin.deep_view(),
            group: self.group,
        }
    }
}

/// The run before its first step.
pub open spec fn groupadd_start(req: GroupAddRequestView) -> GroupAddView {
    GroupAddView {
        req,
        phase: GroupAddPhase::Start,
        wellformed: sorted_mentions(req.users).0,
        malformed: sorted_mentions(req.users).1,
        owner: None,
        members: Seq::empty(),
        missing: Seq::empty(),
        admin: None,
        group: None,
    }
}

/// The description a new group gets: the one given, or none.
pub open spec fn desc_or_empty(desc: Option<Seq<char>>) -> Seq<char> {
    match desc {
        Some(d) => d,
        None => Seq::empty(),
    }
}

/// Stop without a reply.
pub open spec fn groupadd_stop(s: GroupAddView) -> (GroupAddView, OrgActionView) {
    (GroupAddView { phase: GroupAddPhase::Done, ..s }, OrgActionView::Finish)
}

/// Stop with a reply.
pub open spec fn groupadd_reply(s: GroupAddView, r: ReplyView) -> (GroupAddView, OrgActionView) {
    (GroupAddView { phase: GroupAddPhase::Done, ..s }, OrgActionView::Reply(r))
}

/// Look up the `k`-th well-formed `-u` user, or, once all are looked up,
/// whether the name is taken.
pub open spec fn look_up_users(s: GroupAddView, k: int) -> (GroupAddView, OrgActionView) {
    if k < s.wellformed.len() {
        (
            GroupAddView { phase: GroupAddPhase::AwaitUser(k as usize), ..s },
            OrgActionView::FindUser(s.wellformed[k].1, s.wellformed[k].2),
        )
    } else {
        (GroupAddView { phase: GroupAddPhase::AwaitName, ..s }, OrgActionView::FindGroup(s.req.name))
    }
}

/// Create the group with the owner and admin group found.
pub open spec fn create_group(s: GroupAddView) -> (GroupAddView, OrgActionView) {
    (
        GroupAddView { phase: GroupAddPhase::AwaitCreated, ..s },
        OrgActionView::CreateGroup(
            s.req.name,
            desc_or_empty(s.req.desc),
            (s.owner->0).0,
            match s.admin {
                Some(a) => Some(a.0),
                None => None,
            },
        ),
    )
}

/// What the summary of the created group shows.
pub open spec fn created_view(s: GroupAddView) -> GroupCreatedView {
    GroupCreatedView {
        name: s.req.name,
        desc: desc_or_empty(s.req.desc),
        owner: ((s.owner->0).1, (s.owner->0).2),
        admin_group: match s.admin {
            Some(a) => Some(a.1),
            None => None,
        },
        users: s.members.map_values(|m: (u64, Seq<char>, Seq<char>)| (m.1, m.2)),
        malformed: s.malformed,
        missing: s.missing,
    }
}

/// Add the `k`-th member found to the new group, or, once all are added,
/// reply with the summary.
pub open spec fn add_members(s: GroupAddView, k: int) -> (GroupAddView, OrgActionView) {
    if k < s.members.len() {
        (
            GroupAddView { phase: GroupAddPhase::Adding(k as usize), ..s },
            OrgActionView::AddMember(s.members[k].0, s.group->0),
        )
    } else {
        groupadd_reply(
            s,
            ReplyView::Html(group_created_plain(created_view(s)), group_created_html(created_view(s))),
        )
    }
}

/// One step of `groupadd`: from where the run stands and what the store
/// answered, where it goes and what to do next.
///
/// In order: the checks on the arguments; the owner, as mentioned, or else
/// the sender; each well-formed `-u` user; whether the name is taken; the
/// admin group; the creation; one membership per user found; the summary.
pub open spec fn groupadd_next(s: GroupAddView, e: OrgEventView) -> (GroupAddView, OrgActionView) {
    match s.phase {
        GroupAddPhase::Start => match e {
            OrgEventView::Begin => match creation_rejection(
                Entity::Group,
                s.req.name,
                s.req.name_valid,
                s.req.desc,
                s.req.desc_max_len,
            ) {
                Some(r) => groupadd_reply(s, r),
                None => match s.req.owner {
                    Some(o) => match mention_parts(o) {
                        Some(parts) => (
                            GroupAddView { phase: GroupAddPhase::AwaitOwner, ..s },
                            OrgActionView::FindUser(parts.0, parts.1),
                        ),
                        None => groupadd_reply(s, malformed_owner()),
                    },
                    None => (GroupAddView { phase: GroupAddPhase::AwaitSender, ..s }, OrgActionView::SenderUser),
                },
            },
            _ => groupadd_stop(s),
        },
        GroupAddPhase::AwaitOwner => match e {
            OrgEventView::User(Some(id)) => {
                let parts = mention_parts(s.req.owner->0)->0;
                look_up_users(GroupAddView { owner: Some((id, parts.0, parts.1)), ..s }, 0)
            },
            OrgEventView::User(None) => groupadd_reply(s, unknown_owner(Entity::Group, s.req.owner->0)),
            _ => groupadd_stop(s),
        },
        GroupAddPhase::AwaitSender => match e {
            OrgEventView::User(Some(id)) => look_up_users(
                GroupAddView { owner: Some((id, s.req.sender.0, s.req.sender.1)), ..s },
                0,
            ),
            _ => groupadd_stop(s),
        },
        GroupAddPhase::AwaitUser(k) => match e {
            OrgEventView::User(Some(id)) => look_up_users(
                GroupAddView {
                    members: s.members.push((id, s.wellformed[k as int].1, s.wellformed[k as int].2)),
                    ..s
                },
                k + 1,
            ),
            OrgEventView::User(None) => look_up_users(
                GroupAddView { missing: s.missing.push(s.wellformed[k as int].0), ..s },
                k + 1,
            ),
            _ => groupadd_stop(s),
        },
        GroupAddPhase::AwaitName => match e {
            OrgEventView::Group(Some(g)) => groupadd_reply(s, name_taken(Entity::Group, true, g.name)),
            OrgEventView::Group(None) => match s.req.admin_group {
                Some(a) => (GroupAddView { phase: GroupAddPhase::AwaitAdmin, ..s }, OrgActionView::FindGroup(a)),
                None => create_group(s),
            },
            _ => groupadd_stop(s),
        },
        GroupAddPhase::AwaitAdmin => match e {
            OrgEventView::Group(Some(g)) => create_group(GroupAddView { admin: Some((g.id, g.name)), ..s }),
            OrgEventView::Group(None) => groupadd_reply(s, unknown_admin_group(s.req.admin_group->0)),
            _ => groupadd_stop(s),
        },
        GroupAddPhase::AwaitCreated => match e {
            OrgEventView::Created(id) => add_members(GroupAddView { group: Some(id), ..s }, 0),
            _ => groupadd_stop(s),
        },
        GroupAddPhase::Adding(k) => match e {
            OrgEventView::Changed(_) => add_members(s, k + 1),
            _ => groupadd_stop(s),
        },
        GroupAddPhase::Done => groupadd_stop(s),
    }
}

/// What every `groupadd` run keeps true.
pub open spec fn groupadd_wf(s: GroupAddView) -> bool {
    &&& (s.wellformed, s.malformed) == sorted_mentions(s.req.users)
    &&& all_nonempty(s.missing)
    &&& (s.phase matches GroupAddPhase::AwaitUser(k) ==> k < s.wellformed.len())
    &&& (s.phase is AwaitOwner ==> s.req.owner is Some && mention_parts(s.req.owner->0) is Some)
    &&& (s.phase is AwaitAdmin ==> s.req.admin_group is Some)
    &&& (s.phase is AwaitUser || s.phase is AwaitName || s.phase is AwaitAdmin || s.phase is AwaitCreated
        || s.phase is Adding ==> s.owner is Some)
    &&& (s.phase matches GroupAddPhase::Adding(k) ==> s.group is Some && k < s.members.len())
    &&& (s.phase matches GroupAddPhase::AwaitUser(k) ==> s.members.len() + s.missing.len() == k)
    &&& (groupadd_checked(s.phase) ==> groupadd_accepted(s.req))
    &&& (s.owner is Some ==> ((s.owner->0).1, (s.owner->0).2) == expected_owner(s.req))
    &&& members_mentioned(s.members, s.wellformed)
    &&& (s.phase is Start || s.phase is AwaitOwner || s.phase is AwaitSender ==> s.members.len() == 0
        && s.missing.len() == 0)
    &&& (s.phase is AwaitSender ==> s.req.owner is None)
    &&& s.wellformed.len() <= usize::MAX
    &&& s.members.len() <= usize::MAX
    &&& (s.phase is AwaitCreated || s.phase is Adding || s.phase is Done || s.admin is None)
}

/// Every member found is the user and server of a well-formed mention.
pub open spec fn members_mentioned(
    members: Seq<(u64, Seq<char>, Seq<char>)>,
    wellformed: Seq<(Seq<char>, Seq<char>, Seq<char>)>,
) -> bool {
    forall|i: int|
        0 <= i < members.len() ==> exists|j: int|
            0 <= j < wellformed.len() && wellformed[j].1 == (#[trigger] members[i]).1
                && wellformed[j].2 == members[i].2
}

/// Whether the arguments pass the checks made before any lookup.
pub open spec fn groupadd_accepted(req: GroupAddRequestView) -> bool {
    creation_rejection(Entity::Group, req.name, req.name_valid, req.desc, req.desc_max_len) is None
}

/// Whether a run in this phase has passed the checks on its arguments.
pub open spec fn groupadd_checked(p: GroupAddPhase) -> bool {
    !(p is Start || p is Done)
}

/// Who owns a new group: the user mentioned as owner, or else the sender.
pub open spec fn expected_owner(req: GroupAddRequestView) -> (Seq<char>, Seq<char>) {
    match req.owner {
        Some(o) => mention_parts(o)->0,
        None => req.sender,
    }
}


/// A group is created only once every check has passed: the arguments pass
/// the checks made before any lookup, the lookup of the name found nothing,
/// and an admin group, where one is named, was found. It is created with the
/// name and description given, owned by the user found for the mentioned
/// owner, or else by the sender.
pub proof fn law_groupadd_creates_only_when_checks_pass(s: GroupAddView, e: OrgEventView)
    requires
        groupadd_wf(s),
    ensures
        groupadd_next(s, e).1 matches OrgActionView::CreateGroup(name, desc, owner, admin) ==> {
            &&& groupadd_accepted(s.req)
            &&& name == s.req.name
            &&& desc == desc_or_empty(s.req.desc)
            &&& groupadd_next(s, e).0.owner matches Some(o) && o.0 == owner && (o.1, o.2)
                == expected_owner(s.req)
            &&& ((s.phase is AwaitName && e == OrgEventView::Group(None) && s.req.admin_group is None
                && admin is None) || (s.phase is AwaitAdmin && (e matches OrgEventView::Group(Some(g))
                && admin == Some(g.id))))
        },
{
    match s.phase {
        GroupAddPhase::AwaitName => {},
        GroupAddPhase::AwaitAdmin => {},
        GroupAddPhase::AwaitCreated => {},
        GroupAddPhase::Adding(k) => {},
        _ => {},
    }
}

/// The admin group is looked up only after the lookup of the name found it
/// free, and only when one is named.
pub proof fn law_groupadd_admin_after_free_name(s: GroupAddView, e: OrgEventView)
    requires
        groupadd_wf(s),
    ensures
        groupadd_next(s, e).0.phase is AwaitAdmin && !(s.phase is AwaitAdmin) ==> s.phase is AwaitName
            && e == OrgEventView::Group(None) && s.req.admin_group is Some,
{
}

/// When the name is free and the admin group, if any, is found, the group is
/// created.
pub proof fn law_groupadd_creates_when_free(s: GroupAddView, e: OrgEventView)
    requires
        groupadd_wf(s),
        (s.phase is AwaitName && e == OrgEventView::Group(None) && s.req.admin_group is None)
            || (s.phase is AwaitAdmin && (e matches OrgEventView::Group(Some(_)))),
    ensures
        groupadd_next(s, e).1 is CreateGroup,
{
}

/// The members of a new group are the users found for its well-formed `-u`
/// mentions: a user found is recorded as a member and an unknown one as
/// missing, and each member recorded is added to the created group, in turn.
pub proof fn law_groupadd_members(s: GroupAddView, e: OrgEventView)
    requires
        groupadd_wf(s),
    ensures
        s.phase matches GroupAddPhase::AwaitUser(k) ==> (e matches OrgEventView::User(Some(id))
            ==> groupadd_next(s, e).0.members == s.members.push(
            (id, s.wellformed[k as int].1, s.wellformed[k as int].2),
        )),
        s.phase matches GroupAddPhase::AwaitUser(k) ==> (e == OrgEventView::User(None)
            ==> groupadd_next(s, e).0.missing == s.missing.push(s.wellformed[k as int].0)
            && groupadd_next(s, e).0.members == s.members),
        groupadd_next(s, e).1 matches OrgActionView::AddMember(user, group) ==> {
            let n = groupadd_next(s, e).0;
            &&& n.phase matches GroupAddPhase::Adding(k) && k < n.members.len() && user
                == n.members[k as int].0
            &&& n.group == Some(group)
            &&& members_mentioned(n.members, n.wellformed)
        },
{
    match s.phase {
        GroupAddPhase::AwaitCreated => {},
        GroupAddPhase::Adding(k) => {},
        _ => {},
    }
}

/// A copy of `v`.
pub(crate) fn copy_strings(v: &Vec<String>) -> (res: Vec<String>)
    ensures
        res.deep_view() == v.deep_view(),
{
    let mut res: Vec<String> = Vec::new();
    let mut i: usize = 0;
    while i < v.len()
        invariant
            i <= v@.len(),
            res.deep_view() == v.deep_view().take(i as int),
        decreases v.len() - i,
    {
        let ghost prev = res.deep_view();
        res.push(v[i].clone());
        assert(res.deep_view() =~= v.deep_view().take(i + 1)) by {
            assert(res.deep_view() =~= prev.push(v@[i as int]@));
        }
        i = i + 1;
    }
    assert(v.deep_view().take(v@.len() as int) =~= v.deep_view());
    res
}

/// User and server of each member found.
fn member_parts(members: &Vec<(u64, String, String)>) -> (res: Vec<(String, String)>)
    ensures
        res.deep_view() == members.deep_view().map_values(|m: (u64, Seq<char>, Seq<char>)| (m.1, m.2)),
{
    let ghost all = members.deep_view().map_values(|m: (u64, Seq<char>, Seq<char>)| (m.1, m.2));
    let mut res: Vec<(String, String)> = Vec::new();
    let mut i: usize = 0;
    while i < members.len()
        invariant
            i <= members@.len(),
            all == members.deep_view().map_values(|m: (u64, Seq<char>, Seq<char>)| (m.1, m.2)),
            res.deep_view() == all.take(i as int),
        decreases members.len() - i,
    {
        let ghost prev = res.deep_view();
        assert(members.deep_view()[i as int] == (members@[i as int].0, members@[i as int].1@, members@[i as int].2@));
        res.push((members[i].1.clone(), members[i].2.clone()));
        assert(res.deep_view() =~= all.take(i + 1)) by {
            assert(res.deep_view() =~= prev.push((members@[i as int].1@, members@[i as int].2@)));
        }
        i = i + 1;
    }
    assert(all.take(members@.len() as int) =~= all);
    res
}

/// The mention, user and server parts of a sorted mention list are those of
/// well-formed mentions.
pub(crate) proof fn lemma_wellformed_mentions(users: Seq<Seq<char>>)
    ensures
        forall|i: int|
            0 <= i < sorted_mentions(users).0.len() ==> mention_parts(
                (#[trigger] sorted_mentions(users).0[i]).0,
            ) is Some && sorted_mentions(users).0[i].0.len() > 0,
    decreases users.len(),
{
    if users.len() > 0 {
        lemma_wellformed_mentions(users.drop_last());
    }
}

impl GroupAdd {
    #[verifier::type_invariant]
    closed spec fn inv(self) -> bool {
        groupadd_wf(self@)
    }

    /// A run of `groupadd` on `req`, before its first step.
    pub fn new(req: GroupAddRequest) -> (res: Self)
        ensures
            res@ == groupadd_start(req@),
    {
        let sorted = sort_mentions(&req.users);
        let n = sorted.wellformed.len();
        assert(sorted.wellformed.deep_view().len() == n);
        let members: Vec<(u64, String, String)> = Vec::new();
        let missing: Vec<String> = Vec::new();
        assert(members.deep_view() =~= Seq::<(u64, Seq<char>, Seq<char>)>::empty());
        assert(missing.deep_view() =~= Seq::<Seq<char>>::empty());
        GroupAdd {
            req,
            phase: GroupAddPhase::Start,
            wellformed: sorted.wellformed,
            malformed: sorted.malformed,
            owner: None,
            members,
            missing,
            admin: None,
            group: None,
        }
    }

    /// Where the run stands.
    pub fn phase(&self) -> (res: GroupAddPhase)
        ensures
            res == self@.phase,
    {
        self.phase
    }

    fn stop(self) -> (res: (Self, OrgAction))
        ensures
            (res.0@, res.1@) == groupadd_stop(self@),
    {
        proof {
            use_type_invariant(&self);
        }
        (GroupAdd { phase: GroupAddPhase::Done, ..self }, OrgAction::Finish)
    }

    fn reply(self, r: Reply) -> (res: (Self, OrgAction))
        ensures
            (res.0@, res.1@) == groupadd_reply(self@, r@),
    {
        proof {
            use_type_invariant(&self);
        }
        (GroupAdd { phase: GroupAddPhase::Done, ..self }, OrgAction::Reply(r))
    }

    fn look_up_users(self, k: usize) -> (res: (Self, OrgAction))
        requires
            self@.owner is Some,
            groupadd_accepted(self@.req),
            k <= self@.wellformed.len(),
            self@.members.len() + self@.missing.len() == k,
            self@.admin is None,
        ensures
            (res.0@, res.1@) == look_up_users(self@, k as int),
    {
        proof {
            use_type_invariant(&self);
        }
        if k < self.wellformed.len() {
            let a = OrgAction::FindUser(self.wellformed[k].1.clone(), self.wellformed[k].2.clone());
            (GroupAdd { phase: GroupAddPhase::AwaitUser(k), ..self }, a)
        } else {
            let a = OrgAction::FindGroup(self.req.name.clone());
            (GroupAdd { phase: GroupAddPhase::AwaitName, ..self }, a)
        }
    }

    fn create_group(self) -> (res: (Self, OrgAction))
        requires
            self@.owner is Some,
            groupadd_accepted(self@.req),
        ensures
            (res.0@, res.1@) == create_group(self@),
    {
        proof {
            use_type_invariant(&self);
        }
        let desc = match &self.req.desc {
            Some(d) => d.clone(),
            None => String::new(),
        };
        let owner_id = match &self.owner {
            Some(o) => o.0,
            None => 0,
        };
        let admin_id = match &self.admin {
            Some(a) => Some(a.0),
            None => None,
        };
        let a = OrgAction::CreateGroup(self.req.name.clone(), desc, owner_id, admin_id);
        (GroupAdd { phase: GroupAddPhase::AwaitCreated, ..self }, a)
    }

    fn add_members(self, k: usize) -> (res: (Self, OrgAction))
        requires
            self@.owner is Some,
            groupadd_accepted(self@.req),
            self@.group is Some,
        ensures
            (res.0@, res.1@) == add_members(self@, k as int),
    {
        proof {
            use_type_invariant(&self);
        }
        let gid = match self.group {
            Some(g) => g,
            None => 0,
        };
        if k < self.members.len() {
            let a = OrgAction::AddMember(self.members[k].0, gid);
            (GroupAdd { phase: GroupAddPhase::Adding(k), ..self }, a)
        } else {
            let (owner_user, owner_server) = match &self.owner {
                Some(o) => (o.1.clone(), o.2.clone()),
                None => (String::new(), String::new()),
            };
            let summary = GroupCreated {
                name: self.req.name.clone(),
                desc: match &self.req.desc {
                    Some(d) => d.clone(),
                    None => String::new(),
                },
                owner: (owner_user, owner_server),
                admin_group: match &self.admin {
                    Some(a) => Some(a.1.clone()),
                    None => None,
                },
                users: member_parts(&self.members),
                malformed: copy_strings(&self.malformed),
                missing: copy_strings(&self.missing),
            };
            assert(summary@ == created_view(self@));
            let (plain, html) = summary.summary();
            self.reply(Reply::Html(plain, html))
        }
    }

    /// One step of the run: what the store answered leads to the next state
    /// and the next thing to do.
    pub fn step(self, event: OrgEvent) -> (res: (Self, OrgAction))
        ensures
            (res.0@, res.1@) == groupadd_next(self@, event@),
    {
        proof {
            use_type_invariant(&self);
            lemma_wellformed_mentions(self@.req.users);
        }
        match self.phase {
            GroupAddPhase::Start => match event {
                OrgEvent::Begin => {
                    match check_creation(
                        Entity::Group,
                        self.req.name.as_str(),
                        self.req.name_valid,
                        &self.req.desc,
                        self.req.desc_max_len,
                    ) {
                        Some(r) => self.reply(r),
                        None => {
                            assert(groupadd_accepted(self@.req));
                            let parsed = match &self.req.owner {
                                Some(o) => Some(parse_mention(o.as_str())),
                                None => None,
                            };
                            match parsed {
                                Some(Some((u, sv))) => {
                                    assert(mention_parts(self@.req.owner->0) == Some((u@, sv@)));
                                    (GroupAdd { phase: GroupAddPhase::AwaitOwner, ..self }, OrgAction::FindUser(u, sv))
                                },
                                Some(None) => self.reply(malformed_owner_reply()),
                                None => (GroupAdd { phase: GroupAddPhase::AwaitSender, ..self }, OrgAction::SenderUser),
                            }
                        },
                    }
                },
                _ => self.stop(),
            },
            GroupAddPhase::AwaitOwner => match event {
                OrgEvent::User(Some(id)) => {
                    let parts = match &self.req.owner {
                        Some(o) => parse_mention(o.as_str()),
                        None => None,
                    };
                    match parts {
                        Some((u, sv)) => {
                            assert(mention_parts(self@.req.owner->0) == Some((u@, sv@)));
                            assert(expected_owner(self@.req) == (u@, sv@));
                            let next = GroupAdd { owner: Some((id, u, sv)), ..self };
                            next.look_up_users(0)
                        },
                        None => self.stop(),
                    }
                },
                OrgEvent::User(None) => {
                    let r = match &self.req.owner {
                        Some(o) => unknown_owner_reply(Entity::Group, o.as_str()),
                        None => malformed_owner_reply(),
                    };
                    self.reply(r)
                },
                _ => self.stop(),
            },
            GroupAddPhase::AwaitSender => match event {
                OrgEvent::User(Some(id)) => {
                    let u = self.req.sender.0.clone();
                    let sv = self.req.sender.1.clone();
                    assert(expected_owner(self@.req) == (u@, sv@));
                    let next = GroupAdd { owner: Some((id, u, sv)), ..self };
                    next.look_up_users(0)
                },
                _ => self.stop(),
            },
            GroupAddPhase::AwaitUser(k) => match event {
                OrgEvent::User(_) if k >= self.wellformed.len() => self.stop(),
                OrgEvent::User(Some(id)) => {
                    let entry = (id, self.wellformed[k].1.clone(), self.wellformed[k].2.clone());
                    let GroupAdd { req, phase: _, wellformed, malformed, owner, mut members, missing, admin, group } = self;
                    let ghost before = members.deep_view();
                    let ghost wfv = wellformed.deep_view();
                    let ghost ev = (entry.0, entry.1@, entry.2@);
                    assert(ev.1 == wfv[k as int].1 && ev.2 == wfv[k as int].2);
                    members.push(entry);
                    assert(members.deep_view() =~= before.push(ev));
                    assert(members_mentioned(before, wfv));
                    assert forall|i: int| 0 <= i < members.deep_view().len() implies exists|j: int|
                        0 <= j < wfv.len() && wfv[j].1 == (#[trigger] members.deep_view()[i]).1
                            && wfv[j].2 == members.deep_view()[i].2 by {
                        if i < before.len() {
                            assert(members.deep_view()[i] == before[i]);
                        } else {
                            assert(members.deep_view()[i] == ev);
                        }
                    }
                    let next = GroupAdd { req, phase: GroupAddPhase::Done, wellformed, malformed, owner, members, missing, admin, group };
                    next.look_up_users(k + 1)
                },
                OrgEvent::User(None) => {
                    let text = self.wellformed[k].0.clone();
                    assert(self.wellformed.deep_view()[k as int].0 == text@);
                    assert(text@.len() > 0);
                    let GroupAdd { req, phase: _, wellformed, malformed, owner, members, mut missing, admin, group } = self;
                    let ghost before = missing.deep_view();
                    let ghost tv = text@;
                    missing.push(text);
                    assert(missing.deep_view() =~= before.push(tv));
                    assert(all_nonempty(missing.deep_view())) by {
                        assert forall|i: int| 0 <= i < missing.deep_view().len() implies (#[trigger] missing.deep_view()[i]).len() > 0 by {
                            if i < before.len() {
                                assert(missing.deep_view()[i] == before[i]);
                            }
                        }
                    }
                    let next = GroupAdd { req, phase: GroupAddPhase::Done, wellformed, malformed, owner, members, missing, admin, group };
                    next.look_up_users(k + 1)
                },
                _ => self.stop(),
            },
            GroupAddPhase::AwaitName => match event {
                OrgEvent::Group(Some(g)) => {
                    let r = name_taken_reply(Entity::Group, true, g.name.as_str());
                    self.reply(r)
                },
                OrgEvent::Group(None) => {
                    let admin = match &self.req.admin_group {
                        Some(a) => Some(a.clone()),
                        None => None,
                    };
                    match admin {
                        Some(a) => (GroupAdd { phase: GroupAddPhase::AwaitAdmin, ..self }, OrgAction::FindGroup(a)),
                        None => self.create_group(),
                    }
                },
                _ => self.stop(),
            },
            GroupAddPhase::AwaitAdmin => match event {
                OrgEvent::Group(Some(g)) => {
                    let next = GroupAdd { admin: Some((g.id, g.name)), phase: GroupAddPhase::Done, ..self };
                    next.create_group()
                },
                OrgEvent::Group(None) => {
                    let r = match &self.req.admin_group {
                        Some(a) => unknown_admin_group_reply(a.as_str()),
                        None => malformed_owner_reply(),
                    };
                    self.reply(r)
                },
                _ => self.stop(),
            },
            GroupAddPhase::AwaitCreated => match event {
                OrgEvent::Created(id) => {
                    let next = GroupAdd { group: Some(id), ..self };
                    next.add_members(0)
                },
                _ => self.stop(),
            },
            GroupAddPhase::Adding(k) => match event {
                OrgEvent::Changed(_) if k >= self.members.len() => self.stop(),
                OrgEvent::Changed(_) => self.add_members(k + 1),
                _ => self.stop(),
            },
            GroupAddPhase::Done => self.stop(),
        }
    }
}

} // verus!
