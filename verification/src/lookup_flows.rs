//! The `contextinfo`, `groups` and `permset` commands as sequences of steps:
//! each step takes what the organisation store answered and says what to do
//! next.
use vstd::prelude::*;

use crate::contexts::{
    context_info_html, context_info_no_room_context, context_info_no_room_context_reply,
    context_info_not_found, context_info_not_found_reply, context_info_plain, context_info_summary,
    no_room_context, no_room_context_reply,
};
use crate::flows::{FoundGroup, FoundGroupView, OrgAction, OrgActionView, OrgEvent, OrgEventView};
use crate::groups::{groups_html, groups_plain, groups_summary, malformed_user, malformed_user_reply};
use crate::org::{mention_parts, parse_mention, Reply, ReplyView};
use crate::perms::{
    context_not_found, context_not_found_reply, missing_target, missing_target_reply, rule_change_denied,
    rule_change_denied_reply, rule_priority, rule_set, rule_set_reply, Missing,
};

verus! {

/// The argument of `contextinfo`: the context to show, or none for the
/// room's own context.
pub struct ContextInfoRequest {
    pub name: Option<String>,
}

pub struct ContextInfoRequestView {
    pub name: Option<Seq<char>>,
}

impl View for ContextInfoRequest {
    type V = ContextInfoRequestView;

    open spec fn view(&self) -> ContextInfoRequestView {
        ContextInfoRequestView { name: self.name.deep_view() }
    }
}

/// Where a `contextinfo` run stands.
#[derive(Clone, Copy, Debug, PartialEq, Eq, Structural)]
pub enum ContextInfoPhase {
    Start,
    AwaitNamed,
    AwaitRoom,
    AwaitOwner,
    AwaitAdmin,
    AwaitCount,
    Done,
}

/// A `contextinfo` run.
pub struct ContextInfo {
    req: ContextInfoRequest,
    phase: ContextInfoPhase,
    target: Option<(u64, String, String, u64, Option<u64>)>,
    owner: Option<String>,
    admin: Option<String>,
}

/// What a `contextinfo` run holds: the request, its phase, the context found
/// (id, name, description, owner, admin group), its owner as shown and the
/// name of its admin group.
pub struct ContextInfoView {
    pub req: ContextInfoRequestView,
    pub phase: ContextInfoPhase,
    pub target: Option<(u64, Seq<char>, Seq<char>, u64, Option<u64>)>,
    pub owner: Option<Seq<char>>,
    pub admin: Option<Seq<char>>,
}

impl View for ContextInfo {
    type V = ContextInfoView;

    closed spec fn view(&self) -> ContextInfoView {
        ContextInfoView {
            req: self.req@,
            phase: self.phase,
            target: self.target.deep_view(),
            owner: self.owner.deep_view(),
            admin: self.admin.deep_view(),
        }
    }
}

/// The run before its first step.
pub open spec fn contextinfo_start(req: ContextInfoRequestView) -> ContextInfoView {
    ContextInfoView { req, phase: ContextInfoPhase::Start, target: None, owner: None, admin: None }
}

/// Stop without a reply.
pub open spec fn contextinfo_stop(s: ContextInfoView) -> (ContextInfoView, OrgActionView) {
    (ContextInfoView { phase: ContextInfoPhase::Done, ..s }, OrgActionView::Finish)
}

/// Stop with a reply.
pub open spec fn contextinfo_reply(s: ContextInfoView, r: ReplyView) -> (ContextInfoView, OrgActionView) {
    (ContextInfoView { phase: ContextInfoPhase::Done, ..s }, OrgActionView::Reply(r))
}

/// The report on the context found: marked active exactly when no name was
/// given, so that the room's own context is shown.
pub open spec fn context_report(s: ContextInfoView, rooms: nat) -> ReplyView {
    let t = s.target->0;
    ReplyView::Html(
        context_info_plain(t.1, s.req.name is None, t.2, s.owner->0, s.admin, rooms),
        context_info_html(t.1, s.req.name is None, t.2, s.owner->0, s.admin, rooms),
    )
}

/// One step of `contextinfo`: from where the run stands and what the store
/// answered, where it goes and what to do next.
///
/// In order: the context named, or else the room's context, each with its
/// reply when there is none; its owner; its admin group, when it has one;
/// the number of rooms using it; the report.
pub open spec fn contextinfo_next(s: ContextInfoView, e: OrgEventView) -> (ContextInfoView, OrgActionView) {
    match s.phase {
        ContextInfoPhase::Start => match e {
            OrgEventView::Begin => match s.req.name {
                Some(n) => (ContextInfoView { phase: ContextInfoPhase::AwaitNamed, ..s }, OrgActionView::FindContext(n)),
                None => (ContextInfoView { phase: ContextInfoPhase::AwaitRoom, ..s }, OrgActionView::RoomContext),
            },
            _ => contextinfo_stop(s),
        },
        ContextInfoPhase::AwaitNamed => match e {
            OrgEventView::Group(None) => contextinfo_reply(s, context_info_not_found(s.req.name->0)),
            OrgEventView::Group(Some(c)) => (
                ContextInfoView {
                    phase: ContextInfoPhase::AwaitOwner,
                    target: Some((c.id, c.name, c.desc, c.owner, c.admin_group)),
                    ..s
                },
                OrgActionView::UserById(c.owner),
            ),
            _ => contextinfo_stop(s),
        },
        ContextInfoPhase::AwaitRoom => match e {
            OrgEventView::Group(None) => contextinfo_reply(s, context_info_no_room_context()),
            OrgEventView::Group(Some(c)) => (
                ContextInfoView {
                    phase: ContextInfoPhase::AwaitOwner,
                    target: Some((c.id, c.name, c.desc, c.owner, c.admin_group)),
                    ..s
                },
                OrgActionView::UserById(c.owner),
            ),
            _ => contextinfo_stop(s),
        },
        ContextInfoPhase::AwaitOwner => match e {
            OrgEventView::UserNamed(u, sv) => {
                let n = ContextInfoView { owner: Some(u + ":"@ + sv), ..s };
                match (s.target->0).4 {
                    Some(a) => (ContextInfoView { phase: ContextInfoPhase::AwaitAdmin, ..n }, OrgActionView::GroupById(a)),
                    None => (
                        ContextInfoView { phase: ContextInfoPhase::AwaitCount, ..n },
                        OrgActionView::CountRooms((s.target->0).0),
                    ),
                }
            },
            _ => contextinfo_stop(s),
        },
        ContextInfoPhase::AwaitAdmin => match e {
            OrgEventView::Group(g) => (
                ContextInfoView {
                    phase: ContextInfoPhase::AwaitCount,
                    admin: match g {
                        Some(x) => Some(x.name),
                        None => None,
                    },
                    ..s
                },
                OrgActionView::CountRooms((s.target->0).0),
            ),
            _ => contextinfo_stop(s),
        },
        ContextInfoPhase::AwaitCount => match e {
            OrgEventView::Count(k) => contextinfo_reply(s, context_report(s, k as nat)),
            _ => contextinfo_stop(s),
        },
        ContextInfoPhase::Done => contextinfo_stop(s),
    }
}

/// What every `contextinfo` run keeps true.
pub open spec fn contextinfo_wf(s: ContextInfoView) -> bool {
    &&& (s.phase is AwaitNamed ==> s.req.name is Some)
    &&& (s.phase is AwaitRoom ==> s.req.name is None)
    &&& (s.phase is AwaitOwner || s.phase is AwaitAdmin || s.phase is AwaitCount ==> s.target is Some)
    &&& (s.phase is AwaitAdmin || s.phase is AwaitCount ==> s.owner is Some)
    &&& (s.phase is Start || s.phase is AwaitNamed || s.phase is AwaitRoom || s.phase is AwaitOwner
        ==> s.admin is None)
}

/// The context shown is marked active exactly when no name was given, that
/// is when it is the room's own context; the report shows the context found,
/// its owner, its admin group and the number of rooms counted.
pub proof fn law_contextinfo_active(s: ContextInfoView, e: OrgEventView)
    requires
        contextinfo_wf(s),
    ensures
        s.phase is AwaitCount ==> (e matches OrgEventView::Count(k) ==> contextinfo_next(s, e).1
            == OrgActionView::Reply(
            ReplyView::Html(
                context_info_plain(
                    (s.target->0).1,
                    s.req.name is None,
                    (s.target->0).2,
                    s.owner->0,
                    s.admin,
                    k as nat,
                ),
                context_info_html(
                    (s.target->0).1,
                    s.req.name is None,
                    (s.target->0).2,
                    s.owner->0,
                    s.admin,
                    k as nat,
                ),
            ),
        )),
        s.phase is Start && e == OrgEventView::Begin ==> (contextinfo_next(s, e).1 == (match s.req.name {
            Some(n) => OrgActionView::FindContext(n),
            None => OrgActionView::RoomContext,
        })),
{
}

impl ContextInfo {
    #[verifier::type_invariant]
    closed spec fn inv(self) -> bool {
        contextinfo_wf(self@)
    }

    /// A run of `contextinfo` on `req`, before its first step.
    pub fn new(req: ContextInfoRequest) -> (res: Self)
        ensures
            res@ == contextinfo_start(req@),
    {
        ContextInfo { req, phase: ContextInfoPhase::Start, target: None, owner: None, admin: None }
    }

    /// Where the run stands.
    pub fn phase(&self) -> (res: ContextInfoPhase)
        ensures
            res == self@.phase,
    {
        self.phase
    }

    fn stop(self) -> (res: (Self, OrgAction))
        ensures
            (res.0@, res.1@) == contextinfo_stop(self@),
    {
        proof {
            use_type_invariant(&self);
        }
        (ContextInfo { phase: ContextInfoPhase::Done, ..self }, OrgAction::Finish)
    }

    fn reply(self, r: Reply) -> (res: (Self, OrgAction))
        ensures
            (res.0@, res.1@) == contextinfo_reply(self@, r@),
    {
        proof {
            use_type_invariant(&self);
        }
        (ContextInfo { phase: ContextInfoPhase::Done, ..self }, OrgAction::Reply(r))
    }

    /// One step of the run: what the store answered leads to the next state
    /// and the next thing to do.
    pub fn step(self, event: OrgEvent) -> (res: (Self, OrgAction))
        ensures
            (res.0@, res.1@) == contextinfo_next(self@, event@),
    {
        proof {
            use_type_invariant(&self);
        }
        match self.phase {
            ContextInfoPhase::Start => match event {
                OrgEvent::Begin => {
                    let n = match &self.req.name {
                        Some(n) => Some(n.clone()),
                        None => None,
                    };
                    match n {
                        Some(n) => (ContextInfo { phase: ContextInfoPhase::AwaitNamed, ..self }, OrgAction::FindContext(n)),
                        None => (ContextInfo { phase: ContextInfoPhase::AwaitRoom, ..self }, OrgAction::RoomContext),
                    }
                },
                _ => self.stop(),
            },
            ContextInfoPhase::AwaitNamed => match event {
                OrgEvent::Group(None) => {
                    let r = match &self.req.name {
                        Some(n) => context_info_not_found_reply(n.as_str()),
                        None => context_info_no_room_context_reply(),
                    };
                    self.reply(r)
                },
                OrgEvent::Group(Some(c)) => {
                    let owner = c.owner;
                    (
                        ContextInfo {
                            phase: ContextInfoPhase::AwaitOwner,
                            target: Some((c.id, c.name, c.desc, c.owner, c.admin_group)),
                            ..self
                        },
                        OrgAction::UserById(owner),
                    )
                },
                _ => self.stop(),
            },
            ContextInfoPhase::AwaitRoom => match event {
                OrgEvent::Group(None) => self.reply(context_info_no_room_context_reply()),
                OrgEvent::Group(Some(c)) => {
                    let owner = c.owner;
                    (
                        ContextInfo {
                            phase: ContextInfoPhase::AwaitOwner,
                            target: Some((c.id, c.name, c.desc, c.owner, c.admin_group)),
                            ..self
                        },
                        OrgAction::UserById(owner),
                    )
                },
                _ => self.stop(),
            },
            ContextInfoPhase::AwaitOwner => match event {
                OrgEvent::UserNamed(u, sv) => {
                    let mut shown = u;
                    shown.append(":");
                    shown.append(sv.as_str());
                    let (id, admin) = match &self.target {
                        Some(t) => (t.0, t.4),
                        None => (0, None),
                    };
                    match admin {
                        Some(a) => (
                            ContextInfo { phase: ContextInfoPhase::AwaitAdmin, owner: Some(shown), ..self },
                            OrgAction::GroupById(a),
                        ),
                        None => (
                            ContextInfo { phase: ContextInfoPhase::AwaitCount, owner: Some(shown), ..self },
                            OrgAction::CountRooms(id),
                        ),
                    }
                },
                _ => self.stop(),
            },
            ContextInfoPhase::AwaitAdmin => match event {
                OrgEvent::Group(g) => {
                    let id = match &self.target {
                        Some(t) => t.0,
                        None => 0,
                    };
                    let admin = match g {
                        Some(x) => Some(x.name),
                        None => None,
                    };
                    (ContextInfo { phase: ContextInfoPhase::AwaitCount, admin, ..self }, OrgAction::CountRooms(id))
                },
                _ => self.stop(),
            },
            ContextInfoPhase::AwaitCount => match event {
                OrgEvent::Count(k) => {
                    let (plain, html) = match (&self.target, &self.owner) {
                        (Some(t), Some(o)) => context_info_summary(
                            t.1.as_str(),
                            self.req.name.is_none(),
                            t.2.as_str(),
                            o.as_str(),
                            &self.admin,
                            k,
                        ),
                        _ => (String::new(), String::new()),
                    };
                    self.reply(Reply::Html(plain, html))
                },
                _ => self.stop(),
            },
            ContextInfoPhase::Done => self.stop(),
        }
    }
}

} // verus!

verus! {

/// The argument of `groups`: the user to list, as an `@user:server`
/// mention, or none for the sender; with the sender as user and server.
pub struct GroupsRequest {
    pub user: Option<String>,
    pub sender: (String, String),
}

pub struct GroupsRequestView {
    pub user: Option<Seq<char>>,
    pub sender: (Seq<char>, Seq<char>),
}

impl View for GroupsRequest {
    type V = GroupsRequestView;

    open spec fn view(&self) -> GroupsRequestView {
        GroupsRequestView { user: self.user.deep_view(), sender: (self.sender.0@, self.sender.1@) }
    }
}

/// Where a `groups` run stands.
#[derive(Clone, Copy, Debug, PartialEq, Eq, Structural)]
pub enum GroupsPhase {
    Start,
    AwaitMember,
    AwaitAdmin,
    AwaitOwner,
    Done,
}

/// A `groups` run.
pub struct Groups {
    req: GroupsRequest,
    phase: GroupsPhase,
    who: (String, String),
    member_of: Vec<String>,
    admin_of: Vec<String>,
}

/// What a `groups` run holds: the request, its phase, the user listed, and
/// the groups it is a member of and administers.
pub struct GroupsView {
    pub req: GroupsRequestView,
    pub phase: GroupsPhase,
    pub who: (Seq<char>, Seq<char>),
    pub member_of: Seq<Seq<char>>,
    pub admin_of: Seq<Seq<char>>,
}

impl View for Groups {
    type V = GroupsView;

    closed spec fn view(&self) -> GroupsView {
        GroupsView {
            req: self.req@,
            phase: self.phase,
            who: (self.who.0@, self.who.1@),
            member_of: self.member_of.deep_view(),
            admin_of: self.admin_of.deep_view(),
        }
    }
}

/// The run before its first step.
pub open spec fn groups_start(req: GroupsRequestView) -> GroupsView {
    GroupsView {
        req,
        phase: GroupsPhase::Start,
        who: req.sender,
        member_of: Seq::empty(),
        admin_of: Seq::empty(),
    }
}

/// Stop without a reply.
pub open spec fn groups_stop(s: GroupsView) -> (GroupsView, OrgActionView) {
    (GroupsView { phase: GroupsPhase::Done, ..s }, OrgActionView::Finish)
}

/// The user listed: the one mentioned, or else the sender.
pub open spec fn listed_user(req: GroupsRequestView) -> (Seq<char>, Seq<char>) {
    match req.user {
        Some(u) => mention_parts(u)->0,
        None => req.sender,
    }
}

/// One step of `groups`: from where the run stands and what the store
/// answered, where it goes and what to do next.
///
/// In order: a malformed mention is refused; the groups the user is a
/// member of, administers and owns; the summary.
pub open spec fn groups_next(s: GroupsView, e: OrgEventView) -> (GroupsView, OrgActionView) {
    match s.phase {
        GroupsPhase::Start => match e {
            OrgEventView::Begin => if s.req.user is Some && mention_parts(s.req.user->0) is None {
                (GroupsView { phase: GroupsPhase::Done, ..s }, OrgActionView::Reply(malformed_user()))
            } else {
                let who = listed_user(s.req);
                (GroupsView { phase: GroupsPhase::AwaitMember, who, ..s }, OrgActionView::MemberOf(who.0, who.1))
            },
            _ => groups_stop(s),
        },
        GroupsPhase::AwaitMember => match e {
            OrgEventView::Names(n) => (
                GroupsView { phase: GroupsPhase::AwaitAdmin, member_of: n, ..s },
                OrgActionView::AdminOf(s.who.0, s.who.1),
            ),
            _ => groups_stop(s),
        },
        GroupsPhase::AwaitAdmin => match e {
            OrgEventView::Names(n) => (
                GroupsView { phase: GroupsPhase::AwaitOwner, admin_of: n, ..s },
                OrgActionView::OwnerOf(s.who.0, s.who.1),
            ),
            _ => groups_stop(s),
        },
        GroupsPhase::AwaitOwner => match e {
            OrgEventView::Names(n) => (
                GroupsView { phase: GroupsPhase::Done, ..s },
                OrgActionView::Reply(
                    ReplyView::Html(
                        groups_plain(s.who.0, s.who.1, s.member_of, s.admin_of, n),
                        groups_html(s.who.0, s.who.1, s.member_of, s.admin_of, n),
                    ),
                ),
            ),
            _ => groups_stop(s),
        },
        GroupsPhase::Done => groups_stop(s),
    }
}

/// What every `groups` run keeps true.
pub open spec fn groups_wf(s: GroupsView) -> bool {
    !(s.phase is Start || s.phase is Done) ==> s.who == listed_user(s.req)
}

/// The groups listed are those of the user mentioned, or else of the sender:
/// every lookup asks about that user, and the summary shows what the three
/// lookups answered.
pub proof fn law_groups_of_listed_user(s: GroupsView, e: OrgEventView)
    requires
        groups_wf(s),
    ensures
        groups_next(s, e).1 matches OrgActionView::MemberOf(u, sv) ==> (u, sv) == listed_user(s.req),
        groups_next(s, e).1 matches OrgActionView::AdminOf(u, sv) ==> (u, sv) == listed_user(s.req),
        groups_next(s, e).1 matches OrgActionView::OwnerOf(u, sv) ==> (u, sv) == listed_user(s.req),
        s.phase is AwaitOwner ==> (e matches OrgEventView::Names(owned) ==> groups_next(s, e).1
            == OrgActionView::Reply(
            ReplyView::Html(
                groups_plain(listed_user(s.req).0, listed_user(s.req).1, s.member_of, s.admin_of, owned),
                groups_html(listed_user(s.req).0, listed_user(s.req).1, s.member_of, s.admin_of, owned),
            ),
        )),
{
}

impl Groups {
    #[verifier::type_invariant]
    closed spec fn inv(self) -> bool {
        groups_wf(self@)
    }

    /// A run of `groups` on `req`, before its first step.
    pub fn new(req: GroupsRequest) -> (res: Self)
        ensures
            res@ == groups_start(req@),
    {
        let who = (req.sender.0.clone(), req.sender.1.clone());
        let member_of: Vec<String> = Vec::new();
        let admin_of: Vec<String> = Vec::new();
        assert(member_of.deep_view() =~= Seq::<Seq<char>>::empty());
        assert(admin_of.deep_view() =~= Seq::<Seq<char>>::empty());
        Groups { req, phase: GroupsPhase::Start, who, member_of, admin_of }
    }

    /// Where the run stands.
    pub fn phase(&self) -> (res: GroupsPhase)
        ensures
            res == self@.phase,
    {
        self.phase
    }

    fn stop(self) -> (res: (Self, OrgAction))
        ensures
            (res.0@, res.1@) == groups_stop(self@),
    {
        (Groups { phase: GroupsPhase::Done, ..self }, OrgAction::Finish)
    }

    /// One step of the run: what the store answered leads to the next state
    /// and the next thing to do.
    pub fn step(self, event: OrgEvent) -> (res: (Self, OrgAction))
        ensures
            (res.0@, res.1@) == groups_next(self@, event@),
    {
        proof {
            use_type_invariant(&self);
        }
        match self.phase {
            GroupsPhase::Start => match event {
                OrgEvent::Begin => {
                    let parsed = match &self.req.user {
                        Some(u) => Some(parse_mention(u.as_str())),
                        None => None,
                    };
                    let who = match parsed {
                        Some(Some(w)) => w,
                        Some(None) => {
                            return (Groups { phase: GroupsPhase::Done, ..self }, OrgAction::Reply(malformed_user_reply()));
                        },
                        None => (self.req.sender.0.clone(), self.req.sender.1.clone()),
                    };
                    let a = OrgAction::MemberOf(who.0.clone(), who.1.clone());
                    (Groups { phase: GroupsPhase::AwaitMember, who, ..self }, a)
                },
                _ => self.stop(),
            },
            GroupsPhase::AwaitMember => match event {
                OrgEvent::Names(n) => {
                    let a = OrgAction::AdminOf(self.who.0.clone(), self.who.1.clone());
                    (Groups { phase: GroupsPhase::AwaitAdmin, member_of: n, ..self }, a)
                },
                _ => self.stop(),
            },
            GroupsPhase::AwaitAdmin => match event {
                OrgEvent::Names(n) => {
                    let a = OrgAction::OwnerOf(self.who.0.clone(), self.who.1.clone());
                    (Groups { phase: GroupsPhase::AwaitOwner, admin_of: n, ..self }, a)
                },
                _ => self.stop(),
            },
            GroupsPhase::AwaitOwner => match event {
                OrgEvent::Names(n) => {
                    let (plain, html) = groups_summary(
                        self.who.0.as_str(),
                        self.who.1.as_str(),
                        &self.member_of,
                        &self.admin_of,
                        &n,
                    );
                    (Groups { phase: GroupsPhase::Done, ..self }, OrgAction::Reply(Reply::Html(plain, html)))
                },
                _ => self.stop(),
            },
            GroupsPhase::Done => self.stop(),
        }
    }
}

/// The arguments of `permset`: the group and the permission's qualifier,
/// whether it allows, the context (or none for the room's context), and the
/// rule's priority.
pub struct PermSetRequest {
    pub group: String,
    pub perm: String,
    pub allowed: bool,
    pub context: Option<String>,
    pub priority: Option<i32>,
}

pub struct PermSetRequestView {
    pub group: Seq<char>,
    pub perm: Seq<char>,
    pub allowed: bool,
    pub context: Option<Seq<char>>,
    pub priority: Option<i32>,
}

impl View for PermSetRequest {
    type V = PermSetRequestView;

    open spec fn view(&self) -> PermSetRequestView {
        PermSetRequestView {
            group: self.group@,
            perm: self.perm@,
            allowed: self.allowed,
            context: self.context.deep_view(),
            priority: self.priority,
        }
    }
}

/// Where a `permset` run stands.
#[derive(Clone, Copy, Debug, PartialEq, Eq, Structural)]
pub enum PermSetPhase {
    Start,
    AwaitSender,
    AwaitNamed,
    AwaitRoom,
    AwaitMembership,
    AwaitGroup,
    AwaitPermission,
    AwaitSet,
    Done,
}

/// A `permset` run.
pub struct PermSet {
    req: PermSetRequest,
    phase: PermSetPhase,
    sender: Option<u64>,
    target: Option<(u64, String, u64, Option<u64>)>,
    administers: bool,
    group: Option<(u64, String)>,
    permission: Option<(u64, String)>,
}

/// What a `permset` run holds: the request, its phase, the sender's id, the
/// context found (id, name, owner, admin group), whether the sender owns it
/// or belongs to its admin group, the group found and the permission found.
pub struct PermSetView {
    pub req: PermSetRequestView,
    pub phase: PermSetPhase,
    pub sender: Option<u64>,
    pub target: Option<(u64, Seq<char>, u64, Option<u64>)>,
    pub administers: bool,
    pub group: Option<(u64, Seq<char>)>,
    pub permission: Option<(u64, Seq<char>)>,
}

impl View for PermSet {
    type V = PermSetView;

    closed spec fn view(&self) -> PermSetView {
        PermSetView {
            req: self.req@,
            phase: self.phase,
            sender: self.sender,
            target: self.target.deep_view(),
            administers: self.administers,
            group: self.group.deep_view(),
            permission: self.permission.deep_view(),
        }
    }
}

/// The run before its first step.
pub open spec fn permset_start(req: PermSetRequestView) -> PermSetView {
    PermSetView {
        req,
        phase: PermSetPhase::Start,
        sender: None,
        target: None,
        administers: false,
        group: None,
        permission: None,
    }
}

/// Stop without a reply.
pub open spec fn permset_stop(s: PermSetView) -> (PermSetView, OrgActionView) {
    (PermSetView { phase: PermSetPhase::Done, ..s }, OrgActionView::Finish)
}

/// Stop with a reply.
pub open spec fn permset_reply(s: PermSetView, r: ReplyView) -> (PermSetView, OrgActionView) {
    (PermSetView { phase: PermSetPhase::Done, ..s }, OrgActionView::Reply(r))
}

/// The priority of the rule: the one given, or 0.
pub open spec fn priority_or_zero(p: Option<i32>) -> i32 {
    match p {
        Some(v) => v,
        None => 0,
    }
}

/// Once the sender's rights are known: refuse, or look up the group.
pub open spec fn permset_rights(s: PermSetView, ok: bool) -> (PermSetView, OrgActionView) {
    if ok {
        (PermSetView { phase: PermSetPhase::AwaitGroup, administers: true, ..s }, OrgActionView::FindGroup(s.req.group))
    } else {
        permset_reply(s, rule_change_denied((s.target->0).1))
    }
}

/// With the context found: the sender may change its rules as its owner, or
/// else as a member of its admin group, which is asked for.
pub open spec fn permset_located(s: PermSetView, c: FoundGroupView) -> (PermSetView, OrgActionView) {
    let n = PermSetView { target: Some((c.id, c.name, c.owner, c.admin_group)), ..s };
    let owner = Some(c.owner) == s.sender;
    match c.admin_group {
        Some(a) => if owner {
            permset_rights(n, true)
        } else {
            (PermSetView { phase: PermSetPhase::AwaitMembership, ..n }, OrgActionView::IsMember(s.sender->0, a))
        },
        None => permset_rights(n, owner),
    }
}

/// One step of `permset`: from where the run stands and what the store
/// answered, where it goes and what to do next.
///
/// In order: the sender; the context named, or else the room's context,
/// each with its reply when there is none; whether the sender owns it or is
/// in its admin group, else the denial; the group, then the permission, each
/// with its reply when there is none; the rule, with priority 0 unless one is
/// given; the summary.
pub open spec fn permset_next(s: PermSetView, e: OrgEventView) -> (PermSetView, OrgActionView) {
    match s.phase {
        PermSetPhase::Start => match e {
            OrgEventView::Begin => (PermSetView { phase: PermSetPhase::AwaitSender, ..s }, OrgActionView::SenderUser),
            _ => permset_stop(s),
        },
        PermSetPhase::AwaitSender => match e {
            OrgEventView::User(Some(id)) => match s.req.context {
                Some(n) => (
                    PermSetView { phase: PermSetPhase::AwaitNamed, sender: Some(id), ..s },
                    OrgActionView::FindContext(n),
                ),
                None => (
                    PermSetView { phase: PermSetPhase::AwaitRoom, sender: Some(id), ..s },
                    OrgActionView::RoomContext,
                ),
            },
            _ => permset_stop(s),
        },
        PermSetPhase::AwaitNamed => match e {
            OrgEventView::Group(None) => permset_reply(s, context_not_found(s.req.context->0)),
            OrgEventView::Group(Some(c)) => permset_located(s, c),
            _ => permset_stop(s),
        },
        PermSetPhase::AwaitRoom => match e {
            OrgEventView::Group(None) => permset_reply(s, no_room_context()),
            OrgEventView::Group(Some(c)) => permset_located(s, c),
            _ => permset_stop(s),
        },
        PermSetPhase::AwaitMembership => match e {
            OrgEventView::Member(b) => permset_rights(s, b),
            _ => permset_stop(s),
        },
        PermSetPhase::AwaitGroup => match e {
            OrgEventView::Group(None) => permset_reply(s, missing_target(Missing::Group, s.req.group)),
            OrgEventView::Group(Some(g)) => (
                PermSetView { phase: PermSetPhase::AwaitPermission, group: Some((g.id, g.name)), ..s },
                OrgActionView::FindPermission(s.req.perm),
            ),
            _ => permset_stop(s),
        },
        PermSetPhase::AwaitPermission => match e {
            OrgEventView::Permission(None) => permset_reply(s, missing_target(Missing::Permission, s.req.perm)),
            OrgEventView::Permission(Some(p)) => (
                PermSetView { phase: PermSetPhase::AwaitSet, permission: Some(p), ..s },
                OrgActionView::SetRule(
                    p.0,
                    (s.group->0).0,
                    (s.target->0).0,
                    priority_or_zero(s.req.priority),
                    s.req.allowed,
                ),
            ),
            _ => permset_stop(s),
        },
        PermSetPhase::AwaitSet => match e {
            OrgEventView::Updated => permset_reply(
                s,
                rule_set((s.target->0).1, (s.permission->0).1, (s.group->0).1, s.req.allowed),
            ),
            _ => permset_stop(s),
        },
        PermSetPhase::Done => permset_stop(s),
    }
}

/// What every `permset` run keeps true.
pub open spec fn permset_wf(s: PermSetView) -> bool {
    &&& (!(s.phase is Start || s.phase is AwaitSender || s.phase is Done) ==> s.sender is Some)
    &&& (s.phase is AwaitNamed ==> s.req.context is Some)
    &&& (s.phase is AwaitMembership || s.phase is AwaitGroup || s.phase is AwaitPermission || s.phase is AwaitSet
        ==> s.target is Some)
    &&& (s.phase is AwaitGroup || s.phase is AwaitPermission || s.phase is AwaitSet ==> s.administers)
    &&& (s.phase is AwaitPermission || s.phase is AwaitSet ==> s.group is Some)
    &&& (s.phase is AwaitSet ==> s.permission is Some)
}

/// A rule is set only for a sender who owns the context or belongs to its
/// admin group, once the group and the permission are found: it is the rule
/// of the permission found, for the group found, in the context found, with
/// the priority given or else 0, allowing as asked.
pub proof fn law_permset_rule(s: PermSetView, e: OrgEventView)
    requires
        permset_wf(s),
    ensures
        permset_next(s, e).1 matches OrgActionView::SetRule(p, g, c, priority, allowed) ==> {
            &&& s.phase is AwaitPermission
            &&& s.administers
            &&& e matches OrgEventView::Permission(Some(found)) && p == found.0
            &&& g == (s.group->0).0
            &&& c == (s.target->0).0
            &&& priority == priority_or_zero(s.req.priority)
            &&& allowed == s.req.allowed
        },
        permset_next(s, e).0.administers && !s.administers ==> (s.phase is AwaitNamed || s.phase is AwaitRoom
            || s.phase is AwaitMembership),
        s.phase is AwaitMembership ==> (e == OrgEventView::Member(false) ==> permset_next(s, e).1
            == OrgActionView::Reply(rule_change_denied((s.target->0).1))),
{
}

impl PermSet {
    #[verifier::type_invariant]
    closed spec fn inv(self) -> bool {
        permset_wf(self@)
    }

    /// A run of `permset` on `req`, before its first step.
    pub fn new(req: PermSetRequest) -> (res: Self)
        ensures
            res@ == permset_start(req@),
    {
        PermSet {
            req,
            phase: PermSetPhase::Start,
            sender: None,
            target: None,
            administers: false,
            group: None,
            permission: None,
        }
    }

    /// Where the run stands.
    pub fn phase(&self) -> (res: PermSetPhase)
        ensures
            res == self@.phase,
    {
        self.phase
    }

    fn stop(self) -> (res: (Self, OrgAction))
        ensures
            (res.0@, res.1@) == permset_stop(self@),
    {
        proof {
            use_type_invariant(&self);
        }
        (PermSet { phase: PermSetPhase::Done, ..self }, OrgAction::Finish)
    }

    fn reply(self, r: Reply) -> (res: (Self, OrgAction))
        ensures
            (res.0@, res.1@) == permset_reply(self@, r@),
    {
        proof {
            use_type_invariant(&self);
        }
        (PermSet { phase: PermSetPhase::Done, ..self }, OrgAction::Reply(r))
    }

    fn rights(self, ok: bool) -> (res: (Self, OrgAction))
        requires
            self@.target is Some,
            self@.sender is Some,
        ensures
            (res.0@, res.1@) == permset_rights(self@, ok),
    {
        proof {
            use_type_invariant(&self);
        }
        if ok {
            let g = self.req.group.clone();
            (PermSet { phase: PermSetPhase::AwaitGroup, administers: true, ..self }, OrgAction::FindGroup(g))
        } else {
            let r = match &self.target {
                Some(t) => rule_change_denied_reply(t.1.as_str()),
                None => no_room_context_reply(),
            };
            self.reply(r)
        }
    }

    fn located(self, c: FoundGroup) -> (res: (Self, OrgAction))
        requires
            self@.phase is AwaitNamed || self@.phase is AwaitRoom,
        ensures
            (res.0@, res.1@) == permset_located(self@, c@),
    {
        proof {
            use_type_invariant(&self);
        }
        let sender = match self.sender {
            Some(s) => s,
            None => 0,
        };
        let owner = c.owner == sender;
        let admin = c.admin_group;
        let next = PermSet { target: Some((c.id, c.name, c.owner, c.admin_group)), phase: PermSetPhase::Done, ..self };
        match admin {
            Some(a) => if owner {
                next.rights(true)
            } else {
                (PermSet { phase: PermSetPhase::AwaitMembership, ..next }, OrgAction::IsMember(sender, a))
            },
            None => next.rights(owner),
        }
    }

    /// One step of the run: what the store answered leads to the next state
    /// and the next thing to do.
    pub fn step(self, event: OrgEvent) -> (res: (Self, OrgAction))
        ensures
            (res.0@, res.1@) == permset_next(self@, event@),
    {
        proof {
            use_type_invariant(&self);
        }
        match self.phase {
            PermSetPhase::Start => match event {
                OrgEvent::Begin => (PermSet { phase: PermSetPhase::AwaitSender, ..self }, OrgAction::SenderUser),
                _ => self.stop(),
            },
            PermSetPhase::AwaitSender => match event {
                OrgEvent::User(Some(id)) => {
                    let n = match &self.req.context {
                        Some(n) => Some(n.clone()),
                        None => None,
                    };
                    match n {
                        Some(n) => (
                            PermSet { phase: PermSetPhase::AwaitNamed, sender: Some(id), ..self },
                            OrgAction::FindContext(n),
                        ),
                        None => (
                            PermSet { phase: PermSetPhase::AwaitRoom, sender: Some(id), ..self },
                            OrgAction::RoomContext,
                        ),
                    }
                },
                _ => self.stop(),
            },
            PermSetPhase::AwaitNamed => match event {
                OrgEvent::Group(None) => {
                    let r = match &self.req.context {
                        Some(n) => context_not_found_reply(n.as_str()),
                        None => no_room_context_reply(),
                    };
                    self.reply(r)
                },
                OrgEvent::Group(Some(c)) => self.located(c),
                _ => self.stop(),
            },
            PermSetPhase::AwaitRoom => match event {
                OrgEvent::Group(None) => self.reply(no_room_context_reply()),
                OrgEvent::Group(Some(c)) => self.located(c),
                _ => self.stop(),
            },
            PermSetPhase::AwaitMembership => match event {
                OrgEvent::Member(b) => self.rights(b),
                _ => self.stop(),
            },
            PermSetPhase::AwaitGroup => match event {
                OrgEvent::Group(None) => {
                    let r = missing_target_reply(Missing::Group, self.req.group.as_str());
                    self.reply(r)
                },
                OrgEvent::Group(Some(g)) => {
                    let p = self.req.perm.clone();
                    (
                        PermSet { phase: PermSetPhase::AwaitPermission, group: Some((g.id, g.name)), ..self },
                        OrgAction::FindPermission(p),
                    )
                },
                _ => self.stop(),
            },
            PermSetPhase::AwaitPermission => match event {
                OrgEvent::Permission(None) => {
                    let r = missing_target_reply(Missing::Permission, self.req.perm.as_str());
                    self.reply(r)
                },
                OrgEvent::Permission(Some(p)) => {
                    let gid = match &self.group {
                        Some(g) => g.0,
                        None => 0,
                    };
                    let cid = match &self.target {
                        Some(t) => t.0,
                        None => 0,
                    };
                    let a = OrgAction::SetRule(p.0, gid, cid, rule_priority(self.req.priority), self.req.allowed);
                    (PermSet { phase: PermSetPhase::AwaitSet, permission: Some(p), ..self }, a)
                },
                _ => self.stop(),
            },
            PermSetPhase::AwaitSet => match event {
                OrgEvent::Updated => {
                    let r = match (&self.target, &self.permission, &self.group) {
                        (Some(t), Some(p), Some(g)) => rule_set_reply(t.1.as_str(), p.1.as_str(), g.1.as_str(), self.req.allowed),
                        _ => no_room_context_reply(),
                    };
                    self.reply(r)
                },
                _ => self.stop(),
            },
            PermSetPhase::Done => self.stop(),
        }
    }
}

} // verus!
