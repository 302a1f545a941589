//! The `groupinfo`, `contexts` and `perms` commands as sequences of steps:
//! each step takes what the organisation store answered and says what to do
//! next.
use vstd::prelude::*;

use crate::contexts::{contexts_listing, contexts_reply, no_room_context, no_room_context_reply};
use crate::flows::{OrgAction, OrgActionView, OrgEvent, OrgEventView};
use crate::groups::{
    group_info_html, group_info_plain, group_info_summary, group_not_found, group_not_found_reply,
    malformed_user, malformed_user_reply,
};
use crate::org::{mention_parts, parse_mention, Reply, ReplyView};
use crate::perms::{
    context_not_found, context_not_found_reply, no_rules, no_rules_reply, rules_reply,
    rules_table, RuleEntryView,
};

verus! {

/// How many members `groupinfo` lists by name.
pub const MEMBERS_SHOWN: u64 = 5;

/// The argument of `groupinfo`: the name of the group to show.
pub struct GroupInfoRequest {
    pub group: String,
}

pub struct GroupInfoRequestView {
    pub group: Seq<char>,
}

impl View for GroupInfoRequest {
    type V = GroupInfoRequestView;

    open spec fn view(&self) -> GroupInfoRequestView {
        GroupInfoRequestView { group: self.group@ }
    }
}

/// Where a `groupinfo` run stands.
#[derive(Clone, Copy, Debug, PartialEq, Eq, Structural)]
pub enum GroupInfoPhase {
    Start,
    AwaitGroup,
    AwaitOwner,
    AwaitAdmin,
    AwaitMembers,
    AwaitCount,
    Done,
}

/// A `groupinfo` run.
pub struct GroupInfo {
    req: GroupInfoRequest,
    phase: GroupInfoPhase,
    target: Option<(u64, String, Option<u64>)>,
    owner: Option<String>,
    admin: Option<String>,
    members: Vec<String>,
}

/// What a `groupinfo` run holds: the request, its phase, the group found
/// (id, name, admin group), its owner as shown, the name of its admin group
/// and the members listed.
pub struct GroupInfoView {
    pub req: GroupInfoRequestView,
    pub phase: GroupInfoPhase,
    pub target: Option<(u64, Seq<char>, Option<u64>)>,
    pub owner: Option<Seq<char>>,
    pub admin: Option<Seq<char>>,
    pub members: Seq<Seq<char>>,
}

impl View for GroupInfo {
    type V = GroupInfoView;

    closed spec fn view(&self) -> GroupInfoView {
        GroupInfoView {
            req: self.req@,
            phase: self.phase,
            target: self.target.deep_view(),
            owner: self.owner.deep_view(),
            admin: self.admin.deep_view(),
            members: self.members.deep_view(),
        }
    }
}

/// The run before its first step.
pub open spec fn groupinfo_start(req: GroupInfoRequestView) -> GroupInfoView {
    GroupInfoView {
        req,
        phase: GroupInfoPhase::Start,
        target: None,
        owner: None,
        admin: None,
        members: Seq::empty(),
    }
}

/// Stop without a reply.
pub open spec fn groupinfo_stop(s: GroupInfoView) -> (GroupInfoView, OrgActionView) {
    (GroupInfoView { phase: GroupInfoPhase::Done, ..s }, OrgActionView::Finish)
}

/// The report on the group found, with `count` members in all.
pub open spec fn group_report(s: GroupInfoView, count: nat) -> ReplyView {
    let t = s.target->0;
    ReplyView::Html(
        group_info_plain(t.1, s.owner->0, s.admin, s.members, count),
        group_info_html(t.1, s.owner->0, s.admin, s.members, count),
    )
}

/// One step of `groupinfo`: from where the run stands and what the store
/// answered, where it goes and what to do next.
///
/// In order: the group named, with its reply when there is none; its owner;
/// its admin group, when it has one; its first members; the number of its
/// members; the report. A count below the number of members listed is an
/// answer the store cannot give, and stops the run.
pub open spec fn groupinfo_next(s: GroupInfoView, e: OrgEventView) -> (GroupInfoView, OrgActionView) {
    match s.phase {
        GroupInfoPhase::Start => match e {
            OrgEventView::Begin => (
                GroupInfoView { phase: GroupInfoPhase::AwaitGroup, ..s },
                OrgActionView::FindGroup(s.req.group),
            ),
            _ => groupinfo_stop(s),
        },
        GroupInfoPhase::AwaitGroup => match e {
            OrgEventView::Group(None) => (
                GroupInfoView { phase: GroupInfoPhase::Done, ..s },
                OrgActionView::Reply(group_not_found(s.req.group)),
            ),
            OrgEventView::Group(Some(g)) => (
                GroupInfoView {
                    phase: GroupInfoPhase::AwaitOwner,
                    target: Some((g.id, g.name, g.admin_group)),
                    ..s
                },
                OrgActionView::UserById(g.owner),
            ),
            _ => groupinfo_stop(s),
        },
        GroupInfoPhase::AwaitOwner => match e {
            OrgEventView::UserNamed(u, sv) => {
                let n = GroupInfoView { owner: Some(u + ":"@ + sv), ..s };
                match (s.target->0).2 {
                    Some(a) => (GroupInfoView { phase: GroupInfoPhase::AwaitAdmin, ..n }, OrgActionView::GroupById(a)),
                    None => (
                        GroupInfoView { phase: GroupInfoPhase::AwaitMembers, ..n },
                        OrgActionView::Members((s.target->0).0, MEMBERS_SHOWN),
                    ),
                }
            },
            _ => groupinfo_stop(s),
        },
        GroupInfoPhase::AwaitAdmin => match e {
            OrgEventView::Group(g) => (
                GroupInfoView {
                    phase: GroupInfoPhase::AwaitMembers,
                    admin: match g {
                        Some(x) => Some(x.name),
                        None => None,
                    },
                    ..s
                },
                OrgActionView::Members((s.target->0).0, MEMBERS_SHOWN),
            ),
            _ => groupinfo_stop(s),
        },
        GroupInfoPhase::AwaitMembers => match e {
            OrgEventView::Names(n) => (
                GroupInfoView { phase: GroupInfoPhase::AwaitCount, members: n, ..s },
                OrgActionView::CountMembers((s.target->0).0),
            ),
            _ => groupinfo_stop(s),
        },
        GroupInfoPhase::AwaitCount => match e {
            OrgEventView::Count(k) => if s.members.len() <= k {
                (
                    GroupInfoView { phase: GroupInfoPhase::Done, ..s },
                    OrgActionView::Reply(group_report(s, k as nat)),
                )
            } else {
                groupinfo_stop(s)
            },
            _ => groupinfo_stop(s),
        },
        GroupInfoPhase::Done => groupinfo_stop(s),
    }
}

/// What every `groupinfo` run keeps true.
pub open spec fn groupinfo_wf(s: GroupInfoView) -> bool {
    &&& (s.phase is AwaitOwner || s.phase is AwaitAdmin || s.phase is AwaitMembers || s.phase is AwaitCount
        ==> s.target is Some)
    &&& (s.phase is AwaitAdmin || s.phase is AwaitMembers || s.phase is AwaitCount ==> s.owner is Some)
}

/// Every lookup of a `groupinfo` run after the first concerns the group
/// found, and the report shows that group with its owner, its admin group,
/// the members listed and the number counted.
pub proof fn law_groupinfo_report(s: GroupInfoView, e: OrgEventView)
    requires
        groupinfo_wf(s),
    ensures
        groupinfo_next(s, e).1 matches OrgActionView::Members(g, n) ==> g == (s.target->0).0 && n
            == MEMBERS_SHOWN,
        groupinfo_next(s, e).1 matches OrgActionView::CountMembers(g) ==> g == (s.target->0).0,
        s.phase is AwaitCount ==> (e matches OrgEventView::Count(k) ==> (s.members.len() <= k
            <==> groupinfo_next(s, e).1 == OrgActionView::Reply(
            ReplyView::Html(
                group_info_plain((s.target->0).1, s.owner->0, s.admin, s.members, k as nat),
                group_info_html((s.target->0).1, s.owner->0, s.admin, s.members, k as nat),
            ),
        ))),
        s.phase is AwaitGroup && e == OrgEventView::Group(None) ==> groupinfo_next(s, e).1
            == OrgActionView::Reply(group_not_found(s.req.group)),
{
}

impl GroupInfo {
    #[verifier::type_invariant]
    closed spec fn inv(self) -> bool {
        groupinfo_wf(self@)
    }

    /// A run of `groupinfo` on `req`, before its first step.
    pub fn new(req: GroupInfoRequest) -> (res: Self)
        ensures
            res@ == groupinfo_start(req@),
    {
        let members: Vec<String> = Vec::new();
        assert(members.deep_view() =~= Seq::<Seq<char>>::empty());
        GroupInfo { req, phase: GroupInfoPhase::Start, target: None, owner: None, admin: None, members }
    }

    /// Where the run stands.
    pub fn phase(&self) -> (res: GroupInfoPhase)
        ensures
            res == self@.phase,
    {
        self.phase
    }

    fn stop(self) -> (res: (Self, OrgAction))
        ensures
            (res.0@, res.1@) == groupinfo_stop(self@),
    {
        (GroupInfo { phase: GroupInfoPhase::Done, ..self }, OrgAction::Finish)
    }

    fn target_id(&self) -> (res: u64)
        requires
            self@.target is Some,
        ensures
            res == (self@.target->0).0,
    {
        match &self.target {
            Some(t) => t.0,
            None => 0,
        }
    }

    /// One step of the run: what the store answered leads to the next state
    /// and the next thing to do.
    pub fn step(self, event: OrgEvent) -> (res: (Self, OrgAction))
        ensures
            (res.0@, res.1@) == groupinfo_next(self@, event@),
    {
        proof {
            use_type_invariant(&self);
        }
        match self.phase {
            GroupInfoPhase::Start => match event {
                OrgEvent::Begin => {
                    let a = OrgAction::FindGroup(self.req.group.clone());
                    (GroupInfo { phase: GroupInfoPhase::AwaitGroup, ..self }, a)
                },
                _ => self.stop(),
            },
            GroupInfoPhase::AwaitGroup => match event {
                OrgEvent::Group(None) => {
                    let r = group_not_found_reply(self.req.group.as_str());
                    (GroupInfo { phase: GroupInfoPhase::Done, ..self }, OrgAction::Reply(r))
                },
                OrgEvent::Group(Some(g)) => {
                    let owner = g.owner;
                    (
                        GroupInfo {
                            phase: GroupInfoPhase::AwaitOwner,
                            target: Some((g.id, g.name, g.admin_group)),
                            ..self
                        },
                        OrgAction::UserById(owner),
                    )
                },
                _ => self.stop(),
            },
            GroupInfoPhase::AwaitOwner => match event {
                OrgEvent::UserNamed(u, sv) => {
                    let mut shown = u;
                    shown.append(":");
                    shown.append(sv.as_str());
                    let id = self.target_id();
                    let admin = match &self.target {
                        Some(t) => t.2,
                        None => None,
                    };
                    match admin {
                        Some(a) => (
                            GroupInfo { phase: GroupInfoPhase::AwaitAdmin, owner: Some(shown), ..self },
                            OrgAction::GroupById(a),
                        ),
                        None => (
                            GroupInfo { phase: GroupInfoPhase::AwaitMembers, owner: Some(shown), ..self },
                            OrgAction::Members(id, MEMBERS_SHOWN),
                        ),
                    }
                },
                _ => self.stop(),
            },
            GroupInfoPhase::AwaitAdmin => match event {
                OrgEvent::Group(g) => {
                    let id = self.target_id();
                    let admin = match g {
                        Some(x) => Some(x.name),
                        None => None,
                    };
                    (GroupInfo { phase: GroupInfoPhase::AwaitMembers, admin, ..self }, OrgAction::Members(id, MEMBERS_SHOWN))
                },
                _ => self.stop(),
            },
            GroupInfoPhase::AwaitMembers => match event {
                OrgEvent::Names(n) => {
                    let id = self.target_id();
                    (GroupInfo { phase: GroupInfoPhase::AwaitCount, members: n, ..self }, OrgAction::CountMembers(id))
                },
                _ => self.stop(),
            },
            GroupInfoPhase::AwaitCount => match event {
                OrgEvent::Count(k) => {
                    if self.members.len() as u64 <= k {
                        let (plain, html) = match (&self.target, &self.owner) {
                            (Some(t), Some(o)) => group_info_summary(t.1.as_str(), o.as_str(), &self.admin, &self.members, k),
                            _ => (String::new(), String::new()),
                        };
                        (GroupInfo { phase: GroupInfoPhase::Done, ..self }, OrgAction::Reply(Reply::Html(plain, html)))
                    } else {
                        self.stop()
                    }
                },
                _ => self.stop(),
            },
            GroupInfoPhase::Done => self.stop(),
        }
    }
}

} // verus!

verus! {

/// The argument of `contexts`: the user to list, as an `@user:server`
/// mention, or none for the sender; with the sender as user and server.
pub struct ContextsRequest {
    pub user: Option<String>,
    pub sender: (String, String),
}

pub struct ContextsRequestView {
    pub user: Option<Seq<char>>,
    pub sender: (Seq<char>, Seq<char>),
}

impl View for ContextsRequest {
    type V = ContextsRequestView;

    open spec fn view(&self) -> ContextsRequestView {
        ContextsRequestView { user: self.user.deep_view(), sender: (self.sender.0@, self.sender.1@) }
    }
}

/// Where a `contexts` run stands.
#[derive(Clone, Copy, Debug, PartialEq, Eq, Structural)]
pub enum ContextsPhase {
    Start,
    AwaitAdmin,
    AwaitOwner,
    Done,
}

/// A `contexts` run.
pub struct Contexts {
    req: ContextsRequest,
    phase: ContextsPhase,
    who: (String, String),
    admin_of: Vec<String>,
}

/// What a `contexts` run holds: the request, its phase, the user listed and
/// the contexts it administers.
pub struct ContextsView {
    pub req: ContextsRequestView,
    pub phase: ContextsPhase,
    pub who: (Seq<char>, Seq<char>),
    pub admin_of: Seq<Seq<char>>,
}

impl View for Contexts {
    type V = ContextsView;

    closed spec fn view(&self) -> ContextsView {
        ContextsView {
            req: self.req@,
            phase: self.phase,
            who: (self.who.0@, self.who.1@),
            admin_of: self.admin_of.deep_view(),
        }
    }
}

/// The run before its first step.
pub open spec fn contexts_start(req: ContextsRequestView) -> ContextsView {
    ContextsView { req, phase: ContextsPhase::Start, who: req.sender, admin_of: Seq::empty() }
}

/// Stop without a reply.
pub open spec fn contexts_stop(s: ContextsView) -> (ContextsView, OrgActionView) {
    (ContextsView { phase: ContextsPhase::Done, ..s }, OrgActionView::Finish)
}

/// The user whose contexts are listed: the one mentioned, or else the
/// sender.
pub open spec fn contexts_user(req: ContextsRequestView) -> (Seq<char>, Seq<char>) {
    match req.user {
        Some(u) => mention_parts(u)->0,
        None => req.sender,
    }
}

/// One step of `contexts`: from where the run stands and what the store
/// answered, where it goes and what to do next.
///
/// In order: a malformed mention is refused; the contexts the user
/// administers, then those it owns; the listing.
pub open spec fn contexts_next(s: ContextsView, e: OrgEventView) -> (ContextsView, OrgActionView) {
    match s.phase {
        ContextsPhase::Start => match e {
            OrgEventView::Begin => if s.req.user is Some && mention_parts(s.req.user->0) is None {
                (ContextsView { phase: ContextsPhase::Done, ..s }, OrgActionView::Reply(malformed_user()))
            } else {
                let who = contexts_user(s.req);
                (
                    ContextsView { phase: ContextsPhase::AwaitAdmin, who, ..s },
                    OrgActionView::ContextAdminOf(who.0, who.1),
                )
            },
            _ => contexts_stop(s),
        },
        ContextsPhase::AwaitAdmin => match e {
            OrgEventView::Names(n) => (
                ContextsView { phase: ContextsPhase::AwaitOwner, admin_of: n, ..s },
                OrgActionView::ContextOwnerOf(s.who.0, s.who.1),
            ),
            _ => contexts_stop(s),
        },
        ContextsPhase::AwaitOwner => match e {
            OrgEventView::Names(n) => (
                ContextsView { phase: ContextsPhase::Done, ..s },
                OrgActionView::Reply(contexts_listing(s.who.0, s.who.1, s.admin_of, n)),
            ),
            _ => contexts_stop(s),
        },
        ContextsPhase::Done => contexts_stop(s),
    }
}

/// What every `contexts` run keeps true.
pub open spec fn contexts_wf(s: ContextsView) -> bool {
    !(s.phase is Start || s.phase is Done) ==> s.who == contexts_user(s.req)
}

/// The contexts listed are those of the user mentioned, or else of the
/// sender: both lookups ask about that user, and the listing shows what they
/// answered.
pub proof fn law_contexts_of_listed_user(s: ContextsView, e: OrgEventView)
    requires
        contexts_wf(s),
    ensures
        contexts_next(s, e).1 matches OrgActionView::ContextAdminOf(u, sv) ==> (u, sv) == contexts_user(
            s.req,
        ),
        contexts_next(s, e).1 matches OrgActionView::ContextOwnerOf(u, sv) ==> (u, sv) == contexts_user(
            s.req,
        ),
        s.phase is AwaitOwner ==> (e matches OrgEventView::Names(owned) ==> contexts_next(s, e).1
            == OrgActionView::Reply(
            contexts_listing(contexts_user(s.req).0, contexts_user(s.req).1, s.admin_of, owned),
        )),
        s.phase is Start && e == OrgEventView::Begin ==> (contexts_next(s, e).1 == OrgActionView::Reply(
            malformed_user(),
        ) <==> (s.req.user is Some && mention_parts(s.req.user->0) is None)),
{
}

impl Contexts {
    #[verifier::type_invariant]
    closed spec fn inv(self) -> bool {
        contexts_wf(self@)
    }

    /// A run of `contexts` on `req`, before its first step.
    pub fn new(req: ContextsRequest) -> (res: Self)
        ensures
            res@ == contexts_start(req@),
    {
        let who = (req.sender.0.clone(), req.sender.1.clone());
        let admin_of: Vec<String> = Vec::new();
        assert(admin_of.deep_view() =~= Seq::<Seq<char>>::empty());
        Contexts { req, phase: ContextsPhase::Start, who, admin_of }
    }

    /// Where the run stands.
    pub fn phase(&self) -> (res: ContextsPhase)
        ensures
            res == self@.phase,
    {
        self.phase
    }

    fn stop(self) -> (res: (Self, OrgAction))
        ensures
            (res.0@, res.1@) == contexts_stop(self@),
    {
        (Contexts { phase: ContextsPhase::Done, ..self }, OrgAction::Finish)
    }

    /// One step of the run: what the store answered leads to the next state
    /// and the next thing to do.
    pub fn step(self, event: OrgEvent) -> (res: (Self, OrgAction))
        ensures
            (res.0@, res.1@) == contexts_next(self@, event@),
    {
        proof {
            use_type_invariant(&self);
        }
        match self.phase {
            ContextsPhase::Start => match event {
                OrgEvent::Begin => {
                    let parsed = match &self.req.user {
                        Some(u) => Some(parse_mention(u.as_str())),
                        None => None,
                    };
                    let who = match parsed {
                        Some(Some(w)) => w,
                        Some(None) => {
                            return (
                                Contexts { phase: ContextsPhase::Done, ..self },
                                OrgAction::Reply(malformed_user_reply()),
                            );
                        },
                        None => (self.req.sender.0.clone(), self.req.sender.1.clone()),
                    };
                    let a = OrgAction::ContextAdminOf(who.0.clone(), who.1.clone());
                    (Contexts { phase: ContextsPhase::AwaitAdmin, who, ..self }, a)
                },
                _ => self.stop(),
            },
            ContextsPhase::AwaitAdmin => match event {
                OrgEvent::Names(n) => {
                    let a = OrgAction::ContextOwnerOf(self.who.0.clone(), self.who.1.clone());
                    (Contexts { phase: ContextsPhase::AwaitOwner, admin_of: n, ..self }, a)
                },
                _ => self.stop(),
            },
            ContextsPhase::AwaitOwner => match event {
                OrgEvent::Names(n) => {
                    let r = contexts_reply(self.who.0.as_str(), self.who.1.as_str(), &self.admin_of, &n);
                    (Contexts { phase: ContextsPhase::Done, ..self }, OrgAction::Reply(r))
                },
                _ => self.stop(),
            },
            ContextsPhase::Done => self.stop(),
        }
    }
}

} // verus!

verus! {

/// The argument of `perms`: the context whose rules to list, or none for the
/// room's context.
pub struct PermsRequest {
    pub context: Option<String>,
}

pub struct PermsRequestView {
    pub context: Option<Seq<char>>,
}

impl View for PermsRequest {
    type V = PermsRequestView;

    open spec fn view(&self) -> PermsRequestView {
        PermsRequestView { context: self.context.deep_view() }
    }
}

/// Where a `perms` run stands.
#[derive(Clone, Copy, Debug, PartialEq, Eq, Structural)]
pub enum PermsPhase {
    Start,
    AwaitNamed,
    AwaitRoom,
    AwaitRules,
    Done,
}

/// A `perms` run.
pub struct Perms {
    req: PermsRequest,
    phase: PermsPhase,
    target: Option<(u64, String)>,
}

/// What a `perms` run holds: the request, its phase, and the context found
/// (id and name).
pub struct PermsView {
    pub req: PermsRequestView,
    pub phase: PermsPhase,
    pub target: Option<(u64, Seq<char>)>,
}

impl View for Perms {
    type V = PermsView;

    closed spec fn view(&self) -> PermsView {
        PermsView { req: self.req@, phase: self.phase, target: self.target.deep_view() }
    }
}

/// The run before its first step.
pub open spec fn perms_start(req: PermsRequestView) -> PermsView {
    PermsView { req, phase: PermsPhase::Start, target: None }
}

/// Stop without a reply.
pub open spec fn perms_stop(s: PermsView) -> (PermsView, OrgActionView) {
    (PermsView { phase: PermsPhase::Done, ..s }, OrgActionView::Finish)
}

/// Stop with a reply.
pub open spec fn perms_reply(s: PermsView, r: ReplyView) -> (PermsView, OrgActionView) {
    (PermsView { phase: PermsPhase::Done, ..s }, OrgActionView::Reply(r))
}

/// The listing of the rules of the context `name`: a notice when it has
/// none, else their table.
pub open spec fn rules_listing(name: Seq<char>, rules: Seq<RuleEntryView>) -> ReplyView {
    if rules.len() == 0 {
        no_rules(name)
    } else {
        ReplyView::Html(rules_table(name, rules).0, rules_table(name, rules).1)
    }
}

/// One step of `perms`: from where the run stands and what the store
/// answered, where it goes and what to do next.
///
/// In order: the context named, or else the room's context, each with its
/// reply when there is none; its rules; their listing.
pub open spec fn perms_next(s: PermsView, e: OrgEventView) -> (PermsView, OrgActionView) {
    match s.phase {
        PermsPhase::Start => match e {
            OrgEventView::Begin => match s.req.context {
                Some(n) => (PermsView { phase: PermsPhase::AwaitNamed, ..s }, OrgActionView::FindContext(n)),
                None => (PermsView { phase: PermsPhase::AwaitRoom, ..s }, OrgActionView::RoomContext),
            },
            _ => perms_stop(s),
        },
        PermsPhase::AwaitNamed => match e {
            OrgEventView::Group(None) => perms_reply(s, context_not_found(s.req.context->0)),
            OrgEventView::Group(Some(c)) => (
                PermsView { phase: PermsPhase::AwaitRules, target: Some((c.id, c.name)), ..s },
                OrgActionView::ListRules(c.id),
            ),
            _ => perms_stop(s),
        },
        PermsPhase::AwaitRoom => match e {
            OrgEventView::Group(None) => perms_reply(s, no_room_context()),
            OrgEventView::Group(Some(c)) => (
                PermsView { phase: PermsPhase::AwaitRules, target: Some((c.id, c.name)), ..s },
                OrgActionView::ListRules(c.id),
            ),
            _ => perms_stop(s),
        },
        PermsPhase::AwaitRules => match e {
            OrgEventView::Rules(r) => perms_reply(s, rules_listing((s.target->0).1, r)),
            _ => perms_stop(s),
        },
        PermsPhase::Done => perms_stop(s),
    }
}

/// What every `perms` run keeps true.
pub open spec fn perms_wf(s: PermsView) -> bool {
    &&& (s.phase is AwaitNamed ==> s.req.context is Some)
    &&& (s.phase is AwaitRules ==> s.target is Some)
}

/// The rules listed are those of the context named, or else of the room's
/// context: they are asked for the context found, and listed under its name.
pub proof fn law_perms_of_context(s: PermsView, e: OrgEventView)
    requires
        perms_wf(s),
    ensures
        s.phase is Start && e == OrgEventView::Begin ==> perms_next(s, e).1 == (match s.req.context {
            Some(n) => OrgActionView::FindContext(n),
            None => OrgActionView::RoomContext,
        }),
        (s.phase is AwaitNamed || s.phase is AwaitRoom) ==> (e matches OrgEventView::Group(Some(c))
            ==> perms_next(s, e).1 == OrgActionView::ListRules(c.id) && perms_next(s, e).0.target == Some(
            (c.id, c.name),
        )),
        s.phase is AwaitRules ==> (e matches OrgEventView::Rules(r) ==> perms_next(s, e).1
            == OrgActionView::Reply(rules_listing((s.target->0).1, r))),
{
}

impl Perms {
    #[verifier::type_invariant]
    closed spec fn inv(self) -> bool {
        perms_wf(self@)
    }

    /// A run of `perms` on `req`, before its first step.
    pub fn new(req: PermsRequest) -> (res: Self)
        ensures
            res@ == perms_start(req@),
    {
        Perms { req, phase: PermsPhase::Start, target: None }
    }

    /// Where the run stands.
    pub fn phase(&self) -> (res: PermsPhase)
        ensures
            res == self@.phase,
    {
        self.phase
    }

    fn stop(self) -> (res: (Self, OrgAction))
        ensures
            (res.0@, res.1@) == perms_stop(self@),
    {
        (Perms { phase: PermsPhase::Done, ..self }, OrgAction::Finish)
    }

    fn reply(self, r: Reply) -> (res: (Self, OrgAction))
        ensures
            (res.0@, res.1@) == perms_reply(self@, r@),
    {
        (Perms { phase: PermsPhase::Done, ..self }, OrgAction::Reply(r))
    }

    fn found(self, id: u64, name: String) -> (res: (Self, OrgAction))
        ensures
            res.0@ == (PermsView { phase: PermsPhase::AwaitRules, target: Some((id, name@)), ..self@ }),
            res.1@ == OrgActionView::ListRules(id),
    {
        (Perms { phase: PermsPhase::AwaitRules, target: Some((id, name)), ..self }, OrgAction::ListRules(id))
    }

    /// One step of the run: what the store answered leads to the next state
    /// and the next thing to do.
    pub fn step(self, event: OrgEvent) -> (res: (Self, OrgAction))
        ensures
            (res.0@, res.1@) == perms_next(self@, event@),
    {
        proof {
            use_type_invariant(&self);
        }
        match self.phase {
            PermsPhase::Start => match event {
                OrgEvent::Begin => {
                    let n = match &self.req.context {
                        Some(n) => Some(n.clone()),
                        None => None,
                    };
                    match n {
                        Some(n) => (Perms { phase: PermsPhase::AwaitNamed, ..self }, OrgAction::FindContext(n)),
                        None => (Perms { phase: PermsPhase::AwaitRoom, ..self }, OrgAction::RoomContext),
                    }
                },
                _ => self.stop(),
            },
            PermsPhase::AwaitNamed => match event {
                OrgEvent::Group(None) => {
                    let r = match &self.req.context {
                        Some(n) => context_not_found_reply(n.as_str()),
                        None => no_room_context_reply(),
                    };
                    self.reply(r)
                },
                OrgEvent::Group(Some(c)) => self.found(c.id, c.name),
                _ => self.stop(),
            },
            PermsPhase::AwaitRoom => match event {
                OrgEvent::Group(None) => self.reply(no_room_context_reply()),
                OrgEvent::Group(Some(c)) => self.found(c.id, c.name),
                _ => self.stop(),
            },
            PermsPhase::AwaitRules => match event {
                OrgEvent::Rules(r) => {
                    let name = match &self.target {
                        Some(t) => t.1.clone(),
                        None => String::new(),
                    };
                    let reply = if r.len() == 0 {
                        no_rules_reply(name.as_str())
                    } else {
                        let (plain, html) = rules_reply(name.as_str(), &r);
                        Reply::Html(plain, html)
                    };
                    self.reply(reply)
                },
                _ => self.stop(),
            },
            PermsPhase::Done => self.stop(),
        }
    }
}

} // verus!
