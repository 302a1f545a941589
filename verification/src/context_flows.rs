//! The `contextadd` command as a sequence of steps: each step takes what the
//! organisation store answered and says what to do next.
use vstd::prelude::*;

use crate::contexts::{
    attach_refusal, can_set_room_context, context_created_html, context_created_plain,
    context_nothing_to_change, context_nothing_to_change_reply, context_update_html,
    context_update_plain, may_set_room_context, Attachment, AttachmentView, ContextCreated,
    ContextCreatedView, ContextUpdate, ContextUpdateView,
};
use crate::flows::{Change, ChangeView, OrgAction, OrgActionView, OrgEvent, OrgEventView};
use crate::group_flows::desc_or_empty;
use crate::org::{
    asks_nothing, check_creation, check_modification, creation_rejection, malformed_owner,
    malformed_owner_reply, mention_parts, modification_rejection, name_taken, name_taken_reply,
    needs_name_check, not_found_for_change, not_found_for_change_reply, parse_mention, renames,
    unknown_admin_group, unknown_admin_group_reply, unknown_owner, unknown_owner_reply, Entity,
    Modification, ModificationView, Reply, ReplyView,
};

verus! {

/// The arguments of `contextadd`, with what the command knows before any
/// lookup: the naming rules' verdict on the name, the longest description
/// allowed, and the sender as user and server.
pub struct ContextAddRequest {
    pub name: String,
    pub desc: Option<String>,
    pub owner: Option<String>,
    pub admin_group: Option<String>,
    pub attach: bool,
    pub name_valid: bool,
    pub desc_max_len: usize,
    pub sender: (String, String),
}

pub struct ContextAddRequestView {
    pub name: Seq<char>,
    pub desc: Option<Seq<char>>,
    pub owner: Option<Seq<char>>,
    pub admin_group: Option<Seq<char>>,
    pub attach: bool,
    pub name_valid: bool,
    pub desc_max_len: nat,
    pub sender: (Seq<char>, Seq<char>),
}

impl View for ContextAddRequest {
    type V = ContextAddRequestView;

    open spec fn view(&self) -> ContextAddRequestView {
        ContextAddRequestView {
            name: self.name@,
            desc: self.desc.deep_view(),
            owner: self.owner.deep_view(),
            admin_group: self.admin_group.deep_view(),
            attach: self.attach,
            name_valid: self.name_valid,
            desc_max_len: self.desc_max_len as nat,
            sender: (self.sender.0@, self.sender.1@),
        }
    }
}

/// Where a `contextadd` run stands.
#[derive(Clone, Copy, Debug, PartialEq, Eq, Structural)]
pub enum ContextAddPhase {
    Start,
    AwaitOwner,
    AwaitSender,
    AwaitName,
    AwaitAdmin,
    AwaitCreated,
    AwaitLevel,
    AwaitAttached,
    Done,
}

/// A `contextadd` run.
pub struct ContextAdd {
    req: ContextAddRequest,
    phase: ContextAddPhase,
    owner: Option<(u64, String, String)>,
    admin: Option<(u64, String)>,
    context: Option<u64>,
}

/// What a `contextadd` run holds: the request, its phase, the owner found
/// (id, user, server), the admin group found (id, name) and the created
/// context.
pub struct ContextAddView {
    pub req: ContextAddRequestView,
    pub phase: ContextAddPhase,
    pub owner: Option<(u64, Seq<char>, Seq<char>)>,
    pub admin: Option<(u64, Seq<char>)>,
    pub context: Option<u64>,
}

impl View for ContextAdd {
    type V = ContextAddView;

    closed spec fn view(&self) -> ContextAddView {
        ContextAddView {
            req: self.req@,
            phase: self.phase,
            owner: self.owner.deep_view(),
            admin: self.admin.deep_view(),
            context: self.context,
        }
    }
}

/// The run before its first step.
pub open spec fn contextadd_start(req: ContextAddRequestView) -> ContextAddView {
    ContextAddView { req, phase: ContextAddPhase::Start, owner: None, admin: None, context: None }
}

/// Stop without a reply.
pub open spec fn contextadd_stop(s: ContextAddView) -> (ContextAddView, OrgActionView) {
    (ContextAddView { phase: ContextAddPhase::Done, ..s }, OrgActionView::Finish)
}

/// Stop with a reply.
pub open spec fn contextadd_reply(s: ContextAddView, r: ReplyView) -> (ContextAddView, OrgActionView) {
    (ContextAddView { phase: ContextAddPhase::Done, ..s }, OrgActionView::Reply(r))
}

/// Whether the arguments pass the checks made before any lookup.
pub open spec fn contextadd_accepted(req: ContextAddRequestView) -> bool {
    creation_rejection(Entity::Context, req.name, req.name_valid, req.desc, req.desc_max_len) is None
}

/// Who owns a new context: the user mentioned as owner, or else the sender.
pub open spec fn context_owner(req: ContextAddRequestView) -> (Seq<char>, Seq<char>) {
    match req.owner {
        Some(o) => mention_parts(o)->0,
        None => req.sender,
    }
}

/// With the owner found, look up whether the name is taken.
pub open spec fn with_owner(s: ContextAddView, id: u64) -> (ContextAddView, OrgActionView) {
    let o = context_owner(s.req);
    (
        ContextAddView { phase: ContextAddPhase::AwaitName, owner: Some((id, o.0, o.1)), ..s },
        OrgActionView::FindContext(s.req.name),
    )
}

/// Create the context with the owner and admin group found.
pub open spec fn create_context(s: ContextAddView) -> (ContextAddView, OrgActionView) {
    (
        ContextAddView { phase: ContextAddPhase::AwaitCreated, ..s },
        OrgActionView::CreateContext(
            s.req.name,
            desc_or_empty(s.req.desc),
            (s.owner->0).0,
            match s.admin {
                Some(a) => Some(a.0),
                None => None,
            },
        ),
    )
}

/// What the summary of the created context shows.
pub open spec fn context_created_view(s: ContextAddView, a: Option<AttachmentView>) -> ContextCreatedView {
    ContextCreatedView {
        name: s.req.name,
        desc: desc_or_empty(s.req.desc),
        owner: (s.owner->0).1 + ":"@ + (s.owner->0).2,
        admin_group: match s.admin {
            Some(g) => Some(g.1),
            None => None,
        },
        attachment: a,
    }
}

/// Reply with the summary.
pub open spec fn context_summary(s: ContextAddView, a: Option<AttachmentView>) -> (ContextAddView, OrgActionView) {
    contextadd_reply(
        s,
        ReplyView::Html(
            context_created_plain(context_created_view(s, a)),
            context_created_html(context_created_view(s, a)),
        ),
    )
}

/// One step of `contextadd`: from where the run stands and what the store
/// answered, where it goes and what to do next.
///
/// In order: the checks on the arguments; the owner, as mentioned, or else
/// the sender; whether the name is taken; the admin group; the creation;
/// when asked, the attachment of the room, which needs power level 100; the
/// summary.
pub open spec fn contextadd_next(s: ContextAddView, e: OrgEventView) -> (ContextAddView, OrgActionView) {
    match s.phase {
        ContextAddPhase::Start => match e {
            OrgEventView::Begin => match creation_rejection(
                Entity::Context,
                s.req.name,
                s.req.name_valid,
                s.req.desc,
                s.req.desc_max_len,
            ) {
                Some(r) => contextadd_reply(s, r),
                None => match s.req.owner {
                    Some(o) => match mention_parts(o) {
                        Some(parts) => (
                            ContextAddView { phase: ContextAddPhase::AwaitOwner, ..s },
                            OrgActionView::FindUser(parts.0, parts.1),
                        ),
                        None => contextadd_reply(s, malformed_owner()),
                    },
                    None => (ContextAddView { phase: ContextAddPhase::AwaitSender, ..s }, OrgActionView::SenderUser),
                },
            },
            _ => contextadd_stop(s),
        },
        ContextAddPhase::AwaitOwner => match e {
            OrgEventView::User(Some(id)) => with_owner(s, id),
            OrgEventView::User(None) => contextadd_reply(s, unknown_owner(Entity::Group, s.req.owner->0)),
            _ => contextadd_stop(s),
        },
        ContextAddPhase::AwaitSender => match e {
            OrgEventView::User(Some(id)) => with_owner(s, id),
            _ => contextadd_stop(s),
        },
        ContextAddPhase::AwaitName => match e {
            OrgEventView::Group(Some(c)) => contextadd_reply(s, name_taken(Entity::Context, true, c.name)),
            OrgEventView::Group(None) => match s.req.admin_group {
                Some(a) => (ContextAddView { phase: ContextAddPhase::AwaitAdmin, ..s }, OrgActionView::FindGroup(a)),
                None => create_context(s),
            },
            _ => contextadd_stop(s),
        },
        ContextAddPhase::AwaitAdmin => match e {
            OrgEventView::Group(Some(g)) => create_context(ContextAddView { admin: Some((g.id, g.name)), ..s }),
            OrgEventView::Group(None) => contextadd_reply(s, unknown_admin_group(s.req.admin_group->0)),
            _ => contextadd_stop(s),
        },
        ContextAddPhase::AwaitCreated => match e {
            OrgEventView::Created(id) => if s.req.attach {
                (
                    ContextAddView { phase: ContextAddPhase::AwaitLevel, context: Some(id), ..s },
                    OrgActionView::PowerLevel,
                )
            } else {
                context_summary(ContextAddView { context: Some(id), ..s }, None)
            },
            _ => contextadd_stop(s),
        },
        ContextAddPhase::AwaitLevel => match e {
            OrgEventView::Level(l) => if may_set_room_context(l as int) {
                (ContextAddView { phase: ContextAddPhase::AwaitAttached, ..s }, OrgActionView::AttachRoom(s.context->0))
            } else {
                context_summary(s, Some(AttachmentView::Refused(attach_refusal_text())))
            },
            _ => contextadd_stop(s),
        },
        ContextAddPhase::AwaitAttached => match e {
            OrgEventView::Attached(previous) => context_summary(
                s,
                Some(
                    match previous {
                        Some(p) => AttachmentView::Replaced(p),
                        None => AttachmentView::Attached,
                    },
                ),
            ),
            _ => contextadd_stop(s),
        },
        ContextAddPhase::Done => contextadd_stop(s),
    }
}

/// Why a room is not attached to a new context.
pub open spec fn attach_refusal_text() -> Seq<char> {
    "no permission: require permission level 100"@
}

/// What every `contextadd` run keeps true.
pub open spec fn contextadd_wf(s: ContextAddView) -> bool {
    &&& (!(s.phase is Start || s.phase is Done) ==> contextadd_accepted(s.req))
    &&& (s.phase is AwaitOwner ==> s.req.owner is Some && mention_parts(s.req.owner->0) is Some)
    &&& (s.phase is AwaitSender ==> s.req.owner is None)
    &&& (s.owner is Some ==> ((s.owner->0).1, (s.owner->0).2) == context_owner(s.req))
    &&& (s.phase is AwaitName || s.phase is AwaitAdmin || s.phase is AwaitCreated || s.phase is AwaitLevel
        || s.phase is AwaitAttached ==> s.owner is Some)
    &&& (s.phase is AwaitAdmin ==> s.req.admin_group is Some)
    &&& (s.phase is Start || s.phase is AwaitOwner || s.phase is AwaitSender || s.phase is AwaitName || s.phase is AwaitAdmin
        ==> s.admin is None)
    &&& (s.phase is AwaitLevel || s.phase is AwaitAttached ==> s.context is Some && s.req.attach)
    &&& (s.phase is AwaitAttached ==> s.context is Some)
}

/// A context is created only once every check has passed: the arguments pass
/// the checks made before any lookup, the lookup of the name found nothing,
/// and an admin group, where one is named, was found. It is created with the
/// name and description given, owned by the user found for the mentioned
/// owner, or else by the sender.
pub proof fn law_contextadd_creates_only_when_checks_pass(s: ContextAddView, e: OrgEventView)
    requires
        contextadd_wf(s),
    ensures
        contextadd_next(s, e).1 matches OrgActionView::CreateContext(name, desc, owner, admin) ==> {
            &&& contextadd_accepted(s.req)
            &&& name == s.req.name
            &&& desc == desc_or_empty(s.req.desc)
            &&& contextadd_next(s, e).0.owner matches Some(o) && o.0 == owner && (o.1, o.2)
                == context_owner(s.req)
            &&& ((s.phase is AwaitName && e == OrgEventView::Group(None) && s.req.admin_group is None
                && admin is None) || (s.phase is AwaitAdmin && (e matches OrgEventView::Group(Some(g))
                && admin == Some(g.id))))
        },
{
    match s.phase {
        ContextAddPhase::AwaitName => {},
        ContextAddPhase::AwaitAdmin => {},
        _ => {},
    }
}

/// The room is attached to the new context only when attaching was asked
/// for and the sender's power level in the room is at least 100; and it is
/// attached to the context just created.
pub proof fn law_contextadd_attach(s: ContextAddView, e: OrgEventView)
    requires
        contextadd_wf(s),
    ensures
        contextadd_next(s, e).1 matches OrgActionView::AttachRoom(c) ==> {
            &&& s.req.attach
            &&& s.phase is AwaitLevel
            &&& e matches OrgEventView::Level(l) && may_set_room_context(l as int)
            &&& Some(c) == s.context
        },
{
}


impl ContextAdd {
    #[verifier::type_invariant]
    closed spec fn inv(self) -> bool {
        contextadd_wf(self@)
    }

    /// A run of `contextadd` on `req`, before its first step.
    pub fn new(req: ContextAddRequest) -> (res: Self)
        ensures
            res@ == contextadd_start(req@),
    {
        ContextAdd { req, phase: ContextAddPhase::Start, owner: None, admin: None, context: None }
    }

    /// Where the run stands.
    pub fn phase(&self) -> (res: ContextAddPhase)
        ensures
            res == self@.phase,
    {
        self.phase
    }

    fn stop(self) -> (res: (Self, OrgAction))
        ensures
            (res.0@, res.1@) == contextadd_stop(self@),
    {
        proof {
            use_type_invariant(&self);
        }
        (ContextAdd { phase: ContextAddPhase::Done, ..self }, OrgAction::Finish)
    }

    fn reply(self, r: Reply) -> (res: (Self, OrgAction))
        ensures
            (res.0@, res.1@) == contextadd_reply(self@, r@),
    {
        proof {
            use_type_invariant(&self);
        }
        (ContextAdd { phase: ContextAddPhase::Done, ..self }, OrgAction::Reply(r))
    }

    fn with_owner(self, id: u64) -> (res: (Self, OrgAction))
        requires
            self@.phase is AwaitOwner || self@.phase is AwaitSender,
        ensures
            (res.0@, res.1@) == with_owner(self@, id),
    {
        proof {
            use_type_invariant(&self);
        }
        let parts = match &self.req.owner {
            Some(o) => parse_mention(o.as_str()),
            None => Some((self.req.sender.0.clone(), self.req.sender.1.clone())),
        };
        match parts {
            Some((u, sv)) => {
                let n = self.req.name.clone();
                (
                    ContextAdd { phase: ContextAddPhase::AwaitName, owner: Some((id, u, sv)), ..self },
                    OrgAction::FindContext(n),
                )
            },
            None => {
                assert(false);
                self.stop()
            },
        }
    }

    fn create_context(self) -> (res: (Self, OrgAction))
        requires
            self@.owner is Some,
            contextadd_accepted(self@.req),
        ensures
            (res.0@, res.1@) == create_context(self@),
    {
        proof {
            use_type_invariant(&self);
        }
        let desc = match &self.req.desc {
            Some(d) => d.clone(),
            None => String::new(),
        };
        let owner_id = match &self.owner {
            Some(o) => o.0,
            None => 0,
        };
        let admin_id = match &self.admin {
            Some(a) => Some(a.0),
            None => None,
        };
        let a = OrgAction::CreateContext(self.req.name.clone(), desc, owner_id, admin_id);
        (ContextAdd { phase: ContextAddPhase::AwaitCreated, ..self }, a)
    }

    fn summary(self, a: Option<Attachment>) -> (res: (Self, OrgAction))
        requires
            self@.owner is Some,
        ensures
            (res.0@, res.1@) == context_summary(
                self@,
                match a {
                    Some(x) => Some(x@),
                    None => None,
                },
            ),
    {
        let owner = match &self.owner {
            Some(o) => {
                let mut l = o.1.clone();
                l.append(":");
                l.append(o.2.as_str());
                l
            },
            None => String::new(),
        };
        let ghost av = match &a {
            Some(x) => Some(x@),
            None => None::<AttachmentView>,
        };
        let created = ContextCreated {
            name: self.req.name.clone(),
            desc: match &self.req.desc {
                Some(d) => d.clone(),
                None => String::new(),
            },
            owner,
            admin_group: match &self.admin {
                Some(g) => Some(g.1.clone()),
                None => None,
            },
            attachment: a,
        };
        assert(created@ == context_created_view(self@, av));
        let (plain, html) = created.summary();
        self.reply(Reply::Html(plain, html))
    }

    /// One step of the run: what the store answered leads to the next state
    /// and the next thing to do.
    pub fn step(self, event: OrgEvent) -> (res: (Self, OrgAction))
        ensures
            (res.0@, res.1@) == contextadd_next(self@, event@),
    {
        proof {
            use_type_invariant(&self);
        }
        match self.phase {
            ContextAddPhase::Start => match event {
                OrgEvent::Begin => {
                    match check_creation(
                        Entity::Context,
                        self.req.name.as_str(),
                        self.req.name_valid,
                        &self.req.desc,
                        self.req.desc_max_len,
                    ) {
                        Some(r) => self.reply(r),
                        None => {
                            assert(contextadd_accepted(self@.req));
                            let parsed = match &self.req.owner {
                                Some(o) => Some(parse_mention(o.as_str())),
                                None => None,
                            };
                            match parsed {
                                Some(Some((u, sv))) => (
                                    ContextAdd { phase: ContextAddPhase::AwaitOwner, ..self },
                                    OrgAction::FindUser(u, sv),
                                ),
                                Some(None) => self.reply(malformed_owner_reply()),
                                None => (ContextAdd { phase: ContextAddPhase::AwaitSender, ..self }, OrgAction::SenderUser),
                            }
                        },
                    }
                },
                _ => self.stop(),
            },
            ContextAddPhase::AwaitOwner => match event {
                OrgEvent::User(Some(id)) => self.with_owner(id),
                OrgEvent::User(None) => {
                    let r = match &self.req.owner {
                        Some(o) => unknown_owner_reply(Entity::Group, o.as_str()),
                        None => malformed_owner_reply(),
                    };
                    self.reply(r)
                },
                _ => self.stop(),
            },
            ContextAddPhase::AwaitSender => match event {
                OrgEvent::User(Some(id)) => self.with_owner(id),
                _ => self.stop(),
            },
            ContextAddPhase::AwaitName => match event {
                OrgEvent::Group(Some(c)) => {
                    let r = name_taken_reply(Entity::Context, true, c.name.as_str());
                    self.reply(r)
                },
                OrgEvent::Group(None) => {
                    let admin = match &self.req.admin_group {
                        Some(a) => Some(a.clone()),
                        None => None,
                    };
                    match admin {
                        Some(a) => (ContextAdd { phase: ContextAddPhase::AwaitAdmin, ..self }, OrgAction::FindGroup(a)),
                        None => self.create_context(),
                    }
                },
                _ => self.stop(),
            },
            ContextAddPhase::AwaitAdmin => match event {
                OrgEvent::Group(Some(g)) => {
                    let next = ContextAdd { admin: Some((g.id, g.name)), phase: ContextAddPhase::Done, ..self };
                    next.create_context()
                },
                OrgEvent::Group(None) => {
                    let r = match &self.req.admin_group {
                        Some(a) => unknown_admin_group_reply(a.as_str()),
                        None => malformed_owner_reply(),
                    };
                    self.reply(r)
                },
                _ => self.stop(),
            },
            ContextAddPhase::AwaitCreated => match event {
                OrgEvent::Created(id) => {
                    if self.req.attach {
                        (ContextAdd { phase: ContextAddPhase::AwaitLevel, context: Some(id), ..self }, OrgAction::PowerLevel)
                    } else {
                        let next = ContextAdd { context: Some(id), phase: ContextAddPhase::Done, ..self };
                        next.summary(None)
                    }
                },
                _ => self.stop(),
            },
            ContextAddPhase::AwaitLevel => match event {
                OrgEvent::Level(l) => {
                    if can_set_room_context(l) {
                        let c = match self.context {
                            Some(c) => c,
                            None => 0,
                        };
                        (ContextAdd { phase: ContextAddPhase::AwaitAttached, ..self }, OrgAction::AttachRoom(c))
                    } else {
                        self.summary(Some(Attachment::Refused(attach_refusal())))
                    }
                },
                _ => self.stop(),
            },
            ContextAddPhase::AwaitAttached => match event {
                OrgEvent::Attached(previous) => {
                    let a = match previous {
                        Some(p) => Attachment::Replaced(p),
                        None => Attachment::Attached,
                    };
                    self.summary(Some(a))
                },
                _ => self.stop(),
            },
            ContextAddPhase::Done => self.stop(),
        }
    }
}

} // verus!

verus! {

/// The arguments of `contextmod`: the context to change and the changes
/// (with no member lists), with what the command knows before any lookup:
/// the naming rules' verdict on the context's name, and the longest
/// description allowed.
pub struct ContextModRequest {
    pub context: String,
    pub change: Modification,
    pub name_valid: bool,
    pub desc_max_len: usize,
}

pub struct ContextModRequestView {
    pub context: Seq<char>,
    pub change: ModificationView,
    pub name_valid: bool,
    pub desc_max_len: nat,
}

impl View for ContextModRequest {
    type V = ContextModRequestView;

    open spec fn view(&self) -> ContextModRequestView {
        ContextModRequestView {
            context: self.context@,
            change: self.change@,
            name_valid: self.name_valid,
            desc_max_len: self.desc_max_len as nat,
        }
    }
}

/// Where a `contextmod` run stands.
#[derive(Clone, Copy, Debug, PartialEq, Eq, Structural)]
pub enum ContextModPhase {
    Start,
    AwaitContext,
    AwaitSender,
    AwaitMembership,
    AwaitOwner,
    AwaitAdmin,
    AwaitName,
    AwaitUpdated,
    Done,
}

/// A `contextmod` run.
pub struct ContextMod {
    req: ContextModRequest,
    phase: ContextModPhase,
    target: Option<(u64, String, u64, Option<u64>)>,
    is_owner: bool,
    is_admin: bool,
    new_owner: Option<(u64, String, String)>,
    new_admin: Option<Option<(u64, String)>>,
}

/// What a `contextmod` run holds: the request and its phase; the context
/// found (id, name, owner, admin group); whether the sender owns and
/// administers it; the new owner found (id, user, server) and the new admin
/// group (`Some(None)` for its removal).
pub struct ContextModView {
    pub req: ContextModRequestView,
    pub phase: ContextModPhase,
    pub target: Option<(u64, Seq<char>, u64, Option<u64>)>,
    pub is_owner: bool,
    pub is_admin: bool,
    pub new_owner: Option<(u64, Seq<char>, Seq<char>)>,
    pub new_admin: Option<Option<(u64, Seq<char>)>>,
}

impl View for ContextMod {
    type V = ContextModView;

    closed spec fn view(&self) -> ContextModView {
        ContextModView {
            req: self.req@,
            phase: self.phase,
            target: self.target.deep_view(),
            is_owner: self.is_owner,
            is_admin: self.is_admin,
            new_owner: self.new_owner.deep_view(),
            new_admin: self.new_admin.deep_view(),
        }
    }
}

/// The run before its first step.
pub open spec fn contextmod_start(req: ContextModRequestView) -> ContextModView {
    ContextModView {
        req,
        phase: ContextModPhase::Start,
        target: None,
        is_owner: false,
        is_admin: false,
        new_owner: None,
        new_admin: None,
    }
}

/// Stop without a reply.
pub open spec fn contextmod_stop(s: ContextModView) -> (ContextModView, OrgActionView) {
    (ContextModView { phase: ContextModPhase::Done, ..s }, OrgActionView::Finish)
}

/// Stop with a reply.
pub open spec fn contextmod_reply(s: ContextModView, r: ReplyView) -> (ContextModView, OrgActionView) {
    (ContextModView { phase: ContextModPhase::Done, ..s }, OrgActionView::Reply(r))
}

/// The name of the context found.
pub open spec fn context_name(s: ContextModView) -> Seq<char> {
    (s.target->0).1
}

/// Why the changes are refused once the context and the sender's rights are
/// known, if they are.
pub open spec fn contextmod_rejection(s: ContextModView) -> Option<ReplyView> {
    modification_rejection(
        Entity::Context,
        s.req.change,
        context_name(s),
        s.req.name_valid,
        s.req.desc_max_len,
        s.is_owner,
        s.is_admin,
    )
}

/// The changes written to the context.
pub open spec fn context_change(s: ContextModView) -> ChangeView {
    ChangeView {
        target: (s.target->0).0,
        name: s.req.change.new_name,
        desc: s.req.change.new_desc,
        owner: match s.new_owner {
            Some(o) => Some(o.0),
            None => None,
        },
        admin_group: match s.new_admin {
            Some(Some(a)) => Some(Some(a.0)),
            Some(None) => Some(None),
            None => None,
        },
    }
}

/// What the summary of the update shows.
pub open spec fn context_update_view(s: ContextModView) -> ContextUpdateView {
    ContextUpdateView {
        name: context_name(s),
        new_name: s.req.change.new_name,
        new_desc: s.req.change.new_desc,
        new_owner: match s.new_owner {
            Some(o) => Some(o.1 + ":"@ + o.2),
            None => None,
        },
        new_admin_group: match s.new_admin {
            Some(Some(a)) => Some(Some(a.1)),
            Some(None) => Some(None),
            None => None,
        },
    }
}

/// Write the changes.
pub open spec fn update_context(s: ContextModView) -> (ContextModView, OrgActionView) {
    (ContextModView { phase: ContextModPhase::AwaitUpdated, ..s }, OrgActionView::UpdateContext(context_change(s)))
}

/// Look up whether the new name is taken, when it is a new name, or else
/// write the changes.
pub open spec fn context_check_name(s: ContextModView) -> (ContextModView, OrgActionView) {
    if renames(s.req.change.new_name, context_name(s)) {
        (ContextModView { phase: ContextModPhase::AwaitName, ..s }, OrgActionView::FindContext(s.req.change.new_name->0))
    } else {
        update_context(s)
    }
}

/// Settle the admin group: removed, looked up, or left as it is.
pub open spec fn context_check_admin(s: ContextModView) -> (ContextModView, OrgActionView) {
    if s.req.change.remove_admin {
        context_check_name(ContextModView { new_admin: Some(None), ..s })
    } else if s.req.change.new_admin_group is Some {
        (
            ContextModView { phase: ContextModPhase::AwaitAdmin, ..s },
            OrgActionView::FindGroup(s.req.change.new_admin_group->0),
        )
    } else {
        context_check_name(s)
    }
}

/// Look up the new owner, when one is named, or else go on with the admin
/// group.
pub open spec fn context_check_owner(s: ContextModView) -> (ContextModView, OrgActionView) {
    match s.req.change.new_owner {
        Some(o) => {
            let parts = mention_parts(o)->0;
            (ContextModView { phase: ContextModPhase::AwaitOwner, ..s }, OrgActionView::FindUser(parts.0, parts.1))
        },
        None => context_check_admin(s),
    }
}

/// Once the sender's rights are known: refuse, or go on with the owner.
pub open spec fn context_check_rights(s: ContextModView) -> (ContextModView, OrgActionView) {
    match contextmod_rejection(s) {
        Some(r) => contextmod_reply(s, r),
        None => context_check_owner(s),
    }
}

/// One step of `contextmod`: from where the run stands and what the store
/// answered, where it goes and what to do next.
///
/// In order: whether anything is asked; the context; the sender, and whether
/// it owns or administers the context; the checks on the changes; the new
/// owner; the new admin group; whether the new name is free; the update; the
/// summary.
pub open spec fn contextmod_next(s: ContextModView, e: OrgEventView) -> (ContextModView, OrgActionView) {
    match s.phase {
        ContextModPhase::Start => match e {
            OrgEventView::Begin => if asks_nothing(s.req.change) {
                contextmod_reply(s, context_nothing_to_change())
            } else {
                (ContextModView { phase: ContextModPhase::AwaitContext, ..s }, OrgActionView::FindContext(s.req.context))
            },
            _ => contextmod_stop(s),
        },
        ContextModPhase::AwaitContext => match e {
            OrgEventView::Group(None) => contextmod_reply(s, not_found_for_change(Entity::Context, s.req.context)),
            OrgEventView::Group(Some(c)) => (
                ContextModView {
                    phase: ContextModPhase::AwaitSender,
                    target: Some((c.id, c.name, c.owner, c.admin_group)),
                    ..s
                },
                OrgActionView::SenderUser,
            ),
            _ => contextmod_stop(s),
        },
        ContextModPhase::AwaitSender => match e {
            OrgEventView::User(Some(id)) => {
                let owner = id == (s.target->0).2;
                match (s.target->0).3 {
                    Some(admin_group) => if owner {
                        context_check_rights(ContextModView { is_owner: true, is_admin: true, ..s })
                    } else {
                        (
                            ContextModView { phase: ContextModPhase::AwaitMembership, is_owner: false, ..s },
                            OrgActionView::IsMember(id, admin_group),
                        )
                    },
                    None => context_check_rights(ContextModView { is_owner: owner, is_admin: owner, ..s }),
                }
            },
            _ => contextmod_stop(s),
        },
        ContextModPhase::AwaitMembership => match e {
            OrgEventView::Member(b) => context_check_rights(ContextModView { is_admin: b, ..s }),
            _ => contextmod_stop(s),
        },
        ContextModPhase::AwaitOwner => match e {
            OrgEventView::User(Some(id)) => {
                let parts = mention_parts(s.req.change.new_owner->0)->0;
                context_check_admin(ContextModView { new_owner: Some((id, parts.0, parts.1)), ..s })
            },
            OrgEventView::User(None) => contextmod_reply(
                s,
                unknown_owner(Entity::Context, s.req.change.new_owner->0),
            ),
            _ => contextmod_stop(s),
        },
        ContextModPhase::AwaitAdmin => match e {
            OrgEventView::Group(Some(g)) => context_check_name(ContextModView { new_admin: Some(Some((g.id, g.name))), ..s }),
            OrgEventView::Group(None) => contextmod_reply(
                s,
                unknown_admin_group(s.req.change.new_admin_group->0),
            ),
            _ => contextmod_stop(s),
        },
        ContextModPhase::AwaitName => match e {
            OrgEventView::Group(Some(c)) => contextmod_reply(s, name_taken(Entity::Context, false, c.name)),
            OrgEventView::Group(None) => update_context(s),
            _ => contextmod_stop(s),
        },
        ContextModPhase::AwaitUpdated => match e {
            OrgEventView::Updated => contextmod_reply(
                s,
                ReplyView::Html(
                    context_update_plain(context_update_view(s)),
                    context_update_html(context_update_view(s)),
                ),
            ),
            _ => contextmod_stop(s),
        },
        ContextModPhase::Done => contextmod_stop(s),
    }
}

/// Whether a run in this phase has found the context.
pub open spec fn contextmod_located(p: ContextModPhase) -> bool {
    !(p is Start || p is AwaitContext || p is Done)
}

/// Whether a run in this phase has passed the checks on the changes.
pub open spec fn contextmod_accepted(p: ContextModPhase) -> bool {
    contextmod_located(p) && !(p is AwaitSender || p is AwaitMembership)
}

/// The new owner, where one is named, was found.
pub open spec fn context_owner_settled(s: ContextModView) -> bool {
    s.req.change.new_owner is Some ==> s.new_owner is Some
}

/// The admin group is removed when asked, found when named, and otherwise
/// left as it is.
pub open spec fn context_admin_settled(s: ContextModView) -> bool {
    &&& (s.req.change.remove_admin ==> s.new_admin == Some(None::<(u64, Seq<char>)>))
    &&& (!s.req.change.remove_admin && s.req.change.new_admin_group is Some ==> (s.new_admin matches Some(
        Some(_),
    )))
    &&& (!s.req.change.remove_admin && s.req.change.new_admin_group is None ==> s.new_admin is None)
}

/// What every `contextmod` run keeps true.
pub open spec fn contextmod_wf(s: ContextModView) -> bool {
    &&& (contextmod_located(s.phase) ==> s.target is Some)
    &&& (contextmod_accepted(s.phase) ==> contextmod_rejection(s) is None)
    &&& (s.phase is AwaitOwner ==> s.req.change.new_owner is Some && mention_parts(
        s.req.change.new_owner->0,
    ) is Some)
    &&& (s.new_owner is Some ==> s.req.change.new_owner is Some && ((s.new_owner->0).1, (
    s.new_owner->0).2) == mention_parts(s.req.change.new_owner->0)->0)
    &&& (s.phase is AwaitAdmin || s.phase is AwaitName || s.phase is AwaitUpdated ==> context_owner_settled(s))
    &&& (s.phase is AwaitAdmin ==> !s.req.change.remove_admin && s.req.change.new_admin_group is Some
        && s.new_admin is None)
    &&& (s.phase is AwaitName || s.phase is AwaitUpdated ==> context_admin_settled(s))
    &&& (s.phase is AwaitName ==> renames(s.req.change.new_name, context_name(s)))
    &&& (s.phase is Start || s.phase is AwaitContext || s.phase is AwaitSender || s.phase is AwaitMembership
        || s.phase is AwaitOwner ==> s.new_owner is None && s.new_admin is None)
}

/// The context is updated only once every check has passed: the changes
/// pass the checks made once the context and the sender's rights are known,
/// a new owner, where one is named, was found, the admin group was removed or
/// found as asked, and a new name was found free. The update writes the name
/// and description given, the owner found and the admin group settled.
pub proof fn law_contextmod_update_only_when_accepted(s: ContextModView, e: OrgEventView)
    requires
        contextmod_wf(s),
    ensures
        contextmod_next(s, e).1 matches OrgActionView::UpdateContext(c) ==> {
            let n = contextmod_next(s, e).0;
            &&& contextmod_rejection(n) is None
            &&& c == context_change(n)
            &&& context_owner_settled(n)
            &&& context_admin_settled(n)
            &&& (renames(s.req.change.new_name, context_name(n)) ==> s.phase is AwaitName && e
                == OrgEventView::Group(None))
        },
{
    match s.phase {
        ContextModPhase::AwaitSender => {},
        ContextModPhase::AwaitMembership => {},
        ContextModPhase::AwaitOwner => {},
        ContextModPhase::AwaitAdmin => {},
        ContextModPhase::AwaitName => {},
        _ => {},
    }
}


/// A copy of `o`.
fn copy_option(o: &Option<String>) -> (res: Option<String>)
    ensures
        res.deep_view() == o.deep_view(),
{
    match o {
        Some(x) => Some(x.clone()),
        None => None,
    }
}

impl ContextMod {
    #[verifier::type_invariant]
    closed spec fn inv(self) -> bool {
        contextmod_wf(self@)
    }

    /// A run of `contextmod` on `req`, before its first step.
    pub fn new(req: ContextModRequest) -> (res: Self)
        ensures
            res@ == contextmod_start(req@),
    {
        ContextMod {
            req,
            phase: ContextModPhase::Start,
            target: None,
            is_owner: false,
            is_admin: false,
            new_owner: None,
            new_admin: None,
        }
    }

    /// Where the run stands.
    pub fn phase(&self) -> (res: ContextModPhase)
        ensures
            res == self@.phase,
    {
        self.phase
    }

    fn stop(self) -> (res: (Self, OrgAction))
        ensures
            (res.0@, res.1@) == contextmod_stop(self@),
    {
        proof {
            use_type_invariant(&self);
        }
        (ContextMod { phase: ContextModPhase::Done, ..self }, OrgAction::Finish)
    }

    fn reply(self, r: Reply) -> (res: (Self, OrgAction))
        ensures
            (res.0@, res.1@) == contextmod_reply(self@, r@),
    {
        proof {
            use_type_invariant(&self);
        }
        (ContextMod { phase: ContextModPhase::Done, ..self }, OrgAction::Reply(r))
    }

    fn update_context(self) -> (res: (Self, OrgAction))
        requires
            self@.target is Some,
            contextmod_rejection(self@) is None,
            context_owner_settled(self@),
            context_admin_settled(self@),
        ensures
            (res.0@, res.1@) == update_context(self@),
    {
        proof {
            use_type_invariant(&self);
        }
        let change = Change {
            target: match &self.target {
                Some(t) => t.0,
                None => 0,
            },
            name: copy_option(&self.req.change.new_name),
            desc: copy_option(&self.req.change.new_desc),
            owner: match &self.new_owner {
                Some(o) => Some(o.0),
                None => None,
            },
            admin_group: match &self.new_admin {
                Some(Some(a)) => Some(Some(a.0)),
                Some(None) => Some(None),
                None => None,
            },
        };
        (ContextMod { phase: ContextModPhase::AwaitUpdated, ..self }, OrgAction::UpdateContext(change))
    }

    fn check_name(self) -> (res: (Self, OrgAction))
        requires
            self@.target is Some,
            contextmod_rejection(self@) is None,
            context_owner_settled(self@),
            context_admin_settled(self@),
        ensures
            (res.0@, res.1@) == context_check_name(self@),
    {
        proof {
            use_type_invariant(&self);
        }
        let current = match &self.target {
            Some(t) => t.1.clone(),
            None => String::new(),
        };
        if needs_name_check(&self.req.change.new_name, current.as_str()) {
            let n = match &self.req.change.new_name {
                Some(n) => n.clone(),
                None => String::new(),
            };
            (ContextMod { phase: ContextModPhase::AwaitName, ..self }, OrgAction::FindContext(n))
        } else {
            self.update_context()
        }
    }

    fn check_admin(self) -> (res: (Self, OrgAction))
        requires
            self@.target is Some,
            contextmod_rejection(self@) is None,
            context_owner_settled(self@),
            self@.new_admin is None,
        ensures
            (res.0@, res.1@) == context_check_admin(self@),
    {
        proof {
            use_type_invariant(&self);
        }
        if self.req.change.remove_admin {
            let next = ContextMod { new_admin: Some(None), phase: ContextModPhase::Done, ..self };
            next.check_name()
        } else {
            let a = copy_option(&self.req.change.new_admin_group);
            match a {
                Some(a) => (ContextMod { phase: ContextModPhase::AwaitAdmin, ..self }, OrgAction::FindGroup(a)),
                None => self.check_name(),
            }
        }
    }

    fn check_owner(self) -> (res: (Self, OrgAction))
        requires
            self@.target is Some,
            contextmod_rejection(self@) is None,
            self@.new_owner is None,
            self@.new_admin is None,
        ensures
            (res.0@, res.1@) == context_check_owner(self@),
    {
        proof {
            use_type_invariant(&self);
        }
        let parts = match &self.req.change.new_owner {
            Some(o) => Some(parse_mention(o.as_str())),
            None => None,
        };
        match parts {
            Some(Some((u, sv))) => {
                (ContextMod { phase: ContextModPhase::AwaitOwner, ..self }, OrgAction::FindUser(u, sv))
            },
            Some(None) => self.stop(),
            None => self.check_admin(),
        }
    }

    fn check_rights(self) -> (res: (Self, OrgAction))
        requires
            self@.target is Some,
            self@.new_owner is None,
            self@.new_admin is None,
        ensures
            (res.0@, res.1@) == context_check_rights(self@),
    {
        proof {
            use_type_invariant(&self);
        }
        let current = match &self.target {
            Some(t) => t.1.clone(),
            None => String::new(),
        };
        match check_modification(
            Entity::Context,
            &self.req.change,
            current.as_str(),
            self.req.name_valid,
            self.req.desc_max_len,
            self.is_owner,
            self.is_admin,
        ) {
            Some(r) => self.reply(r),
            None => self.check_owner(),
        }
    }

    fn summary(self) -> (res: (Self, OrgAction))
        requires
            self@.target is Some,
        ensures
            (res.0@, res.1@) == contextmod_reply(
                self@,
                ReplyView::Html(
                    context_update_plain(context_update_view(self@)),
                    context_update_html(context_update_view(self@)),
                ),
            ),
    {
        let update = ContextUpdate {
            name: match &self.target {
                Some(t) => t.1.clone(),
                None => String::new(),
            },
            new_name: copy_option(&self.req.change.new_name),
            new_desc: copy_option(&self.req.change.new_desc),
            new_owner: match &self.new_owner {
                Some(o) => {
                    let mut l = o.1.clone();
                    l.append(":");
                    l.append(o.2.as_str());
                    Some(l)
                },
                None => None,
            },
            new_admin_group: match &self.new_admin {
                Some(Some(a)) => Some(Some(a.1.clone())),
                Some(None) => Some(None),
                None => None,
            },
        };
        assert(update@ == context_update_view(self@));
        let (plain, html) = update.summary();
        self.reply(Reply::Html(plain, html))
    }

    /// One step of the run: what the store answered leads to the next state
    /// and the next thing to do.
    pub fn step(self, event: OrgEvent) -> (res: (Self, OrgAction))
        ensures
            (res.0@, res.1@) == contextmod_next(self@, event@),
    {
        proof {
            use_type_invariant(&self);
        }
        match self.phase {
            ContextModPhase::Start => match event {
                OrgEvent::Begin => {
                    if self.req.change.is_empty() {
                        self.reply(context_nothing_to_change_reply())
                    } else {
                        let c = self.req.context.clone();
                        (ContextMod { phase: ContextModPhase::AwaitContext, ..self }, OrgAction::FindContext(c))
                    }
                },
                _ => self.stop(),
            },
            ContextModPhase::AwaitContext => match event {
                OrgEvent::Group(None) => {
                    let r = not_found_for_change_reply(Entity::Context, self.req.context.as_str());
                    self.reply(r)
                },
                OrgEvent::Group(Some(c)) => {
                    let target = Some((c.id, c.name, c.owner, c.admin_group));
                    (ContextMod { phase: ContextModPhase::AwaitSender, target, ..self }, OrgAction::SenderUser)
                },
                _ => self.stop(),
            },
            ContextModPhase::AwaitSender => match event {
                OrgEvent::User(Some(id)) => {
                    let (owner_id, admin_group) = match &self.target {
                        Some(t) => (t.2, t.3),
                        None => (0, None),
                    };
                    let owner = id == owner_id;
                    match admin_group {
                        Some(ag) => if owner {
                            let next = ContextMod { is_owner: true, is_admin: true, phase: ContextModPhase::Done, ..self };
                            next.check_rights()
                        } else {
                            (
                                ContextMod { phase: ContextModPhase::AwaitMembership, is_owner: false, ..self },
                                OrgAction::IsMember(id, ag),
                            )
                        },
                        None => {
                            let next = ContextMod { is_owner: owner, is_admin: owner, phase: ContextModPhase::Done, ..self };
                            next.check_rights()
                        },
                    }
                },
                _ => self.stop(),
            },
            ContextModPhase::AwaitMembership => match event {
                OrgEvent::Member(b) => {
                    let next = ContextMod { is_admin: b, phase: ContextModPhase::Done, ..self };
                    next.check_rights()
                },
                _ => self.stop(),
            },
            ContextModPhase::AwaitOwner => match event {
                OrgEvent::User(Some(id)) => {
                    let parts = match &self.req.change.new_owner {
                        Some(o) => parse_mention(o.as_str()),
                        None => None,
                    };
                    match parts {
                        Some((u, sv)) => {
                            let next = ContextMod { new_owner: Some((id, u, sv)), phase: ContextModPhase::Done, ..self };
                            next.check_admin()
                        },
                        None => self.stop(),
                    }
                },
                OrgEvent::User(None) => {
                    let r = match &self.req.change.new_owner {
                        Some(o) => unknown_owner_reply(Entity::Context, o.as_str()),
                        None => context_nothing_to_change_reply(),
                    };
                    self.reply(r)
                },
                _ => self.stop(),
            },
            ContextModPhase::AwaitAdmin => match event {
                OrgEvent::Group(Some(g)) => {
                    let next = ContextMod { new_admin: Some(Some((g.id, g.name))), phase: ContextModPhase::Done, ..self };
                    next.check_name()
                },
                OrgEvent::Group(None) => {
                    let r = match &self.req.change.new_admin_group {
                        Some(a) => unknown_admin_group_reply(a.as_str()),
                        None => context_nothing_to_change_reply(),
                    };
                    self.reply(r)
                },
                _ => self.stop(),
            },
            ContextModPhase::AwaitName => match event {
                OrgEvent::Group(Some(c)) => {
                    let r = name_taken_reply(Entity::Context, false, c.name.as_str());
                    self.reply(r)
                },
                OrgEvent::Group(None) => self.update_context(),
                _ => self.stop(),
            },
            ContextModPhase::AwaitUpdated => match event {
                OrgEvent::Updated => self.summary(),
                _ => self.stop(),
            },
            ContextModPhase::Done => self.stop(),
        }
    }
}

} // verus!
