//! The `contextset` and `contextunset` commands as sequences of steps: each
//! step takes what the organisation store or the room answered and says what
//! to do next.
use vstd::prelude::*;

use crate::contexts::{
    can_set_room_context, context_set, context_set_not_found, context_set_not_found_reply,
    context_set_reply, context_unset, context_unset_reply, may_set_room_context, no_room_context,
    no_room_context_reply, room_context_refusal, Attachment, AttachmentView,
};
use crate::flows::{OrgAction, OrgActionView, OrgEvent, OrgEventView};
use crate::org::{Reply, ReplyView};

verus! {

/// The reason a sender below the needed room power level is given.
pub open spec fn level_refusal() -> Seq<char> {
    "no permission: require room permission level 100"@
}

/// The argument of `contextset`: the name of the context to give the room.
pub struct ContextSetRequest {
    pub context: String,
}

pub struct ContextSetRequestView {
    pub context: Seq<char>,
}

impl View for ContextSetRequest {
    type V = ContextSetRequestView;

    open spec fn view(&self) -> ContextSetRequestView {
        ContextSetRequestView { context: self.context@ }
    }
}

/// Where a `contextset` run stands.
#[derive(Clone, Copy, Debug, PartialEq, Eq, Structural)]
pub enum ContextSetPhase {
    Start,
    AwaitContext,
    AwaitLevel,
    AwaitAttached,
    Done,
}

/// A `contextset` run.
pub struct ContextSet {
    req: ContextSetRequest,
    phase: ContextSetPhase,
    target: Option<u64>,
}

/// What a `contextset` run holds: the request, its phase and the id of the
/// context found.
pub struct ContextSetView {
    pub req: ContextSetRequestView,
    pub phase: ContextSetPhase,
    pub target: Option<u64>,
}

impl View for ContextSet {
    type V = ContextSetView;

    closed spec fn view(&self) -> ContextSetView {
        ContextSetView { req: self.req@, phase: self.phase, target: self.target }
    }
}

/// The run before its first step.
pub open spec fn contextset_start(req: ContextSetRequestView) -> ContextSetView {
    ContextSetView { req, phase: ContextSetPhase::Start, target: None }
}

/// Stop without a reply.
pub open spec fn contextset_stop(s: ContextSetView) -> (ContextSetView, OrgActionView) {
    (ContextSetView { phase: ContextSetPhase::Done, ..s }, OrgActionView::Finish)
}

/// Stop with a reply.
pub open spec fn contextset_reply(s: ContextSetView, r: ReplyView) -> (ContextSetView, OrgActionView) {
    (ContextSetView { phase: ContextSetPhase::Done, ..s }, OrgActionView::Reply(r))
}

/// One step of `contextset`: from where the run stands and what was
/// answered, where it goes and what to do next.
///
/// In order: the context named, with its reply when there is none; the
/// sender's power level in the room, and the refusal below 100; attaching
/// the room to the context; the reply, naming the context it replaced.
pub open spec fn contextset_next(s: ContextSetView, e: OrgEventView) -> (ContextSetView, OrgActionView) {
    match s.phase {
        ContextSetPhase::Start => match e {
            OrgEventView::Begin => (
                ContextSetView { phase: ContextSetPhase::AwaitContext, ..s },
                OrgActionView::FindContext(s.req.context),
            ),
            _ => contextset_stop(s),
        },
        ContextSetPhase::AwaitContext => match e {
            OrgEventView::Group(None) => contextset_reply(s, context_set_not_found(s.req.context)),
            OrgEventView::Group(Some(c)) => (
                ContextSetView { phase: ContextSetPhase::AwaitLevel, target: Some(c.id), ..s },
                OrgActionView::PowerLevel,
            ),
            _ => contextset_stop(s),
        },
        ContextSetPhase::AwaitLevel => match e {
            OrgEventView::Level(l) => if may_set_room_context(l as int) {
                (
                    ContextSetView { phase: ContextSetPhase::AwaitAttached, ..s },
                    OrgActionView::AttachRoom(s.target->0),
                )
            } else {
                contextset_reply(s, context_set(AttachmentView::Refused(level_refusal())))
            },
            _ => contextset_stop(s),
        },
        ContextSetPhase::AwaitAttached => match e {
            OrgEventView::Attached(p) => contextset_reply(
                s,
                context_set(
                    match p {
                        Some(previous) => AttachmentView::Replaced(previous),
                        None => AttachmentView::Attached,
                    },
                ),
            ),
            _ => contextset_stop(s),
        },
        ContextSetPhase::Done => contextset_stop(s),
    }
}

/// What every `contextset` run keeps true.
pub open spec fn contextset_wf(s: ContextSetView) -> bool {
    s.phase is AwaitLevel || s.phase is AwaitAttached ==> s.target is Some
}

/// The room is attached only to the context named, and only for a sender
/// whose power level in the room is at least 100; below that the sender is
/// refused.
pub proof fn law_contextset_needs_level(s: ContextSetView, e: OrgEventView)
    requires
        contextset_wf(s),
    ensures
        contextset_next(s, e).1 matches OrgActionView::AttachRoom(c) ==> (s.phase is AwaitLevel && s.target
            == Some(c) && (e matches OrgEventView::Level(l) && l >= 100)),
        s.phase is AwaitLevel ==> (e matches OrgEventView::Level(l) ==> (l < 100 <==> contextset_next(
            s,
            e,
        ).1 == OrgActionView::Reply(context_set(AttachmentView::Refused(level_refusal()))))),
        s.phase is AwaitContext ==> (e matches OrgEventView::Group(Some(c)) ==> contextset_next(s, e).0.target
            == Some(c.id)),
{
}

impl ContextSet {
    #[verifier::type_invariant]
    closed spec fn inv(self) -> bool {
        contextset_wf(self@)
    }

    /// A run of `contextset` on `req`, before its first step.
    pub fn new(req: ContextSetRequest) -> (res: Self)
        ensures
            res@ == contextset_start(req@),
    {
        ContextSet { req, phase: ContextSetPhase::Start, target: None }
    }

    /// Where the run stands.
    pub fn phase(&self) -> (res: ContextSetPhase)
        ensures
            res == self@.phase,
    {
        self.phase
    }

    fn stop(self) -> (res: (Self, OrgAction))
        ensures
            (res.0@, res.1@) == contextset_stop(self@),
    {
        (ContextSet { phase: ContextSetPhase::Done, ..self }, OrgAction::Finish)
    }

    fn reply(self, r: Reply) -> (res: (Self, OrgAction))
        ensures
            (res.0@, res.1@) == contextset_reply(self@, r@),
    {
        (ContextSet { phase: ContextSetPhase::Done, ..self }, OrgAction::Reply(r))
    }

    /// One step of the run: what was answered leads to the next state and the
    /// next thing to do.
    pub fn step(self, event: OrgEvent) -> (res: (Self, OrgAction))
        ensures
            (res.0@, res.1@) == contextset_next(self@, event@),
    {
        proof {
            use_type_invariant(&self);
        }
        match self.phase {
            ContextSetPhase::Start => match event {
                OrgEvent::Begin => {
                    let a = OrgAction::FindContext(self.req.context.clone());
                    (ContextSet { phase: ContextSetPhase::AwaitContext, ..self }, a)
                },
                _ => self.stop(),
            },
            ContextSetPhase::AwaitContext => match event {
                OrgEvent::Group(None) => {
                    let r = context_set_not_found_reply(self.req.context.as_str());
                    self.reply(r)
                },
                OrgEvent::Group(Some(c)) => (
                    ContextSet { phase: ContextSetPhase::AwaitLevel, target: Some(c.id), ..self },
                    OrgAction::PowerLevel,
                ),
                _ => self.stop(),
            },
            ContextSetPhase::AwaitLevel => match event {
                OrgEvent::Level(l) => {
                    if can_set_room_context(l) {
                        let c = match self.target {
                            Some(c) => c,
                            None => 0,
                        };
                        (ContextSet { phase: ContextSetPhase::AwaitAttached, ..self }, OrgAction::AttachRoom(c))
                    } else {
                        let r = context_set_reply(&Attachment::Refused(room_context_refusal()));
                        self.reply(r)
                    }
                },
                _ => self.stop(),
            },
            ContextSetPhase::AwaitAttached => match event {
                OrgEvent::Attached(p) => {
                    let outcome = match p {
                        Some(previous) => Attachment::Replaced(previous),
                        None => Attachment::Attached,
                    };
                    let r = context_set_reply(&outcome);
                    self.reply(r)
                },
                _ => self.stop(),
            },
            ContextSetPhase::Done => self.stop(),
        }
    }
}

} // verus!

verus! {

/// Where a `contextunset` run stands.
#[derive(Clone, Copy, Debug, PartialEq, Eq, Structural)]
pub enum ContextUnsetPhase {
    Start,
    AwaitRoom,
    AwaitLevel,
    AwaitDetached,
    Done,
}

/// A `contextunset` run.
pub struct ContextUnset {
    phase: ContextUnsetPhase,
    previous: Option<String>,
}

/// What a `contextunset` run holds: its phase and the name of the room's
/// context.
pub struct ContextUnsetView {
    pub phase: ContextUnsetPhase,
    pub previous: Option<Seq<char>>,
}

impl View for ContextUnset {
    type V = ContextUnsetView;

    closed spec fn view(&self) -> ContextUnsetView {
        ContextUnsetView { phase: self.phase, previous: self.previous.deep_view() }
    }
}

/// The run before its first step.
pub open spec fn contextunset_start() -> ContextUnsetView {
    ContextUnsetView { phase: ContextUnsetPhase::Start, previous: None }
}

/// Stop without a reply.
pub open spec fn contextunset_stop(s: ContextUnsetView) -> (ContextUnsetView, OrgActionView) {
    (ContextUnsetView { phase: ContextUnsetPhase::Done, ..s }, OrgActionView::Finish)
}

/// Stop with a reply.
pub open spec fn contextunset_reply(s: ContextUnsetView, r: ReplyView) -> (ContextUnsetView, OrgActionView) {
    (ContextUnsetView { phase: ContextUnsetPhase::Done, ..s }, OrgActionView::Reply(r))
}

/// One step of `contextunset`: from where the run stands and what was
/// answered, where it goes and what to do next.
///
/// In order: the room's context, with its reply when there is none; the
/// sender's power level in the room, and the refusal below 100; leaving the
/// room without a context; the reply, naming the context it had.
pub open spec fn contextunset_next(s: ContextUnsetView, e: OrgEventView) -> (ContextUnsetView, OrgActionView) {
    match s.phase {
        ContextUnsetPhase::Start => match e {
            OrgEventView::Begin => (
                ContextUnsetView { phase: ContextUnsetPhase::AwaitRoom, ..s },
                OrgActionView::RoomContext,
            ),
            _ => contextunset_stop(s),
        },
        ContextUnsetPhase::AwaitRoom => match e {
            OrgEventView::Group(None) => contextunset_reply(s, no_room_context()),
            OrgEventView::Group(Some(c)) => (
                ContextUnsetView { phase: ContextUnsetPhase::AwaitLevel, previous: Some(c.name), ..s },
                OrgActionView::PowerLevel,
            ),
            _ => contextunset_stop(s),
        },
        ContextUnsetPhase::AwaitLevel => match e {
            OrgEventView::Level(l) => if may_set_room_context(l as int) {
                (ContextUnsetView { phase: ContextUnsetPhase::AwaitDetached, ..s }, OrgActionView::DetachRoom)
            } else {
                contextunset_reply(s, context_unset(Err(level_refusal())))
            },
            _ => contextunset_stop(s),
        },
        ContextUnsetPhase::AwaitDetached => match e {
            OrgEventView::Updated => contextunset_reply(s, context_unset(Ok(s.previous->0))),
            _ => contextunset_stop(s),
        },
        ContextUnsetPhase::Done => contextunset_stop(s),
    }
}

/// What every `contextunset` run keeps true.
pub open spec fn contextunset_wf(s: ContextUnsetView) -> bool {
    s.phase is AwaitLevel || s.phase is AwaitDetached ==> s.previous is Some
}

/// The room's context is removed only when the room has one and the
/// sender's power level in the room is at least 100; the reply then names
/// the context the room had.
pub proof fn law_contextunset_needs_level(s: ContextUnsetView, e: OrgEventView)
    requires
        contextunset_wf(s),
    ensures
        contextunset_next(s, e).1 == OrgActionView::DetachRoom ==> (s.phase is AwaitLevel && s.previous is Some
            && (e matches OrgEventView::Level(l) && l >= 100)),
        s.phase is AwaitLevel ==> (e matches OrgEventView::Level(l) ==> (l < 100 <==> contextunset_next(
            s,
            e,
        ).1 == OrgActionView::Reply(context_unset(Err(level_refusal()))))),
        s.phase is AwaitDetached && e == OrgEventView::Updated ==> contextunset_next(s, e).1
            == OrgActionView::Reply(context_unset(Ok(s.previous->0))),
        s.phase is AwaitRoom && e == OrgEventView::Group(None) ==> contextunset_next(s, e).1
            == OrgActionView::Reply(no_room_context()),
{
}

impl ContextUnset {
    #[verifier::type_invariant]
    closed spec fn inv(self) -> bool {
        contextunset_wf(self@)
    }

    /// A run of `contextunset`, before its first step.
    pub fn new() -> (res: Self)
        ensures
            res@ == contextunset_start(),
    {
        ContextUnset { phase: ContextUnsetPhase::Start, previous: None }
    }

    /// Where the run stands.
    pub fn phase(&self) -> (res: ContextUnsetPhase)
        ensures
            res == self@.phase,
    {
        self.phase
    }

    fn stop(self) -> (res: (Self, OrgAction))
        ensures
            (res.0@, res.1@) == contextunset_stop(self@),
    {
        (ContextUnset { phase: ContextUnsetPhase::Done, ..self }, OrgAction::Finish)
    }

    fn reply(self, r: Reply) -> (res: (Self, OrgAction))
        ensures
            (res.0@, res.1@) == contextunset_reply(self@, r@),
    {
        (ContextUnset { phase: ContextUnsetPhase::Done, ..self }, OrgAction::Reply(r))
    }

    /// One step of the run: what was answered leads to the next state and the
    /// next thing to do.
    pub fn step(self, event: OrgEvent) -> (res: (Self, OrgAction))
        ensures
            (res.0@, res.1@) == contextunset_next(self@, event@),
    {
        proof {
            use_type_invariant(&self);
        }
        match self.phase {
            ContextUnsetPhase::Start => match event {
                OrgEvent::Begin => (ContextUnset { phase: ContextUnsetPhase::AwaitRoom, ..self }, OrgAction::RoomContext),
                _ => self.stop(),
            },
            ContextUnsetPhase::AwaitRoom => match event {
                OrgEvent::Group(None) => self.reply(no_room_context_reply()),
                OrgEvent::Group(Some(c)) => (
                    ContextUnset { phase: ContextUnsetPhase::AwaitLevel, previous: Some(c.name) },
                    OrgAction::PowerLevel,
                ),
                _ => self.stop(),
            },
            ContextUnsetPhase::AwaitLevel => match event {
                OrgEvent::Level(l) => {
                    if can_set_room_context(l) {
                        (ContextUnset { phase: ContextUnsetPhase::AwaitDetached, ..self }, OrgAction::DetachRoom)
                    } else {
                        let r = context_unset_reply(&Err(room_context_refusal()));
                        self.reply(r)
                    }
                },
                _ => self.stop(),
            },
            ContextUnsetPhase::AwaitDetached => match event {
                OrgEvent::Updated => {
                    let previous = match &self.previous {
                        Some(p) => p.clone(),
                        None => String::new(),
                    };
                    let r = context_unset_reply(&Ok(previous));
                    self.reply(r)
                },
                _ => self.stop(),
            },
            ContextUnsetPhase::Done => self.stop(),
        }
    }
}

} // verus!
