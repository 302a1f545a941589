//! The `groupdel` and `contextdel` commands as a sequence of steps: each
//! step takes what the organisation store answered and says what to do next.
use vstd::prelude::*;

use crate::contexts::{context_deletion_html, context_deletion_plain, context_deletion_summary};
use crate::flows::{deletion, deletion_outcome, OrgAction, OrgActionView, OrgEvent, OrgEventView};
use crate::groups::{group_deletion_html, group_deletion_plain, group_deletion_summary, no_group_to_delete, no_group_to_delete_reply};
use crate::org::{distinct, distinct_names, Entity, Reply, ReplyView};

verus! {

/// What a deletion run deletes, and the names it was given.
pub struct DeletionRequest {
    pub entity: Entity,
    pub names: Vec<String>,
}

pub struct DeletionRequestView {
    pub entity: Entity,
    pub names: Seq<Seq<char>>,
}

impl View for DeletionRequest {
    type V = DeletionRequestView;

    open spec fn view(&self) -> DeletionRequestView {
        DeletionRequestView { entity: self.entity, names: self.names.deep_view() }
    }
}

/// Where a deletion run stands.
#[derive(Clone, Copy, Debug, PartialEq, Eq, Structural)]
pub enum DeletionPhase {
    Start,
    AwaitSender,
    AwaitFound(usize),
    AwaitDeleted(usize),
    Done,
}

/// A `groupdel` or `contextdel` run.
pub struct DeletionRun {
    req: DeletionRequest,
    phase: DeletionPhase,
    sender: Option<u64>,
    to_look_up: Vec<String>,
    found: Vec<Option<(String, bool)>>,
}

/// What a deletion run holds: the request, its phase, the sender's id, the
/// distinct names to look up, and for each name looked up so far what was
/// found: its stored name and whether the sender owns it.
pub struct DeletionRunView {
    pub req: DeletionRequestView,
    pub phase: DeletionPhase,
    pub sender: Option<u64>,
    pub to_look_up: Seq<Seq<char>>,
    pub found: Seq<Option<(Seq<char>, bool)>>,
}

impl View for DeletionRun {
    type V = DeletionRunView;

    closed spec fn view(&self) -> DeletionRunView {
        DeletionRunView {
            req: self.req@,
            phase: self.phase,
            sender: self.sender,
            to_look_up: self.to_look_up.deep_view(),
            found: self.found.deep_view(),
        }
    }
}

/// The run before its first step.
pub open spec fn deletion_start(req: DeletionRequestView) -> DeletionRunView {
    DeletionRunView {
        req,
        phase: DeletionPhase::Start,
        sender: None,
        to_look_up: distinct(req.names),
        found: Seq::empty(),
    }
}

/// Stop without a reply.
pub open spec fn deletion_stop(s: DeletionRunView) -> (DeletionRunView, OrgActionView) {
    (DeletionRunView { phase: DeletionPhase::Done, ..s }, OrgActionView::Finish)
}

/// The summary once every name is looked up.
pub open spec fn deletion_summary(s: DeletionRunView) -> ReplyView {
    let o = deletion(s.req.names, s.found);
    match s.req.entity {
        Entity::Group => ReplyView::Html(
            group_deletion_plain(o.deleted, o.not_owner, o.not_found),
            group_deletion_html(o.deleted, o.not_owner, o.not_found),
        ),
        Entity::Context => ReplyView::Html(
            context_deletion_plain(o.deleted, o.not_found, o.not_owner),
            context_deletion_html(o.deleted, o.not_found, o.not_owner),
        ),
    }
}

/// Look up the `k`-th name, or, once all are looked up, reply with the
/// summary.
pub open spec fn look_up_name(s: DeletionRunView, k: int) -> (DeletionRunView, OrgActionView) {
    if k < s.to_look_up.len() {
        (
            DeletionRunView { phase: DeletionPhase::AwaitFound(k as usize), ..s },
            match s.req.entity {
                Entity::Group => OrgActionView::FindGroup(s.to_look_up[k]),
                Entity::Context => OrgActionView::FindContext(s.to_look_up[k]),
            },
        )
    } else {
        (DeletionRunView { phase: DeletionPhase::Done, ..s }, OrgActionView::Reply(deletion_summary(s)))
    }
}

/// One step of a deletion run: from where the run stands and what the store
/// answered, where it goes and what to do next.
///
/// In order: a group deletion without names is refused; the sender; each
/// distinct name, looked up, and deleted right away exactly when the sender
/// owns what was found; the summary.
pub open spec fn deletion_next(s: DeletionRunView, e: OrgEventView) -> (DeletionRunView, OrgActionView) {
    match s.phase {
        DeletionPhase::Start => match e {
            OrgEventView::Begin => if s.req.entity == Entity::Group && s.req.names.len() == 0 {
                (DeletionRunView { phase: DeletionPhase::Done, ..s }, OrgActionView::Reply(no_group_to_delete()))
            } else {
                (DeletionRunView { phase: DeletionPhase::AwaitSender, ..s }, OrgActionView::SenderUser)
            },
            _ => deletion_stop(s),
        },
        DeletionPhase::AwaitSender => match e {
            OrgEventView::User(Some(id)) => look_up_name(DeletionRunView { sender: Some(id), ..s }, 0),
            _ => deletion_stop(s),
        },
        DeletionPhase::AwaitFound(k) => match e {
            OrgEventView::Group(None) => look_up_name(DeletionRunView { found: s.found.push(None), ..s }, k + 1),
            OrgEventView::Group(Some(g)) => {
                let owned = Some(g.owner) == s.sender;
                let n = DeletionRunView { found: s.found.push(Some((g.name, owned))), ..s };
                if owned {
                    (
                        DeletionRunView { phase: DeletionPhase::AwaitDeleted(k), ..n },
                        match s.req.entity {
                            Entity::Group => OrgActionView::DeleteGroup(g.id),
                            Entity::Context => OrgActionView::DeleteContext(g.id),
                        },
                    )
                } else {
                    look_up_name(n, k + 1)
                }
            },
            _ => deletion_stop(s),
        },
        DeletionPhase::AwaitDeleted(k) => match e {
            OrgEventView::Updated => look_up_name(s, k + 1),
            _ => deletion_stop(s),
        },
        DeletionPhase::Done => deletion_stop(s),
    }
}

/// What every deletion run keeps true.
pub open spec fn deletion_wf(s: DeletionRunView) -> bool {
    &&& s.to_look_up == distinct(s.req.names)
    &&& s.to_look_up.len() <= usize::MAX
    &&& (s.phase is Start || s.phase is AwaitSender ==> s.found.len() == 0)
    &&& (s.phase matches DeletionPhase::AwaitFound(k) ==> k < s.to_look_up.len() && s.found.len() == k
        && s.sender is Some)
    &&& (s.phase matches DeletionPhase::AwaitDeleted(k) ==> k < s.to_look_up.len() && s.found.len() == k
        + 1 && s.sender is Some)
}

/// Only what the sender owns is deleted: a deletion is asked for exactly
/// when a lookup found a group or context whose owner is the sender, and it
/// deletes what was found. A group deletion without names is answered with
/// the reply for it, and deletes nothing.
pub proof fn law_deletion_only_owned(s: DeletionRunView, e: OrgEventView)
    requires
        deletion_wf(s),
    ensures
        (deletion_next(s, e).1 is DeleteGroup || deletion_next(s, e).1 is DeleteContext) ==> (
        s.phase is AwaitFound && (e matches OrgEventView::Group(Some(g)) && Some(g.owner)
            == s.sender)),
        s.phase is AwaitFound ==> (e matches OrgEventView::Group(Some(g)) ==> (Some(g.owner) == s.sender
            <==> deletion_next(s, e).1 == match s.req.entity {
            Entity::Group => OrgActionView::DeleteGroup(g.id),
            Entity::Context => OrgActionView::DeleteContext(g.id),
        })),
        s.phase is Start && e == OrgEventView::Begin && s.req.entity == Entity::Group
            && s.req.names.len() == 0 ==> deletion_next(s, e).1 == OrgActionView::Reply(no_group_to_delete()),
{
}

/// Each name looked up is recorded with what was found, and the summary
/// sorts the names by those records.
pub proof fn law_deletion_records(s: DeletionRunView, e: OrgEventView)
    requires
        deletion_wf(s),
    ensures
        s.phase is AwaitFound ==> (e == OrgEventView::Group(None) ==> deletion_next(s, e).0.found
            == s.found.push(None)),
        s.phase is AwaitFound ==> (e matches OrgEventView::Group(Some(g)) ==> deletion_next(
            s,
            e,
        ).0.found == s.found.push(Some((g.name, Some(g.owner) == s.sender)))),
        !(s.phase is Start) ==> (deletion_next(s, e).1 matches OrgActionView::Reply(r) ==> r
            == deletion_summary(deletion_next(s, e).0)),
{
}

impl DeletionRun {
    #[verifier::type_invariant]
    closed spec fn inv(self) -> bool {
        deletion_wf(self@)
    }

    /// A deletion run on `req`, before its first step.
    pub fn new(req: DeletionRequest) -> (res: Self)
        ensures
            res@ == deletion_start(req@),
    {
        let to_look_up = distinct_names(&req.names);
        let n = to_look_up.len();
        assert(to_look_up.deep_view().len() == n);
        let found: Vec<Option<(String, bool)>> = Vec::new();
        assert(found.deep_view() =~= Seq::<Option<(Seq<char>, bool)>>::empty());
        DeletionRun { req, phase: DeletionPhase::Start, sender: None, to_look_up, found }
    }

    /// Where the run stands.
    pub fn phase(&self) -> (res: DeletionPhase)
        ensures
            res == self@.phase,
    {
        self.phase
    }

    fn stop(self) -> (res: (Self, OrgAction))
        ensures
            (res.0@, res.1@) == deletion_stop(self@),
    {
        proof {
            use_type_invariant(&self);
        }
        (DeletionRun { phase: DeletionPhase::Done, ..self }, OrgAction::Finish)
    }

    fn look_up_name(self, k: usize) -> (res: (Self, OrgAction))
        requires
            k <= self@.to_look_up.len(),
            self@.found.len() == k,
            self@.sender is Some,
        ensures
            (res.0@, res.1@) == look_up_name(self@, k as int),
    {
        proof {
            use_type_invariant(&self);
        }
        if k < self.to_look_up.len() {
            let n = self.to_look_up[k].clone();
            let a = match self.req.entity {
                Entity::Group => OrgAction::FindGroup(n),
                Entity::Context => OrgAction::FindContext(n),
            };
            (DeletionRun { phase: DeletionPhase::AwaitFound(k), ..self }, a)
        } else {
            let out = deletion_outcome(&self.req.names, &self.found);
            let (plain, html) = match self.req.entity {
                Entity::Group => group_deletion_summary(&out.deleted, &out.not_owner, &out.not_found),
                Entity::Context => context_deletion_summary(&out.deleted, &out.not_found, &out.not_owner),
            };
            (DeletionRun { phase: DeletionPhase::Done, ..self }, OrgAction::Reply(Reply::Html(plain, html)))
        }
    }

    fn with_found(self, f: Option<(String, bool)>) -> (res: Self)
        requires
            self@.phase is AwaitFound,
        ensures
            res@ == (DeletionRunView {
                found: self@.found.push(
                    match f {
                        Some(x) => Some((x.0@, x.1)),
                        None => None,
                    },
                ),
                phase: DeletionPhase::Done,
                ..self@
            }),
    {
        proof {
            use_type_invariant(&self);
        }
        let ghost fv = match &f {
            Some(x) => Some((x.0@, x.1)),
            None => None::<(Seq<char>, bool)>,
        };
        let DeletionRun { req, phase: _, sender, to_look_up, mut found } = self;
        let ghost before = found.deep_view();
        found.push(f);
        assert(found.deep_view() =~= before.push(fv));
        DeletionRun { req, phase: DeletionPhase::Done, sender, to_look_up, found }
    }

    /// One step of the run: what the store answered leads to the next state
    /// and the next thing to do.
    pub fn step(self, event: OrgEvent) -> (res: (Self, OrgAction))
        ensures
            (res.0@, res.1@) == deletion_next(self@, event@),
    {
        proof {
            use_type_invariant(&self);
        }
        match self.phase {
            DeletionPhase::Start => match event {
                OrgEvent::Begin => {
                    if self.req.entity == Entity::Group && self.req.names.len() == 0 {
                        (DeletionRun { phase: DeletionPhase::Done, ..self }, OrgAction::Reply(no_group_to_delete_reply()))
                    } else {
                        (DeletionRun { phase: DeletionPhase::AwaitSender, ..self }, OrgAction::SenderUser)
                    }
                },
                _ => self.stop(),
            },
            DeletionPhase::AwaitSender => match event {
                OrgEvent::User(Some(id)) => {
                    let next = DeletionRun { sender: Some(id), phase: DeletionPhase::Done, ..self };
                    next.look_up_name(0)
                },
                _ => self.stop(),
            },
            DeletionPhase::AwaitFound(k) => match event {
                OrgEvent::Group(None) => {
                    let next = self.with_found(None);
                    next.look_up_name(k + 1)
                },
                OrgEvent::Group(Some(g)) => {
                    let owned = match self.sender {
                        Some(s) => g.owner == s,
                        None => false,
                    };
                    let entity = self.req.entity;
                    let next = self.with_found(Some((g.name, owned)));
                    if owned {
                        let a = match entity {
                            Entity::Group => OrgAction::DeleteGroup(g.id),
                            Entity::Context => OrgAction::DeleteContext(g.id),
                        };
                        (DeletionRun { phase: DeletionPhase::AwaitDeleted(k), ..next }, a)
                    } else {
                        next.look_up_name(k + 1)
                    }
                },
                _ => self.stop(),
            },
            DeletionPhase::AwaitDeleted(k) => match event {
                OrgEvent::Updated => {
                    let next = DeletionRun { phase: DeletionPhase::Done, ..self };
                    next.look_up_name(k + 1)
                },
                _ => self.stop(),
            },
            DeletionPhase::Done => self.stop(),
        }
    }
}

} // verus!
