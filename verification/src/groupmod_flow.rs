//! The `groupmod` command as a sequence of steps: each step takes what the
//! organisation store answered and says what to do next.
use vstd::prelude::*;

use crate::group_flows::{copy_strings, lemma_wellformed_mentions};
use crate::flows::{Change, ChangeView, OrgAction, OrgActionView, OrgEvent, OrgEventView};
use crate::groups::{
    group_update_html, group_update_plain, nothing_to_change, nothing_to_change_reply, GroupUpdate,
    GroupUpdateView,
};
use crate::org::{
    all_nonempty, asks_nothing, check_modification, mention_parts, modification_rejection,
    name_taken, name_taken_reply, needs_name_check, not_found_for_change,
    not_found_for_change_reply, parse_mention, renames, sort_mentions, sorted_mentions,
    unknown_admin_group, unknown_admin_group_reply, unknown_owner, unknown_owner_reply, Entity,
    Modification, ModificationView, Reply, ReplyView,
};

verus! {

/// The arguments of `groupmod`: the group to change and the changes, with
/// what the command knows before any lookup: the naming rules' verdict on
/// the group's name, and the longest description allowed.
pub struct GroupModRequest {
    pub group: String,
    pub change: Modification,
    pub name_valid: bool,
    pub desc_max_len: usize,
}

pub struct GroupModRequestView {
    pub group: Seq<char>,
    pub change: ModificationView,
    pub name_valid: bool,
    pub desc_max_len: nat,
}

impl View for GroupModRequest {
    type V = GroupModRequestView;

    open spec fn view(&self) -> GroupModRequestView {
        GroupModRequestView {
            group: self.group@,
            change: self.change@,
            name_valid: self.name_valid,
            desc_max_len: self.desc_max_len as nat,
        }
    }
}

/// Where a `groupmod` run stands.
#[derive(Clone, Copy, Debug, PartialEq, Eq, Structural)]
pub enum GroupModPhase {
    Start,
    AwaitGroup,
    AwaitSender,
    AwaitMembership,
    AwaitOwner,
    AwaitAdmin,
    AwaitName,
    AwaitUpdated,
    AwaitAddUser(usize),
    AwaitRemoveUser(usize),
    Adding(usize),
    Removing(usize),
    Done,
}

/// A `groupmod` run.
pub struct GroupMod {
    req: GroupModRequest,
    phase: GroupModPhase,
    target: Option<(u64, String, u64, Option<u64>)>,
    is_owner: bool,
    is_admin: bool,
    new_owner: Option<(u64, String, String)>,
    new_admin: Option<Option<(u64, String)>>,
    add_wellformed: Vec<(String, String, String)>,
    add_malformed: Vec<String>,
    remove_wellformed: Vec<(String, String, String)>,
    remove_malformed: Vec<String>,
    add_found: Vec<(u64, String, String)>,
    missing_add: Vec<String>,
    remove_found: Vec<(u64, String, String)>,
    missing_remove: Vec<String>,
    added: Vec<(String, String)>,
    unchanged_add: Vec<(String, String)>,
    removed: Vec<(String, String)>,
    unchanged_remove: Vec<(String, String)>,
}

/// What a `groupmod` run holds: the request and its phase; the group found
/// (id, name, owner, admin group); whether the sender owns and administers
/// it; the new owner found (id, user, server) and the new admin group
/// (`Some(None)` for its removal); the `-u` and `-r` mentions sorted into
/// well-formed and malformed ones; the users found for them and the mentions
/// of unknown users; and the outcome of each membership change.
pub struct GroupModView {
    pub req: GroupModRequestView,
    pub phase: GroupModPhase,
    pub target: Option<(u64, Seq<char>, u64, Option<u64>)>,
    pub is_owner: bool,
    pub is_admin: bool,
    pub new_owner: Option<(u64, Seq<char>, Seq<char>)>,
    pub new_admin: Option<Option<(u64, Seq<char>)>>,
    pub add_wellformed: Seq<(Seq<char>, Seq<char>, Seq<char>)>,
    pub add_malformed: Seq<Seq<char>>,
    pub remove_wellformed: Seq<(Seq<char>, Seq<char>, Seq<char>)>,
    pub remove_malformed: Seq<Seq<char>>,
    pub add_found: Seq<(u64, Seq<char>, Seq<char>)>,
    pub missing_add: Seq<Seq<char>>,
    pub remove_found: Seq<(u64, Seq<char>, Seq<char>)>,
    pub missing_remove: Seq<Seq<char>>,
    pub added: Seq<(Seq<char>, Seq<char>)>,
    pub unchanged_add: Seq<(Seq<char>, Seq<char>)>,
    pub removed: Seq<(Seq<char>, Seq<char>)>,
    pub unchanged_remove: Seq<(Seq<char>, Seq<char>)>,
}

impl View for GroupMod {
    type V = GroupModView;

    closed spec fn view(&self) -> GroupModView {
        GroupModView {
            req: self.req@,
            phase: self.phase,
            target: self.target.deep_view(),
            is_owner: self.is_owner,
            is_admin: self.is_admin,
            new_owner: self.new_owner.deep_view(),
            new_admin: self.new_admin.deep_view(),
            add_wellformed: self.add_wellformed.deep_view(),
            add_malformed: self.add_malformed.deep_view(),
            remove_wellformed: self.remove_wellformed.deep_view(),
            remove_malformed: self.remove_malformed.deep_view(),
            add_found: self.add_found.deep_view(),
            missing_add: self.missing_add.deep_view(),
            remove_found: self.remove_found.deep_view(),
            missing_remove: self.missing_remove.deep_view(),
            added: self.added.deep_view(),
            unchanged_add: self.unchanged_add.deep_view(),
            removed: self.removed.deep_view(),
            unchanged_remove: self.unchanged_remove.deep_view(),
        }
    }
}

/// The run before its first step.
pub open spec fn groupmod_start(req: GroupModRequestView) -> GroupModView {
    GroupModView {
        req,
        phase: GroupModPhase::Start,
        target: None,
        is_owner: false,
        is_admin: false,
        new_owner: None,
        new_admin: None,
        add_wellformed: sorted_mentions(req.change.add_users).0,
        add_malformed: sorted_mentions(req.change.add_users).1,
        remove_wellformed: sorted_mentions(req.change.remove_users).0,
        remove_malformed: sorted_mentions(req.change.remove_users).1,
        add_found: Seq::empty(),
        missing_add: Seq::empty(),
        remove_found: Seq::empty(),
        missing_remove: Seq::empty(),
        added: Seq::empty(),
        unchanged_add: Seq::empty(),
        removed: Seq::empty(),
        unchanged_remove: Seq::empty(),
    }
}

/// Stop without a reply.
pub open spec fn groupmod_stop(s: GroupModView) -> (GroupModView, OrgActionView) {
    (GroupModView { phase: GroupModPhase::Done, ..s }, OrgActionView::Finish)
}

/// Stop with a reply.
pub open spec fn groupmod_reply(s: GroupModView, r: ReplyView) -> (GroupModView, OrgActionView) {
    (GroupModView { phase: GroupModPhase::Done, ..s }, OrgActionView::Reply(r))
}

/// The name of the group found.
pub open spec fn target_name(s: GroupModView) -> Seq<char> {
    (s.target->0).1
}

/// Why the changes are refused once the group and the sender's rights are
/// known, if they are.
pub open spec fn groupmod_rejection(s: GroupModView) -> Option<ReplyView> {
    modification_rejection(
        Entity::Group,
        s.req.change,
        target_name(s),
        s.req.name_valid,
        s.req.desc_max_len,
        s.is_owner,
        s.is_admin,
    )
}

/// The changes written to the group.
pub open spec fn group_change(s: GroupModView) -> ChangeView {
    ChangeView {
        target: (s.target->0).0,
        name: s.req.change.new_name,
        desc: s.req.change.new_desc,
        owner: match s.new_owner {
            Some(o) => Some(o.0),
            None => None,
        },
        admin_group: match s.new_admin {
            Some(Some(a)) => Some(Some(a.0)),
            Some(None) => Some(None),
            None => None,
        },
    }
}

/// Write the changes.
pub open spec fn update_group(s: GroupModView) -> (GroupModView, OrgActionView) {
    (GroupModView { phase: GroupModPhase::AwaitUpdated, ..s }, OrgActionView::UpdateGroup(group_change(s)))
}

/// Look up whether the new name is taken, when it is a new name, or else
/// write the changes.
pub open spec fn check_name(s: GroupModView) -> (GroupModView, OrgActionView) {
    if renames(s.req.change.new_name, target_name(s)) {
        (GroupModView { phase: GroupModPhase::AwaitName, ..s }, OrgActionView::FindGroup(s.req.change.new_name->0))
    } else {
        update_group(s)
    }
}

/// Settle the admin group: removed, looked up, or left as it is.
pub open spec fn check_admin(s: GroupModView) -> (GroupModView, OrgActionView) {
    if s.req.change.remove_admin {
        check_name(GroupModView { new_admin: Some(None), ..s })
    } else if s.req.change.new_admin_group is Some {
        (
            GroupModView { phase: GroupModPhase::AwaitAdmin, ..s },
            OrgActionView::FindGroup(s.req.change.new_admin_group->0),
        )
    } else {
        check_name(s)
    }
}

/// Look up the new owner, when one is named, or else go on with the admin
/// group.
pub open spec fn check_owner(s: GroupModView) -> (GroupModView, OrgActionView) {
    match s.req.change.new_owner {
        Some(o) => {
            let parts = mention_parts(o)->0;
            (GroupModView { phase: GroupModPhase::AwaitOwner, ..s }, OrgActionView::FindUser(parts.0, parts.1))
        },
        None => check_admin(s),
    }
}

/// Once the sender's rights are known: refuse, or go on with the owner.
pub open spec fn check_rights(s: GroupModView) -> (GroupModView, OrgActionView) {
    match groupmod_rejection(s) {
        Some(r) => groupmod_reply(s, r),
        None => check_owner(s),
    }
}

/// What the summary of the update shows.
pub open spec fn update_view(s: GroupModView) -> GroupUpdateView {
    GroupUpdateView {
        name: target_name(s),
        new_name: s.req.change.new_name,
        new_desc: s.req.change.new_desc,
        new_owner: match s.new_owner {
            Some(o) => Some((o.1, o.2)),
            None => None,
        },
        new_admin_group: match s.new_admin {
            Some(Some(a)) => Some(Some(a.1)),
            Some(None) => Some(None),
            None => None,
        },
        added: s.added,
        malformed_add: s.add_malformed,
        missing_add: s.missing_add,
        unchanged_add: s.unchanged_add,
        removed: s.removed,
        malformed_remove: s.remove_malformed,
        unchanged_remove: s.unchanged_remove,
        missing_remove: s.missing_remove,
    }
}

/// The reply once every change is made.
pub open spec fn update_summary(s: GroupModView) -> ReplyView {
    ReplyView::Html(group_update_plain(update_view(s)), group_update_html(update_view(s)))
}

/// Remove the `k`-th user found for `-r`, or, once all are removed, reply
/// with the summary.
pub open spec fn remove_members(s: GroupModView, k: int) -> (GroupModView, OrgActionView) {
    if k < s.remove_found.len() {
        (
            GroupModView { phase: GroupModPhase::Removing(k as usize), ..s },
            OrgActionView::RemoveMember(s.remove_found[k].0, (s.target->0).0),
        )
    } else {
        groupmod_reply(s, update_summary(s))
    }
}

/// Add the `k`-th user found for `-u`, or, once all are added, go on with the
/// removals.
pub open spec fn add_members(s: GroupModView, k: int) -> (GroupModView, OrgActionView) {
    if k < s.add_found.len() {
        (
            GroupModView { phase: GroupModPhase::Adding(k as usize), ..s },
            OrgActionView::AddMember(s.add_found[k].0, (s.target->0).0),
        )
    } else {
        remove_members(s, 0)
    }
}

/// Look up the `k`-th well-formed `-r` mention, or, once all are looked up,
/// start the additions.
pub open spec fn look_up_removals(s: GroupModView, k: int) -> (GroupModView, OrgActionView) {
    if k < s.remove_wellformed.len() {
        (
            GroupModView { phase: GroupModPhase::AwaitRemoveUser(k as usize), ..s },
            OrgActionView::FindUser(s.remove_wellformed[k].1, s.remove_wellformed[k].2),
        )
    } else {
        add_members(s, 0)
    }
}

/// Look up the `k`-th well-formed `-u` mention, or, once all are looked up,
/// the `-r` ones.
pub open spec fn look_up_additions(s: GroupModView, k: int) -> (GroupModView, OrgActionView) {
    if k < s.add_wellformed.len() {
        (
            GroupModView { phase: GroupModPhase::AwaitAddUser(k as usize), ..s },
            OrgActionView::FindUser(s.add_wellformed[k].1, s.add_wellformed[k].2),
        )
    } else {
        look_up_removals(s, 0)
    }
}

/// One step of `groupmod`: from where the run stands and what the store
/// answered, where it goes and what to do next.
///
/// In order: whether anything is asked; the group; the sender, and whether
/// it owns or administers the group; the checks on the changes; the new
/// owner; the new admin group; whether the new name is free; the update; the
/// users named with `-u`, then with `-r`; one membership change each; the
/// summary.
pub open spec fn groupmod_next(s: GroupModView, e: OrgEventView) -> (GroupModView, OrgActionView) {
    match s.phase {
        GroupModPhase::Start => match e {
            OrgEventView::Begin => if asks_nothing(s.req.change) {
                groupmod_reply(s, nothing_to_change())
            } else {
                (GroupModView { phase: GroupModPhase::AwaitGroup, ..s }, OrgActionView::FindGroup(s.req.group))
            },
            _ => groupmod_stop(s),
        },
        GroupModPhase::AwaitGroup => match e {
            OrgEventView::Group(None) => groupmod_reply(s, not_found_for_change(Entity::Group, s.req.group)),
            OrgEventView::Group(Some(g)) => (
                GroupModView {
                    phase: GroupModPhase::AwaitSender,
                    target: Some((g.id, g.name, g.owner, g.admin_group)),
                    ..s
                },
                OrgActionView::SenderUser,
            ),
            _ => groupmod_stop(s),
        },
        GroupModPhase::AwaitSender => match e {
            OrgEventView::User(Some(id)) => {
                let owner = id == (s.target->0).2;
                match (s.target->0).3 {
                    Some(admin_group) => if owner {
                        check_rights(GroupModView { is_owner: true, is_admin: true, ..s })
                    } else {
                        (
                            GroupModView { phase: GroupModPhase::AwaitMembership, is_owner: false, ..s },
                            OrgActionView::IsMember(id, admin_group),
                        )
                    },
                    None => check_rights(GroupModView { is_owner: owner, is_admin: owner, ..s }),
                }
            },
            _ => groupmod_stop(s),
        },
        GroupModPhase::AwaitMembership => match e {
            OrgEventView::Member(b) => check_rights(GroupModView { is_admin: b, ..s }),
            _ => groupmod_stop(s),
        },
        GroupModPhase::AwaitOwner => match e {
            OrgEventView::User(Some(id)) => {
                let parts = mention_parts(s.req.change.new_owner->0)->0;
                check_admin(GroupModView { new_owner: Some((id, parts.0, parts.1)), ..s })
            },
            OrgEventView::User(None) => groupmod_reply(
                s,
                unknown_owner(Entity::Group, s.req.change.new_owner->0),
            ),
            _ => groupmod_stop(s),
        },
        GroupModPhase::AwaitAdmin => match e {
            OrgEventView::Group(Some(g)) => check_name(GroupModView { new_admin: Some(Some((g.id, g.name))), ..s }),
            OrgEventView::Group(None) => groupmod_reply(
                s,
                unknown_admin_group(s.req.change.new_admin_group->0),
            ),
            _ => groupmod_stop(s),
        },
        GroupModPhase::AwaitName => match e {
            OrgEventView::Group(Some(g)) => groupmod_reply(s, name_taken(Entity::Group, false, g.name)),
            OrgEventView::Group(None) => update_group(s),
            _ => groupmod_stop(s),
        },
        GroupModPhase::AwaitUpdated => match e {
            OrgEventView::Updated => look_up_additions(s, 0),
            _ => groupmod_stop(s),
        },
        GroupModPhase::AwaitAddUser(k) => match e {
            OrgEventView::User(Some(id)) => look_up_additions(
                GroupModView {
                    add_found: s.add_found.push(
                        (id, s.add_wellformed[k as int].1, s.add_wellformed[k as int].2),
                    ),
                    ..s
                },
                k + 1,
            ),
            OrgEventView::User(None) => look_up_additions(
                GroupModView { missing_add: s.missing_add.push(s.add_wellformed[k as int].0), ..s },
                k + 1,
            ),
            _ => groupmod_stop(s),
        },
        GroupModPhase::AwaitRemoveUser(k) => match e {
            OrgEventView::User(Some(id)) => look_up_removals(
                GroupModView {
                    remove_found: s.remove_found.push(
                        (id, s.remove_wellformed[k as int].1, s.remove_wellformed[k as int].2),
                    ),
                    ..s
                },
                k + 1,
            ),
            OrgEventView::User(None) => look_up_removals(
                GroupModView {
                    missing_remove: s.missing_remove.push(s.remove_wellformed[k as int].0),
                    ..s
                },
                k + 1,
            ),
            _ => groupmod_stop(s),
        },
        GroupModPhase::Adding(k) => match e {
            OrgEventView::Changed(true) => add_members(
                GroupModView {
                    added: s.added.push((s.add_found[k as int].1, s.add_found[k as int].2)),
                    ..s
                },
                k + 1,
            ),
            OrgEventView::Changed(false) => add_members(
                GroupModView {
                    unchanged_add: s.unchanged_add.push(
                        (s.add_found[k as int].1, s.add_found[k as int].2),
                    ),
                    ..s
                },
                k + 1,
            ),
            _ => groupmod_stop(s),
        },
        GroupModPhase::Removing(k) => match e {
            OrgEventView::Changed(true) => remove_members(
                GroupModView {
                    removed: s.removed.push((s.remove_found[k as int].1, s.remove_found[k as int].2)),
                    ..s
                },
                k + 1,
            ),
            OrgEventView::Changed(false) => remove_members(
                GroupModView {
                    unchanged_remove: s.unchanged_remove.push(
                        (s.remove_found[k as int].1, s.remove_found[k as int].2),
                    ),
                    ..s
                },
                k + 1,
            ),
            _ => groupmod_stop(s),
        },
        GroupModPhase::Done => groupmod_stop(s),
    }
}


/// Whether a run in this phase has found the group.
pub open spec fn groupmod_located(p: GroupModPhase) -> bool {
    !(p is Start || p is AwaitGroup || p is Done)
}

/// Whether a run in this phase has passed the checks on the changes.
pub open spec fn groupmod_accepted(p: GroupModPhase) -> bool {
    groupmod_located(p) && !(p is AwaitSender || p is AwaitMembership)
}

/// Whether a run in this phase has settled the new owner.
pub open spec fn groupmod_owner_done(p: GroupModPhase) -> bool {
    groupmod_accepted(p) && !(p is AwaitOwner)
}

/// Whether a run in this phase has settled the admin group.
pub open spec fn groupmod_admin_done(p: GroupModPhase) -> bool {
    groupmod_owner_done(p) && !(p is AwaitAdmin)
}

/// Whether a run in this phase has written the changes.
pub open spec fn groupmod_updated(p: GroupModPhase) -> bool {
    groupmod_admin_done(p) && !(p is AwaitName || p is AwaitUpdated)
}

/// Whether a run in this phase has not yet looked up the users to add.
pub open spec fn groupmod_before_update(p: GroupModPhase) -> bool {
    p is Start || p is AwaitGroup || p is AwaitSender || p is AwaitMembership || p is AwaitOwner
        || p is AwaitAdmin || p is AwaitName || p is AwaitUpdated
}

/// The new owner, where one is named, is the user found for its mention.
pub open spec fn owner_settled(s: GroupModView) -> bool {
    s.req.change.new_owner is Some ==> s.new_owner is Some
}

/// The admin group is removed when asked, found when named, and otherwise
/// left as it is.
pub open spec fn admin_settled(s: GroupModView) -> bool {
    &&& (s.req.change.remove_admin ==> s.new_admin == Some(None::<(u64, Seq<char>)>))
    &&& (!s.req.change.remove_admin && s.req.change.new_admin_group is Some ==> (s.new_admin matches Some(
        Some(_),
    )))
    &&& (!s.req.change.remove_admin && s.req.change.new_admin_group is None ==> s.new_admin is None)
}

/// What every `groupmod` run keeps true.
pub open spec fn groupmod_wf(s: GroupModView) -> bool {
    &&& (s.add_wellformed, s.add_malformed) == sorted_mentions(s.req.change.add_users)
    &&& (s.remove_wellformed, s.remove_malformed) == sorted_mentions(s.req.change.remove_users)
    &&& all_nonempty(s.missing_add)
    &&& all_nonempty(s.missing_remove)
    &&& s.add_wellformed.len() <= usize::MAX
    &&& s.remove_wellformed.len() <= usize::MAX
    &&& s.add_found.len() <= usize::MAX
    &&& s.remove_found.len() <= usize::MAX
    &&& (groupmod_located(s.phase) ==> s.target is Some)
    &&& (groupmod_accepted(s.phase) ==> groupmod_rejection(s) is None)
    &&& (s.phase is AwaitOwner ==> s.req.change.new_owner is Some && mention_parts(
        s.req.change.new_owner->0,
    ) is Some)
    &&& (s.new_owner is Some ==> s.req.change.new_owner is Some && ((s.new_owner->0).1, (
    s.new_owner->0).2) == mention_parts(s.req.change.new_owner->0)->0)
    &&& (groupmod_owner_done(s.phase) ==> owner_settled(s))
    &&& (s.phase is AwaitAdmin ==> !s.req.change.remove_admin && s.req.change.new_admin_group is Some)
    &&& (groupmod_admin_done(s.phase) ==> admin_settled(s))
    &&& (s.phase is AwaitName ==> renames(s.req.change.new_name, target_name(s)))
    &&& (groupmod_before_update(s.phase) ==> s.add_found.len() == 0 && s.missing_add.len() == 0)
    &&& (groupmod_before_update(s.phase) || s.phase is AwaitAddUser ==> s.remove_found.len() == 0
        && s.missing_remove.len() == 0)
    &&& (groupmod_before_update(s.phase) && !groupmod_owner_done(s.phase) ==> s.new_owner is None
        && s.new_admin is None)
    &&& (s.phase is AwaitAdmin ==> s.new_admin is None)
    &&& (s.phase matches GroupModPhase::AwaitAddUser(k) ==> k < s.add_wellformed.len()
        && s.add_found.len() + s.missing_add.len() == k)
    &&& (s.phase matches GroupModPhase::AwaitRemoveUser(k) ==> k < s.remove_wellformed.len()
        && s.remove_found.len() + s.missing_remove.len() == k)
    &&& (s.phase matches GroupModPhase::Adding(k) ==> k < s.add_found.len())
    &&& (s.phase matches GroupModPhase::Removing(k) ==> k < s.remove_found.len())
}


/// The group is updated only once every check has passed: the changes pass
/// the checks made once the group and the sender's rights are known, a new
/// owner, where one is named, was found, the admin group was removed or
/// found as asked, and a new name was found free. The update writes the
/// name and description given, the owner found and the admin group settled.
pub proof fn law_groupmod_update_only_when_accepted(s: GroupModView, e: OrgEventView)
    requires
        groupmod_wf(s),
    ensures
        groupmod_next(s, e).1 matches OrgActionView::UpdateGroup(c) ==> {
            let n = groupmod_next(s, e).0;
            &&& groupmod_rejection(n) is None
            &&& c == group_change(n)
            &&& owner_settled(n)
            &&& admin_settled(n)
            &&& (n.new_owner is Some ==> ((n.new_owner->0).1, (n.new_owner->0).2) == mention_parts(
                s.req.change.new_owner->0,
            )->0)
            &&& (renames(s.req.change.new_name, target_name(n)) ==> s.phase is AwaitName && e
                == OrgEventView::Group(None))
        },
{
    match s.phase {
        GroupModPhase::AwaitSender => {},
        GroupModPhase::AwaitMembership => {},
        GroupModPhase::AwaitOwner => {},
        GroupModPhase::AwaitAdmin => {},
        GroupModPhase::AwaitName => {},
        _ => {},
    }
}

/// Only the users found for the `-u` mentions are added, and only those found
/// for the `-r` mentions are removed, each once and in turn, always to or
/// from the group found: a user found is recorded, an unknown one is
/// reported as missing.
pub proof fn law_groupmod_memberships(s: GroupModView, e: OrgEventView)
    requires
        groupmod_wf(s),
    ensures
        groupmod_next(s, e).1 matches OrgActionView::AddMember(user, group) ==> {
            let n = groupmod_next(s, e).0;
            &&& n.phase matches GroupModPhase::Adding(k) && k < n.add_found.len() && user
                == n.add_found[k as int].0
            &&& group == (n.target->0).0
        },
        groupmod_next(s, e).1 matches OrgActionView::RemoveMember(user, group) ==> {
            let n = groupmod_next(s, e).0;
            &&& n.phase matches GroupModPhase::Removing(k) && k < n.remove_found.len() && user
                == n.remove_found[k as int].0
            &&& group == (n.target->0).0
        },
        s.phase matches GroupModPhase::AwaitAddUser(k) ==> (e matches OrgEventView::User(Some(id))
            ==> groupmod_next(s, e).0.add_found == s.add_found.push(
            (id, s.add_wellformed[k as int].1, s.add_wellformed[k as int].2),
        )),
        s.phase matches GroupModPhase::AwaitAddUser(k) ==> (e == OrgEventView::User(None)
            ==> groupmod_next(s, e).0.missing_add == s.missing_add.push(s.add_wellformed[k as int].0)),
        s.phase matches GroupModPhase::AwaitRemoveUser(k) ==> (e matches OrgEventView::User(Some(id))
            ==> groupmod_next(s, e).0.remove_found == s.remove_found.push(
            (id, s.remove_wellformed[k as int].1, s.remove_wellformed[k as int].2),
        )),
        s.phase matches GroupModPhase::AwaitRemoveUser(k) ==> (e == OrgEventView::User(None)
            ==> groupmod_next(s, e).0.missing_remove == s.missing_remove.push(
            s.remove_wellformed[k as int].0,
        )),
{
    match s.phase {
        GroupModPhase::AwaitUpdated => {},
        GroupModPhase::AwaitAddUser(k) => {},
        GroupModPhase::AwaitRemoveUser(k) => {},
        GroupModPhase::Adding(k) => {},
        GroupModPhase::Removing(k) => {},
        _ => {},
    }
}

/// Each membership change is recorded as made or as changing nothing.
pub proof fn law_groupmod_summary(s: GroupModView, e: OrgEventView)
    requires
        groupmod_wf(s),
    ensures
        s.phase matches GroupModPhase::Adding(k) ==> (e == OrgEventView::Changed(true)
            ==> groupmod_next(s, e).0.added == s.added.push(
            (s.add_found[k as int].1, s.add_found[k as int].2),
        )),
        s.phase matches GroupModPhase::Adding(k) ==> (e == OrgEventView::Changed(false)
            ==> groupmod_next(s, e).0.unchanged_add == s.unchanged_add.push(
            (s.add_found[k as int].1, s.add_found[k as int].2),
        )),
        s.phase matches GroupModPhase::Removing(k) ==> (e == OrgEventView::Changed(true)
            ==> groupmod_next(s, e).0.removed == s.removed.push(
            (s.remove_found[k as int].1, s.remove_found[k as int].2),
        )),
        s.phase matches GroupModPhase::Removing(k) ==> (e == OrgEventView::Changed(false)
            ==> groupmod_next(s, e).0.unchanged_remove == s.unchanged_remove.push(
            (s.remove_found[k as int].1, s.remove_found[k as int].2),
        )),
{
    match s.phase {
        GroupModPhase::Adding(k) => {},
        GroupModPhase::Removing(k) => {},
        _ => {},
    }
}

/// Once the changes are written, the only reply is the summary of what was
/// recorded.
#[verifier::rlimit(40)]
pub proof fn law_groupmod_reply_is_summary(s: GroupModView, e: OrgEventView)
    requires
        groupmod_wf(s),
        s.phase is AwaitUpdated || groupmod_updated(s.phase),
    ensures
        groupmod_next(s, e).1 matches OrgActionView::Reply(r) ==> r == update_summary(
            groupmod_next(s, e).0,
        ),
{
    match s.phase {
        GroupModPhase::AwaitUpdated => {},
        GroupModPhase::AwaitAddUser(k) => {},
        GroupModPhase::AwaitRemoveUser(k) => {},
        GroupModPhase::Adding(k) => {},
        GroupModPhase::Removing(k) => {},
        _ => {},
    }
}

/// A copy of `v`.
fn copy_pairs(v: &Vec<(String, String)>) -> (res: Vec<(String, String)>)
    ensures
        res.deep_view() == v.deep_view(),
{
    let mut res: Vec<(String, String)> = Vec::new();
    let mut i: usize = 0;
    while i < v.len()
        invariant
            i <= v@.len(),
            res.deep_view() == v.deep_view().take(i as int),
        decreases v.len() - i,
    {
        let ghost prev = res.deep_view();
        assert(v.deep_view()[i as int] == (v@[i as int].0@, v@[i as int].1@));
        res.push((v[i].0.clone(), v[i].1.clone()));
        assert(res.deep_view() =~= v.deep_view().take(i + 1)) by {
            assert(res.deep_view() =~= prev.push((v@[i as int].0@, v@[i as int].1@)));
        }
        i = i + 1;
    }
    assert(v.deep_view().take(v@.len() as int) =~= v.deep_view());
    res
}

/// A copy of `o`.
fn copy_option(o: &Option<String>) -> (res: Option<String>)
    ensures
        res.deep_view() == o.deep_view(),
{
    match o {
        Some(x) => Some(x.clone()),
        None => None,
    }
}

/// Appends `x` to `v`, keeping every text non-empty.
fn push_nonempty(v: &mut Vec<String>, x: String)
    requires
        all_nonempty(old(v).deep_view()),
        x@.len() > 0,
    ensures
        final(v).deep_view() == old(v).deep_view().push(x@),
        all_nonempty(final(v).deep_view()),
{
    let ghost before = v.deep_view();
    let ghost xv = x@;
    v.push(x);
    assert(v.deep_view() =~= before.push(xv));
    assert forall|i: int| 0 <= i < v.deep_view().len() implies (#[trigger] v.deep_view()[i]).len() > 0 by {
        if i < before.len() {
            assert(v.deep_view()[i] == before[i]);
        }
    }
}

/// Appends a found user to `v`.
fn push_found(v: &mut Vec<(u64, String, String)>, id: u64, user: &String, server: &String)
    ensures
        final(v).deep_view() == old(v).deep_view().push((id, user@, server@)),
        final(v).deep_view().len() <= usize::MAX,
{
    let ghost before = v.deep_view();
    v.push((id, user.clone(), server.clone()));
    assert(v.deep_view() =~= before.push((id, user@, server@)));
    let n = v.len();
    assert(v.deep_view().len() == n);
}

/// Appends a user and server to `v`.
fn push_pair(v: &mut Vec<(String, String)>, user: &String, server: &String)
    ensures
        final(v).deep_view() == old(v).deep_view().push((user@, server@)),
{
    let ghost before = v.deep_view();
    v.push((user.clone(), server.clone()));
    assert(v.deep_view() =~= before.push((user@, server@)));
}

impl GroupMod {
    #[verifier::type_invariant]
    closed spec fn inv(self) -> bool {
        groupmod_wf(self@)
    }

    /// A run of `groupmod` on `req`, before its first step.
    pub fn new(req: GroupModRequest) -> (res: Self)
        ensures
            res@ == groupmod_start(req@),
    {
        let add = sort_mentions(&req.change.add_users);
        let remove = sort_mentions(&req.change.remove_users);
        let n1 = add.wellformed.len();
        let n2 = remove.wellformed.len();
        assert(add.wellformed.deep_view().len() == n1);
        assert(remove.wellformed.deep_view().len() == n2);
        let add_found: Vec<(u64, String, String)> = Vec::new();
        let remove_found: Vec<(u64, String, String)> = Vec::new();
        let missing_add: Vec<String> = Vec::new();
        let missing_remove: Vec<String> = Vec::new();
        let added: Vec<(String, String)> = Vec::new();
        let unchanged_add: Vec<(String, String)> = Vec::new();
        let removed: Vec<(String, String)> = Vec::new();
        let unchanged_remove: Vec<(String, String)> = Vec::new();
        assert(add_found.deep_view() =~= Seq::<(u64, Seq<char>, Seq<char>)>::empty());
        assert(remove_found.deep_view() =~= Seq::<(u64, Seq<char>, Seq<char>)>::empty());
        assert(missing_add.deep_view() =~= Seq::<Seq<char>>::empty());
        assert(missing_remove.deep_view() =~= Seq::<Seq<char>>::empty());
        assert(added.deep_view() =~= Seq::<(Seq<char>, Seq<char>)>::empty());
        assert(unchanged_add.deep_view() =~= Seq::<(Seq<char>, Seq<char>)>::empty());
        assert(removed.deep_view() =~= Seq::<(Seq<char>, Seq<char>)>::empty());
        assert(unchanged_remove.deep_view() =~= Seq::<(Seq<char>, Seq<char>)>::empty());
        GroupMod {
            req,
            phase: GroupModPhase::Start,
            target: None,
            is_owner: false,
            is_admin: false,
            new_owner: None,
            new_admin: None,
            add_wellformed: add.wellformed,
            add_malformed: add.malformed,
            remove_wellformed: remove.wellformed,
            remove_malformed: remove.malformed,
            add_found,
            missing_add,
            remove_found,
            missing_remove,
            added,
            unchanged_add,
            removed,
            unchanged_remove,
        }
    }

    /// Where the run stands.
    pub fn phase(&self) -> (res: GroupModPhase)
        ensures
            res == self@.phase,
    {
        self.phase
    }

    fn stop(self) -> (res: (Self, OrgAction))
        ensures
            (res.0@, res.1@) == groupmod_stop(self@),
    {
        proof {
            use_type_invariant(&self);
        }
        (GroupMod { phase: GroupModPhase::Done, ..self }, OrgAction::Finish)
    }

    fn reply(self, r: Reply) -> (res: (Self, OrgAction))
        ensures
            (res.0@, res.1@) == groupmod_reply(self@, r@),
    {
        proof {
            use_type_invariant(&self);
        }
        (GroupMod { phase: GroupModPhase::Done, ..self }, OrgAction::Reply(r))
    }

    fn target_id(&self) -> (res: u64)
        requires
            self@.target is Some,
        ensures
            res == (self@.target->0).0,
    {
        match &self.target {
            Some(t) => t.0,
            None => 0,
        }
    }

    fn remove_members(self, k: usize) -> (res: (Self, OrgAction))
        requires
            self@.target is Some,
            k <= self@.remove_found.len(),
            groupmod_rejection(self@) is None,
            owner_settled(self@),
            admin_settled(self@),
        ensures
            (res.0@, res.1@) == remove_members(self@, k as int),
    {
        proof {
            use_type_invariant(&self);
        }
        let gid = self.target_id();
        if k < self.remove_found.len() {
            let a = OrgAction::RemoveMember(self.remove_found[k].0, gid);
            (GroupMod { phase: GroupModPhase::Removing(k), ..self }, a)
        } else {
            let name = match &self.target {
                Some(t) => t.1.clone(),
                None => String::new(),
            };
            let summary = GroupUpdate {
                name,
                new_name: copy_option(&self.req.change.new_name),
                new_desc: copy_option(&self.req.change.new_desc),
                new_owner: match &self.new_owner {
                    Some(o) => Some((o.1.clone(), o.2.clone())),
                    None => None,
                },
                new_admin_group: match &self.new_admin {
                    Some(Some(a)) => Some(Some(a.1.clone())),
                    Some(None) => Some(None),
                    None => None,
                },
                added: copy_pairs(&self.added),
                malformed_add: copy_strings(&self.add_malformed),
                missing_add: copy_strings(&self.missing_add),
                unchanged_add: copy_pairs(&self.unchanged_add),
                removed: copy_pairs(&self.removed),
                malformed_remove: copy_strings(&self.remove_malformed),
                unchanged_remove: copy_pairs(&self.unchanged_remove),
                missing_remove: copy_strings(&self.missing_remove),
            };
            assert(summary@ == update_view(self@));
            let (plain, html) = summary.summary();
            self.reply(Reply::Html(plain, html))
        }
    }

    fn add_members(self, k: usize) -> (res: (Self, OrgAction))
        requires
            self@.target is Some,
            k <= self@.add_found.len(),
            groupmod_rejection(self@) is None,
            owner_settled(self@),
            admin_settled(self@),
        ensures
            (res.0@, res.1@) == add_members(self@, k as int),
    {
        proof {
            use_type_invariant(&self);
        }
        let gid = self.target_id();
        if k < self.add_found.len() {
            let a = OrgAction::AddMember(self.add_found[k].0, gid);
            (GroupMod { phase: GroupModPhase::Adding(k), ..self }, a)
        } else {
            self.remove_members(0)
        }
    }

    fn look_up_removals(self, k: usize) -> (res: (Self, OrgAction))
        requires
            self@.target is Some,
            k <= self@.remove_wellformed.len(),
            self@.remove_found.len() + self@.missing_remove.len() == k,
            groupmod_rejection(self@) is None,
            owner_settled(self@),
            admin_settled(self@),
        ensures
            (res.0@, res.1@) == look_up_removals(self@, k as int),
    {
        proof {
            use_type_invariant(&self);
        }
        if k < self.remove_wellformed.len() {
            let a = OrgAction::FindUser(self.remove_wellformed[k].1.clone(), self.remove_wellformed[k].2.clone());
            (GroupMod { phase: GroupModPhase::AwaitRemoveUser(k), ..self }, a)
        } else {
            self.add_members(0)
        }
    }

    fn look_up_additions(self, k: usize) -> (res: (Self, OrgAction))
        requires
            self@.target is Some,
            k <= self@.add_wellformed.len(),
            self@.add_found.len() + self@.missing_add.len() == k,
            self@.remove_found.len() == 0,
            self@.missing_remove.len() == 0,
            groupmod_rejection(self@) is None,
            owner_settled(self@),
            admin_settled(self@),
        ensures
            (res.0@, res.1@) == look_up_additions(self@, k as int),
    {
        proof {
            use_type_invariant(&self);
        }
        if k < self.add_wellformed.len() {
            let a = OrgAction::FindUser(self.add_wellformed[k].1.clone(), self.add_wellformed[k].2.clone());
            (GroupMod { phase: GroupModPhase::AwaitAddUser(k), ..self }, a)
        } else {
            self.look_up_removals(0)
        }
    }

    fn update_group(self) -> (res: (Self, OrgAction))
        requires
            self@.target is Some,
            groupmod_rejection(self@) is None,
            owner_settled(self@),
            admin_settled(self@),
            self@.add_found.len() == 0,
            self@.missing_add.len() == 0,
            self@.remove_found.len() == 0,
            self@.missing_remove.len() == 0,
        ensures
            (res.0@, res.1@) == update_group(self@),
    {
        proof {
            use_type_invariant(&self);
        }
        let change = Change {
            target: self.target_id(),
            name: copy_option(&self.req.change.new_name),
            desc: copy_option(&self.req.change.new_desc),
            owner: match &self.new_owner {
                Some(o) => Some(o.0),
                None => None,
            },
            admin_group: match &self.new_admin {
                Some(Some(a)) => Some(Some(a.0)),
                Some(None) => Some(None),
                None => None,
            },
        };
        (GroupMod { phase: GroupModPhase::AwaitUpdated, ..self }, OrgAction::UpdateGroup(change))
    }

    fn check_name(self) -> (res: (Self, OrgAction))
        requires
            self@.target is Some,
            groupmod_rejection(self@) is None,
            owner_settled(self@),
            admin_settled(self@),
            self@.add_found.len() == 0,
            self@.missing_add.len() == 0,
            self@.remove_found.len() == 0,
            self@.missing_remove.len() == 0,
        ensures
            (res.0@, res.1@) == check_name(self@),
    {
        proof {
            use_type_invariant(&self);
        }
        let current = match &self.target {
            Some(t) => t.1.clone(),
            None => String::new(),
        };
        if needs_name_check(&self.req.change.new_name, current.as_str()) {
            let n = match &self.req.change.new_name {
                Some(n) => n.clone(),
                None => String::new(),
            };
            (GroupMod { phase: GroupModPhase::AwaitName, ..self }, OrgAction::FindGroup(n))
        } else {
            self.update_group()
        }
    }

    fn check_admin(self) -> (res: (Self, OrgAction))
        requires
            self@.target is Some,
            groupmod_rejection(self@) is None,
            owner_settled(self@),
            self@.new_admin is None,
            self@.add_found.len() == 0,
            self@.missing_add.len() == 0,
            self@.remove_found.len() == 0,
            self@.missing_remove.len() == 0,
        ensures
            (res.0@, res.1@) == check_admin(self@),
    {
        proof {
            use_type_invariant(&self);
        }
        if self.req.change.remove_admin {
            let next = GroupMod { new_admin: Some(None), phase: GroupModPhase::Done, ..self };
            next.check_name()
        } else {
            let a = copy_option(&self.req.change.new_admin_group);
            match a {
                Some(a) => (GroupMod { phase: GroupModPhase::AwaitAdmin, ..self }, OrgAction::FindGroup(a)),
                None => self.check_name(),
            }
        }
    }

    fn check_owner(self) -> (res: (Self, OrgAction))
        requires
            self@.target is Some,
            groupmod_rejection(self@) is None,
            self@.new_owner is None,
            self@.new_admin is None,
            self@.add_found.len() == 0,
            self@.missing_add.len() == 0,
            self@.remove_found.len() == 0,
            self@.missing_remove.len() == 0,
        ensures
            (res.0@, res.1@) == check_owner(self@),
    {
        proof {
            use_type_invariant(&self);
        }
        let parts = match &self.req.change.new_owner {
            Some(o) => Some(parse_mention(o.as_str())),
            None => None,
        };
        match parts {
            Some(Some((u, sv))) => {
                (GroupMod { phase: GroupModPhase::AwaitOwner, ..self }, OrgAction::FindUser(u, sv))
            },
            Some(None) => self.stop(),
            None => self.check_admin(),
        }
    }

    fn check_rights(self) -> (res: (Self, OrgAction))
        requires
            self@.target is Some,
            self@.new_owner is None,
            self@.new_admin is None,
            self@.add_found.len() == 0,
            self@.missing_add.len() == 0,
            self@.remove_found.len() == 0,
            self@.missing_remove.len() == 0,
        ensures
            (res.0@, res.1@) == check_rights(self@),
    {
        proof {
            use_type_invariant(&self);
        }
        let current = match &self.target {
            Some(t) => t.1.clone(),
            None => String::new(),
        };
        match check_modification(
            Entity::Group,
            &self.req.change,
            current.as_str(),
            self.req.name_valid,
            self.req.desc_max_len,
            self.is_owner,
            self.is_admin,
        ) {
            Some(r) => self.reply(r),
            None => self.check_owner(),
        }
    }


    /// The run with a user found for a `-u` mention.
    fn with_add_found(self, id: u64, user: &String, server: &String) -> (res: Self)
        ensures
            res@ == (GroupModView { add_found: self@.add_found.push((id, user@, server@)), phase: GroupModPhase::Done, ..self@ }),
    {
        proof {
            use_type_invariant(&self);
        }
        let GroupMod { req, phase: _, target, is_owner, is_admin, new_owner, new_admin, add_wellformed, add_malformed, remove_wellformed, remove_malformed, mut add_found, missing_add, remove_found, missing_remove, added, unchanged_add, removed, unchanged_remove } = self;
        push_found(&mut add_found, id, user, server);
        GroupMod { req, phase: GroupModPhase::Done, target, is_owner, is_admin, new_owner, new_admin, add_wellformed, add_malformed, remove_wellformed, remove_malformed, add_found, missing_add, remove_found, missing_remove, added, unchanged_add, removed, unchanged_remove }
    }

    /// The run with a user found for a `-r` mention.
    fn with_remove_found(self, id: u64, user: &String, server: &String) -> (res: Self)
        ensures
            res@ == (GroupModView { remove_found: self@.remove_found.push((id, user@, server@)), phase: GroupModPhase::Done, ..self@ }),
    {
        proof {
            use_type_invariant(&self);
        }
        let GroupMod { req, phase: _, target, is_owner, is_admin, new_owner, new_admin, add_wellformed, add_malformed, remove_wellformed, remove_malformed, add_found, missing_add, mut remove_found, missing_remove, added, unchanged_add, removed, unchanged_remove } = self;
        push_found(&mut remove_found, id, user, server);
        GroupMod { req, phase: GroupModPhase::Done, target, is_owner, is_admin, new_owner, new_admin, add_wellformed, add_malformed, remove_wellformed, remove_malformed, add_found, missing_add, remove_found, missing_remove, added, unchanged_add, removed, unchanged_remove }
    }

    /// The run with an unknown `-u` mention.
    fn with_missing_add(self, text: String) -> (res: Self)
        requires
            text@.len() > 0,
        ensures
            res@ == (GroupModView { missing_add: self@.missing_add.push(text@), phase: GroupModPhase::Done, ..self@ }),
    {
        proof {
            use_type_invariant(&self);
        }
        let GroupMod { req, phase: _, target, is_owner, is_admin, new_owner, new_admin, add_wellformed, add_malformed, remove_wellformed, remove_malformed, add_found, mut missing_add, remove_found, missing_remove, added, unchanged_add, removed, unchanged_remove } = self;
        push_nonempty(&mut missing_add, text);
        GroupMod { req, phase: GroupModPhase::Done, target, is_owner, is_admin, new_owner, new_admin, add_wellformed, add_malformed, remove_wellformed, remove_malformed, add_found, missing_add, remove_found, missing_remove, added, unchanged_add, removed, unchanged_remove }
    }

    /// The run with an unknown `-r` mention.
    fn with_missing_remove(self, text: String) -> (res: Self)
        requires
            text@.len() > 0,
        ensures
            res@ == (GroupModView { missing_remove: self@.missing_remove.push(text@), phase: GroupModPhase::Done, ..self@ }),
    {
        proof {
            use_type_invariant(&self);
        }
        let GroupMod { req, phase: _, target, is_owner, is_admin, new_owner, new_admin, add_wellformed, add_malformed, remove_wellformed, remove_malformed, add_found, missing_add, remove_found, mut missing_remove, added, unchanged_add, removed, unchanged_remove } = self;
        push_nonempty(&mut missing_remove, text);
        GroupMod { req, phase: GroupModPhase::Done, target, is_owner, is_admin, new_owner, new_admin, add_wellformed, add_malformed, remove_wellformed, remove_malformed, add_found, missing_add, remove_found, missing_remove, added, unchanged_add, removed, unchanged_remove }
    }

    /// The run with a user added.
    fn with_added(self, user: &String, server: &String) -> (res: Self)
        ensures
            res@ == (GroupModView { added: self@.added.push((user@, server@)), phase: GroupModPhase::Done, ..self@ }),
    {
        proof {
            use_type_invariant(&self);
        }
        let GroupMod { req, phase: _, target, is_owner, is_admin, new_owner, new_admin, add_wellformed, add_malformed, remove_wellformed, remove_malformed, add_found, missing_add, remove_found, missing_remove, mut added, unchanged_add, removed, unchanged_remove } = self;
        push_pair(&mut added, user, server);
        GroupMod { req, phase: GroupModPhase::Done, target, is_owner, is_admin, new_owner, new_admin, add_wellformed, add_malformed, remove_wellformed, remove_malformed, add_found, missing_add, remove_found, missing_remove, added, unchanged_add, removed, unchanged_remove }
    }

    /// The run with a user that was already a member.
    fn with_unchanged_add(self, user: &String, server: &String) -> (res: Self)
        ensures
            res@ == (GroupModView { unchanged_add: self@.unchanged_add.push((user@, server@)), phase: GroupModPhase::Done, ..self@ }),
    {
        proof {
            use_type_invariant(&self);
        }
        let GroupMod { req, phase: _, target, is_owner, is_admin, new_owner, new_admin, add_wellformed, add_malformed, remove_wellformed, remove_malformed, add_found, missing_add, remove_found, missing_remove, added, mut unchanged_add, removed, unchanged_remove } = self;
        push_pair(&mut unchanged_add, user, server);
        GroupMod { req, phase: GroupModPhase::Done, target, is_owner, is_admin, new_owner, new_admin, add_wellformed, add_malformed, remove_wellformed, remove_malformed, add_found, missing_add, remove_found, missing_remove, added, unchanged_add, removed, unchanged_remove }
    }

    /// The run with a user removed.
    fn with_removed(self, user: &String, server: &String) -> (res: Self)
        ensures
            res@ == (GroupModView { removed: self@.removed.push((user@, server@)), phase: GroupModPhase::Done, ..self@ }),
    {
        proof {
            use_type_invariant(&self);
        }
        let GroupMod { req, phase: _, target, is_owner, is_admin, new_owner, new_admin, add_wellformed, add_malformed, remove_wellformed, remove_malformed, add_found, missing_add, remove_found, missing_remove, added, unchanged_add, mut removed, unchanged_remove } = self;
        push_pair(&mut removed, user, server);
        GroupMod { req, phase: GroupModPhase::Done, target, is_owner, is_admin, new_owner, new_admin, add_wellformed, add_malformed, remove_wellformed, remove_malformed, add_found, missing_add, remove_found, missing_remove, added, unchanged_add, removed, unchanged_remove }
    }

    /// The run with a user that was not a member.
    fn with_unchanged_remove(self, user: &String, server: &String) -> (res: Self)
        ensures
            res@ == (GroupModView { unchanged_remove: self@.unchanged_remove.push((user@, server@)), phase: GroupModPhase::Done, ..self@ }),
    {
        proof {
            use_type_invariant(&self);
        }
        let GroupMod { req, phase: _, target, is_owner, is_admin, new_owner, new_admin, add_wellformed, add_malformed, remove_wellformed, remove_malformed, add_found, missing_add, remove_found, missing_remove, added, unchanged_add, removed, mut unchanged_remove } = self;
        push_pair(&mut unchanged_remove, user, server);
        GroupMod { req, phase: GroupModPhase::Done, target, is_owner, is_admin, new_owner, new_admin, add_wellformed, add_malformed, remove_wellformed, remove_malformed, add_found, missing_add, remove_found, missing_remove, added, unchanged_add, removed, unchanged_remove }
    }

    fn on_start(self, event: OrgEvent) -> (res: (Self, OrgAction))
        requires
            self@.phase == GroupModPhase::Start,
        ensures
            (res.0@, res.1@) == groupmod_next(self@, event@),
    {
        proof {
            use_type_invariant(&self);
            lemma_wellformed_mentions(self@.req.change.add_users);
            lemma_wellformed_mentions(self@.req.change.remove_users);
        }
        match event {
            OrgEvent::Begin => {
                if self.req.change.is_empty() {
                    self.reply(nothing_to_change_reply())
                } else {
                    let g = self.req.group.clone();
                    (GroupMod { phase: GroupModPhase::AwaitGroup, ..self }, OrgAction::FindGroup(g))
                }
            },
            _ => self.stop(),
        }
    }

    fn on_await_group(self, event: OrgEvent) -> (res: (Self, OrgAction))
        requires
            self@.phase == GroupModPhase::AwaitGroup,
        ensures
            (res.0@, res.1@) == groupmod_next(self@, event@),
    {
        proof {
            use_type_invariant(&self);
            lemma_wellformed_mentions(self@.req.change.add_users);
            lemma_wellformed_mentions(self@.req.change.remove_users);
        }
        match event {
            OrgEvent::Group(None) => {
                let r = not_found_for_change_reply(Entity::Group, self.req.group.as_str());
                self.reply(r)
            },
            OrgEvent::Group(Some(g)) => {
                let target = Some((g.id, g.name, g.owner, g.admin_group));
                (GroupMod { phase: GroupModPhase::AwaitSender, target, ..self }, OrgAction::SenderUser)
            },
            _ => self.stop(),
        }
    }

    fn on_await_sender(self, event: OrgEvent) -> (res: (Self, OrgAction))
        requires
            self@.phase == GroupModPhase::AwaitSender,
        ensures
            (res.0@, res.1@) == groupmod_next(self@, event@),
    {
        proof {
            use_type_invariant(&self);
            lemma_wellformed_mentions(self@.req.change.add_users);
            lemma_wellformed_mentions(self@.req.change.remove_users);
        }
        match event {
            OrgEvent::User(Some(id)) => {
                let (owner_id, admin_group) = match &self.target {
                    Some(t) => (t.2, t.3),
                    None => (0, None),
                };
                let owner = id == owner_id;
                match admin_group {
                    Some(ag) => if owner {
                        let next = GroupMod { is_owner: true, is_admin: true, phase: GroupModPhase::Done, ..self };
                        next.check_rights()
                    } else {
                        (
                            GroupMod { phase: GroupModPhase::AwaitMembership, is_owner: false, ..self },
                            OrgAction::IsMember(id, ag),
                        )
                    },
                    None => {
                        let next = GroupMod { is_owner: owner, is_admin: owner, phase: GroupModPhase::Done, ..self };
                        next.check_rights()
                    },
                }
            },
            _ => self.stop(),
        }
    }

    fn on_await_membership(self, event: OrgEvent) -> (res: (Self, OrgAction))
        requires
            self@.phase == GroupModPhase::AwaitMembership,
        ensures
            (res.0@, res.1@) == groupmod_next(self@, event@),
    {
        proof {
            use_type_invariant(&self);
            lemma_wellformed_mentions(self@.req.change.add_users);
            lemma_wellformed_mentions(self@.req.change.remove_users);
        }
        match event {
            OrgEvent::Member(b) => {
                let next = GroupMod { is_admin: b, phase: GroupModPhase::Done, ..self };
                next.check_rights()
            },
            _ => self.stop(),
        }
    }

    fn on_await_owner(self, event: OrgEvent) -> (res: (Self, OrgAction))
        requires
            self@.phase == GroupModPhase::AwaitOwner,
        ensures
            (res.0@, res.1@) == groupmod_next(self@, event@),
    {
        proof {
            use_type_invariant(&self);
            lemma_wellformed_mentions(self@.req.change.add_users);
            lemma_wellformed_mentions(self@.req.change.remove_users);
        }
        match event {
            OrgEvent::User(Some(id)) => {
                let parts = match &self.req.change.new_owner {
                    Some(o) => parse_mention(o.as_str()),
                    None => None,
                };
                match parts {
                    Some((u, sv)) => {
                        let next = GroupMod { new_owner: Some((id, u, sv)), phase: GroupModPhase::Done, ..self };
                        next.check_admin()
                    },
                    None => self.stop(),
                }
            },
            OrgEvent::User(None) => {
                let r = match &self.req.change.new_owner {
                    Some(o) => unknown_owner_reply(Entity::Group, o.as_str()),
                    None => nothing_to_change_reply(),
                };
                self.reply(r)
            },
            _ => self.stop(),
        }
    }

    fn on_await_admin(self, event: OrgEvent) -> (res: (Self, OrgAction))
        requires
            self@.phase == GroupModPhase::AwaitAdmin,
        ensures
            (res.0@, res.1@) == groupmod_next(self@, event@),
    {
        proof {
            use_type_invariant(&self);
            lemma_wellformed_mentions(self@.req.change.add_users);
            lemma_wellformed_mentions(self@.req.change.remove_users);
        }
        match event {
            OrgEvent::Group(Some(g)) => {
                let next = GroupMod { new_admin: Some(Some((g.id, g.name))), phase: GroupModPhase::Done, ..self };
                next.check_name()
            },
            OrgEvent::Group(None) => {
                let r = match &self.req.change.new_admin_group {
                    Some(a) => unknown_admin_group_reply(a.as_str()),
                    None => nothing_to_change_reply(),
                };
                self.reply(r)
            },
            _ => self.stop(),
        }
    }

    fn on_await_name(self, event: OrgEvent) -> (res: (Self, OrgAction))
        requires
            self@.phase == GroupModPhase::AwaitName,
        ensures
            (res.0@, res.1@) == groupmod_next(self@, event@),
    {
        proof {
            use_type_invariant(&self);
            lemma_wellformed_mentions(self@.req.change.add_users);
            lemma_wellformed_mentions(self@.req.change.remove_users);
        }
        match event {
            OrgEvent::Group(Some(g)) => {
                let r = name_taken_reply(Entity::Group, false, g.name.as_str());
                self.reply(r)
            },
            OrgEvent::Group(None) => self.update_group(),
            _ => self.stop(),
        }
    }

    fn on_await_updated(self, event: OrgEvent) -> (res: (Self, OrgAction))
        requires
            self@.phase == GroupModPhase::AwaitUpdated,
        ensures
            (res.0@, res.1@) == groupmod_next(self@, event@),
    {
        proof {
            use_type_invariant(&self);
            lemma_wellformed_mentions(self@.req.change.add_users);
            lemma_wellformed_mentions(self@.req.change.remove_users);
        }
        match event {
            OrgEvent::Updated => self.look_up_additions(0),
            _ => self.stop(),
        }
    }

    fn on_await_add_user(self, k: usize, event: OrgEvent) -> (res: (Self, OrgAction))
        requires
            self@.phase == GroupModPhase::AwaitAddUser(k),
        ensures
            (res.0@, res.1@) == groupmod_next(self@, event@),
    {
        proof {
            use_type_invariant(&self);
            lemma_wellformed_mentions(self@.req.change.add_users);
            lemma_wellformed_mentions(self@.req.change.remove_users);
        }
        match event {
            OrgEvent::User(_) if k >= self.add_wellformed.len() => self.stop(),
            OrgEvent::User(Some(id)) => {
                let u = self.add_wellformed[k].1.clone();
                let sv = self.add_wellformed[k].2.clone();
                let next = self.with_add_found(id, &u, &sv);
                next.look_up_additions(k + 1)
            },
            OrgEvent::User(None) => {
                let text = self.add_wellformed[k].0.clone();
                assert(self.add_wellformed.deep_view()[k as int].0 == text@);
                let next = self.with_missing_add(text);
                next.look_up_additions(k + 1)
            },
            _ => self.stop(),
        }
    }

    fn on_await_remove_user(self, k: usize, event: OrgEvent) -> (res: (Self, OrgAction))
        requires
            self@.phase == GroupModPhase::AwaitRemoveUser(k),
        ensures
            (res.0@, res.1@) == groupmod_next(self@, event@),
    {
        proof {
            use_type_invariant(&self);
            lemma_wellformed_mentions(self@.req.change.add_users);
            lemma_wellformed_mentions(self@.req.change.remove_users);
        }
        match event {
            OrgEvent::User(_) if k >= self.remove_wellformed.len() => self.stop(),
            OrgEvent::User(Some(id)) => {
                let u = self.remove_wellformed[k].1.clone();
                let sv = self.remove_wellformed[k].2.clone();
                let next = self.with_remove_found(id, &u, &sv);
                next.look_up_removals(k + 1)
            },
            OrgEvent::User(None) => {
                let text = self.remove_wellformed[k].0.clone();
                assert(self.remove_wellformed.deep_view()[k as int].0 == text@);
                let next = self.with_missing_remove(text);
                next.look_up_removals(k + 1)
            },
            _ => self.stop(),
        }
    }

    fn on_adding(self, k: usize, event: OrgEvent) -> (res: (Self, OrgAction))
        requires
            self@.phase == GroupModPhase::Adding(k),
        ensures
            (res.0@, res.1@) == groupmod_next(self@, event@),
    {
        proof {
            use_type_invariant(&self);
            lemma_wellformed_mentions(self@.req.change.add_users);
            lemma_wellformed_mentions(self@.req.change.remove_users);
        }
        match event {
            OrgEvent::Changed(_) if k >= self.add_found.len() => self.stop(),
            OrgEvent::Changed(changed) => {
                let u = self.add_found[k].1.clone();
                let sv = self.add_found[k].2.clone();
                let next = if changed {
                    self.with_added(&u, &sv)
                } else {
                    self.with_unchanged_add(&u, &sv)
                };
                next.add_members(k + 1)
            },
            _ => self.stop(),
        }
    }

    fn on_removing(self, k: usize, event: OrgEvent) -> (res: (Self, OrgAction))
        requires
            self@.phase == GroupModPhase::Removing(k),
        ensures
            (res.0@, res.1@) == groupmod_next(self@, event@),
    {
        proof {
            use_type_invariant(&self);
            lemma_wellformed_mentions(self@.req.change.add_users);
            lemma_wellformed_mentions(self@.req.change.remove_users);
        }
        match event {
            OrgEvent::Changed(_) if k >= self.remove_found.len() => self.stop(),
            OrgEvent::Changed(changed) => {
                let u = self.remove_found[k].1.clone();
                let sv = self.remove_found[k].2.clone();
                let next = if changed {
                    self.with_removed(&u, &sv)
                } else {
                    self.with_unchanged_remove(&u, &sv)
                };
                next.remove_members(k + 1)
            },
            _ => self.stop(),
        }
    }

    /// One step of the run: what the store answered leads to the next state
    /// and the next thing to do.
    pub fn step(self, event: OrgEvent) -> (res: (Self, OrgAction))
        ensures
            (res.0@, res.1@) == groupmod_next(self@, event@),
    {
        match self.phase {
            GroupModPhase::Start => self.on_start(event),
            GroupModPhase::AwaitGroup => self.on_await_group(event),
            GroupModPhase::AwaitSender => self.on_await_sender(event),
            GroupModPhase::AwaitMembership => self.on_await_membership(event),
            GroupModPhase::AwaitOwner => self.on_await_owner(event),
            GroupModPhase::AwaitAdmin => self.on_await_admin(event),
            GroupModPhase::AwaitName => self.on_await_name(event),
            GroupModPhase::AwaitUpdated => self.on_await_updated(event),
            GroupModPhase::AwaitAddUser(k) => self.on_await_add_user(k, event),
            GroupModPhase::AwaitRemoveUser(k) => self.on_await_remove_user(k, event),
            GroupModPhase::Adding(k) => self.on_adding(k, event),
            GroupModPhase::Removing(k) => self.on_removing(k, event),
            GroupModPhase::Done => self.stop(),
        }
    }
}

} // verus!
