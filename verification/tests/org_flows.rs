use merlin_matrix::deletion_flow::{DeletionPhase, DeletionRequest, DeletionRun};
use merlin_matrix::flows::{FoundGroup, OrgAction, OrgEvent};
use merlin_matrix::listing_flows::{
    Contexts, ContextsRequest, GroupInfo, GroupInfoPhase, GroupInfoRequest, Perms, PermsRequest,
};
use merlin_matrix::lookup_flows::{
    ContextInfo, ContextInfoRequest, Groups, GroupsRequest, PermSet, PermSetPhase, PermSetRequest,
};
use merlin_matrix::org::{Entity, Reply};
use merlin_matrix::perms::RuleEntry;
use merlin_matrix::room_flows::{ContextSet, ContextSetRequest, ContextUnset, ContextUnsetPhase};

fn strings(v: &[&str]) -> Vec<String> {
    v.iter().map(|s| s.to_string()).collect()
}

fn found(id: u64, name: &str, desc: &str, owner: u64, admin: Option<u64>) -> OrgEvent {
    OrgEvent::Group(Some(FoundGroup {
        id,
        name: name.to_string(),
        desc: desc.to_string(),
        owner,
        admin_group: admin,
    }))
}

fn plain_of(a: &OrgAction) -> String {
    match a {
        OrgAction::Reply(Reply::Plain(p)) => p.clone(),
        OrgAction::Reply(Reply::Html(p, _)) => p.clone(),
        _ => panic!("expected a reply"),
    }
}

fn html_of(a: &OrgAction) -> String {
    match a {
        OrgAction::Reply(Reply::Html(_, h)) => h.clone(),
        _ => panic!("expected an HTML reply"),
    }
}

fn is_plain_reply(a: &OrgAction) -> bool {
    matches!(a, OrgAction::Reply(Reply::Plain(_)))
}

#[test]
fn groupdel_without_names_is_refused() {
    let run = DeletionRun::new(DeletionRequest { entity: Entity::Group, names: Vec::new() });
    let (run, a) = run.step(OrgEvent::Begin);
    assert_eq!(run.phase(), DeletionPhase::Done);
    assert!(is_plain_reply(&a));
    assert_eq!(plain_of(&a), "Specify at least one group to delete");
}

#[test]
fn groupdel_deletes_only_what_the_sender_owns() {
    let run = DeletionRun::new(DeletionRequest {
        entity: Entity::Group,
        names: strings(&["a.x", "b.y", "a.x", "c.z"]),
    });
    let (run, a) = run.step(OrgEvent::Begin);
    assert!(matches!(a, OrgAction::SenderUser));
    let (run, a) = run.step(OrgEvent::User(Some(1)));
    assert!(matches!(&a, OrgAction::FindGroup(n) if n == "a.x"));
    let (run, a) = run.step(found(10, "a.x", "", 1, None));
    assert!(matches!(a, OrgAction::DeleteGroup(10)));
    let (run, a) = run.step(OrgEvent::Updated);
    assert!(matches!(&a, OrgAction::FindGroup(n) if n == "b.y"));
    let (run, a) = run.step(OrgEvent::Group(None));
    assert!(matches!(&a, OrgAction::FindGroup(n) if n == "c.z"));
    let (run, a) = run.step(found(12, "C.z", "", 2, None));
    assert_eq!(run.phase(), DeletionPhase::Done);
    assert_eq!(
        plain_of(&a),
        "Group Deletion Summary\n* Deleted: a.x\n* Not deleted (not owner): C.z\n* Not deleted (not found): b.y"
    );
}

#[test]
fn contextdel_deletes_an_owned_context() {
    let run = DeletionRun::new(DeletionRequest { entity: Entity::Context, names: strings(&["org.ctx"]) });
    let (run, a) = run.step(OrgEvent::Begin);
    assert!(matches!(a, OrgAction::SenderUser));
    let (run, a) = run.step(OrgEvent::User(Some(4)));
    assert!(matches!(&a, OrgAction::FindContext(n) if n == "org.ctx"));
    let (run, a) = run.step(found(3, "org.ctx", "", 4, None));
    assert!(matches!(a, OrgAction::DeleteContext(3)));
    let (run, a) = run.step(OrgEvent::Updated);
    assert_eq!(run.phase(), DeletionPhase::Done);
    assert!(matches!(a, OrgAction::Reply(_)));
}

#[test]
fn contextdel_without_names_asks_for_the_sender() {
    let run = DeletionRun::new(DeletionRequest { entity: Entity::Context, names: Vec::new() });
    let (run, a) = run.step(OrgEvent::Begin);
    assert!(matches!(a, OrgAction::SenderUser));
    let (_, a) = run.step(OrgEvent::User(Some(4)));
    assert!(matches!(a, OrgAction::Reply(_)));
}

#[test]
fn contextinfo_marks_the_room_context_active() {
    let run = ContextInfo::new(ContextInfoRequest { name: None });
    let (run, a) = run.step(OrgEvent::Begin);
    assert!(matches!(a, OrgAction::RoomContext));
    let (run, a) = run.step(found(3, "org.ctx", "", 1, None));
    assert!(matches!(a, OrgAction::UserById(1)));
    let (run, a) = run.step(OrgEvent::UserNamed("alice".to_string(), "x.org".to_string()));
    assert!(matches!(a, OrgAction::CountRooms(3)));
    let (_, a) = run.step(OrgEvent::Count(2));
    assert_eq!(
        plain_of(&a),
        "Context info for \"org.ctx\" (active)\n* Description - [empty string]\n* Owner - alice:x.org\n* Usage - used in 2 rooms"
    );
}

#[test]
fn contextinfo_of_a_named_context_is_not_active() {
    let run = ContextInfo::new(ContextInfoRequest { name: Some("org.ctx".to_string()) });
    let (run, a) = run.step(OrgEvent::Begin);
    assert!(matches!(&a, OrgAction::FindContext(n) if n == "org.ctx"));
    let (run, _) = run.step(found(3, "org.ctx", "a<b", 1, Some(4)));
    let (run, a) = run.step(OrgEvent::UserNamed("alice".to_string(), "x.org".to_string()));
    assert!(matches!(a, OrgAction::GroupById(4)));
    let (run, a) = run.step(found(4, "org.admins", "", 1, None));
    assert!(matches!(a, OrgAction::CountRooms(3)));
    let (_, a) = run.step(OrgEvent::Count(1));
    assert_eq!(
        plain_of(&a),
        "Context info for \"org.ctx\"\n* Description - a<b\n* Owner - alice:x.org\n* Admin group - org.admins\n* Usage - used in 1 room"
    );
    assert!(html_of(&a).contains("<tr><td>Description</td><td>a&lt;b</td></tr>"));
}

#[test]
fn contextinfo_without_a_room_context() {
    let run = ContextInfo::new(ContextInfoRequest { name: None });
    let (run, _) = run.step(OrgEvent::Begin);
    let (_, a) = run.step(OrgEvent::Group(None));
    assert_eq!(plain_of(&a), "This room does not have a context set, specify a context to view");
}

#[test]
fn groups_lists_the_mentioned_user() {
    let run = Groups::new(GroupsRequest {
        user: Some("@bob:y.org".to_string()),
        sender: ("me".to_string(), "home.org".to_string()),
    });
    let (run, a) = run.step(OrgEvent::Begin);
    assert!(matches!(&a, OrgAction::MemberOf(u, s) if u == "bob" && s == "y.org"));
    let (run, a) = run.step(OrgEvent::Names(strings(&["g1"])));
    assert!(matches!(&a, OrgAction::AdminOf(u, s) if u == "bob" && s == "y.org"));
    let (run, a) = run.step(OrgEvent::Names(Vec::new()));
    assert!(matches!(&a, OrgAction::OwnerOf(u, s) if u == "bob" && s == "y.org"));
    let (_, a) = run.step(OrgEvent::Names(strings(&["g1", "g2"])));
    assert_eq!(plain_of(&a), "Groups Summary of bob:y.org\n* Member of 1 group: g1\n* Owner of 2 groups: g1, g2");
}

#[test]
fn groups_refuses_a_malformed_mention() {
    let run = Groups::new(GroupsRequest {
        user: Some("bob".to_string()),
        sender: ("me".to_string(), "home.org".to_string()),
    });
    let (_, a) = run.step(OrgEvent::Begin);
    assert_eq!(plain_of(&a), "Malformed user argument, expected @mention.");
}

fn permset_request(priority: Option<i32>) -> PermSetRequest {
    PermSetRequest {
        group: "org.team".to_string(),
        perm: "core.ping".to_string(),
        allowed: true,
        context: Some("org.ctx".to_string()),
        priority,
    }
}

#[test]
fn permset_sets_the_rule_with_priority_zero_by_default() {
    let run = PermSet::new(permset_request(None));
    let (run, a) = run.step(OrgEvent::Begin);
    assert!(matches!(a, OrgAction::SenderUser));
    let (run, a) = run.step(OrgEvent::User(Some(1)));
    assert!(matches!(&a, OrgAction::FindContext(n) if n == "org.ctx"));
    let (run, a) = run.step(found(3, "org.ctx", "", 1, None));
    assert!(matches!(&a, OrgAction::FindGroup(n) if n == "org.team"));
    let (run, a) = run.step(found(5, "org.team", "", 1, None));
    assert!(matches!(&a, OrgAction::FindPermission(n) if n == "core.ping"));
    let (run, a) = run.step(OrgEvent::Permission(Some((8, "core.ping".to_string()))));
    assert!(matches!(a, OrgAction::SetRule(8, 5, 3, 0, true)));
    let (run, a) = run.step(OrgEvent::Updated);
    assert_eq!(run.phase(), PermSetPhase::Done);
    assert_eq!(
        plain_of(&a),
        "Context Permission Set\n* Context - org.ctx\n* Permission - core.ping\n* Group - org.team\n* Allowed - true"
    );
}

#[test]
fn permset_keeps_the_priority_given() {
    let run = PermSet::new(permset_request(Some(-3)));
    let (run, _) = run.step(OrgEvent::Begin);
    let (run, _) = run.step(OrgEvent::User(Some(1)));
    let (run, _) = run.step(found(3, "org.ctx", "", 2, Some(9)));
    let (run, a) = run.step(OrgEvent::Member(true));
    assert!(matches!(&a, OrgAction::FindGroup(n) if n == "org.team"));
    let (run, _) = run.step(found(5, "org.team", "", 1, None));
    let (_, a) = run.step(OrgEvent::Permission(Some((8, "core.ping".to_string()))));
    assert!(matches!(a, OrgAction::SetRule(8, 5, 3, -3, true)));
}

#[test]
fn permset_denies_who_neither_owns_nor_administers() {
    let run = PermSet::new(permset_request(None));
    let (run, _) = run.step(OrgEvent::Begin);
    let (run, _) = run.step(OrgEvent::User(Some(1)));
    let (run, a) = run.step(found(3, "org.ctx", "", 2, Some(4)));
    assert!(matches!(a, OrgAction::IsMember(1, 4)));
    let (_, a) = run.step(OrgEvent::Member(false));
    assert_eq!(
        plain_of(&a),
        "Permissing denied: you are neither the owner or in the admin group of context org.ctx"
    );
}

#[test]
fn permset_names_a_missing_permission() {
    let run = PermSet::new(permset_request(None));
    let (run, _) = run.step(OrgEvent::Begin);
    let (run, _) = run.step(OrgEvent::User(Some(1)));
    let (run, _) = run.step(found(3, "org.ctx", "", 1, None));
    let (run, _) = run.step(found(5, "org.team", "", 1, None));
    let (_, a) = run.step(OrgEvent::Permission(None));
    assert_eq!(plain_of(&a), "Could not find permission with name core.ping");
}

#[test]
fn groupinfo_lists_the_first_members_and_how_many_more() {
    let run = GroupInfo::new(GroupInfoRequest { group: "org.team".to_string() });
    let (run, a) = run.step(OrgEvent::Begin);
    assert!(matches!(&a, OrgAction::FindGroup(n) if n == "org.team"));
    let (run, a) = run.step(found(5, "org.team", "", 1, Some(4)));
    assert!(matches!(a, OrgAction::UserById(1)));
    let (run, a) = run.step(OrgEvent::UserNamed("alice".to_string(), "x.org".to_string()));
    assert!(matches!(a, OrgAction::GroupById(4)));
    let (run, a) = run.step(found(4, "org.admins", "", 1, None));
    assert!(matches!(a, OrgAction::Members(5, 5)));
    let (run, a) = run.step(OrgEvent::Names(strings(&["alice:x.org", "bob:y.org"])));
    assert!(matches!(a, OrgAction::CountMembers(5)));
    let (run, a) = run.step(OrgEvent::Count(7));
    assert_eq!(run.phase(), GroupInfoPhase::Done);
    assert_eq!(
        plain_of(&a),
        "Group info for \"org.team\"\n* Owner - alice:x.org\n* Admin group - org.admins\n* Members - alice:x.org, bob:y.org and 5 more"
    );
}

#[test]
fn groupinfo_of_an_empty_group() {
    let run = GroupInfo::new(GroupInfoRequest { group: "org.team".to_string() });
    let (run, _) = run.step(OrgEvent::Begin);
    let (run, _) = run.step(found(5, "org.team", "", 1, None));
    let (run, a) = run.step(OrgEvent::UserNamed("alice".to_string(), "x.org".to_string()));
    assert!(matches!(a, OrgAction::Members(5, 5)));
    let (run, _) = run.step(OrgEvent::Names(Vec::new()));
    let (_, a) = run.step(OrgEvent::Count(0));
    assert_eq!(
        html_of(&a),
        "<b>Group info for <code>org.team</code><b><table><tr><td>Owner</td><td><b>alice:x.org</b></td></tr><tr><td>Members</td><td><i>[empty group]</i></td></tr></table>"
    );
}

#[test]
fn groupinfo_of_an_unknown_group_and_a_short_count() {
    let run = GroupInfo::new(GroupInfoRequest { group: "org.none".to_string() });
    let (run, _) = run.step(OrgEvent::Begin);
    let (_, a) = run.step(OrgEvent::Group(None));
    assert_eq!(plain_of(&a), "Could not find any groups named \"org.none\"");

    let run = GroupInfo::new(GroupInfoRequest { group: "org.team".to_string() });
    let (run, _) = run.step(OrgEvent::Begin);
    let (run, _) = run.step(found(5, "org.team", "", 1, None));
    let (run, _) = run.step(OrgEvent::UserNamed("alice".to_string(), "x.org".to_string()));
    let (run, _) = run.step(OrgEvent::Names(strings(&["a:x", "b:y"])));
    let (run, a) = run.step(OrgEvent::Count(1));
    assert_eq!(run.phase(), GroupInfoPhase::Done);
    assert!(matches!(a, OrgAction::Finish));
}

#[test]
fn contexts_lists_the_senders_contexts() {
    let run = Contexts::new(ContextsRequest { user: None, sender: ("me".to_string(), "home.org".to_string()) });
    let (run, a) = run.step(OrgEvent::Begin);
    assert!(matches!(&a, OrgAction::ContextAdminOf(u, s) if u == "me" && s == "home.org"));
    let (run, a) = run.step(OrgEvent::Names(strings(&["c1"])));
    assert!(matches!(&a, OrgAction::ContextOwnerOf(u, s) if u == "me" && s == "home.org"));
    let (_, a) = run.step(OrgEvent::Names(Vec::new()));
    assert_eq!(plain_of(&a), "Context Summary of me:home.org\n* Admin of 1 context: c1");
}

#[test]
fn contexts_of_a_user_without_any() {
    let run = Contexts::new(ContextsRequest {
        user: Some("@bob:y.org".to_string()),
        sender: ("me".to_string(), "home.org".to_string()),
    });
    let (run, a) = run.step(OrgEvent::Begin);
    assert!(matches!(&a, OrgAction::ContextAdminOf(u, s) if u == "bob" && s == "y.org"));
    let (run, _) = run.step(OrgEvent::Names(Vec::new()));
    let (_, a) = run.step(OrgEvent::Names(Vec::new()));
    assert!(is_plain_reply(&a));
    assert_eq!(plain_of(&a), "This user is not owner or admin of any contexts.");

    let run = Contexts::new(ContextsRequest {
        user: Some("@bob:y:z".to_string()),
        sender: ("me".to_string(), "home.org".to_string()),
    });
    let (_, a) = run.step(OrgEvent::Begin);
    assert_eq!(plain_of(&a), "Malformed user argument, expected @mention.");
}

#[test]
fn perms_lists_the_rules_of_the_room_context() {
    let run = Perms::new(PermsRequest { context: None });
    let (run, a) = run.step(OrgEvent::Begin);
    assert!(matches!(a, OrgAction::RoomContext));
    let (run, a) = run.step(found(3, "org.ctx", "", 1, None));
    assert!(matches!(a, OrgAction::ListRules(3)));
    let rule = RuleEntry {
        qualifier: "core.ping".to_string(),
        allowed: true,
        group_name: "org.team".to_string(),
        priority: "0".to_string(),
    };
    let (_, a) = run.step(OrgEvent::Rules(vec![rule]));
    assert_eq!(plain_of(&a), "Permission rules of org.ctx\n✓ core.ping group=org.team priority=0");
    assert_eq!(
        html_of(&a),
        "Permission rules of <b>org.ctx</b><table><tr><th>Allowed</th><th>Permission</th><th>Group</th><th>Priority</th></tr><tr><td>✓</td><td>core.ping</td><td>org.team</td><td>0</td></tr><table>"
    );
}

#[test]
fn perms_without_rules_or_context() {
    let run = Perms::new(PermsRequest { context: Some("org.ctx".to_string()) });
    let (run, a) = run.step(OrgEvent::Begin);
    assert!(matches!(&a, OrgAction::FindContext(n) if n == "org.ctx"));
    let (run, _) = run.step(found(3, "org.ctx", "", 1, None));
    let (_, a) = run.step(OrgEvent::Rules(Vec::new()));
    assert_eq!(plain_of(&a), "Context org.ctx has no permission rules");

    let run = Perms::new(PermsRequest { context: Some("a<b".to_string()) });
    let (run, _) = run.step(OrgEvent::Begin);
    let (_, a) = run.step(OrgEvent::Group(None));
    assert_eq!(plain_of(&a), "Could not find a context named a&lt;b");

    let run = Perms::new(PermsRequest { context: None });
    let (run, _) = run.step(OrgEvent::Begin);
    let (_, a) = run.step(OrgEvent::Group(None));
    assert_eq!(plain_of(&a), "This room does not have a context set");
}

#[test]
fn contextset_attaches_with_power_level_100() {
    let run = ContextSet::new(ContextSetRequest { context: "org.ctx".to_string() });
    let (run, a) = run.step(OrgEvent::Begin);
    assert!(matches!(&a, OrgAction::FindContext(n) if n == "org.ctx"));
    let (run, a) = run.step(found(3, "org.ctx", "", 1, None));
    assert!(matches!(a, OrgAction::PowerLevel));
    let (run, a) = run.step(OrgEvent::Level(100));
    assert!(matches!(a, OrgAction::AttachRoom(3)));
    let (_, a) = run.step(OrgEvent::Attached(Some("old.ctx".to_string())));
    assert_eq!(plain_of(&a), "Room context set, replacing existing context old.ctx");
    assert_eq!(html_of(&a), "Room context set, replacing existing context <b>old.ctx</b>");
}

#[test]
fn contextset_refuses_a_lower_power_level() {
    let run = ContextSet::new(ContextSetRequest { context: "org.ctx".to_string() });
    let (run, _) = run.step(OrgEvent::Begin);
    let (run, _) = run.step(found(3, "org.ctx", "", 1, None));
    let (_, a) = run.step(OrgEvent::Level(99));
    assert_eq!(plain_of(&a), "Failed to set room context, no permission: require room permission level 100");

    let run = ContextSet::new(ContextSetRequest { context: "org.ctx".to_string() });
    let (run, _) = run.step(OrgEvent::Begin);
    let (run, _) = run.step(found(3, "org.ctx", "", 1, None));
    let (run, _) = run.step(OrgEvent::Level(100));
    let (_, a) = run.step(OrgEvent::Attached(None));
    assert!(is_plain_reply(&a));
    assert_eq!(plain_of(&a), "Room context set");

    let run = ContextSet::new(ContextSetRequest { context: "a<b".to_string() });
    let (run, _) = run.step(OrgEvent::Begin);
    let (_, a) = run.step(OrgEvent::Group(None));
    assert_eq!(plain_of(&a), "No context found with name a<b");
    assert_eq!(html_of(&a), "No context found with name <code>a&lt;b</code>");
}

#[test]
fn contextunset_detaches_with_power_level_100() {
    let run = ContextUnset::new();
    let (run, a) = run.step(OrgEvent::Begin);
    assert!(matches!(a, OrgAction::RoomContext));
    let (run, a) = run.step(found(3, "org.ctx", "", 1, None));
    assert!(matches!(a, OrgAction::PowerLevel));
    let (run, a) = run.step(OrgEvent::Level(100));
    assert!(matches!(a, OrgAction::DetachRoom));
    let (run, a) = run.step(OrgEvent::Updated);
    assert_eq!(run.phase(), ContextUnsetPhase::Done);
    assert_eq!(plain_of(&a), "Room context unset, previously org.ctx");
}

#[test]
fn contextunset_refuses_or_finds_no_context() {
    let run = ContextUnset::new();
    let (run, _) = run.step(OrgEvent::Begin);
    let (run, _) = run.step(found(3, "org.ctx", "", 1, None));
    let (_, a) = run.step(OrgEvent::Level(50));
    assert_eq!(plain_of(&a), "Failed to unset room context, no permission: require room permission level 100");

    let run = ContextUnset::new();
    let (run, _) = run.step(OrgEvent::Begin);
    let (_, a) = run.step(OrgEvent::Group(None));
    assert_eq!(plain_of(&a), "This room does not have a context set");
}

#[test]
fn contextinfo_of_an_unknown_context() {
    let run = ContextInfo::new(ContextInfoRequest { name: Some("a<b".to_string()) });
    let (run, _) = run.step(OrgEvent::Begin);
    let (_, a) = run.step(OrgEvent::Group(None));
    assert_eq!(plain_of(&a), "No contexts with name a<b");
    assert_eq!(html_of(&a), "No contexts with name<b>a&lt;b</b>");
}
