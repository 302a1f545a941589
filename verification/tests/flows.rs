use merlin_matrix::flows::{deletion_outcome, names_to_look_up, Change, FoundGroup, OrgAction, OrgEvent};
use merlin_matrix::group_flows::{GroupAdd, GroupAddPhase, GroupAddRequest};
use merlin_matrix::groupmod_flow::{GroupMod, GroupModPhase, GroupModRequest};
use merlin_matrix::org::{Modification, Reply};

fn strings(v: &[&str]) -> Vec<String> {
    v.iter().map(|s| s.to_string()).collect()
}

fn found(id: u64, name: &str, owner: u64, admin: Option<u64>) -> OrgEvent {
    OrgEvent::Group(Some(FoundGroup { id, name: name.to_string(), desc: String::new(), owner, admin_group: admin }))
}

fn request(owner: Option<&str>, admin: Option<&str>, users: &[&str]) -> GroupAddRequest {
    GroupAddRequest {
        name: "org.team".to_string(),
        desc: Some("the team".to_string()),
        owner: owner.map(|s| s.to_string()),
        admin_group: admin.map(|s| s.to_string()),
        users: strings(users),
        name_valid: true,
        desc_max_len: 100,
        sender: ("me".to_string(), "home.org".to_string()),
    }
}

fn expect_find_user(a: &OrgAction, user: &str, server: &str) {
    match a {
        OrgAction::FindUser(u, s) => assert_eq!((u.as_str(), s.as_str()), (user, server)),
        _ => panic!("expected a user lookup"),
    }
}

fn expect_find_group(a: &OrgAction, name: &str) {
    match a {
        OrgAction::FindGroup(n) => assert_eq!(n, name),
        _ => panic!("expected a group lookup"),
    }
}

#[test]
fn deletion_keeps_what_the_sender_does_not_own() {
    let names = strings(&["a.x", "b.y", "a.x", "c.z"]);
    assert_eq!(names_to_look_up(&names), strings(&["a.x", "b.y", "c.z"]));
    let found = vec![Some(("a.x".to_string(), true)), None, Some(("C.z".to_string(), false))];
    let out = deletion_outcome(&names, &found);
    assert_eq!(out.deleted, strings(&["a.x"]));
    assert_eq!(out.not_found, strings(&["b.y"]));
    assert_eq!(out.not_owner, strings(&["C.z"]));
}

#[test]
fn groupadd_creates_with_sender_as_owner_and_known_members() {
    let run = GroupAdd::new(request(None, Some("org.admins"), &["@a:x", "bad", "@b:y", "@a:x"]));
    let (run, a) = run.step(OrgEvent::Begin);
    assert!(matches!(a, OrgAction::SenderUser));
    let (run, a) = run.step(OrgEvent::User(Some(1)));
    expect_find_user(&a, "a", "x");
    let (run, a) = run.step(OrgEvent::User(Some(2)));
    expect_find_user(&a, "b", "y");
    let (run, a) = run.step(OrgEvent::User(None));
    expect_find_group(&a, "org.team");
    let (run, a) = run.step(OrgEvent::Group(None));
    expect_find_group(&a, "org.admins");
    let (run, a) = run.step(found(7, "org.admins", 1, None));
    match &a {
        OrgAction::CreateGroup(n, d, o, adm) => {
            assert_eq!((n.as_str(), d.as_str(), *o, *adm), ("org.team", "the team", 1, Some(7)))
        }
        _ => panic!("expected the creation"),
    }
    let (run, a) = run.step(OrgEvent::Created(9));
    assert!(matches!(a, OrgAction::AddMember(2, 9)));
    let (run, a) = run.step(OrgEvent::Changed(true));
    assert_eq!(run.phase(), GroupAddPhase::Done);
    match a {
        OrgAction::Reply(Reply::Html(plain, _)) => assert_eq!(
            plain,
            "Created Group \"org.team\":\n* Description - the team\n* Owner - me:home.org\n* Admin group - org.admins\n* Users - a:x\n* Malformed users (not added) - \"bad\"\n* Missing users (not added) - b:y"
        ),
        _ => panic!("expected the summary"),
    }
}

#[test]
fn groupadd_stops_on_a_taken_name_or_unknown_owner() {
    let run = GroupAdd::new(request(Some("@o:x"), None, &[]));
    let (run, a) = run.step(OrgEvent::Begin);
    expect_find_user(&a, "o", "x");
    let (_, a) = run.step(OrgEvent::User(None));
    assert!(matches!(a, OrgAction::Reply(Reply::Html(ref p, _)) if p == "Not created: new group owner @o:x has never joined a room with Merlin"));

    let run = GroupAdd::new(request(Some("@o:x"), None, &[]));
    let (run, _) = run.step(OrgEvent::Begin);
    let (run, a) = run.step(OrgEvent::User(Some(3)));
    expect_find_group(&a, "org.team");
    let (run, a) = run.step(found(4, "Org.Team", 5, None));
    assert!(matches!(a, OrgAction::Reply(Reply::Html(ref p, _)) if p == "Not created, there is already another group called \"Org.Team\""));
    assert_eq!(run.phase(), GroupAddPhase::Done);

    let run = GroupAdd::new(request(Some("oops"), None, &[]));
    let (_, a) = run.step(OrgEvent::Begin);
    assert!(matches!(a, OrgAction::Reply(Reply::Plain(_))));
}

fn change() -> Modification {
    Modification {
        new_name: None,
        new_desc: None,
        new_owner: None,
        new_admin_group: None,
        remove_admin: false,
        add_users: vec![],
        remove_users: vec![],
    }
}

fn mod_request(change: Modification) -> GroupModRequest {
    GroupModRequest { group: "org.team".to_string(), change, name_valid: true, desc_max_len: 100 }
}

#[test]
fn groupmod_with_nothing_asked() {
    let run = GroupMod::new(mod_request(change()));
    let (run, a) = run.step(OrgEvent::Begin);
    assert!(matches!(a, OrgAction::Reply(_)));
    assert_eq!(run.phase(), GroupModPhase::Done);
}

#[test]
fn groupmod_updates_and_changes_members() {
    let mut c = change();
    c.new_name = Some("org.crew".to_string());
    c.remove_admin = true;
    c.add_users = strings(&["@a:x"]);
    c.remove_users = strings(&["@b:y", "@z:z"]);
    let run = GroupMod::new(mod_request(c));
    let (run, a) = run.step(OrgEvent::Begin);
    expect_find_group(&a, "org.team");
    let (run, a) = run.step(found(5, "org.team", 1, Some(6)));
    assert!(matches!(a, OrgAction::SenderUser));
    let (run, a) = run.step(OrgEvent::User(Some(1)));
    expect_find_group(&a, "org.crew");
    let (run, a) = run.step(OrgEvent::Group(None));
    match &a {
        OrgAction::UpdateGroup(Change { target: group, name, desc, owner, admin_group }) => {
            assert_eq!(*group, 5);
            assert_eq!(name.as_deref(), Some("org.crew"));
            assert!(desc.is_none() && owner.is_none());
            assert_eq!(*admin_group, Some(None));
        }
        _ => panic!("expected the update"),
    }
    let (run, a) = run.step(OrgEvent::Updated);
    expect_find_user(&a, "a", "x");
    let (run, a) = run.step(OrgEvent::User(Some(2)));
    expect_find_user(&a, "b", "y");
    let (run, a) = run.step(OrgEvent::User(Some(3)));
    expect_find_user(&a, "z", "z");
    let (run, a) = run.step(OrgEvent::User(None));
    assert!(matches!(a, OrgAction::AddMember(2, 5)));
    let (run, a) = run.step(OrgEvent::Changed(false));
    assert!(matches!(a, OrgAction::RemoveMember(3, 5)));
    let (run, a) = run.step(OrgEvent::Changed(true));
    assert_eq!(run.phase(), GroupModPhase::Done);
    match a {
        OrgAction::Reply(Reply::Html(plain, _)) => assert_eq!(
            plain,
            "Group Update Summary for \"org.team\":\n* New name: org.crew\n* New admin group: none\n* Users already in group (not added) - a:x\n* Removed users - b:y\n* Users already in group (not added) - z:z"
        ),
        _ => panic!("expected the summary"),
    }
}

#[test]
fn groupmod_refuses_a_non_admin() {
    let mut c = change();
    c.new_desc = Some("d".to_string());
    let run = GroupMod::new(mod_request(c));
    let (run, _) = run.step(OrgEvent::Begin);
    let (run, _) = run.step(found(5, "org.team", 1, Some(6)));
    let (run, a) = run.step(OrgEvent::User(Some(2)));
    assert!(matches!(a, OrgAction::IsMember(2, 6)));
    let (_, a) = run.step(OrgEvent::Member(false));
    assert!(matches!(a, OrgAction::Reply(Reply::Html(ref p, _)) if p == "No permission: you are not a group admin of \"org.team\""));
}

use merlin_matrix::context_flows::{
    ContextAdd, ContextAddPhase, ContextAddRequest, ContextMod, ContextModPhase, ContextModRequest,
};

fn context_request(attach: bool) -> ContextAddRequest {
    ContextAddRequest {
        name: "org.quiet".to_string(),
        desc: None,
        owner: None,
        admin_group: None,
        attach,
        name_valid: true,
        desc_max_len: 100,
        sender: ("me".to_string(), "home.org".to_string()),
    }
}

#[test]
fn contextadd_attaches_with_enough_power() {
    let run = ContextAdd::new(context_request(true));
    let (run, a) = run.step(OrgEvent::Begin);
    assert!(matches!(a, OrgAction::SenderUser));
    let (run, a) = run.step(OrgEvent::User(Some(1)));
    assert!(matches!(a, OrgAction::FindContext(ref n) if n == "org.quiet"));
    let (run, a) = run.step(OrgEvent::Group(None));
    assert!(matches!(a, OrgAction::CreateContext(ref n, ref d, 1, None) if n == "org.quiet" && d.is_empty()));
    let (run, a) = run.step(OrgEvent::Created(4));
    assert!(matches!(a, OrgAction::PowerLevel));
    let (run, a) = run.step(OrgEvent::Level(100));
    assert!(matches!(a, OrgAction::AttachRoom(4)));
    let (run, a) = run.step(OrgEvent::Attached(Some("org.old".to_string())));
    assert_eq!(run.phase(), ContextAddPhase::Done);
    match a {
        OrgAction::Reply(Reply::Html(plain, _)) => assert_eq!(
            plain,
            "Created Context \"org.quiet\":\n* Description - [empty string]\n* Owner - me:home.org\n* Attach to room - succeeded, replaced exsting context org.old"
        ),
        _ => panic!("expected the summary"),
    }
}

#[test]
fn contextadd_refuses_to_attach_without_power() {
    let run = ContextAdd::new(context_request(true));
    let (run, _) = run.step(OrgEvent::Begin);
    let (run, _) = run.step(OrgEvent::User(Some(1)));
    let (run, _) = run.step(OrgEvent::Group(None));
    let (run, _) = run.step(OrgEvent::Created(4));
    let (_, a) = run.step(OrgEvent::Level(50));
    match a {
        OrgAction::Reply(Reply::Html(plain, html)) => {
            assert!(plain.ends_with("\n* Attach to room - failed, err"));
            assert!(html.contains("Failed, no permission: require permission level 100"));
        }
        _ => panic!("expected the summary"),
    }
}

#[test]
fn contextmod_changes_the_description() {
    let mut c = change();
    c.new_desc = Some("calm".to_string());
    let run = ContextMod::new(ContextModRequest {
        context: "org.quiet".to_string(),
        change: c,
        name_valid: true,
        desc_max_len: 100,
    });
    let (run, a) = run.step(OrgEvent::Begin);
    assert!(matches!(a, OrgAction::FindContext(ref n) if n == "org.quiet"));
    let (run, a) = run.step(found(4, "org.quiet", 1, None));
    assert!(matches!(a, OrgAction::SenderUser));
    let (run, a) = run.step(OrgEvent::User(Some(1)));
    match &a {
        OrgAction::UpdateContext(Change { target, desc, name, owner, admin_group }) => {
            assert_eq!(*target, 4);
            assert_eq!(desc.as_deref(), Some("calm"));
            assert!(name.is_none() && owner.is_none() && admin_group.is_none());
        }
        _ => panic!("expected the update"),
    }
    let (run, a) = run.step(OrgEvent::Updated);
    assert_eq!(run.phase(), ContextModPhase::Done);
    match a {
        OrgAction::Reply(Reply::Html(plain, _)) => {
            assert_eq!(plain, "\nContext Update Summary for \"org.quiet\":\n* New desc:calm")
        }
        _ => panic!("expected the summary"),
    }
}
