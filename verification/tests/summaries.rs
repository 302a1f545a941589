use merlin_matrix::contexts::{
    attach_refusal, can_set_room_context, context_deletion_summary, context_info_no_room_context_reply,
    context_info_not_found_reply, context_info_summary, context_nothing_to_change_reply,
    context_set_not_found_reply, context_set_reply, context_unset_reply, contexts_reply,
    no_room_context_reply, room_context_refusal, Attachment, CmdContextSet, CmdContextUnset,
    ContextCreated, ContextUpdate,
};
use merlin_matrix::groups::{
    group_deletion_summary, group_info_summary, group_not_found_reply, groups_summary,
    malformed_user_reply, no_group_to_delete_reply, nothing_to_change_reply, CmdGroupDel,
    GroupCreated, GroupUpdate,
};
use merlin_matrix::org::Reply;
use merlin_matrix::perms::{
    context_not_found_reply, missing_target_reply, no_rules_reply, rule_change_denied_reply,
    rule_priority, rule_set_reply, rules_reply, CmdPermSet, Missing, RuleEntry,
};

fn strings(v: &[&str]) -> Vec<String> {
    v.iter().map(|s| s.to_string()).collect()
}

fn pair(a: &str, b: &str) -> (String, String) {
    (a.to_string(), b.to_string())
}

fn html(r: Reply) -> (String, String) {
    match r {
        Reply::Html(p, h) => (p, h),
        Reply::Plain(p) => panic!("expected an HTML reply, got {p}"),
    }
}

fn plain(r: Reply) -> String {
    match r {
        Reply::Plain(p) => p,
        Reply::Html(p, _) => panic!("expected a plain reply, got {p}"),
    }
}

#[test]
fn group_created_summary() {
    let g = GroupCreated {
        name: "org.admins".to_string(),
        desc: "a < b".to_string(),
        owner: pair("alice", "x.org"),
        admin_group: Some("org.root".to_string()),
        users: vec![pair("bob", "y"), pair("carol", "z")],
        malformed: strings(&["dave"]),
        missing: strings(&["@erin:w"]),
    };
    let (p, h) = g.summary();
    assert_eq!(
        p,
        "Created Group \"org.admins\":\n* Description - a < b\n* Owner - alice:x.org\n* Admin group - org.root\n* Users - bob:y, carol:z\n* Malformed users (not added) - \"dave\"\n* Missing users (not added) - erin:w"
    );
    assert_eq!(
        h,
        "<b>Created Group <code>org.admins</code></b><table><tr><td>Description</td><td>a &lt; b</td></tr><tr><td>Owner</td><td><b>alice:x.org</b></td></tr><tr><td>Admin group</td><td><b>org.root</b></td></tr><tr><td>Users</td><td><b>bob:y</b>, <b>carol:z</b></td><tr><td>Malformed users (not added)</td><td><code>dave</code></td><tr><td>Missing users (not added)</td><td><b>erin:w</b></td></table>"
    );
}

#[test]
fn group_created_minimal_summary() {
    let g = GroupCreated {
        name: "o.g".to_string(),
        desc: String::new(),
        owner: pair("a", "b"),
        admin_group: None,
        users: vec![],
        malformed: vec![],
        missing: vec![],
    };
    assert_eq!(
        g.summary(),
        pair(
            "Created Group \"o.g\":\n* Description - [empty string]\n* Owner - a:b",
            "<b>Created Group <code>o.g</code></b><table><tr><td>Description</td><td><i>[empty string]</i></td></tr><tr><td>Owner</td><td><b>a:b</b></td></tr></table>"
        )
    );
}

#[test]
fn group_update_summary() {
    let u = GroupUpdate {
        name: "o.g".to_string(),
        new_name: Some("o.h".to_string()),
        new_desc: Some(String::new()),
        new_owner: Some(pair("z", "q")),
        new_admin_group: Some(None),
        added: vec![pair("a", "x")],
        malformed_add: strings(&["m"]),
        missing_add: strings(&["@n:s"]),
        unchanged_add: vec![pair("u", "v")],
        removed: vec![pair("r", "t")],
        malformed_remove: strings(&["k"]),
        unchanged_remove: vec![pair("w", "w")],
        missing_remove: strings(&["@gone:s"]),
    };
    let (p, h) = u.summary();
    assert_eq!(
        p,
        "Group Update Summary for \"o.g\":\n* New name: o.h\n* New desc: [empty string]\n* New owner: z:q\n* New admin group: none\n* Added users - a:x\n* Malformed users (not added) - \"m\"\n* Missing users (not added) - n:s\n* Users already in group (not added) - u:v\n* Removed users - r:t\n* Malformed users (not removed) - \"k\"\n* Users already in group (not added) - w:w, gone:s"
    );
    assert_eq!(
        h,
        "<b>Group Update Summary for <code>o.g</code></b>\n<table>\n<tr><td>New name</td><td><code>o.h</code></td></tr>\n<tr><td>New description</td><td><i>[empty string]</i></td></tr>\n<tr><td>New owner</td><td>z:q</td></tr>\n<tr><td>New admin group</td><td><i>none</i></td></tr>\n<tr><td>Added users</td><td><b>a:x</b></td>\n<tr><td>Malformed users (not added)</td><td><code>m</code></td>\n<tr><td>Missing users (not added)</td><td><b>n:s</b></td>\n<tr><td>Users already in group (not added)</td><td><b>u:v</b></td>\n<tr><td>Removed users</td><td><b>r:t</b></td>\n<tr><td>Malformed users (not removed)</td><td><code>k</code></td>\n<tr><td>Users already in group (not added)</td><td><b>w:w</b>, <b>gone:s</b></td>\n</table>"
    );
    let u = GroupUpdate {
        name: "o.g".to_string(),
        new_name: None,
        new_desc: Some("text".to_string()),
        new_owner: None,
        new_admin_group: Some(Some("o.adm".to_string())),
        added: vec![],
        malformed_add: vec![],
        missing_add: vec![],
        unchanged_add: vec![],
        removed: vec![],
        malformed_remove: vec![],
        unchanged_remove: vec![],
        missing_remove: vec![],
    };
    assert_eq!(
        u.summary(),
        pair(
            "Group Update Summary for \"o.g\":\n* New desc: text\n* New admin group: o.adm",
            "<b>Group Update Summary for <code>o.g</code></b>\n<table>\n<tr><td>New description</td><td>text</td></tr>\n<tr><td>New admin group</td><td>o.adm</td></tr>\n</table>"
        )
    );
}

#[test]
fn group_deletion() {
    assert_eq!(plain(no_group_to_delete_reply()), "Specify at least one group to delete");
    let (p, h) = group_deletion_summary(&strings(&["a.b", "c.d"]), &strings(&["e.f"]), &strings(&[]));
    assert_eq!(p, "Group Deletion Summary\n* Deleted: a.b, c.d\n* Not deleted (not owner): e.f");
    assert_eq!(
        h,
        "Group Deletion Summary\n<table><tr><td>Deleted</td><td><b>a.b</b>, <b>c.d</b></td></tr><tr><td>Not deleted (not owner)</td><td><b>e.f</b></td></tr></table>"
    );
    assert_eq!(CmdGroupDel.permissions()[0], "core.org.groups.add");
}

#[test]
fn group_info() {
    assert_eq!(
        html(group_not_found_reply("x.y")),
        pair("Could not find any groups named \"x.y\"", "Could not find any groups named <b>x.y</b>")
    );
    let (p, h) = group_info_summary("o.g", "alice", &None, &strings(&["a", "b"]), 7);
    assert_eq!(p, "Group info for \"o.g\"\n* Owner - alice\n* Members - a, b and 5 more");
    assert_eq!(
        h,
        "<b>Group info for <code>o.g</code><b><table><tr><td>Owner</td><td><b>alice</b></td></tr><tr><td>Members</td><td><b>a</b>, <b>b</b> and 5 more</td></tr></table>"
    );
    let (p, _) = group_info_summary("o.g", "alice", &Some("o.adm".to_string()), &strings(&[]), 0);
    assert_eq!(p, "Group info for \"o.g\"\n* Owner - alice\n* Admin group - o.adm\n* Members - [empty group]");
    let (p, _) = group_info_summary("o.g", "alice", &None, &strings(&["a"]), 1);
    assert_eq!(p, "Group info for \"o.g\"\n* Owner - alice\n* Members - a");
}

#[test]
fn groups_listing() {
    assert_eq!(plain(malformed_user_reply()), "Malformed user argument, expected @mention.");
    let (p, h) = groups_summary("a", "x", &strings(&["g.one"]), &strings(&[]), &strings(&["g.one", "g.two"]));
    assert_eq!(p, "Groups Summary of a:x\n* Member of 1 group: g.one\n* Owner of 2 groups: g.one, g.two");
    assert_eq!(
        h,
        "Groups Summary of <b>a:x<b><table><tr><td>Member of 1 group</td><td><i><b>g.one</b></i></td></tr><tr><td>Owner of 2 groups</td><td><i><b>g.one</b>, <b>g.two</b></i></td></tr></table>"
    );
    let (p, h) = groups_summary("a", "x", &strings(&[]), &strings(&["g"]), &strings(&[]));
    assert_eq!(p, "Groups Summary of a:x\n* Not member of any groups\n* Admin of 1 group: g");
    assert_eq!(
        h,
        "Groups Summary of <b>a:x<b><table><tr><td>Member of 0 groups</td><td><i>[empty list]</i></td></tr><tr><td>Admin of 1 group</td><td><i><b>g</b></i></td></tr></table>"
    );
    assert_eq!(
        html(nothing_to_change_reply()),
        pair("Nothing to change: no options provided", "Nothing to change: no options provided")
    );
}

#[test]
fn context_created_summary() {
    let c = ContextCreated {
        name: "o.c".to_string(),
        desc: "x&y".to_string(),
        owner: "alice:x".to_string(),
        admin_group: None,
        attachment: Some(Attachment::Replaced("o.old".to_string())),
    };
    assert_eq!(
        c.summary(),
        pair(
            "Created Context \"o.c\":\n* Description - x&y\n* Owner - alice:x\n* Attach to room - succeeded, replaced exsting context o.old",
            "<b>Created Context <code>o.c</code></b><table><tr><td>Description</td><td>x&amp;y</td></tr><tr><td>Owner</td><td><b>alice:x</b></td></tr><tr><td>Attach to room</td><td>Succeeded, replaced existing context <b>o.old</b></td></tr></table>"
        )
    );
    let c = ContextCreated {
        name: "o.c".to_string(),
        desc: String::new(),
        owner: "a".to_string(),
        admin_group: Some("o.adm".to_string()),
        attachment: Some(Attachment::Refused(attach_refusal())),
    };
    let (p, h) = c.summary();
    assert_eq!(p, "Created Context \"o.c\":\n* Description - [empty string]\n* Owner - a\n* Admin group - o.adm\n* Attach to room - failed, err");
    assert!(h.ends_with("<tr><td>Attach to room</td><td>Failed, no permission: require permission level 100</td></tr></table>"));
    let c = ContextCreated {
        name: "o.c".to_string(),
        desc: String::new(),
        owner: "a".to_string(),
        admin_group: None,
        attachment: Some(Attachment::Attached),
    };
    assert!(c.summary().1.ends_with("<tr><td>Attach to room</td><td>Succeeded</b></td></tr></table>"));
}

#[test]
fn context_deletion_lists_only_empty_sections() {
    let (p, h) = context_deletion_summary(&strings(&["o.a"]), &strings(&[]), &strings(&[]));
    assert_eq!(p, "Context Deletion Summary\n* Not deleted (not found): \n* Not deleted (not owner): ");
    assert_eq!(
        h,
        "Context Deletion Summary\n<table><tr><td>Not deleted (not found)</td><td></td></tr><tr><td>Not deleted (not owner)</td><td></td></tr></table>"
    );
}

#[test]
fn context_info() {
    assert_eq!(
        html(context_info_not_found_reply("a<b")),
        pair("No contexts with name a<b", "No contexts with name<b>a&lt;b</b>")
    );
    assert_eq!(
        plain(context_info_no_room_context_reply()),
        "This room does not have a context set, specify a context to view"
    );
    let (p, h) = context_info_summary("o.c", true, "d", "alice", &None, 3);
    assert_eq!(p, "Context info for \"o.c\" (active)\n* Description - d\n* Owner - alice\n* Usage - used in 3 rooms");
    assert_eq!(
        h,
        "<b>Context info for <code>o.c</code><b> (active)<table><tr><td>Description</td><td>d</td></tr><tr><td>Owner</td><td><b>alice</b></td></tr><tr><td>Usage</td><td>used in 3 rooms</td></tr></table>"
    );
    let (p, _) = context_info_summary("o.c", false, "", "alice", &Some("o.adm".to_string()), 1);
    assert_eq!(p, "Context info for \"o.c\"\n* Description - [empty string]\n* Owner - alice\n* Admin group - o.adm\n* Usage - used in 1 room");
    let (p, _) = context_info_summary("o.c", false, "", "alice", &None, 0);
    assert_eq!(p, "Context info for \"o.c\"\n* Description - [empty string]\n* Owner - alice\n* Usage - not used in any rooms");
}

#[test]
fn context_update_summary() {
    let u = ContextUpdate {
        name: "o.c".to_string(),
        new_name: Some("o.d".to_string()),
        new_desc: Some("<x>".to_string()),
        new_owner: Some("bob".to_string()),
        new_admin_group: Some(Some("o.adm".to_string())),
    };
    assert_eq!(
        u.summary(),
        pair(
            "\nContext Update Summary for \"o.c\":\n* New name: o.d\n* New desc:<x>\n* New owner: bob\n* New admin group: o.adm",
            "<b>Context Update Summary for <code>o.c</code></b><table><tr><td>New name</td><td><code>o.d</code></td></tr><tr><td>New description</td><td>&lt;x&gt;</td></tr><tr><td>New owner</td><td><b>bob</b></td></tr><tr><td>New admin group</td><td><b>o.adm</b></td></tr></table>"
        )
    );
    assert_eq!(plain(context_nothing_to_change_reply()), "Nothing to change: no options provided");
}

#[test]
fn contexts_listing() {
    assert_eq!(
        plain(contexts_reply("a", "x", &strings(&[]), &strings(&[]))),
        "This user is not owner or admin of any contexts."
    );
    assert_eq!(
        html(contexts_reply("a", "x", &strings(&["o.c"]), &strings(&[]))),
        pair(
            "Context Summary of a:x\n* Admin of 1 context: o.c",
            "Context Summary of <b>a:x<b><table><tr><td>Admin of 1 context</td><td><i><b>o.c</b></i></td></tr></table>"
        )
    );
}

#[test]
fn room_context_changes() {
    assert!(can_set_room_context(100));
    assert!(!can_set_room_context(99));
    assert!(CmdContextSet.permissions().is_empty() && CmdContextUnset.permissions().is_empty());
    assert_eq!(
        html(context_set_not_found_reply("a&b")),
        pair("No context found with name a&b", "No context found with name <code>a&amp;b</code>")
    );
    assert_eq!(
        html(context_set_reply(&Attachment::Replaced("o.old".to_string()))),
        pair("Room context set, replacing existing context o.old", "Room context set, replacing existing context <b>o.old</b>")
    );
    assert_eq!(plain(context_set_reply(&Attachment::Attached)), "Room context set");
    assert_eq!(
        plain(context_set_reply(&Attachment::Refused(room_context_refusal()))),
        "Failed to set room context, no permission: require room permission level 100"
    );
    assert_eq!(plain(no_room_context_reply()), "This room does not have a context set");
    assert_eq!(
        html(context_unset_reply(&Ok("o.c".to_string()))),
        pair("Room context unset, previously o.c", "Room context unset, previously <b>o.c</b>")
    );
    assert_eq!(
        plain(context_unset_reply(&Err(room_context_refusal()))),
        "Failed to unset room context, no permission: require room permission level 100"
    );
}

#[test]
fn permission_rules() {
    assert_eq!(
        html(context_not_found_reply("a<b")),
        pair("Could not find a context named a&lt;b", "Could not find a context named <b>a&lt;b</b>")
    );
    assert_eq!(
        html(no_rules_reply("o.c")),
        pair("Context o.c has no permission rules", "Context <b>o.c</b> has no permission rules")
    );
    let rules = vec![
        RuleEntry { qualifier: "core".to_string(), allowed: true, group_name: "o.g".to_string(), priority: "0".to_string() },
        RuleEntry { qualifier: "*".to_string(), allowed: false, group_name: "o.h".to_string(), priority: "-1".to_string() },
    ];
    let (p, h) = rules_reply("o.c", &rules);
    assert_eq!(p, "Permission rules of o.c\n✓ core group=o.g priority=0\n✕ * group=o.h priority=-1");
    assert_eq!(
        h,
        "Permission rules of <b>o.c</b><table><tr><th>Allowed</th><th>Permission</th><th>Group</th><th>Priority</th></tr><tr><td>✓</td><td>core</td><td>o.g</td><td>0</td></tr><tr><td>✕</td><td>*</td><td>o.h</td><td>-1</td></tr><table>"
    );
}

#[test]
fn permission_rule_setting() {
    assert_eq!(rule_priority(None), 0);
    assert_eq!(rule_priority(Some(-3)), -3);
    assert_eq!(
        html(rule_change_denied_reply("o.c")).0,
        "Permissing denied: you are neither the owner or in the admin group of context o.c"
    );
    assert_eq!(
        html(missing_target_reply(Missing::Group, "g<")),
        pair("Could not find group with name g&lt;", "Could not find group with name <b>g&lt;</b>")
    );
    assert_eq!(html(missing_target_reply(Missing::Permission, "p")).0, "Could not find permission with name p");
    let (p, h) = html(rule_set_reply("o.c", "core", "o.g", false));
    assert_eq!(p, "Context Permission Set\n* Context - o.c\n* Permission - core\n* Group - o.g\n* Allowed - false");
    assert_eq!(
        h,
        "<b>Context Permission Set</b><table>\n<tr><td>Context</td><td><b>o.c</b></td></tr>\n<tr><td>Permission</td><td><b>core</b></td></tr>\n<tr><td>Group</td><td><b>o.g</b></td></tr>\n<tr><td>Allowed</td><td><b>false</b></td></tr>\n</table>"
    );
    assert_eq!(CmdPermSet.permissions().len(), 6);
}
