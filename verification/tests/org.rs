use merlin_matrix::org::{
    check_creation, check_modification, description_too_long_reply, distinct_names,
    illegal_name_reply, is_administrator, is_reserved, malformed_owner_reply, name_taken_reply,
    needs_name_check, not_found_for_change_reply, parse_mention, reserved_prefix_reply,
    sort_mentions, unknown_admin_group_reply, unknown_owner_reply, user_labels, Entity,
    Modification, Reply,
};

fn strings(v: &[&str]) -> Vec<String> {
    v.iter().map(|s| s.to_string()).collect()
}

fn html(r: Reply) -> (String, String) {
    match r {
        Reply::Html(p, h) => (p, h),
        Reply::Plain(p) => panic!("expected an HTML reply, got {p}"),
    }
}

fn plain(r: Reply) -> String {
    match r {
        Reply::Plain(p) => p,
        Reply::Html(p, _) => panic!("expected a plain reply, got {p}"),
    }
}

fn modification() -> Modification {
    Modification {
        new_name: None,
        new_desc: None,
        new_owner: None,
        new_admin_group: None,
        remove_admin: false,
        add_users: vec![],
        remove_users: vec![],
    }
}

#[test]
fn mentions() {
    assert_eq!(parse_mention("@alice:example.org"), Some(("alice".to_string(), "example.org".to_string())));
    assert_eq!(parse_mention("@:"), Some((String::new(), String::new())));
    assert_eq!(parse_mention("alice:example.org"), None);
    assert_eq!(parse_mention("@alice"), None);
    assert_eq!(parse_mention("@a:b:c"), None);
    assert_eq!(parse_mention(""), None);
}

#[test]
fn mentions_are_sorted_once() {
    let sorted = sort_mentions(&strings(&["@a:x", "bad", "@b:y", "@a:x", "bad", "@c"]));
    assert_eq!(
        sorted.wellformed,
        vec![
            ("@a:x".to_string(), "a".to_string(), "x".to_string()),
            ("@b:y".to_string(), "b".to_string(), "y".to_string()),
        ]
    );
    assert_eq!(sorted.malformed, strings(&["bad", "@c"]));
    assert_eq!(distinct_names(&strings(&["g.a", "g.b", "g.a"])), strings(&["g.a", "g.b"]));
}

#[test]
fn labels_of_users() {
    let users = vec![("a".to_string(), "x".to_string()), ("b".to_string(), "y".to_string())];
    assert_eq!(user_labels(&users), strings(&["a:x", "b:y"]));
}

#[test]
fn administration_rights() {
    assert!(is_administrator(true, None));
    assert!(!is_administrator(false, None));
    assert!(is_administrator(false, Some(true)));
    assert!(!is_administrator(false, Some(false)));
    assert!(is_administrator(true, Some(false)));
}

#[test]
fn reserved_names() {
    assert!(is_reserved("sys.admins"));
    assert!(!is_reserved("sysadmins"));
    assert!(!is_reserved("org.sys."));
}

#[test]
fn creation_checks_in_order() {
    let r = check_creation(Entity::Group, "sys.x", false, &Some("d".repeat(300)), 255).unwrap();
    assert_eq!(html(r), html(illegal_name_reply(Entity::Group, true)));
    let r = check_creation(Entity::Group, "sys.x", true, &Some("d".repeat(300)), 255).unwrap();
    assert_eq!(
        html(r),
        (
            "Description length must be less than 255, current length: 300".to_string(),
            "Description length must be less than <b>255</b>, current length: <b>300</b>".to_string()
        )
    );
    let r = check_creation(Entity::Context, "sys.x", true, &Some("é".to_string()), 1).unwrap();
    assert_eq!(html(r).0, "Description length must be less than 1, current length: 2");
    let r = check_creation(Entity::Context, "sys.x", true, &None, 255).unwrap();
    assert_eq!(
        html(r),
        (
            "You are not allowed to make contexts with prefix \"sys.\"".to_string(),
            "You are not allowed to make contexts with prefix <code>sys.</code>".to_string()
        )
    );
    assert!(check_creation(Entity::Group, "org.admins", true, &Some("ok".to_string()), 255).is_none());
}

#[test]
fn illegal_name_texts() {
    let (p, h) = html(illegal_name_reply(Entity::Group, true));
    assert_eq!(p, "Illegal group name, group name must:\n* Be in format \"chunks1.chunks2.etc\" with at least 2 chunks\n* Contain only alphabet/numbers or '-', '_', '.'");
    assert_eq!(h, "Illegal group name, group name must:\n<ul>\n<li>Be in format <b>chunks1.chunks2.etc</b> with at least 2 chunks</li>\n<li>Contain only alphabet/numbers or '-', '_', '.'</li>\n</ul>");
    let (p, _) = html(illegal_name_reply(Entity::Context, false));
    assert_eq!(p, "Illegal context name, context name must:\n* Be in format chunks1.chunks2.etc with at least 2 chunks\n* Contain only alphabet/numbers or '-', '_', '.'");
}

#[test]
fn modification_checks_in_order() {
    let mut m = modification();
    m.new_name = Some("sys.x".to_string());
    m.new_admin_group = Some("g.admins".to_string());
    let r = check_modification(Entity::Group, &m, "org.team", true, 255, false, false).unwrap();
    assert_eq!(
        html(r),
        (
            "No permission: you are not a group admin of \"org.team\"".to_string(),
            "No permission: you are not a group admin of <code>org.team</code>".to_string()
        )
    );
    let r = check_modification(Entity::Group, &m, "org.team", true, 255, false, true).unwrap();
    assert_eq!(
        html(r),
        (
            "Cannot change admin group of \"org.team\"\" because you are not the group owner".to_string(),
            "Cannot change admin group of <code>org.team</code> because you are not the group owner".to_string()
        )
    );
    let r = check_modification(Entity::Context, &m, "org.ctx", false, 255, true, true).unwrap();
    assert_eq!(html(r), html(illegal_name_reply(Entity::Context, false)));
    let r = check_modification(Entity::Context, &m, "org.ctx", true, 255, true, true).unwrap();
    assert_eq!(html(r), html(reserved_prefix_reply(Entity::Context)));

    let mut m = modification();
    m.new_desc = Some("abc".to_string());
    m.remove_admin = true;
    m.new_admin_group = Some("g".to_string());
    m.new_owner = Some("nobody".to_string());
    let r = check_modification(Entity::Group, &m, "o.g", true, 2, true, true).unwrap();
    assert_eq!(html(r), html(description_too_long_reply(2, 3)));
    let r = check_modification(Entity::Group, &m, "o.g", true, 10, true, true).unwrap();
    assert_eq!(
        html(r),
        (
            "Not changed: remove_admin and new_admin_group is both set".to_string(),
            "Not changed: <i>remove_admin</i> and <i>new_admin_group</i> is both set".to_string()
        )
    );
    m.remove_admin = false;
    let r = check_modification(Entity::Group, &m, "o.g", true, 10, true, true).unwrap();
    assert_eq!(plain(r), "Owner argument malformed: it should be an @mention");
    m.new_owner = Some("@new:owner".to_string());
    assert!(check_modification(Entity::Group, &m, "o.g", true, 10, true, true).is_none());
}

#[test]
fn non_owners_may_change_only_description_and_members() {
    let mut m = modification();
    m.new_desc = Some("d".to_string());
    m.add_users = strings(&["@a:b"]);
    assert!(!m.is_empty());
    assert!(check_modification(Entity::Group, &m, "o.g", true, 10, false, true).is_none());
    m.new_owner = Some("@x:y".to_string());
    let r = check_modification(Entity::Context, &m, "o.c", true, 10, false, true).unwrap();
    assert_eq!(html(r).0, "Cannot change owner of \"o.c\"\" because you are not the context owner");
    assert!(modification().is_empty());
}

#[test]
fn rename_checks() {
    assert!(!needs_name_check(&None, "org.a"));
    assert!(!needs_name_check(&Some("ORG.A".to_string()), "org.a"));
    assert!(needs_name_check(&Some("org.b".to_string()), "org.a"));
    assert!(needs_name_check(&Some("org.aa".to_string()), "org.a"));
}

#[test]
fn shared_replies() {
    assert_eq!(plain(malformed_owner_reply()), "Owner argument malformed: it should be an @mention");
    assert_eq!(
        html(unknown_owner_reply(Entity::Group, "@z:q")),
        (
            "Not created: new group owner @z:q has never joined a room with Merlin".to_string(),
            "Not created: new group owner <b>@z:q</b> has never joined a room with Merlin".to_string()
        )
    );
    assert_eq!(
        html(unknown_owner_reply(Entity::Context, "@z:q")).0,
        "Not created: new context owner @z:q has never joined a room with Merlin"
    );
    assert_eq!(
        html(name_taken_reply(Entity::Group, true, "org.a")),
        (
            "Not created, there is already another group called \"org.a\"".to_string(),
            "Not created, there is already another group called <code>org.a</code>".to_string()
        )
    );
    assert_eq!(
        html(name_taken_reply(Entity::Context, false, "c.a")).0,
        "Not modified, there is already another context called \"c.a\""
    );
    assert_eq!(
        html(unknown_admin_group_reply("g.x")),
        ("Could not find group with name g.x".to_string(), "Could not find group with name <i>g.x</i>".to_string())
    );
    assert_eq!(
        html(not_found_for_change_reply(Entity::Group, "g.x")),
        ("I could not find a group called \"g.x\"".to_string(), "I could not find a group called <code>g.x</code>".to_string())
    );
}
