use merlin_matrix::cmd::{
    command_from_words, command_words, crash_reply, strip_command_prefix, CmdIndex, PermissionCheck,
};
use merlin_matrix::handlers::users_to_register;
use merlin_matrix::registry::{core_index, default_of, name_of, qualifiers_of, CoreCmd};
use merlin_matrix::org::parse_mention;

fn strings(v: &[&str]) -> Vec<String> {
    v.iter().map(|s| s.to_string()).collect()
}

#[test]
fn index_finds_what_was_registered() {
    let mut index: CmdIndex<u32> = CmdIndex::new();
    assert_eq!(index.len(), 0);
    assert!(index.get("ping").is_none());
    index.register("ping", 1);
    index.register("uptime", 2);
    assert_eq!(index.get("ping"), Some(&1));
    assert_eq!(index.get("uptime"), Some(&2));
    assert!(index.get("Ping").is_none());
    assert!(index.contains("uptime"));
    assert!(!index.contains("upt"));
    assert_eq!(index.len(), 2);
}

#[test]
fn built_in_commands_are_all_registered() {
    let index = core_index();
    assert_eq!(index.len(), 15);
    for name in [
        "ping", "uptime", "groupadd", "groupmod", "groups", "groupdel", "groupinfo", "contextadd",
        "contextdel", "contextset", "contextunset", "contextinfo", "contexts", "permset", "perms",
    ] {
        let cmd = index.get(name).expect("registered");
        assert_eq!(name_of(cmd), name);
    }
    assert!(index.get("contextmod").is_none());
    assert!(matches!(index.get("groups"), Some(CoreCmd::Groups(_))));
}

#[test]
fn first_rule_found_decides() {
    let mut check = PermissionCheck::new(true, 3);
    assert_eq!(check.next_qualifier(), Some(0));
    check.record(None);
    assert_eq!(check.next_qualifier(), Some(1));
    check.record(Some(false));
    assert_eq!(check.next_qualifier(), None);
    assert!(!check.allowed());
}

#[test]
fn default_decides_without_rules() {
    let mut check = PermissionCheck::new(false, 2);
    check.record(None);
    check.record(None);
    assert_eq!(check.next_qualifier(), None);
    assert!(!check.allowed());

    let check = PermissionCheck::new(true, 0);
    assert_eq!(check.next_qualifier(), None);
    assert!(check.allowed());
}

#[test]
fn command_lines_are_split_like_a_shell() {
    assert_eq!(
        command_words("groupadd org.admins -d 'the admins' -u @a:b"),
        Some(strings(&["groupadd", "org.admins", "-d", "the admins", "-u", "@a:b"]))
    );
    assert_eq!(command_words("ping \"x y\""), Some(strings(&["ping", "x y"])));
    assert_eq!(command_words("   "), None);
    assert_eq!(command_words(""), None);
    assert_eq!(command_words("ping 'unclosed"), None);
}

#[test]
fn empty_word_lists_are_no_command() {
    assert_eq!(command_from_words(None), None);
    assert_eq!(command_from_words(Some(vec![])), None);
    assert_eq!(command_from_words(Some(strings(&["a"]))), Some(strings(&["a"])));
}

#[test]
fn prefix_is_stripped() {
    assert_eq!(strip_command_prefix(".ping now", "."), Some("ping now".to_string()));
    assert_eq!(strip_command_prefix("!!ping", "!!"), Some("ping".to_string()));
    assert_eq!(strip_command_prefix("ping", "."), None);
    assert_eq!(strip_command_prefix(".", "."), Some(String::new()));
    assert_eq!(strip_command_prefix("é.x", "é."), Some("x".to_string()));
}

#[test]
fn crash_reply_wraps_the_error() {
    let (plain, html) = crash_reply("Boom(\"x\")");
    assert_eq!(plain, "Oops, that's a crash\nBoom(\"x\")");
    assert_eq!(html, "Oops, that's a crash<br><pre>Boom(\"x\")</pre>");
}

#[test]
fn users_are_recorded_once_without_the_bot() {
    let members = strings(&["@a:x", "@bot:x", "@b:y", "@a:x", "@c:z", "@bot:x"]);
    assert_eq!(users_to_register(&members, "@bot:x"), strings(&["@a:x", "@b:y", "@c:z"]));
    assert_eq!(users_to_register(&strings(&[]), "@bot:x"), Vec::<String>::new());
}

#[test]
fn commands_are_listed_in_registration_order() {
    let index = core_index();
    assert_eq!(name_of(index.command_at(0)), "ping");
    assert_eq!(name_of(index.command_at(1)), "uptime");
    assert_eq!(name_of(index.command_at(14)), "perms");
}

#[test]
fn qualifiers_go_from_specific_to_general() {
    let index = core_index();
    let ping = index.get("ping").unwrap();
    assert_eq!(qualifiers_of(ping), &["core.info.ping", "core.info", "core", "*"]);
    assert!(default_of(ping));
    let groupmod = index.get("groupmod").unwrap();
    assert_eq!(
        qualifiers_of(groupmod),
        &["core.org.groups.mod", "core.org.groups", "core.org", "core", "*"]
    );
}

#[test]
fn room_context_commands_cannot_be_disabled() {
    let index = core_index();
    for name in ["contextset", "contextunset"] {
        let cmd = index.get(name).unwrap();
        assert!(qualifiers_of(cmd).is_empty());
        let check = PermissionCheck::new(default_of(cmd), qualifiers_of(cmd).len());
        assert_eq!(check.next_qualifier(), None);
        assert!(check.allowed());
    }
}

#[test]
fn mention_written_from_parts_reads_back() {
    let mention = format!("@{}:{}", "alice", "example.org");
    assert_eq!(parse_mention(&mention), Some(("alice".to_string(), "example.org".to_string())));
    assert_eq!(parse_mention("@:"), Some((String::new(), String::new())));
}
