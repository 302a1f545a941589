use merlin_matrix::args::{asks_for_permissions, help_reply, invoked_name, permissions_reply};
use merlin_matrix::help::HelpMessage;

const GROUPADD_HELP: &str = "Create a new group\n\nUsage: groupadd [OPTIONS] <GROUP>\n\nArguments:\n  <GROUP>  Unique name of the group\n  [CONTEXT]  Name of the context\n\nOptions:\n  -d, --desc <DESC>  A short description\n  -h, --help  Print help\n";

#[test]
fn parse_reads_description_usage_and_sections() {
    let h = HelpMessage::parse("groupadd".to_string(), GROUPADD_HELP);
    assert_eq!(h.name, "groupadd");
    assert_eq!(h.description, "Create a new group");
    assert_eq!(h.usage, "groupadd [OPTIONS] <GROUP>");
    assert_eq!(
        h.args,
        vec![
            (None, "<GROUP>  Unique name of the group".to_string()),
            (Some("[CONTEXT]".to_string()), "Name of the context".to_string()),
        ]
    );
    assert_eq!(
        h.options,
        vec![
            ("-d, --desc".to_string(), "<DESC>  A short description".to_string()),
            ("-h, --help".to_string(), " Print help".to_string()),
        ]
    );
}

#[test]
fn parse_of_short_texts() {
    let h = HelpMessage::parse("x".to_string(), "");
    assert_eq!(h.description, "");
    assert_eq!(h.usage, "");
    assert!(h.args.is_empty() && h.options.is_empty());

    let h = HelpMessage::parse("x".to_string(), "Only a line\r\n");
    assert_eq!(h.description, "Only a line");
    assert_eq!(h.usage, "");
}

#[test]
fn lines_outside_sections_are_ignored() {
    let text = "d\n\nUsage: x\nstray line\nOther:\n  ignored\nArguments:\n  [A] first\nNot a header line:\n  [B]   second  \n";
    let h = HelpMessage::parse("x".to_string(), text);
    assert_eq!(
        h.args,
        vec![
            (Some("[A]".to_string()), "first".to_string()),
            (None, "Not a header line:".to_string()),
            (Some("[B]".to_string()), "second".to_string()),
        ]
    );
    assert!(h.options.is_empty());
}

#[test]
fn plain_page_pads_tags() {
    let h = HelpMessage::parse("groupadd".to_string(), GROUPADD_HELP);
    let expected = [
        "Help Page for .groupaddCreate a new group\n",
        "\nUsage: groupadd [OPTIONS] <GROUP>\n",
        "\nArguments:\n",
        "  (positional)  <GROUP>  Unique name of the group\n",
        "  [CONTEXT]     Name of the context\n",
        "\nOptions:\n",
        "  -d, --desc  <DESC>  A short description\n",
        "  -h, --help   Print help\n",
    ]
    .concat();
    assert_eq!(h.plain(), expected);
}

#[test]
fn html_page_uses_tables() {
    let h = HelpMessage::parse("groupadd".to_string(), GROUPADD_HELP);
    let expected = [
        "<h2>Help Page for .groupadd</h2>Create a new group\n",
        "<br><br><b>Usage</b>: groupadd [OPTIONS] <GROUP><br>\n",
        "<h4>Arguments</h4><table>\n",
        "<tr><td>(positional)</td><td><GROUP>  Unique name of the group</td></tr>\n",
        "<tr><td>[CONTEXT]</td><td>Name of the context</td></tr>\n",
        "\n</table>\n",
        "<h4>Options</h4><table>\n",
        "<tr><td>-d, --desc</td><td><DESC>  A short description</td></tr>\n",
        "<tr><td>-h, --help</td><td> Print help</td></tr>\n",
        "\n</table>\n",
    ]
    .concat();
    assert_eq!(h.html(), expected);
}

#[test]
fn pages_without_sections() {
    let h = HelpMessage::parse("ping".to_string(), "Get bot network latency\n\nUsage: ping\n");
    assert_eq!(h.plain(), "Help Page for .pingGet bot network latency\n\nUsage: ping\n");
    assert_eq!(
        h.html(),
        "<h2>Help Page for .ping</h2>Get bot network latency\n<br><br><b>Usage</b>: ping<br>\n"
    );
}

#[test]
fn padding_counts_bytes() {
    let mut h = HelpMessage::parse("x".to_string(), "");
    h.options.push(("-é".to_string(), "accent".to_string()));
    h.options.push(("-abc".to_string(), "plain".to_string()));
    // "-é" is 3 bytes long, "-abc" 4
    assert_eq!(
        h.plain(),
        "Help Page for .x\n\nUsage: \n\nOptions:\n  -é   accent\n  -abc  plain\n"
    );
}

#[test]
fn help_reply_adds_the_permissions_flag() {
    let (plain, html) = help_reply("uptime", "Get bot uptime\n\nUsage: uptime\n\nOptions:\n  -h, --help  Print help\n");
    assert_eq!(
        plain,
        "Help Page for .uptimeGet bot uptime\n\nUsage: uptime\n\nOptions:\n  -h, --help    Print help\n  -P, --perms  Print command permissions\n"
    );
    assert!(html.ends_with("<tr><td>-P, --perms</td><td>Print command permissions</td></tr>\n\n</table>\n"));
}

#[test]
fn permissions_listing() {
    let (plain, html) = permissions_reply("ping", true, &["core.info.ping", "*"]);
    assert_eq!(
        plain,
        "Permissions for .ping\nDefault: Allowed\n\nOverriding permissions: \n* core.info.ping\n* *"
    );
    assert_eq!(
        html,
        "<h1>Permissions for .ping</h1>\nDefault: Allowed\n\n<h4>Overriding permissions</h4>\n<ul><li>core.info.ping</li><li>*</li></ul>"
    );
    let (plain, html) = permissions_reply("contextset", false, &[]);
    assert_eq!(plain, "Permissions for .contextset\nDefault: Disallowed\n\nOverriding permissions: none");
    assert_eq!(
        html,
        "<h1>Permissions for .contextset</h1>\nDefault: Disallowed\n\n<h4>Overriding permissions</h4>\nNo overriding permissions"
    );
}

#[test]
fn permissions_flag_detection() {
    let args = |v: &[&str]| v.iter().map(|s| s.to_string()).collect::<Vec<_>>();
    assert!(asks_for_permissions(&args(&["ping", "-P"])));
    assert!(asks_for_permissions(&args(&["ping", "x", "--perms"])));
    assert!(!asks_for_permissions(&args(&["ping", "-p", "--perm"])));
    assert!(!asks_for_permissions(&args(&[])));
    assert_eq!(invoked_name(&args(&["groups", "-P"])), "groups");
    assert_eq!(invoked_name(&args(&[])), "");
}
