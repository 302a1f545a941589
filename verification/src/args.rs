//! What a command answers instead of running when its arguments ask for its
//! permissions or for help, or do not parse.
use vstd::prelude::*;

use crate::help::{help_args, help_description, help_options, help_usage, html_page, plain_page, HelpMessage, HelpView};

verus! {

/// Whether the arguments hold `-P` or `--perms`.
pub open spec fn asks_permissions(args: Seq<Seq<char>>) -> bool {
    exists|i: int| 0 <= i < args.len() && (#[trigger] args[i] == "-P"@ || args[i] == "--perms"@)
}

/// Whether the command line asks for the command's permissions instead of running it.
pub fn asks_for_permissions(args: &Vec<String>) -> (res: bool)
    ensures
        res == asks_permissions(args.deep_view()),
{
    let short = String::from_str("-P");
    let long = String::from_str("--perms");
    let mut i: usize = 0;
    while i < args.len()
        invariant
            i <= args@.len(),
            short@ == "-P"@,
            long@ == "--perms"@,
            forall|k: int|
                0 <= k < i ==> !(#[trigger] args.deep_view()[k] == "-P"@ || args.deep_view()[k]
                    == "--perms"@),
        decreases args.len() - i,
    {
        if args[i] == short || args[i] == long {
            assert(args.deep_view()[i as int] == args@[i as int]@);
            return true;
        }
        i = i + 1;
    }
    false
}

/// The name a command line invokes: its first word, or nothing.
pub fn invoked_name(args: &Vec<String>) -> (res: String)
    ensures
        res@ == if args@.len() > 0 {
            args@[0]@
        } else {
            Seq::<char>::empty()
        },
{
    if args.len() > 0 {
        args[0].clone()
    } else {
        String::new()
    }
}

/// How a command's default permission reads.
pub open spec fn default_word(default_permission: bool) -> Seq<char> {
    if default_permission {
        "Allowed"@
    } else {
        "Disallowed"@
    }
}

/// The plain-text list of qualifiers, one `* ` item per line.
pub open spec fn plain_permission_items(perms: Seq<Seq<char>>) -> Seq<char>
    decreases perms.len(),
{
    if perms.len() == 0 {
        Seq::<char>::empty()
    } else {
        plain_permission_items(perms.drop_last()) + "\n* "@ + perms.last()
    }
}

/// The HTML list items of the qualifiers.
pub open spec fn html_permission_items(perms: Seq<Seq<char>>) -> Seq<char>
    decreases perms.len(),
{
    if perms.len() == 0 {
        Seq::<char>::empty()
    } else {
        html_permission_items(perms.drop_last()) + "<li>"@ + perms.last() + "</li>"@
    }
}

/// Plain listing of a command's permissions.
pub open spec fn permissions_plain(name: Seq<char>, default_permission: bool, perms: Seq<Seq<char>>) -> Seq<
    char,
> {
    "Permissions for ."@ + name + "\nDefault: "@ + default_word(default_permission)
        + "\n\nOverriding permissions: "@ + if perms.len() == 0 {
        "none"@
    } else {
        plain_permission_items(perms)
    }
}

/// HTML listing of a command's permissions.
pub open spec fn permissions_html(name: Seq<char>, default_permission: bool, perms: Seq<Seq<char>>) -> Seq<
    char,
> {
    "<h1>Permissions for ."@ + name + "</h1>\nDefault: "@ + default_word(default_permission)
        + "\n\n<h4>Overriding permissions</h4>\n"@ + if perms.len() == 0 {
        "No overriding permissions"@
    } else {
        "<ul>"@ + html_permission_items(perms) + "</ul>"@
    }
}

/// Views of the qualifiers in a permission list.
pub open spec fn qualifier_views(perms: Seq<&str>) -> Seq<Seq<char>> {
    perms.map_values(|p: &str| p@)
}

/// The reply listing a command's default permission and the qualifiers that
/// can override it, in plain text and in HTML.
pub fn permissions_reply(name: &str, default_permission: bool, permissions: &[&str]) -> (res: (
    String,
    String,
))
    ensures
        res.0@ == permissions_plain(name@, default_permission, qualifier_views(permissions@)),
        res.1@ == permissions_html(name@, default_permission, qualifier_views(permissions@)),
{
    let ghost perms = qualifier_views(permissions@);
    let word = if default_permission {
        "Allowed"
    } else {
        "Disallowed"
    };
    let mut plain = String::from_str("Permissions for .");
    plain.append(name);
    plain.append("\nDefault: ");
    plain.append(word);
    plain.append("\n\nOverriding permissions: ");
    let mut html = String::from_str("<h1>Permissions for .");
    html.append(name);
    html.append("</h1>\nDefault: ");
    html.append(word);
    html.append("\n\n<h4>Overriding permissions</h4>\n");
    let ghost plain_head = plain@;
    let ghost html_head = html@;
    if permissions.len() == 0 {
        plain.append("none");
        html.append("No overriding permissions");
    } else {
        html.append("<ul>");
        let ghost html_start = html@;
        let mut i: usize = 0;
        while i < permissions.len()
            invariant
                perms == qualifier_views(permissions@),
                i <= permissions@.len(),
                plain@ == plain_head + plain_permission_items(perms.take(i as int)),
                html@ == html_start + html_permission_items(perms.take(i as int)),
            decreases permissions.len() - i,
        {
            proof {
                assert(perms.take(i + 1).drop_last() =~= perms.take(i as int));
                assert(perms.take(i + 1).last() == permissions@[i as int]@);
            }
            let ghost p0 = plain@;
            let ghost h0 = html@;
            plain.append("\n* ");
            plain.append(permissions[i]);
            html.append("<li>");
            html.append(permissions[i]);
            html.append("</li>");
            assert(plain@ =~= p0 + "\n* "@ + perms.take(i + 1).last());
            assert(html@ =~= h0 + "<li>"@ + perms.take(i + 1).last() + "</li>"@);
            i = i + 1;
        }
        assert(perms.take(permissions@.len() as int) =~= perms);
        html.append("</ul>");
        assert(html@ =~= html_head + ("<ul>"@ + html_permission_items(perms) + "</ul>"@));
    }
    (plain, html)
}

/// The help page shown for a help request: the parsed help text of the
/// command, with the permissions flag added to its options.
pub open spec fn help_view(name: Seq<char>, help_text: Seq<char>) -> HelpView {
    HelpView {
        name,
        description: help_description(help_text),
        usage: help_usage(help_text),
        args: help_args(help_text),
        options: help_options(help_text).push(("-P, --perms"@, "Print command permissions"@)),
    }
}

/// The reply to a help request, in plain text and in HTML.
pub fn help_reply(name: &str, help_text: &str) -> (res: (String, String))
    ensures
        res.0@ == plain_page(help_view(name@, help_text@)),
        res.1@ == html_page(help_view(name@, help_text@)),
{
    let mut help = HelpMessage::parse(String::from_str(name), help_text);
    let ghost before = help.options.deep_view();
    help.options.push((String::from_str("-P, --perms"), String::from_str("Print command permissions")));
    assert(help.options.deep_view() =~= before.push(("-P, --perms"@, "Print command permissions"@)));
    assert(help@ == help_view(name@, help_text@));
    (help.plain(), help.html())
}

} // verus!
