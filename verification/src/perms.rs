//! The permission rule commands: `perms` lists the rules of a context and
//! `permset` sets one.
use vstd::prelude::*;

use crate::format::{escape_text, escaped};
use crate::org::{Reply, ReplyView};

verus! {

/// Qualifiers of `perms`, most specific first.
pub open spec fn perms_permissions() -> Seq<Seq<char>> {
    seq!["core.org.perm.list"@, "core.org.perm"@, "core.org"@, "core"@, "*"@]
}

/// Qualifiers of `permset`, most specific first.
pub open spec fn permset_permissions() -> Seq<Seq<char>> {
    seq![
        "core.org.context.perm.set"@,
        "core.org.context.perm"@,
        "core.org.context"@,
        "core.org"@,
        "core"@,
        "*"@,
    ]
}

/// The `perms` command: lists the permission rules of a context.
pub struct CmdPerms;

impl CmdPerms {
    /// Qualifiers whose rules decide whether the command may run, most specific first.
    pub fn permissions(&self) -> (res: &'static [&'static str])
        ensures
            res@.map_values(|p: &str| p@) == perms_permissions(),
    {
        let res: &'static [&'static str] = &[
            "core.org.perm.list",
            "core.org.perm",
            "core.org",
            "core",
            "*",
        ];
        assert(res@.map_values(|p: &str| p@) =~= perms_permissions());
        res
    }

    /// Whether the command runs when no rule applies to it.
    pub fn default_permission(&self) -> (res: bool)
        ensures
            res,
    {
        true
    }
}

/// The `permset` command: sets a permission rule for a group in a context.
pub struct CmdPermSet;

impl CmdPermSet {
    /// Qualifiers whose rules decide whether the command may run, most specific first.
    pub fn permissions(&self) -> (res: &'static [&'static str])
        ensures
            res@.map_values(|p: &str| p@) == permset_permissions(),
    {
        let res: &'static [&'static str] = &[
            "core.org.context.perm.set",
            "core.org.context.perm",
            "core.org.context",
            "core.org",
            "core",
            "*",
        ];
        assert(res@.map_values(|p: &str| p@) =~= permset_permissions());
        res
    }

    /// Whether the command runs when no rule applies to it.
    pub fn default_permission(&self) -> (res: bool)
        ensures
            res,
    {
        true
    }
}

/// The reply to a context name that does not exist; the name is shown escaped.
pub open spec fn context_not_found(name: Seq<char>) -> ReplyView {
    ReplyView::Html(
        "Could not find a context named "@ + escaped(name),
        "Could not find a context named <b>"@ + escaped(name) + "</b>"@,
    )
}

/// Builds the reply that `context_not_found` describes.
pub fn context_not_found_reply(name: &str) -> (res: Reply)
    ensures
        res@ == context_not_found(name@),
{
    let e = escape_text(name);
    let mut plain = String::from_str("Could not find a context named ");
    plain.append(e.as_str());
    let mut html = String::from_str("Could not find a context named <b>");
    html.append(e.as_str());
    html.append("</b>");
    Reply::Html(plain, html)
}

/// The reply to a context without permission rules.
pub open spec fn no_rules(context: Seq<char>) -> ReplyView {
    ReplyView::Html(
        "Context "@ + context + " has no permission rules"@,
        "Context <b>"@ + context + "</b> has no permission rules"@,
    )
}

/// Builds the reply that `no_rules` describes.
pub fn no_rules_reply(context: &str) -> (res: Reply)
    ensures
        res@ == no_rules(context@),
{
    let mut plain = String::from_str("Context ");
    plain.append(context);
    plain.append(" has no permission rules");
    let mut html = String::from_str("Context <b>");
    html.append(context);
    html.append("</b> has no permission rules");
    Reply::Html(plain, html)
}

/// A permission rule of a context, as listed.
pub struct RuleEntry {
    pub qualifier: String,
    pub allowed: bool,
    pub group_name: String,
    /// the rule's priority as shown
    pub priority: String,
}

pub struct RuleEntryView {
    pub qualifier: Seq<char>,
    pub allowed: bool,
    pub group_name: Seq<char>,
    pub priority: Seq<char>,
}

impl View for RuleEntry {
    type V = RuleEntryView;

    open spec fn view(&self) -> RuleEntryView {
        RuleEntryView {
            qualifier: self.qualifier@,
            allowed: self.allowed,
            group_name: self.group_name@,
            priority: self.priority@,
        }
    }
}

/// The mark of an allowing or a denying rule.
pub open spec fn mark(allowed: bool) -> Seq<char> {
    if allowed {
        "✓"@
    } else {
        "✕"@
    }
}

/// Plain-text line of one permission rule.
pub open spec fn rule_plain(r: RuleEntryView) -> Seq<char> {
    "\n"@ + mark(r.allowed) + " "@ + r.qualifier + " group="@ + r.group_name + " priority="@
        + r.priority
}

/// HTML line of one permission rule.
pub open spec fn rule_html(r: RuleEntryView) -> Seq<char> {
    "<tr><td>"@ + mark(r.allowed) + "</td><td>"@ + r.qualifier + "</td><td>"@ + r.group_name
        + "</td><td>"@ + r.priority + "</td></tr>"@
}

/// Plain-text lines of the permission rules.
pub open spec fn rules_plain(rules: Seq<RuleEntryView>) -> Seq<char>
    decreases rules.len(),
{
    if rules.len() == 0 {
        Seq::<char>::empty()
    } else {
        rules_plain(rules.drop_last()) + rule_plain(rules.last())
    }
}

/// HTML lines of the permission rules.
pub open spec fn rules_html(rules: Seq<RuleEntryView>) -> Seq<char>
    decreases rules.len(),
{
    if rules.len() == 0 {
        Seq::<char>::empty()
    } else {
        rules_html(rules.drop_last()) + rule_html(rules.last())
    }
}

/// Views of the permission rules.
pub open spec fn rule_views(rules: Seq<RuleEntry>) -> Seq<RuleEntryView> {
    rules.map_values(|r: RuleEntry| r@)
}

/// The table of the permission rules of a context, in plain text and in HTML.
pub open spec fn rules_table(context: Seq<char>, rules: Seq<RuleEntryView>) -> (Seq<char>, Seq<char>) {
    (
        "Permission rules of "@ + context + rules_plain(rules),
        "Permission rules of <b>"@ + context + "</b>"@
            + "<table><tr><th>Allowed</th><th>Permission</th><th>Group</th><th>Priority</th></tr>"@
            + rules_html(rules) + "<table>"@,
    )
}

fn mark_str(allowed: bool) -> (res: &'static str)
    ensures
        res@ == mark(allowed),
{
    if allowed {
        "✓"
    } else {
        "✕"
    }
}

fn push_rule_plain(out: &mut String, r: &RuleEntry)
    ensures
        final(out)@ == old(out)@ + rule_plain(r@),
{
    out.append("\n");
    out.append(mark_str(r.allowed));
    out.append(" ");
    out.append(r.qualifier.as_str());
    out.append(" group=");
    out.append(r.group_name.as_str());
    out.append(" priority=");
    out.append(r.priority.as_str());
    assert(out@ =~= old(out)@ + rule_plain(r@));
}

fn push_rule_html(out: &mut String, r: &RuleEntry)
    ensures
        final(out)@ == old(out)@ + rule_html(r@),
{
    out.append("<tr><td>");
    out.append(mark_str(r.allowed));
    out.append("</td><td>");
    out.append(r.qualifier.as_str());
    out.append("</td><td>");
    out.append(r.group_name.as_str());
    out.append("</td><td>");
    out.append(r.priority.as_str());
    out.append("</td></tr>");
    assert(out@ =~= old(out)@ + rule_html(r@));
}

/// Lists the permission rules of a context.
pub fn rules_reply(context: &str, rules: &Vec<RuleEntry>) -> (res: (String, String))
    ensures
        (res.0@, res.1@) == rules_table(context@, rule_views(rules@)),
{
    let ghost rv = rule_views(rules@);
    let mut plain = String::from_str("Permission rules of ");
    plain.append(context);
    let mut html = String::from_str("Permission rules of <b>");
    html.append(context);
    html.append("</b>");
    html.append("<table><tr><th>Allowed</th><th>Permission</th><th>Group</th><th>Priority</th></tr>");
    let ghost p0 = plain@;
    let ghost h0 = html@;
    let mut i: usize = 0;
    while i < rules.len()
        invariant
            i <= rules@.len(),
            rv == rule_views(rules@),
            plain@ == p0 + rules_plain(rv.take(i as int)),
            html@ == h0 + rules_html(rv.take(i as int)),
        decreases rules.len() - i,
    {
        let r = &rules[i];
        proof {
            assert(rv.take(i + 1).drop_last() =~= rv.take(i as int));
            assert(rv.take(i + 1).last() == r@);
        }
        push_rule_plain(&mut plain, r);
        push_rule_html(&mut html, r);
        i = i + 1;
    }
    assert(rv.take(rules@.len() as int) =~= rv);
    html.append("<table>");
    (plain, html)
}

/// The reply to a sender who may not change the rules of a context.
pub open spec fn rule_change_denied(context: Seq<char>) -> ReplyView {
    ReplyView::Html(
        "Permissing denied: you are neither the owner or in the admin group of context "@ + context,
        "Permissing denied: you are neither the owner or in the admin group of context <b>"@ + context
            + "</b>"@,
    )
}

/// Builds the reply that `rule_change_denied` describes.
pub fn rule_change_denied_reply(context: &str) -> (res: Reply)
    ensures
        res@ == rule_change_denied(context@),
{
    let mut plain = String::from_str(
        "Permissing denied: you are neither the owner or in the admin group of context ",
    );
    plain.append(context);
    let mut html = String::from_str(
        "Permissing denied: you are neither the owner or in the admin group of context <b>",
    );
    html.append(context);
    html.append("</b>");
    Reply::Html(plain, html)
}

/// What `permset` names that does not exist.
pub enum Missing {
    Group,
    Permission,
}

/// The reply to a group or permission that does not exist; the name is shown escaped.
pub open spec fn missing_target(what: Missing, name: Seq<char>) -> ReplyView {
    let noun = match what {
        Missing::Group => "group"@,
        Missing::Permission => "permission"@,
    };
    ReplyView::Html(
        "Could not find "@ + noun + " with name "@ + escaped(name),
        "Could not find "@ + noun + " with name <b>"@ + escaped(name) + "</b>"@,
    )
}

/// Builds the reply that `missing_target` describes.
pub fn missing_target_reply(what: Missing, name: &str) -> (res: Reply)
    ensures
        res@ == missing_target(what, name@),
{
    let noun = match what {
        Missing::Group => "group",
        Missing::Permission => "permission",
    };
    let e = escape_text(name);
    let mut plain = String::from_str("Could not find ");
    plain.append(noun);
    plain.append(" with name ");
    plain.append(e.as_str());
    let mut html = String::from_str("Could not find ");
    html.append(noun);
    html.append(" with name <b>");
    html.append(e.as_str());
    html.append("</b>");
    Reply::Html(plain, html)
}

/// The priority of a new rule: the one given, or 0.
pub fn rule_priority(priority: Option<i32>) -> (res: i32)
    ensures
        res == match priority {
            Some(p) => p,
            None => 0,
        },
{
    match priority {
        Some(p) => p,
        None => 0,
    }
}

/// How a boolean is shown.
pub open spec fn bool_text(b: bool) -> Seq<char> {
    if b {
        "true"@
    } else {
        "false"@
    }
}

/// The reply once a rule was set.
pub open spec fn rule_set(context: Seq<char>, permission: Seq<char>, group: Seq<char>, allowed: bool) -> ReplyView {
    ReplyView::Html(
        "Context Permission Set\n* Context - "@ + context + "\n* Permission - "@ + permission
            + "\n* Group - "@ + group + "\n* Allowed - "@ + bool_text(allowed),
        "<b>Context Permission Set</b><table>\n<tr><td>Context</td><td><b>"@ + context
            + "</b></td></tr>\n<tr><td>Permission</td><td><b>"@ + permission
            + "</b></td></tr>\n<tr><td>Group</td><td><b>"@ + group
            + "</b></td></tr>\n<tr><td>Allowed</td><td><b>"@ + bool_text(allowed)
            + "</b></td></tr>\n</table>"@,
    )
}

/// Builds the reply that `rule_set` describes.
pub fn rule_set_reply(context: &str, permission: &str, group: &str, allowed: bool) -> (res: Reply)
    ensures
        res@ == rule_set(context@, permission@, group@, allowed),
{
    let b = if allowed {
        "true"
    } else {
        "false"
    };
    let mut plain = String::from_str("Context Permission Set\n* Context - ");
    plain.append(context);
    plain.append("\n* Permission - ");
    plain.append(permission);
    plain.append("\n* Group - ");
    plain.append(group);
    plain.append("\n* Allowed - ");
    plain.append(b);
    let mut html = String::from_str("<b>Context Permission Set</b><table>\n<tr><td>Context</td><td><b>");
    html.append(context);
    html.append("</b></td></tr>\n<tr><td>Permission</td><td><b>");
    html.append(permission);
    html.append("</b></td></tr>\n<tr><td>Group</td><td><b>");
    html.append(group);
    html.append("</b></td></tr>\n<tr><td>Allowed</td><td><b>");
    html.append(b);
    html.append("</b></td></tr>\n</table>");
    Reply::Html(plain, html)
}

} // verus!
