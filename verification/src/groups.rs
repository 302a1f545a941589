//! The group commands: `groupadd`, `groupmod`, `groupdel`, `groupinfo` and
//! `groups`, with the summaries they answer.
use vstd::prelude::*;

use crate::format::{decimal, escape_text, escaped, push_decimal};
use crate::org::{
    all_nonempty, labels, strip_sigils, unsigiled, user_labels, Reply, ReplyView,
};
use crate::text::{listed, optional, push_listed, push_optional, push_if, shown_if};

verus! {

/// Qualifiers of `groupadd`, most specific first.
pub open spec fn groupadd_permissions() -> Seq<Seq<char>> {
    seq!["core.org.groups.add"@, "core.org.groups"@, "core.org"@, "core"@, "*"@]
}

/// Qualifiers of `groupmod`, most specific first.
pub open spec fn groupmod_permissions() -> Seq<Seq<char>> {
    seq!["core.org.groups.mod"@, "core.org.groups"@, "core.org"@, "core"@, "*"@]
}

/// Qualifiers of `groupdel`, most specific first.
pub open spec fn groupdel_permissions() -> Seq<Seq<char>> {
    seq!["core.org.groups.add"@, "core.org.groups"@, "core.org"@, "core"@, "*"@]
}

/// Qualifiers of `groupinfo`, most specific first.
pub open spec fn groupinfo_permissions() -> Seq<Seq<char>> {
    seq!["core.org.groups.info"@, "core.org.groups"@, "core.org"@, "core"@, "*"@]
}

/// Qualifiers of `groups`, most specific first.
pub open spec fn groups_permissions() -> Seq<Seq<char>> {
    seq!["core.org.groups.list"@, "core.org.groups"@, "core.org"@, "core"@, "*"@]
}

/// The `groupadd` command: creates a group.
pub struct CmdGroupAdd;

impl CmdGroupAdd {
    /// Qualifiers whose rules decide whether the command may run, most specific first.
    pub fn permissions(&self) -> (res: &'static [&'static str])
        ensures
            res@.map_values(|p: &str| p@) == groupadd_permissions(),
    {
        let res: &'static [&'static str] = &[
            "core.org.groups.add",
            "core.org.groups",
            "core.org",
            "core",
            "*",
        ];
        assert(res@.map_values(|p: &str| p@) =~= groupadd_permissions());
        res
    }

    /// Whether the command runs when no rule applies to it.
    pub fn default_permission(&self) -> (res: bool)
        ensures
            res,
    {
        true
    }
}

/// The `groupmod` command: modifies a group.
pub struct CmdGroupMod;

impl CmdGroupMod {
    /// Qualifiers whose rules decide whether the command may run, most specific first.
    pub fn permissions(&self) -> (res: &'static [&'static str])
        ensures
            res@.map_values(|p: &str| p@) == groupmod_permissions(),
    {
        let res: &'static [&'static str] = &[
            "core.org.groups.mod",
            "core.org.groups",
            "core.org",
            "core",
            "*",
        ];
        assert(res@.map_values(|p: &str| p@) =~= groupmod_permissions());
        res
    }

    /// Whether the command runs when no rule applies to it.
    pub fn default_permission(&self) -> (res: bool)
        ensures
            res,
    {
        true
    }
}

/// The `groupdel` command: deletes groups the sender owns.
pub struct CmdGroupDel;

impl CmdGroupDel {
    /// Qualifiers whose rules decide whether the command may run, most specific first.
    pub fn permissions(&self) -> (res: &'static [&'static str])
        ensures
            res@.map_values(|p: &str| p@) == groupdel_permissions(),
    {
        let res: &'static [&'static str] = &[
            "core.org.groups.add",
            "core.org.groups",
            "core.org",
            "core",
            "*",
        ];
        assert(res@.map_values(|p: &str| p@) =~= groupdel_permissions());
        res
    }

    /// Whether the command runs when no rule applies to it.
    pub fn default_permission(&self) -> (res: bool)
        ensures
            res,
    {
        true
    }
}

/// The `groupinfo` command: shows a group.
pub struct CmdGroupInfo;

impl CmdGroupInfo {
    /// Qualifiers whose rules decide whether the command may run, most specific first.
    pub fn permissions(&self) -> (res: &'static [&'static str])
        ensures
            res@.map_values(|p: &str| p@) == groupinfo_permissions(),
    {
        let res: &'static [&'static str] = &[
            "core.org.groups.info",
            "core.org.groups",
            "core.org",
            "core",
            "*",
        ];
        assert(res@.map_values(|p: &str| p@) =~= groupinfo_permissions());
        res
    }

    /// Whether the command runs when no rule applies to it.
    pub fn default_permission(&self) -> (res: bool)
        ensures
            res,
    {
        true
    }
}

/// The `groups` command: lists the groups of a user.
pub struct CmdGroups;

impl CmdGroups {
    /// Qualifiers whose rules decide whether the command may run, most specific first.
    pub fn permissions(&self) -> (res: &'static [&'static str])
        ensures
            res@.map_values(|p: &str| p@) == groups_permissions(),
    {
        let res: &'static [&'static str] = &[
            "core.org.groups.list",
            "core.org.groups",
            "core.org",
            "core",
            "*",
        ];
        assert(res@.map_values(|p: &str| p@) =~= groups_permissions());
        res
    }

    /// Whether the command runs when no rule applies to it.
    pub fn default_permission(&self) -> (res: bool)
        ensures
            res,
    {
        true
    }
}

/// A description as shown in a plain summary.
pub open spec fn plain_desc(desc: Seq<char>) -> Seq<char> {
    if desc.len() == 0 {
        "[empty string]"@
    } else {
        desc
    }
}

/// What a created group's summary shows.
pub struct GroupCreated {
    pub name: String,
    pub desc: String,
    /// user and server of the owner
    pub owner: (String, String),
    pub admin_group: Option<String>,
    /// members added, as user and server
    pub users: Vec<(String, String)>,
    /// member arguments that were not mentions
    pub malformed: Vec<String>,
    /// mentions of users the bot has never met
    pub missing: Vec<String>,
}

pub struct GroupCreatedView {
    pub name: Seq<char>,
    pub desc: Seq<char>,
    pub owner: (Seq<char>, Seq<char>),
    pub admin_group: Option<Seq<char>>,
    pub users: Seq<(Seq<char>, Seq<char>)>,
    pub malformed: Seq<Seq<char>>,
    pub missing: Seq<Seq<char>>,
}

impl View for GroupCreated {
    type V = GroupCreatedView;

    open spec fn view(&self) -> GroupCreatedView {
        GroupCreatedView {
            name: self.name@,
            desc: self.desc@,
            owner: (self.owner.0@, self.owner.1@),
            admin_group: self.admin_group.deep_view(),
            users: self.users.deep_view(),
            malformed: self.malformed.deep_view(),
            missing: self.missing.deep_view(),
        }
    }
}

/// Plain-text body of the reply to a created group.
pub open spec fn group_created_plain(g: GroupCreatedView) -> Seq<char> {
    "Created Group \""@ + g.name + "\":"@ + "\n* Description - "@ + plain_desc(g.desc)
        + "\n* Owner - "@ + g.owner.0 + ":"@ + g.owner.1 + optional(
        g.admin_group,
        "\n* Admin group - "@,
        Seq::<char>::empty(),
    ) + listed(labels(g.users), "\n* Users - "@, Seq::empty(), Seq::empty(), Seq::empty())
        + listed(
        g.malformed,
        "\n* Malformed users (not added) - "@,
        "\""@,
        "\""@,
        Seq::empty(),
    ) + listed(
        unsigiled(g.missing),
        "\n* Missing users (not added) - "@,
        Seq::empty(),
        Seq::empty(),
        Seq::empty(),
    )
}

/// HTML body of the reply to a created group.
pub open spec fn group_created_html(g: GroupCreatedView) -> Seq<char> {
    "<b>Created Group <code>"@ + g.name + "</code></b><table>"@ + "<tr><td>Description</td><td>"@
        + (if g.desc.len() == 0 {
        "<i>[empty string]</i>"@
    } else {
        escaped(g.desc)
    }) + "</td></tr>"@ + "<tr><td>Owner</td><td><b>"@ + g.owner.0 + ":"@ + g.owner.1
        + "</b></td></tr>"@ + optional(
        g.admin_group,
        "<tr><td>Admin group</td><td><b>"@,
        "</b></td></tr>"@,
    ) + listed(labels(g.users), "<tr><td>Users</td><td>"@, "<b>"@, "</b>"@, "</td>"@) + listed(
        g.malformed,
        "<tr><td>Malformed users (not added)</td><td>"@,
        "<code>"@,
        "</code>"@,
        "</td>"@,
    ) + listed(
        unsigiled(g.missing),
        "<tr><td>Missing users (not added)</td><td>"@,
        "<b>"@,
        "</b>"@,
        "</td>"@,
    ) + "</table>"@
}

impl GroupCreated {
    /// The summary of a created group, in plain text and in HTML.
    pub fn summary(&self) -> (res: (String, String))
        requires
            all_nonempty(self@.missing),
        ensures
            res.0@ == group_created_plain(self@),
            res.1@ == group_created_html(self@),
    {
        let ghost g = self@;
        proof {
            crate::text::lemma_empty_str();
        }
        let users = user_labels(&self.users);
        let missing = strip_sigils(&self.missing);
        let empty_desc = self.desc.as_str().unicode_len() == 0;

        let mut plain = String::from_str("Created Group \"");
        plain.append(self.name.as_str());
        plain.append("\":");
        plain.append("\n* Description - ");
        if empty_desc {
            plain.append("[empty string]");
        } else {
            plain.append(self.desc.as_str());
        }
        plain.append("\n* Owner - ");
        plain.append(self.owner.0.as_str());
        plain.append(":");
        plain.append(self.owner.1.as_str());
        push_optional(&mut plain, &self.admin_group, "\n* Admin group - ", "");
        push_listed(&mut plain, &users, "\n* Users - ", "", "", "");
        push_listed(&mut plain, &self.malformed, "\n* Malformed users (not added) - ", "\"", "\"", "");
        push_listed(&mut plain, &missing, "\n* Missing users (not added) - ", "", "", "");

        let mut html = String::from_str("<b>Created Group <code>");
        html.append(self.name.as_str());
        html.append("</code></b><table>");
        html.append("<tr><td>Description</td><td>");
        if empty_desc {
            html.append("<i>[empty string]</i>");
        } else {
            let e = escape_text(self.desc.as_str());
            html.append(e.as_str());
        }
        html.append("</td></tr>");
        html.append("<tr><td>Owner</td><td><b>");
        html.append(self.owner.0.as_str());
        html.append(":");
        html.append(self.owner.1.as_str());
        html.append("</b></td></tr>");
        push_optional(&mut html, &self.admin_group, "<tr><td>Admin group</td><td><b>", "</b></td></tr>");
        push_listed(&mut html, &users, "<tr><td>Users</td><td>", "<b>", "</b>", "</td>");
        push_listed(
            &mut html,
            &self.malformed,
            "<tr><td>Malformed users (not added)</td><td>",
            "<code>",
            "</code>",
            "</td>",
        );
        push_listed(
            &mut html,
            &missing,
            "<tr><td>Missing users (not added)</td><td>",
            "<b>",
            "</b>",
            "</td>",
        );
        html.append("</table>");
        (plain, html)
    }
}

/// What a group update's summary shows.
pub struct GroupUpdate {
    pub name: String,
    pub new_name: Option<String>,
    pub new_desc: Option<String>,
    /// user and server of the new owner
    pub new_owner: Option<(String, String)>,
    /// `Some(Some(name))` for a new admin group, `Some(None)` for its removal
    pub new_admin_group: Option<Option<String>>,
    pub added: Vec<(String, String)>,
    pub malformed_add: Vec<String>,
    pub missing_add: Vec<String>,
    pub unchanged_add: Vec<(String, String)>,
    pub removed: Vec<(String, String)>,
    pub malformed_remove: Vec<String>,
    pub unchanged_remove: Vec<(String, String)>,
    pub missing_remove: Vec<String>,
}

pub struct GroupUpdateView {
    pub name: Seq<char>,
    pub new_name: Option<Seq<char>>,
    pub new_desc: Option<Seq<char>>,
    pub new_owner: Option<(Seq<char>, Seq<char>)>,
    pub new_admin_group: Option<Option<Seq<char>>>,
    pub added: Seq<(Seq<char>, Seq<char>)>,
    pub malformed_add: Seq<Seq<char>>,
    pub missing_add: Seq<Seq<char>>,
    pub unchanged_add: Seq<(Seq<char>, Seq<char>)>,
    pub removed: Seq<(Seq<char>, Seq<char>)>,
    pub malformed_remove: Seq<Seq<char>>,
    pub unchanged_remove: Seq<(Seq<char>, Seq<char>)>,
    pub missing_remove: Seq<Seq<char>>,
}

impl View for GroupUpdate {
    type V = GroupUpdateView;

    open spec fn view(&self) -> GroupUpdateView {
        GroupUpdateView {
            name: self.name@,
            new_name: self.new_name.deep_view(),
            new_desc: self.new_desc.deep_view(),
            new_owner: self.new_owner.deep_view(),
            new_admin_group: self.new_admin_group.deep_view(),
            added: self.added.deep_view(),
            malformed_add: self.malformed_add.deep_view(),
            missing_add: self.missing_add.deep_view(),
            unchanged_add: self.unchanged_add.deep_view(),
            removed: self.removed.deep_view(),
            malformed_remove: self.malformed_remove.deep_view(),
            unchanged_remove: self.unchanged_remove.deep_view(),
            missing_remove: self.missing_remove.deep_view(),
        }
    }
}

/// How the owner of a group is named in a report.
pub open spec fn owner_piece(o: Option<(Seq<char>, Seq<char>)>, head: Seq<char>, tail: Seq<char>) -> Seq<char> {
    match o {
        Some(u) => head + u.0 + ":"@ + u.1 + tail,
        None => Seq::<char>::empty(),
    }
}

/// Plain-text body of the `groupmod` report.
pub open spec fn group_update_plain(u: GroupUpdateView) -> Seq<char> {
    let e = Seq::<char>::empty();
    "Group Update Summary for \""@ + u.name + "\":"@ + optional(u.new_name, "\n* New name: "@, e)
        + (match u.new_desc {
        Some(d) => "\n* New desc: "@ + plain_desc(d),
        None => e,
    }) + owner_piece(u.new_owner, "\n* New owner: "@, e) + (match u.new_admin_group {
        Some(Some(a)) => "\n* New admin group: "@ + a,
        Some(None) => "\n* New admin group: none"@,
        None => e,
    }) + listed(labels(u.added), "\n* Added users - "@, e, e, e) + listed(
        u.malformed_add,
        "\n* Malformed users (not added) - "@,
        "\""@,
        "\""@,
        e,
    ) + listed(unsigiled(u.missing_add), "\n* Missing users (not added) - "@, e, e, e) + listed(
        labels(u.unchanged_add),
        "\n* Users already in group (not added) - "@,
        e,
        e,
        e,
    ) + listed(labels(u.removed), "\n* Removed users - "@, e, e, e) + listed(
        u.malformed_remove,
        "\n* Malformed users (not removed) - "@,
        "\""@,
        "\""@,
        e,
    ) + listed(
        labels(u.unchanged_remove) + unsigiled(u.missing_remove),
        "\n* Users already in group (not added) - "@,
        e,
        e,
        e,
    )
}

/// HTML body of the `groupmod` report.
pub open spec fn group_update_html(u: GroupUpdateView) -> Seq<char> {
    "<b>Group Update Summary for <code>"@ + u.name + "</code></b>\n<table>"@ + optional(
        u.new_name,
        "\n<tr><td>New name</td><td><code>"@,
        "</code></td></tr>"@,
    ) + (match u.new_desc {
        Some(d) => "\n<tr><td>New description</td><td>"@ + (if d.len() == 0 {
            "<i>[empty string]</i>"@
        } else {
            d
        }) + "</td></tr>"@,
        None => Seq::<char>::empty(),
    }) + owner_piece(u.new_owner, "\n<tr><td>New owner</td><td>"@, "</td></tr>"@) + (
    match u.new_admin_group {
        Some(Some(a)) => "\n<tr><td>New admin group</td><td>"@ + a + "</td></tr>"@,
        Some(None) => "\n<tr><td>New admin group</td><td><i>none</i></td></tr>"@,
        None => Seq::<char>::empty(),
    }) + listed(labels(u.added), "\n<tr><td>Added users</td><td>"@, "<b>"@, "</b>"@, "</td>"@)
        + listed(
        u.malformed_add,
        "\n<tr><td>Malformed users (not added)</td><td>"@,
        "<code>"@,
        "</code>"@,
        "</td>"@,
    ) + listed(
        unsigiled(u.missing_add),
        "\n<tr><td>Missing users (not added)</td><td>"@,
        "<b>"@,
        "</b>"@,
        "</td>"@,
    ) + listed(
        labels(u.unchanged_add),
        "\n<tr><td>Users already in group (not added)</td><td>"@,
        "<b>"@,
        "</b>"@,
        "</td>"@,
    ) + listed(labels(u.removed), "\n<tr><td>Removed users</td><td>"@, "<b>"@, "</b>"@, "</td>"@)
        + listed(
        u.malformed_remove,
        "\n<tr><td>Malformed users (not removed)</td><td>"@,
        "<code>"@,
        "</code>"@,
        "</td>"@,
    ) + listed(
        labels(u.unchanged_remove) + unsigiled(u.missing_remove),
        "\n<tr><td>Users already in group (not added)</td><td>"@,
        "<b>"@,
        "</b>"@,
        "</td>"@,
    ) + "\n</table>"@
}

fn push_owner(out: &mut String, o: &Option<(String, String)>, head: &str, tail: &str)
    ensures
        final(out)@ == old(out)@ + owner_piece(o.deep_view(), head@, tail@),
{
    match o {
        Some(u) => {
            out.append(head);
            out.append(u.0.as_str());
            out.append(":");
            out.append(u.1.as_str());
            out.append(tail);
            assert(out@ =~= old(out)@ + (head@ + u.0@ + ":"@ + u.1@ + tail@));
        },
        None => {
            assert(out@ =~= old(out)@ + Seq::<char>::empty());
        },
    }
}

impl GroupUpdate {
    /// The summary of a group update, in plain text and in HTML.
    pub fn summary(&self) -> (res: (String, String))
        requires
            all_nonempty(self@.missing_add),
            all_nonempty(self@.missing_remove),
        ensures
            res.0@ == group_update_plain(self@),
            res.1@ == group_update_html(self@),
    {
        let ghost u = self@;
        proof {
            crate::text::lemma_empty_str();
        }
        let added = user_labels(&self.added);
        let missing_add = strip_sigils(&self.missing_add);
        let unchanged_add = user_labels(&self.unchanged_add);
        let removed = user_labels(&self.removed);
        let mut unchanged_remove = user_labels(&self.unchanged_remove);
        let mut missing_remove = strip_sigils(&self.missing_remove);
        let ghost ur = unchanged_remove.deep_view();
        let ghost mr = missing_remove.deep_view();
        unchanged_remove.append(&mut missing_remove);
        assert(unchanged_remove.deep_view() =~= ur + mr);

        let mut plain = String::from_str("Group Update Summary for \"");
        plain.append(self.name.as_str());
        plain.append("\":");
        push_optional(&mut plain, &self.new_name, "\n* New name: ", "");
        let ghost p0 = plain@;
        match &self.new_desc {
            Some(d) => {
                plain.append("\n* New desc: ");
                if d.as_str().unicode_len() == 0 {
                    plain.append("[empty string]");
                } else {
                    plain.append(d.as_str());
                }
                assert(plain@ =~= p0 + ("\n* New desc: "@ + plain_desc(d@)));
            },
            None => {
                assert(plain@ =~= p0 + Seq::<char>::empty());
            },
        }
        push_owner(&mut plain, &self.new_owner, "\n* New owner: ", "");
        let ghost p1 = plain@;
        match &self.new_admin_group {
            Some(Some(a)) => {
                plain.append("\n* New admin group: ");
                plain.append(a.as_str());
                assert(plain@ =~= p1 + ("\n* New admin group: "@ + a@));
            },
            Some(None) => {
                plain.append("\n* New admin group: none");
            },
            None => {
                assert(plain@ =~= p1 + Seq::<char>::empty());
            },
        }
        push_listed(&mut plain, &added, "\n* Added users - ", "", "", "");
        push_listed(&mut plain, &self.malformed_add, "\n* Malformed users (not added) - ", "\"", "\"", "");
        push_listed(&mut plain, &missing_add, "\n* Missing users (not added) - ", "", "", "");
        push_listed(&mut plain, &unchanged_add, "\n* Users already in group (not added) - ", "", "", "");
        push_listed(&mut plain, &removed, "\n* Removed users - ", "", "", "");
        push_listed(
            &mut plain,
            &self.malformed_remove,
            "\n* Malformed users (not removed) - ",
            "\"",
            "\"",
            "",
        );
        push_listed(
            &mut plain,
            &unchanged_remove,
            "\n* Users already in group (not added) - ",
            "",
            "",
            "",
        );

        let mut html = String::from_str("<b>Group Update Summary for <code>");
        html.append(self.name.as_str());
        html.append("</code></b>\n<table>");
        push_optional(&mut html, &self.new_name, "\n<tr><td>New name</td><td><code>", "</code></td></tr>");
        let ghost h0 = html@;
        match &self.new_desc {
            Some(d) => {
                html.append("\n<tr><td>New description</td><td>");
                if d.as_str().unicode_len() == 0 {
                    html.append("<i>[empty string]</i>");
                } else {
                    html.append(d.as_str());
                }
                html.append("</td></tr>");
                assert(html@ =~= h0 + ("\n<tr><td>New description</td><td>"@ + (if d@.len() == 0 {
                    "<i>[empty string]</i>"@
                } else {
                    d@
                }) + "</td></tr>"@));
            },
            None => {
                assert(html@ =~= h0 + Seq::<char>::empty());
            },
        }
        push_owner(&mut html, &self.new_owner, "\n<tr><td>New owner</td><td>", "</td></tr>");
        let ghost h1 = html@;
        match &self.new_admin_group {
            Some(Some(a)) => {
                html.append("\n<tr><td>New admin group</td><td>");
                html.append(a.as_str());
                html.append("</td></tr>");
                assert(html@ =~= h1 + ("\n<tr><td>New admin group</td><td>"@ + a@ + "</td></tr>"@));
            },
            Some(None) => {
                html.append("\n<tr><td>New admin group</td><td><i>none</i></td></tr>");
            },
            None => {
                assert(html@ =~= h1 + Seq::<char>::empty());
            },
        }
        push_listed(&mut html, &added, "\n<tr><td>Added users</td><td>", "<b>", "</b>", "</td>");
        push_listed(
            &mut html,
            &self.malformed_add,
            "\n<tr><td>Malformed users (not added)</td><td>",
            "<code>",
            "</code>",
            "</td>",
        );
        push_listed(
            &mut html,
            &missing_add,
            "\n<tr><td>Missing users (not added)</td><td>",
            "<b>",
            "</b>",
            "</td>",
        );
        push_listed(
            &mut html,
            &unchanged_add,
            "\n<tr><td>Users already in group (not added)</td><td>",
            "<b>",
            "</b>",
            "</td>",
        );
        push_listed(&mut html, &removed, "\n<tr><td>Removed users</td><td>", "<b>", "</b>", "</td>");
        push_listed(
            &mut html,
            &self.malformed_remove,
            "\n<tr><td>Malformed users (not removed)</td><td>",
            "<code>",
            "</code>",
            "</td>",
        );
        push_listed(
            &mut html,
            &unchanged_remove,
            "\n<tr><td>Users already in group (not added)</td><td>",
            "<b>",
            "</b>",
            "</td>",
        );
        html.append("\n</table>");
        (plain, html)
    }
}

/// The reply to `groupmod` without any change asked for.
pub open spec fn nothing_to_change() -> ReplyView {
    ReplyView::Html(
        "Nothing to change: no options provided"@,
        "Nothing to change: no options provided"@,
    )
}

/// Builds the reply that `nothing_to_change` describes.
pub fn nothing_to_change_reply() -> (res: Reply)
    ensures
        res@ == nothing_to_change(),
{
    Reply::Html(
        String::from_str("Nothing to change: no options provided"),
        String::from_str("Nothing to change: no options provided"),
    )
}

/// The reply to `groupdel` without any group named.
pub open spec fn no_group_to_delete() -> ReplyView {
    ReplyView::Plain("Specify at least one group to delete"@)
}

/// Builds the reply that `no_group_to_delete` describes.
pub fn no_group_to_delete_reply() -> (res: Reply)
    ensures
        res@ == no_group_to_delete(),
{
    Reply::Plain(String::from_str("Specify at least one group to delete"))
}

/// Plain-text body of the `groupdel` report.
pub open spec fn group_deletion_plain(deleted: Seq<Seq<char>>, not_owner: Seq<Seq<char>>, not_found: Seq<Seq<char>>) -> Seq<char> {
    let e = Seq::<char>::empty();
    "Group Deletion Summary"@ + listed(deleted, "\n* Deleted: "@, e, e, e) + listed(
        not_owner,
        "\n* Not deleted (not owner): "@,
        e,
        e,
        e,
    ) + listed(not_found, "\n* Not deleted (not found): "@, e, e, e)
}

/// HTML body of the `groupdel` report.
pub open spec fn group_deletion_html(deleted: Seq<Seq<char>>, not_owner: Seq<Seq<char>>, not_found: Seq<Seq<char>>) -> Seq<char> {
    "Group Deletion Summary\n<table>"@ + listed(
        deleted,
        "<tr><td>Deleted</td><td>"@,
        "<b>"@,
        "</b>"@,
        "</td></tr>"@,
    ) + listed(
        not_owner,
        "<tr><td>Not deleted (not owner)</td><td>"@,
        "<b>"@,
        "</b>"@,
        "</td></tr>"@,
    ) + listed(
        not_found,
        "<tr><td>Not deleted (not found)</td><td>"@,
        "<b>"@,
        "</b>"@,
        "</td></tr>"@,
    ) + "</table>"@
}

/// The summary of a `groupdel` run: groups deleted, refused because the sender
/// does not own them, and not found.
pub fn group_deletion_summary(deleted: &Vec<String>, not_owner: &Vec<String>, not_found: &Vec<String>) -> (res: (
    String,
    String,
))
    ensures
        res.0@ == group_deletion_plain(deleted.deep_view(), not_owner.deep_view(), not_found.deep_view()),
        res.1@ == group_deletion_html(deleted.deep_view(), not_owner.deep_view(), not_found.deep_view()),
{
    proof {
        crate::text::lemma_empty_str();
    }
    let mut plain = String::from_str("Group Deletion Summary");
    push_listed(&mut plain, deleted, "\n* Deleted: ", "", "", "");
    push_listed(&mut plain, not_owner, "\n* Not deleted (not owner): ", "", "", "");
    push_listed(&mut plain, not_found, "\n* Not deleted (not found): ", "", "", "");
    let mut html = String::from_str("Group Deletion Summary\n<table>");
    push_listed(&mut html, deleted, "<tr><td>Deleted</td><td>", "<b>", "</b>", "</td></tr>");
    push_listed(
        &mut html,
        not_owner,
        "<tr><td>Not deleted (not owner)</td><td>",
        "<b>",
        "</b>",
        "</td></tr>",
    );
    push_listed(
        &mut html,
        not_found,
        "<tr><td>Not deleted (not found)</td><td>",
        "<b>",
        "</b>",
        "</td></tr>",
    );
    html.append("</table>");
    (plain, html)
}

/// The reply to `groupinfo` for a group that does not exist.
pub open spec fn group_not_found(name: Seq<char>) -> ReplyView {
    ReplyView::Html(
        "Could not find any groups named \""@ + name + "\""@,
        "Could not find any groups named <b>"@ + name + "</b>"@,
    )
}

/// Builds the reply that `group_not_found` describes.
pub fn group_not_found_reply(name: &str) -> (res: Reply)
    ensures
        res@ == group_not_found(name@),
{
    let mut plain = String::from_str("Could not find any groups named \"");
    plain.append(name);
    plain.append("\"");
    let mut html = String::from_str("Could not find any groups named <b>");
    html.append(name);
    html.append("</b>");
    Reply::Html(plain, html)
}

/// " and N more" when the listed members are fewer than all of them.
pub open spec fn more_members(shown: nat, count: nat) -> Seq<char> {
    if count == shown {
        Seq::<char>::empty()
    } else {
        " and "@ + decimal((count - shown) as nat) + " more"@
    }
}

/// Plain-text body of the `groupinfo` report.
pub open spec fn group_info_plain(
    name: Seq<char>,
    owner: Seq<char>,
    admin_group: Option<Seq<char>>,
    members: Seq<Seq<char>>,
    count: nat,
) -> Seq<char> {
    let e = Seq::<char>::empty();
    "Group info for \""@ + name + "\""@ + "\n* Owner - "@ + owner + optional(
        admin_group,
        "\n* Admin group - "@,
        e,
    ) + if count == 0 {
        "\n* Members - [empty group]"@
    } else {
        "\n* Members - "@ + crate::text::join(members, ", "@) + more_members(members.len(), count)
    }
}

/// HTML body of the `groupinfo` report.
pub open spec fn group_info_html(
    name: Seq<char>,
    owner: Seq<char>,
    admin_group: Option<Seq<char>>,
    members: Seq<Seq<char>>,
    count: nat,
) -> Seq<char> {
    "<b>Group info for <code>"@ + name + "</code><b>"@ + "<table>"@ + "<tr><td>Owner</td><td><b>"@
        + owner + "</b></td></tr>"@ + optional(
        admin_group,
        "<tr><td>Admin group</td><td><b>"@,
        "</b></td></tr>"@,
    ) + (if count == 0 {
        "<tr><td>Members</td><td><i>[empty group]</i></td></tr>"@
    } else {
        "<tr><td>Members</td><td>"@ + crate::text::join(
            crate::text::wrapped(members, "<b>"@, "</b>"@),
            ", "@,
        ) + more_members(members.len(), count) + "</td></tr>"@
    }) + "</table>"@
}

/// The `groupinfo` summary of a group: its owner and admin group as shown,
/// the first members (`members`, as shown) and how many members it has.
pub fn group_info_summary(
    name: &str,
    owner: &str,
    admin_group: &Option<String>,
    members: &Vec<String>,
    count: u64,
) -> (res: (String, String))
    requires
        members@.len() <= count,
    ensures
        res.0@ == group_info_plain(name@, owner@, admin_group.deep_view(), members.deep_view(), count as nat),
        res.1@ == group_info_html(name@, owner@, admin_group.deep_view(), members.deep_view(), count as nat),
{
    proof {
        crate::text::lemma_empty_str();
    }
    let mut extras = String::new();
    let shown = members.len() as u64;
    if count != shown {
        extras.append(" and ");
        push_decimal(&mut extras, (count - shown) as u128);
        extras.append(" more");
    }
    assert(extras@ =~= more_members(members@.len(), count as nat));
    let mut plain = String::from_str("Group info for \"");
    plain.append(name);
    plain.append("\"");
    plain.append("\n* Owner - ");
    plain.append(owner);
    push_optional(&mut plain, admin_group, "\n* Admin group - ", "");
    let ghost p0 = plain@;
    let mut html = String::from_str("<b>Group info for <code>");
    html.append(name);
    html.append("</code><b>");
    html.append("<table>");
    html.append("<tr><td>Owner</td><td><b>");
    html.append(owner);
    html.append("</b></td></tr>");
    push_optional(&mut html, admin_group, "<tr><td>Admin group</td><td><b>", "</b></td></tr>");
    let ghost h0 = html@;
    if count == 0 {
        plain.append("\n* Members - [empty group]");
        html.append("<tr><td>Members</td><td><i>[empty group]</i></td></tr>");
    } else {
        let joined = crate::text::join_strs(members, ", ");
        plain.append("\n* Members - ");
        plain.append(joined.as_str());
        plain.append(extras.as_str());
        assert(plain@ =~= p0 + ("\n* Members - "@ + joined@ + extras@));
        html.append("<tr><td>Members</td><td>");
        let mut list = String::new();
        push_listed(&mut list, members, "", "<b>", "</b>", "");
        assert(list@ =~= crate::text::join(crate::text::wrapped(members.deep_view(), "<b>"@, "</b>"@), ", "@));
        html.append(list.as_str());
        html.append(extras.as_str());
        html.append("</td></tr>");
        assert(html@ =~= h0 + ("<tr><td>Members</td><td>"@ + list@ + extras@ + "</td></tr>"@));
    }
    html.append("</table>");
    (plain, html)
}

/// The reply to `groups` with a user argument that is not a mention.
pub open spec fn malformed_user() -> ReplyView {
    ReplyView::Plain("Malformed user argument, expected @mention."@)
}

/// Builds the reply that `malformed_user` describes.
pub fn malformed_user_reply() -> (res: Reply)
    ensures
        res@ == malformed_user(),
{
    Reply::Plain(String::from_str("Malformed user argument, expected @mention."))
}

/// "s" unless there is exactly one.
pub open spec fn plural(n: nat) -> Seq<char> {
    if n == 1 {
        Seq::<char>::empty()
    } else {
        "s"@
    }
}

/// A "<role> of N <noun>(s)" section, in plain text.
pub open spec fn role_plain(role: Seq<char>, noun: Seq<char>, names: Seq<Seq<char>>) -> Seq<char> {
    "\n* "@ + role + " of "@ + decimal(names.len()) + " "@ + noun + plural(names.len()) + ": "@
        + crate::text::join(names, ", "@)
}

/// A "<role> of N <noun>(s)" section, as an HTML table row.
pub open spec fn role_html(role: Seq<char>, noun: Seq<char>, names: Seq<Seq<char>>) -> Seq<char> {
    "<tr><td>"@ + role + " of "@ + decimal(names.len()) + " "@ + noun + plural(names.len())
        + "</td><td><i>"@ + crate::text::join(crate::text::wrapped(names, "<b>"@, "</b>"@), ", "@)
        + "</i></td></tr>"@
}

/// Appends the role sections of `names` to both bodies.
pub fn push_role(plain: &mut String, html: &mut String, role: &str, noun: &str, names: &Vec<String>)
    requires
        names@.len() > 0,
    ensures
        final(plain)@ == old(plain)@ + role_plain(role@, noun@, names.deep_view()),
        final(html)@ == old(html)@ + role_html(role@, noun@, names.deep_view()),
{
    proof {
        crate::text::lemma_empty_str();
    }
    let n = names.len();
    let joined = crate::text::join_strs(names, ", ");
    plain.append("\n* ");
    plain.append(role);
    plain.append(" of ");
    push_decimal(plain, n as u128);
    plain.append(" ");
    plain.append(noun);
    push_if(plain, n != 1, "s");
    plain.append(": ");
    plain.append(joined.as_str());
    assert(shown_if(n != 1, "s"@) == plural(n as nat));
    assert(plain@ =~= old(plain)@ + role_plain(role@, noun@, names.deep_view()));
    let mut list = String::new();
    push_listed(&mut list, names, "", "<b>", "</b>", "");
    assert(list@ =~= crate::text::join(crate::text::wrapped(names.deep_view(), "<b>"@, "</b>"@), ", "@));
    html.append("<tr><td>");
    html.append(role);
    html.append(" of ");
    push_decimal(html, n as u128);
    html.append(" ");
    html.append(noun);
    push_if(html, n != 1, "s");
    html.append("</td><td><i>");
    html.append(list.as_str());
    html.append("</i></td></tr>");
    assert(html@ =~= old(html)@ + role_html(role@, noun@, names.deep_view()));
}

/// Plain-text body of the `groups` listing.
pub open spec fn groups_plain(
    user: Seq<char>,
    server: Seq<char>,
    member_of: Seq<Seq<char>>,
    admin_of: Seq<Seq<char>>,
    owner_of: Seq<Seq<char>>,
) -> Seq<char> {
    "Groups Summary of "@ + user + ":"@ + server + (if member_of.len() == 0 {
        "\n* Not member of any groups"@
    } else {
        role_plain("Member"@, "group"@, member_of)
    }) + shown_if(admin_of.len() > 0, role_plain("Admin"@, "group"@, admin_of)) + shown_if(
        owner_of.len() > 0,
        role_plain("Owner"@, "group"@, owner_of),
    )
}

/// HTML body of the `groups` listing.
pub open spec fn groups_html(
    user: Seq<char>,
    server: Seq<char>,
    member_of: Seq<Seq<char>>,
    admin_of: Seq<Seq<char>>,
    owner_of: Seq<Seq<char>>,
) -> Seq<char> {
    "Groups Summary of <b>"@ + user + ":"@ + server + "<b><table>"@ + (if member_of.len() == 0 {
        "<tr><td>Member of 0 groups</td><td><i>[empty list]</i></td></tr>"@
    } else {
        role_html("Member"@, "group"@, member_of)
    }) + shown_if(admin_of.len() > 0, role_html("Admin"@, "group"@, admin_of)) + shown_if(
        owner_of.len() > 0,
        role_html("Owner"@, "group"@, owner_of),
    ) + "</table>"@
}

/// The `groups` summary of `user:server`: the groups it is a member, an
/// admin and the owner of.
pub fn groups_summary(
    user: &str,
    server: &str,
    member_of: &Vec<String>,
    admin_of: &Vec<String>,
    owner_of: &Vec<String>,
) -> (res: (String, String))
    ensures
        res.0@ == groups_plain(user@, server@, member_of.deep_view(), admin_of.deep_view(), owner_of.deep_view()),
        res.1@ == groups_html(user@, server@, member_of.deep_view(), admin_of.deep_view(), owner_of.deep_view()),
{
    let mut plain = String::from_str("Groups Summary of ");
    plain.append(user);
    plain.append(":");
    plain.append(server);
    let mut html = String::from_str("Groups Summary of <b>");
    html.append(user);
    html.append(":");
    html.append(server);
    html.append("<b><table>");
    let ghost p0 = plain@;
    let ghost h0 = html@;
    if member_of.len() == 0 {
        plain.append("\n* Not member of any groups");
        html.append("<tr><td>Member of 0 groups</td><td><i>[empty list]</i></td></tr>");
    } else {
        push_role(&mut plain, &mut html, "Member", "group", member_of);
    }
    let ghost p1 = plain@;
    let ghost h1 = html@;
    if admin_of.len() > 0 {
        push_role(&mut plain, &mut html, "Admin", "group", admin_of);
    } else {
        assert(plain@ =~= p1 + Seq::<char>::empty());
        assert(html@ =~= h1 + Seq::<char>::empty());
    }
    let ghost p2 = plain@;
    let ghost h2 = html@;
    if owner_of.len() > 0 {
        push_role(&mut plain, &mut html, "Owner", "group", owner_of);
    } else {
        assert(plain@ =~= p2 + Seq::<char>::empty());
        assert(html@ =~= h2 + Seq::<char>::empty());
    }
    html.append("</table>");
    (plain, html)
}

} // verus!
