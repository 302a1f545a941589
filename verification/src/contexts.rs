//! The context commands: `contextadd`, `contextdel`, `contextinfo`,
//! `contextmod`, `contexts`, `contextset` and `contextunset`, with the replies
//! they answer.
use vstd::prelude::*;

use crate::format::{decimal, escape_text, escaped, push_decimal};
use crate::groups::{plain_desc, plural, push_role, role_html, role_plain};
use crate::org::{Reply, ReplyView};
use crate::text::{join, listed, optional, push_if, push_optional, shown_if, wrapped};

verus! {

/// Qualifiers of `contextadd`, most specific first.
pub open spec fn contextadd_permissions() -> Seq<Seq<char>> {
    seq!["core.org.contexts.add"@, "core.org.contexts"@, "core.org"@, "core"@, "*"@]
}

/// Qualifiers of `contextdel`, most specific first.
pub open spec fn contextdel_permissions() -> Seq<Seq<char>> {
    seq!["core.org.contexts.delete"@, "core.org.contexts"@, "core.org"@, "core"@, "*"@]
}

/// Qualifiers of `contextinfo`, most specific first.
pub open spec fn contextinfo_permissions() -> Seq<Seq<char>> {
    seq!["core.org.contexts.info"@, "core.org.contexts"@, "core.org"@, "core"@, "*"@]
}

/// Qualifiers of `contextmod`, most specific first.
pub open spec fn contextmod_permissions() -> Seq<Seq<char>> {
    seq!["core.org.context.mod"@, "core.org.context"@, "core.org"@, "core"@, "*"@]
}

/// Qualifiers of `contexts`, most specific first.
pub open spec fn contexts_permissions() -> Seq<Seq<char>> {
    seq!["core.org.contexts.list"@, "core.org.contexts"@, "core.org"@, "core"@, "*"@]
}

/// The `contextadd` command: creates a context.
pub struct CmdContextAdd;

impl CmdContextAdd {
    /// Qualifiers whose rules decide whether the command may run, most specific first.
    pub fn permissions(&self) -> (res: &'static [&'static str])
        ensures
            res@.map_values(|p: &str| p@) == contextadd_permissions(),
    {
        let res: &'static [&'static str] = &[
            "core.org.contexts.add",
            "core.org.contexts",
            "core.org",
            "core",
            "*",
        ];
        assert(res@.map_values(|p: &str| p@) =~= contextadd_permissions());
        res
    }

    /// Whether the command runs when no rule applies to it.
    pub fn default_permission(&self) -> (res: bool)
        ensures
            res,
    {
        true
    }
}

/// The `contextdel` command: deletes contexts the sender owns.
pub struct CmdContextDel;

impl CmdContextDel {
    /// Qualifiers whose rules decide whether the command may run, most specific first.
    pub fn permissions(&self) -> (res: &'static [&'static str])
        ensures
            res@.map_values(|p: &str| p@) == contextdel_permissions(),
    {
        let res: &'static [&'static str] = &[
            "core.org.contexts.delete",
            "core.org.contexts",
            "core.org",
            "core",
            "*",
        ];
        assert(res@.map_values(|p: &str| p@) =~= contextdel_permissions());
        res
    }

    /// Whether the command runs when no rule applies to it.
    pub fn default_permission(&self) -> (res: bool)
        ensures
            res,
    {
        true
    }
}

/// The `contextinfo` command: shows a context.
pub struct CmdContextInfo;

impl CmdContextInfo {
    /// Qualifiers whose rules decide whether the command may run, most specific first.
    pub fn permissions(&self) -> (res: &'static [&'static str])
        ensures
            res@.map_values(|p: &str| p@) == contextinfo_permissions(),
    {
        let res: &'static [&'static str] = &[
            "core.org.contexts.info",
            "core.org.contexts",
            "core.org",
            "core",
            "*",
        ];
        assert(res@.map_values(|p: &str| p@) =~= contextinfo_permissions());
        res
    }

    /// Whether the command runs when no rule applies to it.
    pub fn default_permission(&self) -> (res: bool)
        ensures
            res,
    {
        true
    }
}

/// The `contextmod` command: modifies a context.
pub struct CmdContextMod;

impl CmdContextMod {
    /// Qualifiers whose rules decide whether the command may run, most specific first.
    pub fn permissions(&self) -> (res: &'static [&'static str])
        ensures
            res@.map_values(|p: &str| p@) == contextmod_permissions(),
    {
        let res: &'static [&'static str] = &[
            "core.org.context.mod",
            "core.org.context",
            "core.org",
            "core",
            "*",
        ];
        assert(res@.map_values(|p: &str| p@) =~= contextmod_permissions());
        res
    }

    /// Whether the command runs when no rule applies to it.
    pub fn default_permission(&self) -> (res: bool)
        ensures
            res,
    {
        true
    }
}

/// The `contexts` command: lists the contexts a user controls.
pub struct CmdContexts;

impl CmdContexts {
    /// Qualifiers whose rules decide whether the command may run, most specific first.
    pub fn permissions(&self) -> (res: &'static [&'static str])
        ensures
            res@.map_values(|p: &str| p@) == contexts_permissions(),
    {
        let res: &'static [&'static str] = &[
            "core.org.contexts.list",
            "core.org.contexts",
            "core.org",
            "core",
            "*",
        ];
        assert(res@.map_values(|p: &str| p@) =~= contexts_permissions());
        res
    }

    /// Whether the command runs when no rule applies to it.
    pub fn default_permission(&self) -> (res: bool)
        ensures
            res,
    {
        true
    }
}

/// The `contextset` command: sets the context of the current room. It has no
/// qualifiers, so no rule can disable it.
pub struct CmdContextSet;

impl CmdContextSet {
    /// Qualifiers whose rules decide whether the command may run, most specific first.
    pub fn permissions(&self) -> (res: &'static [&'static str])
        ensures
            res@.len() == 0,
    {
        let res: &'static [&'static str] = &[];
        res
    }

    /// Whether the command runs when no rule applies to it.
    pub fn default_permission(&self) -> (res: bool)
        ensures
            res,
    {
        true
    }
}

/// The `contextunset` command: unsets the context of the current room. It has
/// no qualifiers, so no rule can disable it.
pub struct CmdContextUnset;

impl CmdContextUnset {
    /// Qualifiers whose rules decide whether the command may run, most specific first.
    pub fn permissions(&self) -> (res: &'static [&'static str])
        ensures
            res@.len() == 0,
    {
        let res: &'static [&'static str] = &[];
        res
    }

    /// Whether the command runs when no rule applies to it.
    pub fn default_permission(&self) -> (res: bool)
        ensures
            res,
    {
        true
    }
}

/// Whether a room power level allows setting the room's context.
pub open spec fn may_set_room_context(power_level: int) -> bool {
    power_level >= 100
}

/// Whether a sender with the given room power level may set or unset the room's context.
pub fn can_set_room_context(power_level: i64) -> (res: bool)
    ensures
        res == may_set_room_context(power_level as int),
{
    power_level >= 100
}

/// How attaching the current room to a context went.
pub enum Attachment {
    /// attached, replacing the context of that name
    Replaced(String),
    /// attached; the room had no context
    Attached,
    /// not attached, for the given reason
    Refused(String),
}

pub enum AttachmentView {
    Replaced(Seq<char>),
    Attached,
    Refused(Seq<char>),
}

impl View for Attachment {
    type V = AttachmentView;

    open spec fn view(&self) -> AttachmentView {
        match self {
            Attachment::Replaced(p) => AttachmentView::Replaced(p@),
            Attachment::Attached => AttachmentView::Attached,
            Attachment::Refused(e) => AttachmentView::Refused(e@),
        }
    }
}

/// What a created context's summary shows.
pub struct ContextCreated {
    pub name: String,
    pub desc: String,
    /// the owner as shown
    pub owner: String,
    pub admin_group: Option<String>,
    /// how the requested attachment went; `None` when none was requested
    pub attachment: Option<Attachment>,
}

pub struct ContextCreatedView {
    pub name: Seq<char>,
    pub desc: Seq<char>,
    pub owner: Seq<char>,
    pub admin_group: Option<Seq<char>>,
    pub attachment: Option<AttachmentView>,
}

impl View for ContextCreated {
    type V = ContextCreatedView;

    open spec fn view(&self) -> ContextCreatedView {
        ContextCreatedView {
            name: self.name@,
            desc: self.desc@,
            owner: self.owner@,
            admin_group: self.admin_group.deep_view(),
            attachment: match self.attachment {
                Some(a) => Some(a@),
                None => None,
            },
        }
    }
}

/// The plain-text line on how a new context was attached to the room, if it was to be.
pub open spec fn attachment_plain(a: Option<AttachmentView>) -> Seq<char> {
    match a {
        Some(AttachmentView::Replaced(p)) => "\n* Attach to room - succeeded, replaced exsting context "@ + p,
        Some(AttachmentView::Attached) => "\n* Attach to room - succeeded"@,
        Some(AttachmentView::Refused(_)) => "\n* Attach to room - failed, err"@,
        None => Seq::<char>::empty(),
    }
}

/// The HTML line on how a new context was attached to the room, if it was to be.
pub open spec fn attachment_html(a: Option<AttachmentView>) -> Seq<char> {
    match a {
        Some(AttachmentView::Replaced(p)) => "<tr><td>Attach to room</td><td>Succeeded, replaced existing context <b>"@ + p
            + "</b></td></tr>"@,
        Some(AttachmentView::Attached) => "<tr><td>Attach to room</td><td>Succeeded</b></td></tr>"@,
        Some(AttachmentView::Refused(e)) => "<tr><td>Attach to room</td><td>Failed, "@ + e
            + "</td></tr>"@,
        None => Seq::<char>::empty(),
    }
}

/// Plain-text body of the reply to a created context.
pub open spec fn context_created_plain(c: ContextCreatedView) -> Seq<char> {
    "Created Context \""@ + c.name + "\":"@ + "\n* Description - "@ + plain_desc(c.desc)
        + "\n* Owner - "@ + c.owner + optional(c.admin_group, "\n* Admin group - "@, Seq::empty())
        + attachment_plain(c.attachment)
}

/// HTML body of the reply to a created context.
pub open spec fn context_created_html(c: ContextCreatedView) -> Seq<char> {
    "<b>Created Context <code>"@ + c.name + "</code></b><table>"@ + "<tr><td>Description</td><td>"@
        + (if c.desc.len() == 0 {
        "<i>[empty string]</i>"@
    } else {
        escaped(c.desc)
    }) + "</td></tr>"@ + "<tr><td>Owner</td><td><b>"@ + c.owner + "</b></td></tr>"@ + optional(
        c.admin_group,
        "<tr><td>Admin group</td><td><b>"@,
        "</b></td></tr>"@,
    ) + attachment_html(c.attachment) + "</table>"@
}

impl ContextCreated {
    /// The summary of a created context, in plain text and in HTML.
    pub fn summary(&self) -> (res: (String, String))
        ensures
            res.0@ == context_created_plain(self@),
            res.1@ == context_created_html(self@),
    {
        proof {
            crate::text::lemma_empty_str();
        }
        let empty_desc = self.desc.as_str().unicode_len() == 0;
        let mut plain = String::from_str("Created Context \"");
        plain.append(self.name.as_str());
        plain.append("\":");
        plain.append("\n* Description - ");
        if empty_desc {
            plain.append("[empty string]");
        } else {
            plain.append(self.desc.as_str());
        }
        plain.append("\n* Owner - ");
        plain.append(self.owner.as_str());
        push_optional(&mut plain, &self.admin_group, "\n* Admin group - ", "");
        let mut html = String::from_str("<b>Created Context <code>");
        html.append(self.name.as_str());
        html.append("</code></b><table>");
        html.append("<tr><td>Description</td><td>");
        if empty_desc {
            html.append("<i>[empty string]</i>");
        } else {
            let e = escape_text(self.desc.as_str());
            html.append(e.as_str());
        }
        html.append("</td></tr>");
        html.append("<tr><td>Owner</td><td><b>");
        html.append(self.owner.as_str());
        html.append("</b></td></tr>");
        push_optional(&mut html, &self.admin_group, "<tr><td>Admin group</td><td><b>", "</b></td></tr>");
        let ghost p0 = plain@;
        let ghost h0 = html@;
        match &self.attachment {
            Some(Attachment::Replaced(previous)) => {
                plain.append("\n* Attach to room - succeeded, replaced exsting context ");
                plain.append(previous.as_str());
                html.append("<tr><td>Attach to room</td><td>Succeeded, replaced existing context <b>");
                html.append(previous.as_str());
                html.append("</b></td></tr>");
                assert(plain@ =~= p0 + attachment_plain(self@.attachment));
                assert(html@ =~= h0 + attachment_html(self@.attachment));
            },
            Some(Attachment::Attached) => {
                plain.append("\n* Attach to room - succeeded");
                html.append("<tr><td>Attach to room</td><td>Succeeded</b></td></tr>");
            },
            Some(Attachment::Refused(err)) => {
                plain.append("\n* Attach to room - failed, err");
                html.append("<tr><td>Attach to room</td><td>Failed, ");
                html.append(err.as_str());
                html.append("</td></tr>");
                assert(html@ =~= h0 + attachment_html(self@.attachment));
            },
            None => {
                assert(plain@ =~= p0 + Seq::<char>::empty());
                assert(html@ =~= h0 + Seq::<char>::empty());
            },
        }
        html.append("</table>");
        (plain, html)
    }
}

/// The reason given when a room member's power level is too low to attach the
/// room to a new context.
pub fn attach_refusal() -> (res: String)
    ensures
        res@ == "no permission: require permission level 100"@,
{
    String::from_str("no permission: require permission level 100")
}

/// The reason given when a room member's power level is too low to set or
/// unset the room's context.
pub fn room_context_refusal() -> (res: String)
    ensures
        res@ == "no permission: require room permission level 100"@,
{
    String::from_str("no permission: require room permission level 100")
}

/// A list section that, as `contextdel` has it, is shown exactly when the list
/// is empty.
pub open spec fn listed_when_empty(items: Seq<Seq<char>>, head: Seq<char>, before: Seq<char>, after: Seq<char>, tail: Seq<char>) -> Seq<char> {
    shown_if(items.len() == 0, head + join(wrapped(items, before, after), ", "@) + tail)
}

fn push_listed_when_empty(out: &mut String, items: &Vec<String>, head: &str, before: &str, after: &str, tail: &str)
    ensures
        final(out)@ == old(out)@ + listed_when_empty(items.deep_view(), head@, before@, after@, tail@),
{
    if items.len() == 0 {
        out.append(head);
        assert(wrapped(items.deep_view(), before@, after@) =~= Seq::<Seq<char>>::empty());
        out.append(tail);
        assert(out@ =~= old(out)@ + (head@ + join(wrapped(items.deep_view(), before@, after@), ", "@) + tail@));
    } else {
        assert(out@ =~= old(out)@ + Seq::<char>::empty());
    }
}

/// Plain-text body of the `contextdel` report.
pub open spec fn context_deletion_plain(deleted: Seq<Seq<char>>, not_found: Seq<Seq<char>>, not_owner: Seq<Seq<char>>) -> Seq<char> {
    let e = Seq::<char>::empty();
    "Context Deletion Summary"@ + listed_when_empty(deleted, "\n* Deleted: "@, e, e, e)
        + listed_when_empty(not_found, "\n* Not deleted (not found): "@, e, e, e)
        + listed_when_empty(not_owner, "\n* Not deleted (not owner): "@, e, e, e)
}

/// HTML body of the `contextdel` report.
pub open spec fn context_deletion_html(deleted: Seq<Seq<char>>, not_found: Seq<Seq<char>>, not_owner: Seq<Seq<char>>) -> Seq<char> {
    "Context Deletion Summary\n<table>"@ + listed_when_empty(
        deleted,
        "<tr><td>Deleted</td><td>"@,
        "<b>"@,
        "</b>"@,
        "</td></tr>"@,
    ) + listed_when_empty(
        not_found,
        "<tr><td>Not deleted (not found)</td><td>"@,
        "<b>"@,
        "</b>"@,
        "</td></tr>"@,
    ) + listed_when_empty(
        not_owner,
        "<tr><td>Not deleted (not owner)</td><td>"@,
        "<b>"@,
        "</b>"@,
        "</td></tr>"@,
    ) + "</table>"@
}

/// The summary of a `contextdel` run: contexts deleted, not found, and refused
/// because the sender does not own them. Each section stands in the summary
/// exactly when its list is empty.
pub fn context_deletion_summary(deleted: &Vec<String>, not_found: &Vec<String>, not_owner: &Vec<String>) -> (res: (
    String,
    String,
))
    ensures
        res.0@ == context_deletion_plain(deleted.deep_view(), not_found.deep_view(), not_owner.deep_view()),
        res.1@ == context_deletion_html(deleted.deep_view(), not_found.deep_view(), not_owner.deep_view()),
{
    proof {
        crate::text::lemma_empty_str();
    }
    let mut plain = String::from_str("Context Deletion Summary");
    push_listed_when_empty(&mut plain, deleted, "\n* Deleted: ", "", "", "");
    push_listed_when_empty(&mut plain, not_found, "\n* Not deleted (not found): ", "", "", "");
    push_listed_when_empty(&mut plain, not_owner, "\n* Not deleted (not owner): ", "", "", "");
    let mut html = String::from_str("Context Deletion Summary\n<table>");
    push_listed_when_empty(&mut html, deleted, "<tr><td>Deleted</td><td>", "<b>", "</b>", "</td></tr>");
    push_listed_when_empty(
        &mut html,
        not_found,
        "<tr><td>Not deleted (not found)</td><td>",
        "<b>",
        "</b>",
        "</td></tr>",
    );
    push_listed_when_empty(
        &mut html,
        not_owner,
        "<tr><td>Not deleted (not owner)</td><td>",
        "<b>",
        "</b>",
        "</td></tr>",
    );
    html.append("</table>");
    (plain, html)
}

/// The reply to `contextinfo` naming a context that does not exist.
pub open spec fn context_info_not_found(name: Seq<char>) -> ReplyView {
    ReplyView::Html("No contexts with name "@ + name, "No contexts with name<b>"@ + escaped(name) + "</b>"@)
}

/// Builds the reply that `context_info_not_found` describes.
pub fn context_info_not_found_reply(name: &str) -> (res: Reply)
    ensures
        res@ == context_info_not_found(name@),
{
    let mut plain = String::from_str("No contexts with name ");
    plain.append(name);
    let mut html = String::from_str("No contexts with name<b>");
    let e = escape_text(name);
    html.append(e.as_str());
    html.append("</b>");
    Reply::Html(plain, html)
}

/// The reply to `contextinfo` without a name in a room without a context.
pub open spec fn context_info_no_room_context() -> ReplyView {
    ReplyView::Plain("This room does not have a context set, specify a context to view"@)
}

/// Builds the reply that `context_info_no_room_context` describes.
pub fn context_info_no_room_context_reply() -> (res: Reply)
    ensures
        res@ == context_info_no_room_context(),
{
    Reply::Plain(String::from_str("This room does not have a context set, specify a context to view"))
}

/// Plain-text body of the `contextinfo` report.
pub open spec fn context_info_plain(
    name: Seq<char>,
    active: bool,
    desc: Seq<char>,
    owner: Seq<char>,
    admin_group: Option<Seq<char>>,
    rooms: nat,
) -> Seq<char> {
    "Context info for \""@ + name + "\""@ + shown_if(active, " (active)"@) + (if desc.len() == 0 {
        "\n* Description - [empty string]"@
    } else {
        "\n* Description - "@ + desc
    }) + "\n* Owner - "@ + owner + optional(admin_group, "\n* Admin group - "@, Seq::empty()) + (
    if rooms == 0 {
        "\n* Usage - not used in any rooms"@
    } else {
        "\n* Usage - used in "@ + decimal(rooms) + " room"@ + shown_if(rooms >= 2, "s"@)
    })
}

/// HTML body of the `contextinfo` report.
pub open spec fn context_info_html(
    name: Seq<char>,
    active: bool,
    desc: Seq<char>,
    owner: Seq<char>,
    admin_group: Option<Seq<char>>,
    rooms: nat,
) -> Seq<char> {
    "<b>Context info for <code>"@ + name + "</code><b>"@ + shown_if(active, " (active)"@)
        + "<table>"@ + (if desc.len() == 0 {
        "<tr><td>Description</td><td><i>[empty string]</i></td></tr>"@
    } else {
        "<tr><td>Description</td><td>"@ + escaped(desc) + "</td></tr>"@
    }) + "<tr><td>Owner</td><td><b>"@ + owner + "</b></td></tr>"@ + optional(
        admin_group,
        "<tr><td>Admin group</td><td><b>"@,
        "</b></td></tr>"@,
    ) + (if rooms == 0 {
        "<tr><td>Usage</td><td>not used in any rooms</td></tr>"@
    } else {
        "<tr><td>Usage</td><td>used in "@ + decimal(rooms) + " room"@ + shown_if(rooms >= 2, "s"@)
            + "</td></tr>"@
    }) + "</table>"@
}

/// The `contextinfo` summary of a context: `active` when it is the current
/// room's context shown for want of a name, its owner and admin group as
/// shown, and the number of rooms that use it.
pub fn context_info_summary(
    name: &str,
    active: bool,
    desc: &str,
    owner: &str,
    admin_group: &Option<String>,
    rooms: u64,
) -> (res: (String, String))
    ensures
        res.0@ == context_info_plain(name@, active, desc@, owner@, admin_group.deep_view(), rooms as nat),
        res.1@ == context_info_html(name@, active, desc@, owner@, admin_group.deep_view(), rooms as nat),
{
    proof {
        crate::text::lemma_empty_str();
    }
    let empty_desc = desc.unicode_len() == 0;
    let mut plain = String::from_str("Context info for \"");
    plain.append(name);
    plain.append("\"");
    push_if(&mut plain, active, " (active)");
    let mut html = String::from_str("<b>Context info for <code>");
    html.append(name);
    html.append("</code><b>");
    push_if(&mut html, active, " (active)");
    html.append("<table>");
    let ghost p0 = plain@;
    let ghost h0 = html@;
    if empty_desc {
        plain.append("\n* Description - [empty string]");
        html.append("<tr><td>Description</td><td><i>[empty string]</i></td></tr>");
    } else {
        plain.append("\n* Description - ");
        plain.append(desc);
        html.append("<tr><td>Description</td><td>");
        let e = escape_text(desc);
        html.append(e.as_str());
        html.append("</td></tr>");
        assert(plain@ =~= p0 + ("\n* Description - "@ + desc@));
        assert(html@ =~= h0 + ("<tr><td>Description</td><td>"@ + escaped(desc@) + "</td></tr>"@));
    }
    plain.append("\n* Owner - ");
    plain.append(owner);
    push_optional(&mut plain, admin_group, "\n* Admin group - ", "");
    html.append("<tr><td>Owner</td><td><b>");
    html.append(owner);
    html.append("</b></td></tr>");
    push_optional(&mut html, admin_group, "<tr><td>Admin group</td><td><b>", "</b></td></tr>");
    let ghost p1 = plain@;
    let ghost h1 = html@;
    if rooms == 0 {
        plain.append("\n* Usage - not used in any rooms");
        html.append("<tr><td>Usage</td><td>not used in any rooms</td></tr>");
    } else {
        plain.append("\n* Usage - used in ");
        push_decimal(&mut plain, rooms as u128);
        plain.append(" room");
        push_if(&mut plain, rooms >= 2, "s");
        html.append("<tr><td>Usage</td><td>used in ");
        push_decimal(&mut html, rooms as u128);
        html.append(" room");
        push_if(&mut html, rooms >= 2, "s");
        html.append("</td></tr>");
        assert(plain@ =~= p1 + ("\n* Usage - used in "@ + decimal(rooms as nat) + " room"@ + shown_if(
            rooms >= 2,
            "s"@,
        )));
        assert(html@ =~= h1 + ("<tr><td>Usage</td><td>used in "@ + decimal(rooms as nat) + " room"@
            + shown_if(rooms >= 2, "s"@) + "</td></tr>"@));
    }
    html.append("</table>");
    (plain, html)
}

/// The reply to `contextmod` without any change asked for.
pub open spec fn context_nothing_to_change() -> ReplyView {
    ReplyView::Plain("Nothing to change: no options provided"@)
}

/// Builds the reply that `context_nothing_to_change` describes.
pub fn context_nothing_to_change_reply() -> (res: Reply)
    ensures
        res@ == context_nothing_to_change(),
{
    Reply::Plain(String::from_str("Nothing to change: no options provided"))
}

/// What a context update's summary shows.
pub struct ContextUpdate {
    pub name: String,
    pub new_name: Option<String>,
    pub new_desc: Option<String>,
    /// the new owner as shown
    pub new_owner: Option<String>,
    /// `Some(Some(name))` for a new admin group, `Some(None)` for its removal
    pub new_admin_group: Option<Option<String>>,
}

pub struct ContextUpdateView {
    pub name: Seq<char>,
    pub new_name: Option<Seq<char>>,
    pub new_desc: Option<Seq<char>>,
    pub new_owner: Option<Seq<char>>,
    pub new_admin_group: Option<Option<Seq<char>>>,
}

impl View for ContextUpdate {
    type V = ContextUpdateView;

    open spec fn view(&self) -> ContextUpdateView {
        ContextUpdateView {
            name: self.name@,
            new_name: self.new_name.deep_view(),
            new_desc: self.new_desc.deep_view(),
            new_owner: self.new_owner.deep_view(),
            new_admin_group: self.new_admin_group.deep_view(),
        }
    }
}

/// Plain-text body of the `contextmod` report.
pub open spec fn context_update_plain(u: ContextUpdateView) -> Seq<char> {
    let e = Seq::<char>::empty();
    "\nContext Update Summary for \""@ + u.name + "\":"@ + optional(u.new_name, "\n* New name: "@, e)
        + (match u.new_desc {
        Some(d) => "\n* New desc:"@ + plain_desc(d),
        None => e,
    }) + optional(u.new_owner, "\n* New owner: "@, e) + (match u.new_admin_group {
        Some(Some(a)) => "\n* New admin group: "@ + a,
        Some(None) => "\n* New admin group: none"@,
        None => e,
    })
}

/// HTML body of the `contextmod` report.
pub open spec fn context_update_html(u: ContextUpdateView) -> Seq<char> {
    let e = Seq::<char>::empty();
    "<b>Context Update Summary for <code>"@ + u.name + "</code></b><table>"@ + optional(
        u.new_name,
        "<tr><td>New name</td><td><code>"@,
        "</code></td></tr>"@,
    ) + (match u.new_desc {
        Some(d) => "<tr><td>New description</td><td>"@ + (if d.len() == 0 {
            "<i>[empty string]</i>"@
        } else {
            escaped(d)
        }) + "</td></tr>"@,
        None => e,
    }) + optional(u.new_owner, "<tr><td>New owner</td><td><b>"@, "</b></td></tr>"@) + (
    match u.new_admin_group {
        Some(Some(a)) => "<tr><td>New admin group</td><td><b>"@ + a + "</b></td></tr>"@,
        Some(None) => "<tr><td>New admin group</td><td><i>none</i></td></tr>"@,
        None => e,
    }) + "</table>"@
}

impl ContextUpdate {
    /// The summary of a context update, in plain text and in HTML.
    pub fn summary(&self) -> (res: (String, String))
        ensures
            res.0@ == context_update_plain(self@),
            res.1@ == context_update_html(self@),
    {
        proof {
            crate::text::lemma_empty_str();
        }
        let mut plain = String::from_str("\nContext Update Summary for \"");
        plain.append(self.name.as_str());
        plain.append("\":");
        push_optional(&mut plain, &self.new_name, "\n* New name: ", "");
        let mut html = String::from_str("<b>Context Update Summary for <code>");
        html.append(self.name.as_str());
        html.append("</code></b><table>");
        push_optional(&mut html, &self.new_name, "<tr><td>New name</td><td><code>", "</code></td></tr>");
        let ghost p0 = plain@;
        let ghost h0 = html@;
        match &self.new_desc {
            Some(d) => {
                plain.append("\n* New desc:");
                html.append("<tr><td>New description</td><td>");
                if d.as_str().unicode_len() == 0 {
                    plain.append("[empty string]");
                    html.append("<i>[empty string]</i>");
                } else {
                    plain.append(d.as_str());
                    let esc = escape_text(d.as_str());
                    html.append(esc.as_str());
                }
                html.append("</td></tr>");
                assert(plain@ =~= p0 + ("\n* New desc:"@ + plain_desc(d@)));
                assert(html@ =~= h0 + ("<tr><td>New description</td><td>"@ + (if d@.len() == 0 {
                    "<i>[empty string]</i>"@
                } else {
                    escaped(d@)
                }) + "</td></tr>"@));
            },
            None => {
                assert(plain@ =~= p0 + Seq::<char>::empty());
                assert(html@ =~= h0 + Seq::<char>::empty());
            },
        }
        push_optional(&mut plain, &self.new_owner, "\n* New owner: ", "");
        push_optional(&mut html, &self.new_owner, "<tr><td>New owner</td><td><b>", "</b></td></tr>");
        let ghost p1 = plain@;
        let ghost h1 = html@;
        match &self.new_admin_group {
            Some(Some(a)) => {
                plain.append("\n* New admin group: ");
                plain.append(a.as_str());
                html.append("<tr><td>New admin group</td><td><b>");
                html.append(a.as_str());
                html.append("</b></td></tr>");
                assert(plain@ =~= p1 + ("\n* New admin group: "@ + a@));
                assert(html@ =~= h1 + ("<tr><td>New admin group</td><td><b>"@ + a@ + "</b></td></tr>"@));
            },
            Some(None) => {
                plain.append("\n* New admin group: none");
                html.append("<tr><td>New admin group</td><td><i>none</i></td></tr>");
            },
            None => {
                assert(plain@ =~= p1 + Seq::<char>::empty());
                assert(html@ =~= h1 + Seq::<char>::empty());
            },
        }
        html.append("</table>");
        (plain, html)
    }
}

/// The `contexts` reply for `user:server`: a summary of the contexts it is an
/// admin and the owner of, or a notice when there are none.
pub open spec fn contexts_listing(
    user: Seq<char>,
    server: Seq<char>,
    admin_of: Seq<Seq<char>>,
    owner_of: Seq<Seq<char>>,
) -> ReplyView {
    if admin_of.len() == 0 && owner_of.len() == 0 {
        ReplyView::Plain("This user is not owner or admin of any contexts."@)
    } else {
        ReplyView::Html(
            "Context Summary of "@ + user + ":"@ + server + shown_if(
                admin_of.len() > 0,
                role_plain("Admin"@, "context"@, admin_of),
            ) + shown_if(owner_of.len() > 0, role_plain("Owner"@, "context"@, owner_of)),
            "Context Summary of <b>"@ + user + ":"@ + server + "<b><table>"@ + shown_if(
                admin_of.len() > 0,
                role_html("Admin"@, "context"@, admin_of),
            ) + shown_if(owner_of.len() > 0, role_html("Owner"@, "context"@, owner_of))
                + "</table>"@,
        )
    }
}

proof fn lemma_ends_with(a: Seq<char>, b: Seq<char>)
    ensures
        b.is_suffix_of(a + b),
{
    assert((a + b).subrange(a.len() as int, (a + b).len() as int) =~= b);
}

proof fn lemma_starts_with(a: Seq<char>, b: Seq<char>)
    ensures
        a.is_prefix_of(a + b),
{
    assert((a + b).subrange(0, a.len() as int) =~= a);
}

proof fn lemma_role_literals()
    ensures
        "\n* "@ + "Owner"@ + " of "@ == "\n* Owner of "@,
        "\n* "@ + "Admin"@ + " of "@ == "\n* Admin of "@,
        "<tr><td>"@ + "Owner"@ + " of "@ == "<tr><td>Owner of "@,
        " "@ + "context"@ == " context"@,
        "</i></td></tr>"@ + "</table>"@ == "</i></td></tr></table>"@,
{
    reveal_strlit("\n* ");
    reveal_strlit("<tr><td>");
    reveal_strlit(" of ");
    reveal_strlit(" ");
    reveal_strlit("context");
    reveal_strlit(" context");
    reveal_strlit("\n* Owner of ");
    reveal_strlit("\n* Admin of ");
    reveal_strlit("<tr><td>Owner of ");
    reveal_strlit("Owner");
    reveal_strlit("Admin");
    reveal_strlit("</i></td></tr>");
    reveal_strlit("</i></td></tr></table>");
    reveal_strlit("</table>");
    assert("\n* "@ + "Owner"@ + " of "@ =~= "\n* Owner of "@);
    assert("\n* "@ + "Admin"@ + " of "@ =~= "\n* Admin of "@);
    assert("<tr><td>"@ + "Owner"@ + " of "@ =~= "<tr><td>Owner of "@);
    assert(" "@ + "context"@ =~= " context"@);
    assert("</i></td></tr>"@ + "</table>"@ =~= "</i></td></tr></table>"@);
}

/// The `contexts` notice that the user holds no context comes exactly when it
/// administers none and owns none. Otherwise the listing is headed by the
/// user, opens with the contexts it administers when there are any, and ends
/// with the contexts it owns when there are any, each section counting and
/// naming every context in it.
#[verifier::spinoff_prover]
#[verifier::rlimit(40)]
pub proof fn law_contexts_listing_sections(
    user: Seq<char>,
    server: Seq<char>,
    admin_of: Seq<Seq<char>>,
    owner_of: Seq<Seq<char>>,
)
    ensures
        (contexts_listing(user, server, admin_of, owner_of) == ReplyView::Plain(
            "This user is not owner or admin of any contexts."@,
        )) <==> (admin_of.len() == 0 && owner_of.len() == 0),
        owner_of.len() > 0 ==> (contexts_listing(user, server, admin_of, owner_of) matches ReplyView::Html(
            p,
            h,
        ) && ("\n* Owner of "@ + decimal(owner_of.len()) + " context"@ + (if owner_of.len() == 1 {
            Seq::<char>::empty()
        } else {
            "s"@
        }) + ": "@ + join(owner_of, ", "@)).is_suffix_of(p) && ("<tr><td>Owner of "@ + decimal(
            owner_of.len(),
        ) + " context"@ + (if owner_of.len() == 1 {
            Seq::<char>::empty()
        } else {
            "s"@
        }) + "</td><td><i>"@ + join(wrapped(owner_of, "<b>"@, "</b>"@), ", "@) + "</i></td></tr></table>"@).is_suffix_of(h)),
        admin_of.len() > 0 ==> (contexts_listing(user, server, admin_of, owner_of) matches ReplyView::Html(
            p,
            h,
        ) && ("Context Summary of "@ + user + ":"@ + server + "\n* Admin of "@ + decimal(admin_of.len())
            + " context"@ + (if admin_of.len() == 1 {
            Seq::<char>::empty()
        } else {
            "s"@
        }) + ": "@ + join(admin_of, ", "@)).is_prefix_of(p)),
{
    if !(admin_of.len() == 0 && owner_of.len() == 0) {
        let head = "Context Summary of "@ + user + ":"@ + server;
        let hhead = "Context Summary of <b>"@ + user + ":"@ + server + "<b><table>"@;
        let ap = shown_if(admin_of.len() > 0, role_plain("Admin"@, "context"@, admin_of));
        let ah = shown_if(admin_of.len() > 0, role_html("Admin"@, "context"@, admin_of));
        let op = shown_if(owner_of.len() > 0, role_plain("Owner"@, "context"@, owner_of));
        let oh = shown_if(owner_of.len() > 0, role_html("Owner"@, "context"@, owner_of));
        lemma_listing_shape(user, server, admin_of, owner_of);
        if owner_of.len() > 0 {
            lemma_owner_section(owner_of);
            lemma_ends_with(head + ap, op);
            lemma_ends_with(hhead + ah, oh + "</table>"@);
            assert(hhead + ah + oh + "</table>"@ =~= (hhead + ah) + (oh + "</table>"@));
        }
        if admin_of.len() > 0 {
            lemma_admin_section(admin_of);
            lemma_starts_with(head + ap, op);
        }
    }
}

/// The `contexts` listing of a user with some context, spelt out by section.
proof fn lemma_listing_shape(user: Seq<char>, server: Seq<char>, admin_of: Seq<Seq<char>>, owner_of: Seq<Seq<char>>)
    requires
        !(admin_of.len() == 0 && owner_of.len() == 0),
    ensures
        contexts_listing(user, server, admin_of, owner_of) == ReplyView::Html(
            "Context Summary of "@ + user + ":"@ + server + shown_if(
                admin_of.len() > 0,
                role_plain("Admin"@, "context"@, admin_of),
            ) + shown_if(owner_of.len() > 0, role_plain("Owner"@, "context"@, owner_of)),
            "Context Summary of <b>"@ + user + ":"@ + server + "<b><table>"@ + shown_if(
                admin_of.len() > 0,
                role_html("Admin"@, "context"@, admin_of),
            ) + shown_if(owner_of.len() > 0, role_html("Owner"@, "context"@, owner_of)) + "</table>"@,
        ),
{
}

/// The owner section of `contexts`, spelt out.
proof fn lemma_owner_section(owner_of: Seq<Seq<char>>)
    requires
        owner_of.len() > 0,
    ensures
        role_plain("Owner"@, "context"@, owner_of) == "\n* Owner of "@ + decimal(owner_of.len()) + " context"@
            + (if owner_of.len() == 1 {
            Seq::<char>::empty()
        } else {
            "s"@
        }) + ": "@ + join(owner_of, ", "@),
        role_html("Owner"@, "context"@, owner_of) + "</table>"@ == "<tr><td>Owner of "@ + decimal(owner_of.len())
            + " context"@ + (if owner_of.len() == 1 {
            Seq::<char>::empty()
        } else {
            "s"@
        }) + "</td><td><i>"@ + join(wrapped(owner_of, "<b>"@, "</b>"@), ", "@) + "</i></td></tr></table>"@,
{
    lemma_role_literals();
    let d = decimal(owner_of.len());
    let pl = plural(owner_of.len());
    let j = join(owner_of, ", "@);
    let w = join(wrapped(owner_of, "<b>"@, "</b>"@), ", "@);
    assert("\n* "@ + "Owner"@ + " of "@ + d + " "@ + "context"@ + pl + ": "@ + j =~= ("\n* "@ + "Owner"@
        + " of "@) + d + (" "@ + "context"@) + pl + ": "@ + j);
    assert("<tr><td>"@ + "Owner"@ + " of "@ + d + " "@ + "context"@ + pl + "</td><td><i>"@ + w
        + "</i></td></tr>"@ + "</table>"@ =~= ("<tr><td>"@ + "Owner"@ + " of "@) + d + (" "@ + "context"@) + pl
        + "</td><td><i>"@ + w + ("</i></td></tr>"@ + "</table>"@));
}

/// The admin section of `contexts`, spelt out.
proof fn lemma_admin_section(admin_of: Seq<Seq<char>>)
    requires
        admin_of.len() > 0,
    ensures
        role_plain("Admin"@, "context"@, admin_of) == "\n* Admin of "@ + decimal(admin_of.len()) + " context"@
            + (if admin_of.len() == 1 {
            Seq::<char>::empty()
        } else {
            "s"@
        }) + ": "@ + join(admin_of, ", "@),
{
    lemma_role_literals();
    let d = decimal(admin_of.len());
    let pl = plural(admin_of.len());
    let j = join(admin_of, ", "@);
    assert("\n* "@ + "Admin"@ + " of "@ + d + " "@ + "context"@ + pl + ": "@ + j =~= ("\n* "@ + "Admin"@
        + " of "@) + d + (" "@ + "context"@) + pl + ": "@ + j);
}

/// Builds the reply that `contexts_listing` describes.
pub fn contexts_reply(user: &str, server: &str, admin_of: &Vec<String>, owner_of: &Vec<String>) -> (res: Reply)
    ensures
        res@ == contexts_listing(user@, server@, admin_of.deep_view(), owner_of.deep_view()),
{
    if admin_of.len() == 0 && owner_of.len() == 0 {
        return Reply::Plain(String::from_str("This user is not owner or admin of any contexts."));
    }
    let mut plain = String::from_str("Context Summary of ");
    plain.append(user);
    plain.append(":");
    plain.append(server);
    let mut html = String::from_str("Context Summary of <b>");
    html.append(user);
    html.append(":");
    html.append(server);
    html.append("<b><table>");
    let ghost p0 = plain@;
    let ghost h0 = html@;
    if admin_of.len() > 0 {
        push_role(&mut plain, &mut html, "Admin", "context", admin_of);
    } else {
        assert(plain@ =~= p0 + Seq::<char>::empty());
        assert(html@ =~= h0 + Seq::<char>::empty());
    }
    let ghost p1 = plain@;
    let ghost h1 = html@;
    if owner_of.len() > 0 {
        push_role(&mut plain, &mut html, "Owner", "context", owner_of);
    } else {
        assert(plain@ =~= p1 + Seq::<char>::empty());
        assert(html@ =~= h1 + Seq::<char>::empty());
    }
    html.append("</table>");
    Reply::Html(plain, html)
}

/// The reply to `contextset` naming a context that does not exist.
pub open spec fn context_set_not_found(name: Seq<char>) -> ReplyView {
    ReplyView::Html(
        "No context found with name "@ + name,
        "No context found with name <code>"@ + escaped(name) + "</code>"@,
    )
}

/// Builds the reply that `context_set_not_found` describes.
pub fn context_set_not_found_reply(name: &str) -> (res: Reply)
    ensures
        res@ == context_set_not_found(name@),
{
    let mut plain = String::from_str("No context found with name ");
    plain.append(name);
    let mut html = String::from_str("No context found with name <code>");
    let e = escape_text(name);
    html.append(e.as_str());
    html.append("</code>");
    Reply::Html(plain, html)
}

/// The reply to `contextset` once it is known how the attachment went.
pub open spec fn context_set(outcome: AttachmentView) -> ReplyView {
    match outcome {
        AttachmentView::Replaced(p) => ReplyView::Html(
            "Room context set, replacing existing context "@ + p,
            "Room context set, replacing existing context <b>"@ + p + "</b>"@,
        ),
        AttachmentView::Attached => ReplyView::Plain("Room context set"@),
        AttachmentView::Refused(e) => ReplyView::Plain("Failed to set room context, "@ + e),
    }
}

/// Builds the reply that `context_set` describes.
pub fn context_set_reply(outcome: &Attachment) -> (res: Reply)
    ensures
        res@ == context_set(outcome@),
{
    match outcome {
        Attachment::Replaced(p) => {
            let mut plain = String::from_str("Room context set, replacing existing context ");
            plain.append(p.as_str());
            let mut html = String::from_str("Room context set, replacing existing context <b>");
            html.append(p.as_str());
            html.append("</b>");
            Reply::Html(plain, html)
        },
        Attachment::Attached => Reply::Plain(String::from_str("Room context set")),
        Attachment::Refused(e) => {
            let mut plain = String::from_str("Failed to set room context, ");
            plain.append(e.as_str());
            Reply::Plain(plain)
        },
    }
}

/// The reply to `contextunset` in a room without a context.
pub open spec fn no_room_context() -> ReplyView {
    ReplyView::Plain("This room does not have a context set"@)
}

/// Builds the reply that `no_room_context` describes.
pub fn no_room_context_reply() -> (res: Reply)
    ensures
        res@ == no_room_context(),
{
    Reply::Plain(String::from_str("This room does not have a context set"))
}

/// The reply to `contextunset`: the unset context's name, or why it was not
/// unset.
pub open spec fn context_unset(outcome: Result<Seq<char>, Seq<char>>) -> ReplyView {
    match outcome {
        Ok(previous) => ReplyView::Html(
            "Room context unset, previously "@ + previous,
            "Room context unset, previously <b>"@ + previous + "</b>"@,
        ),
        Err(e) => ReplyView::Plain("Failed to unset room context, "@ + e),
    }
}

/// Builds the reply that `context_unset` describes.
pub fn context_unset_reply(outcome: &Result<String, String>) -> (res: Reply)
    ensures
        res@ == context_unset(match outcome {
            Ok(p) => Ok(p@),
            Err(e) => Err(e@),
        }),
{
    match outcome {
        Ok(p) => {
            let mut plain = String::from_str("Room context unset, previously ");
            plain.append(p.as_str());
            let mut html = String::from_str("Room context unset, previously <b>");
            html.append(p.as_str());
            html.append("</b>");
            Reply::Html(plain, html)
        },
        Err(e) => {
            let mut plain = String::from_str("Failed to unset room context, ");
            plain.append(e.as_str());
            Reply::Plain(plain)
        },
    }
}

} // verus!
