//! Rules shared by the commands that manage groups and contexts: replies,
//! `@user:server` mentions, and the checks made before an entity is created or
//! modified.
use vstd::prelude::*;

use crate::format::{decimal, push_decimal};
use crate::help::width;
use crate::text::{chars_of, count_char, lemma_count_char_absent, lemma_count_char_concat, lemma_find_char_at, eq_ignore_ascii_case, find_char, find_char_in, occurs_at, same_ignoring_ascii_case, string_of};

verus! {

/// A reply to a command: plain text only, or a plain and an HTML body.
pub enum Reply {
    Plain(String),
    Html(String, String),
}

pub enum ReplyView {
    Plain(Seq<char>),
    Html(Seq<char>, Seq<char>),
}

impl View for Reply {
    type V = ReplyView;

    open spec fn view(&self) -> ReplyView {
        match self {
            Reply::Plain(p) => ReplyView::Plain(p@),
            Reply::Html(p, h) => ReplyView::Html(p@, h@),
        }
    }
}

/// What an organisation command manages.
#[derive(Clone, Copy, PartialEq, Eq, Structural)]
pub enum Entity {
    Group,
    Context,
}

/// `user` and `server` of an `@user:server` mention: it starts with `@` and
/// holds exactly one colon.
pub open spec fn mention_parts(s: Seq<char>) -> Option<(Seq<char>, Seq<char>)> {
    if s.len() > 0 && s[0] == '@' && count_char(s, ':') == 1 {
        let body = s.drop_first();
        match find_char(body, ':') {
            Some(i) => Some((body.take(i), body.skip(i + 1))),
            None => None,
        }
    } else {
        None
    }
}

/// Splits an `@user:server` mention into user and server.
pub fn parse_mention(s: &str) -> (res: Option<(String, String)>)
    ensures
        res.deep_view() == mention_parts(s@),
{
    let c = chars_of(s);
    if c.len() == 0 || c[0] != '@' {
        return None;
    }
    let mut count: usize = 0;
    let mut i: usize = 0;
    while i < c.len()
        invariant
            c@ == s@,
            i <= c@.len(),
            count == count_char(c@.take(i as int), ':'),
            count <= i,
        decreases c.len() - i,
    {
        assert(c@.take(i + 1).drop_last() =~= c@.take(i as int));
        if c[i] == ':' {
            count = count + 1;
        }
        i = i + 1;
    }
    assert(c@.take(c@.len() as int) =~= c@);
    if count != 1 {
        return None;
    }
    let body = string_of(&c, 1, c.len());
    let bc = chars_of(body.as_str());
    assert(bc@ =~= c@.drop_first());
    match find_char_in(&bc, ':') {
        Some(k) => {
            let user = string_of(&bc, 0, k);
            let server = string_of(&bc, k + 1, bc.len());
            assert(bc@.subrange(0, k as int) =~= bc@.take(k as int));
            assert(bc@.subrange(k + 1, bc@.len() as int) =~= bc@.skip(k + 1));
            Some((user, server))
        },
        None => None,
    }
}

/// A mention written as `@user:server`, from a user and a server that hold no
/// colon, is split back into that user and that server.
pub proof fn law_mention_roundtrip(user: Seq<char>, server: Seq<char>)
    requires
        !user.contains(':'),
        !server.contains(':'),
    ensures
        mention_parts(seq!['@'] + user + seq![':'] + server) == Some((user, server)),
{
    let body = user + seq![':'] + server;
    let s = seq!['@'] + body;
    assert(seq!['@'] + user + seq![':'] + server =~= s);
    assert(s.drop_first() =~= body);
    lemma_count_char_absent(user, ':');
    lemma_count_char_absent(server, ':');
    lemma_count_char_concat(user, seq![':'], ':');
    lemma_count_char_concat(user + seq![':'], server, ':');
    lemma_count_char_concat(seq!['@'], body, ':');
    assert(count_char(seq![':'], ':') == 1) by {
        assert(seq![':'].drop_last() =~= Seq::<char>::empty());
        assert(count_char(Seq::<char>::empty(), ':') == 0);
    }
    assert(count_char(seq!['@'], ':') == 0) by {
        assert(seq!['@'].drop_last() =~= Seq::<char>::empty());
        assert(count_char(Seq::<char>::empty(), ':') == 0);
    }
    assert forall|k: int| 0 <= k < user.len() implies #[trigger] body[k] != ':' by {
        assert(body[k] == user[k]);
    }
    lemma_find_char_at(body, ':', user.len() as int);
    assert(body.skip(user.len() as int)[0] == ':');
    assert(body.take(user.len() as int) =~= user);
    assert(body.skip(user.len() as int + 1) =~= server);
}

/// The distinct elements of `s`, in order of first occurrence.
pub open spec fn distinct(s: Seq<Seq<char>>) -> Seq<Seq<char>>
    decreases s.len(),
{
    if s.len() == 0 {
        Seq::<Seq<char>>::empty()
    } else if s.drop_last().contains(s.last()) {
        distinct(s.drop_last())
    } else {
        distinct(s.drop_last()).push(s.last())
    }
}

/// Whether `items[0..end]` holds `x`.
fn holds_before(items: &Vec<String>, end: usize, x: &String) -> (res: bool)
    requires
        end <= items@.len(),
    ensures
        res == items.deep_view().take(end as int).contains(x@),
{
    let mut j: usize = 0;
    while j < end
        invariant
            end <= items@.len(),
            j <= end,
            forall|k: int| 0 <= k < j ==> #[trigger] items.deep_view()[k] != x@,
        decreases end - j,
    {
        if items[j] == *x {
            assert(items.deep_view().take(end as int)[j as int] == x@);
            return true;
        }
        j = j + 1;
    }
    assert forall|k: int| 0 <= k < end implies #[trigger] items.deep_view().take(end as int)[k] != x@ by {
        assert(items.deep_view().take(end as int)[k] == items.deep_view()[k]);
    }
    false
}

/// The distinct names among `items`, in order of first occurrence.
pub fn distinct_names(items: &Vec<String>) -> (res: Vec<String>)
    ensures
        res.deep_view() == distinct(items.deep_view()),
{
    let mut res: Vec<String> = Vec::new();
    let mut i: usize = 0;
    while i < items.len()
        invariant
            i <= items@.len(),
            res.deep_view() == distinct(items.deep_view().take(i as int)),
        decreases items.len() - i,
    {
        let ghost t = items.deep_view().take(i + 1);
        assert(t.drop_last() =~= items.deep_view().take(i as int));
        assert(t.last() == items@[i as int]@);
        if !holds_before(items, i, &items[i]) {
            let ghost prev = res.deep_view();
            res.push(items[i].clone());
            assert(res.deep_view() =~= prev.push(items@[i as int]@));
        }
        i = i + 1;
    }
    assert(items.deep_view().take(items@.len() as int) =~= items.deep_view());
    res
}

/// The distinct `@user:server` mentions among `users`, in order of first
/// occurrence, parted into well-formed ones (with their user and server) and
/// malformed ones.
pub open spec fn sorted_mentions(users: Seq<Seq<char>>) -> (
    Seq<(Seq<char>, Seq<char>, Seq<char>)>,
    Seq<Seq<char>>,
)
    decreases users.len(),
{
    if users.len() == 0 {
        (Seq::empty(), Seq::empty())
    } else {
        let (w, m) = sorted_mentions(users.drop_last());
        let u = users.last();
        if users.drop_last().contains(u) {
            (w, m)
        } else {
            match mention_parts(u) {
                Some((id, server)) => (w.push((u, id, server)), m),
                None => (w, m.push(u)),
            }
        }
    }
}

/// Mentions sorted by whether they are well formed.
pub struct SortedMentions {
    /// mention, user and server
    pub wellformed: Vec<(String, String, String)>,
    pub malformed: Vec<String>,
}

/// Sorts the `@user:server` arguments of a command into well-formed and
/// malformed ones, each once.
pub fn sort_mentions(users: &Vec<String>) -> (res: SortedMentions)
    ensures
        (res.wellformed.deep_view(), res.malformed.deep_view()) == sorted_mentions(users.deep_view()),
{
    let mut wellformed: Vec<(String, String, String)> = Vec::new();
    let mut malformed: Vec<String> = Vec::new();
    let mut i: usize = 0;
    while i < users.len()
        invariant
            i <= users@.len(),
            (wellformed.deep_view(), malformed.deep_view()) == sorted_mentions(
                users.deep_view().take(i as int),
            ),
        decreases users.len() - i,
    {
        let ghost t = users.deep_view().take(i + 1);
        assert(t.drop_last() =~= users.deep_view().take(i as int));
        assert(t.last() == users@[i as int]@);
        if !holds_before(users, i, &users[i]) {
            match parse_mention(users[i].as_str()) {
                Some((id, server)) => {
                    let ghost prev = wellformed.deep_view();
                    let ghost entry = (users@[i as int]@, id@, server@);
                    wellformed.push((users[i].clone(), id, server));
                    assert(wellformed.deep_view() =~= prev.push(entry));
                },
                None => {
                    let ghost prev = malformed.deep_view();
                    malformed.push(users[i].clone());
                    assert(malformed.deep_view() =~= prev.push(users@[i as int]@));
                },
            }
        }
        i = i + 1;
    }
    assert(users.deep_view().take(users@.len() as int) =~= users.deep_view());
    SortedMentions { wellformed, malformed }
}

/// Whether a command sender may administer an entity: its owner always may;
/// anyone else only as a member of its admin group, when it has one.
pub open spec fn administers(is_owner: bool, admin_group_membership: Option<bool>) -> bool {
    match admin_group_membership {
        Some(member) => is_owner || member,
        None => is_owner,
    }
}

/// `administers`, computed.
pub fn is_administrator(is_owner: bool, admin_group_membership: Option<bool>) -> (res: bool)
    ensures
        res == administers(is_owner, admin_group_membership),
{
    match admin_group_membership {
        Some(member) => is_owner || member,
        None => is_owner,
    }
}

/// The reply to a name that breaks the naming rules. The form used when
/// creating quotes the format; the one used when modifying does not.
pub open spec fn illegal_name(entity: Entity, creating: bool) -> ReplyView {
    match (entity, creating) {
        (Entity::Group, true) => ReplyView::Html(
            "Illegal group name, group name must:\n* Be in format \"chunks1.chunks2.etc\" with at least 2 chunks\n* Contain only alphabet/numbers or '-', '_', '.'"@,
            "Illegal group name, group name must:\n<ul>\n<li>Be in format <b>chunks1.chunks2.etc</b> with at least 2 chunks</li>\n<li>Contain only alphabet/numbers or '-', '_', '.'</li>\n</ul>"@,
        ),
        (Entity::Context, true) => ReplyView::Html(
            "Illegal context name, context name must:\n* Be in format \"chunks1.chunks2.etc\" with at least 2 chunks\n* Contain only alphabet/numbers or '-', '_', '.'"@,
            "Illegal context name, context name must:\n<ul>\n<li>Be in format <b>chunks1.chunks2.etc</b> with at least 2 chunks</li>\n<li>Contain only alphabet/numbers or '-', '_', '.'</li>\n</ul>"@,
        ),
        (Entity::Group, false) => ReplyView::Html(
            "Illegal group name, group name must:\n* Be in format chunks1.chunks2.etc with at least 2 chunks\n* Contain only alphabet/numbers or '-', '_', '.'"@,
            "Illegal group name, group name must:\n<ul>\n<li>Be in format chunks1.chunks2.etc with at least 2 chunks</li>\n<li>Contain only alphabet/numbers or '-', '_', '.'</li>\n</ul>"@,
        ),
        (Entity::Context, false) => ReplyView::Html(
            "Illegal context name, context name must:\n* Be in format chunks1.chunks2.etc with at least 2 chunks\n* Contain only alphabet/numbers or '-', '_', '.'"@,
            "Illegal context name, context name must:\n<ul>\n<li>Be in format chunks1.chunks2.etc with at least 2 chunks</li>\n<li>Contain only alphabet/numbers or '-', '_', '.'</li>\n</ul>"@,
        ),
    }
}

/// Builds the reply that `illegal_name` describes.
pub fn illegal_name_reply(entity: Entity, creating: bool) -> (res: Reply)
    ensures
        res@ == illegal_name(entity, creating),
{
    match (entity, creating) {
        (Entity::Group, true) => Reply::Html(
            String::from_str("Illegal group name, group name must:\n* Be in format \"chunks1.chunks2.etc\" with at least 2 chunks\n* Contain only alphabet/numbers or '-', '_', '.'"),
            String::from_str("Illegal group name, group name must:\n<ul>\n<li>Be in format <b>chunks1.chunks2.etc</b> with at least 2 chunks</li>\n<li>Contain only alphabet/numbers or '-', '_', '.'</li>\n</ul>"),
        ),
        (Entity::Context, true) => Reply::Html(
            String::from_str("Illegal context name, context name must:\n* Be in format \"chunks1.chunks2.etc\" with at least 2 chunks\n* Contain only alphabet/numbers or '-', '_', '.'"),
            String::from_str("Illegal context name, context name must:\n<ul>\n<li>Be in format <b>chunks1.chunks2.etc</b> with at least 2 chunks</li>\n<li>Contain only alphabet/numbers or '-', '_', '.'</li>\n</ul>"),
        ),
        (Entity::Group, false) => Reply::Html(
            String::from_str("Illegal group name, group name must:\n* Be in format chunks1.chunks2.etc with at least 2 chunks\n* Contain only alphabet/numbers or '-', '_', '.'"),
            String::from_str("Illegal group name, group name must:\n<ul>\n<li>Be in format chunks1.chunks2.etc with at least 2 chunks</li>\n<li>Contain only alphabet/numbers or '-', '_', '.'</li>\n</ul>"),
        ),
        (Entity::Context, false) => Reply::Html(
            String::from_str("Illegal context name, context name must:\n* Be in format chunks1.chunks2.etc with at least 2 chunks\n* Contain only alphabet/numbers or '-', '_', '.'"),
            String::from_str("Illegal context name, context name must:\n<ul>\n<li>Be in format chunks1.chunks2.etc with at least 2 chunks</li>\n<li>Contain only alphabet/numbers or '-', '_', '.'</li>\n</ul>"),
        ),
    }
}

/// The reply to a description longer than `max` bytes.
pub open spec fn description_too_long(max: nat, len: nat) -> ReplyView {
    ReplyView::Html(
        "Description length must be less than "@ + decimal(max) + ", current length: "@ + decimal(len),
        "Description length must be less than <b>"@ + decimal(max) + "</b>, current length: <b>"@
            + decimal(len) + "</b>"@,
    )
}

/// Builds the reply that `description_too_long` describes.
pub fn description_too_long_reply(max: usize, len: usize) -> (res: Reply)
    ensures
        res@ == description_too_long(max as nat, len as nat),
{
    let mut plain = String::from_str("Description length must be less than ");
    push_decimal(&mut plain, max as u128);
    plain.append(", current length: ");
    push_decimal(&mut plain, len as u128);
    let mut html = String::from_str("Description length must be less than <b>");
    push_decimal(&mut html, max as u128);
    html.append("</b>, current length: <b>");
    push_decimal(&mut html, len as u128);
    html.append("</b>");
    Reply::Html(plain, html)
}

/// The reply to a name in the reserved `sys.` namespace.
pub open spec fn reserved_prefix(entity: Entity) -> ReplyView {
    match entity {
        Entity::Group => ReplyView::Html(
            "You are not allowed to make groups with prefix \"sys.\""@,
            "You are not allowed to make groups with prefix <code>sys.</code>"@,
        ),
        Entity::Context => ReplyView::Html(
            "You are not allowed to make contexts with prefix \"sys.\""@,
            "You are not allowed to make contexts with prefix <code>sys.</code>"@,
        ),
    }
}

/// Builds the reply that `reserved_prefix` describes.
pub fn reserved_prefix_reply(entity: Entity) -> (res: Reply)
    ensures
        res@ == reserved_prefix(entity),
{
    match entity {
        Entity::Group => Reply::Html(
            String::from_str("You are not allowed to make groups with prefix \"sys.\""),
            String::from_str("You are not allowed to make groups with prefix <code>sys.</code>"),
        ),
        Entity::Context => Reply::Html(
            String::from_str("You are not allowed to make contexts with prefix \"sys.\""),
            String::from_str("You are not allowed to make contexts with prefix <code>sys.</code>"),
        ),
    }
}

/// Whether a name lies in the reserved `sys.` namespace.
pub open spec fn reserved(name: Seq<char>) -> bool {
    seq!['s', 'y', 's', '.'].is_prefix_of(name)
}

/// Whether a name lies in the reserved `sys.` namespace.
pub fn is_reserved(name: &str) -> (res: bool)
    ensures
        res == reserved(name@),
{
    let c = chars_of(name);
    let p: Vec<char> = vec!['s', 'y', 's', '.'];
    assert(p@ =~= seq!['s', 'y', 's', '.']);
    assert(c@.skip(0) =~= c@);
    occurs_at(&c, 0, &p)
}

/// The reply to an owner argument that is not an `@user:server` mention.
pub open spec fn malformed_owner() -> ReplyView {
    ReplyView::Plain("Owner argument malformed: it should be an @mention"@)
}

/// Builds the reply that `malformed_owner` describes.
pub fn malformed_owner_reply() -> (res: Reply)
    ensures
        res@ == malformed_owner(),
{
    Reply::Plain(String::from_str("Owner argument malformed: it should be an @mention"))
}

/// The reply to a new owner the bot has never met. `word` names what the
/// message says the owner is of.
pub open spec fn unknown_owner(word: Entity, owner: Seq<char>) -> ReplyView {
    match word {
        Entity::Group => ReplyView::Html(
            "Not created: new group owner "@ + owner + " has never joined a room with Merlin"@,
            "Not created: new group owner <b>"@ + owner + "</b> has never joined a room with Merlin"@,
        ),
        Entity::Context => ReplyView::Html(
            "Not created: new context owner "@ + owner + " has never joined a room with Merlin"@,
            "Not created: new context owner <b>"@ + owner + "</b> has never joined a room with Merlin"@,
        ),
    }
}

/// Builds the reply that `unknown_owner` describes.
pub fn unknown_owner_reply(word: Entity, owner: &str) -> (res: Reply)
    ensures
        res@ == unknown_owner(word, owner@),
{
    match word {
        Entity::Group => {
            let mut plain = String::from_str("Not created: new group owner ");
            plain.append(owner);
            plain.append(" has never joined a room with Merlin");
            let mut html = String::from_str("Not created: new group owner <b>");
            html.append(owner);
            html.append("</b> has never joined a room with Merlin");
            Reply::Html(plain, html)
        },
        Entity::Context => {
            let mut plain = String::from_str("Not created: new context owner ");
            plain.append(owner);
            plain.append(" has never joined a room with Merlin");
            let mut html = String::from_str("Not created: new context owner <b>");
            html.append(owner);
            html.append("</b> has never joined a room with Merlin");
            Reply::Html(plain, html)
        },
    }
}

/// The reply to a name already taken by `existing`.
pub open spec fn name_taken(entity: Entity, creating: bool, existing: Seq<char>) -> ReplyView {
    let verb = if creating {
        "Not created"@
    } else {
        "Not modified"@
    };
    let noun = match entity {
        Entity::Group => "group"@,
        Entity::Context => "context"@,
    };
    ReplyView::Html(
        verb + ", there is already another "@ + noun + " called \""@ + existing + "\""@,
        verb + ", there is already another "@ + noun + " called <code>"@ + existing + "</code>"@,
    )
}

fn noun(entity: Entity) -> (res: &'static str)
    ensures
        res@ == match entity {
            Entity::Group => "group"@,
            Entity::Context => "context"@,
        },
{
    match entity {
        Entity::Group => "group",
        Entity::Context => "context",
    }
}

/// Builds the reply that `name_taken` describes.
pub fn name_taken_reply(entity: Entity, creating: bool, existing: &str) -> (res: Reply)
    ensures
        res@ == name_taken(entity, creating, existing@),
{
    let verb = if creating {
        "Not created"
    } else {
        "Not modified"
    };
    let n = noun(entity);
    let mut plain = String::from_str(verb);
    plain.append(", there is already another ");
    plain.append(n);
    plain.append(" called \"");
    plain.append(existing);
    plain.append("\"");
    let mut html = String::from_str(verb);
    html.append(", there is already another ");
    html.append(n);
    html.append(" called <code>");
    html.append(existing);
    html.append("</code>");
    Reply::Html(plain, html)
}

/// The reply to an admin group that does not exist.
pub open spec fn unknown_admin_group(name: Seq<char>) -> ReplyView {
    ReplyView::Html(
        "Could not find group with name "@ + name,
        "Could not find group with name <i>"@ + name + "</i>"@,
    )
}

/// Builds the reply that `unknown_admin_group` describes.
pub fn unknown_admin_group_reply(name: &str) -> (res: Reply)
    ensures
        res@ == unknown_admin_group(name@),
{
    let mut plain = String::from_str("Could not find group with name ");
    plain.append(name);
    let mut html = String::from_str("Could not find group with name <i>");
    html.append(name);
    html.append("</i>");
    Reply::Html(plain, html)
}

/// Why a new group or context is refused before anything is looked up: an
/// illegal name, an overlong description, or a reserved name, checked in this
/// order. `name_valid` is the verdict of the naming rules on the name.
pub open spec fn creation_rejection(
    entity: Entity,
    name: Seq<char>,
    name_valid: bool,
    desc: Option<Seq<char>>,
    desc_max_len: nat,
) -> Option<ReplyView> {
    if !name_valid {
        Some(illegal_name(entity, true))
    } else if desc is Some && desc_max_len < width(desc->0) {
        Some(description_too_long(desc_max_len, width(desc->0) as nat))
    } else if reserved(name) {
        Some(reserved_prefix(entity))
    } else {
        None
    }
}

/// The view of an optional reply.
pub open spec fn reply_views(r: Option<Reply>) -> Option<ReplyView> {
    match r {
        Some(x) => Some(x@),
        None => None,
    }
}

/// The first check a new group or context fails, if any.
pub fn check_creation(
    entity: Entity,
    name: &str,
    name_valid: bool,
    desc: &Option<String>,
    desc_max_len: usize,
) -> (res: Option<Reply>)
    ensures
        reply_views(res) == creation_rejection(entity, name@, name_valid, desc.deep_view(), desc_max_len as nat),
{
    if !name_valid {
        return Some(illegal_name_reply(entity, true));
    }
    match desc {
        Some(d) => {
            let len = d.as_str().len();
            if desc_max_len < len {
                return Some(description_too_long_reply(desc_max_len, len));
            }
        },
        None => {},
    }
    if is_reserved(name) {
        return Some(reserved_prefix_reply(entity));
    }
    None
}

/// The changes a modification command asks for.
pub struct Modification {
    pub new_name: Option<String>,
    pub new_desc: Option<String>,
    pub new_owner: Option<String>,
    pub new_admin_group: Option<String>,
    pub remove_admin: bool,
    pub add_users: Vec<String>,
    pub remove_users: Vec<String>,
}

pub struct ModificationView {
    pub new_name: Option<Seq<char>>,
    pub new_desc: Option<Seq<char>>,
    pub new_owner: Option<Seq<char>>,
    pub new_admin_group: Option<Seq<char>>,
    pub remove_admin: bool,
    pub add_users: Seq<Seq<char>>,
    pub remove_users: Seq<Seq<char>>,
}

impl View for Modification {
    type V = ModificationView;

    open spec fn view(&self) -> ModificationView {
        ModificationView {
            new_name: self.new_name.deep_view(),
            new_desc: self.new_desc.deep_view(),
            new_owner: self.new_owner.deep_view(),
            new_admin_group: self.new_admin_group.deep_view(),
            remove_admin: self.remove_admin,
            add_users: self.add_users.deep_view(),
            remove_users: self.remove_users.deep_view(),
        }
    }
}

/// Whether a modification asks for nothing.
pub open spec fn asks_nothing(m: ModificationView) -> bool {
    &&& m.new_name is None
    &&& m.new_desc is None
    &&& m.new_owner is None
    &&& m.new_admin_group is None
    &&& !m.remove_admin
    &&& m.add_users.len() == 0
    &&& m.remove_users.len() == 0
}

impl Modification {
    /// Whether the modification asks for no change at all.
    pub fn is_empty(&self) -> (res: bool)
        ensures
            res == asks_nothing(self@),
    {
        self.new_name.is_none() && self.new_desc.is_none() && self.new_owner.is_none()
            && self.new_admin_group.is_none() && !self.remove_admin && self.add_users.len() == 0
            && self.remove_users.len() == 0
    }
}

/// The reply to a modification of something that does not exist.
pub open spec fn not_found_for_change(entity: Entity, name: Seq<char>) -> ReplyView {
    let n = match entity {
        Entity::Group => "group"@,
        Entity::Context => "context"@,
    };
    ReplyView::Html(
        "I could not find a "@ + n + " called \""@ + name + "\""@,
        "I could not find a "@ + n + " called <code>"@ + name + "</code>"@,
    )
}

/// Builds the reply that `not_found_for_change` describes.
pub fn not_found_for_change_reply(entity: Entity, name: &str) -> (res: Reply)
    ensures
        res@ == not_found_for_change(entity, name@),
{
    let n = noun(entity);
    let mut plain = String::from_str("I could not find a ");
    plain.append(n);
    plain.append(" called \"");
    plain.append(name);
    plain.append("\"");
    let mut html = String::from_str("I could not find a ");
    html.append(n);
    html.append(" called <code>");
    html.append(name);
    html.append("</code>");
    Reply::Html(plain, html)
}

/// The field a sender who administers but does not own an entity asked to
/// change, although only the owner may: admin group, name or owner, in this
/// order.
pub open spec fn owner_only_field(m: ModificationView) -> Option<Seq<char>> {
    if m.new_admin_group is Some {
        Some("admin group"@)
    } else if m.new_name is Some {
        Some("name"@)
    } else if m.new_owner is Some {
        Some("owner"@)
    } else {
        None
    }
}

/// Why a modification is refused once the entity is found: the sender does not
/// administer it, changes what only its owner may, gives an illegal or reserved
/// new name, an overlong description, both a new admin group and its removal,
/// or a malformed owner, checked in this order. `name_valid` is the verdict of
/// the naming rules on the entity's current name, which is what the command
/// checks.
pub open spec fn modification_rejection(
    entity: Entity,
    m: ModificationView,
    current_name: Seq<char>,
    name_valid: bool,
    desc_max_len: nat,
    is_owner: bool,
    is_admin: bool,
) -> Option<ReplyView> {
    let n = match entity {
        Entity::Group => "group"@,
        Entity::Context => "context"@,
    };
    if !is_admin {
        Some(
            ReplyView::Html(
                "No permission: you are not a "@ + n + " admin of \""@ + current_name + "\""@,
                "No permission: you are not a "@ + n + " admin of <code>"@ + current_name
                    + "</code>"@,
            ),
        )
    } else if !is_owner && owner_only_field(m) is Some {
        let reason = owner_only_field(m)->0;
        Some(
            ReplyView::Html(
                "Cannot change "@ + reason + " of \""@ + current_name + "\"\" because you are not the "@
                    + n + " owner"@,
                "Cannot change "@ + reason + " of <code>"@ + current_name
                    + "</code> because you are not the "@ + n + " owner"@,
            ),
        )
    } else if m.new_name is Some && !name_valid {
        Some(illegal_name(entity, false))
    } else if m.new_name is Some && reserved(m.new_name->0) {
        Some(reserved_prefix(entity))
    } else if m.new_desc is Some && desc_max_len < width(m.new_desc->0) {
        Some(description_too_long(desc_max_len, width(m.new_desc->0) as nat))
    } else if m.remove_admin && m.new_admin_group is Some {
        Some(
            ReplyView::Html(
                "Not changed: remove_admin and new_admin_group is both set"@,
                "Not changed: <i>remove_admin</i> and <i>new_admin_group</i> is both set"@,
            ),
        )
    } else if m.new_owner is Some && mention_parts(m.new_owner->0) is None {
        Some(malformed_owner())
    } else {
        None
    }
}

/// Only the owner may rename a group or context, hand it to another owner or
/// change its admin group. A sender who does not administer it is refused any
/// change; one who administers it without owning it is refused a change of
/// the name, the owner or the admin group, whatever else the request holds,
/// with a reply that names the admin group first, then the name, then the
/// owner. Whatever is accepted comes from an administrator, and from the owner
/// when it renames, hands over or changes the admin group.
pub proof fn law_owner_only_changes(
    entity: Entity,
    m: ModificationView,
    current_name: Seq<char>,
    name_valid: bool,
    desc_max_len: nat,
    is_owner: bool,
    is_admin: bool,
)
    ensures
        !is_admin ==> modification_rejection(entity, m, current_name, name_valid, desc_max_len, is_owner, is_admin)
            is Some,
        is_admin && !is_owner && (m.new_name is Some || m.new_owner is Some || m.new_admin_group is Some)
            ==> modification_rejection(entity, m, current_name, name_valid, desc_max_len, is_owner, is_admin)
            == Some(
            ReplyView::Html(
                "Cannot change "@ + (if m.new_admin_group is Some {
                    "admin group"@
                } else if m.new_name is Some {
                    "name"@
                } else {
                    "owner"@
                }) + " of \""@ + current_name + "\"\" because you are not the "@ + (match entity {
                    Entity::Group => "group"@,
                    Entity::Context => "context"@,
                }) + " owner"@,
                "Cannot change "@ + (if m.new_admin_group is Some {
                    "admin group"@
                } else if m.new_name is Some {
                    "name"@
                } else {
                    "owner"@
                }) + " of <code>"@ + current_name + "</code> because you are not the "@ + (match entity {
                    Entity::Group => "group"@,
                    Entity::Context => "context"@,
                }) + " owner"@,
            ),
        ),
        modification_rejection(entity, m, current_name, name_valid, desc_max_len, is_owner, is_admin) is None
            ==> is_admin && (is_owner || (m.new_name is None && m.new_owner is None && m.new_admin_group is None)),
{
}

/// A modification is accepted exactly when every check passes: the sender
/// administers the group or context, owns it if the name, the owner or the
/// admin group is to change, a new name follows the naming rules and lies
/// outside `sys.`, a new description is no longer than allowed, the admin
/// group is not both replaced and removed, and a new owner is a mention.
pub proof fn law_modification_accepted_iff_checks_pass(
    entity: Entity,
    m: ModificationView,
    current_name: Seq<char>,
    name_valid: bool,
    desc_max_len: nat,
    is_owner: bool,
    is_admin: bool,
)
    ensures
        modification_rejection(entity, m, current_name, name_valid, desc_max_len, is_owner, is_admin) is None
            <==> {
            &&& is_admin
            &&& is_owner || (m.new_name is None && m.new_owner is None && m.new_admin_group is None)
            &&& m.new_name is Some ==> name_valid && !seq!['s', 'y', 's', '.'].is_prefix_of(m.new_name->0)
            &&& m.new_desc is Some ==> width(m.new_desc->0) <= desc_max_len
            &&& !(m.remove_admin && m.new_admin_group is Some)
            &&& m.new_owner is Some ==> mention_parts(m.new_owner->0) is Some
        },
{
}

/// The first check a modification fails once the entity is found, if any.
pub fn check_modification(
    entity: Entity,
    m: &Modification,
    current_name: &str,
    name_valid: bool,
    desc_max_len: usize,
    is_owner: bool,
    is_admin: bool,
) -> (res: Option<Reply>)
    ensures
        reply_views(res) == modification_rejection(
            entity,
            m@,
            current_name@,
            name_valid,
            desc_max_len as nat,
            is_owner,
            is_admin,
        ),
{
    let n = noun(entity);
    if !is_admin {
        let mut plain = String::from_str("No permission: you are not a ");
        plain.append(n);
        plain.append(" admin of \"");
        plain.append(current_name);
        plain.append("\"");
        let mut html = String::from_str("No permission: you are not a ");
        html.append(n);
        html.append(" admin of <code>");
        html.append(current_name);
        html.append("</code>");
        return Some(Reply::Html(plain, html));
    }
    if !is_owner {
        let reason: Option<&str> = if m.new_admin_group.is_some() {
            Some("admin group")
        } else if m.new_name.is_some() {
            Some("name")
        } else if m.new_owner.is_some() {
            Some("owner")
        } else {
            None
        };
        match reason {
            Some(r) => {
                let mut plain = String::from_str("Cannot change ");
                plain.append(r);
                plain.append(" of \"");
                plain.append(current_name);
                plain.append("\"\" because you are not the ");
                plain.append(n);
                plain.append(" owner");
                let mut html = String::from_str("Cannot change ");
                html.append(r);
                html.append(" of <code>");
                html.append(current_name);
                html.append("</code> because you are not the ");
                html.append(n);
                html.append(" owner");
                return Some(Reply::Html(plain, html));
            },
            None => {},
        }
    }
    match &m.new_name {
        Some(name) => {
            if !name_valid {
                return Some(illegal_name_reply(entity, false));
            }
            if is_reserved(name.as_str()) {
                return Some(reserved_prefix_reply(entity));
            }
        },
        None => {},
    }
    match &m.new_desc {
        Some(d) => {
            let len = d.as_str().len();
            if desc_max_len < len {
                return Some(description_too_long_reply(desc_max_len, len));
            }
        },
        None => {},
    }
    if m.remove_admin && m.new_admin_group.is_some() {
        return Some(
            Reply::Html(
                String::from_str("Not changed: remove_admin and new_admin_group is both set"),
                String::from_str(
                    "Not changed: <i>remove_admin</i> and <i>new_admin_group</i> is both set",
                ),
            ),
        );
    }
    match &m.new_owner {
        Some(o) => {
            if parse_mention(o.as_str()).is_none() {
                return Some(malformed_owner_reply());
            }
        },
        None => {},
    }
    None
}

/// Whether a new name must be checked for clashes: it differs from the
/// current one other than in the case of ASCII letters.
pub open spec fn renames(new_name: Option<Seq<char>>, current: Seq<char>) -> bool {
    new_name is Some && !eq_ignore_ascii_case(new_name->0, current)
}

/// Whether a new name must be checked for clashes with existing names.
pub fn needs_name_check(new_name: &Option<String>, current: &str) -> (res: bool)
    ensures
        res == renames(new_name.deep_view(), current@),
{
    match new_name {
        Some(n) => !same_ignoring_ascii_case(n.as_str(), current),
        None => false,
    }
}

} // verus!

verus! {

/// How a user is shown in summaries: `user:server`.
pub open spec fn labels(users: Seq<(Seq<char>, Seq<char>)>) -> Seq<Seq<char>> {
    users.map_values(|u: (Seq<char>, Seq<char>)| u.0 + ":"@ + u.1)
}

/// The labels of `users`.
pub fn user_labels(users: &Vec<(String, String)>) -> (res: Vec<String>)
    ensures
        res.deep_view() == labels(users.deep_view()),
{
    let mut res: Vec<String> = Vec::new();
    let mut i: usize = 0;
    while i < users.len()
        invariant
            i <= users@.len(),
            res.deep_view() == labels(users.deep_view()).take(i as int),
        decreases users.len() - i,
    {
        let mut l = users[i].0.clone();
        l.append(":");
        l.append(users[i].1.as_str());
        let ghost prev = res.deep_view();
        let ghost lv = l@;
        assert(users.deep_view()[i as int] == (users@[i as int].0@, users@[i as int].1@));
        res.push(l);
        assert(res.deep_view() =~= prev.push(lv));
        assert(labels(users.deep_view()).take(i + 1) =~= labels(users.deep_view()).take(i as int).push(lv));
        i = i + 1;
    }
    assert(labels(users.deep_view()).take(users@.len() as int) =~= labels(users.deep_view()));
    res
}

/// Mentions without their leading `@`.
pub open spec fn unsigiled(mentions: Seq<Seq<char>>) -> Seq<Seq<char>> {
    mentions.map_values(|m: Seq<char>| m.drop_first())
}

/// Whether every text is non-empty.
pub open spec fn all_nonempty(items: Seq<Seq<char>>) -> bool {
    forall|i: int| 0 <= i < items.len() ==> (#[trigger] items[i]).len() > 0
}

/// The mentions without their leading `@`.
pub fn strip_sigils(mentions: &Vec<String>) -> (res: Vec<String>)
    requires
        all_nonempty(mentions.deep_view()),
    ensures
        res.deep_view() == unsigiled(mentions.deep_view()),
{
    let mut res: Vec<String> = Vec::new();
    let mut i: usize = 0;
    while i < mentions.len()
        invariant
            i <= mentions@.len(),
            all_nonempty(mentions.deep_view()),
            res.deep_view() == unsigiled(mentions.deep_view()).take(i as int),
        decreases mentions.len() - i,
    {
        assert(mentions.deep_view()[i as int] == mentions@[i as int]@);
        let s = crate::text::without_first(mentions[i].as_str());
        let ghost prev = res.deep_view();
        let ghost sv = s@;
        res.push(s);
        assert(res.deep_view() =~= prev.push(sv));
        assert(unsigiled(mentions.deep_view()).take(i + 1) =~= unsigiled(mentions.deep_view()).take(i as int).push(sv));
        i = i + 1;
    }
    assert(unsigiled(mentions.deep_view()).take(mentions@.len() as int) =~= unsigiled(mentions.deep_view()));
    res
}

} // verus!
