//! The built-in commands and their registration in the command index.
use vstd::prelude::*;

use crate::cmd::{lookup, registered, resolve, CmdIndex};
use crate::contexts::{
    contextadd_permissions, contextdel_permissions, contextinfo_permissions, contexts_permissions,
    CmdContextAdd, CmdContextDel, CmdContextInfo, CmdContextSet, CmdContextUnset, CmdContexts,
};
use crate::groups::{
    groupadd_permissions, groupdel_permissions, groupinfo_permissions, groupmod_permissions,
    groups_permissions, CmdGroupAdd, CmdGroupDel, CmdGroupInfo, CmdGroupMod, CmdGroups,
};
use crate::info::{ping_permissions, uptime_permissions, CmdPing, CmdUptime};
use crate::perms::{perms_permissions, permset_permissions, CmdPermSet, CmdPerms};

verus! {

/// A built-in command.
pub enum CoreCmd {
    Ping(CmdPing),
    Uptime(CmdUptime),
    GroupAdd(CmdGroupAdd),
    GroupMod(CmdGroupMod),
    Groups(CmdGroups),
    GroupDel(CmdGroupDel),
    GroupInfo(CmdGroupInfo),
    ContextAdd(CmdContextAdd),
    ContextDel(CmdContextDel),
    ContextSet(CmdContextSet),
    ContextUnset(CmdContextUnset),
    ContextInfo(CmdContextInfo),
    Contexts(CmdContexts),
    PermSet(CmdPermSet),
    Perms(CmdPerms),
}

/// The name a built-in command is invoked with.
pub open spec fn command_name(c: CoreCmd) -> Seq<char> {
    match c {
        CoreCmd::Ping(_) => "ping"@,
        CoreCmd::Uptime(_) => "uptime"@,
        CoreCmd::GroupAdd(_) => "groupadd"@,
        CoreCmd::GroupMod(_) => "groupmod"@,
        CoreCmd::Groups(_) => "groups"@,
        CoreCmd::GroupDel(_) => "groupdel"@,
        CoreCmd::GroupInfo(_) => "groupinfo"@,
        CoreCmd::ContextAdd(_) => "contextadd"@,
        CoreCmd::ContextDel(_) => "contextdel"@,
        CoreCmd::ContextSet(_) => "contextset"@,
        CoreCmd::ContextUnset(_) => "contextunset"@,
        CoreCmd::ContextInfo(_) => "contextinfo"@,
        CoreCmd::Contexts(_) => "contexts"@,
        CoreCmd::PermSet(_) => "permset"@,
        CoreCmd::Perms(_) => "perms"@,
    }
}

/// Names under which entries are registered.
pub open spec fn names(entries: Seq<(Seq<char>, CoreCmd)>) -> Seq<Seq<char>> {
    entries.map_values(|e: (Seq<char>, CoreCmd)| e.0)
}

/// The qualifiers whose rules decide whether a built-in command may run, most
/// specific first.
pub open spec fn command_qualifiers(c: CoreCmd) -> Seq<Seq<char>> {
    match c {
        CoreCmd::Ping(_) => ping_permissions(),
        CoreCmd::Uptime(_) => uptime_permissions(),
        CoreCmd::GroupAdd(_) => groupadd_permissions(),
        CoreCmd::GroupMod(_) => groupmod_permissions(),
        CoreCmd::Groups(_) => groups_permissions(),
        CoreCmd::GroupDel(_) => groupdel_permissions(),
        CoreCmd::GroupInfo(_) => groupinfo_permissions(),
        CoreCmd::ContextAdd(_) => contextadd_permissions(),
        CoreCmd::ContextDel(_) => contextdel_permissions(),
        CoreCmd::ContextSet(_) => Seq::<Seq<char>>::empty(),
        CoreCmd::ContextUnset(_) => Seq::<Seq<char>>::empty(),
        CoreCmd::ContextInfo(_) => contextinfo_permissions(),
        CoreCmd::Contexts(_) => contexts_permissions(),
        CoreCmd::PermSet(_) => permset_permissions(),
        CoreCmd::Perms(_) => perms_permissions(),
    }
}

/// Whether a built-in command runs when no rule applies to any of its
/// qualifiers: every one of them does.
pub open spec fn command_default(c: CoreCmd) -> bool {
    true
}

/// The qualifiers of a built-in command, most specific first.
pub fn qualifiers_of(c: &CoreCmd) -> (res: &'static [&'static str])
    ensures
        res@.map_values(|p: &str| p@) == command_qualifiers(*c),
{
    match c {
        CoreCmd::Ping(x) => x.permissions(),
        CoreCmd::Uptime(x) => x.permissions(),
        CoreCmd::GroupAdd(x) => x.permissions(),
        CoreCmd::GroupMod(x) => x.permissions(),
        CoreCmd::Groups(x) => x.permissions(),
        CoreCmd::GroupDel(x) => x.permissions(),
        CoreCmd::GroupInfo(x) => x.permissions(),
        CoreCmd::ContextAdd(x) => x.permissions(),
        CoreCmd::ContextDel(x) => x.permissions(),
        CoreCmd::ContextSet(x) => {
            let res = x.permissions();
            assert(res@.map_values(|p: &str| p@) =~= Seq::<Seq<char>>::empty());
            res
        },
        CoreCmd::ContextUnset(x) => {
            let res = x.permissions();
            assert(res@.map_values(|p: &str| p@) =~= Seq::<Seq<char>>::empty());
            res
        },
        CoreCmd::ContextInfo(x) => x.permissions(),
        CoreCmd::Contexts(x) => x.permissions(),
        CoreCmd::PermSet(x) => x.permissions(),
        CoreCmd::Perms(x) => x.permissions(),
    }
}

/// Whether a built-in command runs when no rule applies to it.
pub fn default_of(c: &CoreCmd) -> (res: bool)
    ensures
        res == command_default(*c),
{
    match c {
        CoreCmd::Ping(x) => x.default_permission(),
        CoreCmd::Uptime(x) => x.default_permission(),
        CoreCmd::GroupAdd(x) => x.default_permission(),
        CoreCmd::GroupMod(x) => x.default_permission(),
        CoreCmd::Groups(x) => x.default_permission(),
        CoreCmd::GroupDel(x) => x.default_permission(),
        CoreCmd::GroupInfo(x) => x.default_permission(),
        CoreCmd::ContextAdd(x) => x.default_permission(),
        CoreCmd::ContextDel(x) => x.default_permission(),
        CoreCmd::ContextSet(x) => x.default_permission(),
        CoreCmd::ContextUnset(x) => x.default_permission(),
        CoreCmd::ContextInfo(x) => x.default_permission(),
        CoreCmd::Contexts(x) => x.default_permission(),
        CoreCmd::PermSet(x) => x.default_permission(),
        CoreCmd::Perms(x) => x.default_permission(),
    }
}

/// `broader` is `q` with its last dot-separated segment cut off.
pub open spec fn cuts_last_segment(q: Seq<char>, broader: Seq<char>) -> bool {
    &&& broader.len() + 1 < q.len()
    &&& broader.is_prefix_of(q)
    &&& q[broader.len() as int] == '.'
    &&& !q.skip(broader.len() as int + 1).contains('.')
}

/// Qualifiers from a most specific one down: each is the one before with its
/// last segment cut off, down to a single segment, and then "*".
pub open spec fn qualifier_chain(qs: Seq<Seq<char>>) -> bool {
    &&& qs.len() >= 2
    &&& qs.last() == "*"@
    &&& qs[qs.len() - 2].len() > 0
    &&& !qs[qs.len() - 2].contains('.')
    &&& forall|i: int| 0 <= i < qs.len() - 2 ==> cuts_last_segment(#[trigger] qs[i], qs[i + 1])
}

proof fn lemma_chain_ping()
    ensures
        qualifier_chain(seq!["core.info.ping"@, "core.info"@, "core"@, "*"@]),
{
    reveal_strlit("core.info.ping");
    reveal_strlit("core.info");
    reveal_strlit("core");
    reveal_strlit("*");
    assert(cuts_last_segment("core.info.ping"@, "core.info"@)) by {
        assert("core.info.ping"@.subrange(0, 9) =~= "core.info"@);
    }
    assert(cuts_last_segment("core.info"@, "core"@)) by {
        assert("core.info"@.subrange(0, 4) =~= "core"@);
    }
    let qs = seq!["core.info.ping"@, "core.info"@, "core"@, "*"@];
    assert(qs.last() == "*"@);
    assert(forall|i: int| 0 <= i < qs.len() - 2 ==> cuts_last_segment(#[trigger] qs[i], qs[i + 1]));
}

proof fn lemma_chain_uptime()
    ensures
        qualifier_chain(seq!["core.info.uptime"@, "core.info"@, "core"@, "*"@]),
{
    reveal_strlit("core.info.uptime");
    reveal_strlit("core.info");
    reveal_strlit("core");
    reveal_strlit("*");
    assert(cuts_last_segment("core.info.uptime"@, "core.info"@)) by {
        assert("core.info.uptime"@.subrange(0, 9) =~= "core.info"@);
    }
    assert(cuts_last_segment("core.info"@, "core"@)) by {
        assert("core.info"@.subrange(0, 4) =~= "core"@);
    }
    let qs = seq!["core.info.uptime"@, "core.info"@, "core"@, "*"@];
    assert(qs.last() == "*"@);
    assert(forall|i: int| 0 <= i < qs.len() - 2 ==> cuts_last_segment(#[trigger] qs[i], qs[i + 1]));
}

proof fn lemma_chain_groupadd()
    ensures
        qualifier_chain(seq!["core.org.groups.add"@, "core.org.groups"@, "core.org"@, "core"@, "*"@]),
{
    reveal_strlit("core.org.groups.add");
    reveal_strlit("core.org.groups");
    reveal_strlit("core.org");
    reveal_strlit("core");
    reveal_strlit("*");
    assert(cuts_last_segment("core.org.groups.add"@, "core.org.groups"@)) by {
        assert("core.org.groups.add"@.subrange(0, 15) =~= "core.org.groups"@);
    }
    assert(cuts_last_segment("core.org.groups"@, "core.org"@)) by {
        assert("core.org.groups"@.subrange(0, 8) =~= "core.org"@);
    }
    assert(cuts_last_segment("core.org"@, "core"@)) by {
        assert("core.org"@.subrange(0, 4) =~= "core"@);
    }
    let qs = seq!["core.org.groups.add"@, "core.org.groups"@, "core.org"@, "core"@, "*"@];
    assert(qs.last() == "*"@);
    assert(forall|i: int| 0 <= i < qs.len() - 2 ==> cuts_last_segment(#[trigger] qs[i], qs[i + 1]));
}

proof fn lemma_chain_groupmod()
    ensures
        qualifier_chain(seq!["core.org.groups.mod"@, "core.org.groups"@, "core.org"@, "core"@, "*"@]),
{
    reveal_strlit("core.org.groups.mod");
    reveal_strlit("core.org.groups");
    reveal_strlit("core.org");
    reveal_strlit("core");
    reveal_strlit("*");
    assert(cuts_last_segment("core.org.groups.mod"@, "core.org.groups"@)) by {
        assert("core.org.groups.mod"@.subrange(0, 15) =~= "core.org.groups"@);
    }
    assert(cuts_last_segment("core.org.groups"@, "core.org"@)) by {
        assert("core.org.groups"@.subrange(0, 8) =~= "core.org"@);
    }
    assert(cuts_last_segment("core.org"@, "core"@)) by {
        assert("core.org"@.subrange(0, 4) =~= "core"@);
    }
    let qs = seq!["core.org.groups.mod"@, "core.org.groups"@, "core.org"@, "core"@, "*"@];
    assert(qs.last() == "*"@);
    assert(forall|i: int| 0 <= i < qs.len() - 2 ==> cuts_last_segment(#[trigger] qs[i], qs[i + 1]));
}

proof fn lemma_chain_groupinfo()
    ensures
        qualifier_chain(seq!["core.org.groups.info"@, "core.org.groups"@, "core.org"@, "core"@, "*"@]),
{
    reveal_strlit("core.org.groups.info");
    reveal_strlit("core.org.groups");
    reveal_strlit("core.org");
    reveal_strlit("core");
    reveal_strlit("*");
    assert(cuts_last_segment("core.org.groups.info"@, "core.org.groups"@)) by {
        assert("core.org.groups.info"@.subrange(0, 15) =~= "core.org.groups"@);
    }
    assert(cuts_last_segment("core.org.groups"@, "core.org"@)) by {
        assert("core.org.groups"@.subrange(0, 8) =~= "core.org"@);
    }
    assert(cuts_last_segment("core.org"@, "core"@)) by {
        assert("core.org"@.subrange(0, 4) =~= "core"@);
    }
    let qs = seq!["core.org.groups.info"@, "core.org.groups"@, "core.org"@, "core"@, "*"@];
    assert(qs.last() == "*"@);
    assert(forall|i: int| 0 <= i < qs.len() - 2 ==> cuts_last_segment(#[trigger] qs[i], qs[i + 1]));
}

proof fn lemma_chain_groups()
    ensures
        qualifier_chain(seq!["core.org.groups.list"@, "core.org.groups"@, "core.org"@, "core"@, "*"@]),
{
    reveal_strlit("core.org.groups.list");
    reveal_strlit("core.org.groups");
    reveal_strlit("core.org");
    reveal_strlit("core");
    reveal_strlit("*");
    assert(cuts_last_segment("core.org.groups.list"@, "core.org.groups"@)) by {
        assert("core.org.groups.list"@.subrange(0, 15) =~= "core.org.groups"@);
    }
    assert(cuts_last_segment("core.org.groups"@, "core.org"@)) by {
        assert("core.org.groups"@.subrange(0, 8) =~= "core.org"@);
    }
    assert(cuts_last_segment("core.org"@, "core"@)) by {
        assert("core.org"@.subrange(0, 4) =~= "core"@);
    }
    let qs = seq!["core.org.groups.list"@, "core.org.groups"@, "core.org"@, "core"@, "*"@];
    assert(qs.last() == "*"@);
    assert(forall|i: int| 0 <= i < qs.len() - 2 ==> cuts_last_segment(#[trigger] qs[i], qs[i + 1]));
}

proof fn lemma_chain_contextadd()
    ensures
        qualifier_chain(seq!["core.org.contexts.add"@, "core.org.contexts"@, "core.org"@, "core"@, "*"@]),
{
    reveal_strlit("core.org.contexts.add");
    reveal_strlit("core.org.contexts");
    reveal_strlit("core.org");
    reveal_strlit("core");
    reveal_strlit("*");
    assert(cuts_last_segment("core.org.contexts.add"@, "core.org.contexts"@)) by {
        assert("core.org.contexts.add"@.subrange(0, 17) =~= "core.org.contexts"@);
    }
    assert(cuts_last_segment("core.org.contexts"@, "core.org"@)) by {
        assert("core.org.contexts"@.subrange(0, 8) =~= "core.org"@);
    }
    assert(cuts_last_segment("core.org"@, "core"@)) by {
        assert("core.org"@.subrange(0, 4) =~= "core"@);
    }
    let qs = seq!["core.org.contexts.add"@, "core.org.contexts"@, "core.org"@, "core"@, "*"@];
    assert(qs.last() == "*"@);
    assert(forall|i: int| 0 <= i < qs.len() - 2 ==> cuts_last_segment(#[trigger] qs[i], qs[i + 1]));
}

proof fn lemma_chain_contextdel()
    ensures
        qualifier_chain(seq!["core.org.contexts.delete"@, "core.org.contexts"@, "core.org"@, "core"@, "*"@]),
{
    reveal_strlit("core.org.contexts.delete");
    reveal_strlit("core.org.contexts");
    reveal_strlit("core.org");
    reveal_strlit("core");
    reveal_strlit("*");
    assert(cuts_last_segment("core.org.contexts.delete"@, "core.org.contexts"@)) by {
        assert("core.org.contexts.delete"@.subrange(0, 17) =~= "core.org.contexts"@);
    }
    assert(cuts_last_segment("core.org.contexts"@, "core.org"@)) by {
        assert("core.org.contexts"@.subrange(0, 8) =~= "core.org"@);
    }
    assert(cuts_last_segment("core.org"@, "core"@)) by {
        assert("core.org"@.subrange(0, 4) =~= "core"@);
    }
    let qs = seq!["core.org.contexts.delete"@, "core.org.contexts"@, "core.org"@, "core"@, "*"@];
    assert(qs.last() == "*"@);
    assert(forall|i: int| 0 <= i < qs.len() - 2 ==> cuts_last_segment(#[trigger] qs[i], qs[i + 1]));
}

proof fn lemma_chain_contextinfo()
    ensures
        qualifier_chain(seq!["core.org.contexts.info"@, "core.org.contexts"@, "core.org"@, "core"@, "*"@]),
{
    reveal_strlit("core.org.contexts.info");
    reveal_strlit("core.org.contexts");
    reveal_strlit("core.org");
    reveal_strlit("core");
    reveal_strlit("*");
    assert(cuts_last_segment("core.org.contexts.info"@, "core.org.contexts"@)) by {
        assert("core.org.contexts.info"@.subrange(0, 17) =~= "core.org.contexts"@);
    }
    assert(cuts_last_segment("core.org.contexts"@, "core.org"@)) by {
        assert("core.org.contexts"@.subrange(0, 8) =~= "core.org"@);
    }
    assert(cuts_last_segment("core.org"@, "core"@)) by {
        assert("core.org"@.subrange(0, 4) =~= "core"@);
    }
    let qs = seq!["core.org.contexts.info"@, "core.org.contexts"@, "core.org"@, "core"@, "*"@];
    assert(qs.last() == "*"@);
    assert(forall|i: int| 0 <= i < qs.len() - 2 ==> cuts_last_segment(#[trigger] qs[i], qs[i + 1]));
}

proof fn lemma_chain_contexts()
    ensures
        qualifier_chain(seq!["core.org.contexts.list"@, "core.org.contexts"@, "core.org"@, "core"@, "*"@]),
{
    reveal_strlit("core.org.contexts.list");
    reveal_strlit("core.org.contexts");
    reveal_strlit("core.org");
    reveal_strlit("core");
    reveal_strlit("*");
    assert(cuts_last_segment("core.org.contexts.list"@, "core.org.contexts"@)) by {
        assert("core.org.contexts.list"@.subrange(0, 17) =~= "core.org.contexts"@);
    }
    assert(cuts_last_segment("core.org.contexts"@, "core.org"@)) by {
        assert("core.org.contexts"@.subrange(0, 8) =~= "core.org"@);
    }
    assert(cuts_last_segment("core.org"@, "core"@)) by {
        assert("core.org"@.subrange(0, 4) =~= "core"@);
    }
    let qs = seq!["core.org.contexts.list"@, "core.org.contexts"@, "core.org"@, "core"@, "*"@];
    assert(qs.last() == "*"@);
    assert(forall|i: int| 0 <= i < qs.len() - 2 ==> cuts_last_segment(#[trigger] qs[i], qs[i + 1]));
}

proof fn lemma_chain_perms()
    ensures
        qualifier_chain(seq!["core.org.perm.list"@, "core.org.perm"@, "core.org"@, "core"@, "*"@]),
{
    reveal_strlit("core.org.perm.list");
    reveal_strlit("core.org.perm");
    reveal_strlit("core.org");
    reveal_strlit("core");
    reveal_strlit("*");
    assert(cuts_last_segment("core.org.perm.list"@, "core.org.perm"@)) by {
        assert("core.org.perm.list"@.subrange(0, 13) =~= "core.org.perm"@);
    }
    assert(cuts_last_segment("core.org.perm"@, "core.org"@)) by {
        assert("core.org.perm"@.subrange(0, 8) =~= "core.org"@);
    }
    assert(cuts_last_segment("core.org"@, "core"@)) by {
        assert("core.org"@.subrange(0, 4) =~= "core"@);
    }
    let qs = seq!["core.org.perm.list"@, "core.org.perm"@, "core.org"@, "core"@, "*"@];
    assert(qs.last() == "*"@);
    assert(forall|i: int| 0 <= i < qs.len() - 2 ==> cuts_last_segment(#[trigger] qs[i], qs[i + 1]));
}

proof fn lemma_chain_permset()
    ensures
        qualifier_chain(seq!["core.org.context.perm.set"@, "core.org.context.perm"@, "core.org.context"@, "core.org"@, "core"@, "*"@]),
{
    reveal_strlit("core.org.context.perm.set");
    reveal_strlit("core.org.context.perm");
    reveal_strlit("core.org.context");
    reveal_strlit("core.org");
    reveal_strlit("core");
    reveal_strlit("*");
    assert(cuts_last_segment("core.org.context.perm.set"@, "core.org.context.perm"@)) by {
        assert("core.org.context.perm.set"@.subrange(0, 21) =~= "core.org.context.perm"@);
    }
    assert(cuts_last_segment("core.org.context.perm"@, "core.org.context"@)) by {
        assert("core.org.context.perm"@.subrange(0, 16) =~= "core.org.context"@);
    }
    assert(cuts_last_segment("core.org.context"@, "core.org"@)) by {
        assert("core.org.context"@.subrange(0, 8) =~= "core.org"@);
    }
    assert(cuts_last_segment("core.org"@, "core"@)) by {
        assert("core.org"@.subrange(0, 4) =~= "core"@);
    }
    let qs = seq!["core.org.context.perm.set"@, "core.org.context.perm"@, "core.org.context"@, "core.org"@, "core"@, "*"@];
    assert(qs.last() == "*"@);
    assert(forall|i: int| 0 <= i < qs.len() - 2 ==> cuts_last_segment(#[trigger] qs[i], qs[i + 1]));
}

/// Every command that can be disabled is asked about from its own qualifier
/// down: its qualifiers are the chain from a qualifier one segment below the
/// area it belongs to (`core.info` for the information commands, `core.org`
/// and below for the organisation ones) down to "*", so the rule on its own
/// qualifier is asked first and the broader ones only after it. Only
/// `contextset` and `contextunset` have no qualifier at all.
pub proof fn law_qualifiers_descend_from_command(c: CoreCmd)
    ensures
        command_qualifiers(c).len() == 0 <==> (c is ContextSet || c is ContextUnset),
        !(c is ContextSet || c is ContextUnset) ==> qualifier_chain(command_qualifiers(c)),
        (c is Ping || c is Uptime) ==> command_qualifiers(c).len() == 4 && command_qualifiers(c)[1]
            == "core.info"@,
        !(c is Ping || c is Uptime || c is ContextSet || c is ContextUnset) ==> command_qualifiers(c).len() >= 5
            && command_qualifiers(c)[command_qualifiers(c).len() - 3] == "core.org"@,
{
    match c {
        CoreCmd::Ping(_) => lemma_chain_ping(),
        CoreCmd::Uptime(_) => lemma_chain_uptime(),
        CoreCmd::GroupAdd(_) => lemma_chain_groupadd(),
        CoreCmd::GroupMod(_) => lemma_chain_groupmod(),
        CoreCmd::Groups(_) => lemma_chain_groups(),
        CoreCmd::GroupDel(_) => lemma_chain_groupadd(),
        CoreCmd::GroupInfo(_) => lemma_chain_groupinfo(),
        CoreCmd::ContextAdd(_) => lemma_chain_contextadd(),
        CoreCmd::ContextDel(_) => lemma_chain_contextdel(),
        CoreCmd::ContextSet(_) => {},
        CoreCmd::ContextUnset(_) => {},
        CoreCmd::ContextInfo(_) => lemma_chain_contextinfo(),
        CoreCmd::Contexts(_) => lemma_chain_contexts(),
        CoreCmd::PermSet(_) => lemma_chain_permset(),
        CoreCmd::Perms(_) => lemma_chain_perms(),
    }
}

/// `contextset` and `contextunset` cannot be disabled: they have no qualifier
/// that a rule could be found for, so they run whatever rules are stored.
pub proof fn law_room_context_commands_cannot_be_disabled(c: CoreCmd, answers: Seq<Option<bool>>)
    requires
        c is ContextSet || c is ContextUnset,
        answers.len() == command_qualifiers(c).len(),
    ensures
        resolve(command_default(c), answers),
{
    assert(answers =~= Seq::<Option<bool>>::empty());
}

/// Every entry is registered under the name of its command.
pub open spec fn named_after_commands(entries: Seq<(Seq<char>, CoreCmd)>) -> bool {
    forall|i: int| 0 <= i < entries.len() ==> (#[trigger] entries[i]).0 == command_name(entries[i].1)
}

/// What registering the commands `added` on top of `before` gives.
pub open spec fn extends_with(
    before: Seq<(Seq<char>, CoreCmd)>,
    after: Seq<(Seq<char>, CoreCmd)>,
    added: Seq<Seq<char>>,
) -> bool {
    &&& after.len() == before.len() + added.len()
    &&& after.take(before.len() as int) == before
    &&& names(after.skip(before.len() as int)) == added
    &&& named_after_commands(after.skip(before.len() as int))
}

/// None of `added` is registered in `entries`.
pub open spec fn all_free(entries: Seq<(Seq<char>, CoreCmd)>, added: Seq<Seq<char>>) -> bool {
    forall|k: int| 0 <= k < added.len() ==> !registered(entries, #[trigger] added[k])
}

/// Names of the information commands.
pub open spec fn info_names() -> Seq<Seq<char>> {
    seq!["ping"@, "uptime"@]
}

/// Names of the group commands.
pub open spec fn group_names() -> Seq<Seq<char>> {
    seq!["groupadd"@, "groupmod"@, "groups"@, "groupdel"@, "groupinfo"@]
}

/// Names of the context commands.
pub open spec fn context_names() -> Seq<Seq<char>> {
    seq![
        "contextadd"@,
        "contextdel"@,
        "contextset"@,
        "contextunset"@,
        "contextinfo"@,
        "contexts"@,
    ]
}

/// Names of the permission commands.
pub open spec fn permission_names() -> Seq<Seq<char>> {
    seq!["permset"@, "perms"@]
}

/// Names of the organisation commands.
pub open spec fn org_names() -> Seq<Seq<char>> {
    group_names() + context_names() + permission_names()
}

/// Names of all built-in commands, in order of registration.
pub open spec fn core_names() -> Seq<Seq<char>> {
    info_names() + org_names()
}

/// Lengths and distinguishing letters of the command names.
proof fn lemma_name_facts()
    ensures
        "ping"@.len() == 4,
        "uptime"@.len() == 6,
        "groups"@.len() == 6 && "groups"@[0] == 'g' && "uptime"@[0] == 'u',
        "groupadd"@.len() == 8 && "groupadd"@[5] == 'a' && "groupadd"@[0] == 'g',
        "groupmod"@.len() == 8 && "groupmod"@[5] == 'm' && "groupmod"@[0] == 'g',
        "groupdel"@.len() == 8 && "groupdel"@[5] == 'd' && "groupdel"@[0] == 'g',
        "contexts"@.len() == 8 && "contexts"@[0] == 'c',
        "groupinfo"@.len() == 9,
        "contextadd"@.len() == 10 && "contextadd"@[7] == 'a',
        "contextdel"@.len() == 10 && "contextdel"@[7] == 'd',
        "contextset"@.len() == 10 && "contextset"@[7] == 's',
        "contextunset"@.len() == 12,
        "contextinfo"@.len() == 11,
        "permset"@.len() == 7,
        "perms"@.len() == 5,
{
    reveal_strlit("ping");
    reveal_strlit("uptime");
    reveal_strlit("groupadd");
    reveal_strlit("groupmod");
    reveal_strlit("groups");
    reveal_strlit("groupdel");
    reveal_strlit("groupinfo");
    reveal_strlit("contextadd");
    reveal_strlit("contextdel");
    reveal_strlit("contextset");
    reveal_strlit("contextunset");
    reveal_strlit("contextinfo");
    reveal_strlit("contexts");
    reveal_strlit("permset");
    reveal_strlit("perms");
}

/// The built-in commands have pairwise distinct names, so registering them all
/// into an empty index never meets a name twice.
pub proof fn law_core_names_distinct()
    ensures
        core_names().no_duplicates(),
{
    lemma_name_facts();
    let n = core_names();
    assert(n =~= seq![
        "ping"@,
        "uptime"@,
        "groupadd"@,
        "groupmod"@,
        "groups"@,
        "groupdel"@,
        "groupinfo"@,
        "contextadd"@,
        "contextdel"@,
        "contextset"@,
        "contextunset"@,
        "contextinfo"@,
        "contexts"@,
        "permset"@,
        "perms"@,
    ]);
}

/// The name a built-in command is invoked with.
pub fn name_of(c: &CoreCmd) -> (res: &'static str)
    ensures
        res@ == command_name(*c),
{
    match c {
        CoreCmd::Ping(_) => "ping",
        CoreCmd::Uptime(_) => "uptime",
        CoreCmd::GroupAdd(_) => "groupadd",
        CoreCmd::GroupMod(_) => "groupmod",
        CoreCmd::Groups(_) => "groups",
        CoreCmd::GroupDel(_) => "groupdel",
        CoreCmd::GroupInfo(_) => "groupinfo",
        CoreCmd::ContextAdd(_) => "contextadd",
        CoreCmd::ContextDel(_) => "contextdel",
        CoreCmd::ContextSet(_) => "contextset",
        CoreCmd::ContextUnset(_) => "contextunset",
        CoreCmd::ContextInfo(_) => "contextinfo",
        CoreCmd::Contexts(_) => "contexts",
        CoreCmd::PermSet(_) => "permset",
        CoreCmd::Perms(_) => "perms",
    }
}

/// Names of commands.
pub open spec fn names_of(cmds: Seq<CoreCmd>) -> Seq<Seq<char>> {
    cmds.map_values(|c: CoreCmd| command_name(c))
}

proof fn lemma_still_free(
    entries: Seq<(Seq<char>, CoreCmd)>,
    name: Seq<char>,
    cmd: CoreCmd,
    other: Seq<char>,
)
    requires
        !registered(entries, other),
        name != other,
    ensures
        !registered(entries.push((name, cmd)), other),
{
    let p = entries.push((name, cmd));
    if registered(p, other) {
        let i = choose|i: int| 0 <= i < p.len() && #[trigger] p[i].0 == other;
        assert(i < entries.len());
        assert(entries[i].0 == other);
    }
}

/// Registers `cmds` in order, each under its own name.
fn enroll_all(index: &mut CmdIndex<CoreCmd>, cmds: Vec<CoreCmd>)
    requires
        all_free(old(index)@, names_of(cmds@)),
        names_of(cmds@).no_duplicates(),
    ensures
        extends_with(old(index)@, final(index)@, names_of(cmds@)),
{
    let ghost start = index@;
    let ghost all = cmds@;
    let ghost added = names_of(all);
    let total = cmds.len();
    assert(all.len() == total);
    let mut rest = cmds;
    let mut i: usize = 0;
    proof {
        assert(index@.take(start.len() as int) =~= start);
        assert(index@.skip(start.len() as int) =~= Seq::<(Seq<char>, CoreCmd)>::empty());
        assert(names(Seq::<(Seq<char>, CoreCmd)>::empty()) =~= added.take(0));
        assert(all.skip(0) =~= all);
    }
    while rest.len() > 0
        invariant
            added == names_of(all),
            added.no_duplicates(),
            i + rest@.len() == all.len(),
            all.len() <= usize::MAX,
            rest@ == all.skip(i as int),
            index@.len() == start.len() + i,
            index@.take(start.len() as int) == start,
            names(index@.skip(start.len() as int)) == added.take(i as int),
            named_after_commands(index@.skip(start.len() as int)),
            forall|k: int| i <= k < added.len() ==> !registered(index@, #[trigger] added[k]),
        decreases rest.len(),
    {
        let ghost before = index@;
        let c = rest.remove(0);
        let name = name_of(&c);
        proof {
            assert(c == all[i as int]);
            assert(name@ == added[i as int]);
            assert(rest@ =~= all.skip(i + 1));
        }
        index.register(name, c);
        proof {
            let after = index@;
            assert(after == before.push((name@, c)));
            assert(after.take(start.len() as int) =~= before.take(start.len() as int));
            assert(after.skip(start.len() as int) =~= before.skip(start.len() as int).push((name@, c)));
            assert(names(after.skip(start.len() as int)) =~= added.take(i + 1));
            assert forall|k: int| i + 1 <= k < added.len() implies !registered(after, #[trigger] added[k]) by {
                assert(added[k] != added[i as int]);
                lemma_still_free(before, name@, c, added[k]);
            }
        }
        i = i + 1;
    }
    proof {
        assert(added.take(i as int) =~= added);
    }
}

proof fn lemma_extend(
    before: Seq<(Seq<char>, CoreCmd)>,
    mid: Seq<(Seq<char>, CoreCmd)>,
    after: Seq<(Seq<char>, CoreCmd)>,
    first: Seq<Seq<char>>,
    second: Seq<Seq<char>>,
)
    requires
        extends_with(before, mid, first),
        extends_with(mid, after, second),
    ensures
        extends_with(before, after, first + second),
{
    assert(after.take(before.len() as int) =~= mid.take(before.len() as int));
    assert(names(after.skip(before.len() as int)) =~= names(mid.skip(before.len() as int)) + names(
        after.skip(mid.len() as int),
    )) by {
        assert forall|k: int| 0 <= k < after.len() - before.len() implies names(
            after.skip(before.len() as int),
        )[k] == (names(mid.skip(before.len() as int)) + names(after.skip(mid.len() as int)))[k] by {
            if k < mid.len() - before.len() {
                assert(after[before.len() + k] == mid[before.len() + k]);
            }
        }
    }
    assert forall|i: int| 0 <= i < after.skip(before.len() as int).len() implies (
    #[trigger] after.skip(before.len() as int)[i]).0 == command_name(
        after.skip(before.len() as int)[i].1,
    ) by {
        if i < mid.len() - before.len() {
            assert(after[before.len() + i] == mid[before.len() + i]);
            assert(mid.skip(before.len() as int)[i] == mid[before.len() + i]);
        } else {
            assert(after.skip(mid.len() as int)[i - (mid.len() - before.len())] == after[before.len()
                + i]);
        }
    }
}

proof fn lemma_free_after(
    before: Seq<(Seq<char>, CoreCmd)>,
    after: Seq<(Seq<char>, CoreCmd)>,
    added: Seq<Seq<char>>,
    later: Seq<Seq<char>>,
)
    requires
        extends_with(before, after, added),
        all_free(before, later),
        forall|i: int, j: int| 0 <= i < added.len() && 0 <= j < later.len() ==> added[i] != later[j],
    ensures
        all_free(after, later),
{
    assert forall|k: int| 0 <= k < later.len() implies !registered(after, #[trigger] later[k]) by {
        if registered(after, later[k]) {
            let i = choose|i: int| 0 <= i < after.len() && #[trigger] after[i].0 == later[k];
            if i < before.len() {
                assert(after.take(before.len() as int)[i] == after[i]);
                assert(before[i].0 == later[k]);
            } else {
                let j = i - before.len();
                assert(after.skip(before.len() as int)[j] == after[i]);
                assert(names(after.skip(before.len() as int))[j] == later[k]);
                assert(added[j] == later[k]);
            }
        }
    }
}

/// Registers the `ping` and `uptime` commands.
pub fn register_info(index: &mut CmdIndex<CoreCmd>)
    requires
        all_free(old(index)@, info_names()),
    ensures
        extends_with(old(index)@, final(index)@, info_names()),
{
    let cmds = vec![CoreCmd::Ping(CmdPing), CoreCmd::Uptime(CmdUptime::new())];
    proof {
        lemma_name_facts();
        assert(names_of(cmds@) =~= info_names());
    }
    enroll_all(index, cmds);
}

/// Registers the group commands.
pub fn register_groups(index: &mut CmdIndex<CoreCmd>)
    requires
        all_free(old(index)@, group_names()),
    ensures
        extends_with(old(index)@, final(index)@, group_names()),
{
    let cmds = vec![
        CoreCmd::GroupAdd(CmdGroupAdd),
        CoreCmd::GroupMod(CmdGroupMod),
        CoreCmd::Groups(CmdGroups),
        CoreCmd::GroupDel(CmdGroupDel),
        CoreCmd::GroupInfo(CmdGroupInfo),
    ];
    proof {
        lemma_name_facts();
        assert(names_of(cmds@) =~= group_names());
    }
    enroll_all(index, cmds);
}

/// Registers the context commands.
pub fn register_contexts(index: &mut CmdIndex<CoreCmd>)
    requires
        all_free(old(index)@, context_names()),
    ensures
        extends_with(old(index)@, final(index)@, context_names()),
{
    let cmds = vec![
        CoreCmd::ContextAdd(CmdContextAdd),
        CoreCmd::ContextDel(CmdContextDel),
        CoreCmd::ContextSet(CmdContextSet),
        CoreCmd::ContextUnset(CmdContextUnset),
        CoreCmd::ContextInfo(CmdContextInfo),
        CoreCmd::Contexts(CmdContexts),
    ];
    proof {
        lemma_name_facts();
        assert(names_of(cmds@) =~= context_names());
    }
    enroll_all(index, cmds);
}

/// Registers the permission rule commands.
pub fn register_permissions(index: &mut CmdIndex<CoreCmd>)
    requires
        all_free(old(index)@, permission_names()),
    ensures
        extends_with(old(index)@, final(index)@, permission_names()),
{
    let cmds = vec![CoreCmd::PermSet(CmdPermSet), CoreCmd::Perms(CmdPerms)];
    proof {
        lemma_name_facts();
        assert(names_of(cmds@) =~= permission_names());
    }
    enroll_all(index, cmds);
}

proof fn lemma_split_free(entries: Seq<(Seq<char>, CoreCmd)>, a: Seq<Seq<char>>, b: Seq<Seq<char>>)
    requires
        all_free(entries, a + b),
    ensures
        all_free(entries, a),
        all_free(entries, b),
{
    assert forall|k: int| 0 <= k < a.len() implies !registered(entries, #[trigger] a[k]) by {
        assert((a + b)[k] == a[k]);
    }
    assert forall|k: int| 0 <= k < b.len() implies !registered(entries, #[trigger] b[k]) by {
        assert((a + b)[a.len() + k] == b[k]);
    }
}

/// Registers the organisation commands: groups, contexts and permission rules.
pub fn register_org(index: &mut CmdIndex<CoreCmd>)
    requires
        all_free(old(index)@, org_names()),
    ensures
        extends_with(old(index)@, final(index)@, org_names()),
{
    let ghost s0 = index@;
    proof {
        lemma_name_facts();
        law_core_names_distinct();
        assert(org_names() =~= group_names() + (context_names() + permission_names()));
        lemma_split_free(s0, group_names(), context_names() + permission_names());
        lemma_split_free(s0, context_names(), permission_names());
    }
    register_groups(index);
    let ghost s1 = index@;
    proof {
        assert(core_names() =~= info_names() + (group_names() + context_names() + permission_names()));
        lemma_free_after(s0, s1, group_names(), context_names());
        lemma_free_after(s0, s1, group_names(), permission_names());
    }
    register_contexts(index);
    let ghost s2 = index@;
    proof {
        lemma_free_after(s1, s2, context_names(), permission_names());
    }
    register_permissions(index);
    proof {
        lemma_extend(s0, s1, s2, group_names(), context_names());
        lemma_extend(s0, s2, index@, group_names() + context_names(), permission_names());
    }
}

/// Registers every built-in command.
pub fn register_core(index: &mut CmdIndex<CoreCmd>)
    requires
        all_free(old(index)@, core_names()),
    ensures
        extends_with(old(index)@, final(index)@, core_names()),
{
    let ghost s0 = index@;
    proof {
        lemma_name_facts();
        lemma_split_free(s0, info_names(), org_names());
    }
    register_info(index);
    let ghost s1 = index@;
    proof {
        lemma_free_after(s0, s1, info_names(), org_names());
    }
    register_org(index);
    proof {
        lemma_extend(s0, s1, index@, info_names(), org_names());
    }
}

/// The index of all built-in commands.
pub fn core_index() -> (res: CmdIndex<CoreCmd>)
    ensures
        names(res@) == core_names(),
        named_after_commands(res@),
{
    let mut index = CmdIndex::new();
    register_core(&mut index);
    assert(index@.skip(0) =~= index@);
    index
}

} // verus!
